//! Command sequencing of an alert episode.
//!
//! When the countdown elapses, the window is first demoted — dropped to the
//! bottom of the stacking order and made click-through — so it does not
//! obstruct the user; then the alert sound is played; and afterwards the
//! window is restored to a focused, interactive, top-most state. The
//! restore step must not depend on whether the audio step succeeded: audio
//! failure must never leave the user with an unresponsive click-through
//! window. This module fixes both command sequences and the handling of an
//! audio failure; issuing the commands is the host toolkit's part.

use vstd::prelude::*;

verus! {

/// Stacking level of the host window.
#[derive(Clone, Copy, Debug, PartialEq, Eq, Structural)]
pub enum WindowLevel {
    AlwaysOnBottom,
    AlwaysOnTop,
}

/// An out-of-band command to the host window.
#[derive(Clone, Copy, Debug, PartialEq, Eq, Structural)]
pub enum WindowCommand {
    /// Set the stacking level.
    SetWindowLevel(WindowLevel),
    /// Turn mouse click-through on or off.
    SetMousePassthrough(bool),
    /// Ask for keyboard focus.
    RequestFocus,
    /// Ask for a repaint.
    RequestRepaint,
}

/// How the audio step of an alert episode ended.
#[derive(Clone, Copy, Debug, PartialEq, Eq, Structural)]
pub enum AudioOutcome {
    /// The clip was decoded and played to the end.
    Played,
    /// No audio output device could be opened.
    DeviceUnavailable,
    /// The bundled clip was missing or could not be decoded.
    DecodeFailed,
}

/// The commands that demote the window on entering the elapsed phase.
pub open spec fn demote_seq() -> Seq<WindowCommand> {
    seq![
        WindowCommand::SetWindowLevel(WindowLevel::AlwaysOnBottom),
        WindowCommand::SetMousePassthrough(true),
    ]
}

/// The commands that restore the window after the audio step.
pub open spec fn restore_seq() -> Seq<WindowCommand> {
    seq![
        WindowCommand::SetWindowLevel(WindowLevel::AlwaysOnTop),
        WindowCommand::SetMousePassthrough(false),
        WindowCommand::RequestFocus,
        WindowCommand::RequestRepaint,
    ]
}

/// The commands to issue, in order, immediately on entering the elapsed
/// phase, before the audio step starts: drop the window to the bottom and
/// let clicks pass through it.
pub fn demote_commands() -> (cmds: Vec<WindowCommand>)
    ensures
        cmds@ == demote_seq(),
{
    let mut cmds: Vec<WindowCommand> = Vec::new();
    cmds.push(WindowCommand::SetWindowLevel(WindowLevel::AlwaysOnBottom));
    cmds.push(WindowCommand::SetMousePassthrough(true));
    proof {
        assert(cmds@ =~= demote_seq());
    }
    cmds
}

/// The commands to issue, in order, once the audio step has ended: raise
/// the window back to the top, make it interactive again, focus it and
/// repaint. The result is the same for every outcome of the audio step —
/// the window is recovered even when playback failed.
pub fn restore_commands(outcome: AudioOutcome) -> (cmds: Vec<WindowCommand>)
    ensures
        cmds@ == restore_seq(),
{
    let _ = outcome;
    let mut cmds: Vec<WindowCommand> = Vec::new();
    cmds.push(WindowCommand::SetWindowLevel(WindowLevel::AlwaysOnTop));
    cmds.push(WindowCommand::SetMousePassthrough(false));
    cmds.push(WindowCommand::RequestFocus);
    cmds.push(WindowCommand::RequestRepaint);
    proof {
        assert(cmds@ =~= restore_seq());
    }
    cmds
}

/// The line to log for a failed audio step, and nothing for a successful
/// one: an audio failure is reported and skipped, never allowed to stop
/// the episode.
pub fn audio_failure_message(outcome: AudioOutcome) -> (msg: Option<&'static str>)
    ensures
        outcome is Played ==> msg is None,
        outcome is DeviceUnavailable ==> (msg matches Some(m)
            && m@ == "alert: no audio output device; skipping playback"@),
        outcome is DecodeFailed ==> (msg matches Some(m)
            && m@ == "alert: could not decode the bundled clip; skipping playback"@),
{
    match outcome {
        AudioOutcome::Played => None,
        AudioOutcome::DeviceUnavailable => Some(
            "alert: no audio output device; skipping playback",
        ),
        AudioOutcome::DecodeFailed => Some(
            "alert: could not decode the bundled clip; skipping playback",
        ),
    }
}

} // verus!
