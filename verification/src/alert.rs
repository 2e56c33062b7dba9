//! The alert-playback policy.
//!
//! The player itself (audio device, decoding, blocking playback) lives
//! outside the library; what is decided here is which sound source an
//! alert uses and what happens when decoding fails: a failed user-supplied
//! file is fatal and propagates, while a failed built-in asset falls back
//! to the terminal bell.

use vstd::prelude::*;

verus! {

/// Where the alert sound comes from: the user-supplied file, or the
/// built-in asset.
#[derive(Clone, Copy, PartialEq, Eq, Structural, Debug)]
pub enum AlertSource {
    Custom,
    BuiltIn,
}

/// What the player must do once the decode attempt has resolved.
#[derive(Clone, Copy, PartialEq, Eq, Structural, Debug)]
pub enum AlertAction {
    Play,
    RingBell,
    PropagateError,
}

/// The source an alert uses: the custom file exactly when one was
/// configured, the built-in asset otherwise.
pub fn choose_alert_source(has_custom_file: bool) -> (s: AlertSource)
    ensures
        s == (if has_custom_file {
            AlertSource::Custom
        } else {
            AlertSource::BuiltIn
        }),
{
    if has_custom_file {
        AlertSource::Custom
    } else {
        AlertSource::BuiltIn
    }
}

/// The action owed for a decode outcome: play on success; on failure,
/// ring the terminal bell for the built-in asset, and propagate the
/// error for a user-supplied file.
pub open spec fn spec_decode_action(source: AlertSource, decode_ok: bool) -> AlertAction {
    if decode_ok {
        AlertAction::Play
    } else if source is BuiltIn {
        AlertAction::RingBell
    } else {
        AlertAction::PropagateError
    }
}

/// Decide what the player does after its decode attempt.
pub fn decode_action(source: AlertSource, decode_ok: bool) -> (a: AlertAction)
    ensures
        a == spec_decode_action(source, decode_ok),
{
    if decode_ok {
        AlertAction::Play
    } else {
        match source {
            AlertSource::BuiltIn => AlertAction::RingBell,
            AlertSource::Custom => AlertAction::PropagateError,
        }
    }
}

} // verus!
