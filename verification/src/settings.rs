//! The settings panel's actions and the decisions it makes on user input.
use vstd::prelude::*;

use crate::text::{concat_str, decimal, u64_to_decimal};

verus! {

/// Actions the settings panel can emit.
pub enum SettingsAction {
    SaveConfig,
    /// The user toggled the storage backend. The cookies must be migrated
    /// *before* the configuration is flipped, so this carries the requested
    /// value rather than changing the configuration itself.
    SetStorageBackend { use_credential_manager: bool },
    /// Open a file picker for the background image.
    PickBackgroundImage,
    /// Forget the background image.
    ClearBackgroundImage,
    /// Open a file picker for a custom ambience sound.
    PickRainSound,
    /// Go back to the built-in synthesised rain.
    ClearRainSound,
    /// Download a fresh corner-overlay image.
    FetchOverlayImage,
    /// Remove the current corner-overlay image.
    ClearOverlayImage,
    ChangePassword { new_password: String },
    ClearPassword,
    EnableMultiInstance,
    DisableMultiInstance,
}

/// What is known about the loaded background image, so the panel can report
/// animation and failures.
#[derive(Clone, Copy, Debug)]
pub struct BackgroundInfo {
    pub broken: bool,
    pub frames: usize,
    pub truncated: bool,
}

/// Live status of the corner overlay.
#[derive(Clone, Debug)]
pub struct OverlayInfo {
    pub loading: bool,
    pub has_image: bool,
    pub credit: Option<String>,
    pub error: Option<String>,
}

/// Persistent state of the panel's password-change form.
pub struct SettingsState {
    pub new_password_input: String,
    pub confirm_password_input: String,
}

impl Default for SettingsState {
    fn default() -> (s: Self)
        ensures
            s.new_password_input@.len() == 0,
            s.confirm_password_input@.len() == 0,
    {
        SettingsState { new_password_input: String::new(), confirm_password_input: String::new() }
    }
}

impl SettingsState {
    /// A new password has been typed and confirmed identically.
    pub open spec fn spec_passwords_match(&self) -> bool {
        self.new_password_input@.len() > 0 && self.new_password_input@ == self.confirm_password_input@
    }

    /// Whether the "Change Password" button is enabled.
    pub fn passwords_match(&self) -> (b: bool)
        ensures
            b == self.spec_passwords_match(),
    {
        !self.new_password_input.as_str().is_empty() && self.new_password_input == self.confirm_password_input
    }

    /// Whether to warn that the passwords differ: both fields are filled in
    /// and they do not match.
    pub fn shows_mismatch(&self) -> (b: bool)
        ensures
            b == (self.new_password_input@.len() > 0 && self.confirm_password_input@.len() > 0
                && !self.spec_passwords_match()),
    {
        !self.new_password_input.as_str().is_empty() && !self.confirm_password_input.as_str().is_empty()
            && !self.passwords_match()
    }

    /// The "Change Password" button was clicked: when the passwords match,
    /// empty both fields and request the change; otherwise nothing happens.
    pub fn take_password_change(&mut self) -> (a: Option<SettingsAction>)
        ensures
            old(self).spec_passwords_match() ==> {
                &&& a matches Some(SettingsAction::ChangePassword { new_password })
                &&& new_password@ == old(self).new_password_input@
                &&& final(self).new_password_input@.len() == 0
                &&& final(self).confirm_password_input@.len() == 0
            },
            !old(self).spec_passwords_match() ==> a is None && final(self).new_password_input@
                == old(self).new_password_input@ && final(self).confirm_password_input@
                == old(self).confirm_password_input@,
    {
        if !self.passwords_match() {
            return None;
        }
        let new_password = self.new_password_input.clone();
        self.new_password_input = String::new();
        self.confirm_password_input = String::new();
        Some(SettingsAction::ChangePassword { new_password })
    }
}

/// The action for the multi-instance checkbox once the user flips it.
pub fn multi_instance_action(wants_multi: bool) -> (a: SettingsAction)
    ensures
        wants_multi ==> a is EnableMultiInstance,
        !wants_multi ==> a is DisableMultiInstance,
{
    if wants_multi {
        SettingsAction::EnableMultiInstance
    } else {
        SettingsAction::DisableMultiInstance
    }
}

/// The launch delay stored for the value typed into the seconds field:
/// negative values become 0.
pub fn launch_delay_from_input(secs: i32) -> (d: u32)
    ensures
        d == (if secs < 0 {
            0
        } else {
            secs as int
        }),
{
    if secs < 0 {
        0
    } else {
        secs as u32
    }
}

/// The line describing the chosen background file: its name, and for an
/// animation the number of frames.
pub fn background_detail(shown: &str, frames: usize) -> (r: String)
    ensures
        r@ == (if frames > 1 {
            shown@ + " \u{2014} animated, "@ + decimal(frames as nat) + " frames"@
        } else {
            shown@
        }),
{
    if frames > 1 {
        let count = u64_to_decimal(frames as u64);
        let a = concat_str(shown, " \u{2014} animated, ");
        let b = concat_str(a.as_str(), count.as_str());
        concat_str(b.as_str(), " frames")
    } else {
        String::from_str(shown)
    }
}

} // verus!
