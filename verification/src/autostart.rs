//! Keeping the login-launch registration of the operating system in step
//! with the stored settings.

use crate::settings::SettingsError;
use vstd::prelude::*;

verus! {

/// A call that the synchroniser makes to the operating system.
#[derive(Clone, Copy, Debug, PartialEq, Eq, Structural)]
pub enum AutostartCall {
    /// Ask whether the application is registered.
    Query,
    Enable,
    Disable,
}

impl AutostartCall {
    /// The error of a synchronisation in which this call failed, for the
    /// reason given.
    pub fn failure(self, detail: String) -> (r: SettingsError)
        ensures
            r == match self {
                AutostartCall::Query => SettingsError::AutostartQuery(detail),
                AutostartCall::Enable => SettingsError::AutostartEnable(detail),
                AutostartCall::Disable => SettingsError::AutostartDisable(detail),
            },
    {
        match self {
            AutostartCall::Query => SettingsError::AutostartQuery(detail),
            AutostartCall::Enable => SettingsError::AutostartEnable(detail),
            AutostartCall::Disable => SettingsError::AutostartDisable(detail),
        }
    }
}

impl AutostartChange {
    /// The call that carries this change out, if it needs one.
    pub fn call(self) -> (r: Option<AutostartCall>)
        ensures
            r == match self {
                AutostartChange::Keep => None,
                AutostartChange::Enable => Some(AutostartCall::Enable),
                AutostartChange::Disable => Some(AutostartCall::Disable),
            },
    {
        match self {
            AutostartChange::Keep => None,
            AutostartChange::Enable => Some(AutostartCall::Enable),
            AutostartChange::Disable => Some(AutostartCall::Disable),
        }
    }
}

/// What has to be done to the login-launch registration.
#[derive(Clone, Copy, Debug, PartialEq, Eq, Structural)]
pub enum AutostartChange {
    /// The registration is as desired: no call to the operating system.
    Keep,
    /// Register the application to launch at login.
    Enable,
    /// Remove the registration.
    Disable,
}

/// The change that brings a registration in state `current` to `desired`.
pub open spec fn change_needed(desired: bool, current: bool) -> AutostartChange {
    if desired && !current {
        AutostartChange::Enable
    } else if !desired && current {
        AutostartChange::Disable
    } else {
        AutostartChange::Keep
    }
}

/// The state of the registration once `change` has been carried out.
pub open spec fn registration_after(current: bool, change: AutostartChange) -> bool {
    match change {
        AutostartChange::Keep => current,
        AutostartChange::Enable => true,
        AutostartChange::Disable => false,
    }
}

/// Decides what to do to the registration, from the state that is wanted
/// and the state that the operating system reports.
pub fn sync_launch_at_startup(desired: bool, current: bool) -> (r: AutostartChange)
    ensures
        r == change_needed(desired, current),
        r == AutostartChange::Keep <==> desired == current,
        registration_after(current, r) == desired,
{
    if desired && !current {
        AutostartChange::Enable
    } else if !desired && current {
        AutostartChange::Disable
    } else {
        AutostartChange::Keep
    }
}

/// Once the registration has been synchronised, synchronising again with the
/// same wish asks for no call to the operating system.
pub proof fn lemma_sync_settles(desired: bool, current: bool)
    ensures
        change_needed(desired, registration_after(current, change_needed(desired, current)))
            == AutostartChange::Keep,
{
}

} // verus!
