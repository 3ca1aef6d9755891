//! The notification permission, and the answer the shell gets about it.

use vstd::prelude::*;

verus! {

/// How far the user has decided on a permission.
#[derive(Clone, Copy, Debug, PartialEq, Eq, Structural)]
pub enum PermissionState {
    /// The user allowed it.
    Granted,
    /// The user refused it.
    Denied,
    /// The user has not been asked yet.
    Prompt,
    /// The user has not decided, and should be told why before being asked.
    PromptWithRationale,
}

/// Whether the user has made a decision on the permission.
pub open spec fn decided(state: PermissionState) -> bool {
    state is Granted || state is Denied
}

/// What a permission state says about the grant: where the user has decided,
/// whether the decision was to grant; nothing while the question is open.
pub open spec fn grant_of(state: PermissionState) -> Option<bool> {
    if decided(state) {
        Some(state is Granted)
    } else {
        None
    }
}

/// Tells whether the permission is granted: `Some(true)` when granted,
/// `Some(false)` when denied, `None` while the user still has to decide.
pub fn is_permission_granted(state: PermissionState) -> (answer: Option<bool>)
    ensures
        answer == grant_of(state),
{
    match state {
        PermissionState::Granted => Some(true),
        PermissionState::Denied => Some(false),
        PermissionState::Prompt | PermissionState::PromptWithRationale => None,
    }
}

} // verus!
