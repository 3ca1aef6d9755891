use internal_api::{is_permission_granted, PermissionState};

#[test]
fn granted_permission_is_reported_as_granted() {
    assert_eq!(is_permission_granted(PermissionState::Granted), Some(true));
}

#[test]
fn denied_permission_is_reported_as_refused() {
    assert_eq!(is_permission_granted(PermissionState::Denied), Some(false));
}

#[test]
fn permission_still_to_be_asked_gives_no_answer() {
    assert_eq!(is_permission_granted(PermissionState::Prompt), None);
}

#[test]
fn permission_needing_a_rationale_gives_no_answer() {
    assert_eq!(is_permission_granted(PermissionState::PromptWithRationale), None);
}

#[test]
fn only_a_decision_gives_an_answer() {
    let states = [
        PermissionState::Granted,
        PermissionState::Denied,
        PermissionState::Prompt,
        PermissionState::PromptWithRationale,
    ];
    for state in states {
        let decided = state == PermissionState::Granted || state == PermissionState::Denied;
        assert_eq!(is_permission_granted(state).is_some(), decided);
    }
}
