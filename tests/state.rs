use tugascript::state::{AuthenticatedState, UserState};

#[test]
fn new_state_is_signed_out() {
    let s = AuthenticatedState::new();
    assert!(!s.is_authenticated);
    assert!(s.user.is_none());
}

#[test]
fn set_user_signs_in() {
    let mut s = AuthenticatedState::new();
    s.set_user(UserState { first_name: "Afonso", picture: "/assets/me.jpg" });
    assert!(s.is_authenticated);
    let u = s.user.unwrap();
    assert_eq!(u.first_name, "Afonso");
    assert_eq!(u.picture, "/assets/me.jpg");
}

#[test]
fn set_user_replaces_previous_user() {
    let mut s = AuthenticatedState::new();
    s.set_user(UserState { first_name: "Ana", picture: "a.jpg" });
    s.set_user(UserState { first_name: "Rui", picture: "r.jpg" });
    assert!(s.is_authenticated);
    assert_eq!(s.user.unwrap().first_name, "Rui");
}
