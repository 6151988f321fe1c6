use tugascript::navigation::{
    active_class, auth_link, contains_bytes, link_is_active, section_is_active, Menu, Page,
};
use tugascript::state::{AuthenticatedState, UserState};

#[test]
fn routes_resolve_to_their_pages() {
    assert_eq!(Page::for_path("/"), Page::Home);
    assert_eq!(Page::for_path("/portfolio"), Page::Portfolio);
    assert_eq!(Page::for_path("/blog"), Page::Blog);
    assert_eq!(Page::for_path("/contact"), Page::Contact);
    assert_eq!(Page::for_path("/privacy-policy"), Page::PrivacyPolicy);
    assert_eq!(Page::for_path("/terms-and-conditions"), Page::TermsAndConditions);
}

#[test]
fn unknown_paths_are_not_found() {
    assert_eq!(Page::for_path("/cv"), Page::NotFound);
    assert_eq!(Page::for_path(""), Page::NotFound);
    assert_eq!(Page::for_path("/blog/"), Page::NotFound);
    assert_eq!(Page::for_path("/Blog"), Page::NotFound);
}

#[test]
fn routed_pages_round_trip_through_their_paths() {
    let pages = Page::routed();
    assert_eq!(pages.len(), 6);
    for p in pages {
        let path = p.path().unwrap();
        assert_eq!(Page::for_path(path), p);
    }
    assert_eq!(Page::NotFound.path(), None);
    assert_eq!(Page::TermsAndConditions.path(), Some("/terms-and-conditions"));
}

#[test]
fn link_active_only_on_its_own_path() {
    assert!(link_is_active("/portfolio", "/portfolio"));
    assert!(!link_is_active("/", "/portfolio"));
    assert!(!link_is_active("/portfolio/x", "/portfolio"));
}

#[test]
fn blog_section_active_below_blog() {
    assert!(section_is_active("/blog", "/blog"));
    assert!(section_is_active("/blog/first-post", "/blog"));
    assert!(!section_is_active("/portfolio", "/blog"));
    assert!(!section_is_active("/blo", "/blog"));
    assert!(section_is_active("/anything", ""));
}

#[test]
fn contains_bytes_finds_inner_match() {
    assert!(contains_bytes(b"abcabd", b"abd"));
    assert!(!contains_bytes(b"abcab", b"abd"));
    assert!(!contains_bytes(b"", b"a"));
    assert!(contains_bytes(b"", b""));
}

#[test]
fn active_class_names() {
    assert_eq!(active_class(true), "active");
    assert_eq!(active_class(false), "");
}

#[test]
fn auth_link_without_session_is_sign_in() {
    let l = auth_link(None);
    assert_eq!(l.href, "/sign-in");
    assert_eq!(l.label, "Sign In");
}

#[test]
fn auth_link_signed_out_is_sign_in() {
    let s = AuthenticatedState::new();
    let l = auth_link(Some(&s));
    assert_eq!(l.href, "/sign-in");
    assert_eq!(l.label, "Sign In");
}

#[test]
fn auth_link_signed_in_is_user_page() {
    let mut s = AuthenticatedState::new();
    s.set_user(UserState { first_name: "Afonso", picture: "me.jpg" });
    let l = auth_link(Some(&s));
    assert_eq!(l.href, "/me");
    assert_eq!(l.label, "User");
}

#[test]
fn menu_toggles_and_closes() {
    let mut m = Menu::new();
    assert!(!m.open);
    assert_eq!(m.class(), "");
    m.toggle();
    assert!(m.open);
    assert_eq!(m.class(), "open");
    m.toggle();
    assert!(!m.open);
    m.toggle();
    m.close();
    assert!(!m.open);
    m.close();
    assert!(!m.open);
}
