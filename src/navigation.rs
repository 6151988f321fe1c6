use vstd::prelude::*;
use vstd::string::StringSliceAdditionalSpecFns;

use crate::state::AuthenticatedState;

verus! {

/// The pages of the site.
#[derive(Clone, Copy, Debug, PartialEq, Eq, Structural)]
pub enum Page {
    Home,
    Portfolio,
    Blog,
    Contact,
    PrivacyPolicy,
    TermsAndConditions,
    NotFound,
}

/// The path of each page with a route; the not-found page has none.
pub open spec fn page_path(p: Page) -> Option<Seq<char>> {
    match p {
        Page::Home => Some("/"@),
        Page::Portfolio => Some("/portfolio"@),
        Page::Blog => Some("/blog"@),
        Page::Contact => Some("/contact"@),
        Page::PrivacyPolicy => Some("/privacy-policy"@),
        Page::TermsAndConditions => Some("/terms-and-conditions"@),
        Page::NotFound => None,
    }
}

/// The page that a path shows: the page whose path it is, else not found.
pub open spec fn page_for(path: Seq<char>) -> Page {
    if path == "/"@ {
        Page::Home
    } else if path == "/portfolio"@ {
        Page::Portfolio
    } else if path == "/blog"@ {
        Page::Blog
    } else if path == "/contact"@ {
        Page::Contact
    } else if path == "/privacy-policy"@ {
        Page::PrivacyPolicy
    } else if path == "/terms-and-conditions"@ {
        Page::TermsAndConditions
    } else {
        Page::NotFound
    }
}

/// Every routed page is what its own path shows, and only the not-found
/// page has no path.
pub proof fn lemma_page_for_path(p: Page)
    ensures
        page_path(p) is None <==> p == Page::NotFound,
        page_path(p) matches Some(path) ==> page_for(path) == p,
{
    reveal_strlit("/");
    reveal_strlit("/portfolio");
    reveal_strlit("/blog");
    reveal_strlit("/contact");
    reveal_strlit("/privacy-policy");
    reveal_strlit("/terms-and-conditions");
    assert("/"@.len() == 1);
    assert("/blog"@.len() == 5);
    assert("/contact"@.len() == 8);
    assert("/portfolio"@.len() == 10);
    assert("/privacy-policy"@.len() == 15);
    assert("/terms-and-conditions"@.len() == 21);
}

/// Whether two strings hold the same characters.
fn same_text(a: &str, b: &str) -> (r: bool)
    ensures
        r == (a@ == b@),
{
    a.to_owned() == b.to_owned()
}

impl Page {
    /// Every page with a route, in the order the router tries them.
    pub fn routed() -> (r: Vec<Page>)
        ensures
            r@ == seq![
                Page::Home,
                Page::Portfolio,
                Page::Blog,
                Page::Contact,
                Page::PrivacyPolicy,
                Page::TermsAndConditions,
            ],
    {
        let r = vec![
            Page::Home,
            Page::Portfolio,
            Page::Blog,
            Page::Contact,
            Page::PrivacyPolicy,
            Page::TermsAndConditions,
        ];
        assert(r@ =~= seq![
            Page::Home,
            Page::Portfolio,
            Page::Blog,
            Page::Contact,
            Page::PrivacyPolicy,
            Page::TermsAndConditions,
        ]);
        r
    }

    /// The path of the page, if it has a route.
    pub fn path(&self) -> (r: Option<&'static str>)
        ensures
            match r {
                Some(p) => page_path(*self) == Some(p@),
                None => page_path(*self) is None,
            },
    {
        match self {
            Page::Home => Some("/"),
            Page::Portfolio => Some("/portfolio"),
            Page::Blog => Some("/blog"),
            Page::Contact => Some("/contact"),
            Page::PrivacyPolicy => Some("/privacy-policy"),
            Page::TermsAndConditions => Some("/terms-and-conditions"),
            Page::NotFound => None,
        }
    }

    /// The page that `path` shows.
    pub fn for_path(path: &str) -> (r: Page)
        ensures
            r == page_for(path@),
    {
        if same_text(path, "/") {
            Page::Home
        } else if same_text(path, "/portfolio") {
            Page::Portfolio
        } else if same_text(path, "/blog") {
            Page::Blog
        } else if same_text(path, "/contact") {
            Page::Contact
        } else if same_text(path, "/privacy-policy") {
            Page::PrivacyPolicy
        } else if same_text(path, "/terms-and-conditions") {
            Page::TermsAndConditions
        } else {
            Page::NotFound
        }
    }
}

/// `needle` occurs in `hay` at some position.
pub open spec fn is_infix(needle: Seq<u8>, hay: Seq<u8>) -> bool {
    exists|i: int|
        0 <= i && i + needle.len() <= hay.len() && #[trigger] hay.subrange(i, i + needle.len())
            == needle
}

/// Whether `needle` occurs in `hay`.
pub fn contains_bytes(hay: &[u8], needle: &[u8]) -> (r: bool)
    ensures
        r == is_infix(needle@, hay@),
{
    let n = hay.len();
    let mut i: usize = 0;
    while i <= n && n - i >= needle.len()
        invariant
            n == hay@.len(),
            i <= hay@.len(),
            forall|j: int| 0 <= j < i ==> #[trigger] hay@.subrange(j, j + needle@.len()) != needle@,
        decreases n - i,
    {
        let mut k: usize = 0;
        while k < needle.len() && hay[i + k] == needle[k]
            invariant
                n == hay@.len(),
                i + needle@.len() <= hay@.len(),
                k <= needle@.len(),
                forall|m: int| 0 <= m < k ==> hay@[i + m] == needle@[m],
            decreases needle.len() - k,
        {
            k += 1;
        }
        if k == needle.len() {
            assert(hay@.subrange(i as int, i + needle@.len()) =~= needle@);
            return true;
        }
        assert(hay@.subrange(i as int, i + needle@.len())[k as int] != needle@[k as int]);
        i += 1;
    }
    assert forall|j: int|
        0 <= j && j + needle@.len() <= hay@.len() implies #[trigger] hay@.subrange(
        j,
        j + needle@.len(),
    ) != needle@ by {
        assert(j < i);
    }
    false
}

/// Whether a navigation link to `href` is the current page.
pub fn link_is_active(path: &str, href: &str) -> (r: bool)
    ensures
        r == (path@ == href@),
{
    same_text(path, href)
}

/// Whether the current path lies in a section of the site, such as the
/// blog, whose pages all contain the section's path.
pub fn section_is_active(path: &str, section: &str) -> (r: bool)
    ensures
        r == is_infix(section.spec_bytes(), path.spec_bytes()),
{
    contains_bytes(path.as_bytes(), section.as_bytes())
}

/// The class of a navigation entry.
pub fn active_class(active: bool) -> (r: &'static str)
    ensures
        r@ == if active {
            "active"@
        } else {
            ""@
        },
{
    if active {
        "active"
    } else {
        ""
    }
}

/// A link of the navigation bar.
#[derive(Clone, Copy, Debug)]
pub struct NavLink {
    pub href: &'static str,
    pub label: &'static str,
}

/// The account link: the user's page when signed in, else the sign-in page.
/// Without any session state, nobody is signed in.
pub fn auth_link(state: Option<&AuthenticatedState>) -> (r: NavLink)
    ensures
        (match state {
            Some(s) => s.is_authenticated,
            None => false,
        }) ==> r.href@ == "/me"@ && r.label@ == "User"@,
        !(match state {
            Some(s) => s.is_authenticated,
            None => false,
        }) ==> r.href@ == "/sign-in"@ && r.label@ == "Sign In"@,
{
    let signed_in = match state {
        Some(s) => s.is_authenticated,
        None => false,
    };
    if signed_in {
        NavLink { href: "/me", label: "User" }
    } else {
        NavLink { href: "/sign-in", label: "Sign In" }
    }
}

/// Whether the collapsible navigation menu is open.
#[derive(Clone, Copy, Debug, PartialEq, Eq, Structural)]
pub struct Menu {
    pub open: bool,
}

impl Menu {
    /// A closed menu.
    pub fn new() -> (r: Menu)
        ensures
            !r.open,
    {
        Menu { open: false }
    }

    /// The burger button: opens a closed menu and closes an open one.
    pub fn toggle(&mut self)
        ensures
            final(self).open == !old(self).open,
    {
        self.open = !self.open;
    }

    /// Following a link closes the menu.
    pub fn close(&mut self)
        ensures
            !final(self).open,
    {
        self.open = false;
    }

    /// The class of the menu and of its burger bars.
    pub fn class(&self) -> (r: &'static str)
        ensures
            r@ == if self.open {
                "open"@
            } else {
                ""@
            },
    {
        if self.open {
            "open"
        } else {
            ""
        }
    }
}

} // verus!
