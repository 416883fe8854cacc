//! Gate that decides on the session state whether a page may render.
//!
//! It keeps the authenticated pages from rendering for anonymous visitors and
//! sends visitors who are logged in away from the login and signup pages.
//! Static assets and server-function endpoints are not gated.
use crate::text::{begins_with, same_text, starts_with};
use vstd::prelude::*;

verus! {

/// What happens to a request for a page.
#[derive(Clone, Copy, Debug, PartialEq, Eq, Structural)]
pub enum Gate {
    /// The next layer answers it.
    Pass,
    /// A 303 redirect to `/login`.
    ToLogin,
    /// A 303 redirect to `/chat`.
    ToChat,
}

/// Pages that require a logged-in user.
pub open spec fn protected(path: Seq<char>) -> bool {
    ||| path == "/"@
    ||| path == "/chat"@
    ||| begins_with(path, "/chat/"@)
    ||| path == "/library"@
    ||| begins_with(path, "/library/"@)
}

/// Pages that only make sense for anonymous visitors.
pub open spec fn guest_only(path: Seq<char>) -> bool {
    path == "/login"@ || path == "/signup"@
}

/// The decision on a request: an anonymous visitor of a protected page goes to
/// the login page; a logged-in visitor of a guest page, or of the root, goes
/// to the chat.
pub open spec fn gate(path: Seq<char>, authed: bool) -> Gate {
    if protected(path) && !authed {
        Gate::ToLogin
    } else if (guest_only(path) || path == "/"@) && authed {
        Gate::ToChat
    } else {
        Gate::Pass
    }
}

/// Gate rendered pages on authentication state.
pub fn auth_gate(path: &str, authed: bool) -> (r: Gate)
    ensures
        r == gate(path@, authed),
{
    if is_protected_page(path) && !authed {
        return Gate::ToLogin;
    }
    if is_guest_only_page(path) && authed {
        return Gate::ToChat;
    }
    if same_text(path, "/") && authed {
        return Gate::ToChat;
    }
    Gate::Pass
}

impl Gate {
    /// Where a redirect leads.
    pub fn location(self) -> (r: Option<&'static str>)
        ensures
            self == Gate::Pass ==> r is None,
            self == Gate::ToLogin ==> (r matches Some(l) && l@ == "/login"@),
            self == Gate::ToChat ==> (r matches Some(l) && l@ == "/chat"@),
    {
        match self {
            Gate::Pass => None,
            Gate::ToLogin => Some("/login"),
            Gate::ToChat => Some("/chat"),
        }
    }
}

// ---------------------------------------------------------------------------
// Path classification
// ---------------------------------------------------------------------------
/// Pages that require a logged-in user.
pub fn is_protected_page(path: &str) -> (r: bool)
    ensures
        r == protected(path@),
{
    same_text(path, "/") || same_text(path, "/chat") || starts_with(path, "/chat/") || same_text(
        path,
        "/library",
    ) || starts_with(path, "/library/")
}

/// Pages that only make sense for anonymous visitors.
pub fn is_guest_only_page(path: &str) -> (r: bool)
    ensures
        r == guest_only(path@),
{
    same_text(path, "/login") || same_text(path, "/signup")
}

// ---------------------------------------------------------------------------
// Laws
// ---------------------------------------------------------------------------
/// No protected page renders for an anonymous visitor, and every one but the
/// root renders for a visitor who is logged in.
pub proof fn protected_pages_need_a_user(path: Seq<char>)
    requires
        protected(path),
    ensures
        gate(path, false) == Gate::ToLogin,
        path != "/"@ ==> gate(path, true) == Gate::Pass,
        path == "/"@ ==> gate(path, true) == Gate::ToChat,
{
    lemma_guest_pages_are_not_protected(path);
}

/// An anonymous visitor is sent to the login page from the root, the chat and
/// the library with everything below them, and from nowhere else.
pub proof fn visitors_are_stopped_at_the_users_pages(path: Seq<char>)
    ensures
        gate(path, false) == Gate::ToLogin <==> path == "/"@ || path == "/chat"@ || begins_with(
            path,
            "/chat/"@,
        ) || path == "/library"@ || begins_with(path, "/library/"@),
        gate(path, false) != Gate::ToLogin ==> gate(path, false) == Gate::Pass,
{
}

/// A logged-in user is sent to the chat from the root and from the pages for
/// signing in and up, and is let through everywhere else.
pub proof fn users_are_sent_on_from_the_guest_pages(path: Seq<char>)
    ensures
        gate(path, true) == Gate::ToChat <==> path == "/"@ || path == "/login"@ || path
            == "/signup"@,
        gate(path, true) != Gate::ToChat ==> gate(path, true) == Gate::Pass,
{
}

/// A guest page renders for an anonymous visitor and for no one else.
pub proof fn guest_pages_need_no_user(path: Seq<char>)
    requires
        guest_only(path),
    ensures
        gate(path, false) == Gate::Pass,
        gate(path, true) == Gate::ToChat,
{
    lemma_guest_pages_are_not_protected(path);
}

/// Where a redirect leads, the visitor is let in: there is no loop.
pub proof fn redirects_end(path: Seq<char>, authed: bool)
    ensures
        gate(path, authed) == Gate::ToLogin ==> !authed && gate("/login"@, authed) == Gate::Pass,
        gate(path, authed) == Gate::ToChat ==> authed && gate("/chat"@, authed) == Gate::Pass,
{
    lemma_guest_pages_are_not_protected("/login"@);
    lemma_guest_pages_are_not_protected("/chat"@);
    reveal_strlit("/chat");
    reveal_strlit("/");
    assert("/chat"@.len() != "/"@.len());
}

/// Server-function endpoints and static assets are never gated.
pub proof fn endpoints_and_assets_are_open(path: Seq<char>, authed: bool)
    requires
        begins_with(path, "/api/"@) || begins_with(path, "/pkg/"@) || path == "/favicon.ico"@,
    ensures
        gate(path, authed) == Gate::Pass,
{
    reveal_strlit("/");
    reveal_strlit("/chat");
    reveal_strlit("/chat/");
    reveal_strlit("/library");
    reveal_strlit("/library/");
    reveal_strlit("/login");
    reveal_strlit("/signup");
    reveal_strlit("/api/");
    reveal_strlit("/pkg/");
    reveal_strlit("/favicon.ico");
    if begins_with(path, "/api/"@) {
        assert(path.subrange(0, 5)[1] == 'a');
    } else if begins_with(path, "/pkg/"@) {
        assert(path.subrange(0, 5)[1] == 'p');
    }
    if begins_with(path, "/chat/"@) {
        assert(path.subrange(0, 6)[1] == 'c');
    }
    if begins_with(path, "/library/"@) {
        assert(path.subrange(0, 9)[1] == 'l');
    }
    assert(path.len() > 1);
    assert(path[1] == 'a' || path[1] == 'p' || path[1] == 'f');
    assert(path != "/chat"@ && path != "/library"@ && path != "/login"@ && path != "/signup"@) by {
        assert("/chat"@[1] == 'c' && "/library"@[1] == 'l' && "/login"@[1] == 'l' && "/signup"@[1]
            == 's');
    }
}

proof fn lemma_guest_pages_are_not_protected(path: Seq<char>)
    ensures
        !(guest_only(path) && protected(path)),
{
    reveal_strlit("/");
    reveal_strlit("/chat");
    reveal_strlit("/chat/");
    reveal_strlit("/library");
    reveal_strlit("/library/");
    reveal_strlit("/login");
    reveal_strlit("/signup");
    if guest_only(path) {
        assert(path.len() == 6 || path.len() == 7);
        if begins_with(path, "/chat/"@) {
            assert(path.subrange(0, 6)[1] == 'c');
        }
        if path == "/library"@ {
            assert("/library"@.len() == 8);
        }
        assert("/chat"@.len() == 5);
    }
}

} // verus!
