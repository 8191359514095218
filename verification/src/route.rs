//! The router's path table: three known paths, each mapped to one page. An
//! unmatched path maps to no page; what the application does with it is the
//! application root's decision.

use vstd::prelude::*;

verus! {

/// One of the site's three routed pages.
#[derive(Clone, Copy, Debug, PartialEq, Eq, Structural)]
pub enum Route {
    Home,
    About,
    Contact,
}

/// The path that a page's navigation link targets.
pub open spec fn spec_path_of(r: Route) -> Seq<char> {
    match r {
        Route::Home => "/"@,
        Route::About => "/about"@,
        Route::Contact => "/contact"@,
    }
}

/// Which page a path string selects: exactly one of the three known paths
/// matches, any other path matches nothing.
pub open spec fn spec_match_path(path: Seq<char>) -> Option<Route> {
    if path == "/"@ {
        Some(Route::Home)
    } else if path == "/about"@ {
        Some(Route::About)
    } else if path == "/contact"@ {
        Some(Route::Contact)
    } else {
        None
    }
}

/// The path that a page's navigation link targets.
pub fn path_of(r: Route) -> (path: String)
    ensures
        path@ == spec_path_of(r),
{
    match r {
        Route::Home => "/".to_owned(),
        Route::About => "/about".to_owned(),
        Route::Contact => "/contact".to_owned(),
    }
}

/// Match a path string against the routing table.
pub fn match_path(path: &str) -> (r: Option<Route>)
    ensures
        r == spec_match_path(path@),
{
    let p = path.to_owned();
    if p == "/".to_owned() {
        Some(Route::Home)
    } else if p == "/about".to_owned() {
        Some(Route::About)
    } else if p == "/contact".to_owned() {
        Some(Route::Contact)
    } else {
        None
    }
}

/// Every page's own link path routes back to that page and to no other.
pub proof fn lemma_match_path_of(r: Route)
    ensures
        spec_match_path(spec_path_of(r)) == Some(r),
{
    reveal_strlit("/");
    reveal_strlit("/about");
    reveal_strlit("/contact");
    assert("/"@.len() == 1);
    assert("/about"@.len() == 6);
    assert("/contact"@.len() == 8);
}

} // verus!
