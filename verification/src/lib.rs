//! A verified model of a small client-rendered website: three routed pages
//! (home, about, contact), a reactive counter widget, and a contact form with
//! local-only submission feedback.
//!
//! The library holds the site's state machines and view functions, each with a
//! contract: the counter, the contact form, the router, the display tree that
//! the pages render to, and the reactive cell runtime that tracks which views
//! read which cells. Rendering the display tree into a browser document is
//! left to an unverified front end.

use vstd::prelude::*;

pub mod app;
pub mod counter;
pub mod form;
pub mod reactive;
pub mod route;
pub mod view;

verus! {

/// Document metadata, set once at application start and never changed.
pub struct Metadata {
    pub lang: String,
    pub title: String,
    pub charset: String,
    pub viewport: String,
}

/// The site's static document metadata.
pub fn metadata() -> (m: Metadata)
    ensures
        m.lang@ == "en"@,
        m.title@ == "Leptos Static Website"@,
        m.charset@ == "UTF-8"@,
        m.viewport@ == "width=device-width, initial-scale=1.0"@,
{
    Metadata {
        lang: "en".to_owned(),
        title: "Leptos Static Website".to_owned(),
        charset: "UTF-8".to_owned(),
        viewport: "width=device-width, initial-scale=1.0".to_owned(),
    }
}

} // verus!
