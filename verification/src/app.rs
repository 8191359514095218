//! The application root: the current route, the state of the page mounted
//! under it, and the single-threaded event loop's step function. Per-page
//! state is created fresh on mount and discarded on navigation away; nothing
//! survives a route change.

use vstd::prelude::*;

use crate::counter::{counter_step, Counter, CounterOp};
use crate::form::{ContactForm, Field};
use crate::route::{spec_match_path, Route};
use crate::view::{
    banners_in, contact_view, counts_in, headings_in, home_view, inputs_in, list_items_in,
    nav_labels_in, nav_view, navs_in, about_view, ops_in, paragraphs_in, submits_in, Snapshot,
};

verus! {

/// The state owned by the page currently mounted: the home page owns the
/// counter, the contact page owns the form, the about page owns nothing.
pub enum PageState {
    Home(Counter),
    About,
    Contact(ContactForm),
}

impl PageState {
    /// Which route this page state belongs to.
    pub open spec fn matches_route(self, r: Route) -> bool {
        match (self, r) {
            (PageState::Home(_), Route::Home) => true,
            (PageState::About, Route::About) => true,
            (PageState::Contact(_), Route::Contact) => true,
            _ => false,
        }
    }

    /// A freshly mounted page: the counter at zero, every form field empty,
    /// nothing submitted.
    pub open spec fn is_fresh(self) -> bool {
        match self {
            PageState::Home(c) => c.value == 0,
            PageState::About => true,
            PageState::Contact(form) => form.name@ == Seq::<char>::empty()
                && form.email@ == Seq::<char>::empty() && form.message@ == Seq::<char>::empty()
                && !form.submitted,
        }
    }

    /// The counter value this page displays: the home page's counter, or
    /// zero on pages that have no counter.
    pub open spec fn counter_of(self) -> i64 {
        match self {
            PageState::Home(c) => c.value,
            _ => 0,
        }
    }

    /// The text of one form field on this page: the contact page's field, or
    /// empty on pages that have no form.
    pub open spec fn field_of(self, f: Field) -> Seq<char> {
        match self {
            PageState::Contact(form) => form.spec_field(f),
            _ => Seq::empty(),
        }
    }

    /// Whether this page's form has been submitted; false on pages that have
    /// no form.
    pub open spec fn submitted_of(self) -> bool {
        match self {
            PageState::Contact(form) => form.submitted,
            _ => false,
        }
    }

    /// Construct the page that route `r` mounts, with its initial state.
    pub fn mount(r: Route) -> (p: PageState)
        ensures
            p.matches_route(r),
            p.is_fresh(),
    {
        match r {
            Route::Home => PageState::Home(Counter::new()),
            Route::About => PageState::About,
            Route::Contact => PageState::Contact(ContactForm::new()),
        }
    }
}

/// One user interaction, delivered by the event loop one at a time.
pub enum Event {
    /// A navigation link was activated.
    Nav(Route),
    /// One of the counter's buttons was pressed.
    Counter(CounterOp),
    /// A form field received input text.
    Input(Field, String),
    /// The form was submitted.
    Submit,
}

/// The application root: the router's current route and the mounted page.
pub struct App {
    pub route: Route,
    pub page: PageState,
}

impl App {
    /// The mounted page always belongs to the current route.
    pub open spec fn wf(self) -> bool {
        self.page.matches_route(self.route)
    }

    /// Whether an event can be applied without leaving the machine word: the
    /// counter's buttons stop one step short of the extreme i64 values.
    pub open spec fn event_in_bounds(self, e: Event) -> bool {
        match (e, self.page) {
            (Event::Counter(CounterOp::Increase), PageState::Home(c)) => c.value < i64::MAX,
            (Event::Counter(CounterOp::Decrease), PageState::Home(c)) => c.value > i64::MIN,
            _ => true,
        }
    }

    /// Start the application at the page the load-time path selects. A path
    /// that matches no known route falls back to the home page.
    pub fn boot(path: &str) -> (app: App)
        ensures
            app.wf(),
            app.page.is_fresh(),
            match spec_match_path(path@) {
                Some(r) => app.route == r,
                None => app.route == Route::Home,
            },
    {
        let route = match crate::route::match_path(path) {
            Some(r) => r,
            None => Route::Home,
        };
        App { route, page: PageState::mount(route) }
    }

    /// A route transition: the old page's state is discarded, the new page is
    /// freshly constructed, and no full document reload happens (the returned
    /// flag is always false).
    pub fn navigate(&mut self, target: Route) -> (reload: bool)
        ensures
            !reload,
            final(self).route == target,
            final(self).wf(),
            final(self).page.is_fresh(),
    {
        self.route = target;
        self.page = PageState::mount(target);
        false
    }

    /// The event loop's step: apply one user interaction to the current
    /// state. Events that belong to a page other than the mounted one are
    /// dropped without effect. The returned flag says whether the browser's
    /// default reaction to the event is suppressed: always for a navigation
    /// link (no full reload) and for a handled form submit (no full-page
    /// submission), never otherwise.
    pub fn handle(&mut self, e: Event) -> (prevent_default: bool)
        requires
            old(self).wf(),
            old(self).event_in_bounds(e),
        ensures
            final(self).wf(),
            prevent_default == (e is Nav || (e is Submit && old(self).page is Contact)),
            match e {
                Event::Nav(r) => final(self).route == r && final(self).page.is_fresh(),
                Event::Counter(op) => final(self).route == old(self).route && if old(
                    self,
                ).page is Home {
                    final(self).page is Home && final(self).page.counter_of() == counter_step(
                        old(self).page.counter_of() as int,
                        op,
                    )
                } else {
                    final(self).page == old(self).page
                },
                Event::Input(f, text) => final(self).route == old(self).route && if old(
                    self,
                ).page is Contact {
                    final(self).page is Contact && final(self).page.field_of(f) == text@ && (
                    forall|g: Field| g != f ==> final(self).page.field_of(g) == old(
                        self,
                    ).page.field_of(g)) && final(self).page.submitted_of() == old(
                        self,
                    ).page.submitted_of()
                } else {
                    final(self).page == old(self).page
                },
                Event::Submit => final(self).route == old(self).route && if old(
                    self,
                ).page is Contact {
                    final(self).page is Contact && final(self).page.submitted_of() && (forall|
                        g: Field,
                    | final(self).page.field_of(g) == old(self).page.field_of(g))
                } else {
                    final(self).page == old(self).page
                },
            },
    {
        match e {
            Event::Nav(r) => {
                self.navigate(r);
                true
            },
            Event::Counter(op) => {
                match &mut self.page {
                    PageState::Home(c) => {
                        c.apply(op);
                    },
                    _ => {},
                }
                false
            },
            Event::Input(f, text) => {
                match &mut self.page {
                    PageState::Contact(form) => {
                        form.set_field(f, text);
                    },
                    _ => {},
                }
                false
            },
            Event::Submit => {
                match &mut self.page {
                    PageState::Contact(form) => form.submit(),
                    _ => false,
                }
            },
        }
    }

    /// Render the whole application: the navigation bar's three links
    /// followed by the mounted page's view. What the snapshot displays is a
    /// pure function of the current state: the counter value on the home
    /// page, the verbatim field texts and at most one banner on the contact
    /// page, and each page's fixed headings, paragraphs and bullets.
    pub fn render(&self) -> (v: Snapshot)
        ensures
            navs_in(v.items@) == seq![Route::Home, Route::About, Route::Contact],
            nav_labels_in(v.items@) == seq!["Home"@, "About"@, "Contact"@],
            headings_in(v.items@) == match self.page {
                PageState::Home(_) => seq![
                    "Welcome to Our Leptos Website!"@,
                    "Fantastic Interactive Counter"@,
                ],
                PageState::About => seq!["About This Website"@, "Features:"@, "Why Leptos?"@],
                PageState::Contact(_) => seq!["Contact Us"@],
            },
            paragraphs_in(v.items@) == match self.page {
                PageState::Home(_) => seq![
                    "This is a simple static website built with Leptos and Rust."@,
                    "Click the buttons above to interact with the counter, or explore other pages using the navigation."@,
                ],
                PageState::About => seq![
                    "This website demonstrates the power of Leptos - a modern web framework for Rust."@,
                    "Leptos combines the performance of Rust with the interactivity of modern web frameworks. It compiles to WebAssembly for near-native performance in the browser."@,
                ],
                PageState::Contact(_) => Seq::<Seq<char>>::empty(),
            },
            list_items_in(v.items@) == if self.page is About {
                seq![
                    "\u{1f680} Fast compilation to WebAssembly"@,
                    "\u{26a1} Reactive signals for state management"@,
                    "\u{1f3af} Type-safe components"@,
                    "\u{1f4f1} Responsive design"@,
                    "\u{1f504} Client-side routing"@,
                ]
            } else {
                Seq::<Seq<char>>::empty()
            },
            counts_in(v.items@) == if self.page is Home {
                seq![self.page.counter_of()]
            } else {
                Seq::<i64>::empty()
            },
            forall|g: Field|
                inputs_in(v.items@, g) == if self.page is Contact {
                    seq![self.page.field_of(g)]
                } else {
                    Seq::<Seq<char>>::empty()
                },
            banners_in(v.items@) == if self.page is Contact && self.page.submitted_of() {
                seq!["Thank you for your message! We'll get back to you soon."@]
            } else {
                Seq::<Seq<char>>::empty()
            },
            submits_in(v.items@) == if self.page is Contact {
                seq!["Send Message"@]
            } else {
                Seq::<Seq<char>>::empty()
            },
            ops_in(v.items@) == if self.page is Home {
                seq![CounterOp::Decrease, CounterOp::Increase, CounterOp::Reset]
            } else {
                Seq::<CounterOp>::empty()
            },
    {
        let mut chrome = nav_view();
        let mut page = match &self.page {
            PageState::Home(c) => home_view(c),
            PageState::About => about_view(),
            PageState::Contact(form) => contact_view(form),
        };
        proof {
            crate::view::lemma_extract_concat(chrome.items@, page.items@);
        }
        chrome.items.append(&mut page.items);
        proof {
            assert(navs_in(chrome.items@) =~= seq![Route::Home, Route::About, Route::Contact]);
            assert(nav_labels_in(chrome.items@) =~= seq!["Home"@, "About"@, "Contact"@]);
            match self.page {
                PageState::Home(_) => {
                    assert(headings_in(chrome.items@) =~= seq![
                        "Welcome to Our Leptos Website!"@,
                        "Fantastic Interactive Counter"@,
                    ]);
                    assert(paragraphs_in(chrome.items@) =~= seq![
                        "This is a simple static website built with Leptos and Rust."@,
                        "Click the buttons above to interact with the counter, or explore other pages using the navigation."@,
                    ]);
                    assert(list_items_in(chrome.items@) =~= Seq::<Seq<char>>::empty());
                },
                PageState::About => {
                    assert(headings_in(chrome.items@) =~= seq![
                        "About This Website"@,
                        "Features:"@,
                        "Why Leptos?"@,
                    ]);
                    assert(paragraphs_in(chrome.items@) =~= seq![
                        "This website demonstrates the power of Leptos - a modern web framework for Rust."@,
                        "Leptos combines the performance of Rust with the interactivity of modern web frameworks. It compiles to WebAssembly for near-native performance in the browser."@,
                    ]);
                    assert(list_items_in(chrome.items@) =~= seq![
                        "\u{1f680} Fast compilation to WebAssembly"@,
                        "\u{26a1} Reactive signals for state management"@,
                        "\u{1f3af} Type-safe components"@,
                        "\u{1f4f1} Responsive design"@,
                        "\u{1f504} Client-side routing"@,
                    ]);
                },
                PageState::Contact(_) => {
                    assert(headings_in(chrome.items@) =~= seq!["Contact Us"@]);
                    assert(paragraphs_in(chrome.items@) =~= Seq::<Seq<char>>::empty());
                    assert(list_items_in(chrome.items@) =~= Seq::<Seq<char>>::empty());
                },
            }
            if self.page is Home {
                assert(counts_in(chrome.items@) =~= seq![self.page.counter_of()]);
            } else {
                assert(counts_in(chrome.items@) =~= Seq::<i64>::empty());
            }
            assert forall|g: Field|
                inputs_in(chrome.items@, g) == if self.page is Contact {
                    seq![self.page.field_of(g)]
                } else {
                    Seq::<Seq<char>>::empty()
                } by {
                if self.page is Contact {
                    assert(inputs_in(chrome.items@, g) =~= seq![self.page.field_of(g)]);
                } else {
                    assert(inputs_in(chrome.items@, g) =~= Seq::<Seq<char>>::empty());
                }
            }
            if self.page is Contact && self.page.submitted_of() {
                assert(banners_in(chrome.items@) =~= seq![
                    "Thank you for your message! We'll get back to you soon."@,
                ]);
            } else {
                assert(banners_in(chrome.items@) =~= Seq::<Seq<char>>::empty());
            }
            if self.page is Contact {
                assert(submits_in(chrome.items@) =~= seq!["Send Message"@]);
            } else {
                assert(submits_in(chrome.items@) =~= Seq::<Seq<char>>::empty());
            }
            if self.page is Home {
                assert(ops_in(chrome.items@) =~= seq![
                    CounterOp::Decrease,
                    CounterOp::Increase,
                    CounterOp::Reset,
                ]);
            } else {
                assert(ops_in(chrome.items@) =~= Seq::<CounterOp>::empty());
            }
        }
        Snapshot { items: chrome.items }
    }
}

} // verus!
