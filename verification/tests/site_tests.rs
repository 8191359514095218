use reactive_site::app::{App, Event, PageState};
use reactive_site::counter::{Counter, CounterOp};
use reactive_site::form::{ContactForm, Field};
use reactive_site::metadata;
use reactive_site::route::{match_path, path_of, Route};
use reactive_site::view::{about_view, contact_view, home_view, nav_view, Item, Snapshot};

fn counts_of(snap: &Snapshot) -> Vec<i64> {
    let mut out = Vec::new();
    for it in snap.items.iter() {
        if let Item::CountDisplay(v) = it {
            out.push(*v);
        }
    }
    out
}

fn banners_of(snap: &Snapshot) -> Vec<String> {
    let mut out = Vec::new();
    for it in snap.items.iter() {
        if let Item::Banner(t) = it {
            out.push(t.clone());
        }
    }
    out
}

fn inputs_of(snap: &Snapshot, f: Field) -> Vec<String> {
    let mut out = Vec::new();
    for it in snap.items.iter() {
        if let Item::TextInput { field, value } = it {
            if *field == f {
                out.push(value.clone());
            }
        }
    }
    out
}

fn ops_of(snap: &Snapshot) -> Vec<CounterOp> {
    let mut out = Vec::new();
    for it in snap.items.iter() {
        if let Item::OpButton { op, .. } = it {
            out.push(*op);
        }
    }
    out
}

fn navs_of(snap: &Snapshot) -> Vec<Route> {
    let mut out = Vec::new();
    for it in snap.items.iter() {
        if let Item::NavLink { target, .. } = it {
            out.push(*target);
        }
    }
    out
}

fn nav_labels_of(snap: &Snapshot) -> Vec<String> {
    let mut out = Vec::new();
    for it in snap.items.iter() {
        if let Item::NavLink { label, .. } = it {
            out.push(label.clone());
        }
    }
    out
}

fn headings_of(snap: &Snapshot) -> Vec<String> {
    let mut out = Vec::new();
    for it in snap.items.iter() {
        if let Item::Heading(t) = it {
            out.push(t.clone());
        }
    }
    out
}

fn list_items_of(snap: &Snapshot) -> Vec<String> {
    let mut out = Vec::new();
    for it in snap.items.iter() {
        if let Item::ListItem(t) = it {
            out.push(t.clone());
        }
    }
    out
}

fn paragraphs_of(snap: &Snapshot) -> Vec<String> {
    let mut out = Vec::new();
    for it in snap.items.iter() {
        if let Item::Paragraph(t) = it {
            out.push(t.clone());
        }
    }
    out
}

#[test]
fn form_starts_empty_and_unsubmitted() {
    let form = ContactForm::new();
    assert_eq!(form.name, "");
    assert_eq!(form.email, "");
    assert_eq!(form.message, "");
    assert!(!form.submitted);
}

#[test]
fn form_fields_take_text_verbatim() {
    let mut form = ContactForm::new();
    form.set_field(Field::Name, "  Ada Lovelace  ".to_string());
    form.set_field(Field::Email, "not an email at all".to_string());
    form.set_field(Field::Message, "line one\nline two\n".to_string());
    assert_eq!(form.name, "  Ada Lovelace  ");
    assert_eq!(form.email, "not an email at all");
    assert_eq!(form.message, "line one\nline two\n");
    assert!(!form.submitted);
    form.set_field(Field::Name, "B".to_string());
    assert_eq!(form.name, "B");
    assert_eq!(form.email, "not an email at all");
}

#[test]
fn form_submit_with_empty_fields_succeeds() {
    let mut form = ContactForm::new();
    let prevent = form.submit();
    assert!(prevent);
    assert!(form.submitted);
    let banners = banners_of(&contact_view(&form));
    assert_eq!(banners.len(), 1);
    assert_eq!(
        banners[0],
        "Thank you for your message! We'll get back to you soon."
    );
}

#[test]
fn form_resubmit_keeps_one_banner() {
    let mut form = ContactForm::new();
    form.set_field(Field::Name, "someone".to_string());
    assert!(form.submit());
    assert!(form.submit());
    assert!(form.submitted);
    assert_eq!(form.name, "someone");
    let banners = banners_of(&contact_view(&form));
    assert_eq!(banners.len(), 1);
}

#[test]
fn form_banner_absent_before_submit() {
    let form = ContactForm::new();
    assert_eq!(banners_of(&contact_view(&form)).len(), 0);
}

#[test]
fn route_paths_round_trip() {
    for r in [Route::Home, Route::About, Route::Contact] {
        assert_eq!(match_path(&path_of(r)), Some(r));
    }
    assert_eq!(path_of(Route::Home), "/");
    assert_eq!(path_of(Route::About), "/about");
    assert_eq!(path_of(Route::Contact), "/contact");
}

#[test]
fn route_unknown_paths_match_nothing() {
    assert_eq!(match_path(""), None);
    assert_eq!(match_path("/about/"), None);
    assert_eq!(match_path("/missing"), None);
    assert_eq!(match_path("about"), None);
}

#[test]
fn home_view_displays_current_count() {
    let mut c = Counter::new();
    for _ in 0..7 {
        c.increase();
    }
    let snap = home_view(&c);
    assert_eq!(counts_of(&snap), vec![7]);
    assert_eq!(
        ops_of(&snap),
        vec![CounterOp::Decrease, CounterOp::Increase, CounterOp::Reset]
    );
    assert_eq!(banners_of(&snap).len(), 0);
}

#[test]
fn about_view_is_static() {
    let snap = about_view();
    assert_eq!(counts_of(&snap).len(), 0);
    assert_eq!(banners_of(&snap).len(), 0);
    assert_eq!(ops_of(&snap).len(), 0);
    assert_eq!(inputs_of(&snap, Field::Name).len(), 0);
}

#[test]
fn about_view_content_is_fixed() {
    let snap = about_view();
    assert_eq!(
        headings_of(&snap),
        vec!["About This Website", "Features:", "Why Leptos?"]
    );
    assert_eq!(
        list_items_of(&snap),
        vec![
            "🚀 Fast compilation to WebAssembly",
            "⚡ Reactive signals for state management",
            "🎯 Type-safe components",
            "📱 Responsive design",
            "🔄 Client-side routing",
        ]
    );
    assert_eq!(
        paragraphs_of(&snap),
        vec![
            "This website demonstrates the power of Leptos - a modern web framework for Rust.",
            "Leptos combines the performance of Rust with the interactivity of modern web frameworks. It compiles to WebAssembly for near-native performance in the browser.",
        ]
    );
    // two calls return the identical tree
    let again = about_view();
    assert_eq!(headings_of(&again), headings_of(&snap));
    assert_eq!(list_items_of(&again), list_items_of(&snap));
    assert_eq!(paragraphs_of(&again), paragraphs_of(&snap));
}

#[test]
fn home_view_static_text_is_fixed() {
    let snap = home_view(&Counter::new());
    assert_eq!(
        headings_of(&snap),
        vec!["Welcome to Our Leptos Website!", "Fantastic Interactive Counter"]
    );
    assert_eq!(paragraphs_of(&snap).len(), 2);
    assert_eq!(list_items_of(&snap).len(), 0);
}

#[test]
fn contact_view_shows_fields_verbatim() {
    let mut form = ContactForm::new();
    form.set_field(Field::Name, "n".to_string());
    form.set_field(Field::Email, "e@e".to_string());
    let snap = contact_view(&form);
    assert_eq!(inputs_of(&snap, Field::Name), vec!["n".to_string()]);
    assert_eq!(inputs_of(&snap, Field::Email), vec!["e@e".to_string()]);
    assert_eq!(inputs_of(&snap, Field::Message), vec!["".to_string()]);
}

#[test]
fn nav_view_links_all_pages() {
    let snap = nav_view();
    assert_eq!(navs_of(&snap), vec![Route::Home, Route::About, Route::Contact]);
    assert_eq!(nav_labels_of(&snap), vec!["Home", "About", "Contact"]);
}

#[test]
fn render_shows_page_content() {
    let mut app = App::boot("/about");
    assert_eq!(list_items_of(&app.render()).len(), 5);
    assert_eq!(
        headings_of(&app.render()),
        vec!["About This Website", "Features:", "Why Leptos?"]
    );
    app.handle(Event::Nav(Route::Contact));
    assert_eq!(headings_of(&app.render()), vec!["Contact Us"]);
    assert_eq!(list_items_of(&app.render()).len(), 0);
}

#[test]
fn boot_selects_page_from_path() {
    assert_eq!(App::boot("/").route, Route::Home);
    assert_eq!(App::boot("/about").route, Route::About);
    assert_eq!(App::boot("/contact").route, Route::Contact);
    assert_eq!(App::boot("/missing").route, Route::Home);
}

#[test]
fn navigation_resets_counter() {
    let mut app = App::boot("/");
    for _ in 0..5 {
        app.handle(Event::Counter(CounterOp::Increase));
    }
    assert_eq!(counts_of(&app.render()), vec![5]);
    app.handle(Event::Nav(Route::About));
    app.handle(Event::Nav(Route::Home));
    assert_eq!(counts_of(&app.render()), vec![0]);
}

#[test]
fn nav_sequence_mounts_fresh_contact_page() {
    let mut app = App::boot("/");
    let prevented_about = app.handle(Event::Nav(Route::About));
    let prevented_contact = app.handle(Event::Nav(Route::Contact));
    assert!(prevented_about);
    assert!(prevented_contact);
    assert_eq!(app.route, Route::Contact);
    let snap = app.render();
    assert_eq!(inputs_of(&snap, Field::Name), vec!["".to_string()]);
    assert_eq!(inputs_of(&snap, Field::Email), vec!["".to_string()]);
    assert_eq!(inputs_of(&snap, Field::Message), vec!["".to_string()]);
    assert_eq!(banners_of(&snap).len(), 0);
}

#[test]
fn navigation_discards_form_state() {
    let mut app = App::boot("/contact");
    app.handle(Event::Input(Field::Name, "drafted".to_string()));
    app.handle(Event::Submit);
    app.handle(Event::Nav(Route::Home));
    app.handle(Event::Nav(Route::Contact));
    let snap = app.render();
    assert_eq!(inputs_of(&snap, Field::Name), vec!["".to_string()]);
    assert_eq!(banners_of(&snap).len(), 0);
}

#[test]
fn handle_suppresses_default_only_where_owed() {
    let mut app = App::boot("/");
    assert!(!app.handle(Event::Counter(CounterOp::Increase)));
    assert!(!app.handle(Event::Submit));
    assert!(app.handle(Event::Nav(Route::Contact)));
    assert!(app.handle(Event::Submit));
    assert!(!app.handle(Event::Counter(CounterOp::Increase)));
}

#[test]
fn events_for_other_pages_are_dropped() {
    let mut app = App::boot("/about");
    app.handle(Event::Counter(CounterOp::Increase));
    app.handle(Event::Input(Field::Name, "x".to_string()));
    app.handle(Event::Submit);
    assert_eq!(app.route, Route::About);
    assert!(matches!(app.page, PageState::About));
    let snap = app.render();
    assert_eq!(counts_of(&snap).len(), 0);
    assert_eq!(banners_of(&snap).len(), 0);
}

#[test]
fn render_always_shows_nav_links() {
    let app = App::boot("/about");
    assert_eq!(
        navs_of(&app.render()),
        vec![Route::Home, Route::About, Route::Contact]
    );
}

#[test]
fn metadata_is_static() {
    let m = metadata();
    assert_eq!(m.lang, "en");
    assert_eq!(m.title, "Leptos Static Website");
    assert_eq!(m.charset, "UTF-8");
    assert_eq!(m.viewport, "width=device-width, initial-scale=1.0");
}
