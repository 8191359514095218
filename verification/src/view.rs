//! The display tree that the pages render to: an immutable snapshot value,
//! built by pure view functions from the current page state. A front end may
//! turn a snapshot into real markup; the library's contracts speak of what
//! the snapshot displays.

use vstd::prelude::*;

use crate::counter::{Counter, CounterOp};
use crate::form::{ContactForm, Field};
use crate::route::Route;

verus! {

/// One display node of a page snapshot.
#[derive(Debug)]
pub enum Item {
    /// A heading line.
    Heading(String),
    /// A paragraph of static text.
    Paragraph(String),
    /// One bullet of a list.
    ListItem(String),
    /// The counter widget's current value.
    CountDisplay(i64),
    /// A button that fires one counter operation.
    OpButton { label: String, op: CounterOp },
    /// The form's submit button.
    SubmitButton { label: String },
    /// The confirmation banner shown after a submission.
    Banner(String),
    /// A text input bound to one form field, showing that field's text.
    TextInput { field: Field, value: String },
    /// A navigation link to one routed page.
    NavLink { label: String, target: Route },
}

/// An immutable display-tree snapshot: what one render pass put on screen.
#[derive(Debug)]
pub struct Snapshot {
    pub items: Vec<Item>,
}

/// The counter values a single node displays.
pub open spec fn item_counts(it: Item) -> Seq<i64> {
    match it {
        Item::CountDisplay(v) => seq![v],
        _ => Seq::empty(),
    }
}

/// The confirmation banner texts a single node displays.
pub open spec fn item_banners(it: Item) -> Seq<Seq<char>> {
    match it {
        Item::Banner(text) => seq![text@],
        _ => Seq::empty(),
    }
}

/// The texts a single node displays as the value of field `f`.
pub open spec fn item_inputs(it: Item, f: Field) -> Seq<Seq<char>> {
    match it {
        Item::TextInput { field, value } => if field == f {
            seq![value@]
        } else {
            Seq::empty()
        },
        _ => Seq::empty(),
    }
}

/// The counter operations a single node offers as buttons.
pub open spec fn item_ops(it: Item) -> Seq<CounterOp> {
    match it {
        Item::OpButton { label, op } => seq![op],
        _ => Seq::empty(),
    }
}

/// The navigation targets a single node offers as links.
pub open spec fn item_navs(it: Item) -> Seq<Route> {
    match it {
        Item::NavLink { label, target } => seq![target],
        _ => Seq::empty(),
    }
}

/// The heading texts a single node displays.
pub open spec fn item_headings(it: Item) -> Seq<Seq<char>> {
    match it {
        Item::Heading(text) => seq![text@],
        _ => Seq::empty(),
    }
}

/// The submit-button labels a single node displays.
pub open spec fn item_submits(it: Item) -> Seq<Seq<char>> {
    match it {
        Item::SubmitButton { label } => seq![label@],
        _ => Seq::empty(),
    }
}

/// The paragraph texts a single node displays.
pub open spec fn item_paragraphs(it: Item) -> Seq<Seq<char>> {
    match it {
        Item::Paragraph(text) => seq![text@],
        _ => Seq::empty(),
    }
}

/// The list-bullet texts a single node displays.
pub open spec fn item_list_items(it: Item) -> Seq<Seq<char>> {
    match it {
        Item::ListItem(text) => seq![text@],
        _ => Seq::empty(),
    }
}

/// The navigation-link labels a single node displays.
pub open spec fn item_nav_labels(it: Item) -> Seq<Seq<char>> {
    match it {
        Item::NavLink { label, target } => seq![label@],
        _ => Seq::empty(),
    }
}

/// All counter values displayed by a snapshot, in display order.
pub open spec fn counts_in(items: Seq<Item>) -> Seq<i64>
    decreases items.len(),
{
    if items.len() == 0 {
        Seq::empty()
    } else {
        counts_in(items.drop_last()) + item_counts(items.last())
    }
}

/// All confirmation banner texts displayed by a snapshot.
pub open spec fn banners_in(items: Seq<Item>) -> Seq<Seq<char>>
    decreases items.len(),
{
    if items.len() == 0 {
        Seq::empty()
    } else {
        banners_in(items.drop_last()) + item_banners(items.last())
    }
}

/// All displayed values of field `f`, in display order.
pub open spec fn inputs_in(items: Seq<Item>, f: Field) -> Seq<Seq<char>>
    decreases items.len(),
{
    if items.len() == 0 {
        Seq::empty()
    } else {
        inputs_in(items.drop_last(), f) + item_inputs(items.last(), f)
    }
}

/// All counter-operation buttons offered by a snapshot, in display order.
pub open spec fn ops_in(items: Seq<Item>) -> Seq<CounterOp>
    decreases items.len(),
{
    if items.len() == 0 {
        Seq::empty()
    } else {
        ops_in(items.drop_last()) + item_ops(items.last())
    }
}

/// All navigation targets offered by a snapshot, in display order.
pub open spec fn navs_in(items: Seq<Item>) -> Seq<Route>
    decreases items.len(),
{
    if items.len() == 0 {
        Seq::empty()
    } else {
        navs_in(items.drop_last()) + item_navs(items.last())
    }
}

/// All heading texts displayed by a snapshot, in display order.
pub open spec fn headings_in(items: Seq<Item>) -> Seq<Seq<char>>
    decreases items.len(),
{
    if items.len() == 0 {
        Seq::empty()
    } else {
        headings_in(items.drop_last()) + item_headings(items.last())
    }
}

/// All submit-button labels displayed by a snapshot.
pub open spec fn submits_in(items: Seq<Item>) -> Seq<Seq<char>>
    decreases items.len(),
{
    if items.len() == 0 {
        Seq::empty()
    } else {
        submits_in(items.drop_last()) + item_submits(items.last())
    }
}

/// All paragraph texts displayed by a snapshot, in display order.
pub open spec fn paragraphs_in(items: Seq<Item>) -> Seq<Seq<char>>
    decreases items.len(),
{
    if items.len() == 0 {
        Seq::empty()
    } else {
        paragraphs_in(items.drop_last()) + item_paragraphs(items.last())
    }
}

/// All list-bullet texts displayed by a snapshot, in display order.
pub open spec fn list_items_in(items: Seq<Item>) -> Seq<Seq<char>>
    decreases items.len(),
{
    if items.len() == 0 {
        Seq::empty()
    } else {
        list_items_in(items.drop_last()) + item_list_items(items.last())
    }
}

/// All navigation-link labels displayed by a snapshot, in display order.
pub open spec fn nav_labels_in(items: Seq<Item>) -> Seq<Seq<char>>
    decreases items.len(),
{
    if items.len() == 0 {
        Seq::empty()
    } else {
        nav_labels_in(items.drop_last()) + item_nav_labels(items.last())
    }
}

/// Appending one node extends each extraction by that node's contribution.
pub proof fn lemma_extract_push(items: Seq<Item>, it: Item)
    ensures
        counts_in(items.push(it)) == counts_in(items) + item_counts(it),
        banners_in(items.push(it)) == banners_in(items) + item_banners(it),
        ops_in(items.push(it)) == ops_in(items) + item_ops(it),
        navs_in(items.push(it)) == navs_in(items) + item_navs(it),
        headings_in(items.push(it)) == headings_in(items) + item_headings(it),
        submits_in(items.push(it)) == submits_in(items) + item_submits(it),
        paragraphs_in(items.push(it)) == paragraphs_in(items) + item_paragraphs(it),
        list_items_in(items.push(it)) == list_items_in(items) + item_list_items(it),
        nav_labels_in(items.push(it)) == nav_labels_in(items) + item_nav_labels(it),
        forall|g: Field| inputs_in(items.push(it), g) == inputs_in(items, g) + item_inputs(it, g),
{
    assert(items.push(it).drop_last() =~= items);
    assert(items.push(it).last() == it);
    assert forall|g: Field| inputs_in(items.push(it), g) == inputs_in(items, g) + item_inputs(
        it,
        g,
    ) by {
        assert(items.push(it).drop_last() =~= items);
    }
}

/// Concatenating two snapshots concatenates each extraction.
pub proof fn lemma_extract_concat(a: Seq<Item>, b: Seq<Item>)
    ensures
        counts_in(a + b) == counts_in(a) + counts_in(b),
        banners_in(a + b) == banners_in(a) + banners_in(b),
        ops_in(a + b) == ops_in(a) + ops_in(b),
        navs_in(a + b) == navs_in(a) + navs_in(b),
        headings_in(a + b) == headings_in(a) + headings_in(b),
        submits_in(a + b) == submits_in(a) + submits_in(b),
        paragraphs_in(a + b) == paragraphs_in(a) + paragraphs_in(b),
        list_items_in(a + b) == list_items_in(a) + list_items_in(b),
        nav_labels_in(a + b) == nav_labels_in(a) + nav_labels_in(b),
        forall|g: Field| inputs_in(a + b, g) == inputs_in(a, g) + inputs_in(b, g),
    decreases b.len(),
{
    if b.len() == 0 {
        assert(a + b =~= a);
        assert(counts_in(a) + counts_in(b) =~= counts_in(a));
        assert(banners_in(a) + banners_in(b) =~= banners_in(a));
        assert(ops_in(a) + ops_in(b) =~= ops_in(a));
        assert(navs_in(a) + navs_in(b) =~= navs_in(a));
        assert(headings_in(a) + headings_in(b) =~= headings_in(a));
        assert(submits_in(a) + submits_in(b) =~= submits_in(a));
        assert(paragraphs_in(a) + paragraphs_in(b) =~= paragraphs_in(a));
        assert(list_items_in(a) + list_items_in(b) =~= list_items_in(a));
        assert(nav_labels_in(a) + nav_labels_in(b) =~= nav_labels_in(a));
        assert forall|g: Field| inputs_in(a + b, g) == inputs_in(a, g) + inputs_in(b, g) by {
            assert(inputs_in(a, g) + inputs_in(b, g) =~= inputs_in(a, g));
        }
    } else {
        lemma_extract_concat(a, b.drop_last());
        assert((a + b).drop_last() =~= a + b.drop_last());
        assert((a + b).last() == b.last());
        assert(counts_in(a + b) =~= counts_in(a) + counts_in(b));
        assert(banners_in(a + b) =~= banners_in(a) + banners_in(b));
        assert(ops_in(a + b) =~= ops_in(a) + ops_in(b));
        assert(navs_in(a + b) =~= navs_in(a) + navs_in(b));
        assert(headings_in(a + b) =~= headings_in(a) + headings_in(b));
        assert(submits_in(a + b) =~= submits_in(a) + submits_in(b));
        assert(paragraphs_in(a + b) =~= paragraphs_in(a) + paragraphs_in(b));
        assert(list_items_in(a + b) =~= list_items_in(a) + list_items_in(b));
        assert(nav_labels_in(a + b) =~= nav_labels_in(a) + nav_labels_in(b));
        assert forall|g: Field| inputs_in(a + b, g) == inputs_in(a, g) + inputs_in(b, g) by {
            assert((a + b).drop_last() =~= a + b.drop_last());
            assert(inputs_in(a + b.drop_last(), g) == inputs_in(a, g) + inputs_in(
                b.drop_last(),
                g,
            ));
            assert(inputs_in(a + b, g) =~= inputs_in(a, g) + inputs_in(b, g));
        }
    }
}

/// Append one node to a snapshot under construction, keeping every
/// extraction's value known.
fn push_item(items: &mut Vec<Item>, it: Item)
    ensures
        final(items)@ == old(items)@.push(it),
        counts_in(final(items)@) == counts_in(old(items)@) + item_counts(it),
        banners_in(final(items)@) == banners_in(old(items)@) + item_banners(it),
        ops_in(final(items)@) == ops_in(old(items)@) + item_ops(it),
        navs_in(final(items)@) == navs_in(old(items)@) + item_navs(it),
        headings_in(final(items)@) == headings_in(old(items)@) + item_headings(it),
        submits_in(final(items)@) == submits_in(old(items)@) + item_submits(it),
        paragraphs_in(final(items)@) == paragraphs_in(old(items)@) + item_paragraphs(it),
        list_items_in(final(items)@) == list_items_in(old(items)@) + item_list_items(it),
        nav_labels_in(final(items)@) == nav_labels_in(old(items)@) + item_nav_labels(it),
        forall|g: Field|
            inputs_in(final(items)@, g) == inputs_in(old(items)@, g) + item_inputs(it, g),
{
    proof {
        lemma_extract_push(items@, it);
    }
    items.push(it);
}

/// The home page's view function: a pure snapshot of the counter's state,
/// displaying exactly the current value between its fixed headings and
/// paragraphs, with one button for each of the three operations.
pub fn home_view(c: &Counter) -> (v: Snapshot)
    ensures
        counts_in(v.items@) == seq![c.value],
        ops_in(v.items@) == seq![CounterOp::Decrease, CounterOp::Increase, CounterOp::Reset],
        headings_in(v.items@) == seq![
            "Welcome to Our Leptos Website!"@,
            "Fantastic Interactive Counter"@,
        ],
        paragraphs_in(v.items@) == seq![
            "This is a simple static website built with Leptos and Rust."@,
            "Click the buttons above to interact with the counter, or explore other pages using the navigation."@,
        ],
        list_items_in(v.items@) == Seq::<Seq<char>>::empty(),
        banners_in(v.items@) == Seq::<Seq<char>>::empty(),
        navs_in(v.items@) == Seq::<Route>::empty(),
        nav_labels_in(v.items@) == Seq::<Seq<char>>::empty(),
        submits_in(v.items@) == Seq::<Seq<char>>::empty(),
        forall|g: Field| inputs_in(v.items@, g) == Seq::<Seq<char>>::empty(),
{
    let mut items: Vec<Item> = Vec::new();
    proof {
        assert(items@ =~= Seq::<Item>::empty());
    }
    push_item(&mut items, Item::Heading("Welcome to Our Leptos Website!".to_owned()));
    push_item(
        &mut items,
        Item::Paragraph("This is a simple static website built with Leptos and Rust.".to_owned()),
    );
    push_item(&mut items, Item::Heading("Fantastic Interactive Counter".to_owned()));
    push_item(&mut items, Item::CountDisplay(c.value));
    push_item(
        &mut items,
        Item::OpButton { label: "Decrease".to_owned(), op: CounterOp::Decrease },
    );
    push_item(
        &mut items,
        Item::OpButton { label: "Increase".to_owned(), op: CounterOp::Increase },
    );
    push_item(&mut items, Item::OpButton { label: "Reset".to_owned(), op: CounterOp::Reset });
    push_item(
        &mut items,
        Item::Paragraph(
            "Click the buttons above to interact with the counter, or explore other pages using the navigation.".to_owned(),
        ),
    );
    proof {
        assert(counts_in(items@) =~= seq![c.value]);
        assert(ops_in(items@) =~= seq![
            CounterOp::Decrease,
            CounterOp::Increase,
            CounterOp::Reset,
        ]);
        assert(headings_in(items@) =~= seq![
            "Welcome to Our Leptos Website!"@,
            "Fantastic Interactive Counter"@,
        ]);
        assert(paragraphs_in(items@) =~= seq![
            "This is a simple static website built with Leptos and Rust."@,
            "Click the buttons above to interact with the counter, or explore other pages using the navigation."@,
        ]);
        assert(list_items_in(items@) =~= Seq::<Seq<char>>::empty());
        assert(banners_in(items@) =~= Seq::<Seq<char>>::empty());
        assert(navs_in(items@) =~= Seq::<Route>::empty());
        assert(nav_labels_in(items@) =~= Seq::<Seq<char>>::empty());
        assert(submits_in(items@) =~= Seq::<Seq<char>>::empty());
        assert forall|g: Field| inputs_in(items@, g) == Seq::<Seq<char>>::empty() by {
            assert(inputs_in(items@, g) =~= Seq::<Seq<char>>::empty());
        }
    }
    Snapshot { items }
}

/// The about page's view function: static text only, and the whole of it is
/// fixed — the three headings, the two paragraphs, and the five feature
/// bullets, in order, with no counter, no form, no banner and nothing
/// interactive. Every call returns this same tree.
pub fn about_view() -> (v: Snapshot)
    ensures
        headings_in(v.items@) == seq!["About This Website"@, "Features:"@, "Why Leptos?"@],
        paragraphs_in(v.items@) == seq![
            "This website demonstrates the power of Leptos - a modern web framework for Rust."@,
            "Leptos combines the performance of Rust with the interactivity of modern web frameworks. It compiles to WebAssembly for near-native performance in the browser."@,
        ],
        list_items_in(v.items@) == seq![
            "\u{1f680} Fast compilation to WebAssembly"@,
            "\u{26a1} Reactive signals for state management"@,
            "\u{1f3af} Type-safe components"@,
            "\u{1f4f1} Responsive design"@,
            "\u{1f504} Client-side routing"@,
        ],
        counts_in(v.items@) == Seq::<i64>::empty(),
        ops_in(v.items@) == Seq::<CounterOp>::empty(),
        banners_in(v.items@) == Seq::<Seq<char>>::empty(),
        navs_in(v.items@) == Seq::<Route>::empty(),
        nav_labels_in(v.items@) == Seq::<Seq<char>>::empty(),
        submits_in(v.items@) == Seq::<Seq<char>>::empty(),
        forall|g: Field| inputs_in(v.items@, g) == Seq::<Seq<char>>::empty(),
{
    let mut items: Vec<Item> = Vec::new();
    proof {
        assert(items@ =~= Seq::<Item>::empty());
    }
    push_item(&mut items, Item::Heading("About This Website".to_owned()));
    push_item(
        &mut items,
        Item::Paragraph(
            "This website demonstrates the power of Leptos - a modern web framework for Rust.".to_owned(),
        ),
    );
    push_item(&mut items, Item::Heading("Features:".to_owned()));
    push_item(
        &mut items,
        Item::ListItem("\u{1f680} Fast compilation to WebAssembly".to_owned()),
    );
    push_item(
        &mut items,
        Item::ListItem("\u{26a1} Reactive signals for state management".to_owned()),
    );
    push_item(&mut items, Item::ListItem("\u{1f3af} Type-safe components".to_owned()));
    push_item(&mut items, Item::ListItem("\u{1f4f1} Responsive design".to_owned()));
    push_item(&mut items, Item::ListItem("\u{1f504} Client-side routing".to_owned()));
    push_item(&mut items, Item::Heading("Why Leptos?".to_owned()));
    push_item(
        &mut items,
        Item::Paragraph(
            "Leptos combines the performance of Rust with the interactivity of modern web frameworks. It compiles to WebAssembly for near-native performance in the browser.".to_owned(),
        ),
    );
    proof {
        assert(headings_in(items@) =~= seq![
            "About This Website"@,
            "Features:"@,
            "Why Leptos?"@,
        ]);
        assert(paragraphs_in(items@) =~= seq![
            "This website demonstrates the power of Leptos - a modern web framework for Rust."@,
            "Leptos combines the performance of Rust with the interactivity of modern web frameworks. It compiles to WebAssembly for near-native performance in the browser."@,
        ]);
        assert(list_items_in(items@) =~= seq![
            "\u{1f680} Fast compilation to WebAssembly"@,
            "\u{26a1} Reactive signals for state management"@,
            "\u{1f3af} Type-safe components"@,
            "\u{1f4f1} Responsive design"@,
            "\u{1f504} Client-side routing"@,
        ]);
        assert(counts_in(items@) =~= Seq::<i64>::empty());
        assert(ops_in(items@) =~= Seq::<CounterOp>::empty());
        assert(banners_in(items@) =~= Seq::<Seq<char>>::empty());
        assert(navs_in(items@) =~= Seq::<Route>::empty());
        assert(nav_labels_in(items@) =~= Seq::<Seq<char>>::empty());
        assert(submits_in(items@) =~= Seq::<Seq<char>>::empty());
        assert forall|g: Field| inputs_in(items@, g) == Seq::<Seq<char>>::empty() by {
            assert(inputs_in(items@, g) =~= Seq::<Seq<char>>::empty());
        }
    }
    Snapshot { items }
}

/// The contact page's view function. Each field's input displays exactly the
/// field's current text, verbatim; the confirmation banner appears exactly
/// once when the form has been submitted and not at all before; the form
/// itself stays visible and interactive either way.
pub fn contact_view(form: &ContactForm) -> (v: Snapshot)
    ensures
        forall|g: Field| inputs_in(v.items@, g) == seq![form.spec_field(g)],
        banners_in(v.items@) == if form.submitted {
            seq!["Thank you for your message! We'll get back to you soon."@]
        } else {
            Seq::<Seq<char>>::empty()
        },
        submits_in(v.items@) == seq!["Send Message"@],
        headings_in(v.items@) == seq!["Contact Us"@],
        paragraphs_in(v.items@) == Seq::<Seq<char>>::empty(),
        list_items_in(v.items@) == Seq::<Seq<char>>::empty(),
        counts_in(v.items@) == Seq::<i64>::empty(),
        ops_in(v.items@) == Seq::<CounterOp>::empty(),
        navs_in(v.items@) == Seq::<Route>::empty(),
        nav_labels_in(v.items@) == Seq::<Seq<char>>::empty(),
{
    let mut items: Vec<Item> = Vec::new();
    proof {
        assert(items@ =~= Seq::<Item>::empty());
    }
    push_item(&mut items, Item::Heading("Contact Us".to_owned()));
    if form.submitted {
        push_item(
            &mut items,
            Item::Banner("Thank you for your message! We'll get back to you soon.".to_owned()),
        );
    }
    push_item(
        &mut items,
        Item::TextInput { field: Field::Name, value: form.name.clone() },
    );
    push_item(
        &mut items,
        Item::TextInput { field: Field::Email, value: form.email.clone() },
    );
    push_item(
        &mut items,
        Item::TextInput { field: Field::Message, value: form.message.clone() },
    );
    push_item(&mut items, Item::SubmitButton { label: "Send Message".to_owned() });
    proof {
        assert forall|g: Field| inputs_in(items@, g) == seq![form.spec_field(g)] by {
            assert(inputs_in(items@, g) =~= seq![form.spec_field(g)]);
        }
        if form.submitted {
            assert(banners_in(items@) =~= seq![
                "Thank you for your message! We'll get back to you soon."@,
            ]);
        } else {
            assert(banners_in(items@) =~= Seq::<Seq<char>>::empty());
        }
        assert(submits_in(items@) =~= seq!["Send Message"@]);
        assert(headings_in(items@) =~= seq!["Contact Us"@]);
        assert(paragraphs_in(items@) =~= Seq::<Seq<char>>::empty());
        assert(list_items_in(items@) =~= Seq::<Seq<char>>::empty());
        assert(counts_in(items@) =~= Seq::<i64>::empty());
        assert(ops_in(items@) =~= Seq::<CounterOp>::empty());
        assert(navs_in(items@) =~= Seq::<Route>::empty());
        assert(nav_labels_in(items@) =~= Seq::<Seq<char>>::empty());
    }
    Snapshot { items }
}

/// The navigation bar's view function: one link per routed page, in the
/// site's fixed order, each under its fixed label.
pub fn nav_view() -> (v: Snapshot)
    ensures
        navs_in(v.items@) == seq![Route::Home, Route::About, Route::Contact],
        nav_labels_in(v.items@) == seq!["Home"@, "About"@, "Contact"@],
        counts_in(v.items@) == Seq::<i64>::empty(),
        ops_in(v.items@) == Seq::<CounterOp>::empty(),
        banners_in(v.items@) == Seq::<Seq<char>>::empty(),
        headings_in(v.items@) == Seq::<Seq<char>>::empty(),
        paragraphs_in(v.items@) == Seq::<Seq<char>>::empty(),
        list_items_in(v.items@) == Seq::<Seq<char>>::empty(),
        submits_in(v.items@) == Seq::<Seq<char>>::empty(),
        forall|g: Field| inputs_in(v.items@, g) == Seq::<Seq<char>>::empty(),
{
    let mut items: Vec<Item> = Vec::new();
    proof {
        assert(items@ =~= Seq::<Item>::empty());
    }
    push_item(&mut items, Item::NavLink { label: "Home".to_owned(), target: Route::Home });
    push_item(&mut items, Item::NavLink { label: "About".to_owned(), target: Route::About });
    push_item(
        &mut items,
        Item::NavLink { label: "Contact".to_owned(), target: Route::Contact },
    );
    proof {
        assert(navs_in(items@) =~= seq![Route::Home, Route::About, Route::Contact]);
        assert(nav_labels_in(items@) =~= seq!["Home"@, "About"@, "Contact"@]);
        assert(counts_in(items@) =~= Seq::<i64>::empty());
        assert(ops_in(items@) =~= Seq::<CounterOp>::empty());
        assert(banners_in(items@) =~= Seq::<Seq<char>>::empty());
        assert(headings_in(items@) =~= Seq::<Seq<char>>::empty());
        assert(paragraphs_in(items@) =~= Seq::<Seq<char>>::empty());
        assert(list_items_in(items@) =~= Seq::<Seq<char>>::empty());
        assert(submits_in(items@) =~= Seq::<Seq<char>>::empty());
        assert forall|g: Field| inputs_in(items@, g) == Seq::<Seq<char>>::empty() by {
            assert(inputs_in(items@, g) =~= Seq::<Seq<char>>::empty());
        }
    }
    Snapshot { items }
}

} // verus!
