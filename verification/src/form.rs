//! The contact page's state: three free-text fields and a submission flag.
//! Every string is accepted verbatim — no trimming, no validation, no length
//! limit — and submission is a purely local state transition with no failure
//! path.

use vstd::prelude::*;

verus! {

/// One of the contact form's three text fields.
#[derive(Clone, Copy, Debug, PartialEq, Eq, Structural)]
pub enum Field {
    Name,
    Email,
    Message,
}

/// The contact form's state: the three field texts and whether the form has
/// been submitted at least once in this page's lifetime.
#[derive(Clone, Debug)]
pub struct ContactForm {
    pub name: String,
    pub email: String,
    pub message: String,
    pub submitted: bool,
}

impl ContactForm {
    /// The text currently held by a field.
    pub open spec fn spec_field(&self, f: Field) -> Seq<char> {
        match f {
            Field::Name => self.name@,
            Field::Email => self.email@,
            Field::Message => self.message@,
        }
    }

    /// A freshly mounted contact page: every field empty, nothing submitted.
    pub fn new() -> (form: ContactForm)
        ensures
            form.name@ == Seq::<char>::empty(),
            form.email@ == Seq::<char>::empty(),
            form.message@ == Seq::<char>::empty(),
            !form.submitted,
    {
        ContactForm {
            name: String::new(),
            email: String::new(),
            message: String::new(),
            submitted: false,
        }
    }

    /// An input event on one field: the field takes the input's text exactly
    /// as written, and nothing else changes.
    pub fn set_field(&mut self, f: Field, text: String)
        ensures
            final(self).spec_field(f) == text@,
            forall|g: Field| g != f ==> final(self).spec_field(g) == old(self).spec_field(g),
            final(self).submitted == old(self).submitted,
    {
        match f {
            Field::Name => {
                self.name = text;
            },
            Field::Email => {
                self.email = text;
            },
            Field::Message => {
                self.message = text;
            },
        }
    }

    /// The submit event. The browser's default full-page submission is always
    /// suppressed (the returned flag is always true), the flag becomes true no
    /// matter what the fields hold — an all-empty form still succeeds — and a
    /// repeated submit leaves it true. The fields themselves are untouched.
    pub fn submit(&mut self) -> (prevent_default: bool)
        ensures
            prevent_default,
            final(self).submitted,
            final(self).name@ == old(self).name@,
            final(self).email@ == old(self).email@,
            final(self).message@ == old(self).message@,
    {
        self.submitted = true;
        true
    }
}

} // verus!
