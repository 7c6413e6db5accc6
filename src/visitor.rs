//! A visitor record and the greeting its disposition calls for.

use vstd::prelude::*;
use crate::names::{normalize, normalized};

verus! {

/// What happens when a visitor arrives.
#[derive(Debug)]
pub enum VisitorAction {
    Accept,
    AcceptWithNote { note: String },
    Refuse,
    Probation,
}

/// A visitor: a normalised name, a disposition and an age.
#[derive(Debug)]
pub struct Visitor {
    pub name: String,
    pub action: VisitorAction,
    pub age: i8,
}

/// Visitors younger than this are not served alcohol.
pub const DRINKING_AGE: i8 = 21;

/// The views of a list of lines.
pub open spec fn lines_view(lines: Seq<String>) -> Seq<Seq<char>> {
    lines.map_values(|s: String| s@)
}

/// The line that welcomes `name`.
pub open spec fn welcome_line(name: Seq<char>) -> Seq<char> {
    "Welcome, "@ + name + "!"@
}

/// The line that welcomes `name` and passes on `note`.
pub open spec fn welcome_note_line(name: Seq<char>, note: Seq<char>) -> Seq<char> {
    "Welcome, "@ + name + "! "@ + note
}

/// The warning not to serve alcohol to `name`.
pub open spec fn alcohol_line(name: Seq<char>) -> Seq<char> {
    "Do not serve alcohol to "@ + name + "."@
}

/// The line that greets a visitor on probation.
pub open spec fn probation_line(name: Seq<char>) -> Seq<char> {
    name + " is now a probationary member."@
}

/// The line that sends a refused visitor away.
pub open spec fn refuse_line() -> Seq<char> {
    "No, no, no! You must leave!"@
}

/// The alcohol warning, for a visitor under the drinking age.
pub open spec fn age_lines(v: Visitor) -> Seq<Seq<char>> {
    if v.age < DRINKING_AGE {
        seq![alcohol_line(v.name@)]
    } else {
        Seq::empty()
    }
}

/// The lines with which `v` is greeted, in order.
pub open spec fn greeting_lines(v: Visitor) -> Seq<Seq<char>> {
    match v.action {
        VisitorAction::Accept => seq![welcome_line(v.name@)] + age_lines(v),
        VisitorAction::AcceptWithNote { note } => seq![welcome_note_line(v.name@, note@)]
            + age_lines(v),
        VisitorAction::Probation => seq![probation_line(v.name@)],
        VisitorAction::Refuse => seq![refuse_line()],
    }
}

impl Visitor {
    /// A visitor whose name is stored in normal form.
    pub fn new(name: &str, action: VisitorAction, age: i8) -> (r: Visitor)
        ensures
            r.name@ == normalized(name@),
            r.action == action,
            r.age == age,
    {
        Visitor { name: normalize(name), action, age }
    }

    /// The lines with which this visitor is greeted.
    pub fn greeting(&self) -> (r: Vec<String>)
        ensures
            lines_view(r@) == greeting_lines(*self),
    {
        let mut lines: Vec<String> = Vec::new();
        match &self.action {
            VisitorAction::Accept => {
                let mut l = String::from_str("Welcome, ");
                l.append(self.name.as_str());
                l.append("!");
                lines.push(l);
            },
            VisitorAction::AcceptWithNote { note } => {
                let mut l = String::from_str("Welcome, ");
                l.append(self.name.as_str());
                l.append("! ");
                l.append(note.as_str());
                lines.push(l);
            },
            VisitorAction::Probation => {
                let mut l = self.name.clone();
                l.append(" is now a probationary member.");
                lines.push(l);
            },
            VisitorAction::Refuse => {
                lines.push(String::from_str("No, no, no! You must leave!"));
            },
        }
        let welcomed = match &self.action {
            VisitorAction::Accept => true,
            VisitorAction::AcceptWithNote { .. } => true,
            _ => false,
        };
        if welcomed && self.age < DRINKING_AGE {
            let mut l = String::from_str("Do not serve alcohol to ");
            l.append(self.name.as_str());
            l.append(".");
            lines.push(l);
        }
        assert(lines_view(lines@) =~= greeting_lines(*self));
        lines
    }
}

} // verus!
