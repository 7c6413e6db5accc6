//! The ordered list of visitors: seeding, lookup by name, and the handling of
//! one line of input.

use vstd::prelude::*;
use crate::names::{all_white, lemma_boundary_white_space, normalize, normalized};
use crate::visitor::{greeting_lines, probation_line, lines_view, Visitor, VisitorAction};

verus! {

/// What the caller does after one line of input.
#[derive(Debug)]
pub enum Step {
    /// The name was empty: stop asking.
    Stop,
    /// Print these lines, then ask again.
    Continue(Vec<String>),
}

/// The index of the first visitor at or after `i` whose name is `key`.
pub open spec fn find_from(list: Seq<Visitor>, key: Seq<char>, i: int) -> Option<int>
    decreases list.len() - i,
{
    if 0 <= i < list.len() {
        if list[i].name@ == key {
            Some(i)
        } else {
            find_from(list, key, i + 1)
        }
    } else {
        None
    }
}

/// The index of the first visitor in `list` whose name is `key`.
pub open spec fn first_match(list: Seq<Visitor>, key: Seq<char>) -> Option<int> {
    find_from(list, key, 0)
}

proof fn lemma_find_from(list: Seq<Visitor>, key: Seq<char>, i: int)
    requires
        0 <= i,
    ensures
        find_from(list, key, i) matches Some(j) ==> {
            &&& i <= j < list.len()
            &&& list[j].name@ == key
            &&& forall|k: int| i <= k < j ==> list[k].name@ != key
        },
        find_from(list, key, i) is None ==> forall|k: int| i <= k < list.len() ==> list[k].name@ != key,
    decreases list.len() - i,
{
    if i < list.len() && list[i].name@ != key {
        lemma_find_from(list, key, i + 1);
    }
}

/// Lookup finds the first visitor whose name is `key`, and finds none exactly
/// when no visitor has that name.
pub proof fn lemma_first_match(list: Seq<Visitor>, key: Seq<char>)
    ensures
        first_match(list, key) matches Some(j) ==> {
            &&& 0 <= j < list.len()
            &&& list[j].name@ == key
            &&& forall|k: int| 0 <= k < j ==> list[k].name@ != key
        },
        first_match(list, key) is None <==> forall|k: int| 0 <= k < list.len() ==> list[k].name@ != key,
{
    lemma_find_from(list, key, 0);
}

/// The line that announces an unknown name.
pub open spec fn unknown_line(name: Seq<char>) -> Seq<char> {
    name + " is not on the visitor list."@
}

/// The list grew by one visitor on probation, named `key`, of age 0.
pub open spec fn appended_probation(old: Seq<Visitor>, new: Seq<Visitor>, key: Seq<char>) -> bool {
    &&& new.len() == old.len() + 1
    &&& new.take(old.len() as int) == old
    &&& new.last().name@ == key
    &&& new.last().action is Probation
    &&& new.last().age == 0
}

/// The lines of a step that goes on; none for a stop.
pub open spec fn step_lines(s: Step) -> Seq<Seq<char>> {
    match s {
        Step::Stop => Seq::empty(),
        Step::Continue(lines) => lines_view(lines@),
    }
}

/// The three visitors that the registry starts with.
pub fn seeded_visitors() -> (r: Vec<Visitor>)
    ensures
        r@.len() == 3,
        r@[0].name@ == normalized("bob"@),
        r@[0].action is Accept,
        r@[0].age == 45,
        r@[1].name@ == normalized("sally"@),
        r@[1].action is AcceptWithNote,
        r@[1].action->note@ == "Lactose-free milk is in the fridge"@,
        r@[1].age == 15,
        r@[2].name@ == normalized("joe"@),
        r@[2].action is Refuse,
        r@[2].age == 30,
{
    let mut r: Vec<Visitor> = Vec::new();
    r.push(Visitor::new("bob", VisitorAction::Accept, 45));
    let note = String::from_str("Lactose-free milk is in the fridge");
    r.push(Visitor::new("sally", VisitorAction::AcceptWithNote { note }, 15));
    r.push(Visitor::new("joe", VisitorAction::Refuse, 30));
    r
}

/// The index of the first visitor named exactly `name`, if any.
pub fn lookup(list: &Vec<Visitor>, name: &String) -> (r: Option<usize>)
    ensures
        r matches Some(i) ==> i < list@.len(),
        r matches Some(i) ==> first_match(list@, name@) == Some(i as int),
        r is None ==> first_match(list@, name@) is None,
{
    let mut i: usize = 0;
    while i < list.len()
        invariant
            i <= list@.len(),
            first_match(list@, name@) == find_from(list@, name@, i as int),
        decreases list@.len() - i,
    {
        if list[i].name == *name {
            return Some(i);
        }
        i = i + 1;
    }
    None
}

/// Handles one line of input: an empty name stops; a known name is greeted;
/// an unknown one is announced and added on probation.
pub fn process_input_line(list: &mut Vec<Visitor>, raw: &str) -> (r: Step)
    ensures
        ({
            let key = normalized(raw@);
            &&& key.len() == 0 ==> r is Stop && final(list)@ == old(list)@
            &&& key.len() > 0 ==> r is Continue
            &&& key.len() > 0 && first_match(old(list)@, key) is Some ==> {
                &&& final(list)@ == old(list)@
                &&& step_lines(r) == greeting_lines(old(list)@[first_match(old(list)@, key)->0])
            }
            &&& key.len() > 0 && first_match(old(list)@, key) is None ==> {
                &&& appended_probation(old(list)@, final(list)@, key)
                &&& step_lines(r) == seq![unknown_line(key)]
            }
        }),
{
    let name = normalize(raw);
    if name.as_str().is_empty() {
        return Step::Stop;
    }
    match lookup(list, &name) {
        Some(i) => {
            proof {
                lemma_find_from(list@, name@, 0);
            }
            Step::Continue(list[i].greeting())
        },
        None => {
            let mut l = name.clone();
            l.append(" is not on the visitor list.");
            let v = Visitor { name, action: VisitorAction::Probation, age: 0 };
            list.push(v);
            assert(list@.take(old(list)@.len() as int) =~= old(list)@);
            Step::Continue(vec![l])
        },
    }
}

/// Names that differ only by white space at either end resolve to the same
/// visitor.
pub proof fn lemma_boundary_white_space_same_record(
    list: Seq<Visitor>,
    w1: Seq<char>,
    s: Seq<char>,
    w2: Seq<char>,
)
    requires
        all_white(w1),
        all_white(w2),
    ensures
        first_match(list, normalized(w1 + s + w2)) == first_match(list, normalized(s)),
{
    lemma_boundary_white_space(w1, s, w2);
}

/// A name added on probation is found again by the next lookup, and its
/// visitor is then greeted as a probationary member.
pub proof fn lemma_added_name_found(old: Seq<Visitor>, new: Seq<Visitor>, key: Seq<char>)
    requires
        first_match(old, key) is None,
        appended_probation(old, new, key),
    ensures
        first_match(new, key) == Some(old.len() as int),
        greeting_lines(new[old.len() as int]) == seq![probation_line(key)],
{
    lemma_find_from(old, key, 0);
    lemma_find_from(new, key, 0);
    assert forall|k: int| 0 <= k < old.len() implies new[k].name@ != key by {
        assert(new[k] == new.take(old.len() as int)[k]);
    }
}

} // verus!
