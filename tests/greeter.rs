use treehouse::names::normalize;
use treehouse::registry::{lookup, process_input_line, seeded_visitors, Step};
use treehouse::visitor::{Visitor, VisitorAction};

fn lines_of(step: Step) -> Vec<String> {
    match step {
        Step::Continue(lines) => lines,
        Step::Stop => panic!("expected the session to go on"),
    }
}

#[test]
fn normalize_trims_and_lowercases() {
    assert_eq!(normalize("  BoB \n"), "bob");
    assert_eq!(normalize("Sally"), "sally");
    assert_eq!(normalize("   "), "");
    assert_eq!(normalize(""), "");
}

#[test]
fn normalize_is_idempotent_on_examples() {
    for s in ["  Bob", "JOE  ", "\tNewGuy\r\n", "x", " Mixed Case Name "] {
        let once = normalize(s);
        assert_eq!(normalize(&once), once);
    }
}

#[test]
fn visitor_new_stores_normal_form() {
    let v = Visitor::new("  Ann ", VisitorAction::Refuse, 30);
    assert_eq!(v.name, "ann");
    assert_eq!(v.age, 30);
    assert!(matches!(v.action, VisitorAction::Refuse));
}

#[test]
fn seeded_list_holds_three_visitors() {
    let list = seeded_visitors();
    assert_eq!(list.len(), 3);
    assert_eq!(list[0].name, "bob");
    assert_eq!(list[0].age, 45);
    assert!(matches!(list[0].action, VisitorAction::Accept));
    assert_eq!(list[1].name, "sally");
    assert_eq!(list[1].age, 15);
    match &list[1].action {
        VisitorAction::AcceptWithNote { note } => {
            assert_eq!(note, "Lactose-free milk is in the fridge")
        }
        _ => panic!("sally should be accepted with a note"),
    }
    assert_eq!(list[2].name, "joe");
    assert_eq!(list[2].age, 30);
    assert!(matches!(list[2].action, VisitorAction::Refuse));
}

#[test]
fn lookup_finds_first_match() {
    let mut list = seeded_visitors();
    list.push(Visitor::new("bob", VisitorAction::Probation, 0));
    assert_eq!(lookup(&list, &normalize(" BOB ")), Some(0));
    assert_eq!(lookup(&list, &normalize("joe")), Some(2));
    assert_eq!(lookup(&list, &normalize("nobody")), None);
    assert_eq!(lookup(&Vec::new(), &normalize("bob")), None);
}

#[test]
fn greets_bob_without_warning() {
    let mut list = seeded_visitors();
    let lines = lines_of(process_input_line(&mut list, "bob"));
    assert_eq!(lines, vec!["Welcome, bob!".to_string()]);
    assert_eq!(list.len(), 3);
}

#[test]
fn greets_sally_with_note_and_warning() {
    let mut list = seeded_visitors();
    let lines = lines_of(process_input_line(&mut list, "sally"));
    assert_eq!(
        lines,
        vec![
            "Welcome, sally! Lactose-free milk is in the fridge".to_string(),
            "Do not serve alcohol to sally.".to_string(),
        ]
    );
}

#[test]
fn refuses_joe() {
    let mut list = seeded_visitors();
    let lines = lines_of(process_input_line(&mut list, "joe"));
    assert_eq!(lines, vec!["No, no, no! You must leave!".to_string()]);
}

#[test]
fn young_accepted_visitor_gets_warning() {
    let v = Visitor::new("Tim", VisitorAction::Accept, 20);
    assert_eq!(
        v.greeting(),
        vec!["Welcome, tim!".to_string(), "Do not serve alcohol to tim.".to_string()]
    );
    let w = Visitor::new("Ada", VisitorAction::AcceptWithNote { note: "Hi".to_string() }, 21);
    assert_eq!(w.greeting(), vec!["Welcome, ada! Hi".to_string()]);
    let p = Visitor::new("Kid", VisitorAction::Probation, 5);
    assert_eq!(p.greeting(), vec!["kid is now a probationary member.".to_string()]);
}

#[test]
fn unknown_name_joins_on_probation() {
    let mut list = seeded_visitors();
    let lines = lines_of(process_input_line(&mut list, "newguy"));
    assert_eq!(lines, vec!["newguy is not on the visitor list.".to_string()]);
    assert_eq!(list.len(), 4);
    let i = lookup(&list, &normalize("newguy")).unwrap();
    assert_eq!(i, 3);
    assert!(matches!(list[i].action, VisitorAction::Probation));
    assert_eq!(list[i].age, 0);
    let again = lines_of(process_input_line(&mut list, "newguy"));
    assert_eq!(again, vec!["newguy is now a probationary member.".to_string()]);
    assert_eq!(list.len(), 4);
}

#[test]
fn empty_input_stops_and_keeps_order() {
    let mut list = seeded_visitors();
    process_input_line(&mut list, "Zed");
    process_input_line(&mut list, "amy");
    process_input_line(&mut list, "bob");
    assert!(matches!(process_input_line(&mut list, ""), Step::Stop));
    assert!(matches!(process_input_line(&mut list, "  \t "), Step::Stop));
    let names: Vec<&str> = list.iter().map(|v| v.name.as_str()).collect();
    assert_eq!(names, vec!["bob", "sally", "joe", "zed", "amy"]);
}

#[test]
fn names_match_across_case_and_boundary_space() {
    let mut list = seeded_visitors();
    assert_eq!(lookup(&list, &normalize("  Bob")), lookup(&list, &normalize("bob")));
    let lines = lines_of(process_input_line(&mut list, "  BOB  "));
    assert_eq!(lines, vec!["Welcome, bob!".to_string()]);
    assert_eq!(list.len(), 3);
}
