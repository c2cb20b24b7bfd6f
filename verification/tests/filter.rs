use egui_dropdown::filter::{is_listed, listed_folded, listed_positions};

fn names() -> Vec<String> {
    vec!["First".to_string(), "Second".to_string(), "Third".to_string(), "Other".to_string()]
}

#[test]
fn empty_input_lists_every_item() {
    assert_eq!(listed_positions(&names(), "", true), vec![0, 1, 2, 3]);
    assert_eq!(listed_positions(&names(), "", false), vec![0, 1, 2, 3]);
}

#[test]
fn input_narrows_the_list() {
    assert_eq!(listed_positions(&names(), "ir", true), vec![0, 2]);
}

#[test]
fn filter_switched_off_lists_every_item() {
    assert_eq!(listed_positions(&names(), "ir", false), vec![0, 1, 2, 3]);
    assert!(is_listed("Second", "zzz", false));
}

#[test]
fn no_items_give_an_empty_list() {
    let none: Vec<String> = Vec::new();
    assert_eq!(listed_positions(&none, "", true), Vec::<usize>::new());
    assert_eq!(listed_positions(&none, "ir", true), Vec::<usize>::new());
    assert_eq!(listed_positions(&none, "ir", false), Vec::<usize>::new());
}

#[test]
fn matching_ignores_case_on_both_sides() {
    assert!(is_listed("THIRD", "ir", true));
    assert!(is_listed("third", "IR", true));
    assert!(is_listed("Third", "tHiRd", true));
    assert!(!is_listed("Second", "IR", true));
}

#[test]
fn matching_wants_a_contiguous_run() {
    assert!(is_listed("Other", "the", true));
    assert!(!is_listed("Other", "oer", true));
    assert!(!is_listed("ir", "First", true));
}

#[test]
fn equal_texts_are_each_listed() {
    let twice = vec!["Same".to_string(), "Else".to_string(), "Same".to_string()];
    assert_eq!(listed_positions(&twice, "sam", true), vec![0, 2]);
}

#[test]
fn folded_texts_are_compared_as_given() {
    assert!(listed_folded("third", "IR", "ir", true));
    assert!(!listed_folded("THIRD", "IR", "ir", true));
    assert!(listed_folded("THIRD", "", "ir", true));
    assert!(listed_folded("THIRD", "IR", "ir", false));
}

#[test]
fn listing_is_the_same_when_asked_twice() {
    let first = listed_positions(&names(), "e", true);
    let second = listed_positions(&names(), "e", true);
    assert_eq!(first, vec![1, 3]);
    assert_eq!(first, second);
}
