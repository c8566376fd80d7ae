use rdo::todo::TodoList;

#[test]
fn new_list_is_empty() {
    let list = TodoList::new();
    assert!(list.items.is_empty());
}

#[test]
fn added_items_are_numbered_from_the_length() {
    let mut list = TodoList::new();
    list.add_item(String::from("first"));
    list.add_item(String::from("second"));
    assert_eq!(list.items.len(), 2);
    assert_eq!(list.items[0].id, 1);
    assert_eq!(list.items[0].title, "first");
    assert!(!list.items[0].completed);
    assert_eq!(list.items[1].id, 2);
    assert_eq!(list.items[1].title, "second");
}

#[test]
fn remove_drops_every_match_and_keeps_order() {
    let mut list = TodoList::new();
    list.add_item(String::from("a"));
    list.add_item(String::from("b"));
    list.add_item(String::from("c"));
    list.remove_item(2);
    assert_eq!(list.items.len(), 2);
    assert_eq!(list.items[0].title, "a");
    assert_eq!(list.items[1].title, "c");
    // Removing an absent identifier changes nothing.
    list.remove_item(99);
    assert_eq!(list.items.len(), 2);
}

#[test]
fn removal_can_leave_duplicate_identifiers_behind() {
    let mut list = TodoList::new();
    list.add_item(String::from("a"));
    list.add_item(String::from("b"));
    list.remove_item(1);
    list.add_item(String::from("c"));
    // Both remaining items now carry identifier 2.
    assert_eq!(list.items[0].id, 2);
    assert_eq!(list.items[1].id, 2);
}

#[test]
fn mark_completed_sets_the_first_match_only() {
    let mut list = TodoList::new();
    list.add_item(String::from("a"));
    list.add_item(String::from("b"));
    list.remove_item(1);
    list.add_item(String::from("c"));
    // items: [b (id 2), c (id 2)]
    list.mark_completed(2);
    assert!(list.items[0].completed);
    assert!(!list.items[1].completed);
}

#[test]
fn mark_completed_without_match_changes_nothing() {
    let mut list = TodoList::new();
    list.add_item(String::from("a"));
    list.mark_completed(7);
    assert!(!list.items[0].completed);
    assert_eq!(list.items[0].title, "a");
}
