use list_menu::lists::{List, ListItem, Lists, Menu, NO_DESCRIPTION};
use list_menu::menu::MenuError;

fn names_of(lists: &Lists) -> Vec<String> {
    lists.lists().iter().map(|l| l.title().to_string()).collect()
}

fn item_names(list: &List) -> Vec<String> {
    list.items().iter().map(|i| i.title().to_string()).collect()
}

#[test]
fn create_appends_in_order() {
    let mut lists = Lists::new();
    assert_eq!(lists.mk("b"), Ok(()));
    assert_eq!(lists.mk("a"), Ok(()));
    assert_eq!(lists.mk("c"), Ok(()));
    assert_eq!(names_of(&lists), vec!["b", "a", "c"]);
    assert_eq!(lists.count(), 3);
    assert_eq!(lists.lists()[0].count(), 0);
}

#[test]
fn create_twice_is_refused_and_changes_nothing() {
    let mut lists = Lists::new();
    assert_eq!(lists.mk("groceries"), Ok(()));
    assert_eq!(lists.mk("groceries"), Err(MenuError::DuplicateName));
    assert_eq!(lists.count(), 1);
    assert_eq!(names_of(&lists), vec!["groceries"]);

    let mut list = List::new("groceries".to_string());
    assert_eq!(list.mk("milk"), Ok(()));
    assert_eq!(list.mk("milk"), Err(MenuError::DuplicateName));
    assert_eq!(list.count(), 1);
    assert_eq!(item_names(&list), vec!["milk"]);
}

#[test]
fn names_match_exactly_and_by_case() {
    let mut lists = Lists::new();
    assert_eq!(lists.mk("Milk"), Ok(()));
    assert_eq!(lists.mk("milk"), Ok(()));
    assert_eq!(lists.mk("milk "), Ok(()));
    assert_eq!(lists.mk(""), Ok(()));
    assert_eq!(lists.mk(""), Err(MenuError::DuplicateName));
    assert_eq!(lists.count(), 4);
    assert_eq!(lists.position("milk"), Some(1));
    assert_eq!(lists.position("MILK"), None);
}

#[test]
fn remove_and_rename_of_absent_name_are_refused() {
    let mut lists = Lists::new();
    lists.mk("a").unwrap();
    lists.mk("b").unwrap();
    assert_eq!(lists.rm("c"), Err(MenuError::NotFound));
    assert_eq!(lists.name("c", "d"), Err(MenuError::NotFound));
    assert_eq!(names_of(&lists), vec!["a", "b"]);

    let mut list = List::new("l".to_string());
    list.mk("x").unwrap();
    assert_eq!(list.rm("y"), Err(MenuError::NotFound));
    assert_eq!(list.name("y", "z"), Err(MenuError::NotFound));
    assert_eq!(list.desc("y", "text"), Err(MenuError::NotFound));
    assert_eq!(item_names(&list), vec!["x"]);
    assert!(!list.items()[0].is_described());
}

#[test]
fn remove_and_rename_on_empty_menus() {
    let mut lists = Lists::new();
    assert_eq!(lists.rm("a"), Err(MenuError::NotFound));
    assert_eq!(lists.name("a", "b"), Err(MenuError::NotFound));
    assert_eq!(lists.count(), 0);
}

#[test]
fn remove_shifts_later_entries_left() {
    let mut lists = Lists::new();
    for n in ["a", "b", "c", "d"] {
        lists.mk(n).unwrap();
    }
    assert_eq!(lists.rm("b"), Ok(()));
    assert_eq!(names_of(&lists), vec!["a", "c", "d"]);
    assert_eq!(lists.rm("a"), Ok(()));
    assert_eq!(names_of(&lists), vec!["c", "d"]);
    assert_eq!(lists.rm("d"), Ok(()));
    assert_eq!(names_of(&lists), vec!["c"]);
}

#[test]
fn remove_discards_the_items_of_a_list() {
    let mut lists = Lists::new();
    lists.mk("a").unwrap();
    lists.get_list("a").unwrap().mk("x").unwrap();
    lists.rm("a").unwrap();
    lists.mk("a").unwrap();
    assert_eq!(lists.get_list("a").unwrap().count(), 0);
}

#[test]
fn rename_keeps_place_and_contents() {
    let mut lists = Lists::new();
    lists.mk("a").unwrap();
    lists.mk("b").unwrap();
    lists.get_list("a").unwrap().mk("x").unwrap();
    assert_eq!(lists.name("a", "z"), Ok(()));
    assert_eq!(names_of(&lists), vec!["z", "b"]);
    assert_eq!(item_names(&lists.lists()[0]), vec!["x"]);

    let mut list = List::new("l".to_string());
    list.mk("x").unwrap();
    list.desc("x", "about x").unwrap();
    assert_eq!(list.name("x", "y"), Ok(()));
    assert_eq!(list.get_desc("y"), Ok("about x"));
    assert_eq!(list.title(), "l");
}

#[test]
fn rename_onto_existing_name_leaves_two_entries_of_that_name() {
    let mut lists = Lists::new();
    lists.mk("a").unwrap();
    lists.mk("b").unwrap();
    assert_eq!(lists.name("a", "b"), Ok(()));
    assert_eq!(names_of(&lists), vec!["b", "b"]);

    let mut list = List::new("l".to_string());
    list.mk("a").unwrap();
    list.mk("b").unwrap();
    assert_eq!(list.name("b", "a"), Ok(()));
    assert_eq!(item_names(&list), vec!["a", "a"]);
}

#[test]
fn operations_act_on_the_first_of_two_equal_names() {
    let mut list = List::new("l".to_string());
    list.mk("a").unwrap();
    list.mk("b").unwrap();
    list.desc("b", "second").unwrap();
    list.name("a", "b").unwrap();
    assert_eq!(list.get_desc("b"), Ok(NO_DESCRIPTION));
    list.desc("b", "first").unwrap();
    assert_eq!(list.get_desc("b"), Ok("first"));
    list.rm("b").unwrap();
    assert_eq!(list.count(), 1);
    assert_eq!(list.get_desc("b"), Ok("second"));
}

#[test]
fn description_defaults_to_the_fixed_text() {
    let mut list = List::new("l".to_string());
    list.mk("milk").unwrap();
    assert_eq!(list.get_desc("milk"), Ok("No description"));
    assert_eq!(NO_DESCRIPTION, "No description");
}

#[test]
fn empty_description_is_not_the_fixed_text() {
    let mut list = List::new("l".to_string());
    list.mk("milk").unwrap();
    assert_eq!(list.desc("milk", ""), Ok(()));
    assert_eq!(list.get_desc("milk"), Ok(""));
    assert!(list.items()[0].is_described());
}

#[test]
fn description_is_overwritten() {
    let mut list = List::new("l".to_string());
    list.mk("milk").unwrap();
    list.desc("milk", "2%").unwrap();
    assert_eq!(list.get_desc("milk"), Ok("2%"));
    list.desc("milk", "whole").unwrap();
    assert_eq!(list.get_desc("milk"), Ok("whole"));
}

#[test]
fn description_of_absent_item_is_refused() {
    let list = List::new("l".to_string());
    assert_eq!(list.get_desc("milk"), Err(MenuError::ItemNotFound));
}

#[test]
fn get_list_finds_the_first_match_or_fails() {
    let mut lists = Lists::new();
    lists.mk("a").unwrap();
    lists.mk("b").unwrap();
    {
        let b = lists.get_list("b").unwrap();
        assert_eq!(b.title(), "b");
        b.mk("x").unwrap();
    }
    assert_eq!(lists.lists()[1].count(), 1);
    assert_eq!(lists.lists()[0].count(), 0);
    assert!(matches!(lists.get_list("c"), Err(MenuError::NotFound)));
    assert_eq!(lists.count(), 2);
}

#[test]
fn list_at_gives_the_list_at_a_position() {
    let mut lists = Lists::new();
    lists.mk("a").unwrap();
    lists.mk("b").unwrap();
    lists.list_at(1).mk("x").unwrap();
    assert_eq!(item_names(&lists.lists()[1]), vec!["x"]);
}

#[test]
fn error_messages() {
    assert_eq!(MenuError::DuplicateName.message(), "Duplicate name");
    assert_eq!(MenuError::NotFound.message(), "List not found");
    assert_eq!(MenuError::ItemNotFound.message(), "Item not found");
}

#[test]
fn parts_go_in_and_come_out_unchanged() {
    let items = vec![
        ListItem::from_parts("milk".to_string(), Some("2%".to_string())),
        ListItem::from_parts("eggs".to_string(), None),
        ListItem::from_parts("salt".to_string(), Some(String::new())),
    ];
    let list = List::from_parts("groceries".to_string(), items);
    let lists = Lists::from_parts(vec![list, List::new("empty".to_string())]);
    assert_eq!(lists.count(), 2);
    assert_eq!(lists.lists()[0].get_desc("salt"), Ok(""));
    assert_eq!(lists.lists()[0].get_desc("eggs"), Ok("No description"));

    let mut out = lists.into_parts();
    assert_eq!(out.len(), 2);
    let (name, items) = out.remove(0).into_parts();
    assert_eq!(name, "groceries");
    let parts: Vec<(String, Option<String>)> = items.into_iter().map(|i| i.into_parts()).collect();
    assert_eq!(
        parts,
        vec![
            ("milk".to_string(), Some("2%".to_string())),
            ("eggs".to_string(), None),
            ("salt".to_string(), Some(String::new())),
        ]
    );
    let (name, items) = out.remove(0).into_parts();
    assert_eq!(name, "empty");
    assert!(items.is_empty());
}

#[test]
fn new_item_has_no_description() {
    let item = ListItem::new("milk".to_string());
    assert_eq!(item.title(), "milk");
    assert!(!item.is_described());
    assert_eq!(item.into_parts(), ("milk".to_string(), None));
}
