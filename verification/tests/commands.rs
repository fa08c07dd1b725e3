use list_menu::cli::{
    desc, join, mk, name, open, open_desc, rm, show_description, sub_handler, super_handler,
    Outcome, INVALID_COMMAND, MISSING_NAME, MISSING_NEW_NAME, NO_COMMAND, SUB_HELP, SUPER_HELP,
};
use list_menu::lists::{List, Lists, Menu};

fn line(words: &[&str]) -> Vec<String> {
    words.iter().map(|w| w.to_string()).collect()
}

fn said(outcome: Outcome) -> String {
    match outcome {
        Outcome::Say(text) => text,
        _ => panic!("a line to print was expected"),
    }
}

fn list_names(lists: &Lists) -> Vec<String> {
    lists.lists().iter().map(|l| l.title().to_string()).collect()
}

#[test]
fn mk_adds_and_reports() {
    let mut lists = Lists::new();
    assert_eq!(mk(&mut lists, &line(&["mk", "groceries"])), "Added groceries");
    assert_eq!(mk(&mut lists, &line(&["mk", "groceries"])), "Duplicate name");
    assert_eq!(mk(&mut lists, &line(&["mk"])), "Missing NAME arg");
    assert_eq!(mk(&mut lists, &line(&["mk", "chores", "ignored"])), "Added chores");
    assert_eq!(list_names(&lists), vec!["groceries", "chores"]);

    let mut list = List::new("l".to_string());
    assert_eq!(mk(&mut list, &line(&["mk", "milk"])), "Added milk");
    assert_eq!(mk(&mut list, &line(&["mk", "milk"])), "Duplicate name");
    assert_eq!(list.count(), 1);
}

#[test]
fn name_renames_and_reports() {
    let mut lists = Lists::new();
    lists.mk("a").unwrap();
    assert_eq!(name(&mut lists, &line(&["name"])), "Missing NAME arg");
    assert_eq!(name(&mut lists, &line(&["name", "a"])), "Missing NEW_NAME arg");
    assert_eq!(name(&mut lists, &line(&["name", "x", "y"])), "List not found");
    assert_eq!(list_names(&lists), vec!["a"]);
    assert_eq!(name(&mut lists, &line(&["name", "a", "b"])), "Renamed a to b");
    assert_eq!(list_names(&lists), vec!["b"]);

    let mut list = List::new("l".to_string());
    list.mk("milk").unwrap();
    assert_eq!(name(&mut list, &line(&["name", "eggs", "milk"])), "List not found");
    assert_eq!(name(&mut list, &line(&["name", "milk", "eggs"])), "Renamed milk to eggs");
    assert_eq!(list.items()[0].title(), "eggs");
}

#[test]
fn rm_deletes_only_on_the_answer_y() {
    let mut lists = Lists::new();
    lists.mk("a").unwrap();
    lists.mk("b").unwrap();
    assert_eq!(rm(&mut lists, "a", &line(&["n"])), "Cancelled deletion of a");
    assert_eq!(rm(&mut lists, "a", &line(&["y"])), "Cancelled deletion of a");
    assert_eq!(rm(&mut lists, "a", &line(&[])), "Cancelled deletion of a");
    assert_eq!(rm(&mut lists, "a", &line(&["Y", "Y"])), "Cancelled deletion of a");
    assert_eq!(rm(&mut lists, "a", &line(&["Yes"])), "Cancelled deletion of a");
    assert_eq!(list_names(&lists), vec!["a", "b"]);
    assert_eq!(rm(&mut lists, "a", &line(&["Y"])), "Deleted a");
    assert_eq!(list_names(&lists), vec!["b"]);
    assert_eq!(rm(&mut lists, "b", &line(&["Y"])), "Deleted b");
    assert_eq!(lists.count(), 0);
    assert_eq!(rm(&mut lists, "b", &line(&["Y"])), "List not found");

    let mut list = List::new("l".to_string());
    list.mk("x").unwrap();
    assert_eq!(rm(&mut list, "x", &line(&["no"])), "Cancelled deletion of x");
    assert_eq!(rm(&mut list, "y", &line(&["Y"])), "List not found");
    assert_eq!(rm(&mut list, "x", &line(&["Y"])), "Deleted x");
    assert_eq!(list.count(), 0);
}

#[test]
fn open_finds_the_list() {
    let mut lists = Lists::new();
    lists.mk("a").unwrap();
    lists.mk("b").unwrap();
    assert_eq!(open(&lists, &line(&["open", "b"])), Ok(1));
    assert_eq!(open(&lists, &line(&["open", "a"])), Ok(0));
    assert_eq!(open(&lists, &line(&["open", "c"])), Err("List not found".to_string()));
    assert_eq!(open(&lists, &line(&["open"])), Err("Missing NAME arg".to_string()));
}

#[test]
fn open_desc_shows_the_description_under_the_name_in_capitals() {
    let mut list = List::new("groceries".to_string());
    list.mk("milk").unwrap();
    assert_eq!(open_desc(&list, &line(&["open", "milk"])), "MILK\nNo description");
    list.desc("milk", "2%").unwrap();
    assert_eq!(open_desc(&list, &line(&["open", "milk"])), "MILK\n2%");
    assert_eq!(open_desc(&list, &line(&["open", "eggs"])), "Item not found");
    assert_eq!(open_desc(&list, &line(&["open"])), "Missing NAME arg");
    assert_eq!(list.get_desc("milk"), Ok("2%"));
}

#[test]
fn open_desc_capitals_follow_unicode() {
    let mut list = List::new("l".to_string());
    list.mk("stra\u{df}e").unwrap();
    list.desc("stra\u{df}e", "").unwrap();
    assert_eq!(open_desc(&list, &line(&["open", "stra\u{df}e"])), "STRASSE\n");
}

#[test]
fn show_description_lays_out_two_lines() {
    assert_eq!(show_description("MILK", "2%"), "MILK\n2%");
    assert_eq!(show_description("", ""), "\n");
}

#[test]
fn desc_sets_the_description() {
    let mut list = List::new("l".to_string());
    list.mk("milk").unwrap();
    assert_eq!(desc(&mut list, "milk", "2%"), "Changed milk's desc");
    assert_eq!(list.get_desc("milk"), Ok("2%"));
    assert_eq!(desc(&mut list, "milk", "full fat, fresh"), "Changed milk's desc");
    assert_eq!(list.get_desc("milk"), Ok("full fat, fresh"));
    assert_eq!(desc(&mut list, "milk", ""), "Changed milk's desc");
    assert_eq!(list.get_desc("milk"), Ok(""));
    assert_eq!(desc(&mut list, "eggs", "x"), "List not found");
}

#[test]
fn join_puts_texts_together() {
    assert_eq!(join("Added ", "x"), "Added x");
    assert_eq!(join("", ""), "");
}

#[test]
fn super_handler_dispatches() {
    let mut lists = Lists::new();
    assert_eq!(said(super_handler(&mut lists, &line(&[]))), "Please provide command");
    assert_eq!(said(super_handler(&mut lists, &line(&["mk", "a"]))), "Added a");
    assert_eq!(said(super_handler(&mut lists, &line(&["mk"]))), "Missing NAME arg");
    assert_eq!(said(super_handler(&mut lists, &line(&["name", "a", "b"]))), "Renamed a to b");
    assert_eq!(said(super_handler(&mut lists, &line(&["name", "b"]))), "Missing NEW_NAME arg");
    assert_eq!(said(super_handler(&mut lists, &line(&["open", "a"]))), "List not found");
    assert_eq!(said(super_handler(&mut lists, &line(&["open"]))), "Missing NAME arg");
    assert!(matches!(super_handler(&mut lists, &line(&["open", "b"])), Outcome::Open(0)));
    assert_eq!(said(super_handler(&mut lists, &line(&["help"]))), SUPER_HELP);
    assert_eq!(said(super_handler(&mut lists, &line(&["desc", "b"]))), "Invalid command");
    assert_eq!(said(super_handler(&mut lists, &line(&["MK", "c"]))), "Invalid command");
    assert_eq!(said(super_handler(&mut lists, &line(&["rm"]))), "Missing NAME arg");
    assert_eq!(said(super_handler(&mut lists, &line(&["rm", "zzz"]))), "List not found");
    match super_handler(&mut lists, &line(&["rm", "b"])) {
        Outcome::ConfirmRemoval(n) => assert_eq!(n, "b"),
        _ => panic!("a question was expected"),
    }
    assert_eq!(lists.count(), 1);
    assert!(matches!(super_handler(&mut lists, &line(&["exit"])), Outcome::Quit));
    assert!(matches!(super_handler(&mut lists, &line(&["exit", "now"])), Outcome::Quit));
}

#[test]
fn sub_handler_dispatches() {
    let mut list = List::new("l".to_string());
    assert_eq!(said(sub_handler(&mut list, &line(&[]))), "Please provide command");
    assert_eq!(said(sub_handler(&mut list, &line(&["mk", "milk"]))), "Added milk");
    assert_eq!(said(sub_handler(&mut list, &line(&["mk", "milk"]))), "Duplicate name");
    assert_eq!(said(sub_handler(&mut list, &line(&["name", "milk", "eggs"]))), "Renamed milk to eggs");
    assert_eq!(said(sub_handler(&mut list, &line(&["open", "eggs"]))), "EGGS\nNo description");
    assert_eq!(said(sub_handler(&mut list, &line(&["open", "milk"]))), "Item not found");
    assert_eq!(said(sub_handler(&mut list, &line(&["desc"]))), "Missing NAME arg");
    assert_eq!(said(sub_handler(&mut list, &line(&["desc", "milk"]))), "List not found");
    match sub_handler(&mut list, &line(&["desc", "eggs"])) {
        Outcome::AskDescription(n) => assert_eq!(n, "eggs"),
        _ => panic!("a request for the text was expected"),
    }
    assert_eq!(said(sub_handler(&mut list, &line(&["rm"]))), "Missing NAME arg");
    assert_eq!(said(sub_handler(&mut list, &line(&["rm", "milk"]))), "List not found");
    match sub_handler(&mut list, &line(&["rm", "eggs"])) {
        Outcome::ConfirmRemoval(n) => assert_eq!(n, "eggs"),
        _ => panic!("a question was expected"),
    }
    assert_eq!(list.count(), 1);
    assert_eq!(said(sub_handler(&mut list, &line(&["help"]))), SUB_HELP);
    assert_eq!(said(sub_handler(&mut list, &line(&["quit"]))), "Invalid command");
    assert!(matches!(sub_handler(&mut list, &line(&["exit"])), Outcome::Close));
}

#[test]
fn fixed_replies() {
    assert_eq!(MISSING_NAME, "Missing NAME arg");
    assert_eq!(MISSING_NEW_NAME, "Missing NEW_NAME arg");
    assert_eq!(INVALID_COMMAND, "Invalid command");
    assert_eq!(NO_COMMAND, "Please provide command");
    assert!(SUPER_HELP.starts_with("\nrm [NAME]: delete the specified list\n"));
    assert!(SUPER_HELP.ends_with("\nexit: save your changes and quit the application"));
    assert_eq!(SUPER_HELP.len(), 401);
    assert!(SUB_HELP.contains("\ndesc [NAME]: edit the description of the specified item\n"));
    assert!(SUB_HELP.ends_with("\nexit: return to lists menu"));
    assert_eq!(SUB_HELP.len(), 469);
}
