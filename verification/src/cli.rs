//! The commands: what one line asks of the menu that is open.

use crate::lists::describe;
use crate::lists::description;
use crate::lists::ItemView;
use crate::lists::List;
use crate::lists::ListView;
use crate::lists::Lists;
use crate::lists::Menu;
use crate::menu::create;
use crate::menu::locate;
use crate::menu::remove;
use crate::menu::rename;
use crate::menu::MenuError;
use crate::menu::Named;
use crate::text::same_text;
use crate::text::texts;
use crate::text::to_upper;
use crate::text::upper;
use vstd::prelude::*;
use vstd::string::StringExecFns;

verus! {

/// The command reference of the collection.
pub const SUPER_HELP: &'static str =
    "\nrm [NAME]: delete the specified list\n                          \nmk [NAME]: make a new list with the specified name\n                          \nname [NAME] [NEW_NAME]: set the name of the specified list\n                          \nopen [NAME]: open the specified list\n                          \nhelp: view this list of commands\n                          \nexit: save your changes and quit the application";

/// The command reference of an open list.
pub const SUB_HELP: &'static str =
    "\nrm [NAME]: delete the specified item\n                        \nmk [NAME]: make a new item with the specified name\n                        \nname [NAME] [NEW_NAME]: set the name of the specified item\n                        \nopen [NAME]: view the description of the specified item\n                        \ndesc [NAME]: edit the description of the specified item\n                        \nhelp: view this list of commands\n                        \nexit: return to lists menu";

/// The reply to a command that lacks its first argument.
pub const MISSING_NAME: &'static str = "Missing NAME arg";

/// The reply to a renaming that lacks its second argument.
pub const MISSING_NEW_NAME: &'static str = "Missing NEW_NAME arg";

/// The reply to a line whose first word is no command.
pub const INVALID_COMMAND: &'static str = "Invalid command";

/// The reply to a line without words.
pub const NO_COMMAND: &'static str = "Please provide command";

/// The answer that confirms a removal.
pub const YES: &'static str = "Y";

/// What a command line leads to.
pub enum Outcome {
    /// A line is printed and the same menu stays open.
    Say(String),
    /// The list at this position of the collection is opened.
    Open(usize),
    /// The open list is left for the collection.
    Close,
    /// The collection is to be saved and the program ends.
    Quit,
    /// The entry of this name is removed once the user has confirmed it.
    ConfirmRemoval(String),
    /// The item of this name gets the description that the user types next.
    AskDescription(String),
}

/// What a command line leads to, as plain values.
pub enum OutcomeView {
    Say(Seq<char>),
    Open(int),
    Close,
    Quit,
    ConfirmRemoval(Seq<char>),
    AskDescription(Seq<char>),
}

impl View for Outcome {
    type V = OutcomeView;

    open spec fn view(&self) -> OutcomeView {
        match self {
            Outcome::Say(text) => OutcomeView::Say(text@),
            Outcome::Open(index) => OutcomeView::Open(*index as int),
            Outcome::Close => OutcomeView::Close,
            Outcome::Quit => OutcomeView::Quit,
            Outcome::ConfirmRemoval(name) => OutcomeView::ConfirmRemoval(name@),
            Outcome::AskDescription(name) => OutcomeView::AskDescription(name@),
        }
    }
}

/// The word at position `k` of a command line, if it has that many.
pub open spec fn arg(line: Seq<Seq<char>>, k: int) -> Option<Seq<char>> {
    if 0 <= k < line.len() {
        Some(line[k])
    } else {
        None
    }
}

/// What `mk` does and says: the line's second word names the new entry.
pub open spec fn made<E: Named>(entries: Seq<E>, line: Seq<Seq<char>>) -> (Seq<E>, Seq<char>) {
    match arg(line, 1) {
        None => (entries, MISSING_NAME@),
        Some(name) => match create(entries, name).1 {
            Ok(_) => (create(entries, name).0, "Added "@ + name),
            Err(e) => (create(entries, name).0, e.text()),
        },
    }
}

/// What `name` does and says: the line's second word names the entry, the
/// third is its new name.
pub open spec fn renamed<E: Named>(entries: Seq<E>, line: Seq<Seq<char>>) -> (Seq<E>, Seq<char>) {
    match arg(line, 1) {
        None => (entries, MISSING_NAME@),
        Some(name) => match arg(line, 2) {
            None => (entries, MISSING_NEW_NAME@),
            Some(new_name) => match rename(entries, name, new_name).1 {
                Ok(_) => (
                    rename(entries, name, new_name).0,
                    "Renamed "@ + name + " to "@ + new_name,
                ),
                Err(e) => (rename(entries, name, new_name).0, e.text()),
            },
        },
    }
}

/// Whether an answer, given by its words, confirms: its one word is `Y`.
pub open spec fn confirms(answer: Seq<Seq<char>>) -> bool {
    answer == seq![YES@]
}

/// What happens to the entry called `name` once the user has answered the
/// question whether to delete it; the answer is given by its words.
pub open spec fn removed<E: Named>(entries: Seq<E>, name: Seq<char>, answer: Seq<Seq<char>>) -> (
    Seq<E>,
    Seq<char>,
) {
    if confirms(answer) {
        match remove(entries, name).1 {
            Ok(_) => (remove(entries, name).0, "Deleted "@ + name),
            Err(e) => (remove(entries, name).0, e.text()),
        }
    } else {
        (entries, "Cancelled deletion of "@ + name)
    }
}

/// What `rm` leads to: a question, unless the name is missing or matches no
/// entry.
pub open spec fn removal_request<E: Named>(entries: Seq<E>, line: Seq<Seq<char>>) -> OutcomeView {
    match arg(line, 1) {
        None => OutcomeView::Say(MISSING_NAME@),
        Some(name) => if locate(entries, name) is Some {
            OutcomeView::ConfirmRemoval(name)
        } else {
            OutcomeView::Say(MenuError::NotFound.text())
        },
    }
}

/// What `open` leads to in the collection: the position of the list to open,
/// or the line that says why none is opened.
pub open spec fn opened(lists: Seq<ListView>, line: Seq<Seq<char>>) -> Result<int, Seq<char>> {
    match arg(line, 1) {
        None => Err(MISSING_NAME@),
        Some(name) => match locate(lists, name) {
            Some(i) => Ok(i),
            None => Err(MenuError::NotFound.text()),
        },
    }
}

/// A description as it is shown: under the item's name in capitals.
pub open spec fn description_view(shout: Seq<char>, desc: Seq<char>) -> Seq<char> {
    shout + "\n"@ + desc
}

/// What `open` says in a list: the description of the item that the line's
/// second word names, under the name in capitals.
pub open spec fn shown(items: Seq<ItemView>, line: Seq<Seq<char>>) -> Seq<char> {
    match arg(line, 1) {
        None => MISSING_NAME@,
        Some(name) => match description(items, name) {
            Ok(desc) => description_view(upper(name), desc),
            Err(e) => e.text(),
        },
    }
}

/// What `desc` leads to: a request for the text, unless the name is missing
/// or matches no item.
pub open spec fn description_request(items: Seq<ItemView>, line: Seq<Seq<char>>) -> OutcomeView {
    match arg(line, 1) {
        None => OutcomeView::Say(MISSING_NAME@),
        Some(name) => if locate(items, name) is Some {
            OutcomeView::AskDescription(name)
        } else {
            OutcomeView::Say(MenuError::NotFound.text())
        },
    }
}

/// What happens once the user has typed the new description of the item
/// called `name`.
pub open spec fn described(items: Seq<ItemView>, name: Seq<char>, text: Seq<char>) -> (
    Seq<ItemView>,
    Seq<char>,
) {
    match describe(items, name, text).1 {
        Ok(_) => (describe(items, name, text).0, "Changed "@ + name + "'s desc"@),
        Err(e) => (describe(items, name, text).0, e.text()),
    }
}

/// What a command line does to the collection and what it leads to.
pub open spec fn super_step(lists: Seq<ListView>, line: Seq<Seq<char>>) -> (
    Seq<ListView>,
    OutcomeView,
) {
    match arg(line, 0) {
        None => (lists, OutcomeView::Say(NO_COMMAND@)),
        Some(command) => if command == "exit"@ {
            (lists, OutcomeView::Quit)
        } else if command == "rm"@ {
            (lists, removal_request(lists, line))
        } else if command == "mk"@ {
            (made(lists, line).0, OutcomeView::Say(made(lists, line).1))
        } else if command == "name"@ {
            (renamed(lists, line).0, OutcomeView::Say(renamed(lists, line).1))
        } else if command == "open"@ {
            match opened(lists, line) {
                Ok(i) => (lists, OutcomeView::Open(i)),
                Err(text) => (lists, OutcomeView::Say(text)),
            }
        } else if command == "help"@ {
            (lists, OutcomeView::Say(SUPER_HELP@))
        } else {
            (lists, OutcomeView::Say(INVALID_COMMAND@))
        },
    }
}

/// What a command line does to the open list and what it leads to.
pub open spec fn sub_step(list: ListView, line: Seq<Seq<char>>) -> (ListView, OutcomeView) {
    match arg(line, 0) {
        None => (list, OutcomeView::Say(NO_COMMAND@)),
        Some(command) => if command == "exit"@ {
            (list, OutcomeView::Close)
        } else if command == "rm"@ {
            (list, removal_request(list.items, line))
        } else if command == "mk"@ {
            (
                ListView { name: list.name, items: made(list.items, line).0 },
                OutcomeView::Say(made(list.items, line).1),
            )
        } else if command == "name"@ {
            (
                ListView { name: list.name, items: renamed(list.items, line).0 },
                OutcomeView::Say(renamed(list.items, line).1),
            )
        } else if command == "open"@ {
            (list, OutcomeView::Say(shown(list.items, line)))
        } else if command == "desc"@ {
            (list, description_request(list.items, line))
        } else if command == "help"@ {
            (list, OutcomeView::Say(SUB_HELP@))
        } else {
            (list, OutcomeView::Say(INVALID_COMMAND@))
        },
    }
}

/// Two texts, one after the other.
pub fn join(a: &str, b: &str) -> (r: String)
    ensures
        r@ == a@ + b@,
{
    let mut r = String::from_str(a);
    r.append(b);
    r
}

/// Creates the entry that the line's second word names and says how it went.
pub fn mk<M: Menu>(menu: &mut M, line: &Vec<String>) -> (reply: String)
    ensures
        (final(menu).entries(), reply@) == made(old(menu).entries(), texts(line@)),
        final(menu).heading() == old(menu).heading(),
{
    if line.len() < 2 {
        return String::from_str(MISSING_NAME);
    }
    let name = line[1].as_str();
    match menu.mk(name) {
        Ok(_) => join("Added ", name),
        Err(e) => e.message(),
    }
}

/// Deletes the entry called `name` if the answer, given by its words,
/// confirms it, and says how it went.
pub fn rm<M: Menu>(menu: &mut M, name: &str, said: &Vec<String>) -> (reply: String)
    ensures
        (final(menu).entries(), reply@) == removed(old(menu).entries(), name@, texts(said@)),
        final(menu).heading() == old(menu).heading(),
{
    let yes = said.len() == 1 && same_text(said[0].as_str(), YES);
    proof {
        if yes {
            assert(texts(said@)[0] == said@[0]@);
            assert(texts(said@) =~= seq![YES@]);
        } else if said.len() == 1 {
            assert(texts(said@)[0] == said@[0]@);
            assert(seq![YES@][0] == YES@);
        } else {
            assert(seq![YES@].len() == 1);
        }
    }
    if yes {
        match menu.rm(name) {
            Ok(_) => join("Deleted ", name),
            Err(e) => e.message(),
        }
    } else {
        join("Cancelled deletion of ", name)
    }
}

/// Renames the entry that the line's second word names to its third word and
/// says how it went.
pub fn name<M: Menu>(menu: &mut M, line: &Vec<String>) -> (reply: String)
    ensures
        (final(menu).entries(), reply@) == renamed(old(menu).entries(), texts(line@)),
        final(menu).heading() == old(menu).heading(),
{
    if line.len() < 2 {
        return String::from_str(MISSING_NAME);
    }
    if line.len() < 3 {
        return String::from_str(MISSING_NEW_NAME);
    }
    let name = line[1].as_str();
    let new_name = line[2].as_str();
    match menu.name(name, new_name) {
        Ok(_) => {
            let mut reply = join("Renamed ", name);
            reply.append(" to ");
            reply.append(new_name);
            reply
        },
        Err(e) => e.message(),
    }
}

/// Finds the list that the line's second word names.
pub fn open(lists: &Lists, line: &Vec<String>) -> (r: Result<usize, String>)
    ensures
        match opened(lists@, texts(line@)) {
            Ok(i) => r is Ok && r->Ok_0 == i && i < lists@.len(),
            Err(text) => r is Err && r->Err_0@ == text,
        },
{
    if line.len() < 2 {
        return Err(String::from_str(MISSING_NAME));
    }
    match lists.position(line[1].as_str()) {
        Some(i) => Ok(i),
        None => Err(MenuError::NotFound.message()),
    }
}

/// Lays a description out under the item's name in capitals.
pub fn show_description(shout: &str, desc: &str) -> (r: String)
    ensures
        r@ == description_view(shout@, desc@),
{
    let mut r = join(shout, "\n");
    r.append(desc);
    r
}

/// Shows the description of the item that the line's second word names.
pub fn open_desc(list: &List, line: &Vec<String>) -> (reply: String)
    ensures
        reply@ == shown(list@.items, texts(line@)),
{
    if line.len() < 2 {
        return String::from_str(MISSING_NAME);
    }
    let name = line[1].as_str();
    match list.get_desc(name) {
        Ok(desc) => {
            let shout = to_upper(name);
            show_description(shout.as_str(), desc)
        },
        Err(e) => e.message(),
    }
}

/// Gives the item called `name` the description `text` and says how it went.
pub fn desc(list: &mut List, name: &str, text: &str) -> (reply: String)
    ensures
        (final(list)@.items, reply@) == described(old(list)@.items, name@, text@),
        final(list)@.name == old(list)@.name,
{
    match list.desc(name, text) {
        Ok(_) => {
            let mut reply = join("Changed ", name);
            reply.append("'s desc");
            reply
        },
        Err(e) => e.message(),
    }
}

/// Carries out one command line in the collection.
pub fn super_handler(lists: &mut Lists, line: &Vec<String>) -> (outcome: Outcome)
    ensures
        (final(lists)@, outcome@) == super_step(old(lists)@, texts(line@)),
        outcome matches Outcome::Open(i) ==> i < final(lists)@.len(),
{
    if line.len() == 0 {
        return Outcome::Say(String::from_str(NO_COMMAND));
    }
    let command = line[0].as_str();
    if same_text(command, "exit") {
        Outcome::Quit
    } else if same_text(command, "rm") {
        if line.len() < 2 {
            Outcome::Say(String::from_str(MISSING_NAME))
        } else {
            match lists.position(line[1].as_str()) {
                Some(_) => Outcome::ConfirmRemoval(line[1].clone()),
                None => Outcome::Say(MenuError::NotFound.message()),
            }
        }
    } else if same_text(command, "mk") {
        Outcome::Say(mk(lists, line))
    } else if same_text(command, "name") {
        Outcome::Say(name(lists, line))
    } else if same_text(command, "open") {
        match open(lists, line) {
            Ok(i) => Outcome::Open(i),
            Err(text) => Outcome::Say(text),
        }
    } else if same_text(command, "help") {
        Outcome::Say(String::from_str(SUPER_HELP))
    } else {
        Outcome::Say(String::from_str(INVALID_COMMAND))
    }
}

/// Carries out one command line in an open list.
pub fn sub_handler(list: &mut List, line: &Vec<String>) -> (outcome: Outcome)
    ensures
        (final(list)@, outcome@) == sub_step(old(list)@, texts(line@)),
{
    if line.len() == 0 {
        return Outcome::Say(String::from_str(NO_COMMAND));
    }
    let command = line[0].as_str();
    if same_text(command, "exit") {
        Outcome::Close
    } else if same_text(command, "rm") {
        if line.len() < 2 {
            Outcome::Say(String::from_str(MISSING_NAME))
        } else {
            match list.position(line[1].as_str()) {
                Some(_) => Outcome::ConfirmRemoval(line[1].clone()),
                None => Outcome::Say(MenuError::NotFound.message()),
            }
        }
    } else if same_text(command, "mk") {
        Outcome::Say(mk(list, line))
    } else if same_text(command, "name") {
        Outcome::Say(name(list, line))
    } else if same_text(command, "open") {
        Outcome::Say(open_desc(list, line))
    } else if same_text(command, "desc") {
        if line.len() < 2 {
            Outcome::Say(String::from_str(MISSING_NAME))
        } else {
            match list.position(line[1].as_str()) {
                Some(_) => Outcome::AskDescription(line[1].clone()),
                None => Outcome::Say(MenuError::NotFound.message()),
            }
        }
    } else if same_text(command, "help") {
        Outcome::Say(String::from_str(SUB_HELP))
    } else {
        Outcome::Say(String::from_str(INVALID_COMMAND))
    }
}

} // verus!
