//! The command loop as a state machine: which menu is open, what question is
//! waiting for its answer, and what each line of input leads to.

use crate::cli::arg;
use crate::cli::desc;
use crate::cli::described;
use crate::cli::join;
use crate::cli::removed;
use crate::cli::rm;
use crate::cli::sub_handler;
use crate::cli::sub_step;
use crate::cli::super_handler;
use crate::cli::super_step;
use crate::cli::Outcome;
use crate::cli::OutcomeView;
use crate::cli::NO_COMMAND;
use crate::lists::text_view;
use crate::lists::ListView;
use crate::lists::Lists;
use crate::menu::labels;
use crate::menu::lemma_locate;
use crate::menu::MenuError;
use crate::render::collection_screen;
use crate::render::list_screen;
use crate::text::is_space;
use crate::text::lemma_words;
use crate::text::split_words;
use crate::text::texts;
use crate::text::trim;
use crate::text::trimmed;
use crate::text::words;
use vstd::prelude::*;
use vstd::string::StringExecFns;

verus! {

/// The question that is waiting for its answer, if any.
pub enum Pending {
    /// None: the next line is a command.
    Nothing,
    /// Whether to delete the entry of this name from the menu that is open.
    Removal(String),
    /// The new description of the item of this name in the list that is open.
    Description(String),
}

/// The waiting question, as plain values.
pub enum PendingView {
    Nothing,
    Removal(Seq<char>),
    Description(Seq<char>),
}

impl View for Pending {
    type V = PendingView;

    open spec fn view(&self) -> PendingView {
        match self {
            Pending::Nothing => PendingView::Nothing,
            Pending::Removal(name) => PendingView::Removal(name@),
            Pending::Description(name) => PendingView::Description(name@),
        }
    }
}

/// A session as plain values.
pub struct SessionView {
    /// The collection.
    pub lists: Seq<ListView>,
    /// The position of the list that is open; none while the collection is shown.
    pub open: Option<int>,
    /// The question that is waiting for its answer.
    pub pending: PendingView,
    /// Whether the user has left the collection, which ends the session.
    pub done: bool,
}

impl SessionView {
    /// A session makes sense: the open list exists, only an open list is
    /// asked for a description, and a finished session shows the collection
    /// and asks nothing.
    pub open spec fn wf(self) -> bool {
        &&& self.open matches Some(i) ==> 0 <= i < self.lists.len()
        &&& self.pending is Description ==> self.open is Some
        &&& self.done ==> self.open is None && self.pending is Nothing
    }

    /// The session that starts on a collection.
    pub open spec fn start(lists: Seq<ListView>) -> SessionView {
        SessionView { lists, open: None, pending: PendingView::Nothing, done: false }
    }

    /// What is shown before the next line is read: the menu that is open,
    /// after some empty lines; nothing while a question waits or when the
    /// session is over.
    pub open spec fn screen(self) -> Option<Seq<char>> {
        if self.done || !(self.pending is Nothing) {
            None
        } else {
            match self.open {
                None => Some("\n\n\n\n"@ + collection_screen(self.lists)),
                Some(i) => Some("\n"@ + list_screen(self.lists[i])),
            }
        }
    }

    /// The session after a command led to `outcome`, and the line to print.
    pub open spec fn follow(self, outcome: OutcomeView) -> (SessionView, Option<Seq<char>>) {
        match outcome {
            OutcomeView::Say(text) => (self, Some(text)),
            OutcomeView::Open(i) => (SessionView { open: Some(i), ..self }, None),
            OutcomeView::Close => (SessionView { open: None, ..self }, None),
            OutcomeView::Quit => (SessionView { done: true, ..self }, None),
            OutcomeView::ConfirmRemoval(name) => (
                SessionView { pending: PendingView::Removal(name), ..self },
                Some("Are you sure you want to delete "@ + name + "? [Y/n]"@),
            ),
            OutcomeView::AskDescription(name) => (
                SessionView { pending: PendingView::Description(name), ..self },
                Some("Enter new description for "@ + name),
            ),
        }
    }

    /// The session after the line `typed` was read, and the line to print in
    /// reply, if any.
    pub open spec fn respond(self, typed: Seq<char>) -> (SessionView, Option<Seq<char>>) {
        self.react(words(typed), trimmed(typed))
    }

    /// The session after a line was read, and the line to print in reply, if
    /// any; `line` holds the words of what was typed and `text` is what was
    /// typed without the white space at its ends. A question that waits for
    /// confirmation takes the words as its answer, one that waits for a
    /// description takes the text; else the words are a command to the menu
    /// that is open. A finished session ignores the line.
    pub open spec fn react(self, line: Seq<Seq<char>>, text: Seq<char>) -> (
        SessionView,
        Option<Seq<char>>,
    ) {
        if self.done {
            (self, None)
        } else {
            match self.pending {
                PendingView::Removal(name) => match self.open {
                    None => (
                        SessionView {
                            lists: removed(self.lists, name, line).0,
                            pending: PendingView::Nothing,
                            ..self
                        },
                        Some(removed(self.lists, name, line).1),
                    ),
                    Some(i) => (
                        SessionView {
                            lists: self.lists.update(
                                i,
                                ListView {
                                    name: self.lists[i].name,
                                    items: removed(self.lists[i].items, name, line).0,
                                },
                            ),
                            pending: PendingView::Nothing,
                            ..self
                        },
                        Some(removed(self.lists[i].items, name, line).1),
                    ),
                },
                PendingView::Description(name) => match self.open {
                    None => (SessionView { pending: PendingView::Nothing, ..self }, None),
                    Some(i) => (
                        SessionView {
                            lists: self.lists.update(
                                i,
                                ListView {
                                    name: self.lists[i].name,
                                    items: described(self.lists[i].items, name, text).0,
                                },
                            ),
                            pending: PendingView::Nothing,
                            ..self
                        },
                        Some(described(self.lists[i].items, name, text).1),
                    ),
                },
                PendingView::Nothing => match self.open {
                    None => (SessionView {
                        lists: super_step(self.lists, line).0,
                        ..self
                    }).follow(super_step(self.lists, line).1),
                    Some(i) => (SessionView {
                        lists: self.lists.update(i, sub_step(self.lists[i], line).0),
                        ..self
                    }).follow(sub_step(self.lists[i], line).1),
                },
            }
        }
    }

    /// The session after reading a line failed with the error `error`, and
    /// the line to print. A waiting question is dropped; the menu stays open.
    pub open spec fn fail(self, error: Seq<char>) -> (SessionView, Option<Seq<char>>) {
        if self.done {
            (self, None)
        } else {
            match self.pending {
                PendingView::Removal(_) => (
                    SessionView { pending: PendingView::Nothing, ..self },
                    Some("Error reading confirmation: "@ + error),
                ),
                PendingView::Description(_) => (
                    SessionView { pending: PendingView::Nothing, ..self },
                    Some("Error reading description: "@ + error),
                ),
                PendingView::Nothing => (self, Some("Error reading input: "@ + error)),
            }
        }
    }
}

/// A session that makes sense still makes sense after any line of input.
pub proof fn law_react_keeps_sense(s: SessionView, line: Seq<Seq<char>>, text: Seq<char>)
    requires
        s.wf(),
    ensures
        s.react(line, text).0.wf(),
{
    if !s.done && s.pending is Nothing {
        match s.open {
            None => {
                if arg(line, 0) == Some("open"@) && arg(line, 1) is Some {
                    lemma_locate(s.lists, line[1]);
                }
            },
            Some(i) => {},
        }
    }
}

/// A session that makes sense still makes sense after a failed read.
pub proof fn law_fail_keeps_sense(s: SessionView, error: Seq<char>)
    requires
        s.wf(),
    ensures
        s.fail(error).0.wf(),
{
}

/// A line of white space alone, typed where a command is expected, changes
/// nothing and is answered with the request for a command.
pub proof fn law_blank_line(s: SessionView, typed: Seq<char>)
    requires
        s.wf(),
        !s.done,
        s.pending is Nothing,
        forall|j: int| 0 <= j < typed.len() ==> is_space(#[trigger] typed[j]),
    ensures
        s.respond(typed) == (s, Some(NO_COMMAND@)),
{
    lemma_words(typed);
    match s.open {
        None => {},
        Some(i) => {
            assert(s.lists.update(i, s.lists[i]) =~= s.lists);
        },
    }
}

/// Asking to remove a name that no entry of the open menu carries is answered
/// at once: nothing changes and no question is put.
pub proof fn law_rm_absent_asks_nothing(s: SessionView, line: Seq<Seq<char>>, text: Seq<char>)
    requires
        s.wf(),
        !s.done,
        s.pending is Nothing,
        line.len() >= 2,
        line[0] == "rm"@,
        match s.open {
            None => !labels(s.lists).contains(line[1]),
            Some(i) => !labels(s.lists[i].items).contains(line[1]),
        },
    ensures
        s.react(line, text) == (s, Some(MenuError::NotFound.text())),
{
    reveal_strlit("rm");
    reveal_strlit("exit");
    assert("rm"@.len() != "exit"@.len());
    match s.open {
        None => {
            lemma_locate(s.lists, line[1]);
        },
        Some(i) => {
            lemma_locate(s.lists[i].items, line[1]);
            assert(s.lists.update(i, s.lists[i]) =~= s.lists);
        },
    }
}

/// A session of the command loop.
pub struct Session {
    lists: Lists,
    open: Option<usize>,
    pending: Pending,
    done: bool,
}

impl View for Session {
    type V = SessionView;

    closed spec fn view(&self) -> SessionView {
        SessionView {
            lists: self.lists@,
            open: match self.open {
                Some(i) => Some(i as int),
                None => None,
            },
            pending: self.pending@,
            done: self.done,
        }
    }
}

impl Session {
    /// Starts a session on a collection: the collection is shown and no
    /// question waits.
    pub fn new(lists: Lists) -> (session: Session)
        ensures
            session@ == SessionView::start(lists@),
            session@.wf(),
    {
        Session { lists, open: None, pending: Pending::Nothing, done: false }
    }

    /// Whether the session makes sense, as every session does that was
    /// started with [`Session::new`] and then only fed input.
    pub fn well_formed(&self) -> (r: bool)
        ensures
            r == self@.wf(),
    {
        let open_exists = match self.open {
            Some(i) => i < self.lists.count(),
            None => true,
        };
        let question_fits = match self.pending {
            Pending::Description(_) => self.open.is_some(),
            _ => true,
        };
        let end_fits = !self.done || (self.open.is_none() && match self.pending {
            Pending::Nothing => true,
            _ => false,
        });
        open_exists && question_fits && end_fits
    }

    /// Whether the session is over.
    pub fn is_done(&self) -> (r: bool)
        ensures
            r == self@.done,
    {
        self.done
    }

    /// The collection as it stands.
    pub fn lists(&self) -> (lists: &Lists)
        ensures
            lists@ == self@.lists,
    {
        &self.lists
    }

    /// Ends the session and hands the collection out, to be saved.
    pub fn into_lists(self) -> (lists: Lists)
        ensures
            lists@ == self@.lists,
    {
        self.lists
    }

    /// What is to be shown before the next line is read.
    pub fn screen(&self) -> (r: Option<String>)
        requires
            self@.wf(),
        ensures
            text_view(r) == self@.screen(),
    {
        if self.done {
            return None;
        }
        match self.pending {
            Pending::Nothing => {},
            _ => {
                return None;
            },
        }
        match self.open {
            None => {
                let menu = self.lists.render();
                Some(join("\n\n\n\n", menu.as_str()))
            },
            Some(i) => {
                let all = self.lists.lists();
                assert(all@[i as int]@ == self.lists@[i as int]);
                let menu = all[i].render();
                Some(join("\n", menu.as_str()))
            },
        }
    }

    /// Takes one line of input: the answer to the question that waits, or
    /// else a command to the menu that is open. Gives the line to print in
    /// reply, if there is one.
    pub fn feed(&mut self, typed: &str) -> (reply: Option<String>)
        requires
            old(self)@.wf(),
        ensures
            (final(self)@, text_view(reply)) == old(self)@.respond(typed@),
            final(self)@.wf(),
    {
        let line = split_words(typed);
        let text = trim(typed);
        self.react(&line, text.as_str())
    }

    /// Takes one line of input, given by its words and by its text without
    /// the white space at its ends. Gives the line to print in reply, if
    /// there is one.
    pub fn react(&mut self, line: &Vec<String>, text: &str) -> (reply: Option<String>)
        requires
            old(self)@.wf(),
        ensures
            (final(self)@, text_view(reply)) == old(self)@.react(texts(line@), text@),
            final(self)@.wf(),
    {
        if self.done {
            return None;
        }
        let mut pending = Pending::Nothing;
        std::mem::swap(&mut self.pending, &mut pending);
        match pending {
            Pending::Removal(name) => {
                let reply = match self.open {
                    None => rm(&mut self.lists, name.as_str(), line),
                    Some(i) => rm(self.lists.list_at(i), name.as_str(), line),
                };
                Some(reply)
            },
            Pending::Description(name) => match self.open {
                None => None,
                Some(i) => Some(desc(self.lists.list_at(i), name.as_str(), text)),
            },
            Pending::Nothing => {
                let outcome = match self.open {
                    None => super_handler(&mut self.lists, line),
                    Some(i) => sub_handler(self.lists.list_at(i), line),
                };
                match outcome {
                    Outcome::Say(text) => Some(text),
                    Outcome::Open(i) => {
                        self.open = Some(i);
                        None
                    },
                    Outcome::Close => {
                        self.open = None;
                        None
                    },
                    Outcome::Quit => {
                        self.done = true;
                        None
                    },
                    Outcome::ConfirmRemoval(name) => {
                        let mut reply = join("Are you sure you want to delete ", name.as_str());
                        reply.append("? [Y/n]");
                        self.pending = Pending::Removal(name);
                        Some(reply)
                    },
                    Outcome::AskDescription(name) => {
                        let reply = join("Enter new description for ", name.as_str());
                        self.pending = Pending::Description(name);
                        Some(reply)
                    },
                }
            },
        }
    }

    /// Takes the news that reading a line failed, with the error's text.
    /// Gives the line to print. A question that waited is dropped.
    pub fn read_failed(&mut self, error: &str) -> (reply: Option<String>)
        requires
            old(self)@.wf(),
        ensures
            (final(self)@, text_view(reply)) == old(self)@.fail(error@),
            final(self)@.wf(),
    {
        if self.done {
            return None;
        }
        let mut pending = Pending::Nothing;
        std::mem::swap(&mut self.pending, &mut pending);
        match pending {
            Pending::Removal(_) => Some(join("Error reading confirmation: ", error)),
            Pending::Description(_) => Some(join("Error reading description: ", error)),
            Pending::Nothing => Some(join("Error reading input: ", error)),
        }
    }
}

} // verus!
