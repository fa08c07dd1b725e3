//! The entity store: the collection of lists, the lists and their items.

use crate::menu::create;
use crate::menu::lemma_locate;
use crate::menu::lemma_locate_is;
use crate::menu::lemma_locate_none;
use crate::menu::locate;
use crate::menu::remove;
use crate::menu::rename;
use crate::menu::MenuError;
use crate::menu::Named;
use crate::text::same_text;
use vstd::prelude::*;
use vstd::string::StringExecFns;

verus! {

/// What an item is: a name and, once one was set, a description.
pub struct ItemView {
    pub name: Seq<char>,
    pub desc: Option<Seq<char>>,
}

/// What a list is: a name and its items in order.
pub struct ListView {
    pub name: Seq<char>,
    pub items: Seq<ItemView>,
}

impl Named for ItemView {
    open spec fn label(self) -> Seq<char> {
        self.name
    }

    open spec fn fresh(name: Seq<char>) -> Self {
        ItemView { name, desc: None }
    }

    open spec fn relabel(self, name: Seq<char>) -> Self {
        ItemView { name, desc: self.desc }
    }

    proof fn lemma_fresh(name: Seq<char>) {
    }

    proof fn lemma_relabel(self, name: Seq<char>) {
    }
}

impl Named for ListView {
    open spec fn label(self) -> Seq<char> {
        self.name
    }

    open spec fn fresh(name: Seq<char>) -> Self {
        ListView { name, items: Seq::empty() }
    }

    open spec fn relabel(self, name: Seq<char>) -> Self {
        ListView { name, items: self.items }
    }

    proof fn lemma_fresh(name: Seq<char>) {
    }

    proof fn lemma_relabel(self, name: Seq<char>) {
    }
}

/// The text shown for an item that has no description yet.
pub const NO_DESCRIPTION: &'static str = "No description";

/// The description of the first item called `name`, or the fixed text where
/// none was set; refused where no item has the name.
pub open spec fn description(items: Seq<ItemView>, name: Seq<char>) -> Result<Seq<char>, MenuError> {
    match locate(items, name) {
        Some(i) => match items[i].desc {
            Some(text) => Ok(text),
            None => Ok(NO_DESCRIPTION@),
        },
        None => Err(MenuError::ItemNotFound),
    }
}

/// Giving the first item called `name` the description `text`, in place of
/// any it had; refused where no item has the name.
pub open spec fn describe(items: Seq<ItemView>, name: Seq<char>, text: Seq<char>) -> (
    Seq<ItemView>,
    Result<(), MenuError>,
) {
    match locate(items, name) {
        Some(i) => (items.update(i, ItemView { name: items[i].name, desc: Some(text) }), Ok(())),
        None => (items, Err(MenuError::NotFound)),
    }
}

/// An item that was created and never described shows the fixed text; once
/// an item was given the empty description it shows the empty text.
pub proof fn law_description(items: Seq<ItemView>, name: Seq<char>)
    ensures
        create(items, name).1 is Ok ==> description(create(items, name).0, name) == Ok::<
            Seq<char>,
            MenuError,
        >(NO_DESCRIPTION@),
        describe(items, name, Seq::empty()).1 is Ok ==> description(
            describe(items, name, Seq::empty()).0,
            name,
        ) == Ok::<Seq<char>, MenuError>(Seq::empty()),
{
    lemma_locate(items, name);
    if create(items, name).1 is Ok {
        let after = create(items, name).0;
        lemma_locate_is(after, name, items.len() as int);
    }
    if describe(items, name, Seq::empty()).1 is Ok {
        let i = locate(items, name).unwrap();
        let after = describe(items, name, Seq::empty()).0;
        lemma_locate_is(after, name, i);
    }
}

/// A row of entries with the three operations that the two levels share.
pub trait Menu {
    /// What an entry of this menu is, to the model.
    type Entry: Named;

    /// The entries, in the order in which they are shown.
    spec fn entries(&self) -> Seq<Self::Entry>;

    /// The name under which the menu itself is shown.
    spec fn heading(&self) -> Seq<char>;

    /// Appends a new entry called `name`, unless one is already there.
    fn mk(&mut self, name: &str) -> (r: Result<(), MenuError>)
        ensures
            (final(self).entries(), r) == create(old(self).entries(), name@),
            final(self).heading() == old(self).heading(),
    ;

    /// Deletes the first entry called `name`.
    fn rm(&mut self, name: &str) -> (r: Result<(), MenuError>)
        ensures
            (final(self).entries(), r) == remove(old(self).entries(), name@),
            final(self).heading() == old(self).heading(),
    ;

    /// Gives the first entry called `name` the name `new_name`.
    fn name(&mut self, name: &str, new_name: &str) -> (r: Result<(), MenuError>)
        ensures
            (final(self).entries(), r) == rename(old(self).entries(), name@, new_name@),
            final(self).heading() == old(self).heading(),
    ;
}

/// The whole collection: the lists in the order in which they were made.
pub struct Lists {
    lists: Vec<List>,
}

/// A named list of items.
pub struct List {
    name: String,
    items: Vec<ListItem>,
}

/// A named item of a list.
pub struct ListItem {
    name: String,
    desc: Option<String>,
}

impl View for ListItem {
    type V = ItemView;

    closed spec fn view(&self) -> ItemView {
        ItemView {
            name: self.name@,
            desc: match self.desc {
                Some(text) => Some(text@),
                None => None,
            },
        }
    }
}

impl View for List {
    type V = ListView;

    closed spec fn view(&self) -> ListView {
        ListView { name: self.name@, items: self.items@.map_values(|item: ListItem| item@) }
    }
}

impl View for Lists {
    type V = Seq<ListView>;

    closed spec fn view(&self) -> Seq<ListView> {
        self.lists@.map_values(|list: List| list@)
    }
}

/// What a row of items holds.
pub open spec fn item_views(items: Seq<ListItem>) -> Seq<ItemView> {
    items.map_values(|item: ListItem| item@)
}

/// What a row of lists holds.
pub open spec fn list_views(lists: Seq<List>) -> Seq<ListView> {
    lists.map_values(|list: List| list@)
}

/// What an optional text holds.
pub open spec fn text_view(text: Option<String>) -> Option<Seq<char>> {
    match text {
        Some(t) => Some(t@),
        None => None,
    }
}

/// The name of the file that holds the saved collection.
pub const FILE_NAME: &'static str = "lists.json";

/// The document of a collection without lists.
pub const EMPTY_DOCUMENT: &'static str = "{\"lists\":[]}";

/// The heading of the collection.
pub const COLLECTION_HEADING: &'static str = "LISTS";

impl ListItem {
    /// An item without a description.
    pub fn new(name: String) -> (item: ListItem)
        ensures
            item@ == ItemView::fresh(name@),
    {
        ListItem { name, desc: None }
    }

    /// An item made of a name and, where there is one, a description.
    pub fn from_parts(name: String, desc: Option<String>) -> (item: ListItem)
        ensures
            item@ == (ItemView { name: name@, desc: text_view(desc) }),
    {
        ListItem { name, desc }
    }

    /// The name and the description, handed out.
    pub fn into_parts(self) -> (parts: (String, Option<String>))
        ensures
            parts.0@ == self@.name,
            text_view(parts.1) == self@.desc,
    {
        (self.name, self.desc)
    }

    /// The item's name.
    pub fn title(&self) -> (r: &str)
        ensures
            r@ == self@.name,
    {
        self.name.as_str()
    }

    /// Whether a description was set, the empty one included.
    pub fn is_described(&self) -> (r: bool)
        ensures
            r == self@.desc is Some,
    {
        self.desc.is_some()
    }
}

impl List {
    /// A list without items.
    pub fn new(name: String) -> (list: List)
        ensures
            list@ == ListView::fresh(name@),
    {
        let list = List { name, items: Vec::new() };
        assert(list@.items =~= Seq::empty());
        list
    }

    /// A list made of a name and its items.
    pub fn from_parts(name: String, items: Vec<ListItem>) -> (list: List)
        ensures
            list@ == (ListView { name: name@, items: item_views(items@) }),
    {
        List { name, items }
    }

    /// The name and the items, handed out.
    pub fn into_parts(self) -> (parts: (String, Vec<ListItem>))
        ensures
            parts.0@ == self@.name,
            item_views(parts.1@) == self@.items,
    {
        (self.name, self.items)
    }

    /// The list's name.
    pub fn title(&self) -> (r: &str)
        ensures
            r@ == self@.name,
    {
        self.name.as_str()
    }

    /// The items, in order.
    pub fn items(&self) -> (r: &Vec<ListItem>)
        ensures
            item_views(r@) == self@.items,
    {
        &self.items
    }

    /// How many items the list holds.
    pub fn count(&self) -> (n: usize)
        ensures
            n == self@.items.len(),
    {
        self.items.len()
    }

    /// Where the first item called `name` stands.
    pub fn position(&self, name: &str) -> (r: Option<usize>)
        ensures
            match r {
                Some(i) => locate(self@.items, name@) == Some(i as int) && i < self@.items.len(),
                None => locate(self@.items, name@) is None,
            },
    {
        let mut i: usize = 0;
        while i < self.items.len()
            invariant
                i <= self.items.len(),
                forall|j: int| 0 <= j < i ==> (#[trigger] self@.items[j]).label() != name@,
            decreases self.items.len() - i,
        {
            if same_text(self.items[i].name.as_str(), name) {
                proof {
                    lemma_locate_is(self@.items, name@, i as int);
                }
                return Some(i);
            }
            i += 1;
        }
        proof {
            lemma_locate_none(self@.items, name@);
        }
        None
    }

    /// The description of the first item called `name`, or the fixed text
    /// [`NO_DESCRIPTION`] where it has none.
    pub fn get_desc(&self, name: &str) -> (r: Result<&str, MenuError>)
        ensures
            match description(self@.items, name@) {
                Ok(text) => r is Ok && r->Ok_0@ == text,
                Err(e) => r == Err::<&str, MenuError>(e),
            },
    {
        match self.position(name) {
            Some(i) => match &self.items[i].desc {
                Some(text) => Ok(text.as_str()),
                None => Ok(NO_DESCRIPTION),
            },
            None => Err(MenuError::ItemNotFound),
        }
    }

    /// Sets the description of the first item called `name`, the empty one
    /// included, in place of any it had.
    pub fn desc(&mut self, name: &str, desc: &str) -> (r: Result<(), MenuError>)
        ensures
            (final(self)@.items, r) == describe(old(self)@.items, name@, desc@),
            final(self)@.name == old(self)@.name,
    {
        match self.position(name) {
            Some(i) => {
                self.items[i].desc = Some(String::from_str(desc));
                assert(self@.items =~= describe(old(self)@.items, name@, desc@).0);
                Ok(())
            },
            None => Err(MenuError::NotFound),
        }
    }
}

impl Menu for List {
    type Entry = ItemView;

    open spec fn entries(&self) -> Seq<ItemView> {
        self@.items
    }

    open spec fn heading(&self) -> Seq<char> {
        self@.name
    }

    fn mk(&mut self, name: &str) -> (r: Result<(), MenuError>) {
        proof {
            lemma_locate(self@.items, name@);
        }
        match self.position(name) {
            Some(_) => Err(MenuError::DuplicateName),
            None => {
                self.items.push(ListItem::new(String::from_str(name)));
                assert(self@.items =~= old(self)@.items.push(ItemView::fresh(name@)));
                Ok(())
            },
        }
    }

    fn rm(&mut self, name: &str) -> (r: Result<(), MenuError>) {
        match self.position(name) {
            Some(i) => {
                self.items.remove(i);
                assert(self@.items =~= old(self)@.items.remove(i as int));
                Ok(())
            },
            None => Err(MenuError::NotFound),
        }
    }

    fn name(&mut self, name: &str, new_name: &str) -> (r: Result<(), MenuError>) {
        match self.position(name) {
            Some(i) => {
                self.items[i].name = String::from_str(new_name);
                assert(self@.items =~= rename(old(self)@.items, name@, new_name@).0);
                Ok(())
            },
            None => Err(MenuError::NotFound),
        }
    }
}

impl Lists {
    /// A collection without lists.
    pub fn new() -> (lists: Lists)
        ensures
            lists@ == Seq::<ListView>::empty(),
    {
        let lists = Lists { lists: Vec::new() };
        assert(lists@ =~= Seq::empty());
        lists
    }

    /// A collection made of its lists.
    pub fn from_parts(lists: Vec<List>) -> (all: Lists)
        ensures
            all@ == list_views(lists@),
    {
        Lists { lists }
    }

    /// The lists, handed out.
    pub fn into_parts(self) -> (lists: Vec<List>)
        ensures
            list_views(lists@) == self@,
    {
        self.lists
    }

    /// The lists, in order.
    pub fn lists(&self) -> (r: &Vec<List>)
        ensures
            list_views(r@) == self@,
    {
        &self.lists
    }

    /// How many lists there are.
    pub fn count(&self) -> (n: usize)
        ensures
            n == self@.len(),
    {
        self.lists.len()
    }

    /// The list at position `index`, to be read and changed in place.
    pub fn list_at(&mut self, index: usize) -> (list: &mut List)
        requires
            index < old(self)@.len(),
        ensures
            (*list)@ == old(self)@[index as int],
            final(self)@ == old(self)@.update(index as int, (*final(list))@),
    {
        &mut self.lists[index]
    }

    /// Where the first list called `name` stands.
    pub fn position(&self, name: &str) -> (r: Option<usize>)
        ensures
            match r {
                Some(i) => locate(self@, name@) == Some(i as int) && i < self@.len(),
                None => locate(self@, name@) is None,
            },
    {
        let mut i: usize = 0;
        while i < self.lists.len()
            invariant
                i <= self.lists.len(),
                forall|j: int| 0 <= j < i ==> (#[trigger] self@[j]).label() != name@,
            decreases self.lists.len() - i,
        {
            if same_text(self.lists[i].name.as_str(), name) {
                proof {
                    lemma_locate_is(self@, name@, i as int);
                }
                return Some(i);
            }
            i += 1;
        }
        proof {
            lemma_locate_none(self@, name@);
        }
        None
    }

    /// The first list called `name`, to be read and changed in place.
    pub fn get_list(&mut self, name: &str) -> (r: Result<&mut List, MenuError>)
        ensures
            match locate(old(self)@, name@) {
                Some(i) => r is Ok && (*r->Ok_0)@ == old(self)@[i] && final(self)@ == old(self)@.update(
                    i,
                    (*final(r->Ok_0))@,
                ),
                None => r is Err && r->Err_0 == MenuError::NotFound && final(self)@ == old(self)@,
            },
    {
        match self.position(name) {
            Some(i) => Ok(&mut self.lists[i]),
            None => Err(MenuError::NotFound),
        }
    }
}

impl Menu for Lists {
    type Entry = ListView;

    open spec fn entries(&self) -> Seq<ListView> {
        self@
    }

    open spec fn heading(&self) -> Seq<char> {
        COLLECTION_HEADING@
    }

    fn mk(&mut self, name: &str) -> (r: Result<(), MenuError>) {
        proof {
            lemma_locate(self@, name@);
        }
        match self.position(name) {
            Some(_) => Err(MenuError::DuplicateName),
            None => {
                self.lists.push(List::new(String::from_str(name)));
                assert(self@ =~= old(self)@.push(ListView::fresh(name@)));
                Ok(())
            },
        }
    }

    fn rm(&mut self, name: &str) -> (r: Result<(), MenuError>) {
        match self.position(name) {
            Some(i) => {
                self.lists.remove(i);
                assert(self@ =~= old(self)@.remove(i as int));
                Ok(())
            },
            None => Err(MenuError::NotFound),
        }
    }

    fn name(&mut self, name: &str, new_name: &str) -> (r: Result<(), MenuError>) {
        match self.position(name) {
            Some(i) => {
                self.lists[i].name = String::from_str(new_name);
                assert(self@ =~= rename(old(self)@, name@, new_name@).0);
                Ok(())
            },
            None => Err(MenuError::NotFound),
        }
    }
}

} // verus!
