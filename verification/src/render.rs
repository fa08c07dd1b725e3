//! How the two menus are shown.

use crate::lists::item_views;
use crate::lists::list_views;
use crate::lists::ItemView;
use crate::lists::List;
use crate::lists::ListItem;
use crate::lists::ListView;
use crate::lists::Lists;
use crate::text::decimal;
use crate::text::decimal_text;
use crate::text::repeated;
use vstd::prelude::*;
use vstd::string::StringExecFns;
use vstd::utf8::encode_utf8;

verus! {

/// The line of an item: its name, followed by a mark where it has a
/// description.
pub open spec fn item_line(item: ItemView) -> Seq<char> {
    if item.desc is Some {
        item.name + " (...)"@
    } else {
        item.name
    }
}

/// The lines of a row of items, each closed by a line break.
pub open spec fn item_lines(items: Seq<ItemView>) -> Seq<char>
    decreases items.len(),
{
    if items.len() == 0 {
        Seq::empty()
    } else {
        item_lines(items.drop_last()) + item_line(items.last()) + "\n"@
    }
}

/// A list as shown: its name, a rule as long as the name has bytes, and the
/// lines of its items.
pub open spec fn list_screen(list: ListView) -> Seq<char> {
    "\t"@ + list.name + "\n\t"@ + repeated('_', encode_utf8(list.name).len()) + "\n"@ + item_lines(
        list.items,
    )
}

/// The line of a list in the collection: its name and the number of its items.
pub open spec fn list_line(list: ListView) -> Seq<char> {
    list.name + " ["@ + decimal(list.items.len()) + "]\n"@
}

/// The lines of a row of lists.
pub open spec fn list_lines(lists: Seq<ListView>) -> Seq<char>
    decreases lists.len(),
{
    if lists.len() == 0 {
        Seq::empty()
    } else {
        list_lines(lists.drop_last()) + list_line(lists.last())
    }
}

/// What is shown in place of the lines while there is no list.
pub const NO_LISTS: &'static str = "No lists found. \nUse mk [NAME] to make a new list.";

/// The title and rule above the lines of the collection.
pub const COLLECTION_TITLE: &'static str = "\tLISTS\n\t_____\n";

/// The collection as shown: a title and the lines of its lists, or a hint
/// where there is none.
pub open spec fn collection_screen(lists: Seq<ListView>) -> Seq<char> {
    if lists.len() == 0 {
        COLLECTION_TITLE@ + NO_LISTS@
    } else {
        COLLECTION_TITLE@ + list_lines(lists)
    }
}

impl ListItem {
    /// The item's line, without the line break.
    pub fn render(&self) -> (r: String)
        ensures
            r@ == item_line(self@),
    {
        let mut r = String::from_str(self.title());
        if self.is_described() {
            r.append(" (...)");
        }
        r
    }
}

impl List {
    /// The list as shown.
    pub fn render(&self) -> (r: String)
        ensures
            r@ == list_screen(self@),
    {
        let name = self.title();
        let mut r = String::from_str("\t");
        r.append(name);
        r.append("\n\t");
        let width = name.as_bytes().len();
        assert(width == encode_utf8(self@.name).len());
        let ghost head = r@;
        let mut k: usize = 0;
        while k < width
            invariant
                k <= width,
                r@ == head + repeated('_', k as nat),
            decreases width - k,
        {
            proof {
                reveal_strlit("_");
            }
            r.append("_");
            k += 1;
            assert(r@ =~= head + repeated('_', k as nat));
        }
        r.append("\n");
        let ghost top = r@;
        let items = self.items();
        let mut i: usize = 0;
        assert(item_views(items@).take(0) =~= Seq::empty());
        while i < items.len()
            invariant
                i <= items.len(),
                r@ == top + item_lines(item_views(items@).take(i as int)),
            decreases items.len() - i,
        {
            let line = items[i].render();
            r.append(line.as_str());
            r.append("\n");
            i += 1;
            proof {
                let now = item_views(items@).take(i as int);
                assert(now.drop_last() =~= item_views(items@).take(i - 1));
                assert(now.last() == items@[i - 1]@);
                assert(r@ =~= top + item_lines(now));
            }
        }
        assert(item_views(items@).take(items.len() as int) =~= item_views(items@));
        assert(r@ =~= list_screen(self@));
        r
    }
}

impl Lists {
    /// The collection as shown.
    pub fn render(&self) -> (r: String)
        ensures
            r@ == collection_screen(self@),
    {
        let lists = self.lists();
        let mut r = String::from_str(COLLECTION_TITLE);
        if lists.len() == 0 {
            r.append(NO_LISTS);
            return r;
        }
        let mut i: usize = 0;
        assert(list_views(lists@).take(0) =~= Seq::empty());
        while i < lists.len()
            invariant
                i <= lists.len(),
                r@ == COLLECTION_TITLE@ + list_lines(list_views(lists@).take(i as int)),
            decreases lists.len() - i,
        {
            let list = &lists[i];
            r.append(list.title());
            r.append(" [");
            let n = decimal_text(list.count());
            r.append(n.as_str());
            r.append("]\n");
            i += 1;
            proof {
                let now = list_views(lists@).take(i as int);
                assert(now.drop_last() =~= list_views(lists@).take(i - 1));
                assert(now.last() == lists@[i - 1]@);
                assert(r@ =~= COLLECTION_TITLE@ + list_lines(now));
            }
        }
        assert(list_views(lists@).take(lists.len() as int) =~= list_views(lists@));
        r
    }
}

} // verus!
