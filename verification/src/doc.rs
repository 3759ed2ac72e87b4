//! A structured document: the in-memory form of the configuration text.
//!
//! A document is a tree of items.  The library only distinguishes the shapes
//! that the schema cares about — text, lists and tables — and folds every
//! other kind of value into `Item::Other`.

use vstd::prelude::*;

verus! {

broadcast use
    vstd::std_specs::vec::axiom_vec_index_decreases,
    vstd::std_specs::vec::axiom_vec_decreases_to_view,
    vstd::seq::axiom_seq_index_decreases,
;

/// One value of a structured document.
pub enum Item {
    /// A text value.
    Text(String),
    /// An ordered list of values.
    List(Vec<Item>),
    /// An ordered table of key/value entries.
    Table(Vec<Entry>),
    /// Any value of a kind the schema never accepts (numbers, booleans, dates).
    Other,
}

/// One key/value entry of a table.
pub struct Entry {
    pub key: String,
    pub value: Item,
}

/// The mathematical model of an `Item`.
pub ghost enum ItemModel {
    Text(Seq<char>),
    List(Seq<ItemModel>),
    Table(Seq<EntryModel>),
    Other,
}

/// The mathematical model of an `Entry`.
pub ghost struct EntryModel {
    pub key: Seq<char>,
    pub value: ItemModel,
}

impl Item {
    /// The model of this item: the same tree over sequences.
    pub open spec fn model(self) -> ItemModel
        decreases self,
    {
        match self {
            Item::Text(s) => ItemModel::Text(s@),
            Item::List(items) => ItemModel::List(
                // the guard keeps the recursion inside the vector, where the
                // elements are smaller than the list itself
                Seq::new(
                    items@.len(),
                    |i: int|
                        if 0 <= i < items@.len() {
                            items@[i].model()
                        } else {
                            ItemModel::Other
                        },
                ),
            ),
            Item::Table(entries) => ItemModel::Table(
                Seq::new(
                    entries@.len(),
                    |i: int|
                        if 0 <= i < entries@.len() {
                            entries@[i].model()
                        } else {
                            EntryModel { key: Seq::empty(), value: ItemModel::Other }
                        },
                ),
            ),
            Item::Other => ItemModel::Other,
        }
    }
}

impl Entry {
    /// The model of this entry.
    pub open spec fn model(self) -> EntryModel
        decreases self,
    {
        EntryModel { key: self.key@, value: self.value.model() }
    }
}

/// The models of a sequence of entries, in order.
pub open spec fn entries_model(entries: Seq<Entry>) -> Seq<EntryModel> {
    Seq::new(entries.len(), |i: int| entries[i].model())
}

/// The models of a sequence of items, in order.
pub open spec fn items_model(items: Seq<Item>) -> Seq<ItemModel> {
    Seq::new(items.len(), |i: int| items[i].model())
}

/// The value under `key` in a table: the first entry with that key, if any.
pub open spec fn lookup(entries: Seq<EntryModel>, key: Seq<char>) -> Option<ItemModel>
    decreases entries.len(),
{
    if entries.len() == 0 {
        None
    } else if entries[0].key == key {
        Some(entries[0].value)
    } else {
        lookup(entries.drop_first(), key)
    }
}

/// Finds the first entry whose key is `key`, as `lookup` describes.
pub fn find<'a>(entries: &'a Vec<Entry>, key: &String) -> (r: Option<&'a Item>)
    ensures
        match r {
            Some(item) => lookup(entries_model(entries@), key@) == Some(item.model()),
            None => lookup(entries_model(entries@), key@) is None,
        },
{
    let n = entries.len();
    let mut i: usize = 0;
    proof {
        assert(entries_model(entries@).skip(0) =~= entries_model(entries@));
    }
    while i < n
        invariant
            n == entries@.len(),
            i <= n,
            lookup(entries_model(entries@), key@)
                == lookup(entries_model(entries@).skip(i as int), key@),
        decreases n - i,
    {
        proof {
            assert(entries_model(entries@).skip(i as int)[0] == entries@[i as int].model());
        }
        if entries[i].key == *key {
            return Some(&entries[i].value);
        }
        proof {
            assert(entries_model(entries@).skip(i as int).drop_first()
                =~= entries_model(entries@).skip(i + 1));
        }
        i = i + 1;
    }
    None
}

} // verus!
