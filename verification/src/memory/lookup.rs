//! What the tables hold of one item: the item itself and its tags.

use vstd::prelude::*;
use crate::memory::model::{
    tag_columns,
    tag_columns_of,
    tag_key,
    Contents,
    ItemFilter,
    ItemRow,
    TagFilter,
    TagRow,
};

use crate::read::{row_tag, rows_tags};
use crate::record::{TagNameView, TagView};

verus! {

/// The tag of a row of tags.
pub open spec fn tag_of() -> spec_fn(TagRow) -> TagView {
    |row: TagRow| row.tag
}

impl Contents {
    /// The rows of the item of a wallet with a type and a name, in the
    /// order of their insertion. The schema lets at most one exist.
    pub open spec fn items_named(self, wallet_id: Seq<char>, type_: Seq<u8>, name: Seq<u8>) -> Seq<
        ItemRow,
    > {
        self.items.filter(ItemFilter::Named { wallet_id, type_, name }.chosen())
    }

    /// The tags of one variant of an item of a wallet, in the order of their
    /// insertion.
    pub open spec fn tags_of(self, wallet_id: Seq<char>, item_id: i64, encrypted: bool) -> Seq<
        TagView,
    > {
        self.tags.filter(TagFilter::Item { wallet_id, item_id, encrypted }.chosen()).map_values(
            tag_of(),
        )
    }

    /// The tags of one variant of an item, found by its id alone.
    pub open spec fn tags_by_id(self, item_id: i64, encrypted: bool) -> Seq<TagView> {
        self.tags.filter(TagFilter::ItemById { item_id, encrypted }.chosen()).map_values(tag_of())
    }
}

/// The rows that a statement returns for tags of one variant hold these
/// tags again.
pub proof fn tags_from_rows(tags: Seq<TagRow>, filter: TagFilter, encrypted: bool)
    requires
        forall|row: TagRow| filter.matches(row) ==> (row.tag is Encrypted) == encrypted,
    ensures
        rows_tags(encrypted, tags.filter(filter.chosen()).map_values(tag_columns_of())) == Some(
            tags.filter(filter.chosen()).map_values(tag_of()),
        ),
{
    let found = tags.filter(filter.chosen());
    let rows = found.map_values(tag_columns_of());
    assert forall|i: int| 0 <= i < rows.len() implies (#[trigger] row_tag(encrypted, rows[i]))
        == Some(found[i].tag) by {
        tags.lemma_filter_pred(filter.chosen(), i);
        assert(filter.matches(found[i]));
        assert(rows[i] == tag_columns(found[i]));
    }
    assert(Seq::new(rows.len(), |i: int| row_tag(encrypted, rows[i])->Some_0)
        =~= found.map_values(tag_of()));
}

/// Whether a tag is encrypted.
pub open spec fn is_encrypted() -> spec_fn(TagView) -> bool {
    |tag: TagView| tag is Encrypted
}

/// Whether a tag is plaintext.
pub open spec fn is_plaintext() -> spec_fn(TagView) -> bool {
    |tag: TagView| !(tag is Encrypted)
}

/// The row of a tag of an item.
pub open spec fn row_of(wallet_id: Seq<char>, item_id: i64) -> spec_fn(TagView) -> TagRow {
    |tag: TagView| TagRow { wallet_id, item_id, tag }
}

/// The tag with a key (a variant and a name) among `tags` that comes last:
/// the one whose value stands after the tags were written one after
/// another.
pub open spec fn latest(tags: Seq<TagView>, key: TagNameView) -> Option<TagView>
    decreases tags.len(),
{
    if tags.len() == 0 {
        None
    } else {
        match latest(tags.skip(1), key) {
            Some(tag) => Some(tag),
            None => if tag_key(tags[0]) == key {
                Some(tags[0])
            } else {
                None
            },
        }
    }
}

impl Contents {
    /// The tag of an item with a key (a variant and a name), if the item
    /// has one.
    pub open spec fn tag_named(self, wallet_id: Seq<char>, item_id: i64, key: TagNameView)
        -> Option<TagView> {
        let found = self.tags.filter(TagFilter::Named { wallet_id, item_id, name: key }.chosen());
        if found.len() > 0 {
            Some(found[0].tag)
        } else {
            None
        }
    }
}

} // verus!
