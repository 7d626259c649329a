//! What the schema keeps true of the tables: the unique key of the items,
//! the ids that only grow, and the foreign key of the tags.

use vstd::prelude::*;
use crate::config::{PostgresConfig, PostgresCredentials};
use crate::memory::model::{
    metadata_beside,
    metadata_of,
    replaced,
    retagged,
    revalued,
    same_item,
    same_tag,
    Contents,
    ItemFilter,
    ItemRow,
    MetadataRow,
    TablesView,
    TagFilter,
    TagRow,
};
use crate::memory::sequences::{filter_first, filter_is_empty, filter_of_changed, filter_shrinks};
use crate::memory::writes::write_tags_keeps_the_rest;
use crate::options::Document;
use crate::record::{EncryptedValueView, TagNameView, TagView};

verus! {

/// The items with an id.
pub open spec fn with_id(id: i64) -> spec_fn(ItemRow) -> bool {
    |row: ItemRow| row.id == id
}

impl Contents {
    /// A wallet has at most one item with a type and a name.
    pub open spec fn unique_items(self) -> bool {
        forall|filter: ItemFilter|
            filter is Named ==> (#[trigger] self.items.filter(filter.chosen())).len() <= 1
    }

    /// No two items have the same id.
    pub open spec fn unique_ids(self) -> bool {
        forall|id: i64| (#[trigger] self.items.filter(with_id(id))).len() <= 1
    }

    /// Every id of an item is below the next id that is assigned.
    pub open spec fn ids_below(self, next: i64) -> bool {
        forall|i: int| 0 <= i < self.items.len() ==> (#[trigger] self.items[i]).id < next
    }

    /// An item has at most one tag of a variant and a name.
    pub open spec fn unique_tags(self) -> bool {
        forall|filter: TagFilter|
            filter is Named ==> (#[trigger] self.tags.filter(filter.chosen())).len() <= 1
    }

    /// A wallet has at most one row of metadata.
    pub open spec fn one_metadata(self) -> bool {
        forall|wallet_id: Seq<char>|
            (#[trigger] self.metadata.filter(metadata_of(wallet_id))).len() <= 1
    }

    /// Every tag belongs to an item of its wallet: no tag is an orphan.
    pub open spec fn referential(self) -> bool {
        forall|k: int|
            0 <= k < self.tags.len() ==> self.has_item(
                (#[trigger] self.tags[k]).wallet_id,
                self.tags[k].item_id,
            )
    }
}

impl Contents {
    /// The constraints of the schema on items and tags, with the next id
    /// that is assigned.
    pub open spec fn meets(self, next: i64) -> bool {
        &&& self.unique_items()
        &&& self.unique_ids()
        &&& self.ids_below(next)
        &&& self.unique_tags()
        &&& self.referential()
    }
}

impl TablesView {
    /// What holds of the tables between two operations: no transaction is
    /// open, and the constraints of the schema are met.
    pub open spec fn wf(self) -> bool {
        &&& self.saved is None
        &&& self.now.meets(self.next_item_id)
        &&& self.now.one_metadata()
    }
}

/// Tables without rows meet the constraints.
pub proof fn empty_is_wf()
    ensures
        TablesView::empty().wf(),
{
    assert forall|filter: ItemFilter| filter is Named implies (
    #[trigger] TablesView::empty().now.items.filter(filter.chosen())).len() <= 1 by {
        TablesView::empty().now.items.lemma_filter_len(filter.chosen());
    }
    assert forall|id: i64| (#[trigger] TablesView::empty().now.items.filter(with_id(id))).len()
        <= 1 by {
        TablesView::empty().now.items.lemma_filter_len(with_id(id));
    }
    assert forall|filter: TagFilter| filter is Named implies (
    #[trigger] TablesView::empty().now.tags.filter(filter.chosen())).len() <= 1 by {
        TablesView::empty().now.tags.lemma_filter_len(filter.chosen());
    }
    assert forall|wallet_id: Seq<char>|
        (#[trigger] TablesView::empty().now.metadata.filter(metadata_of(wallet_id))).len()
            <= 1 by {
        TablesView::empty().now.metadata.lemma_filter_len(metadata_of(wallet_id));
    }
}

/// An item that exists, exists in tables with the same items.
proof fn item_is_there(before: Contents, after: Contents, wallet_id: Seq<char>, id: i64)
    requires
        before.has_item(wallet_id, id),
        after.items == before.items,
    ensures
        after.has_item(wallet_id, id),
{
    let i = choose|i: int|
        0 <= i < before.items.len() && (#[trigger] before.items[i]).wallet_id == wallet_id
            && before.items[i].id == id;
    assert(after.items[i].wallet_id == wallet_id && after.items[i].id == id);
}

/// Tables with the same items have items as unique, with ids as low.
proof fn same_items_are_as_unique(before: Contents, after: Contents, next: i64)
    requires
        before.unique_items(),
        before.unique_ids(),
        before.ids_below(next),
        after.items == before.items,
    ensures
        after.unique_items(),
        after.unique_ids(),
        after.ids_below(next),
{
    assert forall|id: i64| (#[trigger] after.items.filter(with_id(id))).len() <= 1 by {
        assert(before.items.filter(with_id(id)).len() <= 1);
    }
    assert forall|i: int| 0 <= i < after.items.len() implies (#[trigger] after.items[i]).id
        < next by {
        assert(before.items[i].id < next);
    }
    assert forall|named: ItemFilter| named is Named implies (#[trigger] after.items.filter(
        named.chosen(),
    )).len() <= 1 by {
        assert(before.items.filter(named.chosen()).len() <= 1);
    }
}

/// Tables with the same tags have tags as unique.
proof fn same_tags_are_as_unique(before: Contents, after: Contents)
    requires
        before.unique_tags(),
        after.tags == before.tags,
    ensures
        after.unique_tags(),
{
    assert forall|named: TagFilter| named is Named implies (#[trigger] after.tags.filter(
        named.chosen(),
    )).len() <= 1 by {
        assert(before.tags.filter(named.chosen()).len() <= 1);
    }
}

/// Tables with the same metadata have as few rows for a wallet.
pub proof fn same_metadata_is_as_single(before: Contents, after: Contents)
    requires
        before.one_metadata(),
        after.metadata == before.metadata,
    ensures
        after.one_metadata(),
{
    assert forall|wallet_id: Seq<char>|
        (#[trigger] after.metadata.filter(metadata_of(wallet_id))).len() <= 1 by {
        assert(before.metadata.filter(metadata_of(wallet_id)).len() <= 1);
    }
}

/// An item that is still there after rows were dropped from the items.
proof fn item_stays(before: Contents, after: Contents, keep: spec_fn(ItemRow) -> bool, i: int)
    requires
        after.items == before.items.filter(keep),
        0 <= i < before.items.len(),
        keep(before.items[i]),
    ensures
        after.has_item(before.items[i].wallet_id, before.items[i].id),
{
    before.items.lemma_filter_contains(keep, i);
    let j = choose|j: int| 0 <= j < after.items.len() && after.items[j] == before.items[i];
    assert(after.items[j].wallet_id == before.items[i].wallet_id);
}

/// Dropping tags keeps the constraints.
pub proof fn dropping_tags_keeps_wf(tables: TablesView, filter: TagFilter)
    requires
        tables.now.meets(tables.next_item_id),
    ensures
        ({
            let after = tables.delete_tags(filter).0;
            &&& after.now.meets(after.next_item_id)
            &&& after.saved == tables.saved
            &&& after.now.items == tables.now.items
            &&& after.now.metadata == tables.now.metadata
        }),
{
    let after = tables.delete_tags(filter).0;
    same_items_are_as_unique(tables.now, after.now, tables.next_item_id);
    assert forall|named: TagFilter| named is Named implies (#[trigger] after.now.tags.filter(
        named.chosen(),
    )).len() <= 1 by {
        filter_shrinks(tables.now.tags, filter.spared(), named.chosen());
        assert(tables.now.tags.filter(named.chosen()).len() <= 1);
    }
    assert forall|k: int| 0 <= k < after.now.tags.len() implies after.now.has_item(
        (#[trigger] after.now.tags[k]).wallet_id,
        after.now.tags[k].item_id,
    ) by {
        let tag = after.now.tags[k];
        assert(after.now.tags.contains(tag));
        tables.now.tags.lemma_filter_contains_rev(filter.spared(), tag);
        let k0 = choose|k0: int| 0 <= k0 < tables.now.tags.len() && tables.now.tags[k0] == tag;
        assert(tables.now.has_item(tables.now.tags[k0].wallet_id, tables.now.tags[k0].item_id));
        item_is_there(tables.now, after.now, tag.wallet_id, tag.item_id);
    }
}

/// Deleting items, with the tags that refer to them, keeps the
/// constraints.
pub proof fn deleting_items_keeps_wf(tables: TablesView, filter: ItemFilter)
    requires
        tables.now.meets(tables.next_item_id),
    ensures
        ({
            let after = tables.delete_items(filter).0;
            &&& after.now.meets(after.next_item_id)
            &&& after.saved == tables.saved
            &&& after.now.metadata == tables.now.metadata
        }),
{
    let after = tables.delete_items(filter).0;
    assert forall|named: ItemFilter| named is Named implies (#[trigger] after.now.items.filter(
        named.chosen(),
    )).len() <= 1 by {
        filter_shrinks(tables.now.items, filter.spared(), named.chosen());
        assert(tables.now.items.filter(named.chosen()).len() <= 1);
    }
    assert forall|id: i64| (#[trigger] after.now.items.filter(with_id(id))).len() <= 1 by {
        filter_shrinks(tables.now.items, filter.spared(), with_id(id));
        assert(tables.now.items.filter(with_id(id)).len() <= 1);
    }
    assert forall|named: TagFilter| named is Named implies (#[trigger] after.now.tags.filter(
        named.chosen(),
    )).len() <= 1 by {
        filter_shrinks(tables.now.tags, tables.now.unreferred(filter), named.chosen());
        assert(tables.now.tags.filter(named.chosen()).len() <= 1);
    }
    assert forall|i: int| 0 <= i < after.now.items.len() implies (#[trigger] after.now.items[i]).id
        < after.next_item_id by {
        let item = after.now.items[i];
        assert(after.now.items.contains(item));
        tables.now.items.lemma_filter_contains_rev(filter.spared(), item);
        let i0 = choose|i0: int| 0 <= i0 < tables.now.items.len() && tables.now.items[i0] == item;
        assert(tables.now.items[i0].id < tables.next_item_id);
    }
    assert forall|k: int| 0 <= k < after.now.tags.len() implies after.now.has_item(
        (#[trigger] after.now.tags[k]).wallet_id,
        after.now.tags[k].item_id,
    ) by {
        let tag = after.now.tags[k];
        tables.now.tags.lemma_filter_pred(tables.now.unreferred(filter), k);
        assert(after.now.tags.contains(tag));
        tables.now.tags.lemma_filter_contains_rev(tables.now.unreferred(filter), tag);
        let k0 = choose|k0: int| 0 <= k0 < tables.now.tags.len() && tables.now.tags[k0] == tag;
        assert(tables.now.has_item(tables.now.tags[k0].wallet_id, tables.now.tags[k0].item_id));
        let i = choose|i: int|
            0 <= i < tables.now.items.len() && (#[trigger] tables.now.items[i]).wallet_id
                == tag.wallet_id && tables.now.items[i].id == tag.item_id;
        assert(!tables.now.refers_to(filter, tag));
        assert(!filter.matches(tables.now.items[i]));
        item_stays(tables.now, after.now, filter.spared(), i);
    }
}

/// Giving items a new value keeps the constraints.
pub proof fn revaluing_keeps_wf(
    tables: TablesView,
    filter: ItemFilter,
    value: Seq<u8>,
    key: Seq<u8>,
)
    requires
        tables.now.meets(tables.next_item_id),
    ensures
        ({
            let after = tables.update_items(filter, value, key).0;
            &&& after.now.meets(after.next_item_id)
            &&& after.saved == tables.saved
            &&& after.now.metadata == tables.now.metadata
        }),
{
    let after = tables.update_items(filter, value, key).0;
    let change = revalued(filter, value, key);
    same_tags_are_as_unique(tables.now, after.now);
    assert forall|named: ItemFilter| named is Named implies (#[trigger] after.now.items.filter(
        named.chosen(),
    )).len() <= 1 by {
        assert forall|row: ItemRow| #[trigger] (named.chosen())(change(row)) == (named.chosen())(
            row,
        ) by {}
        filter_of_changed(tables.now.items, change, named.chosen());
        assert(tables.now.items.filter(named.chosen()).len() <= 1);
    }
    assert forall|id: i64| (#[trigger] after.now.items.filter(with_id(id))).len() <= 1 by {
        assert forall|row: ItemRow| #[trigger] (with_id(id))(change(row)) == (with_id(id))(
            row,
        ) by {}
        filter_of_changed(tables.now.items, change, with_id(id));
        assert(tables.now.items.filter(with_id(id)).len() <= 1);
    }
    assert forall|i: int| 0 <= i < after.now.items.len() implies (#[trigger] after.now.items[i]).id
        < after.next_item_id by {
        assert(after.now.items[i] == change(tables.now.items[i]));
        assert(tables.now.items[i].id < tables.next_item_id);
    }
    assert forall|k: int| 0 <= k < after.now.tags.len() implies after.now.has_item(
        (#[trigger] after.now.tags[k]).wallet_id,
        after.now.tags[k].item_id,
    ) by {
        let tag = tables.now.tags[k];
        assert(tables.now.has_item(tag.wallet_id, tag.item_id));
        let i = choose|i: int|
            0 <= i < tables.now.items.len() && (#[trigger] tables.now.items[i]).wallet_id
                == tag.wallet_id && tables.now.items[i].id == tag.item_id;
        assert(after.now.items[i] == change(tables.now.items[i]));
        assert(after.now.items[i].wallet_id == tag.wallet_id && after.now.items[i].id
            == tag.item_id);
    }
}

/// Inserting a tag keeps the constraints.
pub proof fn inserting_tag_keeps_wf(tables: TablesView, row: TagRow, upsert: bool)
    requires
        tables.now.meets(tables.next_item_id),
        tables.now.has_item(row.wallet_id, row.item_id),
    ensures
        ({
            let after = tables.insert_tag(row, upsert).0;
            &&& after.now.meets(after.next_item_id)
            &&& after.saved == tables.saved
            &&& after.now.items == tables.now.items
            &&& after.now.metadata == tables.now.metadata
        }),
{
    let after = tables.insert_tag(row, upsert).0;
    same_items_are_as_unique(tables.now, after.now, tables.next_item_id);
    assert forall|named: TagFilter| named is Named implies (#[trigger] after.now.tags.filter(
        named.chosen(),
    )).len() <= 1 by {
        assert(tables.now.tags.filter(named.chosen()).len() <= 1);
        if tables.now.tags.filter(same_tag(row).chosen()).len() > 0 {
            if upsert {
                let change = retagged(row);
                assert forall|old: TagRow| #[trigger] (named.chosen())(change(old)) == (
                named.chosen())(old) by {}
                filter_of_changed(tables.now.tags, change, named.chosen());
            }
        } else if tables.now.has_item(row.wallet_id, row.item_id) {
            tables.now.tags.lemma_filter_push(row, named.chosen());
            if named.matches(row) {
                assert(named == same_tag(row));
            }
        }
    }
    assert forall|k: int| 0 <= k < after.now.tags.len() implies after.now.has_item(
        (#[trigger] after.now.tags[k]).wallet_id,
        after.now.tags[k].item_id,
    ) by {
        let new = after.now.tags[k];
        if k < tables.now.tags.len() {
            let tag = tables.now.tags[k];
            assert(tables.now.has_item(tag.wallet_id, tag.item_id));
            if tables.now.tags.filter(same_tag(row).chosen()).len() > 0 && upsert {
                assert(new == retagged(row)(tag));
            }
        }
        item_is_there(tables.now, after.now, new.wallet_id, new.item_id);
    }
}

/// Writing the tags of an item that exists keeps the constraints.
pub proof fn writing_tags_keeps_wf(
    tables: TablesView,
    wallet_id: Seq<char>,
    item_id: i64,
    tags: Seq<TagView>,
    upsert: bool,
)
    requires
        tables.now.meets(tables.next_item_id),
        tables.now.has_item(wallet_id, item_id),
    ensures
        ({
            let after = tables.write_tags(wallet_id, item_id, tags, upsert).0;
            &&& after.now.meets(after.next_item_id)
            &&& after.saved == tables.saved
            &&& after.now.items == tables.now.items
            &&& after.now.metadata == tables.now.metadata
        }),
    decreases tags.len(),
{
    if tags.len() > 0 {
        let row = TagRow { wallet_id, item_id, tag: tags[0] };
        let (next, reply) = tables.insert_tag(row, upsert);
        inserting_tag_keeps_wf(tables, row, upsert);
        if reply is Affected {
            writing_tags_keeps_wf(next, wallet_id, item_id, tags.skip(1), upsert);
        }
    }
}

/// Inserting an item keeps the constraints.
pub proof fn inserting_item_keeps_wf(tables: TablesView, given: ItemRow)
    requires
        tables.now.meets(tables.next_item_id),
    ensures
        ({
            let (after, reply) = tables.insert_item(given);
            &&& after.now.meets(after.next_item_id)
            &&& after.saved == tables.saved
            &&& after.now.metadata == tables.now.metadata
            &&& reply is Rows ==> after.now.has_item(given.wallet_id, tables.next_item_id)
        }),
{
    let (after, reply) = tables.insert_item(given);
    let row = ItemRow { id: tables.next_item_id, ..given };
    same_tags_are_as_unique(tables.now, after.now);
    assert forall|i: int| 0 <= i < after.now.items.len() implies (#[trigger] after.now.items[i]).id
        < after.next_item_id by {
        if i < tables.now.items.len() {
            assert(tables.now.items[i].id < tables.next_item_id);
        }
    }
    if !(reply is Rows) {
        same_items_are_as_unique(tables.now, after.now, tables.next_item_id);
    }
    if reply is Rows {
        assert(after.now.items == tables.now.items.push(row));
        assert forall|named: ItemFilter| named is Named implies (#[trigger] after.now.items.filter(
            named.chosen(),
        )).len() <= 1 by {
            tables.now.items.lemma_filter_push(row, named.chosen());
            assert(tables.now.items.filter(named.chosen()).len() <= 1);
            if named.matches(row) {
                assert(named == same_item(given));
            }
        }
        assert forall|id: i64| (#[trigger] after.now.items.filter(with_id(id))).len() <= 1 by {
            tables.now.items.lemma_filter_push(row, with_id(id));
            assert(tables.now.items.filter(with_id(id)).len() <= 1);
            if id == row.id {
                assert forall|i: int| 0 <= i < tables.now.items.len() implies !#[trigger] (
                with_id(id))(tables.now.items[i]) by {
                    assert(tables.now.items[i].id < tables.next_item_id);
                }
                filter_is_empty(tables.now.items, with_id(id));
            }
        }
        assert(after.now.items[tables.now.items.len() as int] == row);
        assert forall|k: int| 0 <= k < after.now.tags.len() implies after.now.has_item(
            (#[trigger] after.now.tags[k]).wallet_id,
            after.now.tags[k].item_id,
        ) by {
            let tag = tables.now.tags[k];
            assert(tables.now.has_item(tag.wallet_id, tag.item_id));
            let i = choose|i: int|
                0 <= i < tables.now.items.len() && (#[trigger] tables.now.items[i]).wallet_id
                    == tag.wallet_id && tables.now.items[i].id == tag.item_id;
            assert(after.now.items[i] == tables.now.items[i]);
        }
    }
}

/// Deleting the named tags of an item keeps the constraints.
pub proof fn erasing_tags_keeps_wf(
    tables: TablesView,
    wallet_id: Seq<char>,
    item_id: i64,
    names: Seq<TagNameView>,
)
    requires
        tables.now.meets(tables.next_item_id),
    ensures
        ({
            let after = tables.erase_tags(wallet_id, item_id, names);
            &&& after.now.meets(after.next_item_id)
            &&& after.saved == tables.saved
            &&& after.now.items == tables.now.items
            &&& after.now.metadata == tables.now.metadata
        }),
    decreases names.len(),
{
    if names.len() > 0 {
        let filter = TagFilter::Named { wallet_id, item_id, name: names[0] };
        dropping_tags_keeps_wf(tables, filter);
        erasing_tags_keeps_wf(tables.delete_tags(filter).0, wallet_id, item_id, names.skip(1));
    }
}

/// The first row of an item is an item of the wallet.
pub proof fn found_item_exists(tables: TablesView, wallet_id: Seq<char>, type_: Seq<u8>, name: Seq<u8>)
    requires
        tables.now.items_named(wallet_id, type_, name).len() > 0,
    ensures
        tables.now.has_item(wallet_id, tables.now.items_named(wallet_id, type_, name)[0].id),
{
    let filter = ItemFilter::Named { wallet_id, type_, name };
    let item = tables.now.items_named(wallet_id, type_, name)[0];
    filter_first(tables.now.items, filter.chosen());
    let i = choose|i: int| 0 <= i < tables.now.items.len() && tables.now.items[i] == item;
    assert(tables.now.items[i].wallet_id == wallet_id);
}

/// `add` keeps the constraints.
pub proof fn add_keeps_wf(
    tables: TablesView,
    wallet_id: Seq<char>,
    type_: Seq<u8>,
    name: Seq<u8>,
    value: EncryptedValueView,
    tags: Seq<TagView>,
)
    requires
        tables.wf(),
    ensures
        tables.add(wallet_id, type_, name, value, tags).0.wf(),
{
    let given = ItemRow { wallet_id, id: 0, type_, name, value: value.data, key: value.key };
    let (inserted, reply) = tables.begun().insert_item(given);
    inserting_item_keeps_wf(tables.begun(), given);
    if reply is Rows {
        writing_tags_keeps_wf(inserted, wallet_id, tables.next_item_id, tags, false);
        write_tags_keeps_the_rest(
            inserted,
            wallet_id,
            tables.next_item_id,
            tags,
            false,
        );
    }
    let after = tables.add(wallet_id, type_, name, value, tags).0;
    same_metadata_is_as_single(tables.now, after.now);
    if after.now == tables.now {
        assert forall|i: int| 0 <= i < after.now.items.len() implies (
        #[trigger] after.now.items[i]).id < after.next_item_id by {
            assert(tables.now.items[i].id < tables.next_item_id);
        }
    }
}

/// `add_tags` and `update_tags` keep the constraints.
pub proof fn set_tags_keeps_wf(
    tables: TablesView,
    wallet_id: Seq<char>,
    type_: Seq<u8>,
    name: Seq<u8>,
    tags: Seq<TagView>,
    replace: bool,
)
    requires
        tables.wf(),
    ensures
        tables.set_tags(wallet_id, type_, name, tags, replace).0.wf(),
{
    if tables.now.items_named(wallet_id, type_, name).len() > 0 {
        let item_id = tables.now.items_named(wallet_id, type_, name)[0].id;
        found_item_exists(tables, wallet_id, type_, name);
        let encrypted = TagFilter::Item { wallet_id, item_id, encrypted: true };
        let plain = TagFilter::Item { wallet_id, item_id, encrypted: false };
        let first = tables.begun().delete_tags(encrypted).0;
        dropping_tags_keeps_wf(tables.begun(), encrypted);
        dropping_tags_keeps_wf(first, plain);
        let cleared = if replace {
            first.delete_tags(plain).0
        } else {
            tables.begun()
        };
        item_is_there(tables.now, cleared.now, wallet_id, item_id);
        writing_tags_keeps_wf(cleared, wallet_id, item_id, tags, !replace);
    }
    same_metadata_is_as_single(
        tables.now,
        tables.set_tags(wallet_id, type_, name, tags, replace).0.now,
    );
}

/// `delete_tags` keeps the constraints.
pub proof fn remove_tags_keeps_wf(
    tables: TablesView,
    wallet_id: Seq<char>,
    type_: Seq<u8>,
    name: Seq<u8>,
    names: Seq<TagNameView>,
)
    requires
        tables.wf(),
    ensures
        tables.remove_tags(wallet_id, type_, name, names).0.wf(),
{
    if tables.now.items_named(wallet_id, type_, name).len() > 0 {
        let item_id = tables.now.items_named(wallet_id, type_, name)[0].id;
        erasing_tags_keeps_wf(tables.begun(), wallet_id, item_id, names);
    }
    same_metadata_is_as_single(
        tables.now,
        tables.remove_tags(wallet_id, type_, name, names).0.now,
    );
}

/// `update` and `delete` keep the constraints.
pub proof fn update_and_delete_keep_wf(
    tables: TablesView,
    wallet_id: Seq<char>,
    type_: Seq<u8>,
    name: Seq<u8>,
    value: EncryptedValueView,
)
    requires
        tables.wf(),
    ensures
        tables.update(wallet_id, type_, name, value).0.wf(),
        tables.delete(wallet_id, type_, name).0.wf(),
{
    let filter = ItemFilter::Named { wallet_id, type_, name };
    revaluing_keeps_wf(tables, filter, value.data, value.key);
    deleting_items_keeps_wf(tables, filter);
    same_metadata_is_as_single(tables.now, tables.update(wallet_id, type_, name, value).0.now);
    same_metadata_is_as_single(tables.now, tables.delete(wallet_id, type_, name).0.now);
}

/// Tables with the same items and tags meet the same constraints.
proof fn same_rows_meet_the_same(before: Contents, after: Contents, next: i64)
    requires
        before.meets(next),
        after.items == before.items,
        after.tags == before.tags,
    ensures
        after.meets(next),
{
    same_tags_are_as_unique(before, after);
    assert forall|id: i64| (#[trigger] after.items.filter(with_id(id))).len() <= 1 by {
        assert(before.items.filter(with_id(id)).len() <= 1);
    }
    assert forall|k: int| 0 <= k < after.tags.len() implies after.has_item(
        (#[trigger] after.tags[k]).wallet_id,
        after.tags[k].item_id,
    ) by {
        let tag = before.tags[k];
        assert(before.has_item(tag.wallet_id, tag.item_id));
        item_is_there(before, after, tag.wallet_id, tag.item_id);
    }
    assert forall|i: int| 0 <= i < after.items.len() implies (#[trigger] after.items[i]).id
        < next by {
        assert(before.items[i].id < next);
    }
    assert forall|named: ItemFilter| named is Named implies (#[trigger] after.items.filter(
        named.chosen(),
    )).len() <= 1 by {
        assert(before.items.filter(named.chosen()).len() <= 1);
    }
}

/// The operations on the metadata and on the life of a wallet keep the
/// constraints.
pub proof fn wallets_keep_wf(
    tables: TablesView,
    id: Seq<char>,
    config: Document<PostgresConfig>,
    credentials: Document<PostgresCredentials>,
    metadata: Seq<u8>,
)
    requires
        tables.wf(),
    ensures
        tables.set_metadata(id, metadata).0.wf(),
        tables.provision(config, credentials).0.wf(),
        tables.create(id, config, credentials, metadata).0.wf(),
        tables.open(id, config, credentials).0.wf(),
        tables.delete_wallet(id, config, credentials).0.wf(),
{
    let plain = TagFilter::Wallet { wallet_id: id, encrypted: false };
    let encrypted = TagFilter::Wallet { wallet_id: id, encrypted: true };
    let begun = tables.begun();
    dropping_tags_keeps_wf(begun, plain);
    dropping_tags_keeps_wf(begun.delete_tags(plain).0, encrypted);
    let cleared = begun.delete_tags(plain).0.delete_tags(encrypted).0;
    deleting_items_keeps_wf(cleared, ItemFilter::Wallet { wallet_id: id });
    let emptied = cleared.delete_items(ItemFilter::Wallet { wallet_id: id }).0;
    same_rows_meet_the_same(emptied.now, emptied.delete_metadata(id).0.now, tables.next_item_id);
    same_rows_meet_the_same(
        tables.now,
        tables.set_metadata(id, metadata).0.now,
        tables.next_item_id,
    );
    same_rows_meet_the_same(
        tables.now,
        tables.create(id, config, credentials, metadata).0.now,
        tables.next_item_id,
    );
    same_metadata_is_as_single(tables.now, cleared.now);
    same_metadata_is_as_single(tables.now, emptied.now);
    let deleted = emptied.delete_metadata(id).0.now;
    let set = tables.set_metadata(id, metadata).0.now;
    let created = tables.create(id, config, credentials, metadata).0.now;
    assert forall|wallet_id: Seq<char>|
        (#[trigger] deleted.metadata.filter(metadata_of(wallet_id))).len() <= 1 by {
        filter_shrinks(emptied.now.metadata, metadata_beside(id), metadata_of(wallet_id));
        assert(emptied.now.metadata.filter(metadata_of(wallet_id)).len() <= 1);
    }
    assert forall|wallet_id: Seq<char>|
        (#[trigger] set.metadata.filter(metadata_of(wallet_id))).len() <= 1 by {
        assert(tables.now.metadata.filter(metadata_of(wallet_id)).len() <= 1);
        assert(tables.now.metadata.filter(metadata_of(id)).len() <= 1);
        let change = replaced(id, metadata);
        assert forall|row: MetadataRow| #[trigger] (metadata_of(wallet_id))(change(row)) == (
        metadata_of(wallet_id))(row) by {}
        filter_of_changed(tables.now.metadata, change, metadata_of(wallet_id));
    }
    assert forall|wallet_id: Seq<char>|
        (#[trigger] created.metadata.filter(metadata_of(wallet_id))).len() <= 1 by {
        assert(tables.now.metadata.filter(metadata_of(wallet_id)).len() <= 1);
        if created.metadata != tables.now.metadata {
            let row = MetadataRow {
                wallet_id: id,
                id: tables.next_metadata_id,
                value: metadata,
            };
            assert(created.metadata == tables.now.metadata.push(row));
            tables.now.metadata.lemma_filter_push(row, metadata_of(wallet_id));
        }
    }
}

} // verus!
