//! What holds of the operations of a wallet whatever the tables hold,
//! proved of the engine as it runs on the tables of the schema.

use vstd::prelude::*;
use crate::config::{PostgresConfig, PostgresCredentials};
use crate::error::WalletStorageErrorView;
use crate::iterator::{fresh_iterator, row_item, StorageIteratorView};
use crate::lifecycle::resolve_login;
use crate::memory::constraints::{
    found_item_exists,
    inserting_item_keeps_wf,
    update_and_delete_keep_wf,
    with_id,
};
use crate::memory::lookup::{is_encrypted, is_plaintext, latest, row_of, tag_of};
use crate::memory::model::{
    count_value,
    item_columns,
    metadata_beside,
    metadata_of,
    replaced,
    retagged,
    revalued,
    same_item,
    same_tag,
    tag_key,
    unsupported,
    ItemColumns,
    ItemFilter,
    ItemRow,
    MetadataRow,
    TablesView,
    TagFilter,
    TagRow,
};
use crate::memory::scan::{records_in, scan_fields, streamed, FetchResult};
use crate::memory::sequences::{
    filter_alike,
    filter_first,
    filter_is_empty,
    filter_lengths,
    filter_of_changed,
    filter_of_made,
    filter_of_none,
    filter_parts,
    filter_splits,
    filter_without,
    only_one,
    unchanged,
};
use crate::memory::session::SessionView;
use crate::memory::writes::write_tags_keeps_the_rest;
use crate::options::{Document, RecordOptions, SearchOptions};
use crate::protocol::{first_id, ReplyView, RequestView, RowView, SqlValueView, StepView};
use crate::record::{EncryptedValueView, StorageRecordView, TagNameView, TagView};
use crate::search::SearchView;
use crate::storage::{search_start, PostgresStorageView};

verus! {

/// After `add` has succeeded, `get` finds the item and returns the value
/// and the type that were added, where the options ask for them.
pub proof fn add_then_get(
    tables: TablesView,
    wallet_id: Seq<char>,
    type_: Seq<u8>,
    name: Seq<u8>,
    value: EncryptedValueView,
    tags: Seq<TagView>,
    options: RecordOptions,
)
    requires
        tables.add(wallet_id, type_, name, value, tags).1 is Ok,
    ensures
        ({
            let found = tables.add(wallet_id, type_, name, value, tags).0.get(
                wallet_id,
                type_,
                name,
                Document::Parsed(options),
            );
            &&& found is Ok
            &&& found->Ok_0.id == name
            &&& found->Ok_0.value == if options.retrieve_value {
                Some(value)
            } else {
                None
            }
            &&& found->Ok_0.type_ == if options.retrieve_type {
                Some(type_)
            } else {
                None
            }
        }),
{
    let given = ItemRow { wallet_id, id: 0, type_, name, value: value.data, key: value.key };
    let (inserted, reply) = tables.begun().insert_item(given);
    let row = ItemRow { id: tables.next_item_id, ..given };
    let filter = ItemFilter::Named { wallet_id, type_, name };
    assert(same_item(given) == filter);
    write_tags_keeps_the_rest(inserted, wallet_id, tables.next_item_id, tags, false);
    tables.now.items.lemma_filter_push(row, filter.chosen());
    let after = tables.add(wallet_id, type_, name, value, tags).0;
    assert(after.now.items == tables.now.items.push(row));
    assert(after.now.items_named(wallet_id, type_, name) =~= seq![row]);
}

/// After `add` has succeeded, `get` returns with the item exactly the tags
/// that were added: the encrypted ones, then the plaintext ones, each in
/// their order.
pub proof fn add_then_get_tags(
    tables: TablesView,
    wallet_id: Seq<char>,
    type_: Seq<u8>,
    name: Seq<u8>,
    value: EncryptedValueView,
    tags: Seq<TagView>,
    options: RecordOptions,
)
    requires
        tables.wf(),
        options.retrieve_tags,
        tables.add(wallet_id, type_, name, value, tags).1 is Ok,
    ensures
        ({
            let found = tables.add(wallet_id, type_, name, value, tags).0.get(
                wallet_id,
                type_,
                name,
                Document::Parsed(options),
            );
            &&& found is Ok
            &&& found->Ok_0.tags == Some(tags.filter(is_encrypted()) + tags.filter(is_plaintext()))
            &&& found->Ok_0.tags->Some_0.to_multiset() == tags.to_multiset()
        }),
{
    let given = ItemRow { wallet_id, id: 0, type_, name, value: value.data, key: value.key };
    let (inserted, reply) = tables.begun().insert_item(given);
    let item_id = tables.next_item_id;
    let row = ItemRow { id: item_id, ..given };
    let filter = ItemFilter::Named { wallet_id, type_, name };
    let after = tables.add(wallet_id, type_, name, value, tags).0;
    let rows = tags.map_values(row_of(wallet_id, item_id));
    let encrypted = TagFilter::Item { wallet_id, item_id, encrypted: true };
    let plain = TagFilter::Item { wallet_id, item_id, encrypted: false };
    assert(same_item(given) == filter);
    write_tags_keeps_the_rest(inserted, wallet_id, item_id, tags, false);
    inserted_tags_are_appended(inserted, wallet_id, item_id, tags);
    tables.now.items.lemma_filter_push(row, filter.chosen());
    assert(after.now.items_named(wallet_id, type_, name) =~= seq![row]);
    assert(after.now.tags == tables.now.tags + rows);
    assert forall|k: int| 0 <= k < tables.now.tags.len() implies !#[trigger] (encrypted.chosen())(
        tables.now.tags[k],
    ) && !(plain.chosen())(tables.now.tags[k]) by {
        let tag = tables.now.tags[k];
        if tag.item_id == item_id {
            assert(tables.now.has_item(tag.wallet_id, tag.item_id));
            let i = choose|i: int|
                0 <= i < tables.now.items.len() && (#[trigger] tables.now.items[i]).wallet_id
                    == tag.wallet_id && tables.now.items[i].id == tag.item_id;
            assert(tables.now.items[i].id < tables.next_item_id);
        }
    }
    assert forall|k: int| 0 <= k < tables.now.tags.len() implies !#[trigger] (plain.chosen())(
        tables.now.tags[k],
    ) by {
        assert(!(encrypted.chosen())(tables.now.tags[k]) && !(plain.chosen())(tables.now.tags[k]));
    }
    filter_is_empty(tables.now.tags, encrypted.chosen());
    filter_is_empty(tables.now.tags, plain.chosen());
    Seq::filter_distributes_over_add(tables.now.tags, rows, encrypted.chosen());
    Seq::filter_distributes_over_add(tables.now.tags, rows, plain.chosen());
    assert(tables.now.tags.filter(encrypted.chosen()) + rows.filter(encrypted.chosen())
        =~= rows.filter(encrypted.chosen()));
    assert(tables.now.tags.filter(plain.chosen()) + rows.filter(plain.chosen()) =~= rows.filter(
        plain.chosen(),
    ));
    tags_of_made_rows(wallet_id, item_id, tags, true);
    tags_of_made_rows(wallet_id, item_id, tags, false);
    assert(after.now.tags_of(wallet_id, item_id, true) == tags.filter(is_encrypted()));
    assert(after.now.tags_of(wallet_id, item_id, false) == tags.filter(is_plaintext()));
    filter_parts(tags, is_encrypted(), is_plaintext());
    vstd::seq_lib::lemma_multiset_commutative(
        tags.filter(is_encrypted()),
        tags.filter(is_plaintext()),
    );
}

/// `add` on an item that exists fails with `ItemAlreadyExists`, whatever
/// the new value and tags are, and the tables hold what they held: `get`
/// returns of the item what it returned before, its value and its tags.
pub proof fn add_of_existing_fails(
    tables: TablesView,
    wallet_id: Seq<char>,
    type_: Seq<u8>,
    name: Seq<u8>,
    value: EncryptedValueView,
    tags: Seq<TagView>,
    options: Document<RecordOptions>,
)
    requires
        tables.saved is None,
        tables.now.items_named(wallet_id, type_, name).len() > 0,
    ensures
        tables.add(wallet_id, type_, name, value, tags) == (
            tables,
            Err::<(), WalletStorageErrorView>(WalletStorageErrorView::ItemAlreadyExists),
        ),
        tables.add(wallet_id, type_, name, value, tags).0.get(wallet_id, type_, name, options)
            == tables.get(wallet_id, type_, name, options),
{
    let given = ItemRow { wallet_id, id: 0, type_, name, value: value.data, key: value.key };
    assert(same_item(given) == (ItemFilter::Named { wallet_id, type_, name }));
}

/// `add` leaves no partial state: where it fails, the tables hold what
/// they held.
pub proof fn add_is_atomic(
    tables: TablesView,
    wallet_id: Seq<char>,
    type_: Seq<u8>,
    name: Seq<u8>,
    value: EncryptedValueView,
    tags: Seq<TagView>,
)
    requires
        tables.saved is None,
        tables.add(wallet_id, type_, name, value, tags).1 is Err,
    ensures
        tables.add(wallet_id, type_, name, value, tags).0.now == tables.now,
        tables.add(wallet_id, type_, name, value, tags).0.saved is None,
{
    let given = ItemRow { wallet_id, id: 0, type_, name, value: value.data, key: value.key };
    let (inserted, reply) = tables.begun().insert_item(given);
    write_tags_keeps_the_rest(inserted, wallet_id, tables.next_item_id, tags, false);
}

/// After `delete`, `get` fails with `ItemNotFound`, and no tag is left
/// that refers to a deleted item.
pub proof fn delete_removes_item_and_tags(
    tables: TablesView,
    wallet_id: Seq<char>,
    type_: Seq<u8>,
    name: Seq<u8>,
    options: RecordOptions,
)
    ensures
        ({
            let after = tables.delete(wallet_id, type_, name).0;
            &&& after.get(wallet_id, type_, name, Document::Parsed(options)) == Err::<
                StorageRecordView,
                WalletStorageErrorView,
            >(WalletStorageErrorView::ItemNotFound)
            &&& forall|i: int, k: int|
                0 <= i < tables.now.items.len() && (ItemFilter::Named {
                    wallet_id,
                    type_,
                    name,
                }).matches(#[trigger] tables.now.items[i]) && 0 <= k < after.now.tags.len() ==> !((
                #[trigger] after.now.tags[k]).wallet_id == wallet_id && after.now.tags[k].item_id
                    == tables.now.items[i].id)
        }),
{
    let filter = ItemFilter::Named { wallet_id, type_, name };
    let after = tables.delete(wallet_id, type_, name).0;
    filter_without(tables.now.items, filter.spared(), filter.chosen());
    assert forall|i: int, k: int|
        0 <= i < tables.now.items.len() && filter.matches(#[trigger] tables.now.items[i]) && 0
            <= k < after.now.tags.len() implies !((#[trigger] after.now.tags[k]).wallet_id
        == wallet_id && after.now.tags[k].item_id == tables.now.items[i].id) by {
        tables.now.tags.lemma_filter_pred(tables.now.unreferred(filter), k);
        let tag = after.now.tags[k];
        assert(!tables.now.refers_to(filter, tag));
    }
}

/// `delete` leaves no orphans: where every tag belonged to an item, every
/// tag that is left belongs to an item that is left.
pub proof fn delete_leaves_no_orphans(
    tables: TablesView,
    wallet_id: Seq<char>,
    type_: Seq<u8>,
    name: Seq<u8>,
)
    requires
        tables.now.referential(),
    ensures
        tables.delete(wallet_id, type_, name).0.now.referential(),
{
    let filter = ItemFilter::Named { wallet_id, type_, name };
    let after = tables.delete(wallet_id, type_, name).0.now;
    assert forall|k: int| 0 <= k < after.tags.len() implies after.has_item(
        (#[trigger] after.tags[k]).wallet_id,
        after.tags[k].item_id,
    ) by {
        let tag = after.tags[k];
        tables.now.tags.lemma_filter_pred(tables.now.unreferred(filter), k);
        assert(after.tags.contains(tag));
        tables.now.tags.lemma_filter_contains_rev(tables.now.unreferred(filter), tag);
        let k0 = choose|k0: int| 0 <= k0 < tables.now.tags.len() && tables.now.tags[k0] == tag;
        assert(tables.now.has_item(tables.now.tags[k0].wallet_id, tables.now.tags[k0].item_id));
        let i = choose|i: int|
            0 <= i < tables.now.items.len() && (#[trigger] tables.now.items[i]).wallet_id
                == tag.wallet_id && tables.now.items[i].id == tag.item_id;
        let item = tables.now.items[i];
        assert(!tables.now.refers_to(filter, tag));
        assert(!filter.matches(item));
        tables.now.items.lemma_filter_contains(filter.spared(), i);
        let j = choose|j: int| 0 <= j < after.items.len() && after.items[j] == item;
        assert(after.items[j].wallet_id == tag.wallet_id && after.items[j].id == tag.item_id);
    }
}

/// The tags of an item of a wallet, of both variants.
pub open spec fn tags_of_item(wallet_id: Seq<char>, item_id: i64) -> spec_fn(TagRow) -> bool {
    |row: TagRow| row.wallet_id == wallet_id && row.item_id == item_id
}

/// `delete` removes the item and exactly its tags: the tables hold one
/// item less, and as many tags less as the item had, of both variants.
pub proof fn delete_removes_exactly_the_tags(
    tables: TablesView,
    wallet_id: Seq<char>,
    type_: Seq<u8>,
    name: Seq<u8>,
)
    requires
        tables.wf(),
        tables.now.items_named(wallet_id, type_, name).len() > 0,
    ensures
        ({
            let item_id = tables.now.items_named(wallet_id, type_, name)[0].id;
            let after = tables.delete(wallet_id, type_, name).0;
            &&& tables.delete(wallet_id, type_, name).1 is Ok
            &&& after.now.items.len() + 1 == tables.now.items.len()
            &&& after.now.tags.len() + tables.now.tags_of(wallet_id, item_id, true).len()
                + tables.now.tags_of(wallet_id, item_id, false).len() == tables.now.tags.len()
            &&& after.now.tags == tables.now.tags.filter(
                |row: TagRow| !tags_of_item(wallet_id, item_id)(row),
            )
        }),
{
    let filter = ItemFilter::Named { wallet_id, type_, name };
    let found = tables.now.items.filter(filter.chosen());
    let item = found[0];
    let item_id = item.id;
    let of_item = tags_of_item(wallet_id, item_id);
    let others = |row: TagRow| !tags_of_item(wallet_id, item_id)(row);
    let encrypted = TagFilter::Item { wallet_id, item_id, encrypted: true };
    let plain = TagFilter::Item { wallet_id, item_id, encrypted: false };
    assert(found.len() <= 1);
    filter_first(tables.now.items, filter.chosen());
    let at = choose|at: int| 0 <= at < tables.now.items.len() && tables.now.items[at] == item;
    assert forall|k: int| 0 <= k < tables.now.tags.len() implies (#[trigger] (
    tables.now.unreferred(filter))(tables.now.tags[k])) == others(tables.now.tags[k]) by {
        let tag = tables.now.tags[k];
        if of_item(tag) {
            assert(filter.matches(tables.now.items[at]) && tables.now.items[at].wallet_id
                == tag.wallet_id && tables.now.items[at].id == tag.item_id);
            assert(tables.now.refers_to(filter, tag));
        }
        if tables.now.refers_to(filter, tag) {
            let i = choose|i: int|
                0 <= i < tables.now.items.len() && filter.matches(#[trigger] tables.now.items[i])
                    && tables.now.items[i].wallet_id == tag.wallet_id && tables.now.items[i].id
                    == tag.item_id;
            only_one(tables.now.items, filter.chosen(), i, at);
        }
    }
    filter_alike(tables.now.tags, tables.now.unreferred(filter), others);
    assert forall|k: int| 0 <= k < tables.now.tags.len() implies (#[trigger] others(
        tables.now.tags[k],
    )) == !of_item(tables.now.tags[k]) by {}
    filter_lengths(tables.now.tags, of_item, others);
    assert forall|k: int| 0 <= k < tables.now.tags.len() implies (#[trigger] of_item(
        tables.now.tags[k],
    )) == ((encrypted.chosen())(tables.now.tags[k]) || (plain.chosen())(tables.now.tags[k])) by {}
    assert forall|k: int| 0 <= k < tables.now.tags.len() implies !(#[trigger] (
    encrypted.chosen())(tables.now.tags[k]) && (plain.chosen())(tables.now.tags[k])) by {}
    filter_splits(tables.now.tags, of_item, encrypted.chosen(), plain.chosen());
    assert forall|i: int| 0 <= i < tables.now.items.len() implies (#[trigger] (filter.spared())(
        tables.now.items[i],
    )) == !(filter.chosen())(tables.now.items[i]) by {}
    filter_lengths(tables.now.items, filter.chosen(), filter.spared());
}

/// An item that is added again after it was deleted starts anew: `get`
/// returns the tags of the new item and none of the tags that the deleted
/// item had.
pub proof fn deleted_item_starts_anew(
    tables: TablesView,
    wallet_id: Seq<char>,
    type_: Seq<u8>,
    name: Seq<u8>,
    value: EncryptedValueView,
    tags: Seq<TagView>,
    options: RecordOptions,
)
    requires
        tables.wf(),
        options.retrieve_tags,
        tables.delete(wallet_id, type_, name).0.add(wallet_id, type_, name, value, tags).1 is Ok,
    ensures
        ({
            let found = tables.delete(wallet_id, type_, name).0.add(
                wallet_id,
                type_,
                name,
                value,
                tags,
            ).0.get(wallet_id, type_, name, Document::Parsed(options));
            &&& found is Ok
            &&& found->Ok_0.tags == Some(tags.filter(is_encrypted()) + tags.filter(is_plaintext()))
            &&& tags.len() == 0 ==> found->Ok_0.tags == Some(Seq::<TagView>::empty())
        }),
{
    let deleted = tables.delete(wallet_id, type_, name).0;
    update_and_delete_keep_wf(tables, wallet_id, type_, name, value);
    add_then_get_tags(deleted, wallet_id, type_, name, value, tags, options);
    if tags.len() == 0 {
        filter_of_none(is_encrypted());
        filter_of_none(is_plaintext());
        assert(tags =~= Seq::<TagView>::empty());
        assert(tags.filter(is_encrypted()) + tags.filter(is_plaintext())
            =~= Seq::<TagView>::empty());
    }
}

/// Where tags were inserted one after another and none failed, the tables
/// hold them after the tags that they held, in their order.
pub proof fn inserted_tags_are_appended(
    tables: TablesView,
    wallet_id: Seq<char>,
    item_id: i64,
    tags: Seq<TagView>,
)
    requires
        tables.write_tags(wallet_id, item_id, tags, false).1 is None,
    ensures
        tables.write_tags(wallet_id, item_id, tags, false).0.now.tags == tables.now.tags
            + tags.map_values(row_of(wallet_id, item_id)),
    decreases tags.len(),
{
    let rows = tags.map_values(row_of(wallet_id, item_id));
    if tags.len() == 0 {
        assert(tables.now.tags + rows =~= tables.now.tags);
    } else {
        let row = TagRow { wallet_id, item_id, tag: tags[0] };
        let (next, reply) = tables.insert_tag(row, false);
        inserted_tags_are_appended(next, wallet_id, item_id, tags.skip(1));
        assert(next.now.tags == tables.now.tags.push(row));
        assert(tables.now.tags.push(row) + tags.skip(1).map_values(row_of(wallet_id, item_id))
            =~= tables.now.tags + rows);
    }
}

/// The tags of one variant among the rows that were made of the tags of
/// an item.
proof fn tags_of_made_rows(wallet_id: Seq<char>, item_id: i64, tags: Seq<TagView>, encrypted: bool)
    ensures
        tags.map_values(row_of(wallet_id, item_id)).filter(
            TagFilter::Item { wallet_id, item_id, encrypted }.chosen(),
        ).map_values(tag_of()) == tags.filter(
            if encrypted {
                is_encrypted()
            } else {
                is_plaintext()
            },
        ),
{
    let wanted = if encrypted {
        is_encrypted()
    } else {
        is_plaintext()
    };
    let filter = TagFilter::Item { wallet_id, item_id, encrypted };
    filter_of_made(tags, row_of(wallet_id, item_id), filter.chosen(), wanted);
    assert(tags.filter(wanted).map_values(row_of(wallet_id, item_id)).map_values(tag_of())
        =~= tags.filter(wanted));
}

/// `update_tags` replaces the tags of an item: after it has succeeded,
/// `get` returns exactly the new tags, whatever tags the item had. They
/// come as the encrypted ones, then the plaintext ones, each in their
/// order.
pub proof fn update_tags_replaces(
    tables: TablesView,
    wallet_id: Seq<char>,
    type_: Seq<u8>,
    name: Seq<u8>,
    tags: Seq<TagView>,
    options: RecordOptions,
)
    requires
        options.retrieve_tags,
        tables.set_tags(wallet_id, type_, name, tags, true).1 is Ok,
    ensures
        ({
            let found = tables.set_tags(wallet_id, type_, name, tags, true).0.get(
                wallet_id,
                type_,
                name,
                Document::Parsed(options),
            );
            &&& found is Ok
            &&& found->Ok_0.tags == Some(tags.filter(is_encrypted()) + tags.filter(is_plaintext()))
            &&& found->Ok_0.tags->Some_0.to_multiset() == tags.to_multiset()
        }),
{
    let item = tables.now.items_named(wallet_id, type_, name)[0];
    let item_id = item.id;
    let encrypted = TagFilter::Item { wallet_id, item_id, encrypted: true };
    let plain = TagFilter::Item { wallet_id, item_id, encrypted: false };
    let first = tables.begun().delete_tags(encrypted).0;
    let cleared = first.delete_tags(plain).0;
    let after = tables.set_tags(wallet_id, type_, name, tags, true).0;
    let rows = tags.map_values(row_of(wallet_id, item_id));
    write_tags_keeps_the_rest(cleared, wallet_id, item_id, tags, false);
    inserted_tags_are_appended(cleared, wallet_id, item_id, tags);
    assert(after.now.items == tables.now.items);
    assert(after.now.tags == cleared.now.tags + rows);
    assert forall|i: int| 0 <= i < cleared.now.tags.len() implies !encrypted.matches(
        #[trigger] cleared.now.tags[i],
    ) && !plain.matches(cleared.now.tags[i]) by {
        let tag = cleared.now.tags[i];
        first.now.tags.lemma_filter_pred(plain.spared(), i);
        assert(cleared.now.tags.contains(tag));
        first.now.tags.lemma_filter_contains_rev(plain.spared(), tag);
        let j = choose|j: int| 0 <= j < first.now.tags.len() && first.now.tags[j] == tag;
        tables.begun().now.tags.lemma_filter_pred(encrypted.spared(), j);
    }
    assert forall|i: int| 0 <= i < cleared.now.tags.len() implies !(#[trigger] (
    encrypted.chosen())(cleared.now.tags[i])) by {
        assert(!encrypted.matches(cleared.now.tags[i]));
    }
    assert forall|i: int| 0 <= i < cleared.now.tags.len() implies !(#[trigger] (plain.chosen())(
        cleared.now.tags[i],
    )) by {
        assert(!plain.matches(cleared.now.tags[i]));
    }
    filter_is_empty(cleared.now.tags, encrypted.chosen());
    filter_is_empty(cleared.now.tags, plain.chosen());
    Seq::filter_distributes_over_add(cleared.now.tags, rows, encrypted.chosen());
    Seq::filter_distributes_over_add(cleared.now.tags, rows, plain.chosen());
    assert(cleared.now.tags.filter(encrypted.chosen()) + rows.filter(encrypted.chosen())
        =~= rows.filter(encrypted.chosen()));
    assert(cleared.now.tags.filter(plain.chosen()) + rows.filter(plain.chosen()) =~= rows.filter(
        plain.chosen(),
    ));
    tags_of_made_rows(wallet_id, item_id, tags, true);
    tags_of_made_rows(wallet_id, item_id, tags, false);
    assert(after.now.tags_of(wallet_id, item_id, true) == tags.filter(is_encrypted()));
    assert(after.now.tags_of(wallet_id, item_id, false) == tags.filter(is_plaintext()));
    filter_parts(tags, is_encrypted(), is_plaintext());
    vstd::seq_lib::lemma_multiset_commutative(
        tags.filter(is_encrypted()),
        tags.filter(is_plaintext()),
    );
}

/// An upsert gives the item the tag under its key and leaves the tags of
/// the item under other keys as they were.
pub proof fn upsert_sets_tag(tables: TablesView, row: TagRow, key: TagNameView)
    requires
        tables.insert_tag(row, true).1 is Affected,
    ensures
        tables.insert_tag(row, true).0.now.tag_named(row.wallet_id, row.item_id, key) == if key
            == tag_key(row.tag) {
            Some(row.tag)
        } else {
            tables.now.tag_named(row.wallet_id, row.item_id, key)
        },
{
    let next = tables.insert_tag(row, true).0;
    let same = same_tag(row);
    let asked = TagFilter::Named { wallet_id: row.wallet_id, item_id: row.item_id, name: key };
    let held = tables.now.tags.filter(same.chosen());
    assert(same.matches(row));
    if held.len() > 0 {
        let change = retagged(row);
        assert(next.now.tags == tables.now.tags.map_values(change));
        assert forall|old: TagRow| #[trigger] (asked.chosen())(change(old)) == (asked.chosen())(
            old,
        ) by {
            if same.matches(old) {
                assert(change(old) == row);
            }
        }
        filter_of_changed(tables.now.tags, change, asked.chosen());
        let found = tables.now.tags.filter(asked.chosen());
        if key == tag_key(row.tag) {
            assert(asked == same);
            assert(found.map_values(change)[0] == change(found[0]));
            filter_first(tables.now.tags, asked.chosen());
        } else {
            assert forall|i: int| 0 <= i < found.len() implies #[trigger] change(found[i])
                == found[i] by {
                tables.now.tags.lemma_filter_pred(asked.chosen(), i);
            }
            unchanged(found, change);
        }
    } else {
        assert(next.now.tags == tables.now.tags.push(row));
        tables.now.tags.lemma_filter_push(row, asked.chosen());
        if key == tag_key(row.tag) {
            assert(asked == same);
        }
    }
}

/// Where tags were upserted one after another and none failed, the item
/// has under each key the latest of the tags with that key, and else the
/// tag that it had.
pub proof fn upserted_tags_are_latest(
    tables: TablesView,
    wallet_id: Seq<char>,
    item_id: i64,
    tags: Seq<TagView>,
    key: TagNameView,
)
    requires
        tables.write_tags(wallet_id, item_id, tags, true).1 is None,
    ensures
        tables.write_tags(wallet_id, item_id, tags, true).0.now.tag_named(wallet_id, item_id, key)
            == match latest(tags, key) {
            Some(tag) => Some(tag),
            None => tables.now.tag_named(wallet_id, item_id, key),
        },
    decreases tags.len(),
{
    if tags.len() > 0 {
        let row = TagRow { wallet_id, item_id, tag: tags[0] };
        let next = tables.insert_tag(row, true).0;
        upsert_sets_tag(tables, row, key);
        upserted_tags_are_latest(next, wallet_id, item_id, tags.skip(1), key);
    }
}

/// `add_tags` adds to the tags of an item and overwrites on a collision of
/// names: after it has succeeded, the item has under each key (a variant
/// and a name) the latest of the new tags with that key, and else the tag
/// that it had. The item itself is as it was.
pub proof fn add_tags_adds_and_overwrites(
    tables: TablesView,
    wallet_id: Seq<char>,
    type_: Seq<u8>,
    name: Seq<u8>,
    tags: Seq<TagView>,
    key: TagNameView,
)
    requires
        tables.set_tags(wallet_id, type_, name, tags, false).1 is Ok,
    ensures
        ({
            let item_id = tables.now.items_named(wallet_id, type_, name)[0].id;
            let after = tables.set_tags(wallet_id, type_, name, tags, false).0;
            &&& after.now.items == tables.now.items
            &&& after.now.tag_named(wallet_id, item_id, key) == match latest(tags, key) {
                Some(tag) => Some(tag),
                None => tables.now.tag_named(wallet_id, item_id, key),
            }
        }),
{
    let item_id = tables.now.items_named(wallet_id, type_, name)[0].id;
    write_tags_keeps_the_rest(tables.begun(), wallet_id, item_id, tags, true);
    upserted_tags_are_latest(tables.begun(), wallet_id, item_id, tags, key);
}

/// `add_tags` called twice yields the union of the tags keyed by variant
/// and name, in which the latest value wins: under each key the item has
/// the latest tag of the second call, else the latest tag of the first
/// call, else the tag that it had.
pub proof fn add_tags_twice_is_union(
    tables: TablesView,
    wallet_id: Seq<char>,
    type_: Seq<u8>,
    name: Seq<u8>,
    first: Seq<TagView>,
    second: Seq<TagView>,
    key: TagNameView,
)
    requires
        tables.set_tags(wallet_id, type_, name, first, false).1 is Ok,
        tables.set_tags(wallet_id, type_, name, first, false).0.set_tags(
            wallet_id,
            type_,
            name,
            second,
            false,
        ).1 is Ok,
    ensures
        ({
            let item_id = tables.now.items_named(wallet_id, type_, name)[0].id;
            let after = tables.set_tags(wallet_id, type_, name, first, false).0.set_tags(
                wallet_id,
                type_,
                name,
                second,
                false,
            ).0;
            after.now.tag_named(wallet_id, item_id, key) == match latest(second, key) {
                Some(tag) => Some(tag),
                None => match latest(first, key) {
                    Some(tag) => Some(tag),
                    None => tables.now.tag_named(wallet_id, item_id, key),
                },
            }
        }),
{
    let between = tables.set_tags(wallet_id, type_, name, first, false).0;
    add_tags_adds_and_overwrites(tables, wallet_id, type_, name, first, key);
    add_tags_adds_and_overwrites(between, wallet_id, type_, name, second, key);
}

/// A stream of full records over the rows of items returns, fetch by
/// fetch, the full record of each item, and then reports that it is
/// exhausted.
proof fn rest_is_streamed(
    session: SessionView,
    stream: StorageIteratorView,
    items: Seq<ItemRow>,
    from: int,
)
    requires
        0 <= from <= items.len(),
        session.cursor == Some(items.map_values(ItemColumns::All.of()).skip(from)),
        stream.has_cursor,
        stream.has_tag_retriever,
        stream.options == scan_fields(),
    ensures
        session.stream_of(stream) == items.skip(from).map_values(streamed(session.tables)).push(
            Ok(None),
        ),
    decreases items.len() - from,
{
    let rows = items.map_values(ItemColumns::All.of());
    let left = items.skip(from).map_values(streamed(session.tables));
    if from < items.len() {
        let item = items[from];
        assert(rows.skip(from)[0] == item_columns(item));
        let fetched = session.fetch(stream);
        assert(rows.skip(from).skip(1) =~= rows.skip(from + 1));
        rest_is_streamed(fetched.session, fetched.stream, items, from + 1);
        assert(seq![fetched.result] + items.skip(from + 1).map_values(
            streamed(session.tables),
        ).push(Ok(None)) =~= left.push(Ok(None)));
    } else {
        assert(session.stream_of(stream) =~= left.push(Ok(None)));
    }
}

/// `get_all` enumerates every item of the wallet exactly once: its stream
/// returns, fetch by fetch, one record for each row of the wallet's items,
/// in the order of the rows, each with its type, its value and its tags,
/// and then reports that it is exhausted.
pub proof fn get_all_enumerates_every_item(session: SessionView, wallet_id: Seq<char>)
    ensures
        ({
            let (opened, result) = session.scan(wallet_id);
            let items = session.tables.now.items.filter(ItemFilter::Wallet { wallet_id }.chosen());
            &&& result is Ok
            &&& opened.tables == session.tables
            &&& opened.stream_of(result->Ok_0) == items.map_values(streamed(session.tables)).push(
                Ok(None),
            )
            &&& forall|i: int|
                0 <= i < items.len() ==> {
                    let record = (#[trigger] opened.stream_of(result->Ok_0)[i])->Ok_0->Some_0;
                    &&& record.id == items[i].name
                    &&& record.type_ == Some(items[i].type_)
                    &&& record.value is Some
                    &&& record.tags is Some
                }
        }),
{
    let (opened, result) = session.scan(wallet_id);
    let items = session.tables.now.items.filter(ItemFilter::Wallet { wallet_id }.chosen());
    assert(items.map_values(ItemColumns::All.of()).skip(0) =~= items.map_values(
        ItemColumns::All.of(),
    ));
    rest_is_streamed(opened, result->Ok_0, items, 0);
    assert(items.skip(0) =~= items);
}

/// What a backend with a predicate compiler answers to the requests of a
/// search: the compiled statement, the rows of the count, and that the statements
/// and the cursor are ready.
pub open spec fn compiled_reply(
    request: RequestView,
    text: Seq<char>,
    params: Seq<SqlValueView>,
    count: Seq<RowView>,
) -> ReplyView {
    match request {
        RequestView::Translate { wallet_id, type_, count } => ReplyView::Translated {
            text,
            params,
        },
        RequestView::Query { sql, params } => ReplyView::Rows(count),
        RequestView::PrepareTags => ReplyView::Done,
        RequestView::OpenCursor { wallet_id, sql, params } => ReplyView::Done,
        _ => unsupported(),
    }
}

/// What a search hands out on a backend with a predicate compiler.
pub open spec fn search_on(
    machine: SearchView,
    reply: ReplyView,
    text: Seq<char>,
    params: Seq<SqlValueView>,
    count: Seq<RowView>,
) -> Result<StorageIteratorView, WalletStorageErrorView>
    decreases machine.remaining(),
{
    let (next, step) = machine.advance(reply);
    match step {
        StepView::Finish(result) => result,
        StepView::Perform(request) => if next.remaining() < machine.remaining() {
            search_on(next, compiled_reply(request, text, params, count), text, params, count)
        } else {
            Err(WalletStorageErrorView::ConfigError)
        },
    }
}

/// Each row of a cursor over rows of items yields a record.
proof fn every_row_is_a_record(session: SessionView, stream: StorageIteratorView)
    requires
        session.cursor is Some,
        forall|i: int|
            0 <= i < session.cursor->Some_0.len() ==> (#[trigger] row_item(
                session.cursor->Some_0[i],
            )) is Some,
        stream.has_cursor,
        stream.options.retrieve_tags ==> stream.has_tag_retriever,
    ensures
        records_in(session.stream_of(stream)) == session.cursor->Some_0.len(),
    decreases session.cursor->Some_0.len(),
{
    let rows = session.cursor->Some_0;
    let results = session.stream_of(stream);
    let fetched = session.fetch(stream);
    if rows.len() > 0 {
        assert(row_item(rows[0]) is Some);
        assert forall|i: int| 0 <= i < rows.skip(1).len() implies (#[trigger] row_item(
            rows.skip(1)[i],
        )) is Some by {
            assert(rows.skip(1)[i] == rows[i + 1]);
        }
        every_row_is_a_record(fetched.session, fetched.stream);
        let rest = fetched.session.stream_of(fetched.stream);
        records_add(seq![fetched.result], rest);
        assert(seq![fetched.result].drop_last() =~= Seq::<FetchResult>::empty());
        assert(records_in(seq![fetched.result]) == 1) by {
            reveal_with_fuel(records_in, 2);
        }
    } else {
        assert(results.drop_last() =~= Seq::<FetchResult>::empty());
        assert(records_in(results) == 0) by {
            reveal_with_fuel(records_in, 2);
        }
    }
}

/// The records among the results of fetches add up over their parts.
proof fn records_add(front: Seq<FetchResult>, back: Seq<FetchResult>)
    ensures
        records_in(front + back) == records_in(front) + records_in(back),
    decreases back.len(),
{
    if back.len() == 0 {
        assert(front + back =~= front);
    } else {
        assert((front + back).drop_last() =~= front + back.drop_last());
        records_add(front, back.drop_last());
    }
}

/// The count of a search is the number of records that the search
/// enumerates, on every backend and for every predicate compiler whose
/// counting statement returns the number of rows that its statement for the
/// records returns: a search for the count alone hands out a stream that
/// carries this number, and the search for the records hands out a stream
/// that returns as many records.
pub proof fn count_is_number_of_records_where_the_backend_agrees(
    session: SessionView,
    wallet_id: Seq<char>,
    type_: Seq<u8>,
    options: SearchOptions,
    text: Seq<char>,
    params: Seq<SqlValueView>,
    rows: Seq<RowView>,
)
    requires
        session.cursor == Some(rows),
        rows.len() <= i64::MAX,
        rows.len() <= usize::MAX,
        forall|i: int| 0 <= i < rows.len() ==> (#[trigger] row_item(rows[i])) is Some,
    ensures
        ({
            let count = seq![seq![SqlValueView::Int(rows.len() as i64)]];
            let counting = search_on(
                search_start(
                    wallet_id,
                    type_,
                    Document::Parsed(
                        SearchOptions {
                            retrieve_records: false,
                            retrieve_total_count: true,
                            ..options
                        },
                    ),
                ),
                ReplyView::Ready,
                text,
                params,
                count,
            );
            let streaming = search_on(
                search_start(
                    wallet_id,
                    type_,
                    Document::Parsed(
                        SearchOptions {
                            retrieve_records: true,
                            retrieve_total_count: false,
                            ..options
                        },
                    ),
                ),
                ReplyView::Ready,
                text,
                params,
                count,
            );
            &&& counting is Ok
            &&& streaming is Ok
            &&& counting->Ok_0.total_count == Some(rows.len() as usize)
            &&& records_in(session.stream_of(streaming->Ok_0)) == rows.len()
            &&& records_in(session.stream_of(counting->Ok_0)) == 0
        }),
{
    reveal_with_fuel(search_on, 6);
    let count = seq![seq![SqlValueView::Int(rows.len() as i64)]];
    assert(first_id(count) == Some(rows.len() as i64));
    let streaming = fresh_iterator(true, options.retrieve_tags, options.fields(), None);
    every_row_is_a_record(session, streaming);
    let counting = fresh_iterator(
        false,
        false,
        RecordOptions::defaults(),
        Some(rows.len() as usize),
    );
    assert(session.stream_of(counting) =~= seq![Ok(None)]);
    assert(seq![Ok::<Option<StorageRecordView>, WalletStorageErrorView>(None)].drop_last()
        =~= Seq::<FetchResult>::empty());
    assert(records_in(session.stream_of(counting)) == 0) by {
        reveal_with_fuel(records_in, 2);
    }
}

/// The count of a search is the number of records that the search
/// enumerates: on the tables, a search for the count alone carries the
/// number of the items of its wallet with its type, and the search for the
/// records streams one record for each of these items and nothing else.
/// What it streams are items of its own wallet, whatever other wallets
/// hold.
pub proof fn count_is_number_of_records(
    session: SessionView,
    wallet_id: Seq<char>,
    type_: Seq<u8>,
    options: SearchOptions,
)
    requires
        session.tables.now.items.len() <= usize::MAX,
        session.tables.now.items.len() <= i64::MAX,
    ensures
        ({
            let matching = session.tables.matching(wallet_id, type_);
            let counting = session.search(
                wallet_id,
                type_,
                Document::Parsed(
                    SearchOptions { retrieve_records: false, retrieve_total_count: true, ..options },
                ),
            );
            let streaming = session.search(
                wallet_id,
                type_,
                Document::Parsed(
                    SearchOptions { retrieve_records: true, retrieve_total_count: false, ..options },
                ),
            );
            &&& counting.1 is Ok
            &&& streaming.1 is Ok
            &&& counting.1->Ok_0.total_count == Some(matching.len() as usize)
            &&& records_in(streaming.0.stream_of(streaming.1->Ok_0)) == matching.len()
            &&& records_in(counting.0.stream_of(counting.1->Ok_0)) == 0
            &&& streaming.0.cursor == Some(matching.map_values(ItemColumns::All.of()))
            &&& streaming.0.tables == session.tables
            &&& forall|i: int|
                0 <= i < matching.len() ==> (#[trigger] matching[i]).wallet_id == wallet_id
                    && matching[i].type_ == type_
        }),
{
    let filter = ItemFilter::Typed { wallet_id, type_ };
    let matching = session.tables.matching(wallet_id, type_);
    session.tables.now.items.lemma_filter_len(filter.chosen());
    let count = seq![seq![SqlValueView::Int(count_value(matching.len()))]];
    assert(first_id(count) == Some(matching.len() as i64));
    let counting = session.search(
        wallet_id,
        type_,
        Document::Parsed(
            SearchOptions { retrieve_records: false, retrieve_total_count: true, ..options },
        ),
    );
    let streaming = session.search(
        wallet_id,
        type_,
        Document::Parsed(
            SearchOptions { retrieve_records: true, retrieve_total_count: false, ..options },
        ),
    );
    let rows = matching.map_values(ItemColumns::All.of());
    assert forall|i: int| 0 <= i < rows.len() implies (#[trigger] row_item(rows[i])) is Some by {
        assert(rows[i] == item_columns(matching[i]));
    }
    every_row_is_a_record(streaming.0, streaming.1->Ok_0);
    assert(counting.0.stream_of(counting.1->Ok_0) =~= seq![Ok(None)]);
    assert(seq![Ok::<Option<StorageRecordView>, WalletStorageErrorView>(None)].drop_last()
        =~= Seq::<FetchResult>::empty());
    assert(records_in(counting.0.stream_of(counting.1->Ok_0)) == 0) by {
        reveal_with_fuel(records_in, 2);
    }
    assert forall|i: int| 0 <= i < matching.len() implies (#[trigger] matching[i]).wallet_id
        == wallet_id && matching[i].type_ == type_ by {
        session.tables.now.items.lemma_filter_pred(filter.chosen(), i);
    }
}

/// No two of the tags have the same variant and name.
pub open spec fn distinct_keys(tags: Seq<TagView>) -> bool {
    forall|i: int, j: int|
        0 <= i < j < tags.len() ==> tag_key(#[trigger] tags[i]) != tag_key(#[trigger] tags[j])
}

/// None of the tags has a key under which the item has a tag already.
pub open spec fn all_new(tables: TablesView, wallet_id: Seq<char>, item_id: i64, tags: Seq<TagView>)
    -> bool {
    forall|j: int|
        0 <= j < tags.len() ==> tables.now.tag_named(wallet_id, item_id, tag_key(#[trigger] tags[j]))
            is None
}

/// Inserting the tags of an item that exists succeeds exactly when no two
/// of them have the same key and the item has none of their keys yet.
pub proof fn inserts_succeed_exactly_when(
    tables: TablesView,
    wallet_id: Seq<char>,
    item_id: i64,
    tags: Seq<TagView>,
)
    requires
        tables.now.has_item(wallet_id, item_id),
    ensures
        tables.write_tags(wallet_id, item_id, tags, false).1 is None <==> distinct_keys(tags)
            && all_new(tables, wallet_id, item_id, tags),
    decreases tags.len(),
{
    if tags.len() > 0 {
        let row = TagRow { wallet_id, item_id, tag: tags[0] };
        let (next, reply) = tables.insert_tag(row, false);
        let rest = tags.skip(1);
        if reply is Affected {
            assert(tables.now.tag_named(wallet_id, item_id, tag_key(tags[0])) is None);
            let i = choose|i: int|
                0 <= i < tables.now.items.len() && (#[trigger] tables.now.items[i]).wallet_id
                    == wallet_id && tables.now.items[i].id == item_id;
            assert(next.now.items[i].wallet_id == wallet_id && next.now.items[i].id == item_id);
            inserts_succeed_exactly_when(next, wallet_id, item_id, rest);
            assert forall|key: TagNameView|
                next.now.tag_named(wallet_id, item_id, key) is None <==> key != tag_key(tags[0])
                    && tables.now.tag_named(wallet_id, item_id, key) is None by {
                tables.now.tags.lemma_filter_push(
                    row,
                    TagFilter::Named { wallet_id, item_id, name: key }.chosen(),
                );
            }
            if distinct_keys(rest) && all_new(next, wallet_id, item_id, rest) {
                assert forall|i: int, j: int| 0 <= i < j < tags.len() implies tag_key(
                    #[trigger] tags[i],
                ) != tag_key(#[trigger] tags[j]) by {
                    if i == 0 {
                        assert(next.now.tag_named(wallet_id, item_id, tag_key(rest[j - 1]))
                            is None);
                    } else {
                        assert(tag_key(rest[i - 1]) != tag_key(rest[j - 1]));
                    }
                }
                assert forall|j: int| 0 <= j < tags.len() implies tables.now.tag_named(
                    wallet_id,
                    item_id,
                    tag_key(#[trigger] tags[j]),
                ) is None by {
                    if j > 0 {
                        assert(next.now.tag_named(wallet_id, item_id, tag_key(rest[j - 1]))
                            is None);
                    }
                }
            }
            if distinct_keys(tags) && all_new(tables, wallet_id, item_id, tags) {
                assert forall|i: int, j: int| 0 <= i < j < rest.len() implies tag_key(
                    #[trigger] rest[i],
                ) != tag_key(#[trigger] rest[j]) by {
                    assert(tag_key(tags[i + 1]) != tag_key(tags[j + 1]));
                }
                assert forall|j: int| 0 <= j < rest.len() implies next.now.tag_named(
                    wallet_id,
                    item_id,
                    tag_key(#[trigger] rest[j]),
                ) is None by {
                    assert(tag_key(tags[0]) != tag_key(tags[j + 1]));
                    assert(tables.now.tag_named(wallet_id, item_id, tag_key(tags[j + 1]))
                        is None);
                }
            }
        } else {
            assert(tables.now.tag_named(wallet_id, item_id, tag_key(tags[0])) is Some);
        }
    }
}

/// Upserting the tags of an item that exists always succeeds.
pub proof fn upserts_succeed(
    tables: TablesView,
    wallet_id: Seq<char>,
    item_id: i64,
    tags: Seq<TagView>,
)
    requires
        tables.now.has_item(wallet_id, item_id),
    ensures
        tables.write_tags(wallet_id, item_id, tags, true).1 is None,
    decreases tags.len(),
{
    if tags.len() > 0 {
        let row = TagRow { wallet_id, item_id, tag: tags[0] };
        let next = tables.insert_tag(row, true).0;
        let i = choose|i: int|
            0 <= i < tables.now.items.len() && (#[trigger] tables.now.items[i]).wallet_id
                == wallet_id && tables.now.items[i].id == item_id;
        assert(next.now.items[i].wallet_id == wallet_id && next.now.items[i].id == item_id);
        upserts_succeed(next, wallet_id, item_id, tags.skip(1));
    }
}

/// `add` succeeds exactly when the item does not exist yet, no two of its
/// tags have the same variant and name, and an id is left for it.
pub proof fn add_succeeds_exactly_when(
    tables: TablesView,
    wallet_id: Seq<char>,
    type_: Seq<u8>,
    name: Seq<u8>,
    value: EncryptedValueView,
    tags: Seq<TagView>,
)
    requires
        tables.wf(),
    ensures
        tables.add(wallet_id, type_, name, value, tags).1 is Ok <==> tables.now.items_named(
            wallet_id,
            type_,
            name,
        ).len() == 0 && distinct_keys(tags) && tables.next_item_id < i64::MAX,
{
    let given = ItemRow { wallet_id, id: 0, type_, name, value: value.data, key: value.key };
    let (inserted, reply) = tables.begun().insert_item(given);
    assert(same_item(given) == (ItemFilter::Named { wallet_id, type_, name }));
    if reply is Rows {
        let item_id = tables.next_item_id;
        inserting_item_keeps_wf(tables.begun(), given);
        inserts_succeed_exactly_when(inserted, wallet_id, item_id, tags);
        assert forall|j: int| 0 <= j < tags.len() implies inserted.now.tag_named(
            wallet_id,
            item_id,
            tag_key(#[trigger] tags[j]),
        ) is None by {
            let asked = TagFilter::Named { wallet_id, item_id, name: tag_key(tags[j]) };
            assert forall|k: int| 0 <= k < inserted.now.tags.len() implies !#[trigger] (
            asked.chosen())(inserted.now.tags[k]) by {
                let tag = tables.now.tags[k];
                if asked.matches(tag) {
                    assert(tables.now.has_item(tag.wallet_id, tag.item_id));
                    let i = choose|i: int|
                        0 <= i < tables.now.items.len() && (
                        #[trigger] tables.now.items[i]).wallet_id == tag.wallet_id
                            && tables.now.items[i].id == tag.item_id;
                    assert(tables.now.items[i].id < tables.next_item_id);
                }
            }
            filter_is_empty(inserted.now.tags, asked.chosen());
        }
    }
}

/// `update_tags` succeeds exactly when the item exists and no two of the
/// new tags have the same variant and name.
pub proof fn update_tags_succeeds_exactly_when(
    tables: TablesView,
    wallet_id: Seq<char>,
    type_: Seq<u8>,
    name: Seq<u8>,
    tags: Seq<TagView>,
)
    ensures
        tables.set_tags(wallet_id, type_, name, tags, true).1 is Ok <==> tables.now.items_named(
            wallet_id,
            type_,
            name,
        ).len() > 0 && distinct_keys(tags),
{
    if tables.now.items_named(wallet_id, type_, name).len() > 0 {
        let item_id = tables.now.items_named(wallet_id, type_, name)[0].id;
        let encrypted = TagFilter::Item { wallet_id, item_id, encrypted: true };
        let plain = TagFilter::Item { wallet_id, item_id, encrypted: false };
        let first = tables.begun().delete_tags(encrypted).0;
        let cleared = first.delete_tags(plain).0;
        found_item_exists(tables, wallet_id, type_, name);
        let i = choose|i: int|
            0 <= i < tables.now.items.len() && (#[trigger] tables.now.items[i]).wallet_id
                == wallet_id && tables.now.items[i].id == item_id;
        assert(cleared.now.items[i].wallet_id == wallet_id && cleared.now.items[i].id == item_id);
        inserts_succeed_exactly_when(cleared, wallet_id, item_id, tags);
        assert forall|j: int| 0 <= j < tags.len() implies cleared.now.tag_named(
            wallet_id,
            item_id,
            tag_key(#[trigger] tags[j]),
        ) is None by {
            let asked = TagFilter::Named { wallet_id, item_id, name: tag_key(tags[j]) };
            assert forall|k: int| 0 <= k < cleared.now.tags.len() implies !#[trigger] (
            asked.chosen())(cleared.now.tags[k]) by {
                let tag = cleared.now.tags[k];
                first.now.tags.lemma_filter_pred(plain.spared(), k);
                assert(cleared.now.tags.contains(tag));
                first.now.tags.lemma_filter_contains_rev(plain.spared(), tag);
                let k0 = choose|k0: int| 0 <= k0 < first.now.tags.len() && first.now.tags[k0] == tag;
                tables.begun().now.tags.lemma_filter_pred(encrypted.spared(), k0);
            }
            filter_is_empty(cleared.now.tags, asked.chosen());
        }
    }
}

/// `add_tags` and `delete_tags` succeed exactly when the item exists.
pub proof fn tags_change_exactly_when_item_exists(
    tables: TablesView,
    wallet_id: Seq<char>,
    type_: Seq<u8>,
    name: Seq<u8>,
    tags: Seq<TagView>,
    names: Seq<TagNameView>,
)
    ensures
        tables.set_tags(wallet_id, type_, name, tags, false).1 is Ok <==> tables.now.items_named(
            wallet_id,
            type_,
            name,
        ).len() > 0,
        tables.remove_tags(wallet_id, type_, name, names).1 is Ok <==> tables.now.items_named(
            wallet_id,
            type_,
            name,
        ).len() > 0,
        tables.now.items_named(wallet_id, type_, name).len() == 0 ==> tables.set_tags(
            wallet_id,
            type_,
            name,
            tags,
            false,
        ).1 == Err::<(), WalletStorageErrorView>(WalletStorageErrorView::ItemNotFound)
            && tables.remove_tags(wallet_id, type_, name, names).1 == Err::<
            (),
            WalletStorageErrorView,
        >(WalletStorageErrorView::ItemNotFound),
{
    if tables.now.items_named(wallet_id, type_, name).len() > 0 {
        let item_id = tables.now.items_named(wallet_id, type_, name)[0].id;
        found_item_exists(tables, wallet_id, type_, name);
        let i = choose|i: int|
            0 <= i < tables.now.items.len() && (#[trigger] tables.now.items[i]).wallet_id
                == wallet_id && tables.now.items[i].id == item_id;
        assert(tables.begun().now.items[i].wallet_id == wallet_id
            && tables.begun().now.items[i].id == item_id);
        upserts_succeed(tables.begun(), wallet_id, item_id, tags);
    }
}

/// `update` and `delete` succeed exactly when the item exists, and are
/// `ItemNotFound` otherwise.
pub proof fn update_and_delete_succeed_exactly_when(
    tables: TablesView,
    wallet_id: Seq<char>,
    type_: Seq<u8>,
    name: Seq<u8>,
    value: EncryptedValueView,
)
    requires
        tables.wf(),
    ensures
        tables.update(wallet_id, type_, name, value).1 == if tables.now.items_named(
            wallet_id,
            type_,
            name,
        ).len() > 0 {
            Ok::<(), WalletStorageErrorView>(())
        } else {
            Err(WalletStorageErrorView::ItemNotFound)
        },
        tables.delete(wallet_id, type_, name).1 == tables.update(wallet_id, type_, name, value).1,
{
    let filter = ItemFilter::Named { wallet_id, type_, name };
    assert(tables.now.items.filter(filter.chosen()).len() <= 1);
}

/// After `update` has succeeded, `get` returns the new value.
pub proof fn update_then_get(
    tables: TablesView,
    wallet_id: Seq<char>,
    type_: Seq<u8>,
    name: Seq<u8>,
    value: EncryptedValueView,
    options: RecordOptions,
)
    requires
        options.retrieve_value,
        tables.update(wallet_id, type_, name, value).1 is Ok,
    ensures
        ({
            let found = tables.update(wallet_id, type_, name, value).0.get(
                wallet_id,
                type_,
                name,
                Document::Parsed(options),
            );
            &&& found is Ok
            &&& found->Ok_0.value == Some(value)
        }),
{
    let filter = ItemFilter::Named { wallet_id, type_, name };
    let change = revalued(filter, value.data, value.key);
    assert forall|row: ItemRow| #[trigger] (filter.chosen())(change(row)) == (filter.chosen())(
        row,
    ) by {}
    filter_of_changed(tables.now.items, change, filter.chosen());
    let found = tables.now.items.filter(filter.chosen());
    filter_first(tables.now.items, filter.chosen());
    assert(found.map_values(change)[0] == change(found[0]));
}

/// The tags that refer to the id of an item are the tags of the item in
/// its wallet: a scan, which finds the tags of a row by its id alone,
/// returns with each item its own tags.
pub proof fn tags_by_id_are_the_tags_of_the_item(tables: TablesView, index: int, encrypted: bool)
    requires
        tables.wf(),
        0 <= index < tables.now.items.len(),
    ensures
        ({
            let item = tables.now.items[index];
            tables.now.tags_by_id(item.id, encrypted) == tables.now.tags_of(
                item.wallet_id,
                item.id,
                encrypted,
            )
        }),
{
    let item = tables.now.items[index];
    let by_id = TagFilter::ItemById { item_id: item.id, encrypted };
    let of_item = TagFilter::Item { wallet_id: item.wallet_id, item_id: item.id, encrypted };
    assert forall|k: int| 0 <= k < tables.now.tags.len() implies #[trigger] (by_id.chosen())(
        tables.now.tags[k],
    ) == (of_item.chosen())(tables.now.tags[k]) by {
        let tag = tables.now.tags[k];
        if by_id.matches(tag) {
            assert(tables.now.has_item(tag.wallet_id, tag.item_id));
            let i = choose|i: int|
                0 <= i < tables.now.items.len() && (#[trigger] tables.now.items[i]).wallet_id
                    == tag.wallet_id && tables.now.items[i].id == tag.item_id;
            assert(tables.now.items.filter(with_id(item.id)).len() <= 1);
            only_one(tables.now.items, with_id(item.id), i, index);
        }
    }
    filter_alike(tables.now.tags, by_id.chosen(), of_item.chosen());
}

/// A wallet that was created can be opened and has the metadata that it
/// was created with. Creating it again, with whatever metadata, fails
/// with `AlreadyExists` and changes nothing: the wallet keeps its one
/// blob.
pub proof fn create_then_open(
    tables: TablesView,
    id: Seq<char>,
    config: Document<PostgresConfig>,
    credentials: Document<PostgresCredentials>,
    metadata: Seq<u8>,
    other: Seq<u8>,
)
    requires
        tables.saved is None,
        resolve_login(config, credentials) matches Some(login) && login.credentials.has_admin(),
        tables.create(id, config, credentials, metadata).1 is Ok,
    ensures
        ({
            let created = tables.create(id, config, credentials, metadata).0;
            &&& created.open(id, config, credentials).1 == Ok::<
                PostgresStorageView,
                WalletStorageErrorView,
            >(PostgresStorageView { wallet_id: id })
            &&& created.get_metadata(id) == Ok::<Seq<u8>, WalletStorageErrorView>(metadata)
            &&& created.create(id, config, credentials, other) == (
                created,
                Err::<(), WalletStorageErrorView>(WalletStorageErrorView::AlreadyExists),
            )
        }),
{
    let created = tables.create(id, config, credentials, metadata).0;
    let row = MetadataRow { wallet_id: id, id: tables.next_metadata_id, value: metadata };
    assert(created.now.metadata == tables.now.metadata.push(row));
    tables.now.metadata.lemma_filter_push(row, metadata_of(id));
    assert(created.now.metadata.filter(metadata_of(id)) =~= seq![row]);
}

/// Creating a wallet that has metadata fails with `AlreadyExists`,
/// whatever the new metadata is, and the tables hold what they held: the
/// wallet still has its one blob.
pub proof fn create_of_existing_fails(
    tables: TablesView,
    id: Seq<char>,
    config: Document<PostgresConfig>,
    credentials: Document<PostgresCredentials>,
    metadata: Seq<u8>,
)
    requires
        tables.saved is None,
        resolve_login(config, credentials) matches Some(login) && login.credentials.has_admin(),
        tables.now.metadata.filter(metadata_of(id)).len() > 0,
    ensures
        tables.create(id, config, credentials, metadata) == (
            tables,
            Err::<(), WalletStorageErrorView>(WalletStorageErrorView::AlreadyExists),
        ),
        tables.create(id, config, credentials, metadata).0.get_metadata(id) == tables.get_metadata(
            id,
        ),
{
}

/// A wallet has one blob of metadata, replaced in place: on tables that
/// meet the constraints, `set_storage_metadata` succeeds, and where the
/// wallet exists `get_storage_metadata` then returns the new blob. It
/// creates no row: a wallet without metadata has none afterwards.
pub proof fn set_then_get_metadata(tables: TablesView, id: Seq<char>, metadata: Seq<u8>)
    requires
        tables.wf(),
    ensures
        tables.set_metadata(id, metadata).1 is Ok,
        tables.set_metadata(id, metadata).0.get_metadata(id) == if tables.get_metadata(id) is Ok {
            Ok::<Seq<u8>, WalletStorageErrorView>(metadata)
        } else {
            Err(WalletStorageErrorView::ItemNotFound)
        },
        tables.set_metadata(id, metadata).0.now.metadata.len() == tables.now.metadata.len(),
{
    let change = replaced(id, metadata);
    let found = tables.now.metadata.filter(metadata_of(id));
    assert(found.len() <= 1);
    assert forall|row: MetadataRow| #[trigger] (metadata_of(id))(change(row)) == (metadata_of(id))(
        row,
    ) by {}
    filter_of_changed(tables.now.metadata, change, metadata_of(id));
    if found.len() > 0 {
        filter_first(tables.now.metadata, metadata_of(id));
        assert(found.map_values(change)[0] == change(found[0]));
    }
}

/// Creating a wallet without the administrative login reports success and
/// provisions nothing: the tables hold what they held, and a wallet that
/// could not be opened before cannot be opened after.
pub proof fn create_without_admin_provisions_nothing(
    tables: TablesView,
    id: Seq<char>,
    config: Document<PostgresConfig>,
    credentials: Document<PostgresCredentials>,
    metadata: Seq<u8>,
)
    requires
        resolve_login(config, credentials) matches Some(login) && !login.credentials.has_admin(),
    ensures
        tables.create(id, config, credentials, metadata) == (
            tables,
            Ok::<(), WalletStorageErrorView>(()),
        ),
        tables.create(id, config, credentials, metadata).0.open(id, config, credentials).1
            == tables.open(id, config, credentials).1,
{
}

/// A wallet that was deleted cannot be opened: it is `NotFound`.
pub proof fn delete_then_open(
    tables: TablesView,
    id: Seq<char>,
    config: Document<PostgresConfig>,
    credentials: Document<PostgresCredentials>,
)
    requires
        resolve_login(config, credentials) matches Some(login) && login.credentials.has_admin(),
    ensures
        tables.delete_wallet(id, config, credentials).0.open(id, config, credentials).1 == Err::<
            PostgresStorageView,
            WalletStorageErrorView,
        >(WalletStorageErrorView::NotFound),
{
    let deleted = tables.delete_wallet(id, config, credentials).0;
    let before = tables.begun().delete_tags(TagFilter::Wallet { wallet_id: id, encrypted: false }).0
        .delete_tags(TagFilter::Wallet { wallet_id: id, encrypted: true }).0.delete_items(
        ItemFilter::Wallet { wallet_id: id },
    ).0;
    assert(deleted.now.metadata == before.now.metadata.filter(metadata_beside(id)));
    filter_without(before.now.metadata, metadata_beside(id), metadata_of(id));
}

} // verus!
