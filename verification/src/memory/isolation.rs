//! The rows of a wallet are its own: what is done to one wallet changes
//! nothing of another.

use vstd::prelude::*;
use crate::memory::model::{
    retagged,
    revalued,
    same_tag,
    Contents,
    ItemFilter,
    ItemRow,
    TablesView,
    TagFilter,
    TagRow,
};
use crate::memory::sequences::{filter_of_changed, filter_within, unchanged};
use crate::memory::session::SessionView;
use crate::memory::writes::write_tags_keeps_the_rest;
use crate::options::{Document, RecordOptions, SearchOptions};
use crate::record::{EncryptedValueView, TagNameView, TagView};

verus! {

/// The tags of a wallet, of both variants.
pub open spec fn tags_in(wallet_id: Seq<char>) -> spec_fn(TagRow) -> bool {
    |row: TagRow| row.wallet_id == wallet_id
}

impl Contents {
    /// Whether two contents hold the same items and tags of a wallet.
    pub open spec fn same_wallet(self, other: Contents, wallet_id: Seq<char>) -> bool {
        &&& self.items.filter(ItemFilter::Wallet { wallet_id }.chosen()) == other.items.filter(
            ItemFilter::Wallet { wallet_id }.chosen(),
        )
        &&& self.tags.filter(tags_in(wallet_id)) == other.tags.filter(tags_in(wallet_id))
    }
}

/// What `get` returns depends on the items and tags of its wallet alone.
pub proof fn get_reads_its_wallet(
    one: TablesView,
    other: TablesView,
    wallet_id: Seq<char>,
    type_: Seq<u8>,
    name: Seq<u8>,
    options: Document<RecordOptions>,
)
    requires
        one.now.same_wallet(other.now, wallet_id),
    ensures
        one.get(wallet_id, type_, name, options) == other.get(wallet_id, type_, name, options),
{
    let wallet = ItemFilter::Wallet { wallet_id };
    let named = ItemFilter::Named { wallet_id, type_, name };
    filter_within(one.now.items, wallet.chosen(), named.chosen());
    filter_within(other.now.items, wallet.chosen(), named.chosen());
    let found = one.now.items_named(wallet_id, type_, name);
    assert(found == other.now.items_named(wallet_id, type_, name));
    if found.len() > 0 {
        let encrypted = TagFilter::Item { wallet_id, item_id: found[0].id, encrypted: true };
        let plain = TagFilter::Item { wallet_id, item_id: found[0].id, encrypted: false };
        filter_within(one.now.tags, tags_in(wallet_id), encrypted.chosen());
        filter_within(other.now.tags, tags_in(wallet_id), encrypted.chosen());
        filter_within(one.now.tags, tags_in(wallet_id), plain.chosen());
        filter_within(other.now.tags, tags_in(wallet_id), plain.chosen());
    }
}

/// What `search` matches depends on the items of its wallet alone: a
/// search on one wallet neither streams nor counts an item of another.
pub proof fn search_reads_its_wallet(
    one: SessionView,
    other: SessionView,
    wallet_id: Seq<char>,
    type_: Seq<u8>,
    options: Document<SearchOptions>,
)
    requires
        one.now().same_wallet(other.now(), wallet_id),
    ensures
        one.tables.matching(wallet_id, type_) == other.tables.matching(wallet_id, type_),
        one.search(wallet_id, type_, options).1 == other.search(wallet_id, type_, options).1,
        one.search(wallet_id, type_, options).1 is Ok && SearchOptions::resolve(
            options,
        )->Some_0.retrieve_records ==> one.search(wallet_id, type_, options).0.cursor
            == other.search(wallet_id, type_, options).0.cursor,
        forall|i: int|
            0 <= i < one.tables.matching(wallet_id, type_).len() ==> (
            #[trigger] one.tables.matching(wallet_id, type_)[i]).wallet_id == wallet_id,
{
    let wallet = ItemFilter::Wallet { wallet_id };
    let typed = ItemFilter::Typed { wallet_id, type_ };
    filter_within(one.tables.now.items, wallet.chosen(), typed.chosen());
    filter_within(other.tables.now.items, wallet.chosen(), typed.chosen());
    assert forall|i: int| 0 <= i < one.tables.matching(wallet_id, type_).len() implies (
    #[trigger] one.tables.matching(wallet_id, type_)[i]).wallet_id == wallet_id by {
        one.tables.now.items.lemma_filter_pred(typed.chosen(), i);
    }
}

/// Inserting a tag of one wallet changes nothing of another.
proof fn tag_of_other_wallet(tables: TablesView, row: TagRow, upsert: bool, wallet_id: Seq<char>)
    requires
        row.wallet_id != wallet_id,
    ensures
        tables.insert_tag(row, upsert).0.now.same_wallet(tables.now, wallet_id),
{
    if tables.now.tags.filter(same_tag(row).chosen()).len() > 0 {
        if upsert {
            let change = retagged(row);
            assert forall|old: TagRow| #[trigger] (tags_in(wallet_id))(change(old)) == (tags_in(
                wallet_id,
            ))(old) by {}
            filter_of_changed(tables.now.tags, change, tags_in(wallet_id));
            let kept = tables.now.tags.filter(tags_in(wallet_id));
            assert forall|i: int| 0 <= i < kept.len() implies #[trigger] change(kept[i])
                == kept[i] by {
                tables.now.tags.lemma_filter_pred(tags_in(wallet_id), i);
            }
            unchanged(kept, change);
        }
    } else {
        tables.now.tags.lemma_filter_push(row, tags_in(wallet_id));
    }
}

/// Writing the tags of an item of one wallet changes nothing of another.
proof fn tags_of_other_wallet(
    tables: TablesView,
    other: Seq<char>,
    item_id: i64,
    tags: Seq<TagView>,
    upsert: bool,
    wallet_id: Seq<char>,
)
    requires
        other != wallet_id,
    ensures
        tables.write_tags(other, item_id, tags, upsert).0.now.same_wallet(tables.now, wallet_id),
    decreases tags.len(),
{
    if tags.len() > 0 {
        let row = TagRow { wallet_id: other, item_id, tag: tags[0] };
        let (next, reply) = tables.insert_tag(row, upsert);
        tag_of_other_wallet(tables, row, upsert, wallet_id);
        if reply is Affected {
            tags_of_other_wallet(next, other, item_id, tags.skip(1), upsert, wallet_id);
        }
    }
}

/// Deleting tags of one wallet changes nothing of another.
proof fn dropped_tags_of_other_wallet(tables: TablesView, filter: TagFilter, wallet_id: Seq<char>)
    requires
        forall|row: TagRow| filter.matches(row) ==> row.wallet_id != wallet_id,
    ensures
        tables.delete_tags(filter).0.now.same_wallet(tables.now, wallet_id),
{
    assert forall|row: TagRow| #[trigger] (tags_in(wallet_id))(row) implies (filter.spared())(
        row,
    ) by {}
    filter_within(tables.now.tags, filter.spared(), tags_in(wallet_id));
}

/// Deleting the named tags of an item of one wallet changes nothing of
/// another.
proof fn erased_tags_of_other_wallet(
    tables: TablesView,
    other: Seq<char>,
    item_id: i64,
    names: Seq<TagNameView>,
    wallet_id: Seq<char>,
)
    requires
        other != wallet_id,
    ensures
        tables.erase_tags(other, item_id, names).now.same_wallet(tables.now, wallet_id),
    decreases names.len(),
{
    if names.len() > 0 {
        let filter = TagFilter::Named { wallet_id: other, item_id, name: names[0] };
        dropped_tags_of_other_wallet(tables, filter, wallet_id);
        erased_tags_of_other_wallet(
            tables.delete_tags(filter).0,
            other,
            item_id,
            names.skip(1),
            wallet_id,
        );
    }
}

/// The operations on the items of one wallet change nothing of another:
/// what `get` returns of the other wallet is what it returned before.
pub proof fn wallets_are_isolated(
    tables: TablesView,
    acting: Seq<char>,
    type_: Seq<u8>,
    name: Seq<u8>,
    value: EncryptedValueView,
    tags: Seq<TagView>,
    names: Seq<TagNameView>,
    wallet_id: Seq<char>,
)
    requires
        tables.saved is None,
        acting != wallet_id,
    ensures
        tables.add(acting, type_, name, value, tags).0.now.same_wallet(tables.now, wallet_id),
        tables.update(acting, type_, name, value).0.now.same_wallet(tables.now, wallet_id),
        tables.delete(acting, type_, name).0.now.same_wallet(tables.now, wallet_id),
        tables.set_tags(acting, type_, name, tags, false).0.now.same_wallet(tables.now, wallet_id),
        tables.set_tags(acting, type_, name, tags, true).0.now.same_wallet(tables.now, wallet_id),
        tables.remove_tags(acting, type_, name, names).0.now.same_wallet(tables.now, wallet_id),
{
    let wallet = ItemFilter::Wallet { wallet_id };
    let named = ItemFilter::Named { wallet_id: acting, type_, name };
    let begun = tables.begun();
    // add
    let given = ItemRow { wallet_id: acting, id: 0, type_, name, value: value.data, key: value.key };
    let (inserted, reply) = begun.insert_item(given);
    if reply is Rows {
        let row = ItemRow { id: tables.next_item_id, ..given };
        tables.now.items.lemma_filter_push(row, wallet.chosen());
        assert(inserted.now.same_wallet(tables.now, wallet_id));
        tags_of_other_wallet(inserted, acting, tables.next_item_id, tags, false, wallet_id);
        write_tags_keeps_the_rest(inserted, acting, tables.next_item_id, tags, false);
    }
    // update
    let change = revalued(named, value.data, value.key);
    assert forall|row: ItemRow| #[trigger] (wallet.chosen())(change(row)) == (wallet.chosen())(
        row,
    ) by {}
    filter_of_changed(tables.now.items, change, wallet.chosen());
    let kept = tables.now.items.filter(wallet.chosen());
    assert forall|i: int| 0 <= i < kept.len() implies #[trigger] change(kept[i]) == kept[i] by {
        tables.now.items.lemma_filter_pred(wallet.chosen(), i);
    }
    unchanged(kept, change);
    // delete
    assert forall|row: ItemRow| #[trigger] (wallet.chosen())(row) implies (named.spared())(
        row,
    ) by {}
    filter_within(tables.now.items, named.spared(), wallet.chosen());
    assert forall|row: TagRow| #[trigger] (tags_in(wallet_id))(row) implies (tables.now.unreferred(
        named,
    ))(row) by {}
    filter_within(tables.now.tags, tables.now.unreferred(named), tags_in(wallet_id));
    // the tags of an item
    if tables.now.items_named(acting, type_, name).len() > 0 {
        let item_id = tables.now.items_named(acting, type_, name)[0].id;
        let encrypted = TagFilter::Item { wallet_id: acting, item_id, encrypted: true };
        let plain = TagFilter::Item { wallet_id: acting, item_id, encrypted: false };
        tags_of_other_wallet(begun, acting, item_id, tags, true, wallet_id);
        write_tags_keeps_the_rest(begun, acting, item_id, tags, true);
        dropped_tags_of_other_wallet(begun, encrypted, wallet_id);
        let first = begun.delete_tags(encrypted).0;
        dropped_tags_of_other_wallet(first, plain, wallet_id);
        let cleared = first.delete_tags(plain).0;
        assert(cleared.now.same_wallet(tables.now, wallet_id));
        tags_of_other_wallet(cleared, acting, item_id, tags, false, wallet_id);
        write_tags_keeps_the_rest(cleared, acting, item_id, tags, false);
        erased_tags_of_other_wallet(begun, acting, item_id, names, wallet_id);
    }
}

} // verus!
