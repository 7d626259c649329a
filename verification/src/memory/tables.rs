//! Tables in memory that do what the model says: a backend without input
//! and output, for running the engine where no database is at hand.

use vstd::prelude::*;
use crate::bytes::{copy_bytes, copy_text, same_bytes, same_text};
use crate::error::{unique_violation, BackendError, BackendErrorView};
use crate::memory::model::{
    blob_columns,
    count_value,
    given_item,
    given_metadata,
    given_replacement,
    given_tag,
    given_update,
    id_columns,
    item_columns,
    metadata_beside,
    metadata_columns,
    metadata_of,
    named_item,
    named_tag,
    named_tags,
    named_wallet,
    replaced,
    retagged,
    revalued,
    row_count,
    same_item,
    same_tag,
    tag_columns,
    tag_columns_of,
    tag_name,
    typed_item,
    unsupported,
    value_columns,
    violation,
    wallet_columns,
    Contents,
    ItemColumns,
    ItemFilter,
    ItemRow,
    MetadataRow,
    TablesView,
    TagFilter,
    TagRow,
};
use crate::protocol::{deep_view_push, Reply, ReplyView, Request, Sql, SqlValue, SqlValueView};
use crate::record::{Tag, TagNameView};
use crate::statement::Statement;

verus! {

/// A stored item.
pub struct ItemRecord {
    pub wallet_id: String,
    pub id: i64,
    pub type_: Vec<u8>,
    pub name: Vec<u8>,
    pub value: Vec<u8>,
    pub key: Vec<u8>,
}

impl DeepView for ItemRecord {
    type V = ItemRow;

    open spec fn deep_view(&self) -> ItemRow {
        ItemRow {
            wallet_id: self.wallet_id@,
            id: self.id,
            type_: self.type_@,
            name: self.name@,
            value: self.value@,
            key: self.key@,
        }
    }
}

/// A stored tag.
pub struct TagRecord {
    pub wallet_id: String,
    pub item_id: i64,
    pub tag: Tag,
}

impl DeepView for TagRecord {
    type V = TagRow;

    open spec fn deep_view(&self) -> TagRow {
        TagRow { wallet_id: self.wallet_id@, item_id: self.item_id, tag: self.tag@ }
    }
}

/// A stored row of metadata.
pub struct MetadataRecord {
    pub wallet_id: String,
    pub id: i64,
    pub value: Vec<u8>,
}

impl DeepView for MetadataRecord {
    type V = MetadataRow;

    open spec fn deep_view(&self) -> MetadataRow {
        MetadataRow { wallet_id: self.wallet_id@, id: self.id, value: self.value@ }
    }
}

impl ItemRecord {
    fn duplicate(&self) -> (copy: ItemRecord)
        ensures
            copy.deep_view() == self.deep_view(),
    {
        ItemRecord {
            wallet_id: copy_text(self.wallet_id.as_str()),
            id: self.id,
            type_: copy_bytes(self.type_.as_slice()),
            name: copy_bytes(self.name.as_slice()),
            value: copy_bytes(self.value.as_slice()),
            key: copy_bytes(self.key.as_slice()),
        }
    }
}

impl TagRecord {
    fn duplicate(&self) -> (copy: TagRecord)
        ensures
            copy.deep_view() == self.deep_view(),
    {
        TagRecord {
            wallet_id: copy_text(self.wallet_id.as_str()),
            item_id: self.item_id,
            tag: self.tag.duplicate(),
        }
    }
}

impl MetadataRecord {
    fn duplicate(&self) -> (copy: MetadataRecord)
        ensures
            copy.deep_view() == self.deep_view(),
    {
        MetadataRecord {
            wallet_id: copy_text(self.wallet_id.as_str()),
            id: self.id,
            value: copy_bytes(self.value.as_slice()),
        }
    }
}

/// The rows of the three kinds, as the tables hold them.
pub struct Stored {
    pub metadata: Vec<MetadataRecord>,
    pub items: Vec<ItemRecord>,
    pub tags: Vec<TagRecord>,
}

impl DeepView for Stored {
    type V = Contents;

    open spec fn deep_view(&self) -> Contents {
        Contents {
            metadata: self.metadata.deep_view(),
            items: self.items.deep_view(),
            tags: self.tags.deep_view(),
        }
    }
}

/// Tables in memory.
pub struct Tables {
    pub now: Stored,
    pub saved: Option<Stored>,
    pub next_item_id: i64,
    pub next_metadata_id: i64,
}

impl View for Tables {
    type V = TablesView;

    open spec fn view(&self) -> TablesView {
        TablesView {
            now: self.now.deep_view(),
            saved: self.saved.deep_view(),
            next_item_id: self.next_item_id,
            next_metadata_id: self.next_metadata_id,
        }
    }
}

/// The part of a sequence before `i + 1` that a filter keeps, from the part
/// before `i` that it keeps.
pub proof fn filter_next<A>(rows: Seq<A>, keep: spec_fn(A) -> bool, i: int)
    requires
        0 <= i < rows.len(),
    ensures
        rows.take(i + 1).filter(keep) == if keep(rows[i]) {
            rows.take(i).filter(keep).push(rows[i])
        } else {
            rows.take(i).filter(keep)
        },
{
    assert(rows.take(i + 1) =~= rows.take(i).push(rows[i]));
    rows.take(i).lemma_filter_push(rows[i], keep);
}

/// The part of a sequence before `i + 1` with a function applied, from the
/// part before `i`.
pub proof fn map_next<A, B>(rows: Seq<A>, change: spec_fn(A) -> B, i: int)
    requires
        0 <= i < rows.len(),
    ensures
        rows.take(i + 1).map_values(change) == rows.take(i).map_values(change).push(
            change(rows[i]),
        ),
{
    assert(rows.take(i + 1) =~= rows.take(i).push(rows[i]));
    assert(rows.take(i + 1).map_values(change) =~= rows.take(i).map_values(change).push(
        change(rows[i]),
    ));
}

/// Which rows of the items a statement means, with borrowed parameters.
pub enum ItemSelector<'a> {
    Named { wallet_id: &'a str, type_: &'a [u8], name: &'a [u8] },
    Wallet { wallet_id: &'a str },
    Typed { wallet_id: &'a str, type_: &'a [u8] },
}

impl<'a> View for ItemSelector<'a> {
    type V = ItemFilter;

    open spec fn view(&self) -> ItemFilter {
        match *self {
            ItemSelector::Named { wallet_id, type_, name } => ItemFilter::Named {
                wallet_id: wallet_id@,
                type_: type_@,
                name: name@,
            },
            ItemSelector::Wallet { wallet_id } => ItemFilter::Wallet { wallet_id: wallet_id@ },
            ItemSelector::Typed { wallet_id, type_ } => ItemFilter::Typed {
                wallet_id: wallet_id@,
                type_: type_@,
            },
        }
    }
}

impl<'a> ItemSelector<'a> {
    fn matches(&self, row: &ItemRecord) -> (yes: bool)
        ensures
            yes == self@.matches(row.deep_view()),
    {
        match self {
            ItemSelector::Named { wallet_id, type_, name } => same_text(
                row.wallet_id.as_str(),
                wallet_id,
            ) && same_bytes(row.type_.as_slice(), type_) && same_bytes(row.name.as_slice(), name),
            ItemSelector::Wallet { wallet_id } => same_text(row.wallet_id.as_str(), wallet_id),
            ItemSelector::Typed { wallet_id, type_ } => same_text(
                row.wallet_id.as_str(),
                wallet_id,
            ) && same_bytes(row.type_.as_slice(), type_),
        }
    }
}

/// Which rows of the tags a statement means, with borrowed parameters.
pub enum TagSelector<'a> {
    Item { wallet_id: &'a str, item_id: i64, encrypted: bool },
    ItemById { item_id: i64, encrypted: bool },
    Named { wallet_id: &'a str, item_id: i64, encrypted: bool, name: &'a [u8] },
    Wallet { wallet_id: &'a str, encrypted: bool },
}

impl<'a> View for TagSelector<'a> {
    type V = TagFilter;

    open spec fn view(&self) -> TagFilter {
        match *self {
            TagSelector::Item { wallet_id, item_id, encrypted } => TagFilter::Item {
                wallet_id: wallet_id@,
                item_id,
                encrypted,
            },
            TagSelector::ItemById { item_id, encrypted } => TagFilter::ItemById {
                item_id,
                encrypted,
            },
            TagSelector::Named { wallet_id, item_id, encrypted, name } => TagFilter::Named {
                wallet_id: wallet_id@,
                item_id,
                name: if encrypted {
                    TagNameView::OfEncrypted(name@)
                } else {
                    TagNameView::OfPlain(name@)
                },
            },
            TagSelector::Wallet { wallet_id, encrypted } => TagFilter::Wallet {
                wallet_id: wallet_id@,
                encrypted,
            },
        }
    }
}

fn is_encrypted(tag: &Tag) -> (yes: bool)
    ensures
        yes == (tag@ is Encrypted),
{
    match tag {
        Tag::Encrypted(_, _) => true,
        Tag::PlainText(_, _) => false,
    }
}

fn name_of(tag: &Tag) -> (name: &Vec<u8>)
    ensures
        name@ == tag_name(tag@),
{
    match tag {
        Tag::Encrypted(name, _) => name,
        Tag::PlainText(name, _) => name,
    }
}

impl<'a> TagSelector<'a> {
    fn matches(&self, row: &TagRecord) -> (yes: bool)
        ensures
            yes == self@.matches(row.deep_view()),
    {
        match self {
            TagSelector::Item { wallet_id, item_id, encrypted } => same_text(
                row.wallet_id.as_str(),
                wallet_id,
            ) && row.item_id == *item_id && is_encrypted(&row.tag) == *encrypted,
            TagSelector::ItemById { item_id, encrypted } => row.item_id == *item_id
                && is_encrypted(&row.tag) == *encrypted,
            TagSelector::Named { wallet_id, item_id, encrypted, name } => same_text(
                row.wallet_id.as_str(),
                wallet_id,
            ) && row.item_id == *item_id && is_encrypted(&row.tag) == *encrypted && same_bytes(
                name_of(&row.tag).as_slice(),
                name,
            ),
            TagSelector::Wallet { wallet_id, encrypted } => same_text(
                row.wallet_id.as_str(),
                wallet_id,
            ) && is_encrypted(&row.tag) == *encrypted,
        }
    }
}

impl ItemColumns {
    fn row(&self, item: &ItemRecord) -> (row: Vec<SqlValue>)
        ensures
            row.deep_view() == (self.of())(item.deep_view()),
    {
        let mut row: Vec<SqlValue> = Vec::new();
        row.push(SqlValue::Int(item.id));
        match self {
            ItemColumns::Id => {
                assert(row.deep_view() =~= id_columns(item.deep_view()));
            },
            ItemColumns::Value => {
                row.push(SqlValue::bytes(item.value.as_slice()));
                row.push(SqlValue::bytes(item.key.as_slice()));
                assert(row.deep_view() =~= value_columns(item.deep_view()));
            },
            ItemColumns::All => {
                row.push(SqlValue::bytes(item.name.as_slice()));
                row.push(SqlValue::bytes(item.value.as_slice()));
                row.push(SqlValue::bytes(item.key.as_slice()));
                row.push(SqlValue::bytes(item.type_.as_slice()));
                assert(row.deep_view() =~= item_columns(item.deep_view()));
            },
        }
        row
    }
}

fn tag_row(tag: &TagRecord) -> (row: Vec<SqlValue>)
    ensures
        row.deep_view() == tag_columns(tag.deep_view()),
{
    let mut row: Vec<SqlValue> = Vec::new();
    match &tag.tag {
        Tag::Encrypted(name, value) => {
            row.push(SqlValue::bytes(name.as_slice()));
            row.push(SqlValue::bytes(value.as_slice()));
            assert(row.deep_view() =~= tag_columns(tag.deep_view()));
        },
        Tag::PlainText(name, value) => {
            row.push(SqlValue::bytes(name.as_slice()));
            row.push(SqlValue::text(value.as_str()));
            assert(row.deep_view() =~= tag_columns(tag.deep_view()));
        },
    }
    row
}

impl Stored {
    fn new() -> (stored: Stored)
        ensures
            stored.deep_view() == Contents::empty(),
    {
        let stored = Stored { metadata: Vec::new(), items: Vec::new(), tags: Vec::new() };
        assert(stored.metadata.deep_view() =~= Seq::empty());
        assert(stored.items.deep_view() =~= Seq::empty());
        assert(stored.tags.deep_view() =~= Seq::empty());
        stored
    }

    fn duplicate(&self) -> (copy: Stored)
        ensures
            copy.deep_view() == self.deep_view(),
    {
        let mut metadata: Vec<MetadataRecord> = Vec::new();
        let mut i: usize = 0;
        while i < self.metadata.len()
            invariant
                i <= self.metadata.len(),
                metadata.len() == i,
                forall|k: int|
                    0 <= k < i ==> metadata@[k].deep_view() == self.metadata@[k].deep_view(),
            decreases self.metadata.len() - i,
        {
            metadata.push(self.metadata[i].duplicate());
            i += 1;
        }
        let mut items: Vec<ItemRecord> = Vec::new();
        let mut i: usize = 0;
        while i < self.items.len()
            invariant
                i <= self.items.len(),
                items.len() == i,
                forall|k: int| 0 <= k < i ==> items@[k].deep_view() == self.items@[k].deep_view(),
            decreases self.items.len() - i,
        {
            items.push(self.items[i].duplicate());
            i += 1;
        }
        let mut tags: Vec<TagRecord> = Vec::new();
        let mut i: usize = 0;
        while i < self.tags.len()
            invariant
                i <= self.tags.len(),
                tags.len() == i,
                forall|k: int| 0 <= k < i ==> tags@[k].deep_view() == self.tags@[k].deep_view(),
            decreases self.tags.len() - i,
        {
            tags.push(self.tags[i].duplicate());
            i += 1;
        }
        assert(metadata.deep_view() =~= self.metadata.deep_view());
        assert(items.deep_view() =~= self.items.deep_view());
        assert(tags.deep_view() =~= self.tags.deep_view());
        Stored { metadata, items, tags }
    }

    /// The rows of the items that `selector` means, with these columns.
    fn select_items(&self, selector: &ItemSelector, columns: ItemColumns) -> (rows: Vec<
        Vec<SqlValue>,
    >)
        ensures
            rows.deep_view() == self.deep_view().items.filter(selector@.chosen()).map_values(
                columns.of(),
            ),
    {
        let ghost all = self.items.deep_view();
        let mut rows: Vec<Vec<SqlValue>> = Vec::new();
        let mut i: usize = 0;
        assert(all.take(0).filter(selector@.chosen()) =~= Seq::empty());
        assert(rows.deep_view() =~= all.take(0).filter(selector@.chosen()).map_values(
            columns.of(),
        ));
        while i < self.items.len()
            invariant
                i <= self.items.len(),
                all == self.items.deep_view(),
                rows.deep_view() == all.take(i as int).filter(selector@.chosen()).map_values(
                    columns.of(),
                ),
            decreases self.items.len() - i,
        {
            proof {
                filter_next(all, selector@.chosen(), i as int);
            }
            if selector.matches(&self.items[i]) {
                let ghost before = rows;
                let row = columns.row(&self.items[i]);
                rows.push(row);
                proof {
                    deep_view_push(before, rows, row);
                    let kept = all.take(i as int).filter(selector@.chosen());
                    assert(kept.push(all[i as int]).map_values(columns.of()) =~= kept.map_values(
                        columns.of(),
                    ).push((columns.of())(all[i as int])));
                }
            }
            i += 1;
        }
        assert(all.take(self.items.len() as int) == all);
        rows
    }

    /// Whether an item of a wallet with this id exists.
    fn has_item(&self, wallet_id: &str, id: i64) -> (yes: bool)
        ensures
            yes == self.deep_view().has_item(wallet_id@, id),
    {
        let mut i: usize = 0;
        while i < self.items.len()
            invariant
                i <= self.items.len(),
                forall|k: int|
                    0 <= k < i ==> !((#[trigger] self.items.deep_view()[k]).wallet_id
                        == wallet_id@ && self.items.deep_view()[k].id == id),
            decreases self.items.len() - i,
        {
            if same_text(self.items[i].wallet_id.as_str(), wallet_id) && self.items[i].id == id {
                assert(self.deep_view().items[i as int].wallet_id == wallet_id@
                    && self.deep_view().items[i as int].id == id);
                return true;
            }
            i += 1;
        }
        false
    }

    /// The rows of the tags that `selector` means.
    fn select_tags(&self, selector: &TagSelector) -> (rows: Vec<Vec<SqlValue>>)
        ensures
            rows.deep_view() == self.deep_view().tags.filter(selector@.chosen()).map_values(
                tag_columns_of(),
            ),
    {
        let ghost all = self.tags.deep_view();
        let ghost columns = tag_columns_of();
        let mut rows: Vec<Vec<SqlValue>> = Vec::new();
        let mut i: usize = 0;
        assert(all.take(0).filter(selector@.chosen()) =~= Seq::empty());
        assert(rows.deep_view() =~= all.take(0).filter(selector@.chosen()).map_values(columns));
        while i < self.tags.len()
            invariant
                i <= self.tags.len(),
                all == self.tags.deep_view(),
                columns == tag_columns_of(),
                rows.deep_view() == all.take(i as int).filter(selector@.chosen()).map_values(
                    columns,
                ),
            decreases self.tags.len() - i,
        {
            proof {
                filter_next(all, selector@.chosen(), i as int);
            }
            if selector.matches(&self.tags[i]) {
                let ghost before = rows;
                let row = tag_row(&self.tags[i]);
                rows.push(row);
                proof {
                    deep_view_push(before, rows, row);
                    let kept = all.take(i as int).filter(selector@.chosen());
                    assert(kept.push(all[i as int]).map_values(columns) =~= kept.map_values(
                        columns,
                    ).push(columns(all[i as int])));
                }
            }
            i += 1;
        }
        assert(all.take(self.tags.len() as int) == all);
        rows
    }

    /// The rows of the metadata of a wallet, with the wallet or the value as
    /// their column.
    fn select_metadata(&self, wallet_id: &str, wallet_column: bool) -> (rows: Vec<Vec<SqlValue>>)
        ensures
            rows.deep_view() == self.deep_view().metadata.filter(
                metadata_of(wallet_id@),
            ).map_values(metadata_columns(wallet_column)),
    {
        let ghost all = self.metadata.deep_view();
        let ghost columns = metadata_columns(wallet_column);
        let mut rows: Vec<Vec<SqlValue>> = Vec::new();
        let mut i: usize = 0;
        assert(all.take(0).filter(metadata_of(wallet_id@)) =~= Seq::empty());
        assert(rows.deep_view() =~= all.take(0).filter(metadata_of(wallet_id@)).map_values(
            columns,
        ));
        while i < self.metadata.len()
            invariant
                i <= self.metadata.len(),
                all == self.metadata.deep_view(),
                columns == metadata_columns(wallet_column),
                rows.deep_view() == all.take(i as int).filter(metadata_of(wallet_id@)).map_values(
                    columns,
                ),
            decreases self.metadata.len() - i,
        {
            proof {
                filter_next(all, metadata_of(wallet_id@), i as int);
            }
            if same_text(self.metadata[i].wallet_id.as_str(), wallet_id) {
                let ghost before = rows;
                let mut row: Vec<SqlValue> = Vec::new();
                if wallet_column {
                    row.push(SqlValue::text(self.metadata[i].wallet_id.as_str()));
                    assert(row.deep_view() =~= wallet_columns(all[i as int]));
                } else {
                    row.push(SqlValue::bytes(self.metadata[i].value.as_slice()));
                    assert(row.deep_view() =~= blob_columns(all[i as int]));
                }
                rows.push(row);
                proof {
                    deep_view_push(before, rows, row);
                    let kept = all.take(i as int).filter(metadata_of(wallet_id@));
                    assert(kept.push(all[i as int]).map_values(columns) =~= kept.map_values(
                        columns,
                    ).push(columns(all[i as int])));
                }
            }
            i += 1;
        }
        assert(all.take(self.metadata.len() as int) == all);
        rows
    }

    /// Whether a row of metadata of a wallet has this value.
    fn has_metadata(&self, wallet_id: &str, value: &[u8]) -> (yes: bool)
        ensures
            yes == self.deep_view().has_metadata(wallet_id@, value@),
    {
        let mut i: usize = 0;
        while i < self.metadata.len()
            invariant
                i <= self.metadata.len(),
                forall|k: int|
                    0 <= k < i ==> !((#[trigger] self.deep_view().metadata[k]).wallet_id
                        == wallet_id@ && self.deep_view().metadata[k].value == value@),
            decreases self.metadata.len() - i,
        {
            if same_text(self.metadata[i].wallet_id.as_str(), wallet_id) && same_bytes(
                self.metadata[i].value.as_slice(),
                value,
            ) {
                assert(self.deep_view().metadata[i as int].wallet_id == wallet_id@
                    && self.deep_view().metadata[i as int].value == value@);
                return true;
            }
            i += 1;
        }
        false
    }

    /// Whether a tag row refers to one of the items that `selector` means.
    fn refers_to(&self, selector: &ItemSelector, row: &TagRecord) -> (yes: bool)
        ensures
            yes == self.deep_view().refers_to(selector@, row.deep_view()),
    {
        let mut i: usize = 0;
        while i < self.items.len()
            invariant
                i <= self.items.len(),
                forall|k: int|
                    0 <= k < i ==> !(selector@.matches(#[trigger] self.deep_view().items[k])
                        && self.deep_view().items[k].wallet_id == row.deep_view().wallet_id
                        && self.deep_view().items[k].id == row.deep_view().item_id),
            decreases self.items.len() - i,
        {
            if selector.matches(&self.items[i]) && same_text(
                self.items[i].wallet_id.as_str(),
                row.wallet_id.as_str(),
            ) && self.items[i].id == row.item_id {
                assert(selector@.matches(self.deep_view().items[i as int])
                    && self.deep_view().items[i as int].wallet_id == row.deep_view().wallet_id
                    && self.deep_view().items[i as int].id == row.deep_view().item_id);
                return true;
            }
            i += 1;
        }
        false
    }

    /// Deletes the items that `selector` means and the tags that refer to
    /// them, and returns the number of the items.
    fn delete_items(&mut self, selector: &ItemSelector) -> (count: usize)
        ensures
            final(self).deep_view() == old(self).deep_view().without_items(selector@),
            count == old(self).deep_view().items.filter(selector@.chosen()).len(),
    {
        let ghost before = self.deep_view();
        let mut tags: Vec<TagRecord> = Vec::new();
        let mut i: usize = 0;
        assert(before.tags.take(0).filter(before.unreferred(selector@)) =~= Seq::empty());
        assert(tags.deep_view() =~= Seq::<TagRow>::empty());
        while i < self.tags.len()
            invariant
                i <= self.tags.len(),
                before == self.deep_view(),
                tags.deep_view() == before.tags.take(i as int).filter(
                    before.unreferred(selector@),
                ),
            decreases self.tags.len() - i,
        {
            proof {
                filter_next(before.tags, before.unreferred(selector@), i as int);
            }
            if !self.refers_to(selector, &self.tags[i]) {
                let ghost kept = tags;
                let row = self.tags[i].duplicate();
                tags.push(row);
                proof {
                    deep_view_push(kept, tags, row);
                }
            }
            i += 1;
        }
        assert(before.tags.take(self.tags.len() as int) == before.tags);
        let mut items: Vec<ItemRecord> = Vec::new();
        let mut count: usize = 0;
        let mut i: usize = 0;
        assert(before.items.take(0).filter(selector@.spared()) =~= Seq::empty());
        assert(before.items.take(0).filter(selector@.chosen()) =~= Seq::empty());
        assert(items.deep_view() =~= Seq::<ItemRow>::empty());
        while i < self.items.len()
            invariant
                i <= self.items.len(),
                before == self.deep_view(),
                count <= i,
                count == before.items.take(i as int).filter(selector@.chosen()).len(),
                items.deep_view() == before.items.take(i as int).filter(selector@.spared()),
            decreases self.items.len() - i,
        {
            proof {
                filter_next(before.items, selector@.spared(), i as int);
                filter_next(before.items, selector@.chosen(), i as int);
            }
            if selector.matches(&self.items[i]) {
                count += 1;
            } else {
                let ghost kept = items;
                let row = self.items[i].duplicate();
                items.push(row);
                proof {
                    deep_view_push(kept, items, row);
                }
            }
            i += 1;
        }
        assert(before.items.take(self.items.len() as int) == before.items);
        self.items = items;
        self.tags = tags;
        count
    }

    /// Deletes the tags that `selector` means and returns their number.
    fn delete_tags(&mut self, selector: &TagSelector) -> (count: usize)
        ensures
            final(self).deep_view() == old(self).deep_view().without_tags(selector@),
            count == old(self).deep_view().tags.filter(selector@.chosen()).len(),
    {
        let ghost before = self.deep_view();
        let mut tags: Vec<TagRecord> = Vec::new();
        let mut count: usize = 0;
        let mut i: usize = 0;
        assert(before.tags.take(0).filter(selector@.spared()) =~= Seq::empty());
        assert(before.tags.take(0).filter(selector@.chosen()) =~= Seq::empty());
        assert(tags.deep_view() =~= Seq::<TagRow>::empty());
        while i < self.tags.len()
            invariant
                i <= self.tags.len(),
                before == self.deep_view(),
                count <= i,
                count == before.tags.take(i as int).filter(selector@.chosen()).len(),
                tags.deep_view() == before.tags.take(i as int).filter(selector@.spared()),
            decreases self.tags.len() - i,
        {
            proof {
                filter_next(before.tags, selector@.spared(), i as int);
                filter_next(before.tags, selector@.chosen(), i as int);
            }
            if selector.matches(&self.tags[i]) {
                count += 1;
            } else {
                let ghost kept = tags;
                let row = self.tags[i].duplicate();
                tags.push(row);
                proof {
                    deep_view_push(kept, tags, row);
                }
            }
            i += 1;
        }
        assert(before.tags.take(self.tags.len() as int) == before.tags);
        self.tags = tags;
        count
    }

    /// Deletes the rows of metadata of a wallet and returns their number.
    fn delete_metadata(&mut self, wallet_id: &str) -> (count: usize)
        ensures
            final(self).deep_view() == (Contents {
                metadata: old(self).deep_view().metadata.filter(metadata_beside(wallet_id@)),
                ..old(self).deep_view()
            }),
            count == old(self).deep_view().metadata.filter(metadata_of(wallet_id@)).len(),
    {
        let ghost before = self.deep_view();
        let mut metadata: Vec<MetadataRecord> = Vec::new();
        let mut count: usize = 0;
        let mut i: usize = 0;
        assert(before.metadata.take(0).filter(metadata_beside(wallet_id@)) =~= Seq::empty());
        assert(before.metadata.take(0).filter(metadata_of(wallet_id@)) =~= Seq::empty());
        assert(metadata.deep_view() =~= Seq::<MetadataRow>::empty());
        while i < self.metadata.len()
            invariant
                i <= self.metadata.len(),
                before == self.deep_view(),
                count <= i,
                count == before.metadata.take(i as int).filter(metadata_of(wallet_id@)).len(),
                metadata.deep_view() == before.metadata.take(i as int).filter(
                    metadata_beside(wallet_id@),
                ),
            decreases self.metadata.len() - i,
        {
            proof {
                filter_next(before.metadata, metadata_beside(wallet_id@), i as int);
                filter_next(before.metadata, metadata_of(wallet_id@), i as int);
            }
            if same_text(self.metadata[i].wallet_id.as_str(), wallet_id) {
                count += 1;
            } else {
                let ghost kept = metadata;
                let row = self.metadata[i].duplicate();
                metadata.push(row);
                proof {
                    deep_view_push(kept, metadata, row);
                }
            }
            i += 1;
        }
        assert(before.metadata.take(self.metadata.len() as int) == before.metadata);
        self.metadata = metadata;
        count
    }

    /// Gives the items that `selector` means a new value and key, and
    /// returns their number.
    fn update_items(&mut self, selector: &ItemSelector, value: &[u8], key: &[u8]) -> (count: usize)
        ensures
            final(self).deep_view() == old(self).deep_view().with_value(selector@, value@, key@),
            count == old(self).deep_view().items.filter(selector@.chosen()).len(),
    {
        let ghost before = self.deep_view();
        let ghost change = revalued(selector@, value@, key@);
        let mut items: Vec<ItemRecord> = Vec::new();
        let mut count: usize = 0;
        let mut i: usize = 0;
        assert(before.items.take(0).filter(selector@.chosen()) =~= Seq::empty());
        assert(items.deep_view() =~= before.items.take(0).map_values(change));
        while i < self.items.len()
            invariant
                i <= self.items.len(),
                before == self.deep_view(),
                change == revalued(selector@, value@, key@),
                count <= i,
                count == before.items.take(i as int).filter(selector@.chosen()).len(),
                items.deep_view() == before.items.take(i as int).map_values(change),
            decreases self.items.len() - i,
        {
            proof {
                filter_next(before.items, selector@.chosen(), i as int);
                map_next(before.items, change, i as int);
            }
            let ghost kept = items;
            let mut row = self.items[i].duplicate();
            if selector.matches(&self.items[i]) {
                count += 1;
                row.value = copy_bytes(value);
                row.key = copy_bytes(key);
            }
            items.push(row);
            proof {
                deep_view_push(kept, items, row);
            }
            i += 1;
        }
        assert(before.items.take(self.items.len() as int) == before.items);
        self.items = items;
        count
    }

    /// Puts `row` in the place of the tag rows with its key.
    fn replace_tag(&mut self, row: &TagRecord)
        ensures
            final(self).deep_view() == old(self).deep_view().with_tag_value(row.deep_view()),
    {
        let ghost before = self.deep_view();
        let ghost change = retagged(row.deep_view());
        let selector = TagSelector::Named {
            wallet_id: row.wallet_id.as_str(),
            item_id: row.item_id,
            encrypted: is_encrypted(&row.tag),
            name: name_of(&row.tag).as_slice(),
        };
        assert(selector@ == same_tag(row.deep_view()));
        let mut tags: Vec<TagRecord> = Vec::new();
        let mut i: usize = 0;
        assert(tags.deep_view() =~= before.tags.take(0).map_values(change));
        while i < self.tags.len()
            invariant
                i <= self.tags.len(),
                before == self.deep_view(),
                change == retagged(row.deep_view()),
                selector@ == same_tag(row.deep_view()),
                tags.deep_view() == before.tags.take(i as int).map_values(change),
            decreases self.tags.len() - i,
        {
            proof {
                map_next(before.tags, change, i as int);
            }
            let ghost kept = tags;
            let new = if selector.matches(&self.tags[i]) {
                row.duplicate()
            } else {
                self.tags[i].duplicate()
            };
            tags.push(new);
            proof {
                deep_view_push(kept, tags, new);
            }
            i += 1;
        }
        assert(before.tags.take(self.tags.len() as int) == before.tags);
        self.tags = tags;
    }

    /// Gives the rows of metadata of a wallet a new value.
    fn replace_metadata(&mut self, wallet_id: &str, value: &[u8])
        ensures
            final(self).deep_view() == old(self).deep_view().with_metadata(wallet_id@, value@),
    {
        let ghost before = self.deep_view();
        let ghost change = replaced(wallet_id@, value@);
        let mut metadata: Vec<MetadataRecord> = Vec::new();
        let mut i: usize = 0;
        assert(metadata.deep_view() =~= before.metadata.take(0).map_values(change));
        while i < self.metadata.len()
            invariant
                i <= self.metadata.len(),
                before == self.deep_view(),
                change == replaced(wallet_id@, value@),
                metadata.deep_view() == before.metadata.take(i as int).map_values(change),
            decreases self.metadata.len() - i,
        {
            proof {
                map_next(before.metadata, change, i as int);
            }
            let ghost kept = metadata;
            let mut row = self.metadata[i].duplicate();
            if same_text(self.metadata[i].wallet_id.as_str(), wallet_id) {
                row.value = copy_bytes(value);
            }
            metadata.push(row);
            proof {
                deep_view_push(kept, metadata, row);
            }
            i += 1;
        }
        assert(before.metadata.take(self.metadata.len() as int) == before.metadata);
        self.metadata = metadata;
    }
}

fn failed(code: Option<&str>, message: &str) -> (reply: Reply)
    ensures
        reply@ == ReplyView::Failed(
            BackendErrorView {
                code: match code {
                    Some(code) => Some(code@),
                    None => None,
                },
                message: message@,
            },
        ),
{
    let code = match code {
        Some(code) => Some(copy_text(code)),
        None => None,
    };
    Reply::Failed(BackendError::new(code, copy_text(message)))
}

fn refuse() -> (reply: Reply)
    ensures
        reply@ == unsupported(),
{
    failed(None, "the tables cannot carry out the request")
}

fn unique_violated() -> (reply: Reply)
    ensures
        reply@ == violation(unique_violation()),
{
    failed(Some("23505"), "the statement violates a constraint")
}

fn affected(count: usize) -> (reply: Reply)
    ensures
        reply@ == ReplyView::Affected(row_count(count as nat)),
{
    Reply::Affected(count as u64)
}

fn typed_of<'a>(params: &'a Vec<SqlValue>) -> (selector: Option<ItemSelector<'a>>)
    ensures
        match selector {
            Some(selector) => typed_item(params.deep_view()) == Some(selector@),
            None => typed_item(params.deep_view()) is None,
        },
{
    if params.len() != 2 {
        return None;
    }
    assert(params.deep_view()[0] == params@[0]@);
    assert(params.deep_view()[1] == params@[1]@);
    match (&params[0], &params[1]) {
        (SqlValue::Text(wallet_id), SqlValue::Bytes(type_)) => Some(
            ItemSelector::Typed { wallet_id: wallet_id.as_str(), type_: type_.as_slice() },
        ),
        _ => None,
    }
}

fn wallet_of(params: &Vec<SqlValue>) -> (wallet_id: Option<&str>)
    ensures
        match wallet_id {
            Some(wallet_id) => named_wallet(params.deep_view()) == Some(wallet_id@),
            None => named_wallet(params.deep_view()) is None,
        },
{
    if params.len() != 1 {
        return None;
    }
    assert(params.deep_view()[0] == params@[0]@);
    match &params[0] {
        SqlValue::Text(wallet_id) => Some(wallet_id.as_str()),
        _ => None,
    }
}

fn item_of<'a>(params: &'a Vec<SqlValue>) -> (selector: Option<ItemSelector<'a>>)
    ensures
        match selector {
            Some(selector) => named_item(params.deep_view()) == Some(selector@),
            None => named_item(params.deep_view()) is None,
        },
{
    if params.len() != 3 {
        return None;
    }
    assert(params.deep_view()[0] == params@[0]@);
    assert(params.deep_view()[1] == params@[1]@);
    assert(params.deep_view()[2] == params@[2]@);
    match (&params[0], &params[1], &params[2]) {
        (SqlValue::Text(wallet_id), SqlValue::Bytes(type_), SqlValue::Bytes(name)) => Some(
            ItemSelector::Named {
                wallet_id: wallet_id.as_str(),
                type_: type_.as_slice(),
                name: name.as_slice(),
            },
        ),
        _ => None,
    }
}

fn tags_of(params: &Vec<SqlValue>) -> (key: Option<(&str, i64)>)
    ensures
        match key {
            Some((wallet_id, item_id)) => named_tags(params.deep_view()) == Some(
                (wallet_id@, item_id),
            ),
            None => named_tags(params.deep_view()) is None,
        },
{
    if params.len() != 2 {
        return None;
    }
    assert(params.deep_view()[0] == params@[0]@);
    assert(params.deep_view()[1] == params@[1]@);
    match (&params[0], &params[1]) {
        (SqlValue::Text(wallet_id), SqlValue::Int(item_id)) => Some(
            (wallet_id.as_str(), *item_id),
        ),
        _ => None,
    }
}

fn tag_of(params: &Vec<SqlValue>) -> (key: Option<(&str, i64, &[u8])>)
    ensures
        match key {
            Some((wallet_id, item_id, name)) => named_tag(params.deep_view()) == Some(
                (wallet_id@, item_id, name@),
            ),
            None => named_tag(params.deep_view()) is None,
        },
{
    if params.len() != 3 {
        return None;
    }
    assert(params.deep_view()[0] == params@[0]@);
    assert(params.deep_view()[1] == params@[1]@);
    assert(params.deep_view()[2] == params@[2]@);
    match (&params[0], &params[1], &params[2]) {
        (SqlValue::Text(wallet_id), SqlValue::Int(item_id), SqlValue::Bytes(name)) => Some(
            (wallet_id.as_str(), *item_id, name.as_slice()),
        ),
        _ => None,
    }
}

fn item_id_of(params: &Vec<SqlValue>) -> (item_id: Option<i64>)
    ensures
        match item_id {
            Some(item_id) => params.deep_view().len() == 1 && params.deep_view()[0]
                == SqlValueView::Int(item_id),
            None => !(params.deep_view().len() == 1 && params.deep_view()[0] is Int),
        },
{
    if params.len() != 1 {
        return None;
    }
    assert(params.deep_view()[0] == params@[0]@);
    match &params[0] {
        SqlValue::Int(item_id) => Some(*item_id),
        _ => None,
    }
}

fn new_tag(encrypted: bool, params: &Vec<SqlValue>) -> (row: Option<TagRecord>)
    ensures
        row.deep_view() == given_tag(encrypted, params.deep_view()),
{
    if params.len() != 4 {
        return None;
    }
    assert(params.deep_view()[0] == params@[0]@);
    assert(params.deep_view()[1] == params@[1]@);
    assert(params.deep_view()[2] == params@[2]@);
    assert(params.deep_view()[3] == params@[3]@);
    match (&params[0], &params[1], &params[2], &params[3]) {
        (
            SqlValue::Text(wallet_id),
            SqlValue::Int(item_id),
            SqlValue::Bytes(name),
            SqlValue::Bytes(value),
        ) => {
            if encrypted {
                Some(
                    TagRecord {
                        wallet_id: copy_text(wallet_id.as_str()),
                        item_id: *item_id,
                        tag: Tag::Encrypted(
                            copy_bytes(name.as_slice()),
                            copy_bytes(value.as_slice()),
                        ),
                    },
                )
            } else {
                None
            }
        },
        (
            SqlValue::Text(wallet_id),
            SqlValue::Int(item_id),
            SqlValue::Bytes(name),
            SqlValue::Text(value),
        ) => {
            if encrypted {
                None
            } else {
                Some(
                    TagRecord {
                        wallet_id: copy_text(wallet_id.as_str()),
                        item_id: *item_id,
                        tag: Tag::PlainText(copy_bytes(name.as_slice()), copy_text(value.as_str())),
                    },
                )
            }
        },
        _ => None,
    }
}

fn new_item(params: &Vec<SqlValue>) -> (row: Option<ItemRecord>)
    ensures
        row.deep_view() == given_item(params.deep_view()),
{
    if params.len() != 5 {
        return None;
    }
    assert(params.deep_view()[0] == params@[0]@);
    assert(params.deep_view()[1] == params@[1]@);
    assert(params.deep_view()[2] == params@[2]@);
    assert(params.deep_view()[3] == params@[3]@);
    assert(params.deep_view()[4] == params@[4]@);
    match (&params[0], &params[1], &params[2], &params[3], &params[4]) {
        (
            SqlValue::Text(wallet_id),
            SqlValue::Bytes(type_),
            SqlValue::Bytes(name),
            SqlValue::Bytes(value),
            SqlValue::Bytes(key),
        ) => Some(
            ItemRecord {
                wallet_id: copy_text(wallet_id.as_str()),
                id: 0,
                type_: copy_bytes(type_.as_slice()),
                name: copy_bytes(name.as_slice()),
                value: copy_bytes(value.as_slice()),
                key: copy_bytes(key.as_slice()),
            },
        ),
        _ => None,
    }
}

fn update_of<'a>(params: &'a Vec<SqlValue>) -> (update: Option<(&'a [u8], &'a [u8], ItemSelector<'a>)>)
    ensures
        match update {
            Some((value, key, selector)) => given_update(params.deep_view()) == Some(
                (value@, key@, selector@),
            ),
            None => given_update(params.deep_view()) is None,
        },
{
    if params.len() != 5 {
        return None;
    }
    assert(params.deep_view()[0] == params@[0]@);
    assert(params.deep_view()[1] == params@[1]@);
    assert(params.deep_view()[2] == params@[2]@);
    assert(params.deep_view()[3] == params@[3]@);
    assert(params.deep_view()[4] == params@[4]@);
    match (&params[0], &params[1], &params[2], &params[3], &params[4]) {
        (
            SqlValue::Bytes(value),
            SqlValue::Bytes(key),
            SqlValue::Text(wallet_id),
            SqlValue::Bytes(type_),
            SqlValue::Bytes(name),
        ) => Some(
            (
                value.as_slice(),
                key.as_slice(),
                ItemSelector::Named {
                    wallet_id: wallet_id.as_str(),
                    type_: type_.as_slice(),
                    name: name.as_slice(),
                },
            ),
        ),
        _ => None,
    }
}

fn metadata_pair(params: &Vec<SqlValue>, value_first: bool) -> (pair: Option<(&str, &[u8])>)
    ensures
        value_first ==> match pair {
            Some((wallet_id, value)) => given_replacement(params.deep_view()) == Some(
                (value@, wallet_id@),
            ),
            None => given_replacement(params.deep_view()) is None,
        },
        !value_first ==> match pair {
            Some((wallet_id, value)) => given_metadata(params.deep_view()) == Some(
                (wallet_id@, value@),
            ),
            None => given_metadata(params.deep_view()) is None,
        },
{
    if params.len() != 2 {
        return None;
    }
    assert(params.deep_view()[0] == params@[0]@);
    assert(params.deep_view()[1] == params@[1]@);
    match (&params[0], &params[1]) {
        (SqlValue::Bytes(value), SqlValue::Text(wallet_id)) => {
            if value_first {
                Some((wallet_id.as_str(), value.as_slice()))
            } else {
                None
            }
        },
        (SqlValue::Text(wallet_id), SqlValue::Bytes(value)) => {
            if value_first {
                None
            } else {
                Some((wallet_id.as_str(), value.as_slice()))
            }
        },
        _ => None,
    }
}

impl Tables {
    /// Tables without rows and without an open transaction.
    pub fn new() -> (tables: Tables)
        ensures
            tables@ == TablesView::empty(),
    {
        Tables { now: Stored::new(), saved: None, next_item_id: 1, next_metadata_id: 1 }
    }

    fn insert_item(&mut self, given: ItemRecord) -> (reply: Reply)
        ensures
            (final(self)@, reply@) == old(self)@.insert_item(given.deep_view()),
    {
        let selector = ItemSelector::Named {
            wallet_id: given.wallet_id.as_str(),
            type_: given.type_.as_slice(),
            name: given.name.as_slice(),
        };
        assert(selector@ == same_item(given.deep_view()));
        let found = self.now.select_items(&selector, ItemColumns::Id);
        assert(found.len() == found.deep_view().len());
        assert(found.len() == self.now.deep_view().items.filter(selector@.chosen()).len());
        if found.len() > 0 {
            return unique_violated();
        }
        if self.next_item_id == i64::MAX {
            return failed(Some("2200H"), "the statement violates a constraint");
        }
        let id = self.next_item_id;
        self.next_item_id = id + 1;
        let mut row = given;
        row.id = id;
        let mut answer: Vec<SqlValue> = Vec::new();
        answer.push(SqlValue::Int(id));
        assert(answer.deep_view() =~= id_columns(row.deep_view()));
        let mut rows: Vec<Vec<SqlValue>> = Vec::new();
        rows.push(answer);
        assert(rows.deep_view() =~= seq![id_columns(row.deep_view())]);
        let ghost before = self.now.items;
        self.now.items.push(row);
        proof {
            deep_view_push(before, self.now.items, row);
        }
        Reply::Rows(rows)
    }

    fn insert_tag(&mut self, row: TagRecord, upsert: bool) -> (reply: Reply)
        ensures
            (final(self)@, reply@) == old(self)@.insert_tag(row.deep_view(), upsert),
    {
        let selector = TagSelector::Named {
            wallet_id: row.wallet_id.as_str(),
            item_id: row.item_id,
            encrypted: is_encrypted(&row.tag),
            name: name_of(&row.tag).as_slice(),
        };
        assert(selector@ == same_tag(row.deep_view()));
        let found = self.now.select_tags(&selector);
        assert(found.len() == found.deep_view().len());
        assert(found.len() == self.now.deep_view().tags.filter(selector@.chosen()).len());
        if found.len() > 0 {
            if upsert {
                self.now.replace_tag(&row);
                Reply::Affected(1)
            } else {
                unique_violated()
            }
        } else if !self.now.has_item(row.wallet_id.as_str(), row.item_id) {
            failed(Some("23503"), "the statement violates a constraint")
        } else {
            let ghost before = self.now.tags;
            self.now.tags.push(row);
            proof {
                deep_view_push(before, self.now.tags, row);
            }
            Reply::Affected(1)
        }
    }

    fn insert_metadata(&mut self, wallet_id: &str, value: &[u8]) -> (reply: Reply)
        ensures
            (final(self)@, reply@) == old(self)@.insert_metadata(wallet_id@, value@),
    {
        if self.now.has_metadata(wallet_id, value) {
            return unique_violated();
        }
        if self.next_metadata_id == i64::MAX {
            return failed(Some("2200H"), "the statement violates a constraint");
        }
        let id = self.next_metadata_id;
        self.next_metadata_id = id + 1;
        let row = MetadataRecord { wallet_id: copy_text(wallet_id), id, value: copy_bytes(value) };
        let ghost before = self.now.metadata;
        self.now.metadata.push(row);
        proof {
            deep_view_push(before, self.now.metadata, row);
        }
        Reply::Affected(1)
    }

    fn update_metadata(&mut self, wallet_id: &str, value: &[u8]) -> (reply: Reply)
        ensures
            (final(self)@, reply@) == old(self)@.update_metadata(wallet_id@, value@),
    {
        let found = self.now.select_metadata(wallet_id, true);
        assert(found.len() == found.deep_view().len());
        assert(found.len() == self.now.deep_view().metadata.filter(metadata_of(wallet_id@)).len());
        if found.len() > 1 {
            return unique_violated();
        }
        self.now.replace_metadata(wallet_id, value);
        affected(found.len())
    }

    fn select_items(&self, selector: &ItemSelector, columns: ItemColumns) -> (reply: Reply)
        ensures
            (self@, reply@) == self@.select_items(selector@, columns),
    {
        Reply::Rows(self.now.select_items(selector, columns))
    }

    fn select_tags(&self, selector: &TagSelector) -> (reply: Reply)
        ensures
            (self@, reply@) == self@.select_tags(selector@),
    {
        Reply::Rows(self.now.select_tags(selector))
    }

    fn select_metadata(&self, wallet_id: &str, wallet_column: bool) -> (reply: Reply)
        ensures
            (self@, reply@) == self@.select_metadata(wallet_id@, wallet_column),
    {
        Reply::Rows(self.now.select_metadata(wallet_id, wallet_column))
    }

    fn delete_items(&mut self, selector: &ItemSelector) -> (reply: Reply)
        ensures
            (final(self)@, reply@) == old(self)@.delete_items(selector@),
    {
        let count = self.now.delete_items(selector);
        affected(count)
    }

    fn delete_tags(&mut self, selector: &TagSelector) -> (reply: Reply)
        ensures
            (final(self)@, reply@) == old(self)@.delete_tags(selector@),
    {
        let count = self.now.delete_tags(selector);
        affected(count)
    }

    fn count_items(&self, selector: &ItemSelector) -> (reply: Reply)
        ensures
            (self@, reply@) == self@.count_items(selector@),
    {
        let found = self.now.select_items(selector, ItemColumns::Id);
        assert(found.len() == found.deep_view().len());
        assert(found.len() == self.now.deep_view().items.filter(selector@.chosen()).len());
        let length: u64 = found.len() as u64;
        let count: i64 = if length <= 0x7fff_ffff_ffff_ffffu64 {
            length as i64
        } else {
            i64::MAX
        };
        assert(count == count_value(found.len() as nat));
        let mut row: Vec<SqlValue> = Vec::new();
        row.push(SqlValue::Int(count));
        assert(row.deep_view() =~= seq![SqlValueView::Int(count)]);
        let mut rows: Vec<Vec<SqlValue>> = Vec::new();
        rows.push(row);
        assert(rows.deep_view() =~= seq![row.deep_view()]);
        Reply::Rows(rows)
    }

    /// What a compiled statement does.
    fn translated(&self, text: &str, params: &Vec<SqlValue>) -> (reply: Reply)
        ensures
            (self@, reply@) == self@.translated(text@, params.deep_view()),
    {
        match typed_of(params) {
            Some(selector) => {
                if same_text(text, "SELECT count(*) FROM items WHERE wallet_id = $1 AND type = $2") {
                    self.count_items(&selector)
                } else if same_text(
                    text,
                    "SELECT id, name, value, key, type FROM items WHERE wallet_id = $1 AND type = $2",
                ) {
                    self.select_items(&selector, ItemColumns::All)
                } else {
                    refuse()
                }
            },
            None => refuse(),
        }
    }

    /// What a statement that returns rows does.
    fn query(&mut self, statement: Statement, params: &Vec<SqlValue>) -> (reply: Reply)
        ensures
            (final(self)@, reply@) == old(self)@.query(statement, params.deep_view()),
    {
        match statement {
            Statement::SelectItem => match item_of(params) {
                Some(selector) => self.select_items(&selector, ItemColumns::Value),
                None => refuse(),
            },
            Statement::SelectItemId => match item_of(params) {
                Some(selector) => self.select_items(&selector, ItemColumns::Id),
                None => refuse(),
            },
            Statement::SelectAllItems => match wallet_of(params) {
                Some(wallet_id) => self.select_items(
                    &ItemSelector::Wallet { wallet_id },
                    ItemColumns::All,
                ),
                None => refuse(),
            },
            Statement::InsertItem => match new_item(params) {
                Some(given) => self.insert_item(given),
                None => refuse(),
            },
            Statement::SelectEncryptedTags => match tags_of(params) {
                Some((wallet_id, item_id)) => self.select_tags(
                    &TagSelector::Item { wallet_id, item_id, encrypted: true },
                ),
                None => refuse(),
            },
            Statement::SelectPlainTags => match tags_of(params) {
                Some((wallet_id, item_id)) => self.select_tags(
                    &TagSelector::Item { wallet_id, item_id, encrypted: false },
                ),
                None => refuse(),
            },
            Statement::SelectEncryptedTagsById => match item_id_of(params) {
                Some(item_id) => self.select_tags(
                    &TagSelector::ItemById { item_id, encrypted: true },
                ),
                None => refuse(),
            },
            Statement::SelectPlainTagsById => match item_id_of(params) {
                Some(item_id) => self.select_tags(
                    &TagSelector::ItemById { item_id, encrypted: false },
                ),
                None => refuse(),
            },
            Statement::SelectMetadata => match wallet_of(params) {
                Some(wallet_id) => self.select_metadata(wallet_id, false),
                None => refuse(),
            },
            Statement::SelectWallet => match wallet_of(params) {
                Some(wallet_id) => self.select_metadata(wallet_id, true),
                None => refuse(),
            },
            _ => refuse(),
        }
    }

    /// What a statement that returns a number of rows does.
    fn execute(&mut self, statement: Statement, params: &Vec<SqlValue>) -> (reply: Reply)
        ensures
            (final(self)@, reply@) == old(self)@.execute(statement, params.deep_view()),
    {
        match statement {
            Statement::UpdateItem => match update_of(params) {
                Some((value, key, selector)) => {
                    let count = self.now.update_items(&selector, value, key);
                    affected(count)
                },
                None => refuse(),
            },
            Statement::DeleteItem => match item_of(params) {
                Some(selector) => self.delete_items(&selector),
                None => refuse(),
            },
            Statement::InsertEncryptedTag => match new_tag(true, params) {
                Some(row) => self.insert_tag(row, false),
                None => refuse(),
            },
            Statement::InsertPlainTag => match new_tag(false, params) {
                Some(row) => self.insert_tag(row, false),
                None => refuse(),
            },
            Statement::UpsertEncryptedTag => match new_tag(true, params) {
                Some(row) => self.insert_tag(row, true),
                None => refuse(),
            },
            Statement::UpsertPlainTag => match new_tag(false, params) {
                Some(row) => self.insert_tag(row, true),
                None => refuse(),
            },
            Statement::DeleteItemEncryptedTags => match tags_of(params) {
                Some((wallet_id, item_id)) => self.delete_tags(
                    &TagSelector::Item { wallet_id, item_id, encrypted: true },
                ),
                None => refuse(),
            },
            Statement::DeleteItemPlainTags => match tags_of(params) {
                Some((wallet_id, item_id)) => self.delete_tags(
                    &TagSelector::Item { wallet_id, item_id, encrypted: false },
                ),
                None => refuse(),
            },
            Statement::DeleteEncryptedTag => match tag_of(params) {
                Some((wallet_id, item_id, name)) => self.delete_tags(
                    &TagSelector::Named { wallet_id, item_id, encrypted: true, name },
                ),
                None => refuse(),
            },
            Statement::DeletePlainTag => match tag_of(params) {
                Some((wallet_id, item_id, name)) => self.delete_tags(
                    &TagSelector::Named { wallet_id, item_id, encrypted: false, name },
                ),
                None => refuse(),
            },
            Statement::UpdateMetadata => match metadata_pair(params, true) {
                Some((wallet_id, value)) => self.update_metadata(wallet_id, value),
                None => refuse(),
            },
            Statement::InsertMetadata => match metadata_pair(params, false) {
                Some((wallet_id, value)) => self.insert_metadata(wallet_id, value),
                None => refuse(),
            },
            Statement::DeleteWalletPlainTags => match wallet_of(params) {
                Some(wallet_id) => self.delete_tags(
                    &TagSelector::Wallet { wallet_id, encrypted: false },
                ),
                None => refuse(),
            },
            Statement::DeleteWalletEncryptedTags => match wallet_of(params) {
                Some(wallet_id) => self.delete_tags(
                    &TagSelector::Wallet { wallet_id, encrypted: true },
                ),
                None => refuse(),
            },
            Statement::DeleteWalletItems => match wallet_of(params) {
                Some(wallet_id) => self.delete_items(&ItemSelector::Wallet { wallet_id }),
                None => refuse(),
            },
            Statement::DeleteWalletMetadata => match wallet_of(params) {
                Some(wallet_id) => {
                    let count = self.now.delete_metadata(wallet_id);
                    affected(count)
                },
                None => refuse(),
            },
            Statement::CreateDatabase => failed(
                Some("42P04"),
                "the statement violates a constraint",
            ),
            Statement::CreateMetadataTable
            | Statement::CreateMetadataIdIndex
            | Statement::CreateMetadataValueIndex
            | Statement::CreateItemsTable
            | Statement::CreateItemsIdIndex
            | Statement::CreateItemsNameIndex
            | Statement::CreateEncryptedTagsTable
            | Statement::CreateEncryptedTagsNameIndex
            | Statement::CreateEncryptedTagsValueIndex
            | Statement::CreateEncryptedTagsItemIndex
            | Statement::CreatePlainTagsTable
            | Statement::CreatePlainTagsNameIndex
            | Statement::CreatePlainTagsValueIndex
            | Statement::CreatePlainTagsItemIndex => Reply::Affected(0),
            _ => refuse(),
        }
    }

    fn roll_back(&mut self)
        ensures
            final(self)@ == old(self)@.rolled_back(),
    {
        match self.saved.take() {
            Some(saved) => {
                self.now = saved;
            },
            None => {},
        }
    }

    /// Carries out a request and answers it.
    pub fn serve(&mut self, request: &Request) -> (reply: Reply)
        ensures
            (final(self)@, reply@) == old(self)@.serve(request@),
    {
        match request {
            Request::Connect { url } => Reply::Done,
            Request::OpenPool { url } => Reply::Done,
            Request::Disconnect => {
                self.roll_back();
                Reply::Done
            },
            Request::Begin => {
                if self.saved.is_none() {
                    self.saved = Some(self.now.duplicate());
                }
                Reply::Done
            },
            Request::Commit => {
                self.saved = None;
                Reply::Done
            },
            Request::Rollback => {
                self.roll_back();
                Reply::Done
            },
            Request::Query { sql, params } => match sql {
                Sql::Fixed(statement) => self.query(*statement, params),
                Sql::Translated(text) => self.translated(text.as_str(), params),
            },
            Request::Execute { statement, params } => self.execute(*statement, params),
            _ => refuse(),
        }
    }
}

} // verus!
