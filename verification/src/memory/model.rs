//! The four tables of the schema as sequences of rows, and what each
//! statement of the engine does to them.
//!
//! This is the reference against which the engine's operations are proved:
//! the rows of a table in the order of their insertion, the unique keys and
//! the foreign key of the schema, and a transaction that keeps what the
//! tables held when it began.

use vstd::prelude::*;
use crate::error::{duplicate_database, unique_violation, BackendErrorView};
use crate::protocol::{ReplyView, RequestView, RowView, SqlValueView, SqlView};
use crate::record::{TagNameView, TagView};
use crate::statement::Statement;

verus! {

/// A row of the table of items.
pub struct ItemRow {
    pub wallet_id: Seq<char>,
    pub id: i64,
    pub type_: Seq<u8>,
    pub name: Seq<u8>,
    pub value: Seq<u8>,
    pub key: Seq<u8>,
}

/// A row of one of the two tables of tags. The variant of the tag says
/// which: an encrypted tag is a row of `tags_encrypted`, a plaintext tag a
/// row of `tags_plaintext`.
pub struct TagRow {
    pub wallet_id: Seq<char>,
    pub item_id: i64,
    pub tag: TagView,
}

/// A row of the table of metadata.
pub struct MetadataRow {
    pub wallet_id: Seq<char>,
    pub id: i64,
    pub value: Seq<u8>,
}

/// The name of a tag.
pub open spec fn tag_name(tag: TagView) -> Seq<u8> {
    match tag {
        TagView::Encrypted(name, _) => name,
        TagView::PlainText(name, _) => name,
    }
}

/// The variant and the name of a tag: what must be unique among the tags of
/// an item.
pub open spec fn tag_key(tag: TagView) -> TagNameView {
    match tag {
        TagView::Encrypted(name, _) => TagNameView::OfEncrypted(name),
        TagView::PlainText(name, _) => TagNameView::OfPlain(name),
    }
}

/// Which rows of the items a statement means.
pub enum ItemFilter {
    /// The item of a wallet with a type and a name.
    Named { wallet_id: Seq<char>, type_: Seq<u8>, name: Seq<u8> },
    /// All items of a wallet.
    Wallet { wallet_id: Seq<char> },
    /// The items of a wallet with a type.
    Typed { wallet_id: Seq<char>, type_: Seq<u8> },
}

impl ItemFilter {
    pub open spec fn matches(self, row: ItemRow) -> bool {
        match self {
            ItemFilter::Named { wallet_id, type_, name } => row.wallet_id == wallet_id
                && row.type_ == type_ && row.name == name,
            ItemFilter::Wallet { wallet_id } => row.wallet_id == wallet_id,
            ItemFilter::Typed { wallet_id, type_ } => row.wallet_id == wallet_id && row.type_
                == type_,
        }
    }

    pub open spec fn chosen(self) -> spec_fn(ItemRow) -> bool {
        |row: ItemRow| self.matches(row)
    }

    pub open spec fn spared(self) -> spec_fn(ItemRow) -> bool {
        |row: ItemRow| !self.matches(row)
    }
}

/// Which rows of the tags a statement means.
pub enum TagFilter {
    /// The tags of one variant of an item of a wallet.
    Item { wallet_id: Seq<char>, item_id: i64, encrypted: bool },
    /// The tags of one variant of an item, by its id alone.
    ItemById { item_id: i64, encrypted: bool },
    /// The tag of an item of a wallet with a variant and a name.
    Named { wallet_id: Seq<char>, item_id: i64, name: TagNameView },
    /// The tags of one variant of a wallet.
    Wallet { wallet_id: Seq<char>, encrypted: bool },
}

impl TagFilter {
    pub open spec fn matches(self, row: TagRow) -> bool {
        match self {
            TagFilter::Item { wallet_id, item_id, encrypted } => row.wallet_id == wallet_id
                && row.item_id == item_id && (row.tag is Encrypted) == encrypted,
            TagFilter::ItemById { item_id, encrypted } => row.item_id == item_id && (row.tag
                is Encrypted) == encrypted,
            TagFilter::Named { wallet_id, item_id, name } => row.wallet_id == wallet_id
                && row.item_id == item_id && tag_key(row.tag) == name,
            TagFilter::Wallet { wallet_id, encrypted } => row.wallet_id == wallet_id && (row.tag
                is Encrypted) == encrypted,
        }
    }

    pub open spec fn chosen(self) -> spec_fn(TagRow) -> bool {
        |row: TagRow| self.matches(row)
    }

    pub open spec fn spared(self) -> spec_fn(TagRow) -> bool {
        |row: TagRow| !self.matches(row)
    }
}

/// The rows of the metadata of a wallet.
pub open spec fn metadata_of(wallet_id: Seq<char>) -> spec_fn(MetadataRow) -> bool {
    |row: MetadataRow| row.wallet_id == wallet_id
}

/// The rows of the metadata of other wallets.
pub open spec fn metadata_beside(wallet_id: Seq<char>) -> spec_fn(MetadataRow) -> bool {
    |row: MetadataRow| row.wallet_id != wallet_id
}

/// The filter that means the items with the key of `row`: the items of its
/// wallet with its type and name.
pub open spec fn same_item(row: ItemRow) -> ItemFilter {
    ItemFilter::Named { wallet_id: row.wallet_id, type_: row.type_, name: row.name }
}

/// Gives the items that `filter` means a new value and key.
pub open spec fn revalued(filter: ItemFilter, value: Seq<u8>, key: Seq<u8>) -> spec_fn(
    ItemRow,
) -> ItemRow {
    |row: ItemRow|
        if filter.matches(row) {
            ItemRow { value, key, ..row }
        } else {
            row
        }
}

/// The filter that means the tag rows with the key of `row`: the tags of
/// its item with its variant and name.
pub open spec fn same_tag(row: TagRow) -> TagFilter {
    TagFilter::Named { wallet_id: row.wallet_id, item_id: row.item_id, name: tag_key(row.tag) }
}

/// Puts `row` in the place of the tag rows with its key.
pub open spec fn retagged(row: TagRow) -> spec_fn(TagRow) -> TagRow {
    |old: TagRow|
        if same_tag(row).matches(old) {
            row
        } else {
            old
        }
}

/// Gives the rows of metadata of a wallet a new value.
pub open spec fn replaced(wallet_id: Seq<char>, value: Seq<u8>) -> spec_fn(MetadataRow) -> MetadataRow {
    |row: MetadataRow|
        if row.wallet_id == wallet_id {
            MetadataRow { value, ..row }
        } else {
            row
        }
}

/// What the tables hold.
pub struct Contents {
    pub metadata: Seq<MetadataRow>,
    pub items: Seq<ItemRow>,
    pub tags: Seq<TagRow>,
}

/// The tables, the transaction that may be open on them, and the next ids
/// that the backend assigns.
pub struct TablesView {
    /// What the tables hold now.
    pub now: Contents,
    /// What the tables held when the open transaction began.
    pub saved: Option<Contents>,
    /// The id that the next item gets. Ids only grow: an id that was
    /// assigned is never assigned again, whether its statement persisted or
    /// not.
    pub next_item_id: i64,
    /// The id that the next row of metadata gets.
    pub next_metadata_id: i64,
}

/// A row with the id of an item.
pub open spec fn id_columns(row: ItemRow) -> RowView {
    seq![SqlValueView::Int(row.id)]
}

/// A row with the id, value and key of an item.
pub open spec fn value_columns(row: ItemRow) -> RowView {
    seq![SqlValueView::Int(row.id), SqlValueView::Bytes(row.value), SqlValueView::Bytes(row.key)]
}

/// A row with the id, name, value, key and type of an item.
pub open spec fn item_columns(row: ItemRow) -> RowView {
    seq![
        SqlValueView::Int(row.id),
        SqlValueView::Bytes(row.name),
        SqlValueView::Bytes(row.value),
        SqlValueView::Bytes(row.key),
        SqlValueView::Bytes(row.type_),
    ]
}

/// A row with the name and value of a tag.
pub open spec fn tag_columns(row: TagRow) -> RowView {
    match row.tag {
        TagView::Encrypted(name, value) => seq![
            SqlValueView::Bytes(name),
            SqlValueView::Bytes(value),
        ],
        TagView::PlainText(name, value) => seq![
            SqlValueView::Bytes(name),
            SqlValueView::Text(value),
        ],
    }
}

/// A row with the value of a row of metadata.
pub open spec fn blob_columns(row: MetadataRow) -> RowView {
    seq![SqlValueView::Bytes(row.value)]
}

/// A row with the wallet of a row of metadata.
pub open spec fn wallet_columns(row: MetadataRow) -> RowView {
    seq![SqlValueView::Text(row.wallet_id)]
}

/// The columns of an item that a statement returns.
#[derive(Clone, Copy, PartialEq, Eq, Structural)]
pub enum ItemColumns {
    Id,
    Value,
    All,
}

impl ItemColumns {
    pub open spec fn of(self) -> spec_fn(ItemRow) -> RowView {
        match self {
            ItemColumns::Id => |row: ItemRow| id_columns(row),
            ItemColumns::Value => |row: ItemRow| value_columns(row),
            ItemColumns::All => |row: ItemRow| item_columns(row),
        }
    }
}

/// The columns of a tag that a statement returns.
pub open spec fn tag_columns_of() -> spec_fn(TagRow) -> RowView {
    |row: TagRow| tag_columns(row)
}

/// The column of a row of metadata that a statement returns: the wallet, or
/// the value.
pub open spec fn metadata_columns(wallet: bool) -> spec_fn(MetadataRow) -> RowView {
    if wallet {
        |row: MetadataRow| wallet_columns(row)
    } else {
        |row: MetadataRow| blob_columns(row)
    }
}

/// SQLSTATE 23503: a row refers to a row that does not exist.
pub open spec fn foreign_key_violation() -> Seq<char> {
    "23503"@
}

/// SQLSTATE 2200H: a sequence of ids is exhausted.
pub open spec fn sequence_exhausted() -> Seq<char> {
    "2200H"@
}

/// The failure with a SQLSTATE that the tables report.
pub open spec fn violation(code: Seq<char>) -> ReplyView {
    ReplyView::Failed(
        BackendErrorView { code: Some(code), message: "the statement violates a constraint"@ },
    )
}

/// The failure for a request that the tables cannot carry out: a statement
/// that another predicate compiler wrote, parameters that do not fit the
/// statement, or a request that is not for a backend.
pub open spec fn unsupported() -> ReplyView {
    ReplyView::Failed(
        BackendErrorView { code: None, message: "the tables cannot carry out the request"@ },
    )
}

/// The number of rows as a statement reports it.
pub open spec fn row_count(rows: nat) -> u64 {
    if rows <= u64::MAX {
        rows as u64
    } else {
        u64::MAX
    }
}

/// The number of rows as a counting statement returns it.
pub open spec fn count_value(rows: nat) -> i64 {
    if rows <= i64::MAX {
        rows as i64
    } else {
        i64::MAX
    }
}

/// The statement that the tables compile a search to where its records are
/// asked for. The tables know no predicate over tags: they compile the
/// predicate that every item satisfies, so that a search means the items of
/// its wallet with its type.
pub open spec fn records_of_type() -> Seq<char> {
    "SELECT id, name, value, key, type FROM items WHERE wallet_id = $1 AND type = $2"@
}

/// The statement that the tables compile a search to where its count is
/// asked for.
pub open spec fn count_of_type() -> Seq<char> {
    "SELECT count(*) FROM items WHERE wallet_id = $1 AND type = $2"@
}

/// The parameters of a compiled search: the wallet and the type.
pub open spec fn search_key(wallet_id: Seq<char>, type_: Seq<u8>) -> Seq<SqlValueView> {
    seq![SqlValueView::Text(wallet_id), SqlValueView::Bytes(type_)]
}

/// The reply of the tables to the request to compile a search.
pub open spec fn compiled(wallet_id: Seq<char>, type_: Seq<u8>, count: bool) -> ReplyView {
    ReplyView::Translated {
        text: if count {
            count_of_type()
        } else {
            records_of_type()
        },
        params: search_key(wallet_id, type_),
    }
}

/// The two compiled statements are two.
pub proof fn compiled_statements_differ()
    ensures
        count_of_type() != records_of_type(),
{
    reveal_strlit("SELECT id, name, value, key, type FROM items WHERE wallet_id = $1 AND type = $2");
    reveal_strlit("SELECT count(*) FROM items WHERE wallet_id = $1 AND type = $2");
    assert(count_of_type().len() != records_of_type().len());
}

/// The item filter that the parameters of a compiled search name: a wallet
/// and a type.
pub open spec fn typed_item(params: Seq<SqlValueView>) -> Option<ItemFilter> {
    if params.len() == 2 && params[0] is Text && params[1] is Bytes {
        Some(ItemFilter::Typed { wallet_id: params[0]->Text_0, type_: params[1]->Bytes_0 })
    } else {
        None
    }
}

/// The item filter that the parameters of a statement name, if they have
/// the shape for it: a wallet, a type and a name.
pub open spec fn named_item(params: Seq<SqlValueView>) -> Option<ItemFilter> {
    if params.len() == 3 && params[0] is Text && params[1] is Bytes && params[2] is Bytes {
        Some(
            ItemFilter::Named {
                wallet_id: params[0]->Text_0,
                type_: params[1]->Bytes_0,
                name: params[2]->Bytes_0,
            },
        )
    } else {
        None
    }
}

/// The wallet that the single parameter of a statement names.
pub open spec fn named_wallet(params: Seq<SqlValueView>) -> Option<Seq<char>> {
    if params.len() == 1 && params[0] is Text {
        Some(params[0]->Text_0)
    } else {
        None
    }
}

/// The wallet and the item that the parameters of a statement name.
pub open spec fn named_tags(params: Seq<SqlValueView>) -> Option<(Seq<char>, i64)> {
    if params.len() == 2 && params[0] is Text && params[1] is Int {
        Some((params[0]->Text_0, params[1]->Int_0))
    } else {
        None
    }
}

/// The wallet, the item and the name of a tag that the parameters of a
/// statement name.
pub open spec fn named_tag(params: Seq<SqlValueView>) -> Option<(Seq<char>, i64, Seq<u8>)> {
    if params.len() == 3 && params[0] is Text && params[1] is Int && params[2] is Bytes {
        Some((params[0]->Text_0, params[1]->Int_0, params[2]->Bytes_0))
    } else {
        None
    }
}

/// The row of a tag that the parameters of an insertion hold.
pub open spec fn given_tag(encrypted: bool, params: Seq<SqlValueView>) -> Option<TagRow> {
    if params.len() == 4 && params[0] is Text && params[1] is Int && params[2] is Bytes {
        if encrypted && params[3] is Bytes {
            Some(
                TagRow {
                    wallet_id: params[0]->Text_0,
                    item_id: params[1]->Int_0,
                    tag: TagView::Encrypted(params[2]->Bytes_0, params[3]->Bytes_0),
                },
            )
        } else if !encrypted && params[3] is Text {
            Some(
                TagRow {
                    wallet_id: params[0]->Text_0,
                    item_id: params[1]->Int_0,
                    tag: TagView::PlainText(params[2]->Bytes_0, params[3]->Text_0),
                },
            )
        } else {
            None
        }
    } else {
        None
    }
}

/// The item that the parameters of an insertion hold, without its id.
pub open spec fn given_item(params: Seq<SqlValueView>) -> Option<ItemRow> {
    if params.len() == 5 && params[0] is Text && params[1] is Bytes && params[2] is Bytes
        && params[3] is Bytes && params[4] is Bytes {
        Some(
            ItemRow {
                wallet_id: params[0]->Text_0,
                id: 0,
                type_: params[1]->Bytes_0,
                name: params[2]->Bytes_0,
                value: params[3]->Bytes_0,
                key: params[4]->Bytes_0,
            },
        )
    } else {
        None
    }
}

/// The value, the key and the item that the parameters of an update hold.
pub open spec fn given_update(params: Seq<SqlValueView>) -> Option<(Seq<u8>, Seq<u8>, ItemFilter)> {
    if params.len() == 5 && params[0] is Bytes && params[1] is Bytes && params[2] is Text
        && params[3] is Bytes && params[4] is Bytes {
        Some(
            (
                params[0]->Bytes_0,
                params[1]->Bytes_0,
                ItemFilter::Named {
                    wallet_id: params[2]->Text_0,
                    type_: params[3]->Bytes_0,
                    name: params[4]->Bytes_0,
                },
            ),
        )
    } else {
        None
    }
}

/// The wallet and the value that the parameters of the insertion of
/// metadata hold.
pub open spec fn given_metadata(params: Seq<SqlValueView>) -> Option<(Seq<char>, Seq<u8>)> {
    if params.len() == 2 && params[0] is Text && params[1] is Bytes {
        Some((params[0]->Text_0, params[1]->Bytes_0))
    } else {
        None
    }
}

/// The value and the wallet that the parameters of the update of metadata
/// hold.
pub open spec fn given_replacement(params: Seq<SqlValueView>) -> Option<(Seq<u8>, Seq<char>)> {
    if params.len() == 2 && params[0] is Bytes && params[1] is Text {
        Some((params[0]->Bytes_0, params[1]->Text_0))
    } else {
        None
    }
}

impl Contents {
    /// The tables without rows.
    pub open spec fn empty() -> Contents {
        Contents { metadata: Seq::empty(), items: Seq::empty(), tags: Seq::empty() }
    }

    /// Whether an item of a wallet with this id exists.
    pub open spec fn has_item(self, wallet_id: Seq<char>, id: i64) -> bool {
        exists|i: int|
            0 <= i < self.items.len() && (#[trigger] self.items[i]).wallet_id == wallet_id
                && self.items[i].id == id
    }

    /// Whether a tag row refers to one of the items that `filter` means.
    pub open spec fn refers_to(self, filter: ItemFilter, row: TagRow) -> bool {
        exists|i: int|
            0 <= i < self.items.len() && filter.matches(#[trigger] self.items[i])
                && self.items[i].wallet_id == row.wallet_id && self.items[i].id == row.item_id
    }

    /// The tag rows that do not refer to an item that `filter` means.
    pub open spec fn unreferred(self, filter: ItemFilter) -> spec_fn(TagRow) -> bool {
        |row: TagRow| !self.refers_to(filter, row)
    }

    /// The tables after the items that `filter` means are deleted. The
    /// deletion cascades: the tags that refer to a deleted item go with it.
    pub open spec fn without_items(self, filter: ItemFilter) -> Contents {
        Contents {
            items: self.items.filter(filter.spared()),
            tags: self.tags.filter(self.unreferred(filter)),
            ..self
        }
    }

    /// The tables after the tags that `filter` means are deleted.
    pub open spec fn without_tags(self, filter: TagFilter) -> Contents {
        Contents { tags: self.tags.filter(filter.spared()), ..self }
    }

    /// The tables after the items that `filter` means got a new value and
    /// key.
    pub open spec fn with_value(self, filter: ItemFilter, value: Seq<u8>, key: Seq<u8>) -> Contents {
        Contents { items: self.items.map_values(revalued(filter, value, key)), ..self }
    }

    /// The tables after the tag rows with the key of `row` got its value.
    pub open spec fn with_tag_value(self, row: TagRow) -> Contents {
        Contents { tags: self.tags.map_values(retagged(row)), ..self }
    }

    /// The tables after the rows of metadata of a wallet got a new value.
    pub open spec fn with_metadata(self, wallet_id: Seq<char>, value: Seq<u8>) -> Contents {
        Contents { metadata: self.metadata.map_values(replaced(wallet_id, value)), ..self }
    }

    /// Whether a row of metadata of a wallet has this value.
    pub open spec fn has_metadata(self, wallet_id: Seq<char>, value: Seq<u8>) -> bool {
        exists|i: int|
            0 <= i < self.metadata.len() && (#[trigger] self.metadata[i]).wallet_id == wallet_id
                && self.metadata[i].value == value
    }
}

impl TablesView {
    /// Tables without rows and without an open transaction.
    pub open spec fn empty() -> TablesView {
        TablesView { now: Contents::empty(), saved: None, next_item_id: 1, next_metadata_id: 1 }
    }

    /// The reply to a statement that returns the rows of items.
    pub open spec fn select_items(self, filter: ItemFilter, columns: ItemColumns) -> (
        TablesView,
        ReplyView,
    ) {
        (self, ReplyView::Rows(self.now.items.filter(filter.chosen()).map_values(columns.of())))
    }

    /// The reply to a statement that counts the rows of items.
    pub open spec fn count_items(self, filter: ItemFilter) -> (TablesView, ReplyView) {
        (
            self,
            ReplyView::Rows(
                seq![
                    seq![
                        SqlValueView::Int(
                            count_value(self.now.items.filter(filter.chosen()).len()),
                        ),
                    ],
                ],
            ),
        )
    }

    /// What a compiled statement does: it returns the items of a wallet
    /// with a type, or their number.
    pub open spec fn translated(self, text: Seq<char>, params: Seq<SqlValueView>) -> (
        TablesView,
        ReplyView,
    ) {
        match typed_item(params) {
            Some(filter) => if text == count_of_type() {
                self.count_items(filter)
            } else if text == records_of_type() {
                self.select_items(filter, ItemColumns::All)
            } else {
                (self, unsupported())
            },
            None => (self, unsupported()),
        }
    }

    /// The reply to a statement that returns the rows of tags.
    pub open spec fn select_tags(self, filter: TagFilter) -> (TablesView, ReplyView) {
        (
            self,
            ReplyView::Rows(self.now.tags.filter(filter.chosen()).map_values(tag_columns_of())),
        )
    }

    /// The reply to a statement that returns the rows of metadata of a
    /// wallet.
    pub open spec fn select_metadata(self, wallet_id: Seq<char>, wallet: bool) -> (
        TablesView,
        ReplyView,
    ) {
        (
            self,
            ReplyView::Rows(
                self.now.metadata.filter(metadata_of(wallet_id)).map_values(
                    metadata_columns(wallet),
                ),
            ),
        )
    }

    /// Inserts an item. The insertion fails where an item of the wallet
    /// with the type and the name exists. The key is tested before an id is
    /// drawn: a row that is refused takes no id, and leaves the tables as
    /// they were.
    pub open spec fn insert_item(self, given: ItemRow) -> (TablesView, ReplyView) {
        let same = same_item(given);
        if self.now.items.filter(same.chosen()).len() > 0 {
            (self, violation(unique_violation()))
        } else if self.next_item_id == i64::MAX {
            (self, violation(sequence_exhausted()))
        } else {
            let row = ItemRow { id: self.next_item_id, ..given };
            (
                TablesView {
                    now: Contents { items: self.now.items.push(row), ..self.now },
                    next_item_id: (self.next_item_id + 1) as i64,
                    ..self
                },
                ReplyView::Rows(seq![id_columns(row)]),
            )
        }
    }

    /// Inserts a tag. The insertion fails where the item has a tag of that
    /// variant and name; with `upsert` that tag gets the new value instead.
    /// It fails too where the item does not exist.
    pub open spec fn insert_tag(self, row: TagRow, upsert: bool) -> (TablesView, ReplyView) {
        if self.now.tags.filter(same_tag(row).chosen()).len() > 0 {
            if upsert {
                (
                    TablesView { now: self.now.with_tag_value(row), ..self },
                    ReplyView::Affected(1),
                )
            } else {
                (self, violation(unique_violation()))
            }
        } else if !self.now.has_item(row.wallet_id, row.item_id) {
            (self, violation(foreign_key_violation()))
        } else {
            (
                TablesView { now: Contents { tags: self.now.tags.push(row), ..self.now }, ..self },
                ReplyView::Affected(1),
            )
        }
    }

    /// Deletes the items that `filter` means, and the tags that refer to
    /// them.
    pub open spec fn delete_items(self, filter: ItemFilter) -> (TablesView, ReplyView) {
        (
            TablesView { now: self.now.without_items(filter), ..self },
            ReplyView::Affected(row_count(self.now.items.filter(filter.chosen()).len())),
        )
    }

    /// Deletes the tags that `filter` means.
    pub open spec fn delete_tags(self, filter: TagFilter) -> (TablesView, ReplyView) {
        (
            TablesView { now: self.now.without_tags(filter), ..self },
            ReplyView::Affected(row_count(self.now.tags.filter(filter.chosen()).len())),
        )
    }

    /// Gives the items that `filter` means a new value and key.
    pub open spec fn update_items(self, filter: ItemFilter, value: Seq<u8>, key: Seq<u8>) -> (
        TablesView,
        ReplyView,
    ) {
        (
            TablesView { now: self.now.with_value(filter, value, key), ..self },
            ReplyView::Affected(row_count(self.now.items.filter(filter.chosen()).len())),
        )
    }

    /// Inserts a row of metadata. The insertion fails where the wallet has
    /// a row with that value. The key is tested before an id is drawn: a
    /// row that is refused takes no id, and leaves the tables as they were.
    pub open spec fn insert_metadata(self, wallet_id: Seq<char>, value: Seq<u8>) -> (
        TablesView,
        ReplyView,
    ) {
        if self.now.has_metadata(wallet_id, value) {
            (self, violation(unique_violation()))
        } else if self.next_metadata_id == i64::MAX {
            (self, violation(sequence_exhausted()))
        } else {
            let row = MetadataRow { wallet_id, id: self.next_metadata_id, value };
            (
                TablesView {
                    now: Contents { metadata: self.now.metadata.push(row), ..self.now },
                    next_metadata_id: (self.next_metadata_id + 1) as i64,
                    ..self
                },
                ReplyView::Affected(1),
            )
        }
    }

    /// Gives the rows of metadata of a wallet a new value. The update fails
    /// where the wallet has more than one row: they would share the value.
    pub open spec fn update_metadata(self, wallet_id: Seq<char>, value: Seq<u8>) -> (
        TablesView,
        ReplyView,
    ) {
        let rows = self.now.metadata.filter(metadata_of(wallet_id)).len();
        if rows > 1 {
            (self, violation(unique_violation()))
        } else {
            (
                TablesView { now: self.now.with_metadata(wallet_id, value), ..self },
                ReplyView::Affected(row_count(rows)),
            )
        }
    }

    /// Deletes the rows of metadata of a wallet.
    pub open spec fn delete_metadata(self, wallet_id: Seq<char>) -> (TablesView, ReplyView) {
        (
            TablesView {
                now: Contents {
                    metadata: self.now.metadata.filter(metadata_beside(wallet_id)),
                    ..self.now
                },
                ..self
            },
            ReplyView::Affected(row_count(self.now.metadata.filter(metadata_of(wallet_id)).len())),
        )
    }

    /// What a statement that returns rows does.
    pub open spec fn query(self, statement: Statement, params: Seq<SqlValueView>) -> (
        TablesView,
        ReplyView,
    ) {
        match statement {
            Statement::SelectItem => match named_item(params) {
                Some(filter) => self.select_items(filter, ItemColumns::Value),
                None => (self, unsupported()),
            },
            Statement::SelectItemId => match named_item(params) {
                Some(filter) => self.select_items(filter, ItemColumns::Id),
                None => (self, unsupported()),
            },
            Statement::SelectAllItems => match named_wallet(params) {
                Some(wallet_id) => self.select_items(
                    ItemFilter::Wallet { wallet_id },
                    ItemColumns::All,
                ),
                None => (self, unsupported()),
            },
            Statement::InsertItem => match given_item(params) {
                Some(given) => self.insert_item(given),
                None => (self, unsupported()),
            },
            Statement::SelectEncryptedTags => match named_tags(params) {
                Some((wallet_id, item_id)) => self.select_tags(
                    TagFilter::Item { wallet_id, item_id, encrypted: true },
                ),
                None => (self, unsupported()),
            },
            Statement::SelectPlainTags => match named_tags(params) {
                Some((wallet_id, item_id)) => self.select_tags(
                    TagFilter::Item { wallet_id, item_id, encrypted: false },
                ),
                None => (self, unsupported()),
            },
            Statement::SelectEncryptedTagsById => if params.len() == 1 && params[0] is Int {
                self.select_tags(TagFilter::ItemById { item_id: params[0]->Int_0, encrypted: true })
            } else {
                (self, unsupported())
            },
            Statement::SelectPlainTagsById => if params.len() == 1 && params[0] is Int {
                self.select_tags(
                    TagFilter::ItemById { item_id: params[0]->Int_0, encrypted: false },
                )
            } else {
                (self, unsupported())
            },
            Statement::SelectMetadata => match named_wallet(params) {
                Some(wallet_id) => self.select_metadata(wallet_id, false),
                None => (self, unsupported()),
            },
            Statement::SelectWallet => match named_wallet(params) {
                Some(wallet_id) => self.select_metadata(wallet_id, true),
                None => (self, unsupported()),
            },
            _ => (self, unsupported()),
        }
    }

    /// What a statement that returns a number of rows does.
    pub open spec fn execute(self, statement: Statement, params: Seq<SqlValueView>) -> (
        TablesView,
        ReplyView,
    ) {
        match statement {
            Statement::UpdateItem => match given_update(params) {
                Some((value, key, filter)) => self.update_items(filter, value, key),
                None => (self, unsupported()),
            },
            Statement::DeleteItem => match named_item(params) {
                Some(filter) => self.delete_items(filter),
                None => (self, unsupported()),
            },
            Statement::InsertEncryptedTag => match given_tag(true, params) {
                Some(row) => self.insert_tag(row, false),
                None => (self, unsupported()),
            },
            Statement::InsertPlainTag => match given_tag(false, params) {
                Some(row) => self.insert_tag(row, false),
                None => (self, unsupported()),
            },
            Statement::UpsertEncryptedTag => match given_tag(true, params) {
                Some(row) => self.insert_tag(row, true),
                None => (self, unsupported()),
            },
            Statement::UpsertPlainTag => match given_tag(false, params) {
                Some(row) => self.insert_tag(row, true),
                None => (self, unsupported()),
            },
            Statement::DeleteItemEncryptedTags => match named_tags(params) {
                Some((wallet_id, item_id)) => self.delete_tags(
                    TagFilter::Item { wallet_id, item_id, encrypted: true },
                ),
                None => (self, unsupported()),
            },
            Statement::DeleteItemPlainTags => match named_tags(params) {
                Some((wallet_id, item_id)) => self.delete_tags(
                    TagFilter::Item { wallet_id, item_id, encrypted: false },
                ),
                None => (self, unsupported()),
            },
            Statement::DeleteEncryptedTag => match named_tag(params) {
                Some((wallet_id, item_id, name)) => self.delete_tags(
                    TagFilter::Named { wallet_id, item_id, name: TagNameView::OfEncrypted(name) },
                ),
                None => (self, unsupported()),
            },
            Statement::DeletePlainTag => match named_tag(params) {
                Some((wallet_id, item_id, name)) => self.delete_tags(
                    TagFilter::Named { wallet_id, item_id, name: TagNameView::OfPlain(name) },
                ),
                None => (self, unsupported()),
            },
            Statement::UpdateMetadata => match given_replacement(params) {
                Some((value, wallet_id)) => self.update_metadata(wallet_id, value),
                None => (self, unsupported()),
            },
            Statement::InsertMetadata => match given_metadata(params) {
                Some((wallet_id, value)) => self.insert_metadata(wallet_id, value),
                None => (self, unsupported()),
            },
            Statement::DeleteWalletPlainTags => match named_wallet(params) {
                Some(wallet_id) => self.delete_tags(
                    TagFilter::Wallet { wallet_id, encrypted: false },
                ),
                None => (self, unsupported()),
            },
            Statement::DeleteWalletEncryptedTags => match named_wallet(params) {
                Some(wallet_id) => self.delete_tags(
                    TagFilter::Wallet { wallet_id, encrypted: true },
                ),
                None => (self, unsupported()),
            },
            Statement::DeleteWalletItems => match named_wallet(params) {
                Some(wallet_id) => self.delete_items(ItemFilter::Wallet { wallet_id }),
                None => (self, unsupported()),
            },
            Statement::DeleteWalletMetadata => match named_wallet(params) {
                Some(wallet_id) => self.delete_metadata(wallet_id),
                None => (self, unsupported()),
            },
            Statement::CreateDatabase => (
                self,
                violation(duplicate_database()),
            ),
            Statement::CreateMetadataTable
            | Statement::CreateMetadataIdIndex
            | Statement::CreateMetadataValueIndex
            | Statement::CreateItemsTable
            | Statement::CreateItemsIdIndex
            | Statement::CreateItemsNameIndex
            | Statement::CreateEncryptedTagsTable
            | Statement::CreateEncryptedTagsNameIndex
            | Statement::CreateEncryptedTagsValueIndex
            | Statement::CreateEncryptedTagsItemIndex
            | Statement::CreatePlainTagsTable
            | Statement::CreatePlainTagsNameIndex
            | Statement::CreatePlainTagsValueIndex
            | Statement::CreatePlainTagsItemIndex => (self, ReplyView::Affected(0)),
            _ => (self, unsupported()),
        }
    }

    /// The tables after the open transaction is abandoned: they hold again
    /// what they held when it began.
    pub open spec fn rolled_back(self) -> TablesView {
        match self.saved {
            Some(saved) => TablesView { now: saved, saved: None, ..self },
            None => self,
        }
    }

    /// What the tables do with a request, and what they answer.
    ///
    /// The tables stand for a backend whose database and schema are
    /// provisioned: the database exists already, and the statements of the
    /// schema find their tables and indexes in place. A connection always
    /// opens; closing it abandons a transaction that is still open.
    pub open spec fn serve(self, request: RequestView) -> (TablesView, ReplyView) {
        match request {
            RequestView::Connect { url } => (self, ReplyView::Done),
            RequestView::OpenPool { url } => (self, ReplyView::Done),
            RequestView::Disconnect => (self.rolled_back(), ReplyView::Done),
            RequestView::Begin => match self.saved {
                Some(_) => (self, ReplyView::Done),
                None => (TablesView { saved: Some(self.now), ..self }, ReplyView::Done),
            },
            RequestView::Commit => (TablesView { saved: None, ..self }, ReplyView::Done),
            RequestView::Rollback => (self.rolled_back(), ReplyView::Done),
            RequestView::Query { sql, params } => match sql {
                SqlView::Fixed(statement) => self.query(statement, params),
                SqlView::Translated(text) => self.translated(text, params),
            },
            RequestView::Execute { statement, params } => self.execute(statement, params),
            _ => (self, unsupported()),
        }
    }
}

} // verus!
