//! The handle of an open wallet and the operations that it offers.
//!
//! Each operation is handed out as a machine before its first request. The
//! holder of the wallet's connection pool leases a connection, advances the
//! machine with `Reply::Ready`, performs the request it answers with, and
//! advances it with the reply, until the machine answers with its result.

use vstd::prelude::*;
use crate::bytes::copy_text;
use crate::command::{
    Command,
    CommandKind,
    CommandPhase,
    CommandView,
    MetadataRead,
    MetadataReadView,
};
use crate::error::WalletStorageError;
use crate::options::{Document, RecordOptions, SearchOptions};
use crate::protocol::{SqlValueView, SqlView};
use crate::read::{ReadPhase, RecordRead, RecordReadView};
use crate::record::{
    copy_tag_names,
    copy_tags,
    EncryptedValue,
    EncryptedValueView,
    Tag,
    TagName,
    TagNameView,
    TagView,
};
use crate::search::{scan_options, Search, SearchPhase, SearchView};
use crate::statement::Statement;
use crate::write::{ItemWrite, ItemWriteView, WriteKind, WritePhase};

verus! {

/// An open wallet. The handle names the wallet; whoever drives its
/// operations holds the connection pool that belongs to it.
#[derive(Clone, Debug, PartialEq, Eq)]
pub struct PostgresStorage {
    pub wallet_id: String,
}

/// What a [`PostgresStorage`] holds.
pub struct PostgresStorageView {
    pub wallet_id: Seq<char>,
}

impl View for PostgresStorage {
    type V = PostgresStorageView;

    open spec fn view(&self) -> PostgresStorageView {
        PostgresStorageView { wallet_id: self.wallet_id@ }
    }
}

impl DeepView for PostgresStorage {
    type V = PostgresStorageView;

    open spec fn deep_view(&self) -> PostgresStorageView {
        self@
    }
}

/// The value of an operation that writes none.
pub open spec fn no_value() -> EncryptedValueView {
    EncryptedValueView { data: Seq::empty(), key: Seq::empty() }
}

impl PostgresStorageView {
    /// A writing operation of `kind` on the item with a type and a name,
    /// before its first request.
    pub open spec fn write(
        self,
        kind: WriteKind,
        type_: Seq<u8>,
        name: Seq<u8>,
        value: EncryptedValueView,
        tags: Seq<TagView>,
        tag_names: Seq<TagNameView>,
    ) -> ItemWriteView {
        ItemWriteView {
            kind,
            wallet_id: self.wallet_id,
            type_,
            name,
            value,
            tags,
            tag_names,
            phase: WritePhase::Start,
            item_id: 0,
            failure: None,
        }
    }

    /// An operation of one statement, before its request.
    pub open spec fn command(
        self,
        kind: CommandKind,
        type_: Seq<u8>,
        name: Seq<u8>,
        value: EncryptedValueView,
        metadata: Seq<u8>,
    ) -> CommandView {
        CommandView {
            kind,
            wallet_id: self.wallet_id,
            type_,
            name,
            value,
            metadata,
            phase: CommandPhase::Start,
        }
    }

    /// The lookup of a record, before its first request.
    pub open spec fn read(
        self,
        type_: Seq<u8>,
        name: Seq<u8>,
        options: Document<RecordOptions>,
    ) -> RecordReadView {
        RecordReadView {
            wallet_id: self.wallet_id,
            type_,
            name,
            options: RecordOptions::resolve(options),
            phase: ReadPhase::Start,
            item_id: 0,
            value: Seq::empty(),
            key: Seq::empty(),
            tags: Seq::empty(),
        }
    }

    /// The scan of all items of the wallet, before its first request.
    pub open spec fn scan(self) -> SearchView {
        SearchView {
            wallet_id: self.wallet_id,
            type_: Seq::empty(),
            options: Some(scan_options()),
            source: Some(SqlView::Fixed(Statement::SelectAllItems)),
            params: seq![SqlValueView::Text(self.wallet_id)],
            total_count: None,
            phase: SearchPhase::Start,
        }
    }
}

/// A search of the items of a wallet by a predicate, before its first
/// request.
pub open spec fn search_start(
    wallet_id: Seq<char>,
    type_: Seq<u8>,
    options: Document<SearchOptions>,
) -> SearchView {
    SearchView {
        wallet_id,
        type_,
        options: SearchOptions::resolve(options),
        source: None,
        params: Seq::empty(),
        total_count: None,
        phase: SearchPhase::Start,
    }
}

fn empty_value() -> (value: EncryptedValue)
    ensures
        value@ == no_value(),
{
    EncryptedValue::new(Vec::new(), Vec::new())
}

fn no_tags() -> (tags: Vec<Tag>)
    ensures
        tags.deep_view() == Seq::<TagView>::empty(),
{
    let tags: Vec<Tag> = Vec::new();
    assert(tags.deep_view() =~= Seq::empty());
    tags
}

fn no_tag_names() -> (names: Vec<TagName>)
    ensures
        names.deep_view() == Seq::<TagNameView>::empty(),
{
    let names: Vec<TagName> = Vec::new();
    assert(names.deep_view() =~= Seq::empty());
    names
}

impl PostgresStorage {
    /// The handle of the wallet `wallet_id`.
    pub fn new(wallet_id: &str) -> (storage: PostgresStorage)
        ensures
            storage@.wallet_id == wallet_id@,
    {
        PostgresStorage { wallet_id: copy_text(wallet_id) }
    }

    /// Looks up the record with a type and a name. The options select
    /// whether it comes with its value, its type and its tags; an unreadable
    /// options document is a `ConfigError` before anything is asked of the
    /// backend; an item that does not exist is `ItemNotFound`.
    pub fn get(&self, type_: &[u8], id: &[u8], options: Document<RecordOptions>) -> (operation:
        RecordRead)
        ensures
            operation@ == self@.read(type_@, id@, options),
    {
        RecordRead::new(self.wallet_id.as_str(), type_, id, options)
    }

    /// Inserts an item and its tags, all or nothing. An item or a tag that
    /// exists already is `ItemAlreadyExists`.
    pub fn add(&self, type_: &[u8], id: &[u8], value: &EncryptedValue, tags: &[Tag]) -> (operation:
        ItemWrite)
        ensures
            operation@ == self@.write(
                WriteKind::Add,
                type_@,
                id@,
                value@,
                tags.deep_view(),
                Seq::empty(),
            ),
    {
        ItemWrite::new(
            WriteKind::Add,
            self.wallet_id.as_str(),
            type_,
            id,
            value.duplicate(),
            copy_tags(tags),
            no_tag_names(),
        )
    }

    /// Replaces the value of an item. An item that does not exist is
    /// `ItemNotFound`.
    pub fn update(&self, type_: &[u8], id: &[u8], value: &EncryptedValue) -> (operation: Command)
        ensures
            operation@ == self@.command(CommandKind::Update, type_@, id@, value@, Seq::empty()),
    {
        let nothing: Vec<u8> = Vec::new();
        Command::new(
            CommandKind::Update,
            self.wallet_id.as_str(),
            type_,
            id,
            value.duplicate(),
            nothing.as_slice(),
        )
    }

    /// Adds tags to an item, all or nothing. A tag whose name the item has
    /// already, in the same variant, is overwritten. An item that does not
    /// exist is `ItemNotFound`.
    pub fn add_tags(&self, type_: &[u8], id: &[u8], tags: &[Tag]) -> (operation: ItemWrite)
        ensures
            operation@ == self@.write(
                WriteKind::AddTags,
                type_@,
                id@,
                no_value(),
                tags.deep_view(),
                Seq::empty(),
            ),
    {
        ItemWrite::new(
            WriteKind::AddTags,
            self.wallet_id.as_str(),
            type_,
            id,
            empty_value(),
            copy_tags(tags),
            no_tag_names(),
        )
    }

    /// Replaces all tags of an item by `tags`, all or nothing. An item that
    /// does not exist is `ItemNotFound`.
    pub fn update_tags(&self, type_: &[u8], id: &[u8], tags: &[Tag]) -> (operation: ItemWrite)
        ensures
            operation@ == self@.write(
                WriteKind::UpdateTags,
                type_@,
                id@,
                no_value(),
                tags.deep_view(),
                Seq::empty(),
            ),
    {
        ItemWrite::new(
            WriteKind::UpdateTags,
            self.wallet_id.as_str(),
            type_,
            id,
            empty_value(),
            copy_tags(tags),
            no_tag_names(),
        )
    }

    /// Deletes the named tags of an item, each from the variant that its
    /// name belongs to, all or nothing. An item that does not exist is
    /// `ItemNotFound`.
    pub fn delete_tags(&self, type_: &[u8], id: &[u8], tag_names: &[TagName]) -> (operation:
        ItemWrite)
        ensures
            operation@ == self@.write(
                WriteKind::DeleteTags,
                type_@,
                id@,
                no_value(),
                Seq::empty(),
                tag_names.deep_view(),
            ),
    {
        ItemWrite::new(
            WriteKind::DeleteTags,
            self.wallet_id.as_str(),
            type_,
            id,
            empty_value(),
            no_tags(),
            copy_tag_names(tag_names),
        )
    }

    /// Deletes an item and, with it, its tags. An item that does not exist
    /// is `ItemNotFound`.
    pub fn delete(&self, type_: &[u8], id: &[u8]) -> (operation: Command)
        ensures
            operation@ == self@.command(
                CommandKind::Delete,
                type_@,
                id@,
                no_value(),
                Seq::empty(),
            ),
    {
        let nothing: Vec<u8> = Vec::new();
        Command::new(
            CommandKind::Delete,
            self.wallet_id.as_str(),
            type_,
            id,
            empty_value(),
            nothing.as_slice(),
        )
    }

    /// Reads the metadata of the wallet.
    pub fn get_storage_metadata(&self) -> (operation: MetadataRead)
        ensures
            operation@ == (MetadataReadView {
                wallet_id: self@.wallet_id,
                phase: CommandPhase::Start,
            }),
    {
        MetadataRead::new(self.wallet_id.as_str())
    }

    /// Replaces the metadata of the wallet. It never creates a missing row.
    pub fn set_storage_metadata(&self, metadata: &[u8]) -> (operation: Command)
        ensures
            operation@ == self@.command(
                CommandKind::SetMetadata,
                Seq::empty(),
                Seq::empty(),
                no_value(),
                metadata@,
            ),
    {
        let nothing: Vec<u8> = Vec::new();
        Command::new(
            CommandKind::SetMetadata,
            self.wallet_id.as_str(),
            nothing.as_slice(),
            nothing.as_slice(),
            empty_value(),
            metadata,
        )
    }

    /// Scans all items of the wallet: a search with the empty predicate,
    /// whose records come with type, value and tags.
    pub fn get_all(&self) -> (operation: Search)
        ensures
            operation@ == self@.scan(),
    {
        Search::scan(self.wallet_id.as_str())
    }

    /// Searches the items of this wallet with a type by the predicate that
    /// the driver holds. The wallet goes with every request to the
    /// predicate compiler and with the cursor: the search means rows of this
    /// wallet only. An unreadable options document is a `ConfigError` before
    /// anything is asked of the backend or of the predicate compiler.
    pub fn search(&self, type_: &[u8], options: Document<SearchOptions>) -> (operation: Search)
        ensures
            operation@ == search_start(self@.wallet_id, type_@, options),
    {
        Search::new(self.wallet_id.as_str(), type_, options)
    }

    /// Closes the wallet. The handle holds nothing to release: the
    /// connections belong to the pool.
    pub fn close(&mut self) -> (closed: Result<(), WalletStorageError>)
        ensures
            closed is Ok,
            *final(self) == *old(self),
    {
        Ok(())
    }
}

} // verus!
