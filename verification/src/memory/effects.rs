//! What each operation of the engine does when it runs on tables in memory:
//! its result, and what the tables hold afterwards.

use vstd::prelude::*;
use crate::command::{
    first_blob,
    metadata_context,
    update_count_message,
    Command,
    CommandKind,
    CommandPhase,
    CommandView,
    MetadataRead,
    MetadataReadView,
};
use crate::error::WalletStorageErrorView;
use crate::memory::lookup::tags_from_rows;
use crate::memory::model::{
    blob_columns,
    given_replacement,
    given_update,
    metadata_columns,
    metadata_of,
    named_item,
    named_tags,
    named_wallet,
    row_count,
    tag_columns_of,
    value_columns,
    ItemColumns,
    ItemFilter,
    TablesView,
    TagFilter,
};
use crate::memory::run::{run, run_unfolds};
use crate::memory::session::SessionView;
use crate::memory::writes::on;
use crate::options::{Document, RecordOptions};
use crate::protocol::{ReplyView, RequestView, SqlView, StepView};
use crate::read::{first_item, shaped_record, tags_key, ReadPhase, RecordRead, RecordReadView};
use crate::record::{EncryptedValueView, StorageRecordView};
use crate::statement::Statement;
use crate::storage::{no_value, PostgresStorageView};
use crate::write::item_key;

verus! {

impl TablesView {
    /// What the lookup of a record returns: the first row of the item, with
    /// the fields that the options ask for. Its tags are the encrypted ones,
    /// then the plaintext ones, each in the order of their insertion.
    pub open spec fn get(
        self,
        wallet_id: Seq<char>,
        type_: Seq<u8>,
        name: Seq<u8>,
        options: Document<RecordOptions>,
    ) -> Result<StorageRecordView, WalletStorageErrorView> {
        let found = self.now.items_named(wallet_id, type_, name);
        match RecordOptions::resolve(options) {
            None => Err(WalletStorageErrorView::ConfigError),
            Some(options) => if found.len() == 0 {
                Err(WalletStorageErrorView::ItemNotFound)
            } else {
                Ok(
                    shaped_record(
                        options,
                        name,
                        type_,
                        found[0].value,
                        found[0].key,
                        if options.retrieve_tags {
                            Some(
                                self.now.tags_of(wallet_id, found[0].id, true) + self.now.tags_of(
                                    wallet_id,
                                    found[0].id,
                                    false,
                                ),
                            )
                        } else {
                            None
                        },
                    ),
                )
            },
        }
    }
}

/// Looking up a record leaves the session as it was and returns what
/// [`TablesView::get`] says.
pub proof fn get_runs(
    session: SessionView,
    storage: PostgresStorageView,
    type_: Seq<u8>,
    name: Seq<u8>,
    options: Document<RecordOptions>,
)
    ensures
        run::<RecordRead>(storage.read(type_, name, options), ReplyView::Ready, session) == (
            session,
            session.tables.get(storage.wallet_id, type_, name, options),
        ),
{
    let wallet_id = storage.wallet_id;
    let tables = session.tables;
    let start = storage.read(type_, name, options);
    if start.options is Some {
        let chosen = start.options->Some_0;
        let filter = ItemFilter::Named { wallet_id, type_, name };
        let key = item_key(wallet_id, type_, name);
        assert(named_item(key) == Some(filter));
        let found = tables.now.items.filter(filter.chosen());
        let rows = found.map_values(ItemColumns::Value.of());
        let asked = RecordReadView { phase: ReadPhase::Item, ..start };
        assert(start.advance(ReplyView::Ready) == (
            asked,
            StepView::<StorageRecordView>::Perform(
                RequestView::Query { sql: SqlView::Fixed(Statement::SelectItem), params: key },
            ),
        ));
        assert(session.serve(
            RequestView::Query { sql: SqlView::Fixed(Statement::SelectItem), params: key },
        ) == (session, ReplyView::Rows(rows)));
        assert(run::<RecordRead>(start, ReplyView::Ready, session) == run::<RecordRead>(
            asked,
            ReplyView::Rows(rows),
            session,
        ));
        if found.len() > 0 {
            let row = found[0];
            assert(rows[0] == value_columns(row));
            assert(first_item(rows) == Some((row.id, row.value, row.key)));
            if chosen.retrieve_tags {
                let at = RecordReadView {
                    item_id: row.id,
                    value: row.value,
                    key: row.key,
                    ..asked
                };
                let tags_params = tags_key(wallet_id, row.id);
                assert(named_tags(tags_params) == Some((wallet_id, row.id)));
                let encrypted = TagFilter::Item { wallet_id, item_id: row.id, encrypted: true };
                let plain = TagFilter::Item { wallet_id, item_id: row.id, encrypted: false };
                let encrypted_rows = tables.now.tags.filter(encrypted.chosen()).map_values(
                    tag_columns_of(),
                );
                let plain_rows = tables.now.tags.filter(plain.chosen()).map_values(
                    tag_columns_of(),
                );
                tags_from_rows(tables.now.tags, encrypted, true);
                tags_from_rows(tables.now.tags, plain, false);
                let first = RecordReadView { phase: ReadPhase::EncryptedTags, ..at };
                let second = RecordReadView {
                    phase: ReadPhase::PlainTags,
                    tags: first.tags + tables.now.tags_of(wallet_id, row.id, true),
                    ..first
                };
                assert(first.tags + tables.now.tags_of(wallet_id, row.id, true)
                    =~= tables.now.tags_of(wallet_id, row.id, true));
                assert(session.serve(
                    RequestView::Query {
                        sql: SqlView::Fixed(Statement::SelectEncryptedTags),
                        params: tags_params,
                    },
                ) == (session, ReplyView::Rows(encrypted_rows)));
                assert(session.serve(
                    RequestView::Query {
                        sql: SqlView::Fixed(Statement::SelectPlainTags),
                        params: tags_params,
                    },
                ) == (session, ReplyView::Rows(plain_rows)));
                assert(run::<RecordRead>(asked, ReplyView::Rows(rows), session) == run::<
                    RecordRead,
                >(first, ReplyView::Rows(encrypted_rows), session));
                assert(run::<RecordRead>(first, ReplyView::Rows(encrypted_rows), session) == run::<
                    RecordRead,
                >(second, ReplyView::Rows(plain_rows), session));
            }
        }
    }
}

impl TablesView {
    /// What `update` does: the item gets the new value and key. It
    /// succeeds where exactly one row is the item; no row is
    /// `ItemNotFound`, more than one is an invalid state.
    pub open spec fn update(
        self,
        wallet_id: Seq<char>,
        type_: Seq<u8>,
        name: Seq<u8>,
        value: EncryptedValueView,
    ) -> (TablesView, Result<(), WalletStorageErrorView>) {
        let rows = row_count(self.now.items_named(wallet_id, type_, name).len());
        (
            self.update_items(ItemFilter::Named { wallet_id, type_, name }, value.data, value.key).0,
            if rows == 1 {
                Ok(())
            } else if rows == 0 {
                Err(WalletStorageErrorView::ItemNotFound)
            } else {
                Err(WalletStorageErrorView::InvalidState(update_count_message(rows)))
            },
        )
    }

    /// What `delete` does: the item is deleted, and its tags with it. It
    /// succeeds where exactly one row was the item, and is `ItemNotFound`
    /// otherwise.
    pub open spec fn delete(self, wallet_id: Seq<char>, type_: Seq<u8>, name: Seq<u8>) -> (
        TablesView,
        Result<(), WalletStorageErrorView>,
    ) {
        (
            self.delete_items(ItemFilter::Named { wallet_id, type_, name }).0,
            if row_count(self.now.items_named(wallet_id, type_, name).len()) == 1 {
                Ok(())
            } else {
                Err(WalletStorageErrorView::ItemNotFound)
            },
        )
    }

    /// What `set_storage_metadata` does: the row of metadata of the wallet
    /// gets the new value. It succeeds too where the wallet has no row, and
    /// creates none.
    pub open spec fn set_metadata(self, wallet_id: Seq<char>, metadata: Seq<u8>) -> (
        TablesView,
        Result<(), WalletStorageErrorView>,
    ) {
        let (replaced, reply) = self.update_metadata(wallet_id, metadata);
        (
            replaced,
            match reply {
                ReplyView::Failed(error) => Err(error.io_failure(metadata_context())),
                _ => Ok(()),
            },
        )
    }

    /// What `get_storage_metadata` returns: the value of the first row of
    /// metadata of the wallet.
    pub open spec fn get_metadata(self, wallet_id: Seq<char>) -> Result<
        Seq<u8>,
        WalletStorageErrorView,
    > {
        let found = self.now.metadata.filter(metadata_of(wallet_id));
        if found.len() == 0 {
            Err(WalletStorageErrorView::ItemNotFound)
        } else {
            Ok(found[0].value)
        }
    }
}

/// Running `update` does what [`TablesView::update`] says.
pub proof fn update_runs(
    session: SessionView,
    storage: PostgresStorageView,
    type_: Seq<u8>,
    name: Seq<u8>,
    value: EncryptedValueView,
)
    ensures
        run::<Command>(
            storage.command(CommandKind::Update, type_, name, value, Seq::empty()),
            ReplyView::Ready,
            session,
        ) == ({
            let effect = session.tables.update(storage.wallet_id, type_, name, value);
            (on(session, effect.0), effect.1)
        }),
{
    let start = storage.command(CommandKind::Update, type_, name, value, Seq::empty());
    let waiting = CommandView { phase: CommandPhase::Waiting, ..start };
    let filter = ItemFilter::Named { wallet_id: storage.wallet_id, type_, name };
    run_unfolds::<Command>(start, ReplyView::Ready, session);
    let request = start.request();
    assert(request is Execute);
    assert(given_update(request->Execute_params) == Some((value.data, value.key, filter)));
    let (next, reply) = session.tables.update_items(filter, value.data, value.key);
    assert(session.serve(request) == (on(session, next), reply));
    run_unfolds::<Command>(waiting, reply, on(session, next));
}

/// Running `delete` does what [`TablesView::delete`] says.
pub proof fn delete_runs(
    session: SessionView,
    storage: PostgresStorageView,
    type_: Seq<u8>,
    name: Seq<u8>,
)
    ensures
        run::<Command>(
            storage.command(CommandKind::Delete, type_, name, no_value(), Seq::empty()),
            ReplyView::Ready,
            session,
        ) == ({
            let effect = session.tables.delete(storage.wallet_id, type_, name);
            (on(session, effect.0), effect.1)
        }),
{
    let start = storage.command(CommandKind::Delete, type_, name, no_value(), Seq::empty());
    let waiting = CommandView { phase: CommandPhase::Waiting, ..start };
    let filter = ItemFilter::Named { wallet_id: storage.wallet_id, type_, name };
    run_unfolds::<Command>(start, ReplyView::Ready, session);
    let request = start.request();
    assert(request is Execute);
    assert(named_item(request->Execute_params) == Some(filter));
    let (next, reply) = session.tables.delete_items(filter);
    assert(session.serve(request) == (on(session, next), reply));
    run_unfolds::<Command>(waiting, reply, on(session, next));
}

/// Running `set_storage_metadata` does what [`TablesView::set_metadata`]
/// says.
pub proof fn set_metadata_runs(
    session: SessionView,
    storage: PostgresStorageView,
    metadata: Seq<u8>,
)
    ensures
        run::<Command>(
            storage.command(
                CommandKind::SetMetadata,
                Seq::empty(),
                Seq::empty(),
                no_value(),
                metadata,
            ),
            ReplyView::Ready,
            session,
        ) == ({
            let effect = session.tables.set_metadata(storage.wallet_id, metadata);
            (on(session, effect.0), effect.1)
        }),
{
    let start = storage.command(
        CommandKind::SetMetadata,
        Seq::empty(),
        Seq::empty(),
        no_value(),
        metadata,
    );
    let waiting = CommandView { phase: CommandPhase::Waiting, ..start };
    run_unfolds::<Command>(start, ReplyView::Ready, session);
    let request = start.request();
    assert(request is Execute);
    assert(given_replacement(request->Execute_params) == Some((metadata, storage.wallet_id)));
    let (next, reply) = session.tables.update_metadata(storage.wallet_id, metadata);
    assert(session.serve(request) == (on(session, next), reply));
    run_unfolds::<Command>(waiting, reply, on(session, next));
}

/// Running `get_storage_metadata` leaves the session as it was and returns
/// what [`TablesView::get_metadata`] says.
pub proof fn get_metadata_runs(session: SessionView, storage: PostgresStorageView)
    ensures
        run::<MetadataRead>(
            MetadataReadView { wallet_id: storage.wallet_id, phase: CommandPhase::Start },
            ReplyView::Ready,
            session,
        ) == (session, session.tables.get_metadata(storage.wallet_id)),
{
    let start = MetadataReadView { wallet_id: storage.wallet_id, phase: CommandPhase::Start };
    let waiting = MetadataReadView { phase: CommandPhase::Waiting, ..start };
    run_unfolds::<MetadataRead>(start, ReplyView::Ready, session);
    let request = start.request();
    assert(request is Query);
    assert(named_wallet(request->Query_params) == Some(storage.wallet_id));
    let found = session.tables.now.metadata.filter(metadata_of(storage.wallet_id));
    let rows = found.map_values(metadata_columns(false));
    assert(session.serve(request) == (session, ReplyView::Rows(rows)));
    run_unfolds::<MetadataRead>(waiting, ReplyView::Rows(rows), session);
    if found.len() > 0 {
        assert(rows[0] == blob_columns(found[0]));
        assert(first_blob(rows) == Some(found[0].value));
    }
}

} // verus!
