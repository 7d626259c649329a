//! A backend in memory: the operations of the engine, run to their end on
//! tables that the process holds.

use vstd::prelude::*;
use crate::bytes::bytes_deep_view;
use crate::config::{PostgresConfig, PostgresCredentials, PostgresStorageType};
use crate::error::{WalletStorageError, WalletStorageErrorView};
use crate::iterator::{fresh_iterator, FetchPhase, StorageIterator, StorageIteratorView};
use crate::memory::constraints::{
    add_keeps_wf,
    empty_is_wf,
    remove_tags_keeps_wf,
    set_tags_keeps_wf,
    update_and_delete_keep_wf,
    wallets_keep_wf,
};
use crate::memory::effects::{
    delete_runs,
    get_metadata_runs,
    get_runs,
    set_metadata_runs,
    update_runs,
};
use crate::memory::model::TablesView;
use crate::memory::run::{drive, result_view};
use crate::memory::scan::{fetch_runs, scan_fields, scan_runs, search_runs};
use crate::memory::session::{Cursor, SessionView};
use crate::memory::tables::Tables;
use crate::memory::wallets::{create_runs, delete_wallet_runs, open_runs, provision_runs};
use crate::memory::writes::{add_runs, remove_tags_runs, set_tags_runs};
use crate::options::{Document, RecordOptions, SearchOptions};
use crate::protocol::RowView;
use crate::record::{EncryptedValue, StorageRecord, Tag, TagName};
use crate::storage::{no_value, PostgresStorage};

verus! {

/// A backend in memory. Its operations leave no transaction open on its
/// tables.
pub struct MemoryBackend {
    pub(crate) tables: Tables,
}

impl View for MemoryBackend {
    type V = TablesView;

    closed spec fn view(&self) -> TablesView {
        self.tables@
    }
}

/// The stream of a search on a backend in memory: the stream of the engine
/// and the cursor that it reads from.
pub struct MemoryIterator {
    pub(crate) stream: StorageIterator,
    pub(crate) cursor: Cursor,
}

impl MemoryIterator {
    /// The stream of the engine.
    pub closed spec fn stream(&self) -> StorageIteratorView {
        self.stream@
    }

    /// The rows that the cursor has not handed out yet.
    pub closed spec fn rows(&self) -> Option<Seq<RowView>> {
        self.cursor@
    }

    /// The number of matching records that the search counted, or nothing
    /// where no count was asked for.
    pub fn get_total_count(&self) -> (count: Result<Option<usize>, WalletStorageError>)
        ensures
            count == Ok::<Option<usize>, WalletStorageError>(self.stream().total_count),
    {
        self.stream.get_total_count()
    }

    /// Fetches the next record of the stream, or nothing when the stream is
    /// exhausted.
    pub fn next(&mut self, backend: &mut MemoryBackend) -> (result: Result<
        Option<StorageRecord>,
        WalletStorageError,
    >)
        ensures
            final(backend)@ == old(backend)@,
            ({
                let fetched = (SessionView {
                    tables: old(backend)@,
                    cursor: old(self).rows(),
                }).fetch(StorageIteratorView { phase: FetchPhase::Idle, ..old(self).stream() });
                &&& final(backend)@ == fetched.session.tables
                &&& final(self).rows() == fetched.session.cursor
                &&& final(self).stream() == fetched.stream
                &&& result_view(result) == fetched.result
            }),
    {
        self.stream.phase = FetchPhase::Idle;
        proof {
            fetch_runs(SessionView { tables: backend.tables@, cursor: self.cursor@ }, self.stream@);
        }
        drive(&mut backend.tables, &mut self.cursor, &mut self.stream)
    }
}

impl MemoryBackend {
    /// A backend whose database and schema are provisioned and hold
    /// nothing.
    pub fn new() -> (backend: MemoryBackend)
        ensures
            backend@ == TablesView::empty(),
            backend@.wf(),
    {
        proof {
            empty_is_wf();
        }
        MemoryBackend { tables: Tables::new() }
    }

    /// Runs `init_storage`.
    pub fn init_storage(
        &mut self,
        storage_type: &PostgresStorageType,
        config: Document<PostgresConfig>,
        credentials: Document<PostgresCredentials>,
    ) -> (result: Result<(), WalletStorageError>)
        ensures
            old(self)@.wf() ==> final(self)@.wf(),
            (final(self)@, result_view(result)) == old(self)@.provision(config, credentials),
    {
        let mut operation = storage_type.init_storage(config, credentials);
        let mut cursor = Cursor::none();
        proof {
            if self.tables@.wf() {
                wallets_keep_wf(self.tables@, Seq::empty(), config, credentials, Seq::empty());
            }
            provision_runs(
                SessionView { tables: self.tables@, cursor: cursor@ },
                config,
                credentials,
            );
        }
        drive(&mut self.tables, &mut cursor, &mut operation)
    }

    /// Runs `create_storage`.
    pub fn create_storage(
        &mut self,
        storage_type: &PostgresStorageType,
        id: &str,
        config: Document<PostgresConfig>,
        credentials: Document<PostgresCredentials>,
        metadata: &[u8],
    ) -> (result: Result<(), WalletStorageError>)
        ensures
            old(self)@.wf() ==> final(self)@.wf(),
            (final(self)@, result_view(result)) == old(self)@.create(
                id@,
                config,
                credentials,
                metadata@,
            ),
    {
        let mut operation = storage_type.create_storage(id, config, credentials, metadata);
        let mut cursor = Cursor::none();
        proof {
            if self.tables@.wf() {
                wallets_keep_wf(self.tables@, id@, config, credentials, metadata@);
            }
            create_runs(
                SessionView { tables: self.tables@, cursor: cursor@ },
                id@,
                config,
                credentials,
                metadata@,
            );
        }
        drive(&mut self.tables, &mut cursor, &mut operation)
    }

    /// Runs `open_storage`.
    pub fn open_storage(
        &mut self,
        storage_type: &PostgresStorageType,
        id: &str,
        config: Document<PostgresConfig>,
        credentials: Document<PostgresCredentials>,
    ) -> (result: Result<PostgresStorage, WalletStorageError>)
        ensures
            old(self)@.wf() ==> final(self)@.wf(),
            (final(self)@, result_view(result)) == old(self)@.open(id@, config, credentials),
    {
        let mut operation = storage_type.open_storage(id, config, credentials);
        let mut cursor = Cursor::none();
        proof {
            if self.tables@.wf() {
                wallets_keep_wf(self.tables@, id@, config, credentials, Seq::empty());
            }
            open_runs(
                SessionView { tables: self.tables@, cursor: cursor@ },
                id@,
                config,
                credentials,
            );
        }
        drive(&mut self.tables, &mut cursor, &mut operation)
    }

    /// Runs `delete_storage`.
    pub fn delete_storage(
        &mut self,
        storage_type: &PostgresStorageType,
        id: &str,
        config: Document<PostgresConfig>,
        credentials: Document<PostgresCredentials>,
    ) -> (result: Result<(), WalletStorageError>)
        ensures
            old(self)@.wf() ==> final(self)@.wf(),
            (final(self)@, result_view(result)) == old(self)@.delete_wallet(
                id@,
                config,
                credentials,
            ),
    {
        let mut operation = storage_type.delete_storage(id, config, credentials);
        let mut cursor = Cursor::none();
        proof {
            if self.tables@.wf() {
                wallets_keep_wf(self.tables@, id@, config, credentials, Seq::empty());
            }
            delete_wallet_runs(
                SessionView { tables: self.tables@, cursor: cursor@ },
                id@,
                config,
                credentials,
            );
        }
        drive(&mut self.tables, &mut cursor, &mut operation)
    }

    /// Runs `get`.
    pub fn get(
        &mut self,
        storage: &PostgresStorage,
        type_: &[u8],
        id: &[u8],
        options: Document<RecordOptions>,
    ) -> (result: Result<StorageRecord, WalletStorageError>)
        ensures
            old(self)@.wf() ==> final(self)@.wf(),
            final(self)@ == old(self)@,
            result_view(result) == old(self)@.get(storage@.wallet_id, type_@, id@, options),
    {
        let mut operation = storage.get(type_, id, options);
        let mut cursor = Cursor::none();
        proof {
            get_runs(
                SessionView { tables: self.tables@, cursor: cursor@ },
                storage@,
                type_@,
                id@,
                options,
            );
        }
        drive(&mut self.tables, &mut cursor, &mut operation)
    }

    /// Runs `add`.
    pub fn add(
        &mut self,
        storage: &PostgresStorage,
        type_: &[u8],
        id: &[u8],
        value: &EncryptedValue,
        tags: &[Tag],
    ) -> (result: Result<(), WalletStorageError>)
        ensures
            old(self)@.wf() ==> final(self)@.wf(),
            (final(self)@, result_view(result)) == old(self)@.add(
                storage@.wallet_id,
                type_@,
                id@,
                value@,
                tags.deep_view(),
            ),
    {
        let mut operation = storage.add(type_, id, value, tags);
        let mut cursor = Cursor::none();
        proof {
            assert(tags.deep_view().len() == tags.len());
            if self.tables@.wf() {
                add_keeps_wf(
                    self.tables@,
                    storage@.wallet_id,
                    type_@,
                    id@,
                    value@,
                    tags.deep_view(),
                );
            }
            add_runs(
                SessionView { tables: self.tables@, cursor: cursor@ },
                storage@,
                type_@,
                id@,
                value@,
                tags.deep_view(),
            );
        }
        drive(&mut self.tables, &mut cursor, &mut operation)
    }

    /// Runs `update`.
    pub fn update(
        &mut self,
        storage: &PostgresStorage,
        type_: &[u8],
        id: &[u8],
        value: &EncryptedValue,
    ) -> (result: Result<(), WalletStorageError>)
        ensures
            old(self)@.wf() ==> final(self)@.wf(),
            (final(self)@, result_view(result)) == old(self)@.update(
                storage@.wallet_id,
                type_@,
                id@,
                value@,
            ),
    {
        let mut operation = storage.update(type_, id, value);
        let mut cursor = Cursor::none();
        proof {
            if self.tables@.wf() {
                update_and_delete_keep_wf(self.tables@, storage@.wallet_id, type_@, id@, value@);
            }
            update_runs(
                SessionView { tables: self.tables@, cursor: cursor@ },
                storage@,
                type_@,
                id@,
                value@,
            );
        }
        drive(&mut self.tables, &mut cursor, &mut operation)
    }

    /// Runs `add_tags`.
    pub fn add_tags(&mut self, storage: &PostgresStorage, type_: &[u8], id: &[u8], tags: &[Tag]) -> (result:
        Result<(), WalletStorageError>)
        ensures
            old(self)@.wf() ==> final(self)@.wf(),
            (final(self)@, result_view(result)) == old(self)@.set_tags(
                storage@.wallet_id,
                type_@,
                id@,
                tags.deep_view(),
                false,
            ),
    {
        let mut operation = storage.add_tags(type_, id, tags);
        let mut cursor = Cursor::none();
        proof {
            assert(tags.deep_view().len() == tags.len());
            if self.tables@.wf() {
                set_tags_keeps_wf(
                    self.tables@,
                    storage@.wallet_id,
                    type_@,
                    id@,
                    tags.deep_view(),
                    false,
                );
            }
            set_tags_runs(
                SessionView { tables: self.tables@, cursor: cursor@ },
                storage@,
                type_@,
                id@,
                tags.deep_view(),
                false,
            );
        }
        drive(&mut self.tables, &mut cursor, &mut operation)
    }

    /// Runs `update_tags`.
    pub fn update_tags(
        &mut self,
        storage: &PostgresStorage,
        type_: &[u8],
        id: &[u8],
        tags: &[Tag],
    ) -> (result: Result<(), WalletStorageError>)
        ensures
            old(self)@.wf() ==> final(self)@.wf(),
            (final(self)@, result_view(result)) == old(self)@.set_tags(
                storage@.wallet_id,
                type_@,
                id@,
                tags.deep_view(),
                true,
            ),
    {
        let mut operation = storage.update_tags(type_, id, tags);
        let mut cursor = Cursor::none();
        proof {
            assert(tags.deep_view().len() == tags.len());
            if self.tables@.wf() {
                set_tags_keeps_wf(
                    self.tables@,
                    storage@.wallet_id,
                    type_@,
                    id@,
                    tags.deep_view(),
                    true,
                );
            }
            set_tags_runs(
                SessionView { tables: self.tables@, cursor: cursor@ },
                storage@,
                type_@,
                id@,
                tags.deep_view(),
                true,
            );
        }
        drive(&mut self.tables, &mut cursor, &mut operation)
    }

    /// Runs `delete_tags`.
    pub fn delete_tags(
        &mut self,
        storage: &PostgresStorage,
        type_: &[u8],
        id: &[u8],
        tag_names: &[TagName],
    ) -> (result: Result<(), WalletStorageError>)
        ensures
            old(self)@.wf() ==> final(self)@.wf(),
            (final(self)@, result_view(result)) == old(self)@.remove_tags(
                storage@.wallet_id,
                type_@,
                id@,
                tag_names.deep_view(),
            ),
    {
        let mut operation = storage.delete_tags(type_, id, tag_names);
        let mut cursor = Cursor::none();
        proof {
            assert(tag_names.deep_view().len() == tag_names.len());
            if self.tables@.wf() {
                remove_tags_keeps_wf(
                    self.tables@,
                    storage@.wallet_id,
                    type_@,
                    id@,
                    tag_names.deep_view(),
                );
            }
            remove_tags_runs(
                SessionView { tables: self.tables@, cursor: cursor@ },
                storage@,
                type_@,
                id@,
                tag_names.deep_view(),
            );
        }
        drive(&mut self.tables, &mut cursor, &mut operation)
    }

    /// Runs `delete`.
    pub fn delete(&mut self, storage: &PostgresStorage, type_: &[u8], id: &[u8]) -> (result: Result<
        (),
        WalletStorageError,
    >)
        ensures
            old(self)@.wf() ==> final(self)@.wf(),
            (final(self)@, result_view(result)) == old(self)@.delete(
                storage@.wallet_id,
                type_@,
                id@,
            ),
    {
        let mut operation = storage.delete(type_, id);
        let mut cursor = Cursor::none();
        proof {
            if self.tables@.wf() {
                update_and_delete_keep_wf(
                    self.tables@,
                    storage@.wallet_id,
                    type_@,
                    id@,
                    no_value(),
                );
            }
            delete_runs(
                SessionView { tables: self.tables@, cursor: cursor@ },
                storage@,
                type_@,
                id@,
            );
        }
        drive(&mut self.tables, &mut cursor, &mut operation)
    }

    /// Runs `get_storage_metadata`.
    pub fn get_storage_metadata(&mut self, storage: &PostgresStorage) -> (result: Result<
        Vec<u8>,
        WalletStorageError,
    >)
        ensures
            old(self)@.wf() ==> final(self)@.wf(),
            final(self)@ == old(self)@,
            match result {
                Ok(metadata) => old(self)@.get_metadata(storage@.wallet_id) == Ok::<
                    Seq<u8>,
                    WalletStorageErrorView,
                >(metadata@),
                Err(error) => old(self)@.get_metadata(storage@.wallet_id) == Err::<
                    Seq<u8>,
                    WalletStorageErrorView,
                >(error@),
            },
    {
        let mut operation = storage.get_storage_metadata();
        let mut cursor = Cursor::none();
        proof {
            get_metadata_runs(SessionView { tables: self.tables@, cursor: cursor@ }, storage@);
        }
        let result = drive(&mut self.tables, &mut cursor, &mut operation);
        proof {
            if result is Ok {
                bytes_deep_view(result->Ok_0);
            }
        }
        result
    }

    /// Runs `set_storage_metadata`.
    pub fn set_storage_metadata(&mut self, storage: &PostgresStorage, metadata: &[u8]) -> (result:
        Result<(), WalletStorageError>)
        ensures
            old(self)@.wf() ==> final(self)@.wf(),
            (final(self)@, result_view(result)) == old(self)@.set_metadata(
                storage@.wallet_id,
                metadata@,
            ),
    {
        let mut operation = storage.set_storage_metadata(metadata);
        let mut cursor = Cursor::none();
        proof {
            if self.tables@.wf() {
                wallets_keep_wf(
                    self.tables@,
                    storage@.wallet_id,
                    Document::Absent,
                    Document::Absent,
                    metadata@,
                );
            }
            set_metadata_runs(
                SessionView { tables: self.tables@, cursor: cursor@ },
                storage@,
                metadata@,
            );
        }
        drive(&mut self.tables, &mut cursor, &mut operation)
    }

    /// Runs `get_all`: the stream of all records of the wallet, with type,
    /// value and tags.
    pub fn get_all(&mut self, storage: &PostgresStorage) -> (result: Result<
        MemoryIterator,
        WalletStorageError,
    >)
        ensures
            old(self)@.wf() ==> final(self)@.wf(),
            final(self)@ == old(self)@,
            result matches Ok(stream) && stream.rows() == Some(
                old(self)@.scanned(storage@.wallet_id),
            ) && stream.stream() == fresh_iterator(true, true, scan_fields(), None),
    {
        let mut operation = storage.get_all();
        let mut cursor = Cursor::none();
        proof {
            scan_runs(SessionView { tables: self.tables@, cursor: cursor@ }, storage@);
        }
        match drive(&mut self.tables, &mut cursor, &mut operation) {
            Ok(stream) => Ok(MemoryIterator { stream, cursor }),
            Err(error) => Err(error),
        }
    }

    /// Runs `search`. A backend in memory knows no predicate over tags: it
    /// matches every item of the wallet with the type.
    pub fn search(
        &mut self,
        storage: &PostgresStorage,
        type_: &[u8],
        options: Document<SearchOptions>,
    ) -> (result: Result<MemoryIterator, WalletStorageError>)
        ensures
            final(self)@ == old(self)@,
            ({
                let searched = (SessionView { tables: old(self)@, cursor: None }).search(
                    storage@.wallet_id,
                    type_@,
                    options,
                );
                match result {
                    Ok(stream) => searched.1 == Ok::<StorageIteratorView, WalletStorageErrorView>(
                        stream.stream(),
                    ) && stream.rows() == searched.0.cursor,
                    Err(error) => searched.1 == Err::<
                        StorageIteratorView,
                        WalletStorageErrorView,
                    >(error@),
                }
            }),
    {
        let mut operation = storage.search(type_, options);
        let mut cursor = Cursor::none();
        proof {
            search_runs(
                SessionView { tables: self.tables@, cursor: cursor@ },
                storage@,
                type_@,
                options,
            );
        }
        match drive(&mut self.tables, &mut cursor, &mut operation) {
            Ok(stream) => Ok(MemoryIterator { stream, cursor }),
            Err(error) => Err(error),
        }
    }
}

} // verus!
