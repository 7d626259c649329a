//! What scanning and searching do when they run on tables in memory, and
//! what a fetch from their stream returns.

use vstd::prelude::*;
use crate::error::WalletStorageErrorView;
use crate::iterator::{
    fresh_iterator,
    no_tag_retriever,
    row_item,
    FetchPhase,
    StorageIterator,
    StorageIteratorView,
};
use crate::memory::lookup::tags_from_rows;
use crate::memory::model::{
    compiled,
    compiled_statements_differ,
    count_of_type,
    count_value,
    named_wallet,
    records_of_type,
    search_key,
    tag_columns_of,
    typed_item,
    unsupported,
    ItemColumns,
    ItemFilter,
    ItemRow,
    TablesView,
    TagFilter,
};
use crate::memory::run::{run, run_unfolds, settled, settled_unfolds};
use crate::memory::session::SessionView;
use crate::options::{Document, RecordOptions, SearchOptions};
use crate::protocol::{
    refused,
    unexpected_reply,
    ReplyView,
    RequestView,
    RowView,
    SqlValueView,
    SqlView,
};
use crate::read::shaped_record;
use crate::record::StorageRecordView;
use crate::search::{counted, Search, SearchPhase, SearchView};
use crate::statement::Statement;
use crate::storage::{search_start, PostgresStorageView};

verus! {

/// The fields of the records of a scan: all of them.
pub open spec fn scan_fields() -> RecordOptions {
    RecordOptions { retrieve_type: true, retrieve_value: true, retrieve_tags: true }
}

impl TablesView {
    /// The rows that a scan of a wallet streams: one for each item of the
    /// wallet, in the order of their insertion.
    pub open spec fn scanned(self, wallet_id: Seq<char>) -> Seq<RowView> {
        self.now.items.filter(ItemFilter::Wallet { wallet_id }.chosen()).map_values(
            ItemColumns::All.of(),
        )
    }
}

/// What happens to a stream when the next record is fetched from it.
pub struct Fetched {
    /// The session after the fetch.
    pub session: SessionView,
    /// The stream after the fetch.
    pub stream: StorageIteratorView,
    /// The record, nothing where the stream is exhausted, or a failure.
    pub result: Result<Option<StorageRecordView>, WalletStorageErrorView>,
}

impl TablesView {
    /// The items of a wallet with a type: what a search on the tables
    /// matches.
    pub open spec fn matching(self, wallet_id: Seq<char>, type_: Seq<u8>) -> Seq<ItemRow> {
        self.now.items.filter(ItemFilter::Typed { wallet_id, type_ }.chosen())
    }
}

impl SessionView {
    /// What `get_all` does: it opens a cursor over the items of the wallet
    /// and hands out the stream of their records, with type, value and
    /// tags.
    pub open spec fn scan(self, wallet_id: Seq<char>) -> (
        SessionView,
        Result<StorageIteratorView, WalletStorageErrorView>,
    ) {
        (
            SessionView { cursor: Some(self.tables.scanned(wallet_id)), ..self },
            Ok(fresh_iterator(true, true, scan_fields(), None)),
        )
    }

    /// What `search` does on the tables, which match every item of the
    /// wallet with the type.
    ///
    /// Where a count is asked for, the stream carries the number of the
    /// matching items. Where records are asked for, a cursor is opened over
    /// the matching items, which are items of this wallet alone. Where they
    /// are not, the stream has no cursor and carries the count only.
    pub open spec fn search(
        self,
        wallet_id: Seq<char>,
        type_: Seq<u8>,
        options: Document<SearchOptions>,
    ) -> (SessionView, Result<StorageIteratorView, WalletStorageErrorView>) {
        let found = self.tables.matching(wallet_id, type_);
        match SearchOptions::resolve(options) {
            None => (self, Err(WalletStorageErrorView::ConfigError)),
            Some(options) => {
                let total = if options.retrieve_total_count {
                    counted(seq![seq![SqlValueView::Int(count_value(found.len()))]])
                } else {
                    Some(None)
                };
                match total {
                    None => (self, Err(WalletStorageErrorView::InvalidState(unexpected_reply()))),
                    Some(total_count) => if options.retrieve_records {
                        (
                            SessionView {
                                cursor: Some(found.map_values(ItemColumns::All.of())),
                                ..self
                            },
                            Ok(
                                fresh_iterator(
                                    true,
                                    options.retrieve_tags,
                                    options.fields(),
                                    total_count,
                                ),
                            ),
                        )
                    } else {
                        (
                            self,
                            Ok(fresh_iterator(false, false, RecordOptions::defaults(), total_count)),
                        )
                    },
                }
            },
        }
    }

    /// What fetching the next record from an idle stream does.
    ///
    /// A stream without a cursor is exhausted. Else the first row of the
    /// cursor is consumed and its record returned, with the tags of the
    /// item where the options ask for them: the plaintext ones, then the
    /// encrypted ones. With no row left the stream is exhausted.
    pub open spec fn fetch(self, stream: StorageIteratorView) -> Fetched {
        if !stream.has_cursor {
            Fetched { session: self, stream, result: Ok(None) }
        } else {
            match self.cursor {
                None => Fetched {
                    session: self,
                    stream,
                    result: Err(refused(unsupported())),
                },
                Some(rows) => if rows.len() == 0 {
                    Fetched { session: self, stream, result: Ok(None) }
                } else {
                    let session = SessionView { cursor: Some(rows.skip(1)), ..self };
                    match row_item(rows[0]) {
                        None => Fetched {
                            session,
                            stream,
                            result: Err(WalletStorageErrorView::InvalidState(unexpected_reply())),
                        },
                        Some(item) => {
                            let at = StorageIteratorView {
                                consumed: if stream.consumed < usize::MAX {
                                    (stream.consumed + 1) as usize
                                } else {
                                    stream.consumed
                                },
                                item_id: item.item_id,
                                name: item.name,
                                value: item.value,
                                key: item.key,
                                type_: item.type_,
                                tags: Seq::empty(),
                                ..stream
                            };
                            Fetched {
                                session,
                                stream: at,
                                result: if !stream.options.retrieve_tags {
                                    Ok(Some(at.record(None)))
                                } else if !stream.has_tag_retriever {
                                    Err(WalletStorageErrorView::InvalidState(no_tag_retriever()))
                                } else {
                                    Ok(
                                        Some(
                                            at.record(
                                                Some(
                                                    self.tables.now.tags_by_id(item.item_id, false)
                                                        + self.tables.now.tags_by_id(
                                                        item.item_id,
                                                        true,
                                                    ),
                                                ),
                                            ),
                                        ),
                                    )
                                },
                            }
                        },
                    }
                },
            }
        }
    }
}

/// Running `get_all` does what [`SessionView::scan`] says.
pub proof fn scan_runs(session: SessionView, storage: PostgresStorageView)
    ensures
        run::<Search>(storage.scan(), ReplyView::Ready, session) == session.scan(storage.wallet_id),
{
    let start = storage.scan();
    let params = seq![SqlValueView::Text(storage.wallet_id)];
    assert(named_wallet(params) == Some(storage.wallet_id));
    run_unfolds::<Search>(start, ReplyView::Ready, session);
    let preparing = SearchView { phase: SearchPhase::PreparingTags, ..start };
    run_unfolds::<Search>(preparing, ReplyView::Done, session);
    let opening = SearchView { phase: SearchPhase::Opening, ..start };
    let opened = SessionView { cursor: Some(session.tables.scanned(storage.wallet_id)), ..session };
    assert(session.serve(
        RequestView::OpenCursor {
            wallet_id: storage.wallet_id,
            sql: SqlView::Fixed(Statement::SelectAllItems),
            params,
        },
    ) == (opened, ReplyView::Done));
    run_unfolds::<Search>(opening, ReplyView::Done, opened);
}

/// Running `search` on tables in memory does what [`SessionView::search`]
/// says.
pub proof fn search_runs(
    session: SessionView,
    storage: PostgresStorageView,
    type_: Seq<u8>,
    options: Document<SearchOptions>,
)
    ensures
        run::<Search>(search_start(storage.wallet_id, type_, options), ReplyView::Ready, session)
            == session.search(storage.wallet_id, type_, options),
{
    let wallet_id = storage.wallet_id;
    let start = search_start(wallet_id, type_, options);
    let key = search_key(wallet_id, type_);
    let filter = ItemFilter::Typed { wallet_id, type_ };
    let found = session.tables.matching(wallet_id, type_);
    compiled_statements_differ();
    assert(typed_item(key) == Some(filter));
    run_unfolds::<Search>(start, ReplyView::Ready, session);
    if start.options is Some {
        let chosen = start.options->Some_0;
        let count = seq![seq![SqlValueView::Int(count_value(found.len()))]];
        let total = if chosen.retrieve_total_count {
            counted(count)
        } else {
            Some(None)
        };
        if chosen.retrieve_total_count {
            let compiling = SearchView { phase: SearchPhase::TranslatingCount, ..start };
            run_unfolds::<Search>(compiling, compiled(wallet_id, type_, true), session);
            let counting = SearchView { phase: SearchPhase::Counting, ..start };
            assert(session.serve(
                RequestView::Query { sql: SqlView::Translated(count_of_type()), params: key },
            ) == (session, ReplyView::Rows(count)));
            run_unfolds::<Search>(counting, ReplyView::Rows(count), session);
        }
        if total is Some && chosen.retrieve_records {
            let known = SearchView { total_count: total->Some_0, ..start };
            let compiling = SearchView { phase: SearchPhase::Translating, ..known };
            run_unfolds::<Search>(compiling, compiled(wallet_id, type_, false), session);
            let compiled = SearchView {
                source: Some(SqlView::Translated(records_of_type())),
                params: key,
                ..known
            };
            let rows = found.map_values(ItemColumns::All.of());
            let opened = SessionView { cursor: Some(rows), ..session };
            assert(session.serve(
                RequestView::OpenCursor {
                    wallet_id,
                    sql: SqlView::Translated(records_of_type()),
                    params: key,
                },
            ) == (opened, ReplyView::Done));
            if chosen.retrieve_tags {
                let preparing = SearchView { phase: SearchPhase::PreparingTags, ..compiled };
                run_unfolds::<Search>(preparing, ReplyView::Done, session);
            }
            let opening = SearchView { phase: SearchPhase::Opening, ..compiled };
            run_unfolds::<Search>(opening, ReplyView::Done, opened);
        }
    }
}

/// Fetching the next record from an idle stream does what
/// [`SessionView::fetch`] says.
pub proof fn fetch_runs(session: SessionView, stream: StorageIteratorView)
    requires
        stream.phase == FetchPhase::Idle,
    ensures
        run::<StorageIterator>(stream, ReplyView::Ready, session) == (
            session.fetch(stream).session,
            session.fetch(stream).result,
        ),
        settled::<StorageIterator>(stream, ReplyView::Ready, session) == session.fetch(
            stream,
        ).stream,
{
    run_unfolds::<StorageIterator>(stream, ReplyView::Ready, session);
    settled_unfolds::<StorageIterator>(stream, ReplyView::Ready, session);
    if stream.has_cursor {
        let fetching = StorageIteratorView { phase: FetchPhase::Row, ..stream };
        let (served, reply) = session.serve(RequestView::Fetch);
        run_unfolds::<StorageIterator>(fetching, reply, served);
        settled_unfolds::<StorageIterator>(fetching, reply, served);
        if session.cursor is Some && session.cursor->Some_0.len() > 0 {
            let row = session.cursor->Some_0[0];
            if row_item(row) is Some {
                let item = row_item(row)->Some_0;
                let fetched = session.fetch(stream);
                let at = fetched.stream;
                if stream.options.retrieve_tags && stream.has_tag_retriever {
                    let plain = TagFilter::ItemById { item_id: item.item_id, encrypted: false };
                    let encrypted = TagFilter::ItemById { item_id: item.item_id, encrypted: true };
                    let plain_rows = served.tables.now.tags.filter(plain.chosen()).map_values(
                        tag_columns_of(),
                    );
                    let encrypted_rows = served.tables.now.tags.filter(
                        encrypted.chosen(),
                    ).map_values(tag_columns_of());
                    tags_from_rows(served.tables.now.tags, plain, false);
                    tags_from_rows(served.tables.now.tags, encrypted, true);
                    let first = StorageIteratorView { phase: FetchPhase::PlainTags, ..at };
                    assert(served.serve(at.tags_query(Statement::SelectPlainTagsById)) == (
                        served,
                        ReplyView::Rows(plain_rows),
                    ));
                    run_unfolds::<StorageIterator>(first, ReplyView::Rows(plain_rows), served);
                    settled_unfolds::<StorageIterator>(first, ReplyView::Rows(plain_rows), served);
                    let second = StorageIteratorView {
                        phase: FetchPhase::EncryptedTags,
                        tags: first.tags + served.tables.now.tags_by_id(item.item_id, false),
                        ..first
                    };
                    assert(second.tags =~= served.tables.now.tags_by_id(item.item_id, false));
                    assert(served.serve(first.tags_query(Statement::SelectEncryptedTagsById)) == (
                        served,
                        ReplyView::Rows(encrypted_rows),
                    ));
                    run_unfolds::<StorageIterator>(
                        second,
                        ReplyView::Rows(encrypted_rows),
                        served,
                    );
                    settled_unfolds::<StorageIterator>(
                        second,
                        ReplyView::Rows(encrypted_rows),
                        served,
                    );
                }
            }
        }
    }
}

/// What a fetch returns.
pub type FetchResult = Result<Option<StorageRecordView>, WalletStorageErrorView>;

/// The record of an item with all its fields, as a scan streams it: the
/// name, the type, the value, and the tags that refer to the id of the
/// item, the plaintext ones before the encrypted ones.
pub open spec fn full_record(tables: TablesView, item: ItemRow) -> StorageRecordView {
    shaped_record(
        scan_fields(),
        item.name,
        item.type_,
        item.value,
        item.key,
        Some(tables.now.tags_by_id(item.id, false) + tables.now.tags_by_id(item.id, true)),
    )
}

/// The fetch that returns the full record of an item.
pub open spec fn streamed(tables: TablesView) -> spec_fn(ItemRow) -> FetchResult {
    |item: ItemRow| Ok(Some(full_record(tables, item)))
}

/// The number of records among the results of fetches.
pub open spec fn records_in(results: Seq<FetchResult>) -> nat
    decreases results.len(),
{
    if results.len() == 0 {
        0
    } else {
        records_in(results.drop_last()) + if results.last() matches Ok(Some(_)) {
            1nat
        } else {
            0nat
        }
    }
}

impl SessionView {
    /// The results of fetching from a stream until its cursor is
    /// exhausted: one for each row of the cursor, and the one that reports
    /// the exhaustion.
    pub open spec fn stream_of(self, stream: StorageIteratorView) -> Seq<FetchResult>
        decreases
            match self.cursor {
                Some(rows) => rows.len(),
                None => 0,
            },
    {
        let fetched = self.fetch(stream);
        if stream.has_cursor && self.cursor is Some && self.cursor->Some_0.len() > 0 {
            seq![fetched.result] + fetched.session.stream_of(fetched.stream)
        } else {
            seq![fetched.result]
        }
    }
}

} // verus!
