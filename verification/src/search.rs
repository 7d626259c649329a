//! Searching a wallet: by a predicate over tags, or in full.
//!
//! The options decide, each on its own, whether the matching records are
//! counted, whether they are streamed at all, and which fields a record has.
//! Compiling the predicate to a statement is the predicate compiler's
//! part: the engine asks for the statement and runs what comes back.

use vstd::prelude::*;
use crate::bytes::{copy_bytes, copy_text};
use crate::error::{invalid_state, WalletStorageError, WalletStorageErrorView};
use crate::iterator::{fresh_iterator, StorageIterator, StorageIteratorView};
use crate::options::{Document, RecordOptions, SearchOptions};
use crate::protocol::{
    already_finished,
    copy_values,
    first_id,
    first_row_id,
    refusal,
    refused,
    unexpected_reply,
    Reply,
    ReplyView,
    Request,
    RequestView,
    RowView,
    Sql,
    SqlValue,
    SqlValueView,
    SqlView,
    Step,
    StepView,
};
use crate::statement::Statement;

verus! {

/// How far a search has come: the request that it waits on.
#[derive(Clone, Copy, Debug, PartialEq, Eq, Structural)]
pub enum SearchPhase {
    /// Nothing has been asked yet.
    Start,
    /// The predicate is being compiled to the statement that counts.
    TranslatingCount,
    /// The statement that counts runs.
    Counting,
    /// The predicate is being compiled to the statement that returns the
    /// records.
    Translating,
    /// The statements that fetch the tags of a record are being prepared.
    PreparingTags,
    /// The cursor over the records is being opened.
    Opening,
    /// The result has been handed out.
    Finished,
}

/// A search of an open wallet.
pub struct Search {
    /// The wallet whose items are searched.
    pub wallet_id: String,
    /// The type of the items that are searched.
    pub type_: Vec<u8>,
    /// The options of the search, or none where their document is unreadable.
    pub options: Option<SearchOptions>,
    /// The statement that returns the records, once it is known: from the
    /// start for a full scan, once it is compiled for a predicate.
    pub source: Option<Sql>,
    /// The parameters of that statement.
    pub params: Vec<SqlValue>,
    /// The number of matching records, once they were counted.
    pub total_count: Option<usize>,
    pub phase: SearchPhase,
}

/// What a [`Search`] holds.
pub struct SearchView {
    pub wallet_id: Seq<char>,
    pub type_: Seq<u8>,
    pub options: Option<SearchOptions>,
    pub source: Option<SqlView>,
    pub params: Seq<SqlValueView>,
    pub total_count: Option<usize>,
    pub phase: SearchPhase,
}

impl View for Search {
    type V = SearchView;

    open spec fn view(&self) -> SearchView {
        SearchView {
            wallet_id: self.wallet_id@,
            type_: self.type_@,
            options: self.options,
            source: self.source.deep_view(),
            params: self.params.deep_view(),
            total_count: self.total_count,
            phase: self.phase,
        }
    }
}

/// The options of a full scan: every record, with its type, value and tags,
/// and no count.
pub open spec fn scan_options() -> SearchOptions {
    SearchOptions {
        retrieve_records: true,
        retrieve_total_count: false,
        retrieve_type: true,
        retrieve_value: true,
        retrieve_tags: true,
    }
}

/// The number that a counting statement returned: nothing for no rows, and
/// else the integer of the first row, which must be a count that fits.
pub open spec fn counted(rows: Seq<RowView>) -> Option<Option<usize>> {
    if rows.len() == 0 {
        Some(None)
    } else {
        match first_id(rows) {
            Some(count) => if 0 <= count <= usize::MAX {
                Some(Some(count as usize))
            } else {
                None
            },
            None => None,
        }
    }
}

impl SearchView {
    /// Ends with `result`.
    pub open spec fn finish(self, result: Result<StorageIteratorView, WalletStorageErrorView>) -> (
        SearchView,
        StepView<StorageIteratorView>,
    ) {
        (SearchView { phase: SearchPhase::Finished, ..self }, StepView::Finish(result))
    }

    /// The error for a reply that holds no compiled statement: the
    /// compiler's rejection as a query error, and else as for any request.
    pub open spec fn untranslated(reply: ReplyView) -> WalletStorageErrorView {
        match reply {
            ReplyView::Rejected(message) => WalletStorageErrorView::QueryError(message),
            _ => refused(reply),
        }
    }

    /// Opens the cursor over the records.
    pub open spec fn open(self) -> (SearchView, StepView<StorageIteratorView>) {
        match self.source {
            Some(sql) => (
                SearchView { phase: SearchPhase::Opening, ..self },
                StepView::Perform(
                    RequestView::OpenCursor {
                        wallet_id: self.wallet_id,
                        sql,
                        params: self.params,
                    },
                ),
            ),
            None => self.finish(Err(WalletStorageErrorView::InvalidState(unexpected_reply()))),
        }
    }

    /// Prepares the statements for tags where records have tags, then opens
    /// the cursor.
    pub open spec fn prepare(self) -> (SearchView, StepView<StorageIteratorView>) {
        if self.options->Some_0.retrieve_tags {
            (
                SearchView { phase: SearchPhase::PreparingTags, ..self },
                StepView::Perform(RequestView::PrepareTags),
            )
        } else {
            self.open()
        }
    }

    /// What follows the count: the stream of the records where they are
    /// asked for, and else a stream that is exhausted and only carries the
    /// count.
    pub open spec fn records(self) -> (SearchView, StepView<StorageIteratorView>) {
        if !self.options->Some_0.retrieve_records {
            self.finish(
                Ok(fresh_iterator(false, false, RecordOptions::defaults(), self.total_count)),
            )
        } else if self.source is Some {
            self.prepare()
        } else {
            (
                SearchView { phase: SearchPhase::Translating, ..self },
                StepView::Perform(
                    RequestView::Translate {
                        wallet_id: self.wallet_id,
                        type_: self.type_,
                        count: false,
                    },
                ),
            )
        }
    }

    /// The transition of the machine: its next state and what it answers to
    /// `reply`.
    pub open spec fn advance(self, reply: ReplyView) -> (
        SearchView,
        StepView<StorageIteratorView>,
    ) {
        if self.phase == SearchPhase::Finished {
            (
                self,
                StepView::Finish(Err(WalletStorageErrorView::InvalidState(already_finished()))),
            )
        } else if self.options is None {
            self.finish(Err(WalletStorageErrorView::ConfigError))
        } else {
            let options = self.options->Some_0;
            match self.phase {
                SearchPhase::Start => {
                    if options.retrieve_total_count {
                        (
                            SearchView { phase: SearchPhase::TranslatingCount, ..self },
                            StepView::Perform(
                                RequestView::Translate {
                                    wallet_id: self.wallet_id,
                                    type_: self.type_,
                                    count: true,
                                },
                            ),
                        )
                    } else {
                        self.records()
                    }
                },
                SearchPhase::TranslatingCount => {
                    match reply {
                        ReplyView::Translated { text, params } => (
                            SearchView { phase: SearchPhase::Counting, ..self },
                            StepView::Perform(
                                RequestView::Query { sql: SqlView::Translated(text), params },
                            ),
                        ),
                        _ => self.finish(Err(Self::untranslated(reply))),
                    }
                },
                SearchPhase::Counting => {
                    match reply {
                        ReplyView::Rows(rows) => {
                            match counted(rows) {
                                Some(total_count) => SearchView { total_count, ..self }.records(),
                                None => self.finish(
                                    Err(WalletStorageErrorView::InvalidState(unexpected_reply())),
                                ),
                            }
                        },
                        _ => self.finish(Err(refused(reply))),
                    }
                },
                SearchPhase::Translating => {
                    match reply {
                        ReplyView::Translated { text, params } => SearchView {
                            source: Some(SqlView::Translated(text)),
                            params,
                            ..self
                        }.prepare(),
                        _ => self.finish(Err(Self::untranslated(reply))),
                    }
                },
                SearchPhase::PreparingTags => {
                    if reply is Done {
                        self.open()
                    } else {
                        self.finish(Err(refused(reply)))
                    }
                },
                SearchPhase::Opening => {
                    if reply is Done {
                        self.finish(
                            Ok(
                                fresh_iterator(
                                    true,
                                    options.retrieve_tags,
                                    options.fields(),
                                    self.total_count,
                                ),
                            ),
                        )
                    } else {
                        self.finish(Err(refused(reply)))
                    }
                },
                SearchPhase::Finished => self.finish(
                    Err(WalletStorageErrorView::InvalidState(already_finished())),
                ),
            }
        }
    }

    /// A bound on the number of requests that the machine still makes.
    pub open spec fn remaining(self) -> nat {
        match self.phase {
            SearchPhase::Start => 6,
            SearchPhase::TranslatingCount => 5,
            SearchPhase::Counting => 4,
            SearchPhase::Translating => 3,
            SearchPhase::PreparingTags => 2,
            SearchPhase::Opening => 1,
            SearchPhase::Finished => 0,
        }
    }
}

/// Every request brings a search nearer to its end.
pub proof fn search_advances(machine: SearchView, reply: ReplyView)
    ensures
        machine.advance(reply).1 is Perform ==> machine.advance(reply).0.remaining()
            < machine.remaining(),
{
}

/// The number that a counting statement returned.
pub fn count_of_rows(rows: &Vec<Vec<SqlValue>>) -> (count: Option<Option<usize>>)
    ensures
        count == counted(rows.deep_view()),
{
    if rows.len() == 0 {
        return Some(None);
    }
    match first_row_id(rows) {
        Some(count) => {
            if 0 <= count && count as u64 <= usize::MAX as u64 {
                Some(Some(count as usize))
            } else {
                None
            }
        },
        None => None,
    }
}

impl Search {
    /// The search of the items of a wallet with a type by a predicate,
    /// before its first request. An options document that is left out stands for the default
    /// options.
    pub fn new(wallet_id: &str, type_: &[u8], options: Document<SearchOptions>) -> (machine: Search)
        ensures
            machine@ == (SearchView {
                wallet_id: wallet_id@,
                type_: type_@,
                options: SearchOptions::resolve(options),
                source: None,
                params: Seq::empty(),
                total_count: None,
                phase: SearchPhase::Start,
            }),
    {
        let options = match options {
            Document::Absent => Some(SearchOptions::default()),
            Document::Malformed => None,
            Document::Parsed(options) => Some(options),
        };
        let machine = Search {
            wallet_id: copy_text(wallet_id),
            type_: copy_bytes(type_),
            options,
            source: None,
            params: Vec::new(),
            total_count: None,
            phase: SearchPhase::Start,
        };
        assert(machine.params.deep_view() =~= Seq::empty());
        machine
    }

    /// The scan of all items of a wallet, before its first request: a search
    /// with the empty predicate, whose statement is the engine's own.
    pub fn scan(wallet_id: &str) -> (machine: Search)
        ensures
            machine@ == (SearchView {
                wallet_id: wallet_id@,
                type_: Seq::empty(),
                options: Some(scan_options()),
                source: Some(SqlView::Fixed(Statement::SelectAllItems)),
                params: seq![SqlValueView::Text(wallet_id@)],
                total_count: None,
                phase: SearchPhase::Start,
            }),
    {
        let mut params: Vec<SqlValue> = Vec::new();
        params.push(SqlValue::text(wallet_id));
        assert(params.deep_view() =~= seq![SqlValueView::Text(wallet_id@)]);
        Search {
            wallet_id: copy_text(wallet_id),
            type_: Vec::new(),
            options: Some(
                SearchOptions {
                    retrieve_records: true,
                    retrieve_total_count: false,
                    retrieve_type: true,
                    retrieve_value: true,
                    retrieve_tags: true,
                },
            ),
            source: Some(Sql::Fixed(Statement::SelectAllItems)),
            params,
            total_count: None,
            phase: SearchPhase::Start,
        }
    }

    fn finish(&mut self, result: Result<StorageIterator, WalletStorageError>) -> (step: Step<
        StorageIterator,
    >)
        ensures
            (final(self)@, step.deep_view()) == old(self)@.finish(
                match result {
                    Ok(stream) => Ok(stream@),
                    Err(error) => Err(error@),
                },
            ),
    {
        self.phase = SearchPhase::Finished;
        Step::Finish(result)
    }

    fn untranslated(reply: Reply) -> (error: WalletStorageError)
        ensures
            error@ == SearchView::untranslated(reply@),
    {
        match reply {
            Reply::Rejected(message) => WalletStorageError::QueryError(message),
            _ => refusal(&reply),
        }
    }

    fn open(&mut self) -> (step: Step<StorageIterator>)
        ensures
            (final(self)@, step.deep_view()) == old(self)@.open(),
    {
        let sql = match &self.source {
            Some(Sql::Fixed(statement)) => Sql::Fixed(*statement),
            Some(Sql::Translated(text)) => Sql::Translated(copy_text(text.as_str())),
            None => {
                return self.finish(
                    Err(invalid_state("The backend's reply does not answer the request")),
                );
            },
        };
        let params = copy_values(self.params.as_slice());
        self.phase = SearchPhase::Opening;
        Step::Perform(
            Request::OpenCursor { wallet_id: copy_text(self.wallet_id.as_str()), sql, params },
        )
    }

    fn prepare(&mut self, options: &SearchOptions) -> (step: Step<StorageIterator>)
        requires
            old(self).options == Some(*options),
        ensures
            (final(self)@, step.deep_view()) == old(self)@.prepare(),
    {
        if options.retrieve_tags {
            self.phase = SearchPhase::PreparingTags;
            Step::Perform(Request::PrepareTags)
        } else {
            self.open()
        }
    }

    fn records(&mut self, options: &SearchOptions) -> (step: Step<StorageIterator>)
        requires
            old(self).options == Some(*options),
        ensures
            (final(self)@, step.deep_view()) == old(self)@.records(),
    {
        if !options.retrieve_records {
            let stream = StorageIterator::new(
                false,
                false,
                RecordOptions::default(),
                self.total_count,
            );
            self.finish(Ok(stream))
        } else if self.source.is_some() {
            self.prepare(options)
        } else {
            self.phase = SearchPhase::Translating;
            Step::Perform(
                Request::Translate {
                    wallet_id: copy_text(self.wallet_id.as_str()),
                    type_: copy_bytes(self.type_.as_slice()),
                    count: false,
                },
            )
        }
    }

    /// Advances the search with the reply to its previous request
    /// (`Reply::Ready` at first) and returns its next request or the stream
    /// of its records.
    pub fn advance(&mut self, reply: Reply) -> (step: Step<StorageIterator>)
        ensures
            (final(self)@, step.deep_view()) == old(self)@.advance(reply@),
    {
        let options = match (&self.phase, &self.options) {
            (SearchPhase::Finished, _) => {
                return Step::Finish(Err(invalid_state("The operation has finished")));
            },
            (_, None) => {
                return self.finish(Err(WalletStorageError::ConfigError));
            },
            (_, Some(options)) => *options,
        };
        match self.phase {
            SearchPhase::Start => {
                if options.retrieve_total_count {
                    self.phase = SearchPhase::TranslatingCount;
                    Step::Perform(
                        Request::Translate {
                            wallet_id: copy_text(self.wallet_id.as_str()),
                            type_: copy_bytes(self.type_.as_slice()),
                            count: true,
                        },
                    )
                } else {
                    self.records(&options)
                }
            },
            SearchPhase::TranslatingCount => {
                match reply {
                    Reply::Translated { text, params } => {
                        self.phase = SearchPhase::Counting;
                        Step::Perform(Request::Query { sql: Sql::Translated(text), params })
                    },
                    _ => {
                        let error = Search::untranslated(reply);
                        self.finish(Err(error))
                    },
                }
            },
            SearchPhase::Counting => {
                match &reply {
                    Reply::Rows(rows) => {
                        match count_of_rows(rows) {
                            Some(total_count) => {
                                self.total_count = total_count;
                                self.records(&options)
                            },
                            None => self.finish(
                                Err(
                                    invalid_state(
                                        "The backend's reply does not answer the request",
                                    ),
                                ),
                            ),
                        }
                    },
                    _ => self.finish(Err(refusal(&reply))),
                }
            },
            SearchPhase::Translating => {
                match reply {
                    Reply::Translated { text, params } => {
                        self.source = Some(Sql::Translated(text));
                        self.params = params;
                        self.prepare(&options)
                    },
                    _ => {
                        let error = Search::untranslated(reply);
                        self.finish(Err(error))
                    },
                }
            },
            SearchPhase::PreparingTags => {
                match reply {
                    Reply::Done => self.open(),
                    _ => self.finish(Err(refusal(&reply))),
                }
            },
            SearchPhase::Opening => {
                match reply {
                    Reply::Done => {
                        let stream = StorageIterator::new(
                            true,
                            options.retrieve_tags,
                            options.record_options(),
                            self.total_count,
                        );
                        self.finish(Ok(stream))
                    },
                    _ => self.finish(Err(refusal(&reply))),
                }
            },
            SearchPhase::Finished => self.finish(
                Err(invalid_state("The operation has finished")),
            ),
        }
    }
}

} // verus!
