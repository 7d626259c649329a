//! The stream of records that a search returns.
//!
//! The stream is lazy. Whoever drives it holds one leased connection with one
//! open cursor; each advance fetches the next row that has not been consumed,
//! or learns that the cursor is exhausted. The tags of a row are fetched on
//! demand, by two statements that were prepared once, one for each variant.

use vstd::prelude::*;
use crate::bytes::copy_bytes;
use crate::error::{invalid_state, WalletStorageError, WalletStorageErrorView};
use crate::options::RecordOptions;
use crate::protocol::{
    refusal,
    refused,
    unexpected_reply,
    Reply,
    ReplyView,
    Request,
    RequestView,
    RowView,
    Sql,
    SqlValue,
    SqlValueView,
    SqlView,
    Step,
    StepView,
};
use crate::read::{append_row_tags, rows_tags, shape_record, shaped_record};
use crate::record::{StorageRecord, StorageRecordView, Tag, TagView};
use crate::statement::Statement;

verus! {

/// How far the fetch of the next record has come.
#[derive(Clone, Copy, Debug, PartialEq, Eq, Structural)]
pub enum FetchPhase {
    /// No fetch is under way.
    Idle,
    /// The next row of the cursor is being fetched.
    Row,
    /// The plaintext tags of the row are being fetched.
    PlainTags,
    /// The encrypted tags of the row are being fetched.
    EncryptedTags,
}

/// The stream of records of a search.
#[derive(Debug, PartialEq, Eq)]
pub struct StorageIterator {
    /// Whether records were asked for, so that a cursor is open.
    pub has_cursor: bool,
    /// Whether the statements that fetch tags were prepared.
    pub has_tag_retriever: bool,
    /// The fields that each record holds.
    pub options: RecordOptions,
    /// The number of matching records, where the search counted them.
    pub total_count: Option<usize>,
    /// The number of rows that were fetched.
    pub consumed: usize,
    pub phase: FetchPhase,
    /// The row whose tags are being fetched.
    pub item_id: i64,
    pub name: Vec<u8>,
    pub value: Vec<u8>,
    pub key: Vec<u8>,
    pub type_: Vec<u8>,
    pub tags: Vec<Tag>,
}

/// What a [`StorageIterator`] holds.
pub struct StorageIteratorView {
    pub has_cursor: bool,
    pub has_tag_retriever: bool,
    pub options: RecordOptions,
    pub total_count: Option<usize>,
    pub consumed: usize,
    pub phase: FetchPhase,
    pub item_id: i64,
    pub name: Seq<u8>,
    pub value: Seq<u8>,
    pub key: Seq<u8>,
    pub type_: Seq<u8>,
    pub tags: Seq<TagView>,
}

impl View for StorageIterator {
    type V = StorageIteratorView;

    open spec fn view(&self) -> StorageIteratorView {
        StorageIteratorView {
            has_cursor: self.has_cursor,
            has_tag_retriever: self.has_tag_retriever,
            options: self.options,
            total_count: self.total_count,
            consumed: self.consumed,
            phase: self.phase,
            item_id: self.item_id,
            name: self.name@,
            value: self.value@,
            key: self.key@,
            type_: self.type_@,
            tags: self.tags.deep_view(),
        }
    }
}

impl DeepView for StorageIterator {
    type V = StorageIteratorView;

    open spec fn deep_view(&self) -> StorageIteratorView {
        self@
    }
}

/// The message of the error for a stream that is to fetch tags and has no
/// statements prepared for it.
pub open spec fn no_tag_retriever() -> Seq<char> {
    "Fetch tags option set and tag retriever is None"@
}

/// The columns of a row of items: id, name, value, key and type.
pub struct ItemColumns {
    pub item_id: i64,
    pub name: Seq<u8>,
    pub value: Seq<u8>,
    pub key: Seq<u8>,
    pub type_: Seq<u8>,
}

/// The item that a row of the cursor holds, if the row has that shape.
pub open spec fn row_item(row: RowView) -> Option<ItemColumns> {
    if row.len() == 5 && row[0] is Int && row[1] is Bytes && row[2] is Bytes && row[3] is Bytes
        && row[4] is Bytes {
        Some(
            ItemColumns {
                item_id: row[0]->Int_0,
                name: row[1]->Bytes_0,
                value: row[2]->Bytes_0,
                key: row[3]->Bytes_0,
                type_: row[4]->Bytes_0,
            },
        )
    } else {
        None
    }
}

/// The stream as a search hands it out, before its first fetch.
pub open spec fn fresh_iterator(
    has_cursor: bool,
    has_tag_retriever: bool,
    options: RecordOptions,
    total_count: Option<usize>,
) -> StorageIteratorView {
    StorageIteratorView {
        has_cursor,
        has_tag_retriever,
        options,
        total_count,
        consumed: 0,
        phase: FetchPhase::Idle,
        item_id: 0,
        name: Seq::empty(),
        value: Seq::empty(),
        key: Seq::empty(),
        type_: Seq::empty(),
        tags: Seq::empty(),
    }
}

impl StorageIteratorView {
    /// The record of the row at hand, with these tags.
    pub open spec fn record(self, tags: Option<Seq<TagView>>) -> StorageRecordView {
        shaped_record(self.options, self.name, self.type_, self.value, self.key, tags)
    }

    /// Ends the fetch with `result`; the stream is ready for the next one.
    pub open spec fn hand(
        self,
        result: Result<Option<StorageRecordView>, WalletStorageErrorView>,
    ) -> (StorageIteratorView, StepView<Option<StorageRecordView>>) {
        (StorageIteratorView { phase: FetchPhase::Idle, ..self }, StepView::Finish(result))
    }

    /// The statement that fetches the tags of one variant of the row at hand.
    pub open spec fn tags_query(self, statement: Statement) -> RequestView {
        RequestView::Query {
            sql: SqlView::Fixed(statement),
            params: seq![SqlValueView::Int(self.item_id)],
        }
    }

    /// The transition of the stream: its next state and what it answers to
    /// `reply`.
    ///
    /// A stream without a cursor is exhausted from the start. Otherwise a
    /// fetch returns the record of the next row, with its tags where the
    /// options ask for them, or nothing when the cursor is exhausted.
    pub open spec fn advance(self, reply: ReplyView) -> (
        StorageIteratorView,
        StepView<Option<StorageRecordView>>,
    ) {
        match self.phase {
            FetchPhase::Idle => {
                if self.has_cursor {
                    (
                        StorageIteratorView { phase: FetchPhase::Row, ..self },
                        StepView::Perform(RequestView::Fetch),
                    )
                } else {
                    self.hand(Ok(None))
                }
            },
            FetchPhase::Row => {
                match reply {
                    ReplyView::Fetched(None) => self.hand(Ok(None)),
                    ReplyView::Fetched(Some(row)) => {
                        match row_item(row) {
                            Some(item) => {
                                let at = StorageIteratorView {
                                    consumed: if self.consumed < usize::MAX {
                                        (self.consumed + 1) as usize
                                    } else {
                                        self.consumed
                                    },
                                    item_id: item.item_id,
                                    name: item.name,
                                    value: item.value,
                                    key: item.key,
                                    type_: item.type_,
                                    tags: Seq::empty(),
                                    ..self
                                };
                                if !self.options.retrieve_tags {
                                    at.hand(Ok(Some(at.record(None))))
                                } else if self.has_tag_retriever {
                                    (
                                        StorageIteratorView { phase: FetchPhase::PlainTags, ..at },
                                        StepView::Perform(
                                            at.tags_query(Statement::SelectPlainTagsById),
                                        ),
                                    )
                                } else {
                                    at.hand(
                                        Err(
                                            WalletStorageErrorView::InvalidState(
                                                no_tag_retriever(),
                                            ),
                                        ),
                                    )
                                }
                            },
                            None => self.hand(
                                Err(WalletStorageErrorView::InvalidState(unexpected_reply())),
                            ),
                        }
                    },
                    _ => self.hand(Err(refused(reply))),
                }
            },
            FetchPhase::PlainTags => {
                match reply {
                    ReplyView::Rows(rows) => {
                        match rows_tags(false, rows) {
                            Some(tags) => {
                                let with = StorageIteratorView { tags: self.tags + tags, ..self };
                                (
                                    StorageIteratorView {
                                        phase: FetchPhase::EncryptedTags,
                                        ..with
                                    },
                                    StepView::Perform(
                                        self.tags_query(Statement::SelectEncryptedTagsById),
                                    ),
                                )
                            },
                            None => self.hand(
                                Err(WalletStorageErrorView::InvalidState(unexpected_reply())),
                            ),
                        }
                    },
                    _ => self.hand(Err(refused(reply))),
                }
            },
            FetchPhase::EncryptedTags => {
                match reply {
                    ReplyView::Rows(rows) => {
                        match rows_tags(true, rows) {
                            Some(tags) => {
                                let handed = StorageIteratorView { tags: Seq::empty(), ..self };
                                handed.hand(Ok(Some(self.record(Some(self.tags + tags)))))
                            },
                            None => self.hand(
                                Err(WalletStorageErrorView::InvalidState(unexpected_reply())),
                            ),
                        }
                    },
                    _ => self.hand(Err(refused(reply))),
                }
            },
        }
    }

    /// A bound on the number of requests that one fetch still makes.
    pub open spec fn remaining(self) -> nat {
        match self.phase {
            FetchPhase::Idle => 3,
            FetchPhase::Row => 2,
            FetchPhase::PlainTags => 1,
            FetchPhase::EncryptedTags => 0,
        }
    }
}

/// Every request brings a fetch nearer to its end.
pub proof fn fetch_advances(stream: StorageIteratorView, reply: ReplyView)
    ensures
        stream.advance(reply).1 is Perform ==> stream.advance(reply).0.remaining()
            < stream.remaining(),
{
}

/// The item that a row of the cursor holds.
fn item_of_row(row: &Vec<SqlValue>) -> (item: Option<(i64, Vec<u8>, Vec<u8>, Vec<u8>, Vec<u8>)>)
    ensures
        match item {
            Some((item_id, name, value, key, type_)) => row_item(row.deep_view()) == Some(
                ItemColumns { item_id, name: name@, value: value@, key: key@, type_: type_@ },
            ),
            None => row_item(row.deep_view()) is None,
        },
{
    if row.len() != 5 {
        return None;
    }
    assert(row.deep_view()[0] == row@[0]@);
    assert(row.deep_view()[1] == row@[1]@);
    assert(row.deep_view()[2] == row@[2]@);
    assert(row.deep_view()[3] == row@[3]@);
    assert(row.deep_view()[4] == row@[4]@);
    match (&row[0], &row[1], &row[2], &row[3], &row[4]) {
        (
            SqlValue::Int(item_id),
            SqlValue::Bytes(name),
            SqlValue::Bytes(value),
            SqlValue::Bytes(key),
            SqlValue::Bytes(type_),
        ) => Some(
            (
                *item_id,
                copy_bytes(name.as_slice()),
                copy_bytes(value.as_slice()),
                copy_bytes(key.as_slice()),
                copy_bytes(type_.as_slice()),
            ),
        ),
        _ => None,
    }
}

impl StorageIterator {
    /// The stream as a search hands it out, before its first fetch.
    pub fn new(
        has_cursor: bool,
        has_tag_retriever: bool,
        options: RecordOptions,
        total_count: Option<usize>,
    ) -> (stream: StorageIterator)
        ensures
            stream@ == fresh_iterator(has_cursor, has_tag_retriever, options, total_count),
    {
        let stream = StorageIterator {
            has_cursor,
            has_tag_retriever,
            options,
            total_count,
            consumed: 0,
            phase: FetchPhase::Idle,
            item_id: 0,
            name: Vec::new(),
            value: Vec::new(),
            key: Vec::new(),
            type_: Vec::new(),
            tags: Vec::new(),
        };
        assert(stream.tags.deep_view() =~= Seq::empty());
        stream
    }

    /// The number of matching records that the search counted before it
    /// streamed any, or nothing where no count was asked for. It does not
    /// depend on how much of the stream has been consumed.
    pub fn get_total_count(&self) -> (count: Result<Option<usize>, WalletStorageError>)
        ensures
            count == Ok::<Option<usize>, WalletStorageError>(self.total_count),
    {
        Ok(self.total_count)
    }

    fn hand(&mut self, result: Result<Option<StorageRecord>, WalletStorageError>) -> (step: Step<
        Option<StorageRecord>,
    >)
        ensures
            (final(self)@, step.deep_view()) == old(self)@.hand(
                match result {
                    Ok(record) => Ok(record.deep_view()),
                    Err(error) => Err(error@),
                },
            ),
    {
        self.phase = FetchPhase::Idle;
        Step::Finish(result)
    }

    fn tags_query(&self, statement: Statement) -> (request: Request)
        ensures
            request@ == self@.tags_query(statement),
    {
        let mut params: Vec<SqlValue> = Vec::new();
        params.push(SqlValue::Int(self.item_id));
        assert(params.deep_view() =~= seq![SqlValueView::Int(self.item_id)]);
        Request::Query { sql: Sql::Fixed(statement), params }
    }

    fn record(&self, tags: Option<Vec<Tag>>) -> (record: StorageRecord)
        ensures
            record@ == self@.record(tags.deep_view()),
    {
        shape_record(
            &self.options,
            self.name.as_slice(),
            self.type_.as_slice(),
            self.value.as_slice(),
            self.key.as_slice(),
            tags,
        )
    }

    /// Advances the fetch of the next record with the reply to its previous
    /// request (`Reply::Ready` at first) and returns its next request or its
    /// result. After a result the stream is ready for the next fetch.
    pub fn advance(&mut self, reply: Reply) -> (step: Step<Option<StorageRecord>>)
        ensures
            (final(self)@, step.deep_view()) == old(self)@.advance(reply@),
            final(self).total_count == old(self).total_count,
            final(self).options == old(self).options,
    {
        match self.phase {
            FetchPhase::Idle => {
                if self.has_cursor {
                    self.phase = FetchPhase::Row;
                    Step::Perform(Request::Fetch)
                } else {
                    self.hand(Ok(None))
                }
            },
            FetchPhase::Row => {
                match &reply {
                    Reply::Fetched(None) => self.hand(Ok(None)),
                    Reply::Fetched(Some(row)) => {
                        match item_of_row(row) {
                            Some((item_id, name, value, key, type_)) => {
                                if self.consumed < usize::MAX {
                                    self.consumed = self.consumed + 1;
                                }
                                self.item_id = item_id;
                                self.name = name;
                                self.value = value;
                                self.key = key;
                                self.type_ = type_;
                                self.tags = Vec::new();
                                assert(self.tags.deep_view() =~= Seq::empty());
                                if !self.options.retrieve_tags {
                                    let record = self.record(None);
                                    self.hand(Ok(Some(record)))
                                } else if self.has_tag_retriever {
                                    self.phase = FetchPhase::PlainTags;
                                    Step::Perform(self.tags_query(Statement::SelectPlainTagsById))
                                } else {
                                    self.hand(
                                        Err(
                                            invalid_state(
                                                "Fetch tags option set and tag retriever is None",
                                            ),
                                        ),
                                    )
                                }
                            },
                            None => self.hand(
                                Err(
                                    invalid_state(
                                        "The backend's reply does not answer the request",
                                    ),
                                ),
                            ),
                        }
                    },
                    _ => self.hand(Err(refusal(&reply))),
                }
            },
            FetchPhase::PlainTags => {
                match &reply {
                    Reply::Rows(rows) => {
                        if append_row_tags(&mut self.tags, false, rows) {
                            self.phase = FetchPhase::EncryptedTags;
                            Step::Perform(self.tags_query(Statement::SelectEncryptedTagsById))
                        } else {
                            self.hand(
                                Err(
                                    invalid_state(
                                        "The backend's reply does not answer the request",
                                    ),
                                ),
                            )
                        }
                    },
                    _ => self.hand(Err(refusal(&reply))),
                }
            },
            FetchPhase::EncryptedTags => {
                match &reply {
                    Reply::Rows(rows) => {
                        if append_row_tags(&mut self.tags, true, rows) {
                            let mut tags: Vec<Tag> = Vec::new();
                            let ghost all = self.tags;
                            tags.append(&mut self.tags);
                            proof {
                                assert(tags@ =~= all@);
                                assert(tags.deep_view() =~= all.deep_view());
                                assert(self.tags.deep_view() =~= Seq::empty());
                            }
                            let record = self.record(Some(tags));
                            self.hand(Ok(Some(record)))
                        } else {
                            self.hand(
                                Err(
                                    invalid_state(
                                        "The backend's reply does not answer the request",
                                    ),
                                ),
                            )
                        }
                    },
                    _ => self.hand(Err(refusal(&reply))),
                }
            },
        }
    }
}

} // verus!
