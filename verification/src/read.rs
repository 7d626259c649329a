//! The lookup of a record of an open wallet: the item, and then its tags
//! where the options ask for them, by one statement for each variant. The
//! statements run one after another on a leased connection and need no
//! transaction.

use vstd::prelude::*;
use crate::bytes::{copy_bytes, copy_text};
use crate::error::{invalid_state, WalletStorageError, WalletStorageErrorView};
use crate::options::{Document, RecordOptions};
use crate::protocol::{
    already_finished,
    deep_view_concat,
    refusal,
    refused,
    unexpected_reply,
    Reply,
    ReplyView,
    Request,
    RequestView,
    RowView,
    Sql,
    SqlValue,
    SqlValueView,
    SqlView,
    Step,
    StepView,
};
use crate::record::{
    EncryptedValue,
    EncryptedValueView,
    StorageRecord,
    StorageRecordView,
    Tag,
    TagView,
};
use crate::statement::Statement;
use crate::write::{item_key, item_key_params, tag_key_params};

verus! {

/// The tag that a row of a tag table holds: a name and a value, the value
/// in bytes for an encrypted tag and in text for a plaintext tag.
pub open spec fn row_tag(encrypted: bool, row: RowView) -> Option<TagView> {
    if row.len() == 2 && row[0] is Bytes {
        if encrypted && row[1] is Bytes {
            Some(TagView::Encrypted(row[0]->Bytes_0, row[1]->Bytes_0))
        } else if !encrypted && row[1] is Text {
            Some(TagView::PlainText(row[0]->Bytes_0, row[1]->Text_0))
        } else {
            None
        }
    } else {
        None
    }
}

/// The tags that the rows of a tag table hold, in the order of the rows, if
/// every row has the shape of a tag.
pub open spec fn rows_tags(encrypted: bool, rows: Seq<RowView>) -> Option<Seq<TagView>> {
    if forall|i: int| 0 <= i < rows.len() ==> (#[trigger] row_tag(encrypted, rows[i])) is Some {
        Some(Seq::new(rows.len(), |i: int| row_tag(encrypted, rows[i])->Some_0))
    } else {
        None
    }
}

/// The tag that a row of a tag table holds.
pub fn tag_of_row(encrypted: bool, row: &Vec<SqlValue>) -> (tag: Option<Tag>)
    ensures
        tag.deep_view() == row_tag(encrypted, row.deep_view()),
{
    if row.len() != 2 {
        return None;
    }
    assert(row.deep_view()[0] == row@[0]@);
    assert(row.deep_view()[1] == row@[1]@);
    match &row[0] {
        SqlValue::Bytes(name) => {
            match &row[1] {
                SqlValue::Bytes(value) => {
                    if encrypted {
                        Some(Tag::Encrypted(copy_bytes(name.as_slice()), copy_bytes(value.as_slice())))
                    } else {
                        None
                    }
                },
                SqlValue::Text(value) => {
                    if encrypted {
                        None
                    } else {
                        Some(Tag::PlainText(copy_bytes(name.as_slice()), copy_text(value.as_str())))
                    }
                },
                _ => None,
            }
        },
        _ => None,
    }
}

/// Appends to `tags` the tags that the rows of a tag table hold. Where a row
/// has not the shape of a tag, `tags` is left as it was and the answer is
/// `false`.
pub fn append_row_tags(tags: &mut Vec<Tag>, encrypted: bool, rows: &Vec<Vec<SqlValue>>) -> (complete:
    bool)
    ensures
        complete == (rows_tags(encrypted, rows.deep_view()) is Some),
        complete ==> final(tags).deep_view() == old(tags).deep_view() + rows_tags(
            encrypted,
            rows.deep_view(),
        )->Some_0,
        !complete ==> final(tags).deep_view() == old(tags).deep_view(),
{
    let mut found: Vec<Tag> = Vec::new();
    let mut i: usize = 0;
    while i < rows.len()
        invariant
            i <= rows.len(),
            found.len() == i,
            forall|k: int|
                0 <= k < i ==> (#[trigger] row_tag(encrypted, rows.deep_view()[k])) == Some(
                    found@[k]@,
                ),
        decreases rows.len() - i,
    {
        assert(rows.deep_view()[i as int] == rows@[i as int].deep_view());
        match tag_of_row(encrypted, &rows[i]) {
            Some(tag) => {
                found.push(tag);
            },
            None => {
                return false;
            },
        }
        i += 1;
    }
    assert(rows_tags(encrypted, rows.deep_view()) is Some);
    assert(found.deep_view() =~= rows_tags(encrypted, rows.deep_view())->Some_0);
    let ghost before = *tags;
    let ghost added = found;
    tags.append(&mut found);
    proof {
        deep_view_concat(before, added, *tags);
    }
    true
}

/// How far the lookup of a record has come: the request that it waits on.
#[derive(Clone, Copy, Debug, PartialEq, Eq, Structural)]
pub enum ReadPhase {
    /// Nothing has been asked yet.
    Start,
    /// The item is being looked up.
    Item,
    /// The encrypted tags of the item are being fetched.
    EncryptedTags,
    /// The plaintext tags of the item are being fetched.
    PlainTags,
    /// The result has been handed out.
    Finished,
}

/// The lookup of the record of a wallet with a type and a name.
pub struct RecordRead {
    pub wallet_id: String,
    pub type_: Vec<u8>,
    pub name: Vec<u8>,
    pub options: Option<RecordOptions>,
    pub phase: ReadPhase,
    pub item_id: i64,
    pub value: Vec<u8>,
    pub key: Vec<u8>,
    pub tags: Vec<Tag>,
}

/// What a [`RecordRead`] holds.
pub struct RecordReadView {
    pub wallet_id: Seq<char>,
    pub type_: Seq<u8>,
    pub name: Seq<u8>,
    pub options: Option<RecordOptions>,
    pub phase: ReadPhase,
    pub item_id: i64,
    pub value: Seq<u8>,
    pub key: Seq<u8>,
    pub tags: Seq<TagView>,
}

impl View for RecordRead {
    type V = RecordReadView;

    open spec fn view(&self) -> RecordReadView {
        RecordReadView {
            wallet_id: self.wallet_id@,
            type_: self.type_@,
            name: self.name@,
            options: self.options,
            phase: self.phase,
            item_id: self.item_id,
            value: self.value@,
            key: self.key@,
            tags: self.tags.deep_view(),
        }
    }
}

/// The id, value and key in the first row of a result, if it has a row of
/// that shape.
pub open spec fn first_item(rows: Seq<RowView>) -> Option<(i64, Seq<u8>, Seq<u8>)> {
    if rows.len() > 0 && rows[0].len() == 3 && rows[0][0] is Int && rows[0][1] is Bytes
        && rows[0][2] is Bytes {
        Some((rows[0][0]->Int_0, rows[0][1]->Bytes_0, rows[0][2]->Bytes_0))
    } else {
        None
    }
}

/// The parameters that select the tags of an item of a wallet.
pub open spec fn tags_key(wallet_id: Seq<char>, item_id: i64) -> Seq<SqlValueView> {
    seq![SqlValueView::Text(wallet_id), SqlValueView::Int(item_id)]
}

/// The record of an item as the options shape it: its name, its value and
/// type where they are asked for, and the tags that were fetched.
pub open spec fn shaped_record(
    options: RecordOptions,
    name: Seq<u8>,
    type_: Seq<u8>,
    value: Seq<u8>,
    key: Seq<u8>,
    tags: Option<Seq<TagView>>,
) -> StorageRecordView {
    StorageRecordView {
        id: name,
        value: if options.retrieve_value {
            Some(EncryptedValueView { data: value, key })
        } else {
            None
        },
        type_: if options.retrieve_type {
            Some(type_)
        } else {
            None
        },
        tags,
    }
}

impl RecordReadView {
    /// The record of the item that was found, with these tags.
    pub open spec fn record(self, tags: Option<Seq<TagView>>) -> StorageRecordView {
        shaped_record(self.options->Some_0, self.name, self.type_, self.value, self.key, tags)
    }

    /// Ends with `result`.
    pub open spec fn finish(self, result: Result<StorageRecordView, WalletStorageErrorView>) -> (
        RecordReadView,
        StepView<StorageRecordView>,
    ) {
        (RecordReadView { phase: ReadPhase::Finished, ..self }, StepView::Finish(result))
    }

    /// The transition of the machine: its next state and what it answers to
    /// `reply`.
    pub open spec fn advance(self, reply: ReplyView) -> (
        RecordReadView,
        StepView<StorageRecordView>,
    ) {
        if self.phase == ReadPhase::Finished {
            (
                self,
                StepView::Finish(Err(WalletStorageErrorView::InvalidState(already_finished()))),
            )
        } else if self.options is None {
            self.finish(Err(WalletStorageErrorView::ConfigError))
        } else if self.phase == ReadPhase::Start {
            (
                RecordReadView { phase: ReadPhase::Item, ..self },
                StepView::Perform(
                    RequestView::Query {
                        sql: SqlView::Fixed(Statement::SelectItem),
                        params: item_key(self.wallet_id, self.type_, self.name),
                    },
                ),
            )
        } else if !(reply is Rows) {
            self.finish(Err(refused(reply)))
        } else if self.phase == ReadPhase::Item {
            let rows = reply->Rows_0;
            if rows.len() == 0 {
                self.finish(Err(WalletStorageErrorView::ItemNotFound))
            } else {
                match first_item(rows) {
                    Some((item_id, value, key)) => {
                        let found = RecordReadView { item_id, value, key, ..self };
                        if self.options->Some_0.retrieve_tags {
                            (
                                RecordReadView { phase: ReadPhase::EncryptedTags, ..found },
                                StepView::Perform(
                                    RequestView::Query {
                                        sql: SqlView::Fixed(Statement::SelectEncryptedTags),
                                        params: tags_key(self.wallet_id, item_id),
                                    },
                                ),
                            )
                        } else {
                            found.finish(Ok(found.record(None)))
                        }
                    },
                    None => self.finish(
                        Err(WalletStorageErrorView::InvalidState(unexpected_reply())),
                    ),
                }
            }
        } else {
            let encrypted = self.phase == ReadPhase::EncryptedTags;
            match rows_tags(encrypted, reply->Rows_0) {
                Some(tags) => {
                    let all = RecordReadView { tags: self.tags + tags, ..self };
                    if encrypted {
                        (
                            RecordReadView { phase: ReadPhase::PlainTags, ..all },
                            StepView::Perform(
                                RequestView::Query {
                                    sql: SqlView::Fixed(Statement::SelectPlainTags),
                                    params: tags_key(self.wallet_id, self.item_id),
                                },
                            ),
                        )
                    } else {
                        let handed = RecordReadView { tags: Seq::empty(), ..self };
                        handed.finish(Ok(all.record(Some(all.tags))))
                    }
                },
                None => self.finish(Err(WalletStorageErrorView::InvalidState(unexpected_reply()))),
            }
        }
    }

    /// A bound on the number of requests that the machine still makes.
    pub open spec fn remaining(self) -> nat {
        match self.phase {
            ReadPhase::Start => 3,
            ReadPhase::Item => 2,
            ReadPhase::EncryptedTags => 1,
            ReadPhase::PlainTags => 0,
            ReadPhase::Finished => 0,
        }
    }
}

/// Every request brings the lookup of a record nearer to its end.
pub proof fn read_advances(machine: RecordReadView, reply: ReplyView)
    ensures
        machine.advance(reply).1 is Perform ==> machine.advance(reply).0.remaining()
            < machine.remaining(),
{
}

/// The id, value and key in the first row of a result.
pub fn first_row_item(rows: &Vec<Vec<SqlValue>>) -> (item: Option<(i64, Vec<u8>, Vec<u8>)>)
    ensures
        match item {
            Some((id, value, key)) => first_item(rows.deep_view()) == Some((id, value@, key@)),
            None => first_item(rows.deep_view()) is None,
        },
{
    if rows.len() == 0 {
        return None;
    }
    assert(rows.deep_view()[0] == rows@[0].deep_view());
    let row = &rows[0];
    if row.len() != 3 {
        return None;
    }
    assert(row.deep_view()[0] == row@[0]@);
    assert(row.deep_view()[1] == row@[1]@);
    assert(row.deep_view()[2] == row@[2]@);
    match (&row[0], &row[1], &row[2]) {
        (SqlValue::Int(id), SqlValue::Bytes(value), SqlValue::Bytes(key)) => Some(
            (*id, copy_bytes(value.as_slice()), copy_bytes(key.as_slice())),
        ),
        _ => None,
    }
}

/// The record of an item as the options shape it.
pub fn shape_record(
    options: &RecordOptions,
    name: &[u8],
    type_: &[u8],
    value: &[u8],
    key: &[u8],
    tags: Option<Vec<Tag>>,
) -> (record: StorageRecord)
    ensures
        record@ == shaped_record(*options, name@, type_@, value@, key@, tags.deep_view()),
{
    let value = if options.retrieve_value {
        Some(EncryptedValue::new(copy_bytes(value), copy_bytes(key)))
    } else {
        None
    };
    let type_ = if options.retrieve_type {
        Some(copy_bytes(type_))
    } else {
        None
    };
    StorageRecord::new(copy_bytes(name), value, type_, tags)
}

impl RecordRead {
    /// The lookup of the record of a wallet with a type and a name, before
    /// its first request. An options document that is left out stands for
    /// the default options.
    pub fn new(wallet_id: &str, type_: &[u8], name: &[u8], options: Document<RecordOptions>) -> (machine:
        RecordRead)
        ensures
            machine@ == (RecordReadView {
                wallet_id: wallet_id@,
                type_: type_@,
                name: name@,
                options: RecordOptions::resolve(options),
                phase: ReadPhase::Start,
                item_id: 0,
                value: Seq::empty(),
                key: Seq::empty(),
                tags: Seq::empty(),
            }),
    {
        let options = match options {
            Document::Absent => Some(RecordOptions::default()),
            Document::Malformed => None,
            Document::Parsed(options) => Some(options),
        };
        let machine = RecordRead {
            wallet_id: copy_text(wallet_id),
            type_: copy_bytes(type_),
            name: copy_bytes(name),
            options,
            phase: ReadPhase::Start,
            item_id: 0,
            value: Vec::new(),
            key: Vec::new(),
            tags: Vec::new(),
        };
        assert(machine.tags.deep_view() =~= Seq::empty());
        machine
    }

    fn finish(&mut self, result: Result<StorageRecord, WalletStorageError>) -> (step: Step<
        StorageRecord,
    >)
        ensures
            (final(self)@, step.deep_view()) == old(self)@.finish(
                match result {
                    Ok(record) => Ok(record@),
                    Err(error) => Err(error@),
                },
            ),
    {
        self.phase = ReadPhase::Finished;
        Step::Finish(result)
    }

    fn tags_query(&self, statement: Statement) -> (request: Request)
        ensures
            request@ == (RequestView::Query {
                sql: SqlView::Fixed(statement),
                params: tags_key(self.wallet_id@, self.item_id),
            }),
    {
        Request::Query {
            sql: Sql::Fixed(statement),
            params: tag_key_params(self.wallet_id.as_str(), self.item_id, None),
        }
    }

    fn record(&mut self, with_tags: bool) -> (record: StorageRecord)
        requires
            old(self).options is Some,
        ensures
            record@ == old(self)@.record(
                if with_tags {
                    Some(old(self)@.tags)
                } else {
                    None
                },
            ),
            with_tags ==> final(self)@ == (RecordReadView { tags: Seq::empty(), ..old(self)@ }),
            !with_tags ==> final(self)@ == old(self)@,
    {
        let tags = if with_tags {
            let mut tags: Vec<Tag> = Vec::new();
            let ghost before = self.tags;
            tags.append(&mut self.tags);
            proof {
                assert(tags@ =~= before@);
                assert(tags.deep_view() =~= before.deep_view());
                assert(self.tags.deep_view() =~= Seq::empty());
            }
            Some(tags)
        } else {
            None
        };
        match &self.options {
            Some(options) => shape_record(
                options,
                self.name.as_slice(),
                self.type_.as_slice(),
                self.value.as_slice(),
                self.key.as_slice(),
                tags,
            ),
            None => StorageRecord::new(Vec::new(), None, None, None),
        }
    }

    /// Advances the lookup with the reply to its previous request
    /// (`Reply::Ready` at first) and returns its next request or its result.
    pub fn advance(&mut self, reply: Reply) -> (step: Step<StorageRecord>)
        ensures
            (final(self)@, step.deep_view()) == old(self)@.advance(reply@),
    {
        let options = match (&self.phase, &self.options) {
            (ReadPhase::Finished, _) => {
                return Step::Finish(Err(invalid_state("The operation has finished")));
            },
            (_, None) => {
                return self.finish(Err(WalletStorageError::ConfigError));
            },
            (_, Some(options)) => *options,
        };
        if let ReadPhase::Start = self.phase {
            self.phase = ReadPhase::Item;
            return Step::Perform(
                Request::Query {
                    sql: Sql::Fixed(Statement::SelectItem),
                    params: item_key_params(
                        self.wallet_id.as_str(),
                        self.type_.as_slice(),
                        self.name.as_slice(),
                    ),
                },
            );
        }
        let rows = match &reply {
            Reply::Rows(rows) => rows,
            _ => {
                return self.finish(Err(refusal(&reply)));
            },
        };
        if let ReadPhase::Item = self.phase {
            if rows.len() == 0 {
                return self.finish(Err(WalletStorageError::ItemNotFound));
            }
            match first_row_item(rows) {
                Some((item_id, value, key)) => {
                    self.item_id = item_id;
                    self.value = value;
                    self.key = key;
                    if options.retrieve_tags {
                        self.phase = ReadPhase::EncryptedTags;
                        Step::Perform(self.tags_query(Statement::SelectEncryptedTags))
                    } else {
                        let record = self.record(false);
                        self.finish(Ok(record))
                    }
                },
                None => self.finish(
                    Err(invalid_state("The backend's reply does not answer the request")),
                ),
            }
        } else {
            let encrypted = match self.phase {
                ReadPhase::EncryptedTags => true,
                _ => false,
            };
            if !append_row_tags(&mut self.tags, encrypted, rows) {
                return self.finish(
                    Err(invalid_state("The backend's reply does not answer the request")),
                );
            }
            if encrypted {
                self.phase = ReadPhase::PlainTags;
                Step::Perform(self.tags_query(Statement::SelectPlainTags))
            } else {
                let record = self.record(true);
                self.finish(Ok(record))
            }
        }
    }
}

} // verus!
