//! The operations of an open wallet that write an item together with its
//! tags: `add`, `add_tags`, `update_tags` and `delete_tags`.
//!
//! Each runs inside one transaction on one leased connection. All its
//! statements commit together, or the transaction is abandoned and none of
//! them persists.

use vstd::prelude::*;
use crate::bytes::{copy_bytes, copy_text};
use crate::error::{duplicate_error, invalid_state, WalletStorageError, WalletStorageErrorView};
use crate::protocol::{
    already_finished,
    deep_view_push,
    first_id,
    first_row_id,
    refusal,
    refused,
    unexpected_reply,
    Reply,
    ReplyView,
    Request,
    RequestView,
    Sql,
    SqlValue,
    SqlValueView,
    SqlView,
    Step,
    StepView,
};
use crate::record::{EncryptedValue, EncryptedValueView, Tag, TagName, TagNameView, TagView};
use crate::statement::Statement;

verus! {

/// Which of the writing operations a machine performs.
#[derive(Clone, Copy, Debug, PartialEq, Eq, Structural)]
pub enum WriteKind {
    /// Insert an item and its tags.
    Add,
    /// Add tags to an item; a tag whose name the item has already is
    /// overwritten.
    AddTags,
    /// Replace all tags of an item.
    UpdateTags,
    /// Delete the named tags of an item.
    DeleteTags,
}

/// How far a writing operation has come: the request that it waits on.
#[derive(Clone, Copy, Debug, PartialEq, Eq, Structural)]
pub enum WritePhase {
    /// Nothing has been asked yet.
    Start,
    /// The transaction is being opened.
    Opening,
    /// The statement that yields the id of the item runs.
    Resolving,
    /// `update_tags` deletes the old tags: the encrypted ones (0), then the
    /// plaintext ones (1).
    Clearing(u8),
    /// The statement for the tag at this index runs.
    Writing(usize),
    /// The transaction is being committed.
    Committing,
    /// The transaction is being abandoned after a failure.
    Aborting,
    /// The result has been handed out.
    Finished,
}

/// A writing operation on one item of an open wallet.
pub struct ItemWrite {
    pub kind: WriteKind,
    pub wallet_id: String,
    pub type_: Vec<u8>,
    pub name: Vec<u8>,
    pub value: EncryptedValue,
    pub tags: Vec<Tag>,
    pub tag_names: Vec<TagName>,
    pub phase: WritePhase,
    pub item_id: i64,
    pub failure: Option<WalletStorageError>,
}

/// What an [`ItemWrite`] holds.
pub struct ItemWriteView {
    pub kind: WriteKind,
    pub wallet_id: Seq<char>,
    pub type_: Seq<u8>,
    pub name: Seq<u8>,
    pub value: EncryptedValueView,
    pub tags: Seq<TagView>,
    pub tag_names: Seq<TagNameView>,
    pub phase: WritePhase,
    pub item_id: i64,
    pub failure: Option<WalletStorageErrorView>,
}

impl View for ItemWrite {
    type V = ItemWriteView;

    open spec fn view(&self) -> ItemWriteView {
        ItemWriteView {
            kind: self.kind,
            wallet_id: self.wallet_id@,
            type_: self.type_@,
            name: self.name@,
            value: self.value@,
            tags: self.tags.deep_view(),
            tag_names: self.tag_names.deep_view(),
            phase: self.phase,
            item_id: self.item_id,
            failure: self.failure.deep_view(),
        }
    }
}

/// The parameters that select the item of a wallet with a type and a name.
pub open spec fn item_key(wallet_id: Seq<char>, type_: Seq<u8>, name: Seq<u8>) -> Seq<
    SqlValueView,
> {
    seq![SqlValueView::Text(wallet_id), SqlValueView::Bytes(type_), SqlValueView::Bytes(name)]
}

/// The statement that inserts or upserts `tag` for the item `item_id`.
pub open spec fn tag_write(upsert: bool, wallet_id: Seq<char>, item_id: i64, tag: TagView)
    -> RequestView {
    match tag {
        TagView::Encrypted(name, value) => RequestView::Execute {
            statement: if upsert {
                Statement::UpsertEncryptedTag
            } else {
                Statement::InsertEncryptedTag
            },
            params: seq![
                SqlValueView::Text(wallet_id),
                SqlValueView::Int(item_id),
                SqlValueView::Bytes(name),
                SqlValueView::Bytes(value),
            ],
        },
        TagView::PlainText(name, value) => RequestView::Execute {
            statement: if upsert {
                Statement::UpsertPlainTag
            } else {
                Statement::InsertPlainTag
            },
            params: seq![
                SqlValueView::Text(wallet_id),
                SqlValueView::Int(item_id),
                SqlValueView::Bytes(name),
                SqlValueView::Text(value),
            ],
        },
    }
}

/// The statement that deletes the tag `tag_name` of the item `item_id`, from
/// the table of the variant that the name belongs to.
pub open spec fn tag_delete(wallet_id: Seq<char>, item_id: i64, tag_name: TagNameView)
    -> RequestView {
    match tag_name {
        TagNameView::OfEncrypted(name) => RequestView::Execute {
            statement: Statement::DeleteEncryptedTag,
            params: seq![
                SqlValueView::Text(wallet_id),
                SqlValueView::Int(item_id),
                SqlValueView::Bytes(name),
            ],
        },
        TagNameView::OfPlain(name) => RequestView::Execute {
            statement: Statement::DeletePlainTag,
            params: seq![
                SqlValueView::Text(wallet_id),
                SqlValueView::Int(item_id),
                SqlValueView::Bytes(name),
            ],
        },
    }
}

/// The statement that deletes all tags of one variant of the item `item_id`.
pub open spec fn tags_clear(statement: Statement, wallet_id: Seq<char>, item_id: i64)
    -> RequestView {
    RequestView::Execute {
        statement,
        params: seq![SqlValueView::Text(wallet_id), SqlValueView::Int(item_id)],
    }
}

impl ItemWriteView {
    /// The number of statements for tags that the operation runs.
    pub open spec fn count(self) -> nat {
        if self.kind == WriteKind::DeleteTags {
            self.tag_names.len()
        } else {
            self.tags.len()
        }
    }

    /// Whether the transaction of the operation is open in its phase.
    pub open spec fn in_transaction(self) -> bool {
        match self.phase {
            WritePhase::Start | WritePhase::Opening | WritePhase::Finished => false,
            WritePhase::Resolving => self.kind != WriteKind::DeleteTags,
            _ => true,
        }
    }

    /// The statement that yields the id of the item: for `add` the insertion
    /// of the item, else its lookup.
    pub open spec fn resolve(self) -> RequestView {
        if self.kind == WriteKind::Add {
            RequestView::Query {
                sql: SqlView::Fixed(Statement::InsertItem),
                params: item_key(self.wallet_id, self.type_, self.name) + seq![
                    SqlValueView::Bytes(self.value.data),
                    SqlValueView::Bytes(self.value.key),
                ],
            }
        } else {
            RequestView::Query {
                sql: SqlView::Fixed(Statement::SelectItemId),
                params: item_key(self.wallet_id, self.type_, self.name),
            }
        }
    }

    /// The statement for the tag at `index`.
    pub open spec fn write(self, index: int) -> RequestView {
        if self.kind == WriteKind::DeleteTags {
            tag_delete(self.wallet_id, self.item_id, self.tag_names[index])
        } else {
            tag_write(
                self.kind == WriteKind::AddTags,
                self.wallet_id,
                self.item_id,
                self.tags[index],
            )
        }
    }

    /// Goes on with the tag at `index`, or commits when all tags are done.
    pub open spec fn proceed(self, index: nat) -> (ItemWriteView, StepView<()>) {
        if index < self.count() {
            (
                ItemWriteView { phase: WritePhase::Writing(index as usize), ..self },
                StepView::Perform(self.write(index as int)),
            )
        } else {
            (
                ItemWriteView { phase: WritePhase::Committing, ..self },
                StepView::Perform(RequestView::Commit),
            )
        }
    }

    /// Ends with `error`: at once where no transaction is open, else after
    /// abandoning the transaction.
    pub open spec fn fail(self, error: WalletStorageErrorView) -> (ItemWriteView, StepView<()>) {
        if self.in_transaction() {
            (
                ItemWriteView { phase: WritePhase::Aborting, failure: Some(error), ..self },
                StepView::Perform(RequestView::Rollback),
            )
        } else {
            (ItemWriteView { phase: WritePhase::Finished, ..self }, StepView::Finish(Err(error)))
        }
    }

    /// What follows once the id of the item is known.
    pub open spec fn resolved(self, item_id: i64) -> (ItemWriteView, StepView<()>) {
        let known = ItemWriteView { item_id, ..self };
        match self.kind {
            WriteKind::Add | WriteKind::AddTags => known.proceed(0),
            WriteKind::UpdateTags => (
                ItemWriteView { phase: WritePhase::Clearing(0), ..known },
                StepView::Perform(
                    tags_clear(Statement::DeleteItemEncryptedTags, self.wallet_id, item_id),
                ),
            ),
            WriteKind::DeleteTags => (
                ItemWriteView { phase: WritePhase::Opening, ..known },
                StepView::Perform(RequestView::Begin),
            ),
        }
    }

    /// The transition of the machine: its next state and what it answers to
    /// `reply`.
    pub open spec fn advance(self, reply: ReplyView) -> (ItemWriteView, StepView<()>) {
        match self.phase {
            WritePhase::Start => {
                if self.kind == WriteKind::DeleteTags {
                    (
                        ItemWriteView { phase: WritePhase::Resolving, ..self },
                        StepView::Perform(self.resolve()),
                    )
                } else {
                    (
                        ItemWriteView { phase: WritePhase::Opening, ..self },
                        StepView::Perform(RequestView::Begin),
                    )
                }
            },
            WritePhase::Opening => {
                if reply is Done {
                    if self.kind == WriteKind::DeleteTags {
                        self.proceed(0)
                    } else {
                        (
                            ItemWriteView { phase: WritePhase::Resolving, ..self },
                            StepView::Perform(self.resolve()),
                        )
                    }
                } else {
                    self.fail(refused(reply))
                }
            },
            WritePhase::Resolving => {
                match reply {
                    ReplyView::Rows(rows) => {
                        if rows.len() == 0 {
                            self.fail(WalletStorageErrorView::ItemNotFound)
                        } else {
                            match first_id(rows) {
                                Some(item_id) => self.resolved(item_id),
                                None => self.fail(
                                    WalletStorageErrorView::InvalidState(unexpected_reply()),
                                ),
                            }
                        }
                    },
                    _ => self.fail(refused(reply)),
                }
            },
            WritePhase::Clearing(step) => {
                if reply is Affected {
                    if step == 0 {
                        (
                            ItemWriteView { phase: WritePhase::Clearing(1), ..self },
                            StepView::Perform(
                                tags_clear(
                                    Statement::DeleteItemPlainTags,
                                    self.wallet_id,
                                    self.item_id,
                                ),
                            ),
                        )
                    } else {
                        self.proceed(0)
                    }
                } else {
                    self.fail(refused(reply))
                }
            },
            WritePhase::Writing(index) => {
                if reply is Affected {
                    self.proceed(index as nat + 1)
                } else {
                    self.fail(refused(reply))
                }
            },
            WritePhase::Committing => {
                let done = ItemWriteView { phase: WritePhase::Finished, ..self };
                if reply is Done {
                    (done, StepView::Finish(Ok(())))
                } else {
                    (done, StepView::Finish(Err(refused(reply))))
                }
            },
            WritePhase::Aborting => {
                let done = ItemWriteView { phase: WritePhase::Finished, ..self };
                match self.failure {
                    Some(error) => (done, StepView::Finish(Err(error))),
                    None => (
                        done,
                        StepView::Finish(
                            Err(WalletStorageErrorView::InvalidState(unexpected_reply())),
                        ),
                    ),
                }
            },
            WritePhase::Finished => (
                self,
                StepView::Finish(Err(WalletStorageErrorView::InvalidState(already_finished()))),
            ),
        }
    }

    /// A bound on the number of requests that the machine still makes.
    pub open spec fn remaining(self) -> nat {
        match self.phase {
            WritePhase::Start => self.count() + 6,
            WritePhase::Opening => if self.kind == WriteKind::DeleteTags {
                self.count() + 2
            } else {
                self.count() + 5
            },
            WritePhase::Resolving => self.count() + 4,
            WritePhase::Clearing(step) => if step == 0 {
                self.count() + 3
            } else {
                self.count() + 2
            },
            WritePhase::Writing(index) => if index < self.count() {
                (self.count() - index + 1) as nat
            } else {
                1
            },
            WritePhase::Committing => 0,
            WritePhase::Aborting => 0,
            WritePhase::Finished => 0,
        }
    }
}

/// The parameters that select the item of a wallet with a type and a name.
pub fn item_key_params(wallet_id: &str, type_: &[u8], name: &[u8]) -> (params: Vec<SqlValue>)
    ensures
        params.deep_view() == item_key(wallet_id@, type_@, name@),
{
    let mut params: Vec<SqlValue> = Vec::new();
    params.push(SqlValue::text(wallet_id));
    params.push(SqlValue::bytes(type_));
    params.push(SqlValue::bytes(name));
    assert(params.deep_view() =~= item_key(wallet_id@, type_@, name@));
    params
}

/// The parameters that select the tags of an item of a wallet, with the name
/// of one tag where a single tag is meant.
pub fn tag_key_params(wallet_id: &str, item_id: i64, name: Option<&Vec<u8>>) -> (params: Vec<
    SqlValue,
>)
    ensures
        params.deep_view() == match name {
            Some(name) => seq![
                SqlValueView::Text(wallet_id@),
                SqlValueView::Int(item_id),
                SqlValueView::Bytes(name@),
            ],
            None => seq![SqlValueView::Text(wallet_id@), SqlValueView::Int(item_id)],
        },
{
    let mut params: Vec<SqlValue> = Vec::new();
    params.push(SqlValue::text(wallet_id));
    params.push(SqlValue::Int(item_id));
    match name {
        Some(name) => {
            params.push(SqlValue::bytes(name.as_slice()));
            assert(params.deep_view() =~= seq![
                SqlValueView::Text(wallet_id@),
                SqlValueView::Int(item_id),
                SqlValueView::Bytes(name@),
            ]);
        },
        None => {
            assert(params.deep_view() =~= seq![
                SqlValueView::Text(wallet_id@),
                SqlValueView::Int(item_id),
            ]);
        },
    }
    params
}

/// The statement that inserts or upserts `tag` for the item `item_id`.
pub fn tag_write_request(upsert: bool, wallet_id: &str, item_id: i64, tag: &Tag) -> (request:
    Request)
    ensures
        request@ == tag_write(upsert, wallet_id@, item_id, tag@),
{
    match tag {
        Tag::Encrypted(name, value) => {
            let mut params = tag_key_params(wallet_id, item_id, Some(name));
            let last = SqlValue::bytes(value.as_slice());
            let ghost before = params;
            params.push(last);
            proof {
                deep_view_push(before, params, last);
            }
            assert(params.deep_view() =~= seq![
                SqlValueView::Text(wallet_id@),
                SqlValueView::Int(item_id),
                SqlValueView::Bytes(name@),
                SqlValueView::Bytes(value@),
            ]);
            Request::Execute {
                statement: if upsert {
                    Statement::UpsertEncryptedTag
                } else {
                    Statement::InsertEncryptedTag
                },
                params,
            }
        },
        Tag::PlainText(name, value) => {
            let mut params = tag_key_params(wallet_id, item_id, Some(name));
            let last = SqlValue::text(value.as_str());
            let ghost before = params;
            params.push(last);
            proof {
                deep_view_push(before, params, last);
            }
            assert(params.deep_view() =~= seq![
                SqlValueView::Text(wallet_id@),
                SqlValueView::Int(item_id),
                SqlValueView::Bytes(name@),
                SqlValueView::Text(value@),
            ]);
            Request::Execute {
                statement: if upsert {
                    Statement::UpsertPlainTag
                } else {
                    Statement::InsertPlainTag
                },
                params,
            }
        },
    }
}

/// The statement that deletes the tag `tag_name` of the item `item_id`.
pub fn tag_delete_request(wallet_id: &str, item_id: i64, tag_name: &TagName) -> (request: Request)
    ensures
        request@ == tag_delete(wallet_id@, item_id, tag_name@),
{
    match tag_name {
        TagName::OfEncrypted(name) => Request::Execute {
            statement: Statement::DeleteEncryptedTag,
            params: tag_key_params(wallet_id, item_id, Some(name)),
        },
        TagName::OfPlain(name) => Request::Execute {
            statement: Statement::DeletePlainTag,
            params: tag_key_params(wallet_id, item_id, Some(name)),
        },
    }
}

/// The statement that deletes all tags of one variant of the item `item_id`.
pub fn tags_clear_request(statement: Statement, wallet_id: &str, item_id: i64) -> (request:
    Request)
    ensures
        request@ == tags_clear(statement, wallet_id@, item_id),
{
    Request::Execute { statement, params: tag_key_params(wallet_id, item_id, None) }
}

impl ItemWrite {
    /// The machine of `kind` for the item of a wallet with a type and a name,
    /// before its first request.
    pub fn new(
        kind: WriteKind,
        wallet_id: &str,
        type_: &[u8],
        name: &[u8],
        value: EncryptedValue,
        tags: Vec<Tag>,
        tag_names: Vec<TagName>,
    ) -> (machine: ItemWrite)
        ensures
            machine@ == (ItemWriteView {
                kind,
                wallet_id: wallet_id@,
                type_: type_@,
                name: name@,
                value: value@,
                tags: tags.deep_view(),
                tag_names: tag_names.deep_view(),
                phase: WritePhase::Start,
                item_id: 0,
                failure: None,
            }),
    {
        ItemWrite {
            kind,
            wallet_id: copy_text(wallet_id),
            type_: copy_bytes(type_),
            name: copy_bytes(name),
            value,
            tags,
            tag_names,
            phase: WritePhase::Start,
            item_id: 0,
            failure: None,
        }
    }

    fn resolve(&self) -> (request: Request)
        ensures
            request@ == self@.resolve(),
    {
        let mut params = item_key_params(
            self.wallet_id.as_str(),
            self.type_.as_slice(),
            self.name.as_slice(),
        );
        match self.kind {
            WriteKind::Add => {
                let ghost key = params.deep_view();
                params.push(SqlValue::bytes(self.value.data.as_slice()));
                params.push(SqlValue::bytes(self.value.key.as_slice()));
                assert(params.deep_view() =~= key + seq![
                    SqlValueView::Bytes(self.value.data@),
                    SqlValueView::Bytes(self.value.key@),
                ]);
                Request::Query { sql: Sql::Fixed(Statement::InsertItem), params }
            },
            _ => Request::Query { sql: Sql::Fixed(Statement::SelectItemId), params },
        }
    }

    fn count(&self) -> (count: usize)
        ensures
            count == self@.count(),
    {
        match self.kind {
            WriteKind::DeleteTags => self.tag_names.len(),
            _ => self.tags.len(),
        }
    }

    fn proceed(&mut self, index: usize) -> (step: Step<()>)
        ensures
            (final(self)@, step.deep_view()) == old(self)@.proceed(index as nat),
    {
        if index < self.count() {
            let request = match self.kind {
                WriteKind::DeleteTags => tag_delete_request(
                    self.wallet_id.as_str(),
                    self.item_id,
                    &self.tag_names[index],
                ),
                WriteKind::AddTags => tag_write_request(
                    true,
                    self.wallet_id.as_str(),
                    self.item_id,
                    &self.tags[index],
                ),
                _ => tag_write_request(
                    false,
                    self.wallet_id.as_str(),
                    self.item_id,
                    &self.tags[index],
                ),
            };
            self.phase = WritePhase::Writing(index);
            Step::Perform(request)
        } else {
            self.phase = WritePhase::Committing;
            Step::Perform(Request::Commit)
        }
    }

    fn in_transaction(&self) -> (open: bool)
        ensures
            open == self@.in_transaction(),
    {
        match self.phase {
            WritePhase::Start | WritePhase::Opening | WritePhase::Finished => false,
            WritePhase::Resolving => match self.kind {
                WriteKind::DeleteTags => false,
                _ => true,
            },
            _ => true,
        }
    }

    fn fail(&mut self, error: WalletStorageError) -> (step: Step<()>)
        ensures
            (final(self)@, step.deep_view()) == old(self)@.fail(error@),
    {
        if self.in_transaction() {
            self.phase = WritePhase::Aborting;
            self.failure = Some(error);
            Step::Perform(Request::Rollback)
        } else {
            self.phase = WritePhase::Finished;
            Step::Finish(Err(error))
        }
    }

    fn resolved(&mut self, item_id: i64) -> (step: Step<()>)
        ensures
            (final(self)@, step.deep_view()) == old(self)@.resolved(item_id),
    {
        self.item_id = item_id;
        match self.kind {
            WriteKind::Add | WriteKind::AddTags => self.proceed(0),
            WriteKind::UpdateTags => {
                self.phase = WritePhase::Clearing(0);
                Step::Perform(
                    tags_clear_request(
                        Statement::DeleteItemEncryptedTags,
                        self.wallet_id.as_str(),
                        item_id,
                    ),
                )
            },
            WriteKind::DeleteTags => {
                self.phase = WritePhase::Opening;
                Step::Perform(Request::Begin)
            },
        }
    }

    /// Advances the operation with the reply to its previous request
    /// (`Reply::Ready` at first) and returns its next request or its result.
    pub fn advance(&mut self, reply: Reply) -> (step: Step<()>)
        ensures
            (final(self)@, step.deep_view()) == old(self)@.advance(reply@),
    {
        match self.phase {
            WritePhase::Start => {
                match self.kind {
                    WriteKind::DeleteTags => {
                        let request = self.resolve();
                        self.phase = WritePhase::Resolving;
                        Step::Perform(request)
                    },
                    _ => {
                        self.phase = WritePhase::Opening;
                        Step::Perform(Request::Begin)
                    },
                }
            },
            WritePhase::Opening => {
                match reply {
                    Reply::Done => {
                        match self.kind {
                            WriteKind::DeleteTags => self.proceed(0),
                            _ => {
                                let request = self.resolve();
                                self.phase = WritePhase::Resolving;
                                Step::Perform(request)
                            },
                        }
                    },
                    _ => {
                        let error = refusal(&reply);
                        self.fail(error)
                    },
                }
            },
            WritePhase::Resolving => {
                match &reply {
                    Reply::Rows(rows) => {
                        if rows.len() == 0 {
                            self.fail(WalletStorageError::ItemNotFound)
                        } else {
                            match first_row_id(rows) {
                                Some(item_id) => self.resolved(item_id),
                                None => {
                                    let error = invalid_state(
                                        "The backend's reply does not answer the request",
                                    );
                                    self.fail(error)
                                },
                            }
                        }
                    },
                    _ => {
                        let error = refusal(&reply);
                        self.fail(error)
                    },
                }
            },
            WritePhase::Clearing(step) => {
                match reply {
                    Reply::Affected(_) => {
                        if step == 0 {
                            self.phase = WritePhase::Clearing(1);
                            Step::Perform(
                                tags_clear_request(
                                    Statement::DeleteItemPlainTags,
                                    self.wallet_id.as_str(),
                                    self.item_id,
                                ),
                            )
                        } else {
                            self.proceed(0)
                        }
                    },
                    _ => {
                        let error = refusal(&reply);
                        self.fail(error)
                    },
                }
            },
            WritePhase::Writing(index) => {
                match reply {
                    Reply::Affected(_) => {
                        if index < self.count() {
                            self.proceed(index + 1)
                        } else {
                            self.phase = WritePhase::Committing;
                            Step::Perform(Request::Commit)
                        }
                    },
                    _ => {
                        let error = refusal(&reply);
                        self.fail(error)
                    },
                }
            },
            WritePhase::Committing => {
                self.phase = WritePhase::Finished;
                match reply {
                    Reply::Done => Step::Finish(Ok(())),
                    _ => Step::Finish(Err(refusal(&reply))),
                }
            },
            WritePhase::Aborting => {
                self.phase = WritePhase::Finished;
                match self.failure.take() {
                    Some(error) => {
                        self.failure = Some(duplicate_error(&error));
                        Step::Finish(Err(error))
                    },
                    None => Step::Finish(
                        Err(invalid_state("The backend's reply does not answer the request")),
                    ),
                }
            },
            WritePhase::Finished => Step::Finish(
                Err(invalid_state("The operation has finished")),
            ),
        }
    }
}

/// Every request brings a writing operation nearer to its end.
pub proof fn write_advances(machine: ItemWriteView, reply: ReplyView)
    requires
        machine.count() <= usize::MAX,
    ensures
        machine.advance(reply).1 is Perform ==> machine.advance(reply).0.remaining()
            < machine.remaining(),
{
}

/// A writing operation is all or nothing on every backend: it reports
/// success only for the reply that the transaction is committed, and once
/// its transaction is open it reports a failure only after it has asked to
/// abandon the transaction, or for a commit that failed.
pub proof fn write_commits_or_abandons(machine: ItemWriteView, reply: ReplyView)
    ensures
        machine.advance(reply).1 == StepView::<()>::Finish(Ok(())) ==> machine.phase
            == WritePhase::Committing && reply is Done,
        machine.in_transaction() && machine.advance(reply).1 is Finish ==> machine.phase
            == WritePhase::Committing || machine.phase == WritePhase::Aborting,
        machine.in_transaction() && !(machine.phase == WritePhase::Committing || machine.phase
            == WritePhase::Aborting) && !(reply is Affected || reply is Rows) ==> machine.advance(
            reply,
        ).1 == StepView::<()>::Perform(RequestView::Rollback),
{
}

} // verus!
