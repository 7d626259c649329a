//! The operations of an open wallet that are one statement: updating the
//! value of an item, deleting an item, replacing and reading the metadata.
//! They need no transaction: the backend runs a statement whole or not at
//! all.

use vstd::prelude::*;
use crate::bytes::{bytes_deep_view, copy_bytes, copy_text};
use crate::decimal::{decimal, decimal_text};
use crate::error::{invalid_state, WalletStorageError, WalletStorageErrorView};
use crate::protocol::{
    already_finished,
    refusal,
    refused,
    unexpected_reply,
    Reply,
    ReplyView,
    Request,
    RequestView,
    RowView,
    Sql,
    SqlValue,
    SqlValueView,
    SqlView,
    Step,
    StepView,
};
use crate::record::{EncryptedValue, EncryptedValueView};
use crate::statement::Statement;
use crate::write::{item_key, item_key_params};

verus! {

/// Which of the single statements a machine runs.
#[derive(Clone, Copy, Debug, PartialEq, Eq, Structural)]
pub enum CommandKind {
    /// Replace the value of an item.
    Update,
    /// Delete an item and, with it, its tags.
    Delete,
    /// Replace the metadata of the wallet.
    SetMetadata,
}

/// How far an operation of one statement has come.
#[derive(Clone, Copy, Debug, PartialEq, Eq, Structural)]
pub enum CommandPhase {
    /// Nothing has been asked yet.
    Start,
    /// The statement runs.
    Waiting,
    /// The result has been handed out.
    Finished,
}

/// An operation of one statement on an open wallet.
pub struct Command {
    pub kind: CommandKind,
    pub wallet_id: String,
    pub type_: Vec<u8>,
    pub name: Vec<u8>,
    pub value: EncryptedValue,
    pub metadata: Vec<u8>,
    pub phase: CommandPhase,
}

/// What a [`Command`] holds.
pub struct CommandView {
    pub kind: CommandKind,
    pub wallet_id: Seq<char>,
    pub type_: Seq<u8>,
    pub name: Seq<u8>,
    pub value: EncryptedValueView,
    pub metadata: Seq<u8>,
    pub phase: CommandPhase,
}

impl View for Command {
    type V = CommandView;

    open spec fn view(&self) -> CommandView {
        CommandView {
            kind: self.kind,
            wallet_id: self.wallet_id@,
            type_: self.type_@,
            name: self.name@,
            value: self.value@,
            metadata: self.metadata@,
            phase: self.phase,
        }
    }
}

/// The message of the error for an update that touched more than one row.
pub open spec fn update_count_message(count: u64) -> Seq<char> {
    "Postgres returned update row count: "@ + decimal(count as nat)
}

/// What is put before the backend's message where replacing the metadata
/// fails.
pub open spec fn metadata_context() -> Seq<char> {
    "Error occurred while inserting the keys: "@
}

impl CommandView {
    /// The statement of the operation.
    pub open spec fn request(self) -> RequestView {
        match self.kind {
            CommandKind::Update => RequestView::Execute {
                statement: Statement::UpdateItem,
                params: seq![
                    SqlValueView::Bytes(self.value.data),
                    SqlValueView::Bytes(self.value.key),
                ] + item_key(self.wallet_id, self.type_, self.name),
            },
            CommandKind::Delete => RequestView::Execute {
                statement: Statement::DeleteItem,
                params: item_key(self.wallet_id, self.type_, self.name),
            },
            CommandKind::SetMetadata => RequestView::Execute {
                statement: Statement::UpdateMetadata,
                params: seq![
                    SqlValueView::Bytes(self.metadata),
                    SqlValueView::Text(self.wallet_id),
                ],
            },
        }
    }

    /// The result of the operation, given the reply to its statement.
    ///
    /// An update succeeds when it touched exactly one row; none is
    /// `ItemNotFound`, more than one is an invalid state. A deletion
    /// succeeds when it removed exactly one row, and is `ItemNotFound`
    /// otherwise. Replacing the metadata succeeds whatever the number of
    /// rows: it never creates a missing row.
    pub open spec fn result(self, reply: ReplyView) -> Result<(), WalletStorageErrorView> {
        match self.kind {
            CommandKind::Update => match reply {
                ReplyView::Affected(count) => if count == 1 {
                    Ok(())
                } else if count == 0 {
                    Err(WalletStorageErrorView::ItemNotFound)
                } else {
                    Err(WalletStorageErrorView::InvalidState(update_count_message(count)))
                },
                _ => Err(refused(reply)),
            },
            CommandKind::Delete => match reply {
                ReplyView::Affected(count) => if count == 1 {
                    Ok(())
                } else {
                    Err(WalletStorageErrorView::ItemNotFound)
                },
                _ => Err(refused(reply)),
            },
            CommandKind::SetMetadata => match reply {
                ReplyView::Affected(_) => Ok(()),
                ReplyView::Failed(error) => Err(error.io_failure(metadata_context())),
                _ => Err(WalletStorageErrorView::InvalidState(unexpected_reply())),
            },
        }
    }

    /// The transition of the machine: its next state and what it answers to
    /// `reply`.
    pub open spec fn advance(self, reply: ReplyView) -> (CommandView, StepView<()>) {
        match self.phase {
            CommandPhase::Start => (
                CommandView { phase: CommandPhase::Waiting, ..self },
                StepView::Perform(self.request()),
            ),
            CommandPhase::Waiting => (
                CommandView { phase: CommandPhase::Finished, ..self },
                StepView::Finish(self.result(reply)),
            ),
            CommandPhase::Finished => (
                self,
                StepView::Finish(Err(WalletStorageErrorView::InvalidState(already_finished()))),
            ),
        }
    }

    /// A bound on the number of requests that the machine still makes.
    pub open spec fn remaining(self) -> nat {
        match self.phase {
            CommandPhase::Start => 1,
            _ => 0,
        }
    }
}

impl Command {
    /// The machine of `kind`, before its request.
    pub fn new(
        kind: CommandKind,
        wallet_id: &str,
        type_: &[u8],
        name: &[u8],
        value: EncryptedValue,
        metadata: &[u8],
    ) -> (machine: Command)
        ensures
            machine@ == (CommandView {
                kind,
                wallet_id: wallet_id@,
                type_: type_@,
                name: name@,
                value: value@,
                metadata: metadata@,
                phase: CommandPhase::Start,
            }),
    {
        Command {
            kind,
            wallet_id: copy_text(wallet_id),
            type_: copy_bytes(type_),
            name: copy_bytes(name),
            value,
            metadata: copy_bytes(metadata),
            phase: CommandPhase::Start,
        }
    }

    fn request(&self) -> (request: Request)
        ensures
            request@ == self@.request(),
    {
        match self.kind {
            CommandKind::Update => {
                let mut params: Vec<SqlValue> = Vec::new();
                params.push(SqlValue::bytes(self.value.data.as_slice()));
                params.push(SqlValue::bytes(self.value.key.as_slice()));
                params.push(SqlValue::text(self.wallet_id.as_str()));
                params.push(SqlValue::bytes(self.type_.as_slice()));
                params.push(SqlValue::bytes(self.name.as_slice()));
                assert(params.deep_view() =~= seq![
                    SqlValueView::Bytes(self.value.data@),
                    SqlValueView::Bytes(self.value.key@),
                ] + item_key(self.wallet_id@, self.type_@, self.name@));
                Request::Execute { statement: Statement::UpdateItem, params }
            },
            CommandKind::Delete => Request::Execute {
                statement: Statement::DeleteItem,
                params: item_key_params(
                    self.wallet_id.as_str(),
                    self.type_.as_slice(),
                    self.name.as_slice(),
                ),
            },
            CommandKind::SetMetadata => {
                let mut params: Vec<SqlValue> = Vec::new();
                params.push(SqlValue::bytes(self.metadata.as_slice()));
                params.push(SqlValue::text(self.wallet_id.as_str()));
                assert(params.deep_view() =~= seq![
                    SqlValueView::Bytes(self.metadata@),
                    SqlValueView::Text(self.wallet_id@),
                ]);
                Request::Execute { statement: Statement::UpdateMetadata, params }
            },
        }
    }

    fn result(&self, reply: &Reply) -> (result: Result<(), WalletStorageError>)
        ensures
            match result {
                Ok(_) => self@.result(reply@) == Ok::<(), WalletStorageErrorView>(()),
                Err(error) => self@.result(reply@) == Err::<(), WalletStorageErrorView>(error@),
            },
    {
        match self.kind {
            CommandKind::Update => match reply {
                Reply::Affected(count) => {
                    if *count == 1 {
                        Ok(())
                    } else if *count == 0 {
                        Err(WalletStorageError::ItemNotFound)
                    } else {
                        let mut message = copy_text("Postgres returned update row count: ");
                        message.append(decimal_text(*count).as_str());
                        Err(WalletStorageError::InvalidState(message))
                    }
                },
                _ => Err(refusal(reply)),
            },
            CommandKind::Delete => match reply {
                Reply::Affected(count) => {
                    if *count == 1 {
                        Ok(())
                    } else {
                        Err(WalletStorageError::ItemNotFound)
                    }
                },
                _ => Err(refusal(reply)),
            },
            CommandKind::SetMetadata => match reply {
                Reply::Affected(_) => Ok(()),
                Reply::Failed(error) => Err(
                    error.io_failure("Error occurred while inserting the keys: "),
                ),
                _ => Err(invalid_state("The backend's reply does not answer the request")),
            },
        }
    }

    /// Advances the operation with the reply to its previous request
    /// (`Reply::Ready` at first) and returns its request or its result.
    pub fn advance(&mut self, reply: Reply) -> (step: Step<()>)
        ensures
            (final(self)@, step.deep_view()) == old(self)@.advance(reply@),
    {
        match self.phase {
            CommandPhase::Start => {
                self.phase = CommandPhase::Waiting;
                Step::Perform(self.request())
            },
            CommandPhase::Waiting => {
                self.phase = CommandPhase::Finished;
                Step::Finish(self.result(&reply))
            },
            CommandPhase::Finished => Step::Finish(
                Err(invalid_state("The operation has finished")),
            ),
        }
    }
}

/// How far the lookup of the metadata has come.
pub struct MetadataRead {
    pub wallet_id: String,
    pub phase: CommandPhase,
}

/// What a [`MetadataRead`] holds.
pub struct MetadataReadView {
    pub wallet_id: Seq<char>,
    pub phase: CommandPhase,
}

impl View for MetadataRead {
    type V = MetadataReadView;

    open spec fn view(&self) -> MetadataReadView {
        MetadataReadView { wallet_id: self.wallet_id@, phase: self.phase }
    }
}

/// The bytes in the first row of a result whose rows hold one byte string,
/// if the result has a row of that shape.
pub open spec fn first_blob(rows: Seq<RowView>) -> Option<Seq<u8>> {
    if rows.len() > 0 && rows[0].len() == 1 && rows[0][0] is Bytes {
        Some(rows[0][0]->Bytes_0)
    } else {
        None
    }
}

impl MetadataReadView {
    /// The statement of the lookup.
    pub open spec fn request(self) -> RequestView {
        RequestView::Query {
            sql: SqlView::Fixed(Statement::SelectMetadata),
            params: seq![SqlValueView::Text(self.wallet_id)],
        }
    }

    /// The metadata, given the reply to the lookup: the value of the first
    /// row, and `ItemNotFound` where there is none.
    pub open spec fn result(reply: ReplyView) -> Result<Seq<u8>, WalletStorageErrorView> {
        match reply {
            ReplyView::Rows(rows) => if rows.len() == 0 {
                Err(WalletStorageErrorView::ItemNotFound)
            } else {
                match first_blob(rows) {
                    Some(metadata) => Ok(metadata),
                    None => Err(WalletStorageErrorView::InvalidState(unexpected_reply())),
                }
            },
            _ => Err(refused(reply)),
        }
    }

    /// The transition of the machine: its next state and what it answers to
    /// `reply`.
    pub open spec fn advance(self, reply: ReplyView) -> (MetadataReadView, StepView<Seq<u8>>) {
        match self.phase {
            CommandPhase::Start => (
                MetadataReadView { phase: CommandPhase::Waiting, ..self },
                StepView::Perform(self.request()),
            ),
            CommandPhase::Waiting => (
                MetadataReadView { phase: CommandPhase::Finished, ..self },
                StepView::Finish(Self::result(reply)),
            ),
            CommandPhase::Finished => (
                self,
                StepView::Finish(Err(WalletStorageErrorView::InvalidState(already_finished()))),
            ),
        }
    }

    /// A bound on the number of requests that the machine still makes.
    pub open spec fn remaining(self) -> nat {
        match self.phase {
            CommandPhase::Start => 1,
            _ => 0,
        }
    }
}

impl MetadataRead {
    /// The lookup of the metadata of a wallet, before its request.
    pub fn new(wallet_id: &str) -> (machine: MetadataRead)
        ensures
            machine@ == (MetadataReadView { wallet_id: wallet_id@, phase: CommandPhase::Start }),
    {
        MetadataRead { wallet_id: copy_text(wallet_id), phase: CommandPhase::Start }
    }

    fn result(reply: &Reply) -> (result: Result<Vec<u8>, WalletStorageError>)
        ensures
            match result {
                Ok(metadata) => MetadataReadView::result(reply@) == Ok::<
                    Seq<u8>,
                    WalletStorageErrorView,
                >(metadata@),
                Err(error) => MetadataReadView::result(reply@) == Err::<
                    Seq<u8>,
                    WalletStorageErrorView,
                >(error@),
            },
    {
        match reply {
            Reply::Rows(rows) => {
                if rows.len() == 0 {
                    return Err(WalletStorageError::ItemNotFound);
                }
                assert(rows.deep_view()[0] == rows@[0].deep_view());
                if rows[0].len() != 1 {
                    return Err(invalid_state("The backend's reply does not answer the request"));
                }
                assert(rows@[0].deep_view()[0] == rows@[0]@[0]@);
                match &rows[0][0] {
                    SqlValue::Bytes(metadata) => Ok(copy_bytes(metadata.as_slice())),
                    _ => Err(invalid_state("The backend's reply does not answer the request")),
                }
            },
            _ => Err(refusal(reply)),
        }
    }

    /// Advances the lookup with the reply to its previous request
    /// (`Reply::Ready` at first) and returns its request or its result.
    pub fn advance(&mut self, reply: Reply) -> (step: Step<Vec<u8>>)
        ensures
            (final(self)@, step.deep_view()) == old(self)@.advance(reply@),
    {
        match self.phase {
            CommandPhase::Start => {
                self.phase = CommandPhase::Waiting;
                let mut params: Vec<SqlValue> = Vec::new();
                params.push(SqlValue::text(self.wallet_id.as_str()));
                assert(params.deep_view() =~= seq![SqlValueView::Text(self.wallet_id@)]);
                Step::Perform(
                    Request::Query { sql: Sql::Fixed(Statement::SelectMetadata), params },
                )
            },
            CommandPhase::Waiting => {
                self.phase = CommandPhase::Finished;
                let result = MetadataRead::result(&reply);
                proof {
                    if result is Ok {
                        bytes_deep_view(result->Ok_0);
                    }
                }
                Step::Finish(result)
            },
            CommandPhase::Finished => Step::Finish(
                Err(invalid_state("The operation has finished")),
            ),
        }
    }
}

} // verus!
