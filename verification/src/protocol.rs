//! What the engine asks of a backend and what a backend answers.
//!
//! The engine itself performs no input or output. Each operation is a small
//! machine: it is advanced with the reply to its previous request and answers
//! with the next request to perform, or with its result. Whoever holds the
//! connection performs the requests.

use vstd::prelude::*;
use crate::bytes::{copy_bytes, copy_text};
use crate::error::{
    invalid_state,
    BackendError,
    BackendErrorView,
    WalletStorageError,
    WalletStorageErrorView,
};
use crate::statement::Statement;

verus! {

/// A value bound to a parameter of a statement, or read from a column of a
/// row.
#[derive(Clone, Debug, PartialEq, Eq)]
pub enum SqlValue {
    Int(i64),
    Bytes(Vec<u8>),
    Text(String),
}

/// What a [`SqlValue`] holds.
pub enum SqlValueView {
    Int(i64),
    Bytes(Seq<u8>),
    Text(Seq<char>),
}

impl View for SqlValue {
    type V = SqlValueView;

    open spec fn view(&self) -> SqlValueView {
        match *self {
            SqlValue::Int(number) => SqlValueView::Int(number),
            SqlValue::Bytes(bytes) => SqlValueView::Bytes(bytes@),
            SqlValue::Text(text) => SqlValueView::Text(text@),
        }
    }
}

impl DeepView for SqlValue {
    type V = SqlValueView;

    open spec fn deep_view(&self) -> SqlValueView {
        self@
    }
}

impl SqlValue {
    /// A copy of this value.
    pub fn duplicate(&self) -> (copy: SqlValue)
        ensures
            copy@ == self@,
    {
        match self {
            SqlValue::Int(number) => SqlValue::Int(*number),
            SqlValue::Bytes(bytes) => SqlValue::Bytes(copy_bytes(bytes.as_slice())),
            SqlValue::Text(text) => SqlValue::Text(copy_text(text.as_str())),
        }
    }

    /// The parameter that holds the bytes of `bytes`.
    pub fn bytes(bytes: &[u8]) -> (value: SqlValue)
        ensures
            value@ == SqlValueView::Bytes(bytes@),
    {
        SqlValue::Bytes(copy_bytes(bytes))
    }

    /// The parameter that holds the text of `text`.
    pub fn text(text: &str) -> (value: SqlValue)
        ensures
            value@ == SqlValueView::Text(text@),
    {
        SqlValue::Text(copy_text(text))
    }
}

/// A row of a result, column by column.
pub type Row = Vec<SqlValue>;

/// What a [`Row`] holds.
pub type RowView = Seq<SqlValueView>;

/// The text of a statement: one of the engine's own, or one that the
/// predicate compiler produced.
#[derive(Clone, Debug, PartialEq, Eq)]
pub enum Sql {
    Fixed(Statement),
    Translated(String),
}

/// What a [`Sql`] holds.
pub enum SqlView {
    Fixed(Statement),
    Translated(Seq<char>),
}

impl View for Sql {
    type V = SqlView;

    open spec fn view(&self) -> SqlView {
        match *self {
            Sql::Fixed(statement) => SqlView::Fixed(statement),
            Sql::Translated(text) => SqlView::Translated(text@),
        }
    }
}

impl DeepView for Sql {
    type V = SqlView;

    open spec fn deep_view(&self) -> SqlView {
        self@
    }
}

/// One thing for the holder of the connection to do.
#[derive(Clone, Debug, PartialEq, Eq)]
pub enum Request {
    /// Connect to the server at this address, without transport security.
    Connect { url: String },
    /// Close the connection that `Connect` opened.
    Disconnect,
    /// Build the connection pool of an open wallet for this address.
    OpenPool { url: String },
    /// Open a transaction on the leased connection.
    Begin,
    /// Commit the open transaction.
    Commit,
    /// Abandon the open transaction: none of its statements persists.
    Rollback,
    /// Run a statement and return all its rows.
    Query { sql: Sql, params: Vec<SqlValue> },
    /// Run a statement and return the number of rows it touched.
    Execute { statement: Statement, params: Vec<SqlValue> },
    /// Have the predicate compiler compile the search expression for the
    /// items of this wallet with this type: to the statement that counts
    /// them, or to the one that returns them. The statement is to mean
    /// rows of this wallet only.
    Translate { wallet_id: String, type_: Vec<u8>, count: bool },
    /// Lease a connection of its own, prepare the statement on it and open a
    /// cursor over its result: over rows of this wallet.
    OpenCursor { wallet_id: String, sql: Sql, params: Vec<SqlValue> },
    /// Lease a connection of its own and prepare on it the two statements
    /// that fetch the tags of one item.
    PrepareTags,
    /// Return the next row of the cursor that has not been consumed, or none
    /// when the cursor is exhausted.
    Fetch,
}

/// What a [`Request`] holds.
pub enum RequestView {
    Connect { url: Seq<char> },
    Disconnect,
    OpenPool { url: Seq<char> },
    Begin,
    Commit,
    Rollback,
    Query { sql: SqlView, params: Seq<SqlValueView> },
    Execute { statement: Statement, params: Seq<SqlValueView> },
    Translate { wallet_id: Seq<char>, type_: Seq<u8>, count: bool },
    OpenCursor { wallet_id: Seq<char>, sql: SqlView, params: Seq<SqlValueView> },
    PrepareTags,
    Fetch,
}

impl View for Request {
    type V = RequestView;

    open spec fn view(&self) -> RequestView {
        match *self {
            Request::Connect { url } => RequestView::Connect { url: url@ },
            Request::Disconnect => RequestView::Disconnect,
            Request::OpenPool { url } => RequestView::OpenPool { url: url@ },
            Request::Begin => RequestView::Begin,
            Request::Commit => RequestView::Commit,
            Request::Rollback => RequestView::Rollback,
            Request::Query { sql, params } => RequestView::Query {
                sql: sql@,
                params: params.deep_view(),
            },
            Request::Execute { statement, params } => RequestView::Execute {
                statement,
                params: params.deep_view(),
            },
            Request::Translate { wallet_id, type_, count } => RequestView::Translate {
                wallet_id: wallet_id@,
                type_: type_@,
                count,
            },
            Request::OpenCursor { wallet_id, sql, params } => RequestView::OpenCursor {
                wallet_id: wallet_id@,
                sql: sql@,
                params: params.deep_view(),
            },
            Request::PrepareTags => RequestView::PrepareTags,
            Request::Fetch => RequestView::Fetch,
        }
    }
}

impl DeepView for Request {
    type V = RequestView;

    open spec fn deep_view(&self) -> RequestView {
        self@
    }
}

/// The least number of idle connections that the pool of an open wallet
/// keeps.
pub const POOL_MIN_IDLE: u32 = 0;

/// The most connections that the pool of an open wallet leases at a time.
pub const POOL_MAX_SIZE: u32 = 2;

/// The seconds after which the pool closes an idle connection.
pub const POOL_IDLE_TIMEOUT_SECS: u64 = 5;

/// The answer to a request.
#[derive(Clone, Debug, PartialEq, Eq)]
pub enum Reply {
    /// Nothing has been asked yet: the operation starts.
    Ready,
    /// The request was carried out and returns nothing.
    Done,
    /// The rows of a `Query`.
    Rows(Vec<Row>),
    /// The next row of a `Fetch`, or none when the cursor is exhausted.
    Fetched(Option<Row>),
    /// The number of rows that an `Execute` touched.
    Affected(u64),
    /// The statement and the parameters that a `Translate` produced.
    Translated { text: String, params: Vec<SqlValue> },
    /// The predicate compiler rejected the expression.
    Rejected(String),
    /// The backend or the connection failed.
    Failed(BackendError),
}

/// What a [`Reply`] holds.
pub enum ReplyView {
    Ready,
    Done,
    Rows(Seq<RowView>),
    Fetched(Option<RowView>),
    Affected(u64),
    Translated { text: Seq<char>, params: Seq<SqlValueView> },
    Rejected(Seq<char>),
    Failed(BackendErrorView),
}

impl View for Reply {
    type V = ReplyView;

    open spec fn view(&self) -> ReplyView {
        match *self {
            Reply::Ready => ReplyView::Ready,
            Reply::Done => ReplyView::Done,
            Reply::Rows(rows) => ReplyView::Rows(rows.deep_view()),
            Reply::Fetched(row) => ReplyView::Fetched(row.deep_view()),
            Reply::Affected(count) => ReplyView::Affected(count),
            Reply::Translated { text, params } => ReplyView::Translated {
                text: text@,
                params: params.deep_view(),
            },
            Reply::Rejected(message) => ReplyView::Rejected(message@),
            Reply::Failed(error) => ReplyView::Failed(error@),
        }
    }
}

impl DeepView for Reply {
    type V = ReplyView;

    open spec fn deep_view(&self) -> ReplyView {
        self@
    }
}

/// What an operation answers when it is advanced: the next request, or its
/// result.
#[derive(Debug, PartialEq, Eq)]
pub enum Step<T> {
    Perform(Request),
    Finish(Result<T, WalletStorageError>),
}

/// What a [`Step`] holds.
pub enum StepView<V> {
    Perform(RequestView),
    Finish(Result<V, WalletStorageErrorView>),
}

impl<T: DeepView> DeepView for Step<T> {
    type V = StepView<T::V>;

    open spec fn deep_view(&self) -> StepView<T::V> {
        match *self {
            Step::Perform(request) => StepView::Perform(request@),
            Step::Finish(Ok(value)) => StepView::Finish(Ok(value.deep_view())),
            Step::Finish(Err(error)) => StepView::Finish(Err(error@)),
        }
    }
}

/// Pushing onto a vector pushes the view of the new element onto what the
/// vector holds.
pub proof fn deep_view_push<T: DeepView>(before: Vec<T>, after: Vec<T>, last: T)
    requires
        after@ == before@.push(last),
    ensures
        after.deep_view() == before.deep_view().push(last.deep_view()),
{
    assert(after.deep_view() =~= before.deep_view().push(last.deep_view()));
}

/// Appending one vector to another appends what they hold.
pub proof fn deep_view_concat<T: DeepView>(front: Vec<T>, back: Vec<T>, whole: Vec<T>)
    requires
        whole@ == front@ + back@,
    ensures
        whole.deep_view() == front.deep_view() + back.deep_view(),
{
    assert(whole.deep_view() =~= front.deep_view() + back.deep_view());
}

/// Copies of the values of `values`, in their order.
pub fn copy_values(values: &[SqlValue]) -> (copy: Vec<SqlValue>)
    ensures
        copy.deep_view() == values.deep_view(),
{
    let mut copy: Vec<SqlValue> = Vec::new();
    let mut i: usize = 0;
    while i < values.len()
        invariant
            i <= values.len(),
            copy.len() == i,
            forall|k: int| 0 <= k < i ==> copy@[k]@ == values@[k]@,
        decreases values.len() - i,
    {
        copy.push(values[i].duplicate());
        i += 1;
    }
    assert(copy.deep_view() =~= values.deep_view());
    copy
}

/// The message of the error for a reply that does not answer the request.
pub open spec fn unexpected_reply() -> Seq<char> {
    "The backend's reply does not answer the request"@
}

/// The message of the error for advancing an operation that has handed out
/// its result.
pub open spec fn already_finished() -> Seq<char> {
    "The operation has finished"@
}

/// The error for a reply that reports no success: the backend's failure
/// as a storage failure, or an invalid state for a reply of another
/// kind.
pub open spec fn refused(reply: ReplyView) -> WalletStorageErrorView {
    match reply {
        ReplyView::Failed(error) => error.storage_failure(),
        _ => WalletStorageErrorView::InvalidState(unexpected_reply()),
    }
}

/// The id in the first row of a result whose rows hold one integer, if the
/// result has a row of that shape.
pub open spec fn first_id(rows: Seq<RowView>) -> Option<i64> {
    if rows.len() > 0 && rows[0].len() == 1 && rows[0][0] is Int {
        Some(rows[0][0]->Int_0)
    } else {
        None
    }
}

/// The id in the first row of a result whose rows hold one integer.
pub fn first_row_id(rows: &Vec<Vec<SqlValue>>) -> (id: Option<i64>)
    ensures
        id == first_id(rows.deep_view()),
{
    if rows.len() > 0 && rows[0].len() == 1 {
        assert(rows.deep_view()[0] == rows@[0].deep_view());
        assert(rows@[0].deep_view()[0] == rows@[0]@[0]@);
        match &rows[0][0] {
            SqlValue::Int(id) => Some(*id),
            _ => None,
        }
    } else {
        assert(rows.len() > 0 ==> rows.deep_view()[0] == rows@[0].deep_view());
        None
    }
}

/// The error for a reply that reports no success.
pub fn refusal(reply: &Reply) -> (error: WalletStorageError)
    ensures
        error@ == refused(reply@),
{
    match reply {
        Reply::Failed(error) => error.storage_failure(),
        _ => invalid_state("The backend's reply does not answer the request"),
    }
}

} // verus!
