//! The life of a wallet's storage: provisioning the database and its schema,
//! creating a wallet, opening it, deleting it.
//!
//! The administrative operations (`init_storage`, `create_storage`,
//! `delete_storage`) need the administrative login. Where the credentials
//! hold none, they do nothing and report success: the storage is then taken
//! to be provisioned by other means.

use vstd::prelude::*;
use crate::bytes::{copy_bytes, copy_text};
use crate::config::{
    admin_url,
    database_url,
    PostgresConfig,
    PostgresCredentials,
    PostgresStorageType,
};
use crate::error::{duplicate_error, invalid_state, WalletStorageError, WalletStorageErrorView};
use crate::options::Document;
use crate::protocol::{
    already_finished,
    refusal,
    refused,
    unexpected_reply,
    Reply,
    ReplyView,
    Request,
    RequestView,
    Sql,
    SqlValue,
    SqlValueView,
    SqlView,
    Step,
    StepView,
};
use crate::statement::{
    schema_statement,
    schema_statements,
    wallet_deletion,
    wallet_deletions,
    wallets_database_name,
    Statement,
};
use crate::storage::{PostgresStorage, PostgresStorageView};

verus! {

/// The address and the login of the backend, as read from their documents.
pub struct Login {
    pub config: PostgresConfig,
    pub credentials: PostgresCredentials,
}

/// The login that two documents resolve to: both must be there and
/// readable.
pub open spec fn resolve_login(
    config: Document<PostgresConfig>,
    credentials: Document<PostgresCredentials>,
) -> Option<Login> {
    match (config, credentials) {
        (Document::Parsed(config), Document::Parsed(credentials)) => Some(
            Login { config, credentials },
        ),
        _ => None,
    }
}

/// The login that two documents resolve to.
pub fn login_of(config: Document<PostgresConfig>, credentials: Document<PostgresCredentials>) -> (login:
    Option<Login>)
    ensures
        login == resolve_login(config, credentials),
{
    match (config, credentials) {
        (Document::Parsed(config), Document::Parsed(credentials)) => Some(
            Login { config, credentials },
        ),
        _ => None,
    }
}

impl Login {
    /// The address of the database that holds all wallets.
    pub open spec fn wallets_url(&self) -> Seq<char> {
        database_url("wallets", &self.config, &self.credentials)
    }

    /// The address of the server for the administrative account.
    pub open spec fn server_url(&self) -> Seq<char> {
        admin_url(&self.config, &self.credentials)
    }

    fn connect_wallets(&self) -> (request: Request)
        ensures
            request@ == (RequestView::Connect { url: self.wallets_url() }),
    {
        Request::Connect {
            url: PostgresStorageType::_postgres_url(
                wallets_database_name(),
                &self.config,
                &self.credentials,
            ),
        }
    }
}

/// What is put before the backend's message where the database of the
/// wallets cannot be reached.
pub open spec fn connecting_context() -> Seq<char> {
    "Error occurred while connecting to wallet schema: "@
}

/// What is put before the backend's message where the database cannot be
/// created.
pub open spec fn database_context() -> Seq<char> {
    "Error occurred while creating the database: "@
}

/// What is put before the backend's message where the schema cannot be
/// created.
pub open spec fn schema_context() -> Seq<char> {
    "Error occurred while creating wallet schema: "@
}

/// What is put before the backend's message where the metadata of a new
/// wallet cannot be inserted.
pub open spec fn inserting_context() -> Seq<char> {
    "Error occurred while inserting into metadata: "@
}

/// What is put before the backend's message where a wallet cannot be
/// deleted.
pub open spec fn deleting_context() -> Seq<char> {
    "Error occurred while deleting wallet: "@
}

/// The error for a reply that reports no success, with `context` put before
/// the backend's message.
pub open spec fn failed_with(reply: ReplyView, context: Seq<char>) -> WalletStorageErrorView {
    match reply {
        ReplyView::Failed(error) => error.io_failure(context),
        _ => WalletStorageErrorView::InvalidState(unexpected_reply()),
    }
}

/// The error for a reply that reports no success, with `context` put before
/// the backend's message.
fn failure_with(reply: &Reply, context: &str) -> (error: WalletStorageError)
    ensures
        error@ == failed_with(reply@, context@),
{
    match reply {
        Reply::Failed(error) => error.io_failure(context),
        _ => invalid_state("The backend's reply does not answer the request"),
    }
}

/// The result of an operation that failed, once its connection is closed:
/// the failure of the closing where that failed too, and else the failure
/// that was pending.
pub open spec fn closed_after_failure(reply: ReplyView, pending: Option<WalletStorageErrorView>)
    -> WalletStorageErrorView {
    match reply {
        ReplyView::Failed(error) => error.storage_failure(),
        _ => match pending {
            Some(error) => error,
            None => WalletStorageErrorView::InvalidState(unexpected_reply()),
        },
    }
}

fn close_after_failure(reply: &Reply, pending: &Option<WalletStorageError>) -> (error:
    WalletStorageError)
    ensures
        error@ == closed_after_failure(reply@, pending.deep_view()),
{
    match reply {
        Reply::Failed(error) => error.storage_failure(),
        _ => match pending {
            Some(error) => duplicate_error(error),
            None => invalid_state("The backend's reply does not answer the request"),
        },
    }
}

/// How far the provisioning has come: the request that it waits on.
#[derive(Clone, Copy, Debug, PartialEq, Eq, Structural)]
pub enum ProvisionPhase {
    /// Nothing has been asked yet.
    Start,
    /// The connection to the server is being opened.
    ConnectingServer,
    /// The database of the wallets is being created.
    CreatingDatabase,
    /// The connection to the server is being closed.
    ClosingServer,
    /// The connection to the database of the wallets is being opened.
    ConnectingWallets,
    /// The schema statement at this index runs.
    CreatingSchema(usize),
    /// The connection to the database of the wallets is being closed.
    ClosingWallets,
    /// A connection is being closed after a failure.
    ClosingAfterFailure,
    /// The result has been handed out.
    Finished,
}

/// The provisioning of the database and the schema of all wallets. It can
/// be repeated: what exists already is left as it is.
pub struct Provision {
    pub login: Option<Login>,
    pub phase: ProvisionPhase,
    pub failure: Option<WalletStorageError>,
}

/// What a [`Provision`] holds.
pub struct ProvisionView {
    pub login: Option<Login>,
    pub phase: ProvisionPhase,
    pub failure: Option<WalletStorageErrorView>,
}

impl View for Provision {
    type V = ProvisionView;

    open spec fn view(&self) -> ProvisionView {
        ProvisionView {
            login: self.login,
            phase: self.phase,
            failure: self.failure.deep_view(),
        }
    }
}

impl ProvisionView {
    /// Ends with `result`.
    pub open spec fn finish(self, result: Result<(), WalletStorageErrorView>) -> (
        ProvisionView,
        StepView<()>,
    ) {
        (ProvisionView { phase: ProvisionPhase::Finished, ..self }, StepView::Finish(result))
    }

    /// Closes the connection after a failure.
    pub open spec fn abandon(self, error: WalletStorageErrorView) -> (ProvisionView, StepView<()>) {
        (
            ProvisionView {
                phase: ProvisionPhase::ClosingAfterFailure,
                failure: Some(error),
                ..self
            },
            StepView::Perform(RequestView::Disconnect),
        )
    }

    /// Runs the schema statement at `index`, or closes the connection when
    /// all have run.
    pub open spec fn schema(self, index: nat) -> (ProvisionView, StepView<()>) {
        if index < schema_statements().len() {
            (
                ProvisionView { phase: ProvisionPhase::CreatingSchema(index as usize), ..self },
                StepView::Perform(
                    RequestView::Execute {
                        statement: schema_statements()[index as int],
                        params: Seq::empty(),
                    },
                ),
            )
        } else {
            (
                ProvisionView { phase: ProvisionPhase::ClosingWallets, ..self },
                StepView::Perform(RequestView::Disconnect),
            )
        }
    }

    /// The transition of the machine: its next state and what it answers to
    /// `reply`.
    pub open spec fn advance(self, reply: ReplyView) -> (ProvisionView, StepView<()>) {
        if self.phase == ProvisionPhase::Finished {
            (
                self,
                StepView::Finish(Err(WalletStorageErrorView::InvalidState(already_finished()))),
            )
        } else if self.login is None {
            self.finish(Err(WalletStorageErrorView::ConfigError))
        } else {
            let login = self.login->Some_0;
            match self.phase {
                ProvisionPhase::Start => {
                    if login.credentials.has_admin() {
                        (
                            ProvisionView { phase: ProvisionPhase::ConnectingServer, ..self },
                            StepView::Perform(RequestView::Connect { url: login.server_url() }),
                        )
                    } else {
                        self.finish(Ok(()))
                    }
                },
                ProvisionPhase::ConnectingServer => {
                    if reply is Done {
                        (
                            ProvisionView { phase: ProvisionPhase::CreatingDatabase, ..self },
                            StepView::Perform(
                                RequestView::Execute {
                                    statement: Statement::CreateDatabase,
                                    params: Seq::empty(),
                                },
                            ),
                        )
                    } else {
                        self.finish(Err(refused(reply)))
                    }
                },
                ProvisionPhase::CreatingDatabase => {
                    if reply is Affected || (reply matches ReplyView::Failed(error)
                        && error.is_duplicate_database()) {
                        (
                            ProvisionView { phase: ProvisionPhase::ClosingServer, ..self },
                            StepView::Perform(RequestView::Disconnect),
                        )
                    } else {
                        self.abandon(failed_with(reply, database_context()))
                    }
                },
                ProvisionPhase::ClosingServer => {
                    if reply is Done {
                        (
                            ProvisionView { phase: ProvisionPhase::ConnectingWallets, ..self },
                            StepView::Perform(RequestView::Connect { url: login.wallets_url() }),
                        )
                    } else {
                        self.finish(Err(refused(reply)))
                    }
                },
                ProvisionPhase::ConnectingWallets => {
                    if reply is Done {
                        self.schema(0)
                    } else {
                        self.finish(Err(failed_with(reply, connecting_context())))
                    }
                },
                ProvisionPhase::CreatingSchema(index) => {
                    if reply is Affected {
                        self.schema(index as nat + 1)
                    } else {
                        self.abandon(failed_with(reply, schema_context()))
                    }
                },
                ProvisionPhase::ClosingWallets => {
                    if reply is Done {
                        self.finish(Ok(()))
                    } else {
                        self.finish(Err(refused(reply)))
                    }
                },
                ProvisionPhase::ClosingAfterFailure => self.finish(
                    Err(closed_after_failure(reply, self.failure)),
                ),
                ProvisionPhase::Finished => self.finish(
                    Err(WalletStorageErrorView::InvalidState(already_finished())),
                ),
            }
        }
    }

    /// A bound on the number of requests that the machine still makes.
    pub open spec fn remaining(self) -> nat {
        match self.phase {
            ProvisionPhase::Start => 21,
            ProvisionPhase::ConnectingServer => 20,
            ProvisionPhase::CreatingDatabase => 19,
            ProvisionPhase::ClosingServer => 18,
            ProvisionPhase::ConnectingWallets => 17,
            ProvisionPhase::CreatingSchema(index) => if index < 14 {
                (16 - index) as nat
            } else {
                2
            },
            ProvisionPhase::ClosingWallets => 0,
            ProvisionPhase::ClosingAfterFailure => 0,
            ProvisionPhase::Finished => 0,
        }
    }
}

/// Every request brings the provisioning nearer to its end.
pub proof fn provision_advances(machine: ProvisionView, reply: ReplyView)
    ensures
        machine.advance(reply).1 is Perform ==> machine.advance(reply).0.remaining()
            < machine.remaining(),
{
}

impl Provision {
    /// The provisioning with these documents, before its first request.
    pub fn new(config: Document<PostgresConfig>, credentials: Document<PostgresCredentials>) -> (machine:
        Provision)
        ensures
            machine@ == (ProvisionView {
                login: resolve_login(config, credentials),
                phase: ProvisionPhase::Start,
                failure: None,
            }),
    {
        Provision {
            login: login_of(config, credentials),
            phase: ProvisionPhase::Start,
            failure: None,
        }
    }

    fn finish(&mut self, result: Result<(), WalletStorageError>) -> (step: Step<()>)
        ensures
            (final(self)@, step.deep_view()) == old(self)@.finish(
                match result {
                    Ok(_) => Ok(()),
                    Err(error) => Err(error@),
                },
            ),
    {
        self.phase = ProvisionPhase::Finished;
        Step::Finish(result)
    }

    fn abandon(&mut self, error: WalletStorageError) -> (step: Step<()>)
        ensures
            (final(self)@, step.deep_view()) == old(self)@.abandon(error@),
    {
        self.phase = ProvisionPhase::ClosingAfterFailure;
        self.failure = Some(error);
        Step::Perform(Request::Disconnect)
    }

    fn schema(&mut self, index: usize) -> (step: Step<()>)
        ensures
            (final(self)@, step.deep_view()) == old(self)@.schema(index as nat),
    {
        match schema_statement(index) {
            Some(statement) => {
                self.phase = ProvisionPhase::CreatingSchema(index);
                let params: Vec<SqlValue> = Vec::new();
                assert(params.deep_view() =~= Seq::empty());
                Step::Perform(Request::Execute { statement, params })
            },
            None => {
                self.phase = ProvisionPhase::ClosingWallets;
                Step::Perform(Request::Disconnect)
            },
        }
    }

    /// Advances the provisioning with the reply to its previous request
    /// (`Reply::Ready` at first) and returns its next request or its result.
    pub fn advance(&mut self, reply: Reply) -> (step: Step<()>)
        ensures
            (final(self)@, step.deep_view()) == old(self)@.advance(reply@),
    {
        if let ProvisionPhase::Finished = self.phase {
            return Step::Finish(Err(invalid_state("The operation has finished")));
        }
        if self.login.is_none() {
            return self.finish(Err(WalletStorageError::ConfigError));
        }
        match self.phase {
            ProvisionPhase::Start => {
                let request = match &self.login {
                    Some(login) => {
                        if login.credentials.is_admin() {
                            Some(
                                Request::Connect {
                                    url: PostgresStorageType::_admin_postgres_url(
                                        &login.config,
                                        &login.credentials,
                                    ),
                                },
                            )
                        } else {
                            None
                        }
                    },
                    None => None,
                };
                match request {
                    Some(request) => {
                        self.phase = ProvisionPhase::ConnectingServer;
                        Step::Perform(request)
                    },
                    None => self.finish(Ok(())),
                }
            },
            ProvisionPhase::ConnectingServer => {
                match reply {
                    Reply::Done => {
                        self.phase = ProvisionPhase::CreatingDatabase;
                        let params: Vec<SqlValue> = Vec::new();
                        assert(params.deep_view() =~= Seq::empty());
                        Step::Perform(
                            Request::Execute { statement: Statement::CreateDatabase, params },
                        )
                    },
                    _ => self.finish(Err(refusal(&reply))),
                }
            },
            ProvisionPhase::CreatingDatabase => {
                let created = match &reply {
                    Reply::Affected(_) => true,
                    Reply::Failed(error) => error.is_duplicate_database(),
                    _ => false,
                };
                if created {
                    self.phase = ProvisionPhase::ClosingServer;
                    Step::Perform(Request::Disconnect)
                } else {
                    let error = failure_with(
                        &reply,
                        "Error occurred while creating the database: ",
                    );
                    self.abandon(error)
                }
            },
            ProvisionPhase::ClosingServer => {
                match reply {
                    Reply::Done => {
                        let request = match &self.login {
                            Some(login) => login.connect_wallets(),
                            None => Request::Disconnect,
                        };
                        self.phase = ProvisionPhase::ConnectingWallets;
                        Step::Perform(request)
                    },
                    _ => self.finish(Err(refusal(&reply))),
                }
            },
            ProvisionPhase::ConnectingWallets => {
                match reply {
                    Reply::Done => self.schema(0),
                    _ => self.finish(
                        Err(
                            failure_with(
                                &reply,
                                "Error occurred while connecting to wallet schema: ",
                            ),
                        ),
                    ),
                }
            },
            ProvisionPhase::CreatingSchema(index) => {
                match reply {
                    Reply::Affected(_) => {
                        if index < usize::MAX {
                            self.schema(index + 1)
                        } else {
                            self.phase = ProvisionPhase::ClosingWallets;
                            Step::Perform(Request::Disconnect)
                        }
                    },
                    _ => {
                        let error = failure_with(
                            &reply,
                            "Error occurred while creating wallet schema: ",
                        );
                        self.abandon(error)
                    },
                }
            },
            ProvisionPhase::ClosingWallets => {
                match reply {
                    Reply::Done => self.finish(Ok(())),
                    _ => self.finish(Err(refusal(&reply))),
                }
            },
            ProvisionPhase::ClosingAfterFailure => {
                let error = close_after_failure(&reply, &self.failure);
                self.finish(Err(error))
            },
            ProvisionPhase::Finished => self.finish(
                Err(invalid_state("The operation has finished")),
            ),
        }
    }
}

/// How far the creation of a wallet has come: the request that it waits on.
#[derive(Clone, Copy, Debug, PartialEq, Eq, Structural)]
pub enum CreatePhase {
    /// Nothing has been asked yet.
    Start,
    /// The connection is being opened.
    Connecting,
    /// The metadata of the wallet is being looked for.
    Checking,
    /// The metadata is being inserted.
    Inserting,
    /// The connection is being closed.
    Closing,
    /// The result has been handed out.
    Finished,
}

/// The creation of a wallet: the check that it has no metadata yet, then
/// the insertion of its metadata. A wallet owns one metadata blob, created
/// once: a wallet that has metadata exists already, whatever the blob.
pub struct WalletCreate {
    pub id: String,
    pub metadata: Vec<u8>,
    pub login: Option<Login>,
    pub phase: CreatePhase,
    /// Why the wallet was not created, while the connection is being
    /// closed.
    pub failure: Option<WalletStorageError>,
}

/// What a [`WalletCreate`] holds.
pub struct WalletCreateView {
    pub id: Seq<char>,
    pub metadata: Seq<u8>,
    pub login: Option<Login>,
    pub phase: CreatePhase,
    pub failure: Option<WalletStorageErrorView>,
}

impl View for WalletCreate {
    type V = WalletCreateView;

    open spec fn view(&self) -> WalletCreateView {
        WalletCreateView {
            id: self.id@,
            metadata: self.metadata@,
            login: self.login,
            phase: self.phase,
            failure: self.failure.deep_view(),
        }
    }
}

/// What follows from the reply to the lookup of the metadata of a wallet
/// that is to be created: nothing where no row came back, `AlreadyExists`
/// where one did, and else an input or output error with the backend's
/// message.
pub open spec fn looked_up(reply: ReplyView) -> Option<WalletStorageErrorView> {
    match reply {
        ReplyView::Rows(rows) => if rows.len() > 0 {
            Some(WalletStorageErrorView::AlreadyExists)
        } else {
            None
        },
        _ => Some(failed_with(reply, inserting_context())),
    }
}

/// What follows from the reply to the insertion of the metadata: nothing
/// where it succeeded, `AlreadyExists` where the row repeats a unique key,
/// and else an input or output error with the backend's message.
pub open spec fn inserted(reply: ReplyView) -> Option<WalletStorageErrorView> {
    match reply {
        ReplyView::Affected(_) => None,
        ReplyView::Failed(error) => if error.is_unique_violation() {
            Some(WalletStorageErrorView::AlreadyExists)
        } else {
            Some(error.io_failure(inserting_context()))
        },
        _ => Some(WalletStorageErrorView::InvalidState(unexpected_reply())),
    }
}

impl WalletCreateView {
    /// Ends with `result`.
    pub open spec fn finish(self, result: Result<(), WalletStorageErrorView>) -> (
        WalletCreateView,
        StepView<()>,
    ) {
        (WalletCreateView { phase: CreatePhase::Finished, ..self }, StepView::Finish(result))
    }

    /// The transition of the machine: its next state and what it answers to
    /// `reply`.
    pub open spec fn advance(self, reply: ReplyView) -> (WalletCreateView, StepView<()>) {
        if self.phase == CreatePhase::Finished {
            (
                self,
                StepView::Finish(Err(WalletStorageErrorView::InvalidState(already_finished()))),
            )
        } else if self.login is None {
            self.finish(Err(WalletStorageErrorView::ConfigError))
        } else {
            let login = self.login->Some_0;
            match self.phase {
                CreatePhase::Start => {
                    if login.credentials.has_admin() {
                        (
                            WalletCreateView { phase: CreatePhase::Connecting, ..self },
                            StepView::Perform(RequestView::Connect { url: login.wallets_url() }),
                        )
                    } else {
                        self.finish(Ok(()))
                    }
                },
                CreatePhase::Connecting => {
                    if reply is Done {
                        (
                            WalletCreateView { phase: CreatePhase::Checking, ..self },
                            StepView::Perform(
                                RequestView::Query {
                                    sql: SqlView::Fixed(Statement::SelectWallet),
                                    params: seq![SqlValueView::Text(self.id)],
                                },
                            ),
                        )
                    } else {
                        self.finish(Err(failed_with(reply, connecting_context())))
                    }
                },
                CreatePhase::Checking => {
                    match looked_up(reply) {
                        Some(error) => (
                            WalletCreateView {
                                phase: CreatePhase::Closing,
                                failure: Some(error),
                                ..self
                            },
                            StepView::Perform(RequestView::Disconnect),
                        ),
                        None => (
                            WalletCreateView { phase: CreatePhase::Inserting, ..self },
                            StepView::Perform(
                                RequestView::Execute {
                                    statement: Statement::InsertMetadata,
                                    params: seq![
                                        SqlValueView::Text(self.id),
                                        SqlValueView::Bytes(self.metadata),
                                    ],
                                },
                            ),
                        ),
                    }
                },
                CreatePhase::Inserting => (
                    WalletCreateView {
                        phase: CreatePhase::Closing,
                        failure: inserted(reply),
                        ..self
                    },
                    StepView::Perform(RequestView::Disconnect),
                ),
                CreatePhase::Closing => {
                    if reply is Done {
                        match self.failure {
                            Some(error) => self.finish(Err(error)),
                            None => self.finish(Ok(())),
                        }
                    } else {
                        self.finish(Err(refused(reply)))
                    }
                },
                CreatePhase::Finished => self.finish(
                    Err(WalletStorageErrorView::InvalidState(already_finished())),
                ),
            }
        }
    }

    /// A bound on the number of requests that the machine still makes.
    pub open spec fn remaining(self) -> nat {
        match self.phase {
            CreatePhase::Start => 4,
            CreatePhase::Connecting => 3,
            CreatePhase::Checking => 2,
            CreatePhase::Inserting => 1,
            CreatePhase::Closing => 0,
            CreatePhase::Finished => 0,
        }
    }
}

fn lookup_failure(reply: &Reply) -> (failure: Option<WalletStorageError>)
    ensures
        failure.deep_view() == looked_up(reply@),
{
    match reply {
        Reply::Rows(rows) => {
            if rows.len() > 0 {
                Some(WalletStorageError::AlreadyExists)
            } else {
                None
            }
        },
        _ => Some(failure_with(reply, "Error occurred while inserting into metadata: ")),
    }
}

fn insertion_failure(reply: &Reply) -> (failure: Option<WalletStorageError>)
    ensures
        failure.deep_view() == inserted(reply@),
{
    match reply {
        Reply::Affected(_) => None,
        Reply::Failed(error) => {
            if error.is_unique_violation() {
                Some(WalletStorageError::AlreadyExists)
            } else {
                Some(error.io_failure("Error occurred while inserting into metadata: "))
            }
        },
        _ => Some(invalid_state("The backend's reply does not answer the request")),
    }
}

impl WalletCreate {
    /// The creation of the wallet `id` with this metadata, before its first
    /// request.
    pub fn new(
        id: &str,
        config: Document<PostgresConfig>,
        credentials: Document<PostgresCredentials>,
        metadata: &[u8],
    ) -> (machine: WalletCreate)
        ensures
            machine@ == (WalletCreateView {
                id: id@,
                metadata: metadata@,
                login: resolve_login(config, credentials),
                phase: CreatePhase::Start,
                failure: None,
            }),
    {
        WalletCreate {
            id: copy_text(id),
            metadata: copy_bytes(metadata),
            login: login_of(config, credentials),
            phase: CreatePhase::Start,
            failure: None,
        }
    }

    fn finish(&mut self, result: Result<(), WalletStorageError>) -> (step: Step<()>)
        ensures
            (final(self)@, step.deep_view()) == old(self)@.finish(
                match result {
                    Ok(_) => Ok(()),
                    Err(error) => Err(error@),
                },
            ),
    {
        self.phase = CreatePhase::Finished;
        Step::Finish(result)
    }

    /// Advances the creation with the reply to its previous request
    /// (`Reply::Ready` at first) and returns its next request or its result.
    pub fn advance(&mut self, reply: Reply) -> (step: Step<()>)
        ensures
            (final(self)@, step.deep_view()) == old(self)@.advance(reply@),
    {
        if let CreatePhase::Finished = self.phase {
            return Step::Finish(Err(invalid_state("The operation has finished")));
        }
        let connect = match &self.login {
            Some(login) => {
                if login.credentials.is_admin() {
                    Some(login.connect_wallets())
                } else {
                    None
                }
            },
            None => {
                return self.finish(Err(WalletStorageError::ConfigError));
            },
        };
        match self.phase {
            CreatePhase::Start => {
                match connect {
                    Some(request) => {
                        self.phase = CreatePhase::Connecting;
                        Step::Perform(request)
                    },
                    None => self.finish(Ok(())),
                }
            },
            CreatePhase::Connecting => {
                match reply {
                    Reply::Done => {
                        self.phase = CreatePhase::Checking;
                        let mut params: Vec<SqlValue> = Vec::new();
                        params.push(SqlValue::text(self.id.as_str()));
                        assert(params.deep_view() =~= seq![SqlValueView::Text(self.id@)]);
                        Step::Perform(
                            Request::Query { sql: Sql::Fixed(Statement::SelectWallet), params },
                        )
                    },
                    _ => self.finish(
                        Err(
                            failure_with(
                                &reply,
                                "Error occurred while connecting to wallet schema: ",
                            ),
                        ),
                    ),
                }
            },
            CreatePhase::Checking => {
                match lookup_failure(&reply) {
                    Some(error) => {
                        self.failure = Some(error);
                        self.phase = CreatePhase::Closing;
                        Step::Perform(Request::Disconnect)
                    },
                    None => {
                        self.phase = CreatePhase::Inserting;
                        let mut params: Vec<SqlValue> = Vec::new();
                        params.push(SqlValue::text(self.id.as_str()));
                        params.push(SqlValue::bytes(self.metadata.as_slice()));
                        assert(params.deep_view() =~= seq![
                            SqlValueView::Text(self.id@),
                            SqlValueView::Bytes(self.metadata@),
                        ]);
                        Step::Perform(
                            Request::Execute { statement: Statement::InsertMetadata, params },
                        )
                    },
                }
            },
            CreatePhase::Inserting => {
                self.failure = insertion_failure(&reply);
                self.phase = CreatePhase::Closing;
                Step::Perform(Request::Disconnect)
            },
            CreatePhase::Closing => {
                match reply {
                    Reply::Done => {
                        let result = match &self.failure {
                            Some(error) => Err(duplicate_error(error)),
                            None => Ok(()),
                        };
                        self.finish(result)
                    },
                    _ => self.finish(Err(refusal(&reply))),
                }
            },
            CreatePhase::Finished => self.finish(
                Err(invalid_state("The operation has finished")),
            ),
        }
    }
}

/// How far the opening of a wallet has come: the request that it waits on.
#[derive(Clone, Copy, Debug, PartialEq, Eq, Structural)]
pub enum OpenPhase {
    /// Nothing has been asked yet.
    Start,
    /// The connection is being opened.
    Connecting,
    /// The metadata of the wallet is being looked for.
    Checking,
    /// The connection is being closed.
    Closing,
    /// The connection pool of the wallet is being built.
    Pooling,
    /// The result has been handed out.
    Finished,
}

/// The opening of a wallet: the check that its metadata exists, then the
/// connection pool that its operations lease from. A wallet is `NotFound`
/// only where the backend was reached and holds no metadata of it; a
/// connection or a pool that fails is an input or output error with the
/// backend's message.
pub struct WalletOpen {
    pub id: String,
    pub login: Option<Login>,
    pub phase: OpenPhase,
    /// Why the wallet cannot be opened, while the connection is being
    /// closed.
    pub failure: Option<WalletStorageError>,
}

/// What a [`WalletOpen`] holds.
pub struct WalletOpenView {
    pub id: Seq<char>,
    pub login: Option<Login>,
    pub phase: OpenPhase,
    pub failure: Option<WalletStorageErrorView>,
}

impl View for WalletOpen {
    type V = WalletOpenView;

    open spec fn view(&self) -> WalletOpenView {
        WalletOpenView {
            id: self.id@,
            login: self.login,
            phase: self.phase,
            failure: self.failure.deep_view(),
        }
    }
}

/// What follows from the reply to the lookup of the metadata: nothing where
/// a row came back, `NotFound` where none did, and else the failure.
pub open spec fn checked(reply: ReplyView) -> Option<WalletStorageErrorView> {
    match reply {
        ReplyView::Rows(rows) => if rows.len() == 0 {
            Some(WalletStorageErrorView::NotFound)
        } else {
            None
        },
        _ => Some(refused(reply)),
    }
}

impl WalletOpenView {
    /// Ends with `result`.
    pub open spec fn finish(self, result: Result<PostgresStorageView, WalletStorageErrorView>) -> (
        WalletOpenView,
        StepView<PostgresStorageView>,
    ) {
        (WalletOpenView { phase: OpenPhase::Finished, ..self }, StepView::Finish(result))
    }

    /// The transition of the machine: its next state and what it answers to
    /// `reply`.
    pub open spec fn advance(self, reply: ReplyView) -> (
        WalletOpenView,
        StepView<PostgresStorageView>,
    ) {
        if self.phase == OpenPhase::Finished {
            (
                self,
                StepView::Finish(Err(WalletStorageErrorView::InvalidState(already_finished()))),
            )
        } else if self.login is None {
            self.finish(Err(WalletStorageErrorView::ConfigError))
        } else {
            let login = self.login->Some_0;
            match self.phase {
                OpenPhase::Start => (
                    WalletOpenView { phase: OpenPhase::Connecting, ..self },
                    StepView::Perform(RequestView::Connect { url: login.wallets_url() }),
                ),
                OpenPhase::Connecting => {
                    if reply is Done {
                        (
                            WalletOpenView { phase: OpenPhase::Checking, ..self },
                            StepView::Perform(
                                RequestView::Query {
                                    sql: SqlView::Fixed(Statement::SelectWallet),
                                    params: seq![SqlValueView::Text(self.id)],
                                },
                            ),
                        )
                    } else {
                        self.finish(Err(failed_with(reply, connecting_context())))
                    }
                },
                OpenPhase::Checking => (
                    WalletOpenView { phase: OpenPhase::Closing, failure: checked(reply), ..self },
                    StepView::Perform(RequestView::Disconnect),
                ),
                OpenPhase::Closing => {
                    match self.failure {
                        Some(error) => self.finish(Err(error)),
                        None => (
                            WalletOpenView { phase: OpenPhase::Pooling, ..self },
                            StepView::Perform(RequestView::OpenPool { url: login.wallets_url() }),
                        ),
                    }
                },
                OpenPhase::Pooling => {
                    if reply is Done {
                        self.finish(Ok(PostgresStorageView { wallet_id: self.id }))
                    } else {
                        self.finish(Err(failed_with(reply, connecting_context())))
                    }
                },
                OpenPhase::Finished => self.finish(
                    Err(WalletStorageErrorView::InvalidState(already_finished())),
                ),
            }
        }
    }

    /// A bound on the number of requests that the machine still makes.
    pub open spec fn remaining(self) -> nat {
        match self.phase {
            OpenPhase::Start => 4,
            OpenPhase::Connecting => 3,
            OpenPhase::Checking => 2,
            OpenPhase::Closing => 1,
            OpenPhase::Pooling => 0,
            OpenPhase::Finished => 0,
        }
    }
}

fn check_failure(reply: &Reply) -> (failure: Option<WalletStorageError>)
    ensures
        failure.deep_view() == checked(reply@),
{
    match reply {
        Reply::Rows(rows) => {
            if rows.len() == 0 {
                Some(WalletStorageError::NotFound)
            } else {
                None
            }
        },
        _ => Some(refusal(reply)),
    }
}

impl WalletOpen {
    /// The opening of the wallet `id`, before its first request.
    pub fn new(id: &str, config: Document<PostgresConfig>, credentials: Document<PostgresCredentials>) -> (machine:
        WalletOpen)
        ensures
            machine@ == (WalletOpenView {
                id: id@,
                login: resolve_login(config, credentials),
                phase: OpenPhase::Start,
                failure: None,
            }),
    {
        WalletOpen {
            id: copy_text(id),
            login: login_of(config, credentials),
            phase: OpenPhase::Start,
            failure: None,
        }
    }

    fn finish(&mut self, result: Result<PostgresStorage, WalletStorageError>) -> (step: Step<
        PostgresStorage,
    >)
        ensures
            (final(self)@, step.deep_view()) == old(self)@.finish(
                match result {
                    Ok(storage) => Ok(storage@),
                    Err(error) => Err(error@),
                },
            ),
    {
        self.phase = OpenPhase::Finished;
        Step::Finish(result)
    }

    /// Advances the opening with the reply to its previous request
    /// (`Reply::Ready` at first) and returns its next request or the handle
    /// of the open wallet.
    pub fn advance(&mut self, reply: Reply) -> (step: Step<PostgresStorage>)
        ensures
            (final(self)@, step.deep_view()) == old(self)@.advance(reply@),
    {
        if let OpenPhase::Finished = self.phase {
            return Step::Finish(Err(invalid_state("The operation has finished")));
        }
        let url = match &self.login {
            Some(login) => PostgresStorageType::_postgres_url(
                wallets_database_name(),
                &login.config,
                &login.credentials,
            ),
            None => {
                return self.finish(Err(WalletStorageError::ConfigError));
            },
        };
        match self.phase {
            OpenPhase::Start => {
                self.phase = OpenPhase::Connecting;
                Step::Perform(Request::Connect { url })
            },
            OpenPhase::Connecting => {
                match reply {
                    Reply::Done => {
                        self.phase = OpenPhase::Checking;
                        let mut params: Vec<SqlValue> = Vec::new();
                        params.push(SqlValue::text(self.id.as_str()));
                        assert(params.deep_view() =~= seq![SqlValueView::Text(self.id@)]);
                        Step::Perform(
                            Request::Query { sql: Sql::Fixed(Statement::SelectWallet), params },
                        )
                    },
                    _ => self.finish(
                        Err(
                            failure_with(
                                &reply,
                                "Error occurred while connecting to wallet schema: ",
                            ),
                        ),
                    ),
                }
            },
            OpenPhase::Checking => {
                self.failure = check_failure(&reply);
                self.phase = OpenPhase::Closing;
                Step::Perform(Request::Disconnect)
            },
            OpenPhase::Closing => {
                let failure = match &self.failure {
                    Some(error) => Some(duplicate_error(error)),
                    None => None,
                };
                match failure {
                    Some(error) => self.finish(Err(error)),
                    None => {
                        self.phase = OpenPhase::Pooling;
                        Step::Perform(Request::OpenPool { url })
                    },
                }
            },
            OpenPhase::Pooling => {
                match reply {
                    Reply::Done => {
                        let storage = PostgresStorage::new(self.id.as_str());
                        self.finish(Ok(storage))
                    },
                    _ => self.finish(
                        Err(
                            failure_with(
                                &reply,
                                "Error occurred while connecting to wallet schema: ",
                            ),
                        ),
                    ),
                }
            },
            OpenPhase::Finished => self.finish(
                Err(invalid_state("The operation has finished")),
            ),
        }
    }
}

/// How far the deletion of a wallet has come: the request that it waits on.
#[derive(Clone, Copy, Debug, PartialEq, Eq, Structural)]
pub enum DeletePhase {
    /// Nothing has been asked yet.
    Start,
    /// The connection is being opened.
    Connecting,
    /// The transaction is being opened.
    Opening,
    /// The deleting statement at this index runs.
    Deleting(usize),
    /// The transaction is being committed.
    Committing,
    /// The transaction is being abandoned after a failure.
    Aborting,
    /// The connection is being closed after a failure.
    ClosingAfterFailure,
    /// The connection is being closed.
    Closing,
    /// The result has been handed out.
    Finished,
}

/// The deletion of a wallet: of its tags, its items and its metadata, in
/// one transaction.
pub struct WalletDelete {
    pub id: String,
    pub login: Option<Login>,
    pub phase: DeletePhase,
    /// The number of rows that the statements removed so far.
    pub removed: u64,
    pub failure: Option<WalletStorageError>,
}

/// What a [`WalletDelete`] holds.
pub struct WalletDeleteView {
    pub id: Seq<char>,
    pub login: Option<Login>,
    pub phase: DeletePhase,
    pub removed: u64,
    pub failure: Option<WalletStorageErrorView>,
}

impl View for WalletDelete {
    type V = WalletDeleteView;

    open spec fn view(&self) -> WalletDeleteView {
        WalletDeleteView {
            id: self.id@,
            login: self.login,
            phase: self.phase,
            removed: self.removed,
            failure: self.failure.deep_view(),
        }
    }
}

/// The sum of two counts of rows, or the largest count where the sum is
/// larger than that.
pub open spec fn counted_together(so_far: u64, more: u64) -> u64 {
    if so_far + more <= u64::MAX {
        (so_far + more) as u64
    } else {
        u64::MAX
    }
}

impl WalletDeleteView {
    /// Ends with `result`.
    pub open spec fn finish(self, result: Result<(), WalletStorageErrorView>) -> (
        WalletDeleteView,
        StepView<()>,
    ) {
        (WalletDeleteView { phase: DeletePhase::Finished, ..self }, StepView::Finish(result))
    }

    /// Closes the connection after a failure.
    pub open spec fn abandon(self, error: WalletStorageErrorView) -> (
        WalletDeleteView,
        StepView<()>,
    ) {
        (
            WalletDeleteView {
                phase: DeletePhase::ClosingAfterFailure,
                failure: Some(error),
                ..self
            },
            StepView::Perform(RequestView::Disconnect),
        )
    }

    /// Runs the deleting statement at `index`, or commits when all have
    /// run.
    pub open spec fn delete(self, index: nat) -> (WalletDeleteView, StepView<()>) {
        if index < wallet_deletions().len() {
            (
                WalletDeleteView { phase: DeletePhase::Deleting(index as usize), ..self },
                StepView::Perform(
                    RequestView::Execute {
                        statement: wallet_deletions()[index as int],
                        params: seq![SqlValueView::Text(self.id)],
                    },
                ),
            )
        } else {
            (
                WalletDeleteView { phase: DeletePhase::Committing, ..self },
                StepView::Perform(RequestView::Commit),
            )
        }
    }

    /// The transition of the machine: its next state and what it answers to
    /// `reply`.
    ///
    /// The wallet is `NotFound` where the statements removed nothing at
    /// all.
    pub open spec fn advance(self, reply: ReplyView) -> (WalletDeleteView, StepView<()>) {
        if self.phase == DeletePhase::Finished {
            (
                self,
                StepView::Finish(Err(WalletStorageErrorView::InvalidState(already_finished()))),
            )
        } else if self.login is None {
            self.finish(Err(WalletStorageErrorView::ConfigError))
        } else {
            let login = self.login->Some_0;
            match self.phase {
                DeletePhase::Start => {
                    if login.credentials.has_admin() {
                        (
                            WalletDeleteView { phase: DeletePhase::Connecting, ..self },
                            StepView::Perform(RequestView::Connect { url: login.wallets_url() }),
                        )
                    } else {
                        self.finish(Ok(()))
                    }
                },
                DeletePhase::Connecting => {
                    if reply is Done {
                        (
                            WalletDeleteView { phase: DeletePhase::Opening, ..self },
                            StepView::Perform(RequestView::Begin),
                        )
                    } else {
                        self.finish(Err(failed_with(reply, connecting_context())))
                    }
                },
                DeletePhase::Opening => {
                    if reply is Done {
                        self.delete(0)
                    } else {
                        self.abandon(failed_with(reply, deleting_context()))
                    }
                },
                DeletePhase::Deleting(index) => {
                    match reply {
                        ReplyView::Affected(count) => WalletDeleteView {
                            removed: counted_together(self.removed, count),
                            ..self
                        }.delete(index as nat + 1),
                        _ => (
                            WalletDeleteView {
                                phase: DeletePhase::Aborting,
                                failure: Some(failed_with(reply, deleting_context())),
                                ..self
                            },
                            StepView::Perform(RequestView::Rollback),
                        ),
                    }
                },
                DeletePhase::Aborting => (
                    WalletDeleteView { phase: DeletePhase::ClosingAfterFailure, ..self },
                    StepView::Perform(RequestView::Disconnect),
                ),
                DeletePhase::Committing => {
                    if reply is Done {
                        (
                            WalletDeleteView { phase: DeletePhase::Closing, ..self },
                            StepView::Perform(RequestView::Disconnect),
                        )
                    } else {
                        self.abandon(failed_with(reply, deleting_context()))
                    }
                },
                DeletePhase::ClosingAfterFailure => self.finish(
                    Err(closed_after_failure(reply, self.failure)),
                ),
                DeletePhase::Closing => {
                    if reply is Done {
                        if self.removed == 0 {
                            self.finish(Err(WalletStorageErrorView::NotFound))
                        } else {
                            self.finish(Ok(()))
                        }
                    } else {
                        self.finish(Err(refused(reply)))
                    }
                },
                DeletePhase::Finished => self.finish(
                    Err(WalletStorageErrorView::InvalidState(already_finished())),
                ),
            }
        }
    }

    /// A bound on the number of requests that the machine still makes.
    pub open spec fn remaining(self) -> nat {
        match self.phase {
            DeletePhase::Start => 10,
            DeletePhase::Connecting => 9,
            DeletePhase::Opening => 8,
            DeletePhase::Deleting(index) => if index < 4 {
                (7 - index) as nat
            } else {
                3
            },
            DeletePhase::Committing => 2,
            DeletePhase::Aborting => 1,
            DeletePhase::ClosingAfterFailure => 0,
            DeletePhase::Closing => 0,
            DeletePhase::Finished => 0,
        }
    }
}

/// Every request brings the deletion of a wallet nearer to its end.
pub proof fn delete_advances(machine: WalletDeleteView, reply: ReplyView)
    ensures
        machine.advance(reply).1 is Perform ==> machine.advance(reply).0.remaining()
            < machine.remaining(),
{
}

/// The deletion of a wallet is all or nothing on every backend: it reports
/// success only after the reply that the transaction is committed, and a
/// deleting statement that fails makes it ask to abandon the transaction.
pub proof fn delete_commits_or_abandons(machine: WalletDeleteView, reply: ReplyView)
    requires
        machine.login is Some,
    ensures
        machine.phase == DeletePhase::Committing && reply is Done ==> machine.advance(reply).0.phase
            == DeletePhase::Closing,
        machine.advance(reply).1 == StepView::<()>::Finish(Ok(())) ==> machine.phase
            == DeletePhase::Closing || (machine.phase == DeletePhase::Start
            && !machine.login->Some_0.credentials.has_admin()),
        machine.phase is Deleting && !(reply is Affected) ==> machine.advance(reply).1
            == StepView::<()>::Perform(RequestView::Rollback),
        machine.advance(reply).0.phase == DeletePhase::Closing ==> machine.phase
            == DeletePhase::Committing && reply is Done,
{
}

impl WalletDelete {
    /// The deletion of the wallet `id`, before its first request.
    pub fn new(id: &str, config: Document<PostgresConfig>, credentials: Document<PostgresCredentials>) -> (machine:
        WalletDelete)
        ensures
            machine@ == (WalletDeleteView {
                id: id@,
                login: resolve_login(config, credentials),
                phase: DeletePhase::Start,
                removed: 0,
                failure: None,
            }),
    {
        WalletDelete {
            id: copy_text(id),
            login: login_of(config, credentials),
            phase: DeletePhase::Start,
            removed: 0,
            failure: None,
        }
    }

    fn finish(&mut self, result: Result<(), WalletStorageError>) -> (step: Step<()>)
        ensures
            (final(self)@, step.deep_view()) == old(self)@.finish(
                match result {
                    Ok(_) => Ok(()),
                    Err(error) => Err(error@),
                },
            ),
    {
        self.phase = DeletePhase::Finished;
        Step::Finish(result)
    }

    fn abandon(&mut self, error: WalletStorageError) -> (step: Step<()>)
        ensures
            (final(self)@, step.deep_view()) == old(self)@.abandon(error@),
    {
        self.phase = DeletePhase::ClosingAfterFailure;
        self.failure = Some(error);
        Step::Perform(Request::Disconnect)
    }

    fn delete(&mut self, index: usize) -> (step: Step<()>)
        ensures
            (final(self)@, step.deep_view()) == old(self)@.delete(index as nat),
    {
        match wallet_deletion(index) {
            Some(statement) => {
                self.phase = DeletePhase::Deleting(index);
                let mut params: Vec<SqlValue> = Vec::new();
                params.push(SqlValue::text(self.id.as_str()));
                assert(params.deep_view() =~= seq![SqlValueView::Text(self.id@)]);
                Step::Perform(Request::Execute { statement, params })
            },
            None => {
                self.phase = DeletePhase::Committing;
                Step::Perform(Request::Commit)
            },
        }
    }

    /// Advances the deletion with the reply to its previous request
    /// (`Reply::Ready` at first) and returns its next request or its result.
    pub fn advance(&mut self, reply: Reply) -> (step: Step<()>)
        ensures
            (final(self)@, step.deep_view()) == old(self)@.advance(reply@),
    {
        if let DeletePhase::Finished = self.phase {
            return Step::Finish(Err(invalid_state("The operation has finished")));
        }
        let connect = match &self.login {
            Some(login) => {
                if login.credentials.is_admin() {
                    Some(login.connect_wallets())
                } else {
                    None
                }
            },
            None => {
                return self.finish(Err(WalletStorageError::ConfigError));
            },
        };
        match self.phase {
            DeletePhase::Start => {
                match connect {
                    Some(request) => {
                        self.phase = DeletePhase::Connecting;
                        Step::Perform(request)
                    },
                    None => self.finish(Ok(())),
                }
            },
            DeletePhase::Connecting => {
                match reply {
                    Reply::Done => {
                        self.phase = DeletePhase::Opening;
                        Step::Perform(Request::Begin)
                    },
                    _ => self.finish(
                        Err(
                            failure_with(
                                &reply,
                                "Error occurred while connecting to wallet schema: ",
                            ),
                        ),
                    ),
                }
            },
            DeletePhase::Opening => {
                match reply {
                    Reply::Done => self.delete(0),
                    _ => {
                        let error = failure_with(&reply, "Error occurred while deleting wallet: ");
                        self.abandon(error)
                    },
                }
            },
            DeletePhase::Deleting(index) => {
                match reply {
                    Reply::Affected(count) => {
                        self.removed = if count <= u64::MAX - self.removed {
                            self.removed + count
                        } else {
                            u64::MAX
                        };
                        if index < usize::MAX {
                            self.delete(index + 1)
                        } else {
                            self.phase = DeletePhase::Committing;
                            Step::Perform(Request::Commit)
                        }
                    },
                    _ => {
                        self.failure = Some(
                            failure_with(&reply, "Error occurred while deleting wallet: "),
                        );
                        self.phase = DeletePhase::Aborting;
                        Step::Perform(Request::Rollback)
                    },
                }
            },
            DeletePhase::Aborting => {
                self.phase = DeletePhase::ClosingAfterFailure;
                Step::Perform(Request::Disconnect)
            },
            DeletePhase::Committing => {
                match reply {
                    Reply::Done => {
                        self.phase = DeletePhase::Closing;
                        Step::Perform(Request::Disconnect)
                    },
                    _ => {
                        let error = failure_with(&reply, "Error occurred while deleting wallet: ");
                        self.abandon(error)
                    },
                }
            },
            DeletePhase::ClosingAfterFailure => {
                let error = close_after_failure(&reply, &self.failure);
                self.finish(Err(error))
            },
            DeletePhase::Closing => {
                match reply {
                    Reply::Done => {
                        if self.removed == 0 {
                            self.finish(Err(WalletStorageError::NotFound))
                        } else {
                            self.finish(Ok(()))
                        }
                    },
                    _ => self.finish(Err(refusal(&reply))),
                }
            },
            DeletePhase::Finished => self.finish(
                Err(invalid_state("The operation has finished")),
            ),
        }
    }
}

impl PostgresStorageType {
    /// Provisions the database and the schema of all wallets. Safe to
    /// repeat. Without the administrative login it does nothing and reports
    /// success.
    pub fn init_storage(
        &self,
        config: Document<PostgresConfig>,
        credentials: Document<PostgresCredentials>,
    ) -> (operation: Provision)
        ensures
            operation@ == (ProvisionView {
                login: resolve_login(config, credentials),
                phase: ProvisionPhase::Start,
                failure: None,
            }),
    {
        Provision::new(config, credentials)
    }

    /// Creates the wallet `id` by inserting its metadata. A wallet that
    /// has metadata already, whatever the blob, is `AlreadyExists`. Without the administrative login
    /// it does nothing and reports success.
    pub fn create_storage(
        &self,
        id: &str,
        config: Document<PostgresConfig>,
        credentials: Document<PostgresCredentials>,
        metadata: &[u8],
    ) -> (operation: WalletCreate)
        ensures
            operation@ == (WalletCreateView {
                id: id@,
                metadata: metadata@,
                login: resolve_login(config, credentials),
                phase: CreatePhase::Start,
                failure: None,
            }),
    {
        WalletCreate::new(id, config, credentials, metadata)
    }

    /// Opens the wallet `id`. A wallet whose metadata does not exist is
    /// `NotFound`; a backend that cannot be reached is an input or output
    /// error with the backend's message.
    pub fn open_storage(
        &self,
        id: &str,
        config: Document<PostgresConfig>,
        credentials: Document<PostgresCredentials>,
    ) -> (operation: WalletOpen)
        ensures
            operation@ == (WalletOpenView {
                id: id@,
                login: resolve_login(config, credentials),
                phase: OpenPhase::Start,
                failure: None,
            }),
    {
        WalletOpen::new(id, config, credentials)
    }

    /// Deletes the wallet `id` with its items and their tags. A wallet of
    /// which nothing is stored is `NotFound`. Without the administrative
    /// login it does nothing and reports success.
    pub fn delete_storage(
        &self,
        id: &str,
        config: Document<PostgresConfig>,
        credentials: Document<PostgresCredentials>,
    ) -> (operation: WalletDelete)
        ensures
            operation@ == (WalletDeleteView {
                id: id@,
                login: resolve_login(config, credentials),
                phase: DeletePhase::Start,
                removed: 0,
                failure: None,
            }),
    {
        WalletDelete::new(id, config, credentials)
    }
}

} // verus!
