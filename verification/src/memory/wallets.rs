//! What the operations on the life of a wallet do when they run on tables
//! in memory.

use vstd::prelude::*;
use crate::config::{PostgresConfig, PostgresCredentials};
use crate::error::WalletStorageErrorView;
use crate::lifecycle::{
    checked,
    counted_together,
    inserted,
    resolve_login,
    CreatePhase,
    DeletePhase,
    OpenPhase,
    Provision,
    ProvisionPhase,
    ProvisionView,
    WalletCreate,
    WalletCreateView,
    WalletDelete,
    WalletDeleteView,
    WalletOpen,
    WalletOpenView,
};
use crate::memory::model::{
    given_metadata,
    metadata_columns,
    metadata_of,
    named_wallet,
    ItemFilter,
    TablesView,
    TagFilter,
};
use crate::memory::run::{resume, run, run_unfolds};
use crate::memory::session::SessionView;
use crate::memory::writes::on;
use crate::options::Document;
use crate::protocol::{ReplyView, RequestView, SqlValueView, SqlView};
use crate::statement::{schema_statements, wallet_deletions, Statement};
use crate::storage::PostgresStorageView;

verus! {

/// The number of rows that a reply reports.
pub open spec fn affected(reply: ReplyView) -> u64 {
    match reply {
        ReplyView::Affected(count) => count,
        _ => 0,
    }
}

impl TablesView {
    /// What `init_storage` does to provisioned tables: nothing. It succeeds
    /// where the login can be read.
    pub open spec fn provision(
        self,
        config: Document<PostgresConfig>,
        credentials: Document<PostgresCredentials>,
    ) -> (TablesView, Result<(), WalletStorageErrorView>) {
        match resolve_login(config, credentials) {
            None => (self, Err(WalletStorageErrorView::ConfigError)),
            Some(login) => if login.credentials.has_admin() {
                (self.rolled_back(), Ok(()))
            } else {
                (self, Ok(()))
            },
        }
    }

    /// What `create_storage` does: it inserts the metadata of the wallet.
    /// A wallet that has metadata already, whatever the blob, is
    /// `AlreadyExists` and keeps what it has. Without the administrative
    /// login nothing is inserted.
    pub open spec fn create(
        self,
        id: Seq<char>,
        config: Document<PostgresConfig>,
        credentials: Document<PostgresCredentials>,
        metadata: Seq<u8>,
    ) -> (TablesView, Result<(), WalletStorageErrorView>) {
        match resolve_login(config, credentials) {
            None => (self, Err(WalletStorageErrorView::ConfigError)),
            Some(login) => if !login.credentials.has_admin() {
                (self, Ok(()))
            } else if self.now.metadata.filter(metadata_of(id)).len() > 0 {
                (self.rolled_back(), Err(WalletStorageErrorView::AlreadyExists))
            } else {
                let (next, reply) = self.insert_metadata(id, metadata);
                (
                    next.rolled_back(),
                    match inserted(reply) {
                        Some(error) => Err(error),
                        None => Ok(()),
                    },
                )
            },
        }
    }

    /// What `open_storage` does: it hands out the handle of the wallet
    /// where the wallet has metadata, and is `NotFound` where it has none.
    pub open spec fn open(
        self,
        id: Seq<char>,
        config: Document<PostgresConfig>,
        credentials: Document<PostgresCredentials>,
    ) -> (TablesView, Result<PostgresStorageView, WalletStorageErrorView>) {
        match resolve_login(config, credentials) {
            None => (self, Err(WalletStorageErrorView::ConfigError)),
            Some(login) => (
                self.rolled_back(),
                if self.now.metadata.filter(metadata_of(id)).len() == 0 {
                    Err(WalletStorageErrorView::NotFound)
                } else {
                    Ok(PostgresStorageView { wallet_id: id })
                },
            ),
        }
    }

    /// The tables after the four statements that delete a wallet, and the
    /// number of rows that they removed.
    pub open spec fn without_wallet(self, id: Seq<char>) -> (TablesView, u64) {
        let plain = self.delete_tags(TagFilter::Wallet { wallet_id: id, encrypted: false });
        let encrypted = plain.0.delete_tags(TagFilter::Wallet { wallet_id: id, encrypted: true });
        let items = encrypted.0.delete_items(ItemFilter::Wallet { wallet_id: id });
        let metadata = items.0.delete_metadata(id);
        (
            metadata.0,
            counted_together(
                counted_together(
                    counted_together(
                        counted_together(0, affected(plain.1)),
                        affected(encrypted.1),
                    ),
                    affected(items.1),
                ),
                affected(metadata.1),
            ),
        )
    }

    /// What `delete_storage` does: in one transaction it deletes the tags,
    /// the items and the metadata of the wallet. A wallet of which nothing
    /// was stored is `NotFound`. Without the administrative login nothing
    /// is deleted.
    pub open spec fn delete_wallet(
        self,
        id: Seq<char>,
        config: Document<PostgresConfig>,
        credentials: Document<PostgresCredentials>,
    ) -> (TablesView, Result<(), WalletStorageErrorView>) {
        match resolve_login(config, credentials) {
            None => (self, Err(WalletStorageErrorView::ConfigError)),
            Some(login) => if login.credentials.has_admin() {
                let (deleted, removed) = self.begun().without_wallet(id);
                (
                    TablesView { saved: None, ..deleted },
                    if removed == 0 {
                        Err(WalletStorageErrorView::NotFound)
                    } else {
                        Ok(())
                    },
                )
            } else {
                (self, Ok(()))
            },
        }
    }
}

/// The statements of the schema from `index` on leave provisioned tables as
/// they are.
proof fn schema_runs(machine: ProvisionView, index: nat, session: SessionView)
    requires
        machine.login is Some,
        index <= schema_statements().len(),
    ensures
        resume::<Provision>(machine.schema(index), session) == (
            on(session, session.tables.rolled_back()),
            Ok::<(), WalletStorageErrorView>(()),
        ),
    decreases schema_statements().len() - index,
{
    if index < schema_statements().len() {
        let statement = schema_statements()[index as int];
        let creating = ProvisionView {
            phase: ProvisionPhase::CreatingSchema(index as usize),
            ..machine
        };
        let request = RequestView::Execute { statement, params: Seq::empty() };
        assert(session.tables.execute(statement, Seq::empty()) == (
            session.tables,
            ReplyView::Affected(0),
        ));
        assert(session.serve(request) == (session, ReplyView::Affected(0)));
        run_unfolds::<Provision>(creating, ReplyView::Affected(0), session);
        schema_runs(creating, index + 1, session);
    } else {
        let closing = ProvisionView { phase: ProvisionPhase::ClosingWallets, ..machine };
        run_unfolds::<Provision>(
            closing,
            ReplyView::Done,
            on(session, session.tables.rolled_back()),
        );
    }
}

/// Running `init_storage` does what [`TablesView::provision`] says.
pub proof fn provision_runs(
    session: SessionView,
    config: Document<PostgresConfig>,
    credentials: Document<PostgresCredentials>,
)
    ensures
        run::<Provision>(
            ProvisionView {
                login: resolve_login(config, credentials),
                phase: ProvisionPhase::Start,
                failure: None,
            },
            ReplyView::Ready,
            session,
        ) == ({
            let effect = session.tables.provision(config, credentials);
            (on(session, effect.0), effect.1)
        }),
{
    let start = ProvisionView {
        login: resolve_login(config, credentials),
        phase: ProvisionPhase::Start,
        failure: None,
    };
    run_unfolds::<Provision>(start, ReplyView::Ready, session);
    if start.login is Some && start.login->Some_0.credentials.has_admin() {
        let connecting = ProvisionView { phase: ProvisionPhase::ConnectingServer, ..start };
        run_unfolds::<Provision>(connecting, ReplyView::Done, session);
        let creating = ProvisionView { phase: ProvisionPhase::CreatingDatabase, ..start };
        let exists = session.tables.execute(Statement::CreateDatabase, Seq::empty()).1;
        run_unfolds::<Provision>(creating, exists, session);
        let closing = ProvisionView { phase: ProvisionPhase::ClosingServer, ..start };
        let closed = on(session, session.tables.rolled_back());
        run_unfolds::<Provision>(closing, ReplyView::Done, closed);
        let wallets = ProvisionView { phase: ProvisionPhase::ConnectingWallets, ..start };
        run_unfolds::<Provision>(wallets, ReplyView::Done, closed);
        schema_runs(wallets, 0, closed);
    }
}

/// Running `create_storage` does what [`TablesView::create`] says.
pub proof fn create_runs(
    session: SessionView,
    id: Seq<char>,
    config: Document<PostgresConfig>,
    credentials: Document<PostgresCredentials>,
    metadata: Seq<u8>,
)
    ensures
        run::<WalletCreate>(
            WalletCreateView {
                id,
                metadata,
                login: resolve_login(config, credentials),
                phase: CreatePhase::Start,
                failure: None,
            },
            ReplyView::Ready,
            session,
        ) == ({
            let effect = session.tables.create(id, config, credentials, metadata);
            (on(session, effect.0), effect.1)
        }),
{
    let start = WalletCreateView {
        id,
        metadata,
        login: resolve_login(config, credentials),
        phase: CreatePhase::Start,
        failure: None,
    };
    run_unfolds::<WalletCreate>(start, ReplyView::Ready, session);
    if start.login is Some && start.login->Some_0.credentials.has_admin() {
        let connecting = WalletCreateView { phase: CreatePhase::Connecting, ..start };
        run_unfolds::<WalletCreate>(connecting, ReplyView::Done, session);
        let checking = WalletCreateView { phase: CreatePhase::Checking, ..start };
        let key = seq![SqlValueView::Text(id)];
        assert(named_wallet(key) == Some(id));
        let rows = session.tables.now.metadata.filter(metadata_of(id)).map_values(
            metadata_columns(true),
        );
        assert(session.serve(
            RequestView::Query { sql: SqlView::Fixed(Statement::SelectWallet), params: key },
        ) == (session, ReplyView::Rows(rows)));
        run_unfolds::<WalletCreate>(checking, ReplyView::Rows(rows), session);
        if rows.len() > 0 {
            let closing = WalletCreateView {
                phase: CreatePhase::Closing,
                failure: Some(WalletStorageErrorView::AlreadyExists),
                ..start
            };
            run_unfolds::<WalletCreate>(
                closing,
                ReplyView::Done,
                on(session, session.tables.rolled_back()),
            );
        } else {
            let inserting = WalletCreateView { phase: CreatePhase::Inserting, ..start };
            let params = seq![SqlValueView::Text(id), SqlValueView::Bytes(metadata)];
            assert(given_metadata(params) == Some((id, metadata)));
            let (next, reply) = session.tables.insert_metadata(id, metadata);
            assert(session.serve(
                RequestView::Execute { statement: Statement::InsertMetadata, params },
            ) == (on(session, next), reply));
            run_unfolds::<WalletCreate>(inserting, reply, on(session, next));
            let closing = WalletCreateView {
                phase: CreatePhase::Closing,
                failure: inserted(reply),
                ..start
            };
            run_unfolds::<WalletCreate>(closing, ReplyView::Done, on(session, next.rolled_back()));
        }
    }
}

/// Running `open_storage` does what [`TablesView::open`] says.
pub proof fn open_runs(
    session: SessionView,
    id: Seq<char>,
    config: Document<PostgresConfig>,
    credentials: Document<PostgresCredentials>,
)
    ensures
        run::<WalletOpen>(
            WalletOpenView {
                id,
                login: resolve_login(config, credentials),
                phase: OpenPhase::Start,
                failure: None,
            },
            ReplyView::Ready,
            session,
        ) == ({
            let effect = session.tables.open(id, config, credentials);
            (on(session, effect.0), effect.1)
        }),
{
    let start = WalletOpenView {
        id,
        login: resolve_login(config, credentials),
        phase: OpenPhase::Start,
        failure: None,
    };
    run_unfolds::<WalletOpen>(start, ReplyView::Ready, session);
    if start.login is Some {
        let connecting = WalletOpenView { phase: OpenPhase::Connecting, ..start };
        run_unfolds::<WalletOpen>(connecting, ReplyView::Done, session);
        let checking = WalletOpenView { phase: OpenPhase::Checking, ..start };
        let params = seq![SqlValueView::Text(id)];
        assert(named_wallet(params) == Some(id));
        let rows = session.tables.now.metadata.filter(metadata_of(id)).map_values(
            metadata_columns(true),
        );
        let reply = ReplyView::Rows(rows);
        assert(session.serve(
            RequestView::Query { sql: SqlView::Fixed(Statement::SelectWallet), params },
        ) == (session, reply));
        run_unfolds::<WalletOpen>(checking, reply, session);
        let closing = WalletOpenView { phase: OpenPhase::Closing, failure: checked(reply), ..start };
        let closed = on(session, session.tables.rolled_back());
        run_unfolds::<WalletOpen>(closing, ReplyView::Done, closed);
        if checked(reply) is None {
            let pooling = WalletOpenView { phase: OpenPhase::Pooling, ..closing };
            run_unfolds::<WalletOpen>(pooling, ReplyView::Done, closed);
        }
    }
}

/// Running `delete_storage` does what [`TablesView::delete_wallet`] says.
pub proof fn delete_wallet_runs(
    session: SessionView,
    id: Seq<char>,
    config: Document<PostgresConfig>,
    credentials: Document<PostgresCredentials>,
)
    ensures
        run::<WalletDelete>(
            WalletDeleteView {
                id,
                login: resolve_login(config, credentials),
                phase: DeletePhase::Start,
                removed: 0,
                failure: None,
            },
            ReplyView::Ready,
            session,
        ) == ({
            let effect = session.tables.delete_wallet(id, config, credentials);
            (on(session, effect.0), effect.1)
        }),
{
    let start = WalletDeleteView {
        id,
        login: resolve_login(config, credentials),
        phase: DeletePhase::Start,
        removed: 0,
        failure: None,
    };
    run_unfolds::<WalletDelete>(start, ReplyView::Ready, session);
    if start.login is Some && start.login->Some_0.credentials.has_admin() {
        let connecting = WalletDeleteView { phase: DeletePhase::Connecting, ..start };
        run_unfolds::<WalletDelete>(connecting, ReplyView::Done, session);
        let opening = WalletDeleteView { phase: DeletePhase::Opening, ..start };
        let begun = session.tables.begun();
        assert(session.serve(RequestView::Begin) == (on(session, begun), ReplyView::Done));
        run_unfolds::<WalletDelete>(opening, ReplyView::Done, on(session, begun));
        let params = seq![SqlValueView::Text(id)];
        assert(named_wallet(params) == Some(id));
        let plain = begun.delete_tags(TagFilter::Wallet { wallet_id: id, encrypted: false });
        let encrypted = plain.0.delete_tags(TagFilter::Wallet { wallet_id: id, encrypted: true });
        let items = encrypted.0.delete_items(ItemFilter::Wallet { wallet_id: id });
        let metadata = items.0.delete_metadata(id);
        let first = WalletDeleteView { phase: DeletePhase::Deleting(0), ..start };
        assert(on(session, begun).serve(
            RequestView::Execute { statement: wallet_deletions()[0], params },
        ) == (on(session, plain.0), plain.1));
        run_unfolds::<WalletDelete>(first, plain.1, on(session, plain.0));
        let second = WalletDeleteView {
            phase: DeletePhase::Deleting(1),
            removed: counted_together(0, affected(plain.1)),
            ..start
        };
        assert(on(session, plain.0).serve(
            RequestView::Execute { statement: wallet_deletions()[1], params },
        ) == (on(session, encrypted.0), encrypted.1));
        run_unfolds::<WalletDelete>(second, encrypted.1, on(session, encrypted.0));
        let third = WalletDeleteView {
            phase: DeletePhase::Deleting(2),
            removed: counted_together(second.removed, affected(encrypted.1)),
            ..start
        };
        assert(on(session, encrypted.0).serve(
            RequestView::Execute { statement: wallet_deletions()[2], params },
        ) == (on(session, items.0), items.1));
        run_unfolds::<WalletDelete>(third, items.1, on(session, items.0));
        let fourth = WalletDeleteView {
            phase: DeletePhase::Deleting(3),
            removed: counted_together(third.removed, affected(items.1)),
            ..start
        };
        assert(on(session, items.0).serve(
            RequestView::Execute { statement: wallet_deletions()[3], params },
        ) == (on(session, metadata.0), metadata.1));
        run_unfolds::<WalletDelete>(fourth, metadata.1, on(session, metadata.0));
        let committing = WalletDeleteView {
            phase: DeletePhase::Committing,
            removed: counted_together(fourth.removed, affected(metadata.1)),
            ..start
        };
        let committed = on(session, TablesView { saved: None, ..metadata.0 });
        run_unfolds::<WalletDelete>(committing, ReplyView::Done, committed);
        let closing = WalletDeleteView { phase: DeletePhase::Closing, ..committing };
        run_unfolds::<WalletDelete>(closing, ReplyView::Done, committed);
    }
}

} // verus!
