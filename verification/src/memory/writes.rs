//! What the writing operations do when they run on tables in memory.

use vstd::prelude::*;
use crate::error::WalletStorageErrorView;
use crate::memory::model::{
    given_item,
    given_tag,
    id_columns,
    named_item,
    named_tag,
    named_tags,
    ItemColumns,
    ItemFilter,
    ItemRow,
    TablesView,
    TagFilter,
    TagRow,
};
use crate::memory::run::{resume, run, run_unfolds};
use crate::memory::session::SessionView;
use crate::protocol::{first_id, refused, ReplyView, RequestView, SqlValueView, StepView};
use crate::record::{EncryptedValueView, TagNameView, TagView};
use crate::statement::Statement;
use crate::storage::{no_value, PostgresStorageView};
use crate::write::{
    item_key,
    tag_delete,
    tag_write,
    tags_clear,
    ItemWrite,
    ItemWriteView,
    WriteKind,
    WritePhase,
};

verus! {

/// How a transaction ends: committed with what was written, or abandoned
/// with the error of the reply that reported no success.
pub open spec fn settle(written: TablesView, failure: Option<ReplyView>) -> (
    TablesView,
    Result<(), WalletStorageErrorView>,
) {
    match failure {
        None => (TablesView { saved: None, ..written }, Ok(())),
        Some(reply) => (written.rolled_back(), Err(refused(reply))),
    }
}

impl TablesView {
    /// Inserts the tags of an item one after another, until one fails. With
    /// `upsert` a tag whose key the item has already gets the new value.
    pub open spec fn write_tags(
        self,
        wallet_id: Seq<char>,
        item_id: i64,
        tags: Seq<TagView>,
        upsert: bool,
    ) -> (TablesView, Option<ReplyView>)
        decreases tags.len(),
    {
        if tags.len() == 0 {
            (self, None)
        } else {
            let (next, reply) = self.insert_tag(
                TagRow { wallet_id, item_id, tag: tags[0] },
                upsert,
            );
            if reply is Affected {
                next.write_tags(wallet_id, item_id, tags.skip(1), upsert)
            } else {
                (next, Some(reply))
            }
        }
    }

    /// Deletes the named tags of an item one after another.
    pub open spec fn erase_tags(self, wallet_id: Seq<char>, item_id: i64, names: Seq<TagNameView>)
        -> TablesView
        decreases names.len(),
    {
        if names.len() == 0 {
            self
        } else {
            self.delete_tags(TagFilter::Named { wallet_id, item_id, name: names[0] }).0.erase_tags(
                wallet_id,
                item_id,
                names.skip(1),
            )
        }
    }

    /// The tables with a transaction open on them.
    pub open spec fn begun(self) -> TablesView {
        match self.saved {
            Some(_) => self,
            None => TablesView { saved: Some(self.now), ..self },
        }
    }

    /// What `add` does: in one transaction it inserts the item and then,
    /// one after another, its tags. Where a statement fails, the
    /// transaction is abandoned and the tables hold what they held before.
    pub open spec fn add(
        self,
        wallet_id: Seq<char>,
        type_: Seq<u8>,
        name: Seq<u8>,
        value: EncryptedValueView,
        tags: Seq<TagView>,
    ) -> (TablesView, Result<(), WalletStorageErrorView>) {
        let (inserted, reply) = self.begun().insert_item(
            ItemRow { wallet_id, id: 0, type_, name, value: value.data, key: value.key },
        );
        if reply is Rows {
            let (written, failure) = inserted.write_tags(
                wallet_id,
                self.next_item_id,
                tags,
                false,
            );
            settle(written, failure)
        } else {
            settle(inserted, Some(reply))
        }
    }

    /// What `add_tags` and `update_tags` do: in one transaction they look
    /// the item up and insert its tags one after another, `update_tags`
    /// after deleting the tags that the item had. Where the item does not
    /// exist or a statement fails, the transaction is abandoned and the
    /// tables hold what they held before.
    pub open spec fn set_tags(
        self,
        wallet_id: Seq<char>,
        type_: Seq<u8>,
        name: Seq<u8>,
        tags: Seq<TagView>,
        replace: bool,
    ) -> (TablesView, Result<(), WalletStorageErrorView>) {
        let found = self.now.items_named(wallet_id, type_, name);
        if found.len() == 0 {
            (self.begun().rolled_back(), Err(WalletStorageErrorView::ItemNotFound))
        } else {
            let item_id = found[0].id;
            let cleared = if replace {
                self.begun().delete_tags(
                    TagFilter::Item { wallet_id, item_id, encrypted: true },
                ).0.delete_tags(TagFilter::Item { wallet_id, item_id, encrypted: false }).0
            } else {
                self.begun()
            };
            let (written, failure) = cleared.write_tags(wallet_id, item_id, tags, !replace);
            settle(written, failure)
        }
    }

    /// What `delete_tags` does: it looks the item up and, in one
    /// transaction, deletes its named tags one after another.
    pub open spec fn remove_tags(
        self,
        wallet_id: Seq<char>,
        type_: Seq<u8>,
        name: Seq<u8>,
        names: Seq<TagNameView>,
    ) -> (TablesView, Result<(), WalletStorageErrorView>) {
        let found = self.now.items_named(wallet_id, type_, name);
        if found.len() == 0 {
            (self, Err(WalletStorageErrorView::ItemNotFound))
        } else {
            settle(self.begun().erase_tags(wallet_id, found[0].id, names), None)
        }
    }
}

/// Writing tags changes nothing but the tags.
pub proof fn write_tags_keeps_the_rest(
    tables: TablesView,
    wallet_id: Seq<char>,
    item_id: i64,
    tags: Seq<TagView>,
    upsert: bool,
)
    ensures
        ({
            let written = tables.write_tags(wallet_id, item_id, tags, upsert).0;
            &&& written.now.items == tables.now.items
            &&& written.now.metadata == tables.now.metadata
            &&& written.saved == tables.saved
            &&& written.next_item_id == tables.next_item_id
            &&& written.next_metadata_id == tables.next_metadata_id
        }),
    decreases tags.len(),
{
    if tags.len() > 0 {
        let (next, reply) = tables.insert_tag(TagRow { wallet_id, item_id, tag: tags[0] }, upsert);
        if reply is Affected {
            write_tags_keeps_the_rest(next, wallet_id, item_id, tags.skip(1), upsert);
        }
    }
}

/// A session that differs in its tables only.
pub open spec fn on(session: SessionView, tables: TablesView) -> SessionView {
    SessionView { tables, ..session }
}

/// The result of an operation on the tables, as the result of its run on
/// the session.
pub open spec fn within(
    session: SessionView,
    effect: (TablesView, Result<(), WalletStorageErrorView>),
) -> (SessionView, Result<(), WalletStorageErrorView>) {
    (on(session, effect.0), effect.1)
}

/// Writing the tags from `index` on, and then committing, does what
/// [`TablesView::write_tags`] says.
pub proof fn writing_runs(machine: ItemWriteView, index: nat, session: SessionView)
    requires
        machine.kind != WriteKind::DeleteTags,
        machine.count() <= usize::MAX,
        index <= machine.count(),
        !(machine.phase is Start || machine.phase is Opening || machine.phase is Finished),
    ensures
        resume::<ItemWrite>(machine.proceed(index), session) == within(
            session,
            ({
                let (written, failure) = session.tables.write_tags(
                    machine.wallet_id,
                    machine.item_id,
                    machine.tags.skip(index as int),
                    machine.kind == WriteKind::AddTags,
                );
                settle(written, failure)
            }),
        ),
    decreases machine.count() - index,
{
    let upsert = machine.kind == WriteKind::AddTags;
    let rest = machine.tags.skip(index as int);
    if index < machine.count() {
        let tag = machine.tags[index as int];
        assert(rest[0] == tag);
        assert(rest.skip(1) =~= machine.tags.skip(index as int + 1));
        let row = TagRow { wallet_id: machine.wallet_id, item_id: machine.item_id, tag };
        let request = tag_write(upsert, machine.wallet_id, machine.item_id, tag);
        let encrypted = tag is Encrypted;
        assert(request is Execute);
        assert(given_tag(encrypted, request->Execute_params) == Some(row));
        let (next, reply) = session.tables.insert_tag(row, upsert);
        assert(session.serve(request) == (on(session, next), reply));
        let writing = ItemWriteView { phase: WritePhase::Writing(index as usize), ..machine };
        assert(machine.proceed(index) == (writing, StepView::<()>::Perform(request)));
        run_unfolds::<ItemWrite>(writing, reply, on(session, next));
        if reply is Affected {
            writing_runs(writing, index + 1, on(session, next));
        } else {
            let failing = ItemWriteView {
                phase: WritePhase::Aborting,
                failure: Some(refused(reply)),
                ..writing
            };
            assert(writing.advance(reply) == (
                failing,
                StepView::<()>::Perform(RequestView::Rollback),
            ));
            run_unfolds::<ItemWrite>(failing, ReplyView::Done, on(session, next.rolled_back()));
        }
    } else {
        assert(rest.len() == 0);
        let committing = ItemWriteView { phase: WritePhase::Committing, ..machine };
        run_unfolds::<ItemWrite>(
            committing,
            ReplyView::Done,
            on(session, TablesView { saved: None, ..session.tables }),
        );
    }
}

/// Deleting the named tags from `index` on, and then committing, does what
/// [`TablesView::erase_tags`] says.
pub proof fn erasing_runs(machine: ItemWriteView, index: nat, session: SessionView)
    requires
        machine.kind == WriteKind::DeleteTags,
        machine.count() <= usize::MAX,
        index <= machine.count(),
    ensures
        resume::<ItemWrite>(machine.proceed(index), session) == within(
            session,
            settle(
                session.tables.erase_tags(
                    machine.wallet_id,
                    machine.item_id,
                    machine.tag_names.skip(index as int),
                ),
                None,
            ),
        ),
    decreases machine.count() - index,
{
    let rest = machine.tag_names.skip(index as int);
    if index < machine.count() {
        let name = machine.tag_names[index as int];
        assert(rest[0] == name);
        assert(rest.skip(1) =~= machine.tag_names.skip(index as int + 1));
        let request = tag_delete(machine.wallet_id, machine.item_id, name);
        assert(request is Execute);
        assert(named_tag(request->Execute_params) == Some(
            (
                machine.wallet_id,
                machine.item_id,
                match name {
                    TagNameView::OfEncrypted(name) => name,
                    TagNameView::OfPlain(name) => name,
                },
            ),
        ));
        let (next, reply) = session.tables.delete_tags(
            TagFilter::Named { wallet_id: machine.wallet_id, item_id: machine.item_id, name },
        );
        assert(session.serve(request) == (on(session, next), reply));
        let writing = ItemWriteView { phase: WritePhase::Writing(index as usize), ..machine };
        assert(machine.proceed(index) == (writing, StepView::<()>::Perform(request)));
        run_unfolds::<ItemWrite>(writing, reply, on(session, next));
        erasing_runs(writing, index + 1, on(session, next));
    } else {
        assert(rest.len() == 0);
        let committing = ItemWriteView { phase: WritePhase::Committing, ..machine };
        run_unfolds::<ItemWrite>(
            committing,
            ReplyView::Done,
            on(session, TablesView { saved: None, ..session.tables }),
        );
    }
}

/// Abandoning a transaction after a failure ends the run with that
/// failure.
proof fn failing_runs(machine: ItemWriteView, error: WalletStorageErrorView, session: SessionView)
    requires
        machine.in_transaction(),
        machine.count() <= usize::MAX,
    ensures
        resume::<ItemWrite>(machine.fail(error), session) == (
            on(session, session.tables.rolled_back()),
            Err::<(), WalletStorageErrorView>(error),
        ),
{
    let failing = ItemWriteView { phase: WritePhase::Aborting, failure: Some(error), ..machine };
    run_unfolds::<ItemWrite>(failing, ReplyView::Done, on(session, session.tables.rolled_back()));
}

/// Running `add` does what [`TablesView::add`] says.
pub proof fn add_runs(
    session: SessionView,
    storage: PostgresStorageView,
    type_: Seq<u8>,
    name: Seq<u8>,
    value: EncryptedValueView,
    tags: Seq<TagView>,
)
    requires
        tags.len() <= usize::MAX,
    ensures
        run::<ItemWrite>(
            storage.write(WriteKind::Add, type_, name, value, tags, Seq::empty()),
            ReplyView::Ready,
            session,
        ) == within(session, session.tables.add(storage.wallet_id, type_, name, value, tags)),
{
    let wallet_id = storage.wallet_id;
    let start = storage.write(WriteKind::Add, type_, name, value, tags, Seq::empty());
    let opening = ItemWriteView { phase: WritePhase::Opening, ..start };
    let resolving = ItemWriteView { phase: WritePhase::Resolving, ..start };
    let begun = session.tables.begun();
    let given = ItemRow { wallet_id, id: 0, type_, name, value: value.data, key: value.key };
    run_unfolds::<ItemWrite>(start, ReplyView::Ready, session);
    assert(session.serve(RequestView::Begin) == (on(session, begun), ReplyView::Done));
    run_unfolds::<ItemWrite>(opening, ReplyView::Done, on(session, begun));
    let request = start.resolve();
    assert(request is Query);
    assert(given_item(request->Query_params) == Some(given));
    let (inserted, reply) = begun.insert_item(given);
    assert(on(session, begun).serve(request) == (on(session, inserted), reply));
    run_unfolds::<ItemWrite>(resolving, reply, on(session, inserted));
    if reply is Rows {
        let row = ItemRow { id: session.tables.next_item_id, ..given };
        assert(reply->Rows_0[0] == id_columns(row));
        assert(first_id(reply->Rows_0) == Some(row.id));
        let known = ItemWriteView { item_id: row.id, ..resolving };
        assert(tags.skip(0) =~= tags);
        writing_runs(known, 0, on(session, inserted));
    } else {
        failing_runs(resolving, refused(reply), on(session, inserted));
    }
}

/// Running `add_tags` or `update_tags` does what [`TablesView::set_tags`]
/// says.
pub proof fn set_tags_runs(
    session: SessionView,
    storage: PostgresStorageView,
    type_: Seq<u8>,
    name: Seq<u8>,
    tags: Seq<TagView>,
    replace: bool,
)
    requires
        tags.len() <= usize::MAX,
    ensures
        run::<ItemWrite>(
            storage.write(
                if replace {
                    WriteKind::UpdateTags
                } else {
                    WriteKind::AddTags
                },
                type_,
                name,
                no_value(),
                tags,
                Seq::empty(),
            ),
            ReplyView::Ready,
            session,
        ) == within(session, session.tables.set_tags(storage.wallet_id, type_, name, tags, replace)),
{
    let wallet_id = storage.wallet_id;
    let kind = if replace {
        WriteKind::UpdateTags
    } else {
        WriteKind::AddTags
    };
    let start = storage.write(kind, type_, name, no_value(), tags, Seq::empty());
    let opening = ItemWriteView { phase: WritePhase::Opening, ..start };
    let resolving = ItemWriteView { phase: WritePhase::Resolving, ..start };
    let begun = session.tables.begun();
    run_unfolds::<ItemWrite>(start, ReplyView::Ready, session);
    assert(session.serve(RequestView::Begin) == (on(session, begun), ReplyView::Done));
    run_unfolds::<ItemWrite>(opening, ReplyView::Done, on(session, begun));
    let filter = ItemFilter::Named { wallet_id, type_, name };
    let key = item_key(wallet_id, type_, name);
    assert(named_item(key) == Some(filter));
    let found = begun.now.items.filter(filter.chosen());
    assert(begun.now == session.tables.now);
    let rows = found.map_values(ItemColumns::Id.of());
    let reply = ReplyView::Rows(rows);
    assert(on(session, begun).serve(start.resolve()) == (on(session, begun), reply));
    run_unfolds::<ItemWrite>(resolving, reply, on(session, begun));
    if found.len() == 0 {
        failing_runs(resolving, WalletStorageErrorView::ItemNotFound, on(session, begun));
    } else {
        let item_id = found[0].id;
        assert(rows[0] == id_columns(found[0]));
        assert(first_id(rows) == Some(item_id));
        let known = ItemWriteView { item_id, ..resolving };
        assert(tags.skip(0) =~= tags);
        if replace {
            let params = seq![SqlValueView::Text(wallet_id), SqlValueView::Int(item_id)];
            assert(named_tags(params) == Some((wallet_id, item_id)));
            let first = begun.delete_tags(TagFilter::Item { wallet_id, item_id, encrypted: true });
            let second = first.0.delete_tags(
                TagFilter::Item { wallet_id, item_id, encrypted: false },
            );
            let clearing = ItemWriteView { phase: WritePhase::Clearing(0), ..known };
            let cleared = ItemWriteView { phase: WritePhase::Clearing(1), ..known };
            assert(on(session, begun).serve(
                tags_clear(Statement::DeleteItemEncryptedTags, wallet_id, item_id),
            ) == (on(session, first.0), first.1));
            run_unfolds::<ItemWrite>(clearing, first.1, on(session, first.0));
            assert(on(session, first.0).serve(
                tags_clear(Statement::DeleteItemPlainTags, wallet_id, item_id),
            ) == (on(session, second.0), second.1));
            run_unfolds::<ItemWrite>(cleared, second.1, on(session, second.0));
            writing_runs(cleared, 0, on(session, second.0));
        } else {
            writing_runs(known, 0, on(session, begun));
        }
    }
}

/// Running `delete_tags` does what [`TablesView::remove_tags`] says.
pub proof fn remove_tags_runs(
    session: SessionView,
    storage: PostgresStorageView,
    type_: Seq<u8>,
    name: Seq<u8>,
    names: Seq<TagNameView>,
)
    requires
        names.len() <= usize::MAX,
    ensures
        run::<ItemWrite>(
            storage.write(WriteKind::DeleteTags, type_, name, no_value(), Seq::empty(), names),
            ReplyView::Ready,
            session,
        ) == within(session, session.tables.remove_tags(storage.wallet_id, type_, name, names)),
{
    let wallet_id = storage.wallet_id;
    let start = storage.write(WriteKind::DeleteTags, type_, name, no_value(), Seq::empty(), names);
    let resolving = ItemWriteView { phase: WritePhase::Resolving, ..start };
    run_unfolds::<ItemWrite>(start, ReplyView::Ready, session);
    let filter = ItemFilter::Named { wallet_id, type_, name };
    let key = item_key(wallet_id, type_, name);
    assert(named_item(key) == Some(filter));
    let found = session.tables.now.items.filter(filter.chosen());
    let rows = found.map_values(ItemColumns::Id.of());
    let reply = ReplyView::Rows(rows);
    assert(session.serve(start.resolve()) == (session, reply));
    run_unfolds::<ItemWrite>(resolving, reply, session);
    if found.len() > 0 {
        let item_id = found[0].id;
        assert(rows[0] == id_columns(found[0]));
        assert(first_id(rows) == Some(item_id));
        let opening = ItemWriteView { phase: WritePhase::Opening, item_id, ..resolving };
        let begun = session.tables.begun();
        assert(session.serve(RequestView::Begin) == (on(session, begun), ReplyView::Done));
        run_unfolds::<ItemWrite>(opening, ReplyView::Done, on(session, begun));
        assert(names.skip(0) =~= names);
        erasing_runs(opening, 0, on(session, begun));
    }
}

} // verus!
