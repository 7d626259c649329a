//! What all operations of the engine have in common.

use vstd::prelude::*;
use crate::command::{Command, CommandView, MetadataRead, MetadataReadView};
use crate::iterator::{fetch_advances, StorageIterator, StorageIteratorView};
use crate::lifecycle::{
    delete_advances,
    provision_advances,
    Provision,
    ProvisionView,
    WalletCreate,
    WalletCreateView,
    WalletDelete,
    WalletDeleteView,
    WalletOpen,
    WalletOpenView,
};
use crate::protocol::{Reply, ReplyView, Step, StepView};
use crate::read::{read_advances, RecordRead, RecordReadView};
use crate::record::{StorageRecord, StorageRecordView};
use crate::search::{search_advances, Search, SearchView};
use crate::storage::{PostgresStorage, PostgresStorageView};
use crate::write::{write_advances, ItemWrite, ItemWriteView};

verus! {

/// An operation of the engine: a machine that is advanced with replies and
/// answers with requests until it answers with its result.
pub trait Operation: Sized {
    /// What the operation returns.
    type Output: DeepView;

    /// What the machine holds.
    type State;

    /// What this machine holds.
    spec fn state(&self) -> Self::State;

    /// What every machine satisfies.
    spec fn valid(state: Self::State) -> bool;

    /// The transition of the machine.
    spec fn next(state: Self::State, reply: ReplyView) -> (
        Self::State,
        StepView<<Self::Output as DeepView>::V>,
    );

    /// A bound on the number of requests that the machine still makes.
    spec fn bound(state: Self::State) -> nat;

    /// Every machine is valid.
    proof fn is_valid(&self)
        ensures
            Self::valid(self.state()),
    ;

    /// A transition keeps a machine valid, and every request brings it
    /// nearer to its end: an operation finishes after finitely many
    /// requests, whatever the replies are.
    proof fn progress(state: Self::State, reply: ReplyView)
        requires
            Self::valid(state),
        ensures
            Self::valid(Self::next(state, reply).0),
            Self::next(state, reply).1 is Perform ==> Self::bound(Self::next(state, reply).0)
                < Self::bound(state),
    ;

    /// Advances the machine with the reply to its previous request
    /// (`Reply::Ready` at first) and returns its next request or its
    /// result.
    fn proceed(&mut self, reply: Reply) -> (step: Step<Self::Output>)
        ensures
            (final(self).state(), step.deep_view()) == Self::next(old(self).state(), reply@),
    ;
}

impl Operation for ItemWrite {
    type Output = ();

    type State = ItemWriteView;

    open spec fn state(&self) -> ItemWriteView {
        self@
    }

    open spec fn valid(state: ItemWriteView) -> bool {
        state.count() <= usize::MAX
    }

    open spec fn next(state: ItemWriteView, reply: ReplyView) -> (ItemWriteView, StepView<()>) {
        state.advance(reply)
    }

    open spec fn bound(state: ItemWriteView) -> nat {
        state.remaining()
    }

    proof fn is_valid(&self) {
        assert(self.tags.deep_view().len() == self.tags.len());
        assert(self.tag_names.deep_view().len() == self.tag_names.len());
    }

    proof fn progress(state: ItemWriteView, reply: ReplyView) {
        write_advances(state, reply);
    }

    fn proceed(&mut self, reply: Reply) -> (step: Step<()>) {
        self.advance(reply)
    }
}

impl Operation for RecordRead {
    type Output = StorageRecord;

    type State = RecordReadView;

    open spec fn state(&self) -> RecordReadView {
        self@
    }

    open spec fn valid(state: RecordReadView) -> bool {
        true
    }

    open spec fn next(state: RecordReadView, reply: ReplyView) -> (RecordReadView, StepView<StorageRecordView>) {
        state.advance(reply)
    }

    open spec fn bound(state: RecordReadView) -> nat {
        state.remaining()
    }

    proof fn is_valid(&self) {
    }

    proof fn progress(state: RecordReadView, reply: ReplyView) {
        read_advances(state, reply);
    }

    fn proceed(&mut self, reply: Reply) -> (step: Step<StorageRecord>) {
        self.advance(reply)
    }
}

impl Operation for Command {
    type Output = ();

    type State = CommandView;

    open spec fn state(&self) -> CommandView {
        self@
    }

    open spec fn valid(state: CommandView) -> bool {
        true
    }

    open spec fn next(state: CommandView, reply: ReplyView) -> (CommandView, StepView<()>) {
        state.advance(reply)
    }

    open spec fn bound(state: CommandView) -> nat {
        state.remaining()
    }

    proof fn is_valid(&self) {
    }

    proof fn progress(state: CommandView, reply: ReplyView) {
    }

    fn proceed(&mut self, reply: Reply) -> (step: Step<()>) {
        self.advance(reply)
    }
}

impl Operation for MetadataRead {
    type Output = Vec<u8>;

    type State = MetadataReadView;

    open spec fn state(&self) -> MetadataReadView {
        self@
    }

    open spec fn valid(state: MetadataReadView) -> bool {
        true
    }

    open spec fn next(state: MetadataReadView, reply: ReplyView) -> (MetadataReadView, StepView<Seq<u8>>) {
        state.advance(reply)
    }

    open spec fn bound(state: MetadataReadView) -> nat {
        state.remaining()
    }

    proof fn is_valid(&self) {
    }

    proof fn progress(state: MetadataReadView, reply: ReplyView) {
    }

    fn proceed(&mut self, reply: Reply) -> (step: Step<Vec<u8>>) {
        self.advance(reply)
    }
}

impl Operation for Search {
    type Output = StorageIterator;

    type State = SearchView;

    open spec fn state(&self) -> SearchView {
        self@
    }

    open spec fn valid(state: SearchView) -> bool {
        true
    }

    open spec fn next(state: SearchView, reply: ReplyView) -> (SearchView, StepView<StorageIteratorView>) {
        state.advance(reply)
    }

    open spec fn bound(state: SearchView) -> nat {
        state.remaining()
    }

    proof fn is_valid(&self) {
    }

    proof fn progress(state: SearchView, reply: ReplyView) {
        search_advances(state, reply);
    }

    fn proceed(&mut self, reply: Reply) -> (step: Step<StorageIterator>) {
        self.advance(reply)
    }
}

impl Operation for StorageIterator {
    type Output = Option<StorageRecord>;

    type State = StorageIteratorView;

    open spec fn state(&self) -> StorageIteratorView {
        self@
    }

    open spec fn valid(state: StorageIteratorView) -> bool {
        true
    }

    open spec fn next(state: StorageIteratorView, reply: ReplyView) -> (StorageIteratorView, StepView<Option<StorageRecordView>>) {
        state.advance(reply)
    }

    open spec fn bound(state: StorageIteratorView) -> nat {
        state.remaining()
    }

    proof fn is_valid(&self) {
    }

    proof fn progress(state: StorageIteratorView, reply: ReplyView) {
        fetch_advances(state, reply);
    }

    fn proceed(&mut self, reply: Reply) -> (step: Step<Option<StorageRecord>>) {
        self.advance(reply)
    }
}

impl Operation for Provision {
    type Output = ();

    type State = ProvisionView;

    open spec fn state(&self) -> ProvisionView {
        self@
    }

    open spec fn valid(state: ProvisionView) -> bool {
        true
    }

    open spec fn next(state: ProvisionView, reply: ReplyView) -> (ProvisionView, StepView<()>) {
        state.advance(reply)
    }

    open spec fn bound(state: ProvisionView) -> nat {
        state.remaining()
    }

    proof fn is_valid(&self) {
    }

    proof fn progress(state: ProvisionView, reply: ReplyView) {
        provision_advances(state, reply);
    }

    fn proceed(&mut self, reply: Reply) -> (step: Step<()>) {
        self.advance(reply)
    }
}

impl Operation for WalletCreate {
    type Output = ();

    type State = WalletCreateView;

    open spec fn state(&self) -> WalletCreateView {
        self@
    }

    open spec fn valid(state: WalletCreateView) -> bool {
        true
    }

    open spec fn next(state: WalletCreateView, reply: ReplyView) -> (WalletCreateView, StepView<()>) {
        state.advance(reply)
    }

    open spec fn bound(state: WalletCreateView) -> nat {
        state.remaining()
    }

    proof fn is_valid(&self) {
    }

    proof fn progress(state: WalletCreateView, reply: ReplyView) {
    }

    fn proceed(&mut self, reply: Reply) -> (step: Step<()>) {
        self.advance(reply)
    }
}

impl Operation for WalletOpen {
    type Output = PostgresStorage;

    type State = WalletOpenView;

    open spec fn state(&self) -> WalletOpenView {
        self@
    }

    open spec fn valid(state: WalletOpenView) -> bool {
        true
    }

    open spec fn next(state: WalletOpenView, reply: ReplyView) -> (WalletOpenView, StepView<PostgresStorageView>) {
        state.advance(reply)
    }

    open spec fn bound(state: WalletOpenView) -> nat {
        state.remaining()
    }

    proof fn is_valid(&self) {
    }

    proof fn progress(state: WalletOpenView, reply: ReplyView) {
    }

    fn proceed(&mut self, reply: Reply) -> (step: Step<PostgresStorage>) {
        self.advance(reply)
    }
}

impl Operation for WalletDelete {
    type Output = ();

    type State = WalletDeleteView;

    open spec fn state(&self) -> WalletDeleteView {
        self@
    }

    open spec fn valid(state: WalletDeleteView) -> bool {
        true
    }

    open spec fn next(state: WalletDeleteView, reply: ReplyView) -> (WalletDeleteView, StepView<()>) {
        state.advance(reply)
    }

    open spec fn bound(state: WalletDeleteView) -> nat {
        state.remaining()
    }

    proof fn is_valid(&self) {
    }

    proof fn progress(state: WalletDeleteView, reply: ReplyView) {
        delete_advances(state, reply);
    }

    fn proceed(&mut self, reply: Reply) -> (step: Step<()>) {
        self.advance(reply)
    }
}

} // verus!
