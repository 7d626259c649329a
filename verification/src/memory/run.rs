//! Running an operation of the engine to its end on tables in memory.

use vstd::prelude::*;
use crate::error::{WalletStorageError, WalletStorageErrorView};
use crate::memory::session::{serve, Cursor, SessionView};
use crate::memory::tables::Tables;
use crate::operation::Operation;
use crate::protocol::{unexpected_reply, Reply, ReplyView, Step, StepView};

verus! {

/// What running a machine to its end does to a session, and its result.
pub open spec fn run<O: Operation>(state: O::State, reply: ReplyView, session: SessionView) -> (
    SessionView,
    Result<<O::Output as DeepView>::V, WalletStorageErrorView>,
)
    decreases O::bound(state),
{
    let (next, step) = O::next(state, reply);
    match step {
        StepView::Finish(result) => (session, result),
        StepView::Perform(request) => {
            if O::bound(next) < O::bound(state) {
                let (served, answer) = session.serve(request);
                run::<O>(next, answer, served)
            } else {
                (session, Err(WalletStorageErrorView::InvalidState(unexpected_reply())))
            }
        },
    }
}

/// What the machine holds when it has run to its end.
pub open spec fn settled<O: Operation>(state: O::State, reply: ReplyView, session: SessionView)
    -> O::State
    decreases O::bound(state),
{
    let (next, step) = O::next(state, reply);
    match step {
        StepView::Finish(_) => next,
        StepView::Perform(request) => {
            if O::bound(next) < O::bound(state) {
                let (served, answer) = session.serve(request);
                settled::<O>(next, answer, served)
            } else {
                next
            }
        },
    }
}

/// What follows a transition: the result where the machine has finished,
/// and else the run that goes on with the reply to its request.
pub open spec fn resume<O: Operation>(
    next: (O::State, StepView<<O::Output as DeepView>::V>),
    session: SessionView,
) -> (SessionView, Result<<O::Output as DeepView>::V, WalletStorageErrorView>) {
    match next.1 {
        StepView::Finish(result) => (session, result),
        StepView::Perform(request) => {
            let (served, answer) = session.serve(request);
            run::<O>(next.0, answer, served)
        },
    }
}

/// A run is its first transition and what follows it.
pub proof fn run_unfolds<O: Operation>(state: O::State, reply: ReplyView, session: SessionView)
    requires
        O::valid(state),
    ensures
        run::<O>(state, reply, session) == resume::<O>(O::next(state, reply), session),
        O::valid(O::next(state, reply).0),
{
    O::progress(state, reply);
}

/// What the machine holds in the end is what it holds after its first
/// transition and what follows it.
pub proof fn settled_unfolds<O: Operation>(state: O::State, reply: ReplyView, session: SessionView)
    requires
        O::valid(state),
    ensures
        settled::<O>(state, reply, session) == match O::next(state, reply).1 {
            StepView::Finish(_) => O::next(state, reply).0,
            StepView::Perform(request) => settled::<O>(
                O::next(state, reply).0,
                session.serve(request).1,
                session.serve(request).0,
            ),
        },
{
    O::progress(state, reply);
}

/// What a result holds.
pub open spec fn result_view<T: DeepView>(result: Result<T, WalletStorageError>) -> Result<
    T::V,
    WalletStorageErrorView,
> {
    match result {
        Ok(value) => Ok(value.deep_view()),
        Err(error) => Err(error@),
    }
}

/// Runs an operation to its end on the tables and the cursor of a session.
pub fn drive<O: Operation>(tables: &mut Tables, cursor: &mut Cursor, operation: &mut O) -> (result:
    Result<O::Output, WalletStorageError>)
    ensures
        (SessionView { tables: final(tables)@, cursor: final(cursor)@ }, result_view(result))
            == run::<O>(
            old(operation).state(),
            ReplyView::Ready,
            SessionView { tables: old(tables)@, cursor: old(cursor)@ },
        ),
        final(operation).state() == settled::<O>(
            old(operation).state(),
            ReplyView::Ready,
            SessionView { tables: old(tables)@, cursor: old(cursor)@ },
        ),
{
    let mut reply = Reply::Ready;
    proof {
        operation.is_valid();
    }
    loop
        invariant
            O::valid(operation.state()),
            run::<O>(
                operation.state(),
                reply@,
                SessionView { tables: tables@, cursor: cursor@ },
            ) == run::<O>(
                old(operation).state(),
                ReplyView::Ready,
                SessionView { tables: old(tables)@, cursor: old(cursor)@ },
            ),
            settled::<O>(
                operation.state(),
                reply@,
                SessionView { tables: tables@, cursor: cursor@ },
            ) == settled::<O>(
                old(operation).state(),
                ReplyView::Ready,
                SessionView { tables: old(tables)@, cursor: old(cursor)@ },
            ),
        decreases O::bound(operation.state()),
    {
        proof {
            O::progress(operation.state(), reply@);
        }
        match operation.proceed(reply) {
            Step::Finish(result) => {
                return result;
            },
            Step::Perform(request) => {
                reply = serve(tables, cursor, &request);
            },
        }
    }
}

} // verus!
