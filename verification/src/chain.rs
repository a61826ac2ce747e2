//! A model of the failure-chaining collaborator and of one invocation of an
//! emitted function.
//!
//! The emitted code delegates its failure handling to a wrap-with-context
//! operation: identity on a success value, and on a failure value a new
//! failure whose chain of messages has the context message prepended
//! (outermost, most recently attached, first). [`attach_context`] is that
//! operation on the model's own result type, and [`wrapped_call`] is the
//! order of events inside an emitted function: the message is computed from
//! the state at entry, then the body runs, then the message is attached to
//! the body's result.

use vstd::prelude::*;

verus! {

/// The outcome of running a fallible body: a success value, or a failure
/// carrying its chain of messages, outermost first.
#[derive(Debug, PartialEq, Eq)]
pub enum Outcome<T> {
    Success(T),
    Failure(Vec<String>),
}

/// Spec-level value of an [`Outcome`].
pub enum OutcomeV<T> {
    Success(T),
    Failure(Seq<Seq<char>>),
}

/// The spec-level values of a chain of messages.
pub open spec fn chain_v(msgs: Seq<String>) -> Seq<Seq<char>> {
    msgs.map_values(|m: String| m@)
}

impl<T> View for Outcome<T> {
    type V = OutcomeV<T>;

    open spec fn view(&self) -> OutcomeV<T> {
        match self {
            Outcome::Success(v) => OutcomeV::Success(*v),
            Outcome::Failure(msgs) => OutcomeV::Failure(chain_v(msgs@)),
        }
    }
}

/// What attaching a context message to an outcome yields: a success value
/// passes through unaltered; a failure gets the message prepended to its
/// chain.
pub open spec fn attach_spec<T>(r: OutcomeV<T>, m: Seq<char>) -> OutcomeV<T> {
    match r {
        OutcomeV::Success(v) => OutcomeV::Success(v),
        OutcomeV::Failure(chain) => OutcomeV::Failure(seq![m] + chain),
    }
}

/// Attach a context message to an outcome: the wrap-with-context operation
/// the emitted code relies on, on the model's own result type.
pub fn attach_context<T>(result: Outcome<T>, message: String) -> (r: Outcome<T>)
    ensures
        r@ == attach_spec(result@, message@),
{
    match result {
        Outcome::Success(v) => Outcome::Success(v),
        Outcome::Failure(mut msgs) => {
            let ghost before = msgs@;
            msgs.insert(0, message);
            proof {
                assert(chain_v(msgs@) =~= seq![message@] + chain_v(before));
            }
            Outcome::Failure(msgs)
        },
    }
}

/// The executable shape of an emitted function's body, after the message has
/// been bound: the original body, captured by move as a zero-argument unit of
/// work, runs once, and its outcome is returned with the message attached.
/// The message is a finished value here, so nothing the body does can reach
/// back into its computation.
pub fn call_with_context<T, F: FnOnce() -> Outcome<T>>(message: String, body: F) -> (r: Outcome<T>)
    requires
        call_requires(body, ()),
    ensures
        exists|result: Outcome<T>|
            #[trigger] call_ensures(body, (), result) && r@ == attach_spec(result@, message@),
{
    let mut inner = body;
    let result = inner();
    attach_context(result, message)
}

/// One invocation of an emitted function, as a function of the entry state:
/// the context message is computed from the state at entry, strictly before
/// the body runs; the body then takes the state and yields a post state and
/// an outcome; the message is attached to that outcome.
pub open spec fn wrapped_call<S, T>(
    ctx: spec_fn(S) -> Seq<char>,
    body: spec_fn(S) -> (S, OutcomeV<T>),
    s: S,
) -> (S, OutcomeV<T>) {
    let message = ctx(s);
    let (s_post, result) = body(s);
    (s_post, attach_spec(result, message))
}

/// When the body fails, the caller of the emitted function observes a chain
/// whose first entry is the context message and whose remaining entries are
/// the body's own messages in their original order.
pub proof fn lemma_failure_chain_prepend<S, T>(
    ctx: spec_fn(S) -> Seq<char>,
    body: spec_fn(S) -> (S, OutcomeV<T>),
    s: S,
    msgs: Seq<Seq<char>>,
)
    requires
        body(s).1 == OutcomeV::<T>::Failure(msgs),
    ensures
        wrapped_call(ctx, body, s).1 == OutcomeV::<T>::Failure(seq![ctx(s)] + msgs),
{
}

/// When the body succeeds, attaching the context has no effect: the emitted
/// function returns exactly the success value the original body produced,
/// with the same post state.
pub proof fn lemma_success_passthrough<S, T>(
    ctx: spec_fn(S) -> Seq<char>,
    body: spec_fn(S) -> (S, OutcomeV<T>),
    s: S,
    v: T,
)
    requires
        body(s).1 == OutcomeV::<T>::Success(v),
    ensures
        wrapped_call(ctx, body, s) == (body(s).0, OutcomeV::<T>::Success(v)),
{
}

/// The context message reflects the state as of entry: on any failure, the
/// first entry of the chain is the context applied to the entry state, even
/// when the body has changed the state before failing — the message the
/// context would produce from the post state plays no part.
pub proof fn lemma_context_sees_entry_state<S, T>(
    ctx: spec_fn(S) -> Seq<char>,
    body: spec_fn(S) -> (S, OutcomeV<T>),
    s: S,
)
    requires
        body(s).1 is Failure,
    ensures
        wrapped_call(ctx, body, s).1 is Failure,
        wrapped_call(ctx, body, s).1->Failure_0.first() == ctx(s),
        ctx(body(s).0) != ctx(s) ==> wrapped_call(ctx, body, s).1->Failure_0.first() != ctx(
            body(s).0,
        ),
{
}

} // verus!
