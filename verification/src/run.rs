//! Runs of a workflow: what it asked for, what it heard, and where that left it.

use crate::effect::{answers, EffectOf, EffectView, Progress, ReplyOf, ReplyView};
use crate::jj::{conflict_check_line, reports_conflict};
use crate::paths::PathView;
use vstd::prelude::*;

verus! {

/// A workflow with states `T`, outcomes `O` and foreign errors `E`.
#[verifier::reject_recursive_types(T)]
#[verifier::reject_recursive_types(O)]
#[verifier::reject_recursive_types(E)]
pub struct Workflow<T, O, E> {
    /// The state in which it begins.
    pub start: T,
    /// The effect that it waits for in a state.
    pub effect: spec_fn(T) -> EffectView,
    /// Where it stands after the reply to that effect.
    pub after: spec_fn(T, ReplyView<E>) -> Progress<T, O>,
}

/// One effect and what came of it.
pub type Exchange<E> = (EffectView, ReplyView<E>);

/// A `jj` command: the directory it runs in and its arguments.
pub type Command = (PathView, Seq<Seq<char>>);

impl<T, O, E> Workflow<T, O, E> {
    /// Where the workflow stands after `replies`.
    pub open spec fn standing(self, replies: Seq<ReplyView<E>>) -> Progress<T, O>
        decreases replies.len(),
    {
        if replies.len() == 0 {
            Progress::Awaiting(self.start)
        } else {
            match self.standing(replies.drop_last()) {
                Progress::Awaiting(state) => (self.after)(state, replies.last()),
                Progress::Finished(outcome) => Progress::Finished(outcome),
            }
        }
    }

    /// Whether `replies` can be the replies that the workflow gets, in order: each answers the
    /// effect that it then waits for.
    pub open spec fn is_run(self, replies: Seq<ReplyView<E>>) -> bool
        decreases replies.len(),
    {
        replies.len() > 0 ==> {
            &&& self.is_run(replies.drop_last())
            &&& match self.standing(replies.drop_last()) {
                Progress::Awaiting(state) => answers((self.effect)(state), replies.last()),
                Progress::Finished(_) => false,
            }
        }
    }

    /// The effect that the workflow waits for after `replies`, if it has not come to its end.
    pub open spec fn asks(self, replies: Seq<ReplyView<E>>) -> Option<EffectView> {
        match self.standing(replies) {
            Progress::Awaiting(state) => Some((self.effect)(state)),
            Progress::Finished(_) => None,
        }
    }

    /// The effects that were performed, each with its reply.
    pub open spec fn history(self, replies: Seq<ReplyView<E>>) -> Seq<Exchange<E>>
        decreases replies.len(),
    {
        if replies.len() == 0 {
            Seq::empty()
        } else {
            let before = self.history(replies.drop_last());
            match self.standing(replies.drop_last()) {
                Progress::Awaiting(state) => before.push(((self.effect)(state), replies.last())),
                Progress::Finished(_) => before,
            }
        }
    }
}

/// The `jj` commands that were run, in order.
pub open spec fn commands<E>(history: Seq<Exchange<E>>) -> Seq<Command>
    decreases history.len(),
{
    if history.len() == 0 {
        Seq::empty()
    } else {
        match history.last().0 {
            EffectOf::RunJj { dir, args } => commands(history.drop_last()).push((dir, args)),
            _ => commands(history.drop_last()),
        }
    }
}

/// Whether `exchange` is the one at position `i` of a history.
pub open spec fn stands_at<E>(past: Seq<Exchange<E>>, i: int, exchange: Exchange<E>) -> bool {
    0 <= i < past.len() && past[i] == exchange
}

/// The exchanges whose effect `wanted` accepts, in order.
pub open spec fn selected<E>(
    history: Seq<Exchange<E>>,
    wanted: spec_fn(EffectView) -> bool,
) -> Seq<Exchange<E>>
    decreases history.len(),
{
    if history.len() == 0 {
        Seq::empty()
    } else if wanted(history.last().0) {
        selected(history.drop_last(), wanted).push(history.last())
    } else {
        selected(history.drop_last(), wanted)
    }
}

/// Whether a command is a conflict check.
pub open spec fn is_conflict_check(args: Seq<Seq<char>>) -> bool {
    exists|revset: Seq<char>| args == conflict_check_line(revset)
}

/// Whether every command ended with success.
pub open spec fn all_succeeded<E>(past: Seq<Exchange<E>>) -> bool {
    forall|i: int|
        0 <= i < past.len() && (#[trigger] past[i]).0 is RunJj ==> (past[i].1 matches
            ReplyOf::Output { success: true, .. })
}

/// Whether no conflict check reported a conflict.
pub open spec fn conflict_free<E>(past: Seq<Exchange<E>>) -> bool {
    forall|i: int|
        0 <= i < past.len() ==> ((#[trigger] past[i]).0 matches EffectOf::RunJj { args, .. }
            && is_conflict_check(args) ==> !reports_conflict(past[i].1))
}

/// A longer list contains what it contained before, and what was added.
pub proof fn push_keeps<T>(list: Seq<T>, x: T)
    ensures
        forall|y: T| list.contains(y) ==> #[trigger] list.push(x).contains(y),
        list.push(x).contains(x),
{
    assert forall|y: T| list.contains(y) implies #[trigger] list.push(x).contains(y) by {
        let i = choose|i: int| 0 <= i < list.len() && list[i] == y;
        assert(list.push(x)[i] == y);
    }
    assert(list.push(x)[list.len() as int] == x);
}

} // verus!
