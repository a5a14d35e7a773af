//! Recording the base of the current branch.

use crate::effect::{Effect, EffectOf, Progress, Reply, ReplyOf};
#[allow(unused_imports)]
use crate::effect::{answers, EffectView, ReplyView};
#[allow(unused_imports)]
use crate::error::WorkflowErrorView;
use crate::error::{WorkflowError, WorkflowErrorOf};
#[allow(unused_imports)]
use crate::paths::PathView;
use crate::paths::WorkspacePath;
#[allow(unused_imports)]
use crate::run::{push_keeps, selected, Exchange, Workflow};
use crate::text::same_text;
use vstd::pervasive::unreached;
use vstd::prelude::*;
use vstd::string::StringExecFns;

verus! {

/// What the user asked for, over paths `P` and texts `S`.
pub struct SetBaseRequestOf<P, S> {
    /// The base to record.
    pub base: S,
    /// The directory the command was given in.
    pub cwd: P,
}

/// What the user asked for.
pub type SetBaseRequest = SetBaseRequestOf<WorkspacePath, String>;

/// The value of a [`SetBaseRequest`].
pub type SetBaseRequestView = SetBaseRequestOf<PathView, Seq<char>>;

impl View for SetBaseRequestOf<WorkspacePath, String> {
    type V = SetBaseRequestView;

    open spec fn view(&self) -> SetBaseRequestView {
        SetBaseRequestOf { base: self.base@, cwd: self.cwd@ }
    }
}

/// What the command waits for, over texts `S`.
pub enum SetBaseStateOf<S> {
    CheckingBase,
    FindingBranch,
    Recording { branch: S },
    Confirming { branch: S },
}

/// What the command waits for.
pub type SetBaseState = SetBaseStateOf<String>;

/// The value of a [`SetBaseState`].
pub type SetBaseStateView = SetBaseStateOf<Seq<char>>;

impl View for SetBaseStateOf<String> {
    type V = SetBaseStateView;

    open spec fn view(&self) -> SetBaseStateView {
        match self {
            SetBaseStateOf::CheckingBase => SetBaseStateOf::CheckingBase,
            SetBaseStateOf::FindingBranch => SetBaseStateOf::FindingBranch,
            SetBaseStateOf::Recording { branch } => SetBaseStateOf::Recording { branch: branch@ },
            SetBaseStateOf::Confirming { branch } => SetBaseStateOf::Confirming {
                branch: branch@,
            },
        }
    }
}

/// Where the command stands.
pub type SetBaseProgress<E> = Progress<SetBaseState, Result<(), WorkflowError<E>>>;

/// The value of a [`SetBaseProgress`].
pub type SetBaseProgressView<E> = Progress<SetBaseStateView, Result<(), WorkflowErrorView<E>>>;

/// The value of a [`SetBaseProgress`].
pub open spec fn progress_view<E>(progress: SetBaseProgress<E>) -> SetBaseProgressView<E> {
    match progress {
        Progress::Awaiting(state) => Progress::Awaiting(state@),
        Progress::Finished(Ok(_)) => Progress::Finished(Ok(())),
        Progress::Finished(Err(error)) => Progress::Finished(Err(error@)),
    }
}

/// The effect that the command waits for.
pub open spec fn set_base_effect(
    request: SetBaseRequestView,
    state: SetBaseStateView,
) -> EffectView {
    match state {
        SetBaseStateOf::CheckingBase => EffectOf::BranchExists {
            branch: request.base,
            dir: request.cwd,
        },
        SetBaseStateOf::FindingBranch => EffectOf::CurrentBranch { dir: request.cwd },
        SetBaseStateOf::Recording { branch } => EffectOf::RecordBranchBase {
            branch,
            base: request.base,
            dir: request.cwd,
        },
        SetBaseStateOf::Confirming { branch } => EffectOf::Print {
            text: "Set base branch for '"@ + branch + "' to '"@ + request.base + "'"@,
        },
    }
}

/// Where the command stands after the reply to the effect it waited for.
pub open spec fn set_base_after<E>(
    request: SetBaseRequestView,
    state: SetBaseStateView,
    reply: ReplyView<E>,
) -> SetBaseProgressView<E> {
    match state {
        SetBaseStateOf::CheckingBase => match reply {
            ReplyOf::Flag { value: true } => Progress::Awaiting(SetBaseStateOf::FindingBranch),
            ReplyOf::Flag { value: false } => Progress::Finished(
                Err(WorkflowErrorOf::NoBaseReference { base: request.base }),
            ),
            ReplyOf::Failed { cause } => Progress::Finished(
                Err(WorkflowErrorOf::External { cause }),
            ),
            _ => arbitrary(),
        },
        SetBaseStateOf::FindingBranch => match reply {
            ReplyOf::Name { value: Some(branch) } => if branch == request.base {
                Progress::Finished(Err(WorkflowErrorOf::BaseIsCurrent))
            } else {
                Progress::Awaiting(SetBaseStateOf::Recording { branch })
            },
            ReplyOf::Name { value: None } => Progress::Finished(Err(WorkflowErrorOf::NotOnBranch)),
            ReplyOf::Failed { cause } => Progress::Finished(
                Err(WorkflowErrorOf::External { cause }),
            ),
            _ => arbitrary(),
        },
        SetBaseStateOf::Recording { branch } => match reply {
            ReplyOf::Done => Progress::Awaiting(SetBaseStateOf::Confirming { branch }),
            ReplyOf::Failed { cause } => Progress::Finished(
                Err(
                    WorkflowErrorOf::Context {
                        context: recording_failure(branch),
                        cause,
                    },
                ),
            ),
            _ => arbitrary(),
        },
        SetBaseStateOf::Confirming { .. } => Progress::Finished(Ok(())),
    }
}

/// The state in which the command begins.
pub fn begin() -> (state: SetBaseState)
    ensures
        state@ == SetBaseStateView::CheckingBase,
{
    SetBaseStateOf::CheckingBase
}

/// The effect that the command waits for.
pub fn pending_effect(request: &SetBaseRequest, state: &SetBaseState) -> (res: Effect)
    ensures
        res@ == set_base_effect(request@, state@),
{
    match state {
        SetBaseStateOf::CheckingBase => EffectOf::BranchExists {
            branch: request.base.clone(),
            dir: request.cwd.clone(),
        },
        SetBaseStateOf::FindingBranch => EffectOf::CurrentBranch { dir: request.cwd.clone() },
        SetBaseStateOf::Recording { branch } => EffectOf::RecordBranchBase {
            branch: branch.clone(),
            base: request.base.clone(),
            dir: request.cwd.clone(),
        },
        SetBaseStateOf::Confirming { branch } => EffectOf::Print {
            text: "Set base branch for '".to_owned().concat(branch.as_str()).concat(
                "' to '",
            ).concat(request.base.as_str()).concat("'"),
        },
    }
}

/// Takes the reply to the effect that the command waits for, and goes on to the next effect or
/// to the outcome.
pub fn advance<E>(request: &SetBaseRequest, state: SetBaseState, reply: Reply<E>) -> (res:
    SetBaseProgress<E>)
    requires
        answers(set_base_effect(request@, state@), reply@),
    ensures
        progress_view(res) == set_base_after(request@, state@, reply@),
{
    match state {
        SetBaseStateOf::CheckingBase => match reply {
            ReplyOf::Flag { value } => if value {
                Progress::Awaiting(SetBaseStateOf::FindingBranch)
            } else {
                Progress::Finished(
                    Err(WorkflowErrorOf::NoBaseReference { base: request.base.clone() }),
                )
            },
            ReplyOf::Failed { cause } => Progress::Finished(
                Err(WorkflowErrorOf::External { cause }),
            ),
            _ => unreached(),
        },
        SetBaseStateOf::FindingBranch => match reply {
            ReplyOf::Name { value } => match value {
                Some(branch) => if same_text(branch.as_str(), request.base.as_str()) {
                    Progress::Finished(Err(WorkflowErrorOf::BaseIsCurrent))
                } else {
                    Progress::Awaiting(SetBaseStateOf::Recording { branch })
                },
                None => Progress::Finished(Err(WorkflowErrorOf::NotOnBranch)),
            },
            ReplyOf::Failed { cause } => Progress::Finished(
                Err(WorkflowErrorOf::External { cause }),
            ),
            _ => unreached(),
        },
        SetBaseStateOf::Recording { branch } => match reply {
            ReplyOf::Done => Progress::Awaiting(SetBaseStateOf::Confirming { branch }),
            ReplyOf::Failed { cause } => Progress::Finished(
                Err(
                    WorkflowErrorOf::Context {
                        context: "Failed to set base branch for '".to_owned().concat(
                            branch.as_str(),
                        ).concat("'"),
                        cause,
                    },
                ),
            ),
            _ => unreached(),
        },
        SetBaseStateOf::Confirming { .. } => Progress::Finished(Ok(())),
    }
}

/// The command as a workflow.
pub type SetBaseWorkflow<E> = Workflow<SetBaseStateView, Result<(), WorkflowErrorView<E>>, E>;

/// The command as a workflow.
pub open spec fn set_base_workflow<E>(request: SetBaseRequestView) -> SetBaseWorkflow<E> {
    Workflow {
        start: SetBaseStateOf::CheckingBase,
        effect: |state: SetBaseStateView| set_base_effect(request, state),
        after: |state: SetBaseStateView, reply: ReplyView<E>| set_base_after(request, state, reply),
    }
}

/// Whether the history shows that the base to record exists.
pub open spec fn base_exists<E>(request: SetBaseRequestView, past: Seq<Exchange<E>>) -> bool {
    past.contains(
        (
            EffectOf::BranchExists { branch: request.base, dir: request.cwd },
            ReplyOf::Flag { value: true },
        ),
    )
}

/// Whether the history shows that `branch` is the current branch.
pub open spec fn is_current<E>(
    request: SetBaseRequestView,
    branch: Seq<char>,
    past: Seq<Exchange<E>>,
) -> bool {
    past.contains(
        (EffectOf::CurrentBranch { dir: request.cwd }, ReplyOf::Name { value: Some(branch) }),
    )
}

/// Whether an effect records the base of a branch.
pub open spec fn is_recording() -> spec_fn(EffectView) -> bool {
    |effect: EffectView| effect is RecordBranchBase
}

/// The attempts to record a base, each with its outcome.
pub open spec fn recordings<E>(past: Seq<Exchange<E>>) -> Seq<Exchange<E>> {
    selected(past, is_recording())
}

/// Whether the base was recorded for `branch`, or the recording of it attempted, exactly once
/// and with the outcome `reply`, and nothing else was recorded.
pub open spec fn recorded_once<E>(
    request: SetBaseRequestView,
    branch: Seq<char>,
    reply: ReplyView<E>,
    past: Seq<Exchange<E>>,
) -> bool {
    let effect = EffectView::RecordBranchBase { branch, base: request.base, dir: request.cwd };
    &&& recordings(past) == seq![(effect, reply)]
    &&& justified(request, effect, past)
}

/// What is said of a base that could not be recorded.
pub open spec fn recording_failure(branch: Seq<char>) -> Seq<char> {
    "Failed to set base branch for '"@ + branch + "'"@
}

spec fn known_so_far<E>(
    request: SetBaseRequestView,
    state: SetBaseStateView,
    past: Seq<Exchange<E>>,
) -> bool {
    match state {
        SetBaseStateOf::CheckingBase => recordings(past).len() == 0,
        SetBaseStateOf::FindingBranch => {
            &&& base_exists(request, past)
            &&& recordings(past).len() == 0
        },
        SetBaseStateOf::Recording { branch } => {
            &&& base_exists(request, past)
            &&& is_current(request, branch, past)
            &&& branch != request.base
            &&& recordings(past).len() == 0
        },
        SetBaseStateOf::Confirming { branch } => recorded_once(
            request,
            branch,
            ReplyOf::Done,
            past,
        ),
    }
}

/// Whether the history justifies recording a base: it is the one that was asked for, it
/// exists, and it differs from the branch, which is the current one.
pub open spec fn justified<E>(
    request: SetBaseRequestView,
    effect: EffectView,
    past: Seq<Exchange<E>>,
) -> bool {
    match effect {
        EffectOf::RecordBranchBase { branch, base, dir } => {
            &&& base == request.base
            &&& dir == request.cwd
            &&& base_exists(request, past)
            &&& is_current(request, branch, past)
            &&& branch != base
        },
        _ => false,
    }
}

proof fn known_holds<E>(request: SetBaseRequestView, replies: Seq<ReplyView<E>>)
    requires
        set_base_workflow(request).is_run(replies),
    ensures
        set_base_workflow(request).standing(replies) matches Progress::Awaiting(state)
            ==> known_so_far(request, state, set_base_workflow(request).history(replies)),
    decreases replies.len(),
{
    let flow = set_base_workflow::<E>(request);
    if replies.len() > 0 {
        known_holds(request, replies.drop_last());
        let past = flow.history(replies.drop_last());
        let state = flow.standing(replies.drop_last())->Awaiting_0;
        let exchange = (set_base_effect(request, state), replies.last());
        let now = past.push(exchange);
        push_keeps(past, exchange);
        assert(flow.history(replies) == now);
        assert(flow.standing(replies) == set_base_after(request, state, replies.last()));
        assert(now.drop_last() =~= past);
        if let SetBaseStateOf::Recording { branch } = state {
            assert(recordings(now) =~= seq![exchange]);
        }
    }
}

/// A base is recorded or refused, and never more than one recording is attempted: a request
/// that succeeds has recorded the base once, one that fails in the recording has attempted it
/// once, and one that is refused has not attempted it. What is recorded is the base that was
/// asked for, for the current branch; it exists, and is not the branch itself.
pub proof fn base_is_recorded_or_refused<E>(
    request: SetBaseRequestView,
    replies: Seq<ReplyView<E>>,
)
    requires
        set_base_workflow(request).is_run(replies),
    ensures
        match set_base_workflow(request).standing(replies) {
            Progress::Awaiting(state) => match state {
                SetBaseStateOf::Confirming { branch } => recorded_once(
                    request,
                    branch,
                    ReplyOf::Done,
                    set_base_workflow(request).history(replies),
                ),
                _ => recordings(set_base_workflow(request).history(replies)).len() == 0,
            },
            Progress::Finished(Ok(_)) => exists|branch: Seq<char>| #[trigger]
                recorded_once(
                    request,
                    branch,
                    ReplyOf::Done,
                    set_base_workflow(request).history(replies),
                ),
            Progress::Finished(Err(WorkflowErrorOf::Context { context, cause })) => exists|
                branch: Seq<char>,
            |
                {
                    &&& #[trigger] recorded_once(
                        request,
                        branch,
                        ReplyOf::Failed { cause },
                        set_base_workflow(request).history(replies),
                    )
                    &&& context == recording_failure(branch)
                },
            Progress::Finished(Err(_)) => recordings(
                set_base_workflow(request).history(replies),
            ).len() == 0,
        },
{
    let flow = set_base_workflow::<E>(request);
    known_holds(request, replies);
    if replies.len() > 0 {
        known_holds(request, replies.drop_last());
        let past = flow.history(replies.drop_last());
        let state = flow.standing(replies.drop_last())->Awaiting_0;
        let exchange = (set_base_effect(request, state), replies.last());
        let now = past.push(exchange);
        push_keeps(past, exchange);
        assert(flow.history(replies) == now);
        assert(flow.standing(replies) == set_base_after(request, state, replies.last()));
        assert(now.drop_last() =~= past);
        match state {
            SetBaseStateOf::Recording { branch } => {
                assert(recordings(now) =~= seq![exchange]);
                assert(recorded_once(request, branch, replies.last(), now));
                if let Progress::Finished(Err(WorkflowErrorOf::Context { cause, .. })) =
                    flow.standing(replies) {
                    assert(recorded_once(request, branch, ReplyOf::Failed { cause }, now));
                }
            },
            SetBaseStateOf::Confirming { branch } => {
                assert(recordings(now) =~= recordings(past));
                assert(recorded_once(request, branch, ReplyOf::Done, now));
            },
            _ => {},
        }
    }
}

/// How many effects the command can still ask for.
pub open spec fn effects_left(state: SetBaseStateView) -> nat {
    match state {
        SetBaseStateOf::CheckingBase => 4,
        SetBaseStateOf::FindingBranch => 3,
        SetBaseStateOf::Recording { .. } => 2,
        SetBaseStateOf::Confirming { .. } => 1,
    }
}

/// The command comes to an end, after a fixed number of effects at most.
pub proof fn set_base_ends<E>(request: SetBaseRequestView, replies: Seq<ReplyView<E>>)
    requires
        set_base_workflow(request).is_run(replies),
    ensures
        replies.len() <= 4,
        set_base_workflow(request).standing(replies) matches Progress::Awaiting(state)
            ==> replies.len() + effects_left(state) <= 4,
    decreases replies.len(),
{
    if replies.len() > 0 {
        set_base_ends(request, replies.drop_last());
    }
}

/// The history of a command that has found out that the base exists.
pub open spec fn after_lookup<E>(request: SetBaseRequestView) -> Seq<Exchange<E>> {
    seq![
        (
            EffectOf::BranchExists { branch: request.base, dir: request.cwd },
            ReplyOf::Flag { value: true },
        ),
    ]
}

/// The history of a command that has found out, too, that `branch` is the current branch.
pub open spec fn after_finding<E>(request: SetBaseRequestView, branch: Seq<char>) -> Seq<
    Exchange<E>,
> {
    after_lookup(request).push(
        (EffectOf::CurrentBranch { dir: request.cwd }, ReplyOf::Name { value: Some(branch) }),
    )
}

/// The history of a command that has tried to record the base for `branch`, with the outcome
/// `reply`.
pub open spec fn after_recording<E>(
    request: SetBaseRequestView,
    branch: Seq<char>,
    reply: ReplyView<E>,
) -> Seq<Exchange<E>> {
    after_finding(request, branch).push(
        (
            EffectOf::RecordBranchBase { branch, base: request.base, dir: request.cwd },
            reply,
        ),
    )
}

spec fn went_so_far<E>(
    request: SetBaseRequestView,
    state: SetBaseStateView,
    past: Seq<Exchange<E>>,
) -> bool {
    match state {
        SetBaseStateOf::CheckingBase => past == Seq::<Exchange<E>>::empty(),
        SetBaseStateOf::FindingBranch => past == after_lookup::<E>(request),
        SetBaseStateOf::Recording { branch } => {
            &&& past == after_finding::<E>(request, branch)
            &&& branch != request.base
        },
        SetBaseStateOf::Confirming { branch } => {
            &&& past == after_recording::<E>(request, branch, ReplyOf::Done)
            &&& branch != request.base
        },
    }
}

proof fn went_holds<E>(request: SetBaseRequestView, replies: Seq<ReplyView<E>>)
    requires
        set_base_workflow(request).is_run(replies),
    ensures
        set_base_workflow(request).standing(replies) matches Progress::Awaiting(state)
            ==> went_so_far(request, state, set_base_workflow(request).history(replies)),
    decreases replies.len(),
{
    let flow = set_base_workflow::<E>(request);
    if replies.len() > 0 {
        went_holds(request, replies.drop_last());
        let past = flow.history(replies.drop_last());
        let state = flow.standing(replies.drop_last())->Awaiting_0;
        let now = past.push((set_base_effect(request, state), replies.last()));
        assert(flow.history(replies) == now);
        assert(flow.standing(replies) == set_base_after(request, state, replies.last()));
        if state is CheckingBase && flow.standing(replies) is Awaiting {
            assert(now =~= after_lookup(request));
        }
    }
}

/// The command looks the base up, then asks for the current branch, then records the base for
/// it, then says so. Once the base is found and the current branch is another one, the base is
/// recorded next, whatever the two are called.
pub proof fn base_of_another_branch_is_recorded<E>(
    request: SetBaseRequestView,
    branch: Seq<char>,
    replies: Seq<ReplyView<E>>,
)
    requires
        set_base_workflow(request).is_run(replies),
    ensures
        ({
            let flow = set_base_workflow::<E>(request);
            let past = flow.history(replies);
            &&& past.len() == 0 ==> flow.asks(replies) == Some(
                EffectView::BranchExists { branch: request.base, dir: request.cwd },
            )
            &&& past == after_lookup::<E>(request) ==> flow.asks(replies) == Some(
                EffectView::CurrentBranch { dir: request.cwd },
            )
            &&& past == after_finding::<E>(request, branch) && branch != request.base
                ==> flow.asks(replies) == Some(
                EffectView::RecordBranchBase { branch, base: request.base, dir: request.cwd },
            )
            &&& past == after_recording::<E>(request, branch, ReplyOf::Done) ==> flow.asks(replies)
                == Some(
                EffectView::Print {
                    text: "Set base branch for '"@ + branch + "' to '"@ + request.base + "'"@,
                },
            )
        }),
{
    let flow = set_base_workflow::<E>(request);
    went_holds(request, replies);
    if replies.len() > 0 {
        went_holds(request, replies.drop_last());
        let past = flow.history(replies.drop_last());
        let state = flow.standing(replies.drop_last())->Awaiting_0;
        let now = past.push((set_base_effect(request, state), replies.last()));
        assert(flow.history(replies) == now);
        assert(flow.standing(replies) == set_base_after(request, state, replies.last()));
        assert(now.last() == (set_base_effect(request, state), replies.last()));
        assert(now.drop_last() =~= past);
        assert(after_lookup::<E>(request).last() == after_lookup::<E>(request)[0]);
        assert(after_finding::<E>(request, branch).drop_last() =~= after_lookup::<E>(request));
        assert(after_recording::<E>(request, branch, ReplyOf::Done).drop_last() =~= after_finding::<
            E,
        >(request, branch));
    }
}

/// The command ends after exactly the exchanges that call for it: the
/// base does not exist, the directory is on no branch, the current branch is the base itself,
/// an effect failed, or the base was recorded for another branch.
pub proof fn ends_have_their_reasons<E>(request: SetBaseRequestView, replies: Seq<ReplyView<E>>)
    requires
        set_base_workflow(request).is_run(replies),
    ensures
        ({
            let past = set_base_workflow::<E>(request).history(replies);
            let lookup = EffectView::BranchExists { branch: request.base, dir: request.cwd };
            let question = EffectView::CurrentBranch { dir: request.cwd };
            match set_base_workflow::<E>(request).standing(replies) {
                Progress::Awaiting(_) => true,
                Progress::Finished(Ok(_)) => exists|branch: Seq<char>|
                    {
                        &&& past == #[trigger] after_recording::<E>(
                            request,
                            branch,
                            ReplyOf::Done,
                        ).push(
                            (
                                EffectView::Print {
                                    text: "Set base branch for '"@ + branch + "' to '"@
                                        + request.base + "'"@,
                                },
                                ReplyOf::Done,
                            ),
                        )
                        &&& branch != request.base
                    },
                Progress::Finished(Err(error)) => match error {
                    WorkflowErrorOf::NoBaseReference { base } => {
                        &&& base == request.base
                        &&& past == seq![(lookup, ReplyView::<E>::Flag { value: false })]
                    },
                    WorkflowErrorOf::NotOnBranch => past == after_lookup::<E>(request).push(
                        (question, ReplyOf::Name { value: None }),
                    ),
                    WorkflowErrorOf::BaseIsCurrent => past == after_finding::<E>(
                        request,
                        request.base,
                    ),
                    WorkflowErrorOf::External { cause } => {
                        ||| past == seq![(lookup, ReplyView::<E>::Failed { cause })]
                        ||| past == after_lookup::<E>(request).push(
                            (question, ReplyOf::Failed { cause }),
                        )
                    },
                    WorkflowErrorOf::Context { context, cause } => exists|branch: Seq<char>|
                        {
                            &&& past == #[trigger] after_recording::<E>(
                                request,
                                branch,
                                ReplyOf::Failed { cause },
                            )
                            &&& branch != request.base
                            &&& context == "Failed to set base branch for '"@ + branch + "'"@
                        },
                    _ => false,
                },
            }
        }),
{
    let flow = set_base_workflow::<E>(request);
    if replies.len() > 0 {
        went_holds(request, replies.drop_last());
        let past = flow.history(replies.drop_last());
        let state = flow.standing(replies.drop_last())->Awaiting_0;
        let now = past.push((set_base_effect(request, state), replies.last()));
        assert(flow.history(replies) == now);
        assert(flow.standing(replies) == set_base_after(request, state, replies.last()));
        match state {
            SetBaseStateOf::CheckingBase => {
                assert(now =~= seq![(set_base_effect(request, state), replies.last())]);
            },
            SetBaseStateOf::FindingBranch => {},
            SetBaseStateOf::Recording { branch } => {
                if let Progress::Finished(Err(WorkflowErrorOf::Context { cause, .. })) =
                    flow.standing(replies) {
                    assert(now == after_recording::<E>(request, branch, ReplyOf::Failed { cause }));
                }
            },
            SetBaseStateOf::Confirming { branch } => {
                let recorded = after_recording::<E>(request, branch, ReplyOf::Done);
                let line = EffectView::Print {
                    text: "Set base branch for '"@ + branch + "' to '"@ + request.base + "'"@,
                };
                assert(now == recorded.push((line, ReplyOf::Done)));
            },
        }
    }
}

} // verus!
