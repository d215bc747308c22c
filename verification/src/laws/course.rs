//! What holds of the course of a commit, from the request to the answer.

use vstd::prelude::*;

use crate::commit;
use crate::commit::{ActionView, CommitEventView, StateView};
use crate::context;
use crate::ids;
use crate::laws::identity;
use crate::laws::recording;
use crate::protocol::{
    ErrorView, MetadataView, ParamsView, ResponseView, RolloutItemView,
};
use crate::rollout;
use crate::rollout::LookupView;
use crate::validation;

verus! {

/// What the thread and the clock answer in the course of a commit.
pub struct World<Id, Input> {
    pub thread_id: Result<Id, Seq<char>>,
    pub lookup: LookupView<Id, Input>,
    pub now: i64,
    pub injected: Result<(), Seq<char>>,
    pub appended: Result<(), Seq<char>>,
}

/// What comes of a piece of work; `None` where there is none to do.
pub open spec fn comes_of<Id, Input>(
    world: World<Id, Input>,
    action: ActionView<Id, Input>,
) -> Option<CommitEventView<Id, Input>> {
    match action {
        ActionView::ParseThreadId(_) => Some(CommitEventView::ThreadIdParsed(world.thread_id)),
        ActionView::MaterializeRollout => Some(CommitEventView::RolloutMaterialized),
        ActionView::LookUpRollout => Some(CommitEventView::RolloutLookedUp(world.lookup)),
        ActionView::InjectItems(_) => Some(CommitEventView::ItemsInjected(world.injected)),
        ActionView::AppendEvents(_) => Some(CommitEventView::EventsAppended(world.appended)),
        ActionView::Finish(_) => None,
        ActionView::Wait => None,
    }
}

/// The work done from `state` and `event` on, in at most `steps` steps.
pub open spec fn work<Id, Input>(
    params: ParamsView<Input>,
    world: World<Id, Input>,
    state: StateView<Id>,
    event: CommitEventView<Id, Input>,
    steps: nat,
) -> Seq<ActionView<Id, Input>>
    decreases steps,
{
    if steps == 0 {
        seq![]
    } else {
        let (next_state, action) = commit::next(params, state, event, world.now);
        match comes_of(world, action) {
            Some(next_event) => seq![action] + work(
                params,
                world,
                next_state,
                next_event,
                (steps - 1) as nat,
            ),
            None => seq![action],
        }
    }
}

/// The whole course of a commit.
pub open spec fn course<Id, Input>(params: ParamsView<Input>, world: World<Id, Input>) -> Seq<
    ActionView<Id, Input>,
> {
    work(params, world, StateView::Received, CommitEventView::Begin, 6)
}

/// The work that leads up to reading the rollout.
pub open spec fn preparation<Id, Input>(params: ParamsView<Input>) -> Seq<ActionView<Id, Input>> {
    seq![
        ActionView::ParseThreadId(params.thread_id),
        ActionView::MaterializeRollout,
        ActionView::LookUpRollout,
    ]
}

/// Whether the plan of `params` was recorded before, as the rollout shows it.
pub open spec fn known<Id, Input>(params: ParamsView<Input>, world: World<Id, Input>) -> Result<
    bool,
    ErrorView,
> {
    rollout::recorded_before(world.lookup, ids::ids_of(params).final_plan_item_id)
}

proof fn lemma_steps<Id, Input>(params: ParamsView<Input>, world: World<Id, Input>)
    ensures
        course(params, world) == match validation::refusal(params) {
            Some(error) => seq![ActionView::Finish(Err(error))],
            None => match world.thread_id {
                Err(reason) => seq![
                    ActionView::ParseThreadId(params.thread_id),
                    ActionView::Finish(
                        Err(ErrorView::InvalidRequest("invalid thread id: "@ + reason)),
                    ),
                ],
                Ok(thread_id) => preparation(params) + work(
                    params,
                    world,
                    StateView::Checking { thread_id, ids: ids::ids_of(params) },
                    CommitEventView::RolloutLookedUp(world.lookup),
                    3,
                ),
            },
        },
{
    reveal_with_fuel(work, 4);
    match world.thread_id {
        Ok(thread_id) => {
            let rest = work(
                params,
                world,
                StateView::Checking { thread_id, ids: ids::ids_of(params) },
                CommitEventView::RolloutLookedUp(world.lookup),
                3,
            );
            let parse = ActionView::<Id, Input>::ParseThreadId(params.thread_id);
            let materialize = ActionView::<Id, Input>::MaterializeRollout;
            let look_up = ActionView::<Id, Input>::LookUpRollout;
            assert(seq![parse] + (seq![materialize] + (seq![look_up] + rest)) =~= preparation(
                params,
            ) + rest);
        },
        Err(reason) => {
            let parse = ActionView::<Id, Input>::ParseThreadId(params.thread_id);
            let answer = ActionView::<Id, Input>::Finish(
                Err(ErrorView::InvalidRequest("invalid thread id: "@ + reason)),
            );
            assert(seq![parse] + seq![answer] =~= seq![parse, answer]);
        },
    }
}

/// A request that is refused is answered with the refusal, and nothing else is
/// done for it.
pub proof fn law_refused_request_does_nothing<Id, Input>(
    params: ParamsView<Input>,
    world: World<Id, Input>,
)
    requires
        validation::refusal(params) is Some,
    ensures
        course(params, world) == seq![
            ActionView::<Id, Input>::Finish(Err(validation::refusal(params)->0)),
        ],
{
    lemma_steps(params, world);
}

/// A thread identifier that cannot be parsed makes the request invalid, and
/// neither the rollout nor the model's history is touched.
pub proof fn law_bad_thread_id_is_refused<Id, Input>(
    params: ParamsView<Input>,
    world: World<Id, Input>,
    reason: Seq<char>,
)
    requires
        validation::refusal(params) is None,
        world.thread_id == Err::<Id, Seq<char>>(reason),
    ensures
        course(params, world) == seq![
            ActionView::<Id, Input>::ParseThreadId(params.thread_id),
            ActionView::Finish(Err(ErrorView::InvalidRequest("invalid thread id: "@ + reason))),
        ],
{
    lemma_steps(params, world);
}

/// Where the rollout cannot be read, nothing is written.
pub proof fn law_unreadable_rollout_stops_the_commit<Id, Input>(
    params: ParamsView<Input>,
    world: World<Id, Input>,
    reason: Seq<char>,
)
    requires
        validation::refusal(params) is None,
        world.thread_id is Ok,
        world.lookup == LookupView::<Id, Input>::Unreadable(reason),
    ensures
        course(params, world) == preparation(params) + seq![
            ActionView::<Id, Input>::Finish(
                Err(ErrorView::Internal("failed to read rollout history: "@ + reason)),
            ),
        ],
{
    lemma_steps(params, world);
    reveal_with_fuel(work, 2);
}

/// A plan that was recorded before is not written again and clients are told
/// nothing: the answer gives its identifiers and says so.
pub proof fn law_recorded_plan_is_not_written_again<Id, Input>(
    params: ParamsView<Input>,
    world: World<Id, Input>,
)
    requires
        validation::refusal(params) is None,
        world.thread_id is Ok,
        known(params, world) == Ok::<bool, ErrorView>(true),
    ensures
        course(params, world) == preparation(params) + seq![
            ActionView::<Id, Input>::Finish(Ok(commit::repeated(ids::ids_of(params)))),
        ],
{
    lemma_steps(params, world);
    reveal_with_fuel(work, 2);
}

/// A new plan is given to the model first, then recorded, each in one piece, and
/// then answered and told, all under the same identifiers and at the same time.
pub proof fn law_new_plan_is_written_and_told<Id, Input>(
    params: ParamsView<Input>,
    world: World<Id, Input>,
    thread_id: Id,
)
    requires
        validation::refusal(params) is None,
        world.thread_id == Ok::<Id, Seq<char>>(thread_id),
        known(params, world) == Ok::<bool, ErrorView>(false),
        world.injected is Ok,
        world.appended is Ok,
    ensures
        course(params, world) == preparation(params) + seq![
            ActionView::<Id, Input>::InjectItems(context::model_context(params)),
            ActionView::AppendEvents(
                rollout::recorded_events(thread_id, params, ids::ids_of(params), world.now),
            ),
            ActionView::Finish(
                Ok(commit::committed(params, ids::ids_of(params), world.now)),
            ),
        ],
{
    lemma_steps(params, world);
    reveal_with_fuel(work, 4);
    let rest = course(params, world).skip(3);
    assert(course(params, world) =~= preparation(params) + rest);
    assert(rest =~= seq![
        ActionView::<Id, Input>::InjectItems(context::model_context(params)),
        ActionView::AppendEvents(
            rollout::recorded_events(thread_id, params, ids::ids_of(params), world.now),
        ),
        ActionView::Finish(Ok(commit::committed(params, ids::ids_of(params), world.now))),
    ]);
}

/// Where the model cannot be given the plan, nothing is recorded and clients are
/// told nothing, so that the request may be repeated.
pub proof fn law_failed_injection_records_nothing<Id, Input>(
    params: ParamsView<Input>,
    world: World<Id, Input>,
    reason: Seq<char>,
)
    requires
        validation::refusal(params) is None,
        world.thread_id is Ok,
        known(params, world) == Ok::<bool, ErrorView>(false),
        world.injected == Err::<(), Seq<char>>(reason),
    ensures
        course(params, world) == preparation(params) + seq![
            ActionView::<Id, Input>::InjectItems(context::model_context(params)),
            ActionView::Finish(
                Err(
                    ErrorView::Internal(
                        "failed to persist model-visible Superplan context: "@ + reason,
                    ),
                ),
            ),
        ],
{
    lemma_steps(params, world);
    reveal_with_fuel(work, 3);
    let rest = course(params, world).skip(3);
    assert(course(params, world) =~= preparation(params) + rest);
    assert(rest =~= seq![
        ActionView::<Id, Input>::InjectItems(context::model_context(params)),
        ActionView::Finish(
            Err(
                ErrorView::Internal(
                    "failed to persist model-visible Superplan context: "@ + reason,
                ),
            ),
        ),
    ]);
}

/// Where the events cannot be recorded, clients are told nothing.
pub proof fn law_failed_recording_tells_nothing<Id, Input>(
    params: ParamsView<Input>,
    world: World<Id, Input>,
    thread_id: Id,
    reason: Seq<char>,
)
    requires
        validation::refusal(params) is None,
        world.thread_id == Ok::<Id, Seq<char>>(thread_id),
        known(params, world) == Ok::<bool, ErrorView>(false),
        world.injected is Ok,
        world.appended == Err::<(), Seq<char>>(reason),
    ensures
        course(params, world) == preparation(params) + seq![
            ActionView::<Id, Input>::InjectItems(context::model_context(params)),
            ActionView::AppendEvents(
                rollout::recorded_events(thread_id, params, ids::ids_of(params), world.now),
            ),
            ActionView::Finish(
                Err(ErrorView::Internal("failed to persist Superplan commit events: "@ + reason)),
            ),
        ],
{
    lemma_steps(params, world);
    reveal_with_fuel(work, 4);
    let rest = course(params, world).skip(3);
    assert(course(params, world) =~= preparation(params) + rest);
    assert(rest =~= seq![
        ActionView::<Id, Input>::InjectItems(context::model_context(params)),
        ActionView::AppendEvents(
            rollout::recorded_events(thread_id, params, ids::ids_of(params), world.now),
        ),
        ActionView::Finish(
            Err(ErrorView::Internal("failed to persist Superplan commit events: "@ + reason)),
        ),
    ]);
}

/// Committing is idempotent. Once a plan was recorded, a later request that names
/// the same commit and finds the completion of the plan item in the rollout writes
/// nothing and tells nothing. Its answer is the first one, but for saying that the
/// plan was there already, provided that it gives the original request if and only
/// if the first one did, and as many context turns; otherwise it agrees in the
/// identifiers of the plan.
pub proof fn law_commit_is_idempotent<Id, Input>(
    first: ParamsView<Input>,
    later: ParamsView<Input>,
    recorded_as: Id,
    first_now: i64,
    history: Seq<RolloutItemView<Id, Input>>,
    world: World<Id, Input>,
)
    requires
        identity::same_commit(first, later),
        validation::refusal(later) is None,
        world.thread_id is Ok,
        world.lookup == LookupView::<Id, Input>::History(history),
        history.contains(
            RolloutItemView::EventMsg(
                rollout::plan_completed(
                    recorded_as,
                    ids::ids_of(first),
                    first.final_plan_markdown,
                ),
            ),
        ),
    ensures
        course(later, world) == preparation(later) + seq![
            ActionView::<Id, Input>::Finish(Ok(commit::repeated(ids::ids_of(later)))),
        ],
        commit::repeated(ids::ids_of(later)).notifications.len() == 0,
        commit::repeated(ids::ids_of(later)).response.already_committed,
        commit::repeated(ids::ids_of(later)).response.final_plan_turn_id == commit::committed(
            first,
            ids::ids_of(first),
            first_now,
        ).response.final_plan_turn_id,
        commit::repeated(ids::ids_of(later)).response.final_plan_item_id == commit::committed(
            first,
            ids::ids_of(first),
            first_now,
        ).response.final_plan_item_id,
        (first.original_user_input is Some <==> later.original_user_input is Some)
            && first.committed_visible_context_turns.len()
            == later.committed_visible_context_turns.len() ==> commit::repeated(
            ids::ids_of(later),
        ).response == (ResponseView {
            already_committed: true,
            ..commit::committed(first, ids::ids_of(first), first_now).response
        }),
{
    identity::law_ids_are_reproducible(first, later);
    recording::law_recorded_plan_is_found(
        history,
        recorded_as,
        first,
        ids::ids_of(first),
        first_now,
    );
    law_recorded_plan_is_not_written_again(later, world);
}

/// A history that holds no completion of the plan item does not keep a plan from
/// being committed.
pub proof fn law_unrelated_history_does_not_count<Id, Input>(
    params: ParamsView<Input>,
    world: World<Id, Input>,
    history: Seq<RolloutItemView<Id, Input>>,
)
    requires
        world.lookup == LookupView::<Id, Input>::History(history),
        recording::plan_count(history, ids::ids_of(params).final_plan_item_id) == 0,
    ensures
        known(params, world) == Ok::<bool, ErrorView>(false),
{
    recording::lemma_plan_count_zero(history, ids::ids_of(params).final_plan_item_id);
}

/// The identifiers that a commit carries from step to step are those of its
/// request.
pub open spec fn ids_kept<Id, Input>(params: ParamsView<Input>, state: StateView<Id>) -> bool {
    match state {
        StateView::Checking { ids, .. } => ids == ids::ids_of(params),
        StateView::Injecting { ids, .. } => ids == ids::ids_of(params),
        StateView::Recording { ids, .. } => ids == ids::ids_of(params),
        _ => true,
    }
}

/// Every step keeps the identifiers.
pub proof fn law_steps_keep_the_ids<Id, Input>(
    params: ParamsView<Input>,
    state: StateView<Id>,
    event: CommitEventView<Id, Input>,
    now: i64,
)
    requires
        ids_kept(params, state),
    ensures
        ids_kept(params, StateView::<Id>::Received),
        ids_kept(params, commit::next(params, state, event, now).0),
{
}

/// How far a commit has come.
pub open spec fn progress<Id>(state: StateView<Id>) -> int {
    match state {
        StateView::Received => 0,
        StateView::Identifying => 1,
        StateView::Materializing { .. } => 2,
        StateView::Checking { .. } => 3,
        StateView::Injecting { .. } => 4,
        StateView::Recording { .. } => 5,
        StateView::Finished => 6,
    }
}

/// A step leads on, or it waits and changes nothing. So a commit never does the
/// same piece of work twice, and its course ends.
pub proof fn law_steps_lead_on<Id, Input>(
    params: ParamsView<Input>,
    state: StateView<Id>,
    event: CommitEventView<Id, Input>,
    now: i64,
)
    ensures
        commit::next(params, state, event, now).1 is Wait ==> commit::next(
            params,
            state,
            event,
            now,
        ).0 == state,
        !(commit::next(params, state, event, now).1 is Wait) ==> progress(state) < progress(
            commit::next(params, state, event, now).0,
        ),
{
}

/// There is one answer: a commit that is finished stays so, and a step finishes it
/// exactly when it answers.
pub proof fn law_there_is_one_answer<Id, Input>(
    params: ParamsView<Input>,
    state: StateView<Id>,
    event: CommitEventView<Id, Input>,
    now: i64,
)
    ensures
        state is Finished ==> commit::next(params, state, event, now) == (
            state,
            ActionView::<Id, Input>::Wait,
        ),
        !(state is Finished) ==> (commit::next(params, state, event, now).0 is Finished
            <==> commit::next(params, state, event, now).1 is Finish),
{
}

/// The time counts only for the step that begins to write.
pub proof fn law_time_counts_once<Id, Input>(
    params: ParamsView<Input>,
    state: StateView<Id>,
    event: CommitEventView<Id, Input>,
    a: i64,
    b: i64,
)
    requires
        !(commit::next(params, state, event, a).1 is InjectItems),
    ensures
        commit::next(params, state, event, a) == commit::next(params, state, event, b),
{
}

/// A commit takes no account of the metadata of its request.
pub proof fn law_metadata_is_ignored<Id, Input>(
    params: ParamsView<Input>,
    metadata: MetadataView,
    state: StateView<Id>,
    event: CommitEventView<Id, Input>,
    now: i64,
)
    ensures
        commit::next(params, state, event, now) == commit::next(
            ParamsView { metadata, ..params },
            state,
            event,
            now,
        ),
{
}

} // verus!
