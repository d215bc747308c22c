//! What holds of the single steps of a commit, whatever identifiers it carries.

use vstd::prelude::*;

use crate::commit;
use crate::commit::{ActionView, CommitEventView, StateView};
use crate::context;
use crate::ids;
use crate::ids::IdsView;
use crate::laws::finding;
use crate::laws::outcome;
use crate::laws::recording;
use crate::laws::refusing;
use crate::protocol::{ErrorView, OutcomeView, ParamsView};
use crate::rollout;
use crate::rollout::LookupView;

verus! {

/// `event` is what a commit in `state` waits for.
pub open spec fn awaited<Id, Input>(
    state: StateView<Id>,
    event: CommitEventView<Id, Input>,
) -> bool {
    ||| state is Received && event is Begin
    ||| state is Identifying && event is ThreadIdParsed
    ||| state is Materializing && event is RolloutMaterialized
    ||| state is Checking && event is RolloutLookedUp
    ||| state is Injecting && event is ItemsInjected
    ||| state is Recording && event is EventsAppended
}

/// A step waits, and changes nothing, exactly when the event is not the one that the
/// commit waits for.
pub proof fn law_only_the_awaited_event_counts<Id, Input>(
    params: ParamsView<Input>,
    state: StateView<Id>,
    event: CommitEventView<Id, Input>,
    now: i64,
)
    ensures
        commit::next(params, state, event, now).1 is Wait <==> !awaited(state, event),
        !awaited(state, event) ==> commit::next(params, state, event, now).0 == state,
{
}

/// A request is taken up, with the thread identifier as it stands in it, exactly when
/// its texts all say something; then the rollout is brought into being, for the
/// identifier as it was parsed, and read.
pub proof fn law_steps_before_reading<Id, Input>(
    params: ParamsView<Input>,
    thread_id: Id,
    reason: Seq<char>,
    now: i64,
)
    ensures
        commit::next(params, StateView::<Id>::Received, CommitEventView::<Id, Input>::Begin, now)
            == (StateView::<Id>::Identifying, ActionView::<Id, Input>::ParseThreadId(
            params.thread_id,
        )) <==> refusing::acceptable(params),
        !refusing::acceptable(params) ==> {
            let step = commit::next(
                params,
                StateView::<Id>::Received,
                CommitEventView::<Id, Input>::Begin,
                now,
            );
            &&& step.0 is Finished
            &&& step.1 is Finish
            &&& step.1->Finish_0 is Err
        },
        commit::next(
            params,
            StateView::<Id>::Identifying,
            CommitEventView::<Id, Input>::ThreadIdParsed(Ok(thread_id)),
            now,
        ) == (StateView::Materializing { thread_id }, ActionView::<Id, Input>::MaterializeRollout),
        commit::next(
            params,
            StateView::<Id>::Identifying,
            CommitEventView::<Id, Input>::ThreadIdParsed(Err(reason)),
            now,
        ) == (
            StateView::<Id>::Finished,
            ActionView::<Id, Input>::Finish(
                Err(ErrorView::InvalidRequest("invalid thread id: "@ + reason)),
            ),
        ),
        commit::next(
            params,
            StateView::Materializing { thread_id },
            CommitEventView::<Id, Input>::RolloutMaterialized,
            now,
        ) == (
            StateView::Checking { thread_id, ids: ids::ids_of(params) },
            ActionView::<Id, Input>::LookUpRollout,
        ),
{
    refusing::law_blank_texts_are_refused(params);
}

/// `outcome` hands out `ids` as they are.
pub open spec fn hands_out(outcome: OutcomeView, ids: IdsView) -> bool {
    &&& outcome.response.original_request_turn_id == ids.original_request_turn_id
    &&& outcome.response.committed_visible_context_turn_ids
        == ids.committed_visible_context_turn_ids
    &&& outcome.response.final_plan_turn_id == ids.final_plan_turn_id
    &&& outcome.response.final_plan_item_id == ids.final_plan_item_id
}

/// Once the rollout was looked for, a commit answers under the identifiers that it
/// carries if it finds their plan item completed there, fails if it cannot read the
/// rollout, and begins to write otherwise: at the time of the step, for the same thread
/// and under the same identifiers.
pub proof fn law_steps_after_reading<Id, Input>(
    params: ParamsView<Input>,
    thread_id: Id,
    ids: IdsView,
    lookup: LookupView<Id, Input>,
    now: i64,
)
    ensures
        ({
            let step = commit::next(
                params,
                StateView::Checking { thread_id, ids },
                CommitEventView::RolloutLookedUp(lookup),
                now,
            );
            let id = ids.final_plan_item_id;
            &&& finding::unrecorded(lookup, id) ==> step == (
                StateView::Injecting { thread_id, ids, now },
                ActionView::<Id, Input>::InjectItems(context::model_context(params)),
            )
            &&& finding::unrecorded(lookup, id) ==> step == commit::begin_writing(
                params,
                thread_id,
                ids,
                now,
            )
            &&& lookup matches LookupView::Unreadable(reason) ==> step == (
                StateView::<Id>::Finished,
                ActionView::<Id, Input>::Finish(
                    Err(ErrorView::Internal("failed to read rollout history: "@ + reason)),
                ),
            )
            &&& lookup matches LookupView::History(history) ==> (finding::holds_completion(
                history,
                id,
            ) ==> {
                &&& step.0 is Finished
                &&& step.1 matches ActionView::Finish(Ok(outcome))
                &&& hands_out(outcome, ids)
                &&& outcome.response.already_committed
                &&& outcome.notifications.len() == 0
            })
        }),
{
    match lookup {
        LookupView::History(history) => {
            finding::law_completion_is_what_counts(history, seq![], ids.final_plan_item_id);
        },
        _ => {},
    }
}

/// A commit begins to write with what the model is given, and keeps thread, identifiers
/// and time for what follows.
pub proof fn law_writing_begins_with_the_model<Id, Input>(
    params: ParamsView<Input>,
    thread_id: Id,
    ids: IdsView,
    now: i64,
)
    ensures
        commit::begin_writing(params, thread_id, ids, now) == (
            StateView::Injecting { thread_id, ids, now },
            ActionView::<Id, Input>::InjectItems(context::model_context(params)),
        ),
{
}

/// What is recorded and told once the model was given the plan goes by the thread, the
/// identifiers and the time that the commit carries, whatever the time of the step.
pub proof fn law_steps_after_writing_began<Id, Input>(
    params: ParamsView<Input>,
    thread_id: Id,
    ids: IdsView,
    began: i64,
    reason: Seq<char>,
    now: i64,
)
    ensures
        ({
            let events = rollout::recorded_events::<Id, Input>(thread_id, params, ids, began);
            let recorded = commit::next(
                params,
                StateView::<Id>::Recording { ids, now: began },
                CommitEventView::<Id, Input>::EventsAppended(Ok(())),
                now,
            );
            &&& commit::next(
                params,
                StateView::Injecting { thread_id, ids, now: began },
                CommitEventView::<Id, Input>::ItemsInjected(Ok(())),
                now,
            ) == (StateView::<Id>::Recording { ids, now: began }, ActionView::AppendEvents(events))
            &&& commit::next(
                params,
                StateView::Injecting { thread_id, ids, now: began },
                CommitEventView::<Id, Input>::ItemsInjected(Err(reason)),
                now,
            ) == (
                StateView::<Id>::Finished,
                ActionView::<Id, Input>::Finish(
                    Err(
                        ErrorView::Internal(
                            "failed to persist model-visible Superplan context: "@ + reason,
                        ),
                    ),
                ),
            )
            &&& commit::next(
                params,
                StateView::<Id>::Recording { ids, now: began },
                CommitEventView::<Id, Input>::EventsAppended(Err(reason)),
                now,
            ) == (
                StateView::<Id>::Finished,
                ActionView::<Id, Input>::Finish(
                    Err(
                        ErrorView::Internal(
                            "failed to persist Superplan commit events: "@ + reason,
                        ),
                    ),
                ),
            )
            &&& recorded.0 is Finished
            &&& recorded.1 matches ActionView::Finish(Ok(outcome))
            &&& hands_out(outcome, ids)
            &&& !outcome.response.already_committed
            &&& outcome::told_as_recorded(
                outcome.notifications,
                params.thread_id,
                params.final_plan_markdown,
                events,
                began,
            )
        }),
{
    let plan = params.final_plan_markdown;
    let events = rollout::recorded_events::<Id, Input>(thread_id, params, ids, began);
    let turn = rollout::plan_turn::<Id, Input>(thread_id, ids, plan, began);
    recording::law_clients_are_told_what_is_recorded::<Id, Input>(
        params.thread_id,
        thread_id,
        ids,
        plan,
        began,
    );
    let told = commit::committed(params, ids, began).notifications;
    assert forall|i: int| 0 <= i < 4 implies recording::tells(
        #[trigger] told[i],
        params.thread_id,
        events[events.len() - 4 + i],
        began,
    ) by {
        assert(events[events.len() - 4 + i] == turn[i]);
    }
}

} // verus!
