//! What holds of what a commit comes to, from the request alone and from what the
//! thread answers.

use vstd::prelude::*;

use crate::commit;
use crate::commit::ActionView;
use crate::context;
use crate::hash;
use crate::ids;
use crate::laws::answering;
use crate::laws::course;
use crate::laws::course::World;
use crate::laws::finding;
use crate::laws::identity;
use crate::laws::layout;
use crate::laws::recording;
use crate::laws::refusing;
use crate::protocol::{
    ErrorView, EventView, NotificationView, OutcomeView, ParamsView, ResponseItemView,
    ResponseView, RolloutItemView,
};
use crate::rollout;
use crate::rollout::LookupView;
use crate::validation;

verus! {

/// `told` are four notifications, one for each of the last four of `events` and in
/// their order: the turn started, its item started, its item was completed with
/// `plan`, and the turn was completed.
pub open spec fn told_as_recorded<Id, Input>(
    told: Seq<NotificationView>,
    thread_id: Seq<char>,
    plan: Seq<char>,
    events: Seq<EventView<Id, Input>>,
    now: i64,
) -> bool {
    let last = events.len() - 4;
    &&& told.len() == 4
    &&& last >= 0
    &&& forall|i: int|
        0 <= i < 4 ==> recording::tells(#[trigger] told[i], thread_id, events[last + i], now)
    &&& told[0] is TurnStarted
    &&& told[1] is ItemStarted
    &&& told[2] matches NotificationView::ItemCompleted { item, .. } && item->Plan_text == plan
    &&& told[3] is TurnCompleted
}

/// `items` and `events` are what the commit of `params` gives the model and records at
/// `now`, and `outcome` is the answer that goes with them. What is recorded reads back
/// under the identifiers of the answer, the model is given the same conversation, and
/// clients are told of the plan turn as it is recorded.
pub open spec fn written_and_told<Id, Input>(
    params: ParamsView<Input>,
    now: i64,
    items: Seq<ResponseItemView<Input>>,
    events: Seq<EventView<Id, Input>>,
    outcome: OutcomeView,
) -> bool {
    let read = recording::replay(seq![], events);
    &&& answering::reads_as_answered(read, seq![], params, outcome.response)
    &&& recording::utterances(items) == recording::turns_said(read)
    &&& params.original_user_input matches Some(inputs) ==> items[0]
        == ResponseItemView::UserInput { inputs }
    &&& told_as_recorded(
        outcome.notifications,
        params.thread_id,
        params.final_plan_markdown,
        events,
        now,
    )
}

proof fn lemma_written_and_told<Id, Input>(
    params: ParamsView<Input>,
    thread_id: Id,
    now: i64,
)
    ensures
        written_and_told(
            params,
            now,
            context::model_context(params),
            rollout::recorded_events::<Id, Input>(thread_id, params, ids::ids_of(params), now),
            commit::committed(params, ids::ids_of(params), now),
        ),
{
    let view = ids::ids_of(params);
    let events = rollout::recorded_events::<Id, Input>(thread_id, params, view, now);
    let plan = params.final_plan_markdown;
    answering::law_answer_names_what_reads_back::<Id, Input>(seq![], thread_id, params, now);
    recording::law_model_and_rollout_agree::<Id, Input>(thread_id, params, now);
    layout::law_model_is_given_everything_in_order(params);
    recording::law_clients_are_told_what_is_recorded::<Id, Input>(
        params.thread_id,
        thread_id,
        view,
        plan,
        now,
    );
    let turn = rollout::plan_turn::<Id, Input>(thread_id, view, plan, now);
    assert forall|i: int| 0 <= i < 4 implies events[events.len() - 4 + i] == #[trigger] turn[i] by {
    }
    let told = commit::committed(params, view, now).notifications;
    assert forall|i: int| 0 <= i < 4 implies recording::tells(
        #[trigger] told[i],
        params.thread_id,
        events[events.len() - 4 + i],
        now,
    ) by {
        assert(events[events.len() - 4 + i] == turn[i]);
    }
}

/// Whenever a commit ends well and says that the plan was not there before, it did its
/// work in six pieces, the last of them the answer. What it recorded reads back under
/// the identifiers of the answer. The model was given the same conversation, beginning
/// with the original request if there is one. The notifications are, one for one and in
/// order, those of the recorded events of the plan turn, whatever the context turns.
pub proof fn law_new_commit_is_told_as_recorded<Id, Input>(
    params: ParamsView<Input>,
    world: World<Id, Input>,
    outcome: OutcomeView,
)
    requires
        course::course(params, world).last() == ActionView::<Id, Input>::Finish(Ok(outcome)),
        !outcome.response.already_committed,
    ensures
        ({
            let work = course::course(params, world);
            &&& work.len() == 6
            &&& work[0] == ActionView::<Id, Input>::ParseThreadId(params.thread_id)
            &&& work[1] is MaterializeRollout
            &&& work[2] is LookUpRollout
            &&& work[3] is InjectItems
            &&& work[4] is AppendEvents
            &&& written_and_told(
                params,
                world.now,
                work[3]->InjectItems_0,
                work[4]->AppendEvents_0,
                outcome,
            )
        }),
{
    lemma_course_in_full(params, world);
    match world.thread_id {
        Ok(thread_id) => {
            lemma_written_and_told(params, thread_id, world.now);
        },
        Err(_) => {},
    }
}

/// A commit ends well, with a plan that was not there before, exactly when its texts
/// all say something, its thread identifier can be parsed, nothing in the rollout shows
/// that the plan item was completed, and both writes succeed.
pub proof fn law_when_a_new_commit_ends_well<Id, Input>(
    params: ParamsView<Input>,
    world: World<Id, Input>,
)
    ensures
        (course::course(params, world).last() matches ActionView::Finish(Ok(outcome))
            && !outcome.response.already_committed) <==> {
            &&& refusing::acceptable(params)
            &&& world.thread_id is Ok
            &&& finding::unrecorded(world.lookup, ids::ids_of(params).final_plan_item_id)
            &&& world.injected is Ok
            &&& world.appended is Ok
        },
{
    lemma_course_in_full(params, world);
}

/// A commit ends well, saying that the plan was there already, exactly when its texts
/// all say something, its thread identifier can be parsed, and the rollout holds a
/// completion of the plan item. Nothing is written then and nothing told, and the answer
/// is the one to a new commit of the same request but for saying so.
pub proof fn law_when_a_commit_was_there_already<Id, Input>(
    params: ParamsView<Input>,
    world: World<Id, Input>,
    now: i64,
)
    ensures
        ({
            let work = course::course(params, world);
            &&& (work.last() matches ActionView::Finish(Ok(outcome))
                && outcome.response.already_committed) <==> {
                &&& refusing::acceptable(params)
                &&& world.thread_id is Ok
                &&& world.lookup matches LookupView::History(history) && finding::holds_completion(
                    history,
                    ids::ids_of(params).final_plan_item_id,
                )
            }
            &&& work.last() matches ActionView::Finish(Ok(outcome)) ==> (
            outcome.response.already_committed ==> {
                &&& work.len() == 4
                &&& work[0] == ActionView::<Id, Input>::ParseThreadId(params.thread_id)
                &&& work[1] is MaterializeRollout
                &&& work[2] is LookUpRollout
                &&& outcome.notifications.len() == 0
                &&& outcome.response == (ResponseView {
                    already_committed: true,
                    ..commit::committed(params, ids::ids_of(params), now).response
                })
            })
        }),
{
    lemma_course_in_full(params, world);
}

/// A commit that does not end well tells why: the request is refused for a blank text or
/// for its thread identifier; or the rollout cannot be read; or one of the two writes
/// fails. Each comes before the next, and what would come after it is not done.
pub proof fn law_why_a_commit_fails<Id, Input>(params: ParamsView<Input>, world: World<Id, Input>)
    ensures
        ({
            let work = course::course(params, world);
            let failed = |error: ErrorView| ActionView::<Id, Input>::Finish(Err(error));
            let unrecorded = finding::unrecorded(
                world.lookup,
                ids::ids_of(params).final_plan_item_id,
            );
            &&& !refusing::acceptable(params) ==> {
                &&& work.len() == 1
                &&& work[0] == failed(
                    ErrorView::InvalidRequest(
                        if !refusing::says_something(params.job_id) {
                            "jobId must not be empty"@
                        } else if !refusing::says_something(params.idempotency_key) {
                            "idempotencyKey must not be empty"@
                        } else {
                            "finalPlanMarkdown must not be empty"@
                        },
                    ),
                )
            }
            &&& refusing::acceptable(params) ==> {
                &&& world.thread_id matches Err(reason) ==> work.len() == 2 && work[1] == failed(
                    ErrorView::InvalidRequest("invalid thread id: "@ + reason),
                )
                &&& world.thread_id is Ok ==> {
                    &&& world.lookup matches LookupView::Unreadable(reason) ==> work.len() == 4
                        && work[3] == failed(
                        ErrorView::Internal("failed to read rollout history: "@ + reason),
                    )
                    &&& unrecorded ==> {
                        &&& world.injected matches Err(reason) ==> work.len() == 5 && work[4]
                            == failed(
                            ErrorView::Internal(
                                "failed to persist model-visible Superplan context: "@ + reason,
                            ),
                        )
                        &&& world.injected is Ok ==> (world.appended matches Err(reason)
                            ==> work.len() == 6 && work[5] == failed(
                            ErrorView::Internal(
                                "failed to persist Superplan commit events: "@ + reason,
                            ),
                        ))
                    }
                }
            }
        }),
{
    lemma_course_in_full(params, world);
    refusing::law_blank_texts_are_refused(params);
}

/// Committing twice. Once a commit has recorded its events, a later request that names
/// the same commit, and finds those events among whatever else the rollout holds, is
/// answered without writing or telling anything, and under the same plan identifiers.
/// The whole answer is the same but for saying so, provided that both requests or
/// neither give the original request, and both have as many context turns.
pub proof fn law_second_commit_repeats_the_answer<Id, Input>(
    first: ParamsView<Input>,
    first_world: World<Id, Input>,
    answer: OutcomeView,
    second: ParamsView<Input>,
    second_world: World<Id, Input>,
    before: Seq<RolloutItemView<Id, Input>>,
    after: Seq<RolloutItemView<Id, Input>>,
)
    requires
        course::course(first, first_world).last() == ActionView::<Id, Input>::Finish(Ok(answer)),
        !answer.response.already_committed,
        identity::same_commit(first, second),
        refusing::acceptable(second),
        second_world.thread_id is Ok,
        second_world.lookup == LookupView::History(
            before + recording::as_history(course::course(first, first_world)[4]->AppendEvents_0)
                + after,
        ),
    ensures
        ({
            let work = course::course(second, second_world);
            &&& work.len() == 4
            &&& work[3] matches ActionView::Finish(Ok(again))
            &&& again.notifications.len() == 0
            &&& again.response.already_committed
            &&& again.response.final_plan_turn_id == answer.response.final_plan_turn_id
            &&& again.response.final_plan_item_id == answer.response.final_plan_item_id
            &&& (first.original_user_input is Some <==> second.original_user_input is Some)
                && first.committed_visible_context_turns.len()
                == second.committed_visible_context_turns.len() ==> again.response == (
            ResponseView { already_committed: true, ..answer.response })
        }),
{
    lemma_course_in_full(first, first_world);
    lemma_course_in_full(second, second_world);
    identity::law_ids_are_reproducible(first, second);
    let view = ids::ids_of(first);
    let thread_id = first_world.thread_id->Ok_0;
    let events = rollout::recorded_events::<Id, Input>(thread_id, first, view, first_world.now);
    let history = before + recording::as_history(events) + after;
    let place = before.len() + events.len() - 2;
    layout::law_everything_is_recorded_in_order::<Id, Input>(
        thread_id,
        first,
        view,
        first_world.now,
    );
    assert(history[place] == RolloutItemView::EventMsg(events[events.len() - 2]));
    assert(history[place] == RolloutItemView::<Id, Input>::EventMsg(
        finding::completion_in(
            thread_id,
            view.final_plan_turn_id,
            view.final_plan_item_id,
            first.final_plan_markdown,
        ),
    ));
    assert(finding::is_completion(history[place], view.final_plan_item_id));
}

/// A commit does not stand in the way of another. The events of one, wherever they stand
/// in the rollout, do not count for a request whose thread, job and idempotency key have
/// another hash.
pub proof fn law_other_commits_do_not_count<Id, Input>(
    first: ParamsView<Input>,
    first_world: World<Id, Input>,
    answer: OutcomeView,
    second: ParamsView<Input>,
    before: Seq<RolloutItemView<Id, Input>>,
    after: Seq<RolloutItemView<Id, Input>>,
)
    requires
        course::course(first, first_world).last() == ActionView::<Id, Input>::Finish(Ok(answer)),
        !answer.response.already_committed,
        hash::text_hash(
            first.thread_id + "\n"@ + first.job_id + "\n"@ + first.idempotency_key,
        ) != hash::text_hash(
            second.thread_id + "\n"@ + second.job_id + "\n"@ + second.idempotency_key,
        ),
    ensures
        finding::unrecorded(
            LookupView::History(
                before + recording::as_history(
                    course::course(first, first_world)[4]->AppendEvents_0,
                ) + after,
            ),
            ids::ids_of(second).final_plan_item_id,
        ) <==> finding::unrecorded(
            LookupView::History(before + after),
            ids::ids_of(second).final_plan_item_id,
        ),
{
    lemma_course_in_full(first, first_world);
    identity::law_plan_item_id_shows_the_hash(first, second);
    let view = ids::ids_of(first);
    let other = ids::ids_of(second).final_plan_item_id;
    let thread_id = first_world.thread_id->Ok_0;
    let events = rollout::recorded_events::<Id, Input>(thread_id, first, view, first_world.now);
    let written = recording::as_history(events);
    recording::law_no_other_plan_is_recorded::<Id, Input>(
        thread_id,
        first,
        view,
        first_world.now,
        other,
    );
    finding::law_completion_is_what_counts(before + written + after, seq![], other);
    finding::law_completion_is_what_counts(before + after, seq![], other);
    finding::law_completion_is_found_anywhere(before + written, after, other);
    finding::law_completion_is_found_anywhere(before, written, other);
    finding::law_completion_is_found_anywhere(before, after, other);
}

/// The course of a commit in each case.
proof fn lemma_course_in_full<Id, Input>(params: ParamsView<Input>, world: World<Id, Input>)
    ensures
        ({
            let work = course::course(params, world);
            let view = ids::ids_of(params);
            let start = course::preparation::<Id, Input>(params);
            let id = view.final_plan_item_id;
            let items = ActionView::<Id, Input>::InjectItems(context::model_context(params));
            if !refusing::acceptable(params) {
                &&& validation::refusal(params) is Some
                &&& work == seq![
                    ActionView::<Id, Input>::Finish(Err(validation::refusal(params)->0)),
                ]
            } else {
                match world.thread_id {
                    Err(reason) => work == seq![
                        start[0],
                        ActionView::Finish(
                            Err(ErrorView::InvalidRequest("invalid thread id: "@ + reason)),
                        ),
                    ],
                    Ok(thread_id) => {
                        let events = ActionView::<Id, Input>::AppendEvents(
                            rollout::recorded_events(thread_id, params, view, world.now),
                        );
                        if !finding::unrecorded(world.lookup, id) {
                            match world.lookup {
                                LookupView::Unreadable(reason) => work == start.push(
                                    ActionView::Finish(
                                        Err(
                                            ErrorView::Internal(
                                                "failed to read rollout history: "@ + reason,
                                            ),
                                        ),
                                    ),
                                ),
                                _ => work == start.push(
                                    ActionView::Finish(Ok(commit::repeated(view))),
                                ),
                            }
                        } else {
                            match (world.injected, world.appended) {
                                (Err(reason), _) => work == start.push(items).push(
                                    ActionView::Finish(
                                        Err(
                                            ErrorView::Internal(
                                                "failed to persist model-visible Superplan context: "@
                                                    + reason,
                                            ),
                                        ),
                                    ),
                                ),
                                (Ok(_), Err(reason)) => work == start.push(items).push(events).push(
                                    ActionView::Finish(
                                        Err(
                                            ErrorView::Internal(
                                                "failed to persist Superplan commit events: "@
                                                    + reason,
                                            ),
                                        ),
                                    ),
                                ),
                                (Ok(_), Ok(_)) => work == start.push(items).push(events).push(
                                    ActionView::Finish(
                                        Ok(commit::committed(params, view, world.now)),
                                    ),
                                ),
                            }
                        }
                    },
                }
            }
        }),
{
    let id = ids::ids_of(params).final_plan_item_id;
    refusing::law_blank_texts_are_refused(params);
    if !refusing::acceptable(params) {
        course::law_refused_request_does_nothing(params, world);
    } else {
        match world.thread_id {
            Err(reason) => {
                course::law_bad_thread_id_is_refused(params, world, reason);
            },
            Ok(thread_id) => {
                match world.lookup {
                    LookupView::Unreadable(reason) => {
                        course::law_unreadable_rollout_stops_the_commit(params, world, reason);
                    },
                    LookupView::History(history) => {
                        finding::law_completion_is_what_counts(history, seq![], id);
                    },
                    _ => {},
                }
                if finding::unrecorded(world.lookup, id) {
                    match (world.injected, world.appended) {
                        (Err(reason), _) => {
                            course::law_failed_injection_records_nothing(params, world, reason);
                        },
                        (Ok(_), Err(reason)) => {
                            course::law_failed_recording_tells_nothing(
                                params,
                                world,
                                thread_id,
                                reason,
                            );
                        },
                        (Ok(_), Ok(_)) => {
                            course::law_new_plan_is_written_and_told(params, world, thread_id);
                        },
                    }
                } else if world.lookup is History {
                    course::law_recorded_plan_is_not_written_again(params, world);
                }
            },
        }
    }
}

} // verus!
