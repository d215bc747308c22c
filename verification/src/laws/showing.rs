//! What holds of the views: each shows every field of its value as it is, so what is
//! said of a view is said of the value.

use vstd::prelude::*;

use crate::commit::{
    ActionView, CommitAction, CommitEvent, CommitEventView, CommitState, StateView,
};
use crate::ids::SuperplanCommitIds;
use crate::protocol;
use crate::protocol::{
    AgentMessageEvent, CommittedVisibleContextItem, CommittedVisibleContextTurn, ContentItem,
    ContentItemView, ContextItemView, ErrorView, EventMsg, EventView, NotificationView, ResponseItem, ResponseItemView, RolloutItem,
    RolloutItemView, ServerNotification, SuperplanCommitError, SuperplanCommitMetadata,
    SuperplanCommitOutcome, ThreadItem, ThreadItemView, ThreadSuperplanCommitParams,
    ThreadSuperplanCommitResponse, Turn, TurnCompleteEvent, TurnItem, TurnItemView,
    TurnStartedEvent, UserMessageEvent,
};
use crate::rollout::{LookupView, RolloutLookup};

verus! {

/// `shown` shows each of `values`, in order, and no more.
pub open spec fn shows_each<T: View>(shown: Seq<T::V>, values: Seq<T>) -> bool {
    &&& shown.len() == values.len()
    &&& forall|i: int| 0 <= i < values.len() ==> shown[i] == #[trigger] values[i]@
}

/// `shown` shows a text exactly when there is one.
pub open spec fn shows_text(shown: Option<Seq<char>>, text: Option<String>) -> bool {
    &&& shown is Some <==> text is Some
    &&& text is Some ==> shown->0 == text->0@
}

/// The views of values are the views of each of them, in order.
pub proof fn law_views_show_each_value<T: View>(values: Seq<T>, text: Option<String>)
    ensures
        shows_each(protocol::views(values), values),
        shows_text(protocol::text_view(text), text),
{
}

/// The view of a request shows all of it.
pub proof fn law_request_is_shown<Input>(
    params: ThreadSuperplanCommitParams<Input>,
    metadata: SuperplanCommitMetadata,
    turn: CommittedVisibleContextTurn<Input>,
    item: CommittedVisibleContextItem<Input>,
)
    ensures
        params@.thread_id == params.thread_id@,
        params@.job_id == params.job_id@,
        params@.idempotency_key == params.idempotency_key@,
        params@.original_user_input is Some <==> params.original_user_input is Some,
        params.original_user_input is Some ==> params@.original_user_input->0
            == params.original_user_input->0@,
        shows_each(
            params@.committed_visible_context_turns,
            params.committed_visible_context_turns@,
        ),
        params@.final_plan_markdown == params.final_plan_markdown@,
        params@.metadata == params.metadata@,
        metadata@.original_command_text == metadata.original_command_text@,
        metadata@.outer_rounds_completed == metadata.outer_rounds_completed,
        metadata@.planner_q_and_a_count == metadata.planner_q_and_a_count,
        shows_each(turn@, turn.items@),
        match item {
            CommittedVisibleContextItem::UserMessage { content } => item@
                == ContextItemView::UserMessage { content: content@ },
            CommittedVisibleContextItem::AgentMessage { text } => item@
                == ContextItemView::<Input>::AgentMessage { text: text@ },
        },
{
}

/// The view of an answer, and of the identifiers that it is made from, shows all of it.
pub proof fn law_answer_is_shown(
    ids: SuperplanCommitIds,
    response: ThreadSuperplanCommitResponse,
    outcome: SuperplanCommitOutcome,
    error: SuperplanCommitError,
)
    ensures
        shows_text(ids@.original_request_turn_id, ids.original_request_turn_id),
        shows_each(
            ids@.committed_visible_context_turn_ids,
            ids.committed_visible_context_turn_ids@,
        ),
        ids@.final_plan_turn_id == ids.final_plan_turn_id@,
        ids@.final_plan_item_id == ids.final_plan_item_id@,
        shows_text(response@.original_request_turn_id, response.original_request_turn_id),
        shows_each(
            response@.committed_visible_context_turn_ids,
            response.committed_visible_context_turn_ids@,
        ),
        response@.final_plan_turn_id == response.final_plan_turn_id@,
        response@.final_plan_item_id == response.final_plan_item_id@,
        response@.already_committed == response.already_committed,
        outcome@.response == outcome.response@,
        shows_each(outcome@.notifications, outcome.notifications@),
        match error {
            SuperplanCommitError::InvalidRequest(message) => error@ == ErrorView::InvalidRequest(
                message@,
            ),
            SuperplanCommitError::Internal(message) => error@ == ErrorView::Internal(message@),
        },
{
}

/// The view of what the model is given shows all of it.
pub proof fn law_model_item_is_shown<'a, Input>(item: ResponseItem<'a, Input>, part: ContentItem)
    ensures
        match item {
            ResponseItem::UserInput { inputs } => item@ == ResponseItemView::UserInput {
                inputs: inputs@,
            },
            ResponseItem::Message { id, role, content, end_turn, phase } => {
                &&& item@ is Message
                &&& shows_text(item@->id, id)
                &&& item@->role == role@
                &&& shows_each(item@->content, content@)
                &&& item@->end_turn == end_turn
                &&& item@->phase == phase
            },
        },
        match part {
            ContentItem::OutputText { text } => part@ == ContentItemView::OutputText {
                text: text@,
            },
        },
{
}

/// The view of a recorded item shows all of it.
pub proof fn law_recorded_item_is_shown<'a, Id, Input>(
    item: RolloutItem<'a, Id, Input>,
    event: EventMsg<'a, Id, Input>,
)
    ensures
        match item {
            RolloutItem::EventMsg(event) => item@ == RolloutItemView::EventMsg(event@),
            RolloutItem::Other => item@ is Other,
        },
        match event {
            EventMsg::TurnStarted(start) => event@ == EventView::<Id, Input>::TurnStarted(start@),
            EventMsg::UserMessage(said) => event@ == EventView::<Id, Input>::UserMessage {
                inputs: said@,
            },
            EventMsg::AgentMessage(said) => event@ == EventView::<Id, Input>::AgentMessage(said@),
            EventMsg::ItemStarted(started) => event@ == EventView::<Id, Input>::ItemStarted {
                thread_id: started.thread_id,
                turn_id: started.turn_id@,
                item: started.item@,
            },
            EventMsg::ItemCompleted(done) => event@ == EventView::<Id, Input>::ItemCompleted {
                thread_id: done.thread_id,
                turn_id: done.turn_id@,
                item: done.item@,
            },
            EventMsg::TurnComplete(end) => event@ == EventView::<Id, Input>::TurnComplete(end@),
            EventMsg::Other => event@ is Other,
        },
{
}

/// The view of what a recorded event holds shows all of it.
pub proof fn law_recorded_event_is_shown<'a, Input>(
    start: TurnStartedEvent,
    heard: UserMessageEvent<'a, Input>,
    said: AgentMessageEvent,
    item: TurnItem,
    end: TurnCompleteEvent,
)
    ensures
        start@.turn_id == start.turn_id@,
        start@.started_at == start.started_at,
        start@.model_context_window == start.model_context_window,
        start@.collaboration_mode_kind == start.collaboration_mode_kind,
        heard@ == heard.inputs@,
        said@.message == said.message@,
        said@.phase == said.phase,
        shows_text(said@.memory_citation, said.memory_citation),
        match item {
            TurnItem::Plan(plan) => item@ == TurnItemView::Plan { id: plan.id@, text: plan.text@ },
            TurnItem::Other => item@ is Other,
        },
        end@.turn_id == end.turn_id@,
        shows_text(end@.last_agent_message, end.last_agent_message),
        end@.completed_at == end.completed_at,
        end@.duration_ms == end.duration_ms,
{
}

/// The view of what clients are told shows all of it.
pub proof fn law_notification_is_shown(
    notification: ServerNotification,
    turn: Turn,
    item: ThreadItem,
)
    ensures
        match notification {
            ServerNotification::TurnStarted(told) => notification@
                == NotificationView::TurnStarted {
                thread_id: told.thread_id@,
                turn: told.turn@,
            },
            ServerNotification::ItemStarted(told) => notification@
                == NotificationView::ItemStarted {
                thread_id: told.thread_id@,
                turn_id: told.turn_id@,
                item: told.item@,
            },
            ServerNotification::ItemCompleted(told) => notification@
                == NotificationView::ItemCompleted {
                thread_id: told.thread_id@,
                turn_id: told.turn_id@,
                item: told.item@,
            },
            ServerNotification::TurnCompleted(told) => notification@
                == NotificationView::TurnCompleted {
                thread_id: told.thread_id@,
                turn: told.turn@,
            },
        },
        turn@.id == turn.id@,
        shows_each(turn@.items, turn.items@),
        turn@.status == turn.status,
        shows_text(turn@.error, turn.error),
        turn@.started_at == turn.started_at,
        turn@.completed_at == turn.completed_at,
        turn@.duration_ms == turn.duration_ms,
        match item {
            ThreadItem::Plan { id, text } => item@ == ThreadItemView::Plan {
                id: id@,
                text: text@,
            },
        },
{
}

/// The view of what came of looking for a rollout shows all of it.
pub proof fn law_lookup_is_shown<'a, Id, Input>(lookup: RolloutLookup<'a, Id, Input>)
    ensures
        match lookup {
            RolloutLookup::NoPath => lookup@ is NoPath,
            RolloutLookup::Missing => lookup@ is Missing,
            RolloutLookup::Unreadable(reason) => lookup@ == LookupView::<Id, Input>::Unreadable(
                reason@,
            ),
            RolloutLookup::History(items) => {
                &&& lookup@ is History
                &&& shows_each(lookup@->History_0, items@)
            },
        },
{
}

/// `shown` is a result as it is, a failure with its reason.
pub open spec fn shows_result<T>(shown: Result<T, Seq<char>>, result: Result<T, String>) -> bool {
    match result {
        Ok(value) => shown == Ok::<T, Seq<char>>(value),
        Err(reason) => shown == Err::<T, Seq<char>>(reason@),
    }
}

/// The view of what came of a piece of work shows all of it.
pub proof fn law_event_is_shown<'a, Id, Input>(event: CommitEvent<'a, Id, Input>)
    ensures
        match event {
            CommitEvent::Begin => event@ is Begin,
            CommitEvent::ThreadIdParsed(result) => {
                &&& event@ is ThreadIdParsed
                &&& shows_result(event@->ThreadIdParsed_0, result)
            },
            CommitEvent::RolloutMaterialized => event@ is RolloutMaterialized,
            CommitEvent::RolloutLookedUp(lookup) => event@ == CommitEventView::RolloutLookedUp(
                lookup@,
            ),
            CommitEvent::ItemsInjected(result) => {
                &&& event@ is ItemsInjected
                &&& shows_result(event@->ItemsInjected_0, result)
            },
            CommitEvent::EventsAppended(result) => {
                &&& event@ is EventsAppended
                &&& shows_result(event@->EventsAppended_0, result)
            },
        },
{
}

/// The view of a commit's state, and of the next piece of work, shows all of it.
pub proof fn law_step_is_shown<'a, Id, Input>(
    state: CommitState<Id>,
    action: CommitAction<'a, Id, Input>,
)
    ensures
        match state {
            CommitState::Received => state@ is Received,
            CommitState::Identifying => state@ is Identifying,
            CommitState::Materializing { thread_id } => state@ == StateView::Materializing {
                thread_id,
            },
            CommitState::Checking { thread_id, ids } => state@ == StateView::Checking {
                thread_id,
                ids: ids@,
            },
            CommitState::Injecting { thread_id, ids, now } => state@ == StateView::Injecting {
                thread_id,
                ids: ids@,
                now,
            },
            CommitState::Recording { ids, now } => state@ == StateView::<Id>::Recording {
                ids: ids@,
                now,
            },
            CommitState::Finished => state@ is Finished,
        },
        match action {
            CommitAction::ParseThreadId(text) => action@ == ActionView::<Id, Input>::ParseThreadId(
                text@,
            ),
            CommitAction::MaterializeRollout => action@ is MaterializeRollout,
            CommitAction::LookUpRollout => action@ is LookUpRollout,
            CommitAction::InjectItems(items) => {
                &&& action@ is InjectItems
                &&& shows_each(action@->InjectItems_0, items@)
            },
            CommitAction::AppendEvents(events) => {
                &&& action@ is AppendEvents
                &&& shows_each(action@->AppendEvents_0, events@)
            },
            CommitAction::Finish(answer) => {
                &&& action@ is Finish
                &&& match answer {
                    Ok(outcome) => action@->Finish_0 == Ok::<_, ErrorView>(outcome@),
                    Err(error) => action@->Finish_0 == Err::<protocol::OutcomeView, _>(error@),
                }
            },
            CommitAction::Wait => action@ is Wait,
        },
{
}

} // verus!
