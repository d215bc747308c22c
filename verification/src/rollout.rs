//! The events that a commit records in the thread's rollout, and how an earlier
//! commit is found there.

use vstd::prelude::*;

use crate::ids::{IdsView, SuperplanCommitIds};
use crate::protocol;
use crate::protocol::{
    AgentMessageEvent, AgentMessageView, CommittedVisibleContextItem, CommittedVisibleContextTurn,
    ContextItemView, ErrorView, EventMsg, EventView, ItemCompletedEvent, ItemStartedEvent, ModeKind,
    ParamsView, PlanItem, RolloutItem, RolloutItemView, SuperplanCommitError,
    ThreadSuperplanCommitParams, TurnCompleteEvent, TurnCompleteView, TurnItem, TurnItemView,
    TurnStartedEvent, TurnStartedView, UserMessageEvent,
};

verus! {

// ---------------------------------------------------------------------------
// What is recorded
// ---------------------------------------------------------------------------
/// The start of turn `turn_id` at `now`.
pub open spec fn started(turn_id: Seq<char>, now: i64) -> TurnStartedView {
    TurnStartedView {
        turn_id,
        started_at: Some(now),
        model_context_window: None,
        collaboration_mode_kind: ModeKind::Plan,
    }
}

/// The end of turn `turn_id` at `now`, with no time spent in it.
pub open spec fn completed(turn_id: Seq<char>, now: i64) -> TurnCompleteView {
    TurnCompleteView {
        turn_id,
        last_agent_message: None,
        completed_at: Some(now),
        duration_ms: Some(0),
    }
}

/// The turn in which the user said `inputs`.
pub open spec fn user_turn<Id, Input>(
    turn_id: Seq<char>,
    inputs: Seq<Input>,
    now: i64,
) -> Seq<EventView<Id, Input>> {
    seq![
        EventView::TurnStarted(started(turn_id, now)),
        EventView::UserMessage { inputs },
        EventView::TurnComplete(completed(turn_id, now)),
    ]
}

/// What is recorded of something said in a context turn.
pub open spec fn context_event<Id, Input>(item: ContextItemView<Input>) -> EventView<Id, Input> {
    match item {
        ContextItemView::UserMessage { content } => EventView::UserMessage { inputs: content },
        ContextItemView::AgentMessage { text } => EventView::AgentMessage(
            AgentMessageView { message: text, phase: None, memory_citation: None },
        ),
    }
}

/// What is recorded of all that was said in a context turn.
pub open spec fn context_events<Id, Input>(turn: Seq<ContextItemView<Input>>) -> Seq<
    EventView<Id, Input>,
> {
    Seq::new(turn.len(), |i: int| context_event(turn[i]))
}

/// A context turn, from its start to its end.
pub open spec fn context_turn<Id, Input>(
    turn_id: Seq<char>,
    turn: Seq<ContextItemView<Input>>,
    now: i64,
) -> Seq<EventView<Id, Input>> {
    seq![EventView::TurnStarted(started(turn_id, now))] + context_events(turn) + seq![
        EventView::TurnComplete(completed(turn_id, now)),
    ]
}

/// The context turns, each under the identifier in its place.
pub open spec fn context_turns<Id, Input>(
    turn_ids: Seq<Seq<char>>,
    turns: Seq<Seq<ContextItemView<Input>>>,
    now: i64,
) -> Seq<Seq<EventView<Id, Input>>> {
    Seq::new(
        if turn_ids.len() < turns.len() {
            turn_ids.len()
        } else {
            turns.len()
        },
        |i: int| context_turn(turn_ids[i], turns[i], now),
    )
}

/// The turn of the original request, where there is both a request and an
/// identifier for it.
pub open spec fn request_turn<Id, Input>(
    turn_id: Option<Seq<char>>,
    request: Option<Seq<Input>>,
    now: i64,
) -> Seq<EventView<Id, Input>> {
    match (turn_id, request) {
        (Some(turn_id), Some(inputs)) => user_turn(turn_id, inputs, now),
        _ => seq![],
    }
}

/// The completion of the plan item.
pub open spec fn plan_completed<Id, Input>(
    thread_id: Id,
    ids: IdsView,
    plan: Seq<char>,
) -> EventView<Id, Input> {
    EventView::ItemCompleted {
        thread_id,
        turn_id: ids.final_plan_turn_id,
        item: TurnItemView::Plan { id: ids.final_plan_item_id, text: plan },
    }
}

/// The turn of the plan: its item starts empty and is completed with the plan.
pub open spec fn plan_turn<Id, Input>(
    thread_id: Id,
    ids: IdsView,
    plan: Seq<char>,
    now: i64,
) -> Seq<EventView<Id, Input>> {
    seq![
        EventView::TurnStarted(started(ids.final_plan_turn_id, now)),
        EventView::ItemStarted {
            thread_id,
            turn_id: ids.final_plan_turn_id,
            item: TurnItemView::Plan { id: ids.final_plan_item_id, text: Seq::empty() },
        },
        plan_completed(thread_id, ids, plan),
        EventView::TurnComplete(completed(ids.final_plan_turn_id, now)),
    ]
}

/// All that a commit records: the turn of the request, the context turns, and
/// the turn of the plan.
pub open spec fn recorded_events<Id, Input>(
    thread_id: Id,
    params: ParamsView<Input>,
    ids: IdsView,
    now: i64,
) -> Seq<EventView<Id, Input>> {
    request_turn(ids.original_request_turn_id, params.original_user_input, now) + context_turns(
        ids.committed_visible_context_turn_ids,
        params.committed_visible_context_turns,
        now,
    ).flatten() + plan_turn(thread_id, ids, params.final_plan_markdown, now)
}

/// The start of turn `turn_id` at `now`.
pub fn turn_started(turn_id: String, now: i64) -> (event: TurnStartedEvent)
    ensures
        event@ == started(turn_id@, now),
{
    TurnStartedEvent {
        turn_id,
        started_at: Some(now),
        model_context_window: None,
        collaboration_mode_kind: ModeKind::Plan,
    }
}

/// The end of turn `turn_id` at `now`, with no time spent in it.
pub fn turn_complete(turn_id: String, now: i64) -> (event: TurnCompleteEvent)
    ensures
        event@ == completed(turn_id@, now),
{
    TurnCompleteEvent {
        turn_id,
        last_agent_message: None,
        completed_at: Some(now),
        duration_ms: Some(0),
    }
}

/// The event that `user_input` amounts to, as a message of the user. It carries the
/// inputs themselves: how they are stored is settled where the event is appended.
pub fn user_message_event<'a, Input>(user_input: &'a [Input]) -> (event: UserMessageEvent<
    'a,
    Input,
>)
    ensures
        event@ == user_input@,
{
    UserMessageEvent { inputs: user_input }
}

/// Records a turn in which the user said `user_input`.
pub fn push_user_turn_events<'a, Id, Input>(
    events: &mut Vec<EventMsg<'a, Id, Input>>,
    turn_id: &str,
    user_input: &'a [Input],
    now: i64,
)
    ensures
        protocol::views(final(events)@) == protocol::views(old(events)@) + user_turn(
            turn_id@,
            user_input@,
            now,
        ),
{
    broadcast use protocol::lemma_views_push;

    events.push(EventMsg::TurnStarted(turn_started(turn_id.to_string(), now)));
    events.push(EventMsg::UserMessage(user_message_event(user_input)));
    events.push(EventMsg::TurnComplete(turn_complete(turn_id.to_string(), now)));
    assert(protocol::views(events@) =~= protocol::views(old(events)@) + user_turn(
        turn_id@,
        user_input@,
        now,
    ));
}

/// Records a context turn.
pub fn push_visible_context_turn_events<'a, Id, Input>(
    events: &mut Vec<EventMsg<'a, Id, Input>>,
    turn_id: &str,
    turn: &'a CommittedVisibleContextTurn<Input>,
    now: i64,
)
    ensures
        protocol::views(final(events)@) == protocol::views(old(events)@) + context_turn(
            turn_id@,
            turn@,
            now,
        ),
{
    broadcast use protocol::lemma_views_push;

    let ghost said: Seq<EventView<Id, Input>> = context_events(turn@);
    events.push(EventMsg::TurnStarted(turn_started(turn_id.to_string(), now)));
    let ghost opened = protocol::views(events@);
    let mut i: usize = 0;
    while i < turn.items.len()
        invariant
            i <= turn.items@.len(),
            said == context_events::<Id, Input>(turn@),
            protocol::views(events@) == opened + said.take(i as int),
        decreases turn.items@.len() - i,
    {
        match &turn.items[i] {
            CommittedVisibleContextItem::UserMessage { content } => {
                events.push(EventMsg::UserMessage(user_message_event(content.as_slice())));
            },
            CommittedVisibleContextItem::AgentMessage { text } => {
                events.push(
                    EventMsg::AgentMessage(
                        AgentMessageEvent {
                            message: text.clone(),
                            phase: None,
                            memory_citation: None,
                        },
                    ),
                );
            },
        }
        assert(events@.last()@ == said[i as int]);
        assert(opened + said.take(i + 1) =~= (opened + said.take(i as int)).push(said[i as int]));
        i = i + 1;
    }
    assert(said.take(i as int) =~= said);
    events.push(EventMsg::TurnComplete(turn_complete(turn_id.to_string(), now)));
    assert(protocol::views(events@) =~= protocol::views(old(events)@) + context_turn(
        turn_id@,
        turn@,
        now,
    ));
}

/// Lists the events that the commit under `ids` records at `now`.
pub fn rollout_events<'a, Id: Copy, Input>(
    thread_id: &Id,
    params: &'a ThreadSuperplanCommitParams<Input>,
    ids: &SuperplanCommitIds,
    now: i64,
) -> (events: Vec<EventMsg<'a, Id, Input>>)
    ensures
        protocol::views(events@) == recorded_events(*thread_id, params@, ids@, now),
{
    broadcast use protocol::lemma_views_push;

    let mut events: Vec<EventMsg<'a, Id, Input>> = Vec::new();
    let ghost request: Seq<EventView<Id, Input>> = request_turn(
        ids@.original_request_turn_id,
        params@.original_user_input,
        now,
    );
    let ghost blocks: Seq<Seq<EventView<Id, Input>>> = context_turns(
        ids@.committed_visible_context_turn_ids,
        params@.committed_visible_context_turns,
        now,
    );

    if let Some(turn_id) = &ids.original_request_turn_id {
        if let Some(original_user_input) = &params.original_user_input {
            push_user_turn_events(
                &mut events,
                turn_id.as_str(),
                original_user_input.as_slice(),
                now,
            );
        }
    }
    assert(protocol::views(events@) =~= request);

    let turns = &params.committed_visible_context_turns;
    let turn_ids = &ids.committed_visible_context_turn_ids;
    let mut t: usize = 0;
    assert(request + blocks.take(0).flatten() =~= request);
    while t < turns.len() && t < turn_ids.len()
        invariant
            t <= blocks.len(),
            turns@ == params.committed_visible_context_turns@,
            turn_ids@ == ids.committed_visible_context_turn_ids@,
            blocks == context_turns::<Id, Input>(
                ids@.committed_visible_context_turn_ids,
                params@.committed_visible_context_turns,
                now,
            ),
            protocol::views(events@) == request + blocks.take(t as int).flatten(),
        decreases turns@.len() - t,
    {
        push_visible_context_turn_events(&mut events, turn_ids[t].as_str(), &turns[t], now);
        assert(blocks.take(t + 1) =~= blocks.take(t as int).push(blocks[t as int]));
        proof {
            blocks.take(t as int).lemma_flatten_push(blocks[t as int]);
        }
        t = t + 1;
    }
    assert(blocks.take(t as int) =~= blocks);
    let ghost context = protocol::views(events@);

    events.push(EventMsg::TurnStarted(turn_started(ids.final_plan_turn_id.clone(), now)));
    events.push(
        EventMsg::ItemStarted(
            ItemStartedEvent {
                thread_id: *thread_id,
                turn_id: ids.final_plan_turn_id.clone(),
                item: TurnItem::Plan(
                    PlanItem { id: ids.final_plan_item_id.clone(), text: String::new() },
                ),
            },
        ),
    );
    events.push(
        EventMsg::ItemCompleted(
            ItemCompletedEvent {
                thread_id: *thread_id,
                turn_id: ids.final_plan_turn_id.clone(),
                item: TurnItem::Plan(
                    PlanItem {
                        id: ids.final_plan_item_id.clone(),
                        text: params.final_plan_markdown.clone(),
                    },
                ),
            },
        ),
    );
    events.push(EventMsg::TurnComplete(turn_complete(ids.final_plan_turn_id.clone(), now)));
    assert(protocol::views(events@) =~= context + plan_turn(
        *thread_id,
        ids@,
        params@.final_plan_markdown,
        now,
    ));
    events
}

// ---------------------------------------------------------------------------
// What is found
// ---------------------------------------------------------------------------
/// What came of looking for a thread's rollout.
#[derive(Debug, PartialEq, Eq)]
pub enum RolloutLookup<'a, Id, Input> {
    /// The thread keeps no rollout.
    NoPath,
    /// The rollout has a path, and nothing is there.
    Missing,
    /// The rollout could not be read, for the given reason.
    Unreadable(String),
    /// All items of the rollout, in order.
    History(Vec<RolloutItem<'a, Id, Input>>),
}

pub enum LookupView<Id, Input> {
    NoPath,
    Missing,
    Unreadable(Seq<char>),
    History(Seq<RolloutItemView<Id, Input>>),
}

impl<'a, Id, Input> View for RolloutLookup<'a, Id, Input> {
    type V = LookupView<Id, Input>;

    open spec fn view(&self) -> LookupView<Id, Input> {
        match self {
            RolloutLookup::NoPath => LookupView::NoPath,
            RolloutLookup::Missing => LookupView::Missing,
            RolloutLookup::Unreadable(reason) => LookupView::Unreadable(reason@),
            RolloutLookup::History(items) => LookupView::History(protocol::views(items@)),
        }
    }
}

/// `item` is the completion of the plan item `plan_item_id`.
pub open spec fn completes_plan<Id, Input>(
    item: RolloutItemView<Id, Input>,
    plan_item_id: Seq<char>,
) -> bool {
    match item {
        RolloutItemView::EventMsg(
            EventView::ItemCompleted { item: TurnItemView::Plan { id, .. }, .. },
        ) => id == plan_item_id,
        _ => false,
    }
}

/// `history` holds a completion of the plan item `plan_item_id`.
pub open spec fn plan_recorded<Id, Input>(
    history: Seq<RolloutItemView<Id, Input>>,
    plan_item_id: Seq<char>,
) -> bool {
    exists|i: int| 0 <= i < history.len() && completes_plan(#[trigger] history[i], plan_item_id)
}

/// Whether the commit of plan item `plan_item_id` was recorded before. A thread
/// without a rollout has recorded nothing; of one that cannot be read nothing is
/// known, and that is an error.
pub open spec fn recorded_before<Id, Input>(
    lookup: LookupView<Id, Input>,
    plan_item_id: Seq<char>,
) -> Result<bool, ErrorView> {
    match lookup {
        LookupView::NoPath => Ok(false),
        LookupView::Missing => Ok(false),
        LookupView::Unreadable(reason) => Err(
            ErrorView::Internal("failed to read rollout history: "@ + reason),
        ),
        LookupView::History(history) => Ok(plan_recorded(history, plan_item_id)),
    }
}

/// Whether `item` is the completion of the plan item `plan_item_id`.
fn is_plan_completion<'a, Id, Input>(
    item: &RolloutItem<'a, Id, Input>,
    plan_item_id: &String,
) -> (result: bool)
    ensures
        result == completes_plan(item@, plan_item_id@),
{
    match item {
        RolloutItem::EventMsg(
            EventMsg::ItemCompleted(ItemCompletedEvent { item: TurnItem::Plan(plan), .. }),
        ) => plan.id == *plan_item_id,
        _ => false,
    }
}

/// Tells from the thread's rollout whether the commit of plan item
/// `final_plan_item_id` was recorded before.
pub fn commit_is_already_persisted<'a, Id, Input>(
    lookup: &RolloutLookup<'a, Id, Input>,
    final_plan_item_id: &str,
) -> (result: Result<bool, SuperplanCommitError>)
    ensures
        match result {
            Ok(found) => recorded_before(lookup@, final_plan_item_id@) == Ok::<bool, ErrorView>(
                found,
            ),
            Err(error) => recorded_before(lookup@, final_plan_item_id@) == Err::<bool, ErrorView>(
                error@,
            ),
        },
{
    let history = match lookup {
        RolloutLookup::NoPath => {
            return Ok(false);
        },
        RolloutLookup::Missing => {
            return Ok(false);
        },
        RolloutLookup::Unreadable(reason) => {
            return Err(
                SuperplanCommitError::Internal(
                    "failed to read rollout history: ".to_string().concat(reason.as_str()),
                ),
            );
        },
        RolloutLookup::History(history) => history,
    };
    let plan_item_id = final_plan_item_id.to_string();
    let ghost items = protocol::views(history@);
    let mut i: usize = 0;
    while i < history.len()
        invariant
            i <= history@.len(),
            items == protocol::views(history@),
            lookup@ == LookupView::<Id, Input>::History(items),
            plan_item_id@ == final_plan_item_id@,
            forall|j: int| 0 <= j < i ==> !completes_plan(#[trigger] items[j], plan_item_id@),
        decreases history@.len() - i,
    {
        if is_plan_completion(&history[i], &plan_item_id) {
            assert(completes_plan(items[i as int], plan_item_id@));
            return Ok(true);
        }
        i = i + 1;
    }
    Ok(false)
}

} // verus!
