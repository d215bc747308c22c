//! What holds of the place and the content of all that a commit hands out.

use vstd::prelude::*;

use crate::context;
use crate::ids::IdsView;
use crate::notifications;
use crate::protocol::{
    AgentMessageView, ContentItemView, ContextItemView, EventView, MessagePhase, ModeKind,
    NotificationView, ParamsView, ResponseItemView, ThreadItemView, TurnCompleteView, TurnItemView,
    TurnStartedView, TurnStatus, TurnView,
};
use crate::rollout;

verus! {

/// How many items the first `count` of `turns` hold.
pub open spec fn items_before<A>(turns: Seq<Seq<A>>, count: int) -> int
    decreases count,
{
    if count <= 0 {
        0
    } else {
        items_before(turns, count - 1) + turns[count - 1].len()
    }
}

proof fn lemma_items_before_prefix<A>(turns: Seq<Seq<A>>, shorter: Seq<Seq<A>>, count: int)
    requires
        count <= shorter.len() <= turns.len(),
        forall|i: int| 0 <= i < shorter.len() ==> shorter[i] == #[trigger] turns[i],
    ensures
        items_before(turns, count) == items_before(shorter, count),
        items_before(turns, count) >= 0,
    decreases count,
{
    if count > 0 {
        lemma_items_before_prefix(turns, shorter, count - 1);
        assert(shorter[count - 1] == turns[count - 1]);
    }
}

proof fn lemma_flatten_length<A>(blocks: Seq<Seq<A>>)
    ensures
        blocks.flatten().len() == items_before(blocks, blocks.len() as int),
    decreases blocks.len(),
{
    if blocks.len() > 0 {
        let before = blocks.drop_last();
        lemma_flatten_length(before);
        assert(blocks =~= before.push(blocks.last()));
        before.lemma_flatten_push(blocks.last());
        lemma_items_before_prefix(blocks, before, before.len() as int);
    } else {
        assert(blocks.flatten() =~= Seq::empty());
    }
}

/// Putting blocks one after another keeps each item of each block in its place.
proof fn lemma_flatten_place<A>(blocks: Seq<Seq<A>>, i: int, j: int)
    requires
        0 <= i < blocks.len(),
        0 <= j < blocks[i].len(),
    ensures
        0 <= items_before(blocks, i) + j < blocks.flatten().len(),
        blocks.flatten()[items_before(blocks, i) + j] == blocks[i][j],
    decreases blocks.len(),
{
    let before = blocks.drop_last();
    assert(blocks =~= before.push(blocks.last()));
    before.lemma_flatten_push(blocks.last());
    lemma_items_before_prefix(blocks, before, i);
    lemma_flatten_length(before);
    if i < before.len() {
        lemma_flatten_place(before, i, j);
    }
}

/// How many items the original request is given as.
pub open spec fn request_items<Input>(params: ParamsView<Input>) -> int {
    if params.original_user_input is Some {
        1
    } else {
        0
    }
}

proof fn lemma_visible_places<Input>(turns: Seq<Seq<ContextItemView<Input>>>, count: int)
    requires
        count <= turns.len(),
    ensures
        items_before(context::visible_turns(turns), count) == items_before(turns, count),
    decreases count,
{
    if count > 0 {
        lemma_visible_places(turns, count - 1);
    }
}

/// The model is given the original request first, where there is one; then, turn by
/// turn, each thing that was said in the context turns; and last the plan, as the
/// final answer. Nothing else is given, and nothing is left out, however many
/// context turns there are.
pub proof fn law_model_is_given_everything_in_order<Input>(params: ParamsView<Input>)
    ensures
        context::model_context(params).len() == request_items(params) + items_before(
            params.committed_visible_context_turns,
            params.committed_visible_context_turns.len() as int,
        ) + 1,
        params.original_user_input matches Some(inputs) ==> context::model_context(params)[0] == (
        ResponseItemView::UserInput { inputs }),
        forall|i: int, j: int|
            0 <= i < params.committed_visible_context_turns.len() && 0 <= j
                < params.committed_visible_context_turns[i].len() ==> context::model_context(
                params,
            )[request_items(params) + items_before(params.committed_visible_context_turns, i) + j]
                == match #[trigger] params.committed_visible_context_turns[i][j] {
                ContextItemView::UserMessage { content } => ResponseItemView::UserInput {
                    inputs: content,
                },
                ContextItemView::AgentMessage { text } => ResponseItemView::Message {
                    id: None,
                    role: "assistant"@,
                    content: seq![ContentItemView::OutputText { text }],
                    end_turn: None,
                    phase: None,
                },
            },
        context::model_context(params).last() == (ResponseItemView::<Input>::Message {
            id: None,
            role: "assistant"@,
            content: seq![ContentItemView::OutputText { text: params.final_plan_markdown }],
            end_turn: None,
            phase: Some(MessagePhase::FinalAnswer),
        }),
{
    let turns = params.committed_visible_context_turns;
    let blocks = context::visible_turns(turns);
    let items = context::model_context(params);
    let request = context::visible_request(params.original_user_input);
    lemma_flatten_length(blocks);
    lemma_visible_places(turns, turns.len() as int);
    assert forall|i: int, j: int|
        0 <= i < turns.len() && 0 <= j < turns[i].len() implies items[request_items(params)
        + items_before(turns, i) + j] == match #[trigger] turns[i][j] {
        ContextItemView::UserMessage { content } => ResponseItemView::UserInput {
            inputs: content,
        },
        ContextItemView::AgentMessage { text } => ResponseItemView::Message {
            id: None,
            role: "assistant"@,
            content: seq![ContentItemView::OutputText { text }],
            end_turn: None,
            phase: None,
        },
    } by {
        lemma_visible_places(turns, i);
        let place = items_before(turns, i) + j;
        assert(blocks[i][j] == context::visible_item(turns[i][j]));
        lemma_flatten_place(blocks, i, j);
        assert(items[request.len() + place] == blocks.flatten()[place]);
    }
}

/// A message of the agent carries its text, and its phase, and nothing more.
pub proof fn law_agent_message<Input>(text: Seq<char>, phase: Option<MessagePhase>)
    ensures
        context::agent_message::<Input>(text, phase) == (ResponseItemView::<Input>::Message {
            id: None,
            role: "assistant"@,
            content: seq![ContentItemView::OutputText { text }],
            end_turn: None,
            phase,
        }),
{
}

/// `event` is the start of turn `turn_id` at `now`, in plan mode.
pub open spec fn starts<Id, Input>(
    event: EventView<Id, Input>,
    turn_id: Seq<char>,
    now: i64,
) -> bool {
    event == EventView::<Id, Input>::TurnStarted(
        TurnStartedView {
            turn_id,
            started_at: Some(now),
            model_context_window: None,
            collaboration_mode_kind: ModeKind::Plan,
        },
    )
}

/// `event` is the end of turn `turn_id` at `now`, with no time spent in it.
pub open spec fn ends<Id, Input>(
    event: EventView<Id, Input>,
    turn_id: Seq<char>,
    now: i64,
) -> bool {
    event == EventView::<Id, Input>::TurnComplete(
        TurnCompleteView {
            turn_id,
            last_agent_message: None,
            completed_at: Some(now),
            duration_ms: Some(0),
        },
    )
}

/// Every turn starts and ends in the same way.
pub proof fn law_turn_starts_and_ends<Id, Input>(turn_id: Seq<char>, now: i64)
    ensures
        starts(EventView::<Id, Input>::TurnStarted(rollout::started(turn_id, now)), turn_id, now),
        ends(EventView::<Id, Input>::TurnComplete(rollout::completed(turn_id, now)), turn_id, now),
{
}

/// A turn of the user holds one message, with the inputs as they were given.
pub proof fn law_user_turn<Id, Input>(turn_id: Seq<char>, inputs: Seq<Input>, now: i64)
    ensures
        ({
            let events = rollout::user_turn::<Id, Input>(turn_id, inputs, now);
            &&& events.len() == 3
            &&& starts(events[0], turn_id, now)
            &&& events[1] == EventView::<Id, Input>::UserMessage { inputs }
            &&& ends(events[2], turn_id, now)
        }),
{
}

/// A context turn holds one event for each thing said in it, in order, between its
/// start and its end.
pub proof fn law_context_turn<Id, Input>(
    turn_id: Seq<char>,
    turn: Seq<ContextItemView<Input>>,
    now: i64,
)
    ensures
        ({
            let events = rollout::context_turn::<Id, Input>(turn_id, turn, now);
            &&& events.len() == turn.len() + 2
            &&& starts(events[0], turn_id, now)
            &&& forall|i: int|
                0 <= i < turn.len() ==> events[1 + i] == match #[trigger] turn[i] {
                    ContextItemView::UserMessage { content } => EventView::<Id, Input>::UserMessage {
                        inputs: content,
                    },
                    ContextItemView::AgentMessage { text } => EventView::<Id, Input>::AgentMessage(
                        AgentMessageView { message: text, phase: None, memory_citation: None },
                    ),
                }
            &&& ends(events.last(), turn_id, now)
        }),
{
}

/// Where the events of the context turns begin: after those of the request, which
/// are three where it is given and has an identifier.
pub open spec fn request_events<Input>(params: ParamsView<Input>, ids: IdsView) -> int {
    if params.original_user_input is Some && ids.original_request_turn_id is Some {
        3
    } else {
        0
    }
}

/// How many context turns are recorded: those that have an identifier.
pub open spec fn turns_named<Input>(params: ParamsView<Input>, ids: IdsView) -> int {
    if ids.committed_visible_context_turn_ids.len() < params.committed_visible_context_turns.len() {
        ids.committed_visible_context_turn_ids.len() as int
    } else {
        params.committed_visible_context_turns.len() as int
    }
}

/// Where the events of the context turn at `index` begin. Each turn has two events
/// besides one for each thing said.
pub open spec fn turn_start<Input>(params: ParamsView<Input>, ids: IdsView, index: int) -> int {
    request_events(params, ids) + items_before(params.committed_visible_context_turns, index) + 2
        * index
}

proof fn lemma_event_places<Id, Input>(
    turn_ids: Seq<Seq<char>>,
    turns: Seq<Seq<ContextItemView<Input>>>,
    now: i64,
    count: int,
)
    requires
        0 <= count <= turns.len(),
        count <= turn_ids.len(),
    ensures
        items_before(rollout::context_turns::<Id, Input>(turn_ids, turns, now), count)
            == items_before(turns, count) + 2 * count,
    decreases count,
{
    if count > 0 {
        lemma_event_places::<Id, Input>(turn_ids, turns, now, count - 1);
        let blocks = rollout::context_turns::<Id, Input>(turn_ids, turns, now);
        assert(blocks[count - 1].len() == turns[count - 1].len() + 2);
    }
}

/// A commit records the turn of the original request first, where there is one; then
/// each context turn, with each thing said in it between its start and its end; and
/// last the turn of the plan, in which the plan item starts empty and is completed
/// with the plan. Nothing else is recorded.
pub proof fn law_everything_is_recorded_in_order<Id, Input>(
    thread_id: Id,
    params: ParamsView<Input>,
    ids: IdsView,
    now: i64,
)
    ensures
        ({
            let events = rollout::recorded_events::<Id, Input>(thread_id, params, ids, now);
            let turns = params.committed_visible_context_turns;
            let named = turns_named(params, ids);
            let plan = turn_start(params, ids, named);
            &&& events.len() == plan + 4
            &&& params.original_user_input is Some && ids.original_request_turn_id is Some ==> {
                &&& starts(events[0], ids.original_request_turn_id->0, now)
                &&& events[1] == EventView::<Id, Input>::UserMessage {
                    inputs: params.original_user_input->0,
                }
                &&& ends(events[2], ids.original_request_turn_id->0, now)
            }
            &&& forall|i: int|
                0 <= i < named ==> {
                    let turn_id = #[trigger] ids.committed_visible_context_turn_ids[i];
                    let start = turn_start(params, ids, i);
                    &&& starts(events[start], turn_id, now)
                    &&& ends(events[start + 1 + turns[i].len()], turn_id, now)
                    &&& start + 2 + turns[i].len() == turn_start(params, ids, i + 1)
                }
            &&& forall|i: int, j: int|
                0 <= i < named && 0 <= j < turns[i].len() ==> events[turn_start(params, ids, i) + 1
                    + j] == match #[trigger] turns[i][j] {
                    ContextItemView::UserMessage { content } => EventView::<Id, Input>::UserMessage {
                        inputs: content,
                    },
                    ContextItemView::AgentMessage { text } => EventView::<Id, Input>::AgentMessage(
                        AgentMessageView { message: text, phase: None, memory_citation: None },
                    ),
                }
            &&& starts(events[plan], ids.final_plan_turn_id, now)
            &&& events[plan + 1] == EventView::<Id, Input>::ItemStarted {
                thread_id,
                turn_id: ids.final_plan_turn_id,
                item: TurnItemView::Plan { id: ids.final_plan_item_id, text: seq![] },
            }
            &&& events[plan + 2] == EventView::<Id, Input>::ItemCompleted {
                thread_id,
                turn_id: ids.final_plan_turn_id,
                item: TurnItemView::Plan {
                    id: ids.final_plan_item_id,
                    text: params.final_plan_markdown,
                },
            }
            &&& ends(events[plan + 3], ids.final_plan_turn_id, now)
        }),
{
    let turn_ids = ids.committed_visible_context_turn_ids;
    let turns = params.committed_visible_context_turns;
    let named = turns_named(params, ids);
    let events = rollout::recorded_events::<Id, Input>(thread_id, params, ids, now);
    let request = rollout::request_turn::<Id, Input>(
        ids.original_request_turn_id,
        params.original_user_input,
        now,
    );
    let blocks = rollout::context_turns::<Id, Input>(turn_ids, turns, now);
    let lead = request.len() as int;
    assert(lead == request_events(params, ids));
    lemma_flatten_length(blocks);
    lemma_event_places::<Id, Input>(turn_ids, turns, now, named);
    assert forall|i: int| 0 <= i < named implies {
        let turn_id = #[trigger] turn_ids[i];
        let start = turn_start(params, ids, i);
        &&& starts(events[start], turn_id, now)
        &&& ends(events[start + 1 + turns[i].len()], turn_id, now)
        &&& start + 2 + turns[i].len() == turn_start(params, ids, i + 1)
    } by {
        lemma_event_places::<Id, Input>(turn_ids, turns, now, i);
        let start = items_before(blocks, i);
        let last = turns[i].len() + 1;
        lemma_flatten_place(blocks, i, 0);
        lemma_flatten_place(blocks, i, last as int);
        assert(events[lead + start] == blocks.flatten()[start]);
        assert(events[lead + start + last] == blocks.flatten()[start + last]);
    }
    assert forall|i: int, j: int|
        0 <= i < named && 0 <= j < turns[i].len() implies events[turn_start(params, ids, i) + 1 + j]
        == match #[trigger] turns[i][j] {
        ContextItemView::UserMessage { content } => EventView::<Id, Input>::UserMessage { inputs: content },
        ContextItemView::AgentMessage { text } => EventView::<Id, Input>::AgentMessage(
            AgentMessageView { message: text, phase: None, memory_citation: None },
        ),
    } by {
        lemma_event_places::<Id, Input>(turn_ids, turns, now, i);
        let start = items_before(blocks, i);
        lemma_flatten_place(blocks, i, 1 + j);
        assert(events[lead + (start + (1 + j))] == blocks.flatten()[start + (1 + j)]);
    }
}

/// Live, a turn is shown with its identifier, its status and its times, without
/// items and without an error, and with no time spent in it once it is completed.
pub proof fn law_turn_is_shown(
    turn_id: Seq<char>,
    status: TurnStatus,
    started_at: i64,
    completed_at: i64,
)
    ensures
        notifications::turn_shown(turn_id, status, started_at, None) == (TurnView {
            id: turn_id,
            items: seq![],
            status,
            error: None,
            started_at: Some(started_at),
            completed_at: None,
            duration_ms: None,
        }),
        notifications::turn_shown(turn_id, status, started_at, Some(completed_at)) == (TurnView {
            id: turn_id,
            items: seq![],
            status,
            error: None,
            started_at: Some(started_at),
            completed_at: Some(completed_at),
            duration_ms: Some(0),
        }),
{
}

/// Clients are told four things of the plan turn: that it started, that its item
/// started empty, that the item was completed with the plan, and that the turn was
/// completed.
pub proof fn law_plan_is_told(thread_id: Seq<char>, ids: IdsView, plan: Seq<char>, now: i64)
    ensures
        notifications::plan_told(thread_id, ids, plan, now) == seq![
            NotificationView::TurnStarted {
                thread_id,
                turn: TurnView {
                    id: ids.final_plan_turn_id,
                    items: seq![],
                    status: TurnStatus::InProgress,
                    error: None,
                    started_at: Some(now),
                    completed_at: None,
                    duration_ms: None,
                },
            },
            NotificationView::ItemStarted {
                thread_id,
                turn_id: ids.final_plan_turn_id,
                item: ThreadItemView::Plan { id: ids.final_plan_item_id, text: seq![] },
            },
            NotificationView::ItemCompleted {
                thread_id,
                turn_id: ids.final_plan_turn_id,
                item: ThreadItemView::Plan { id: ids.final_plan_item_id, text: plan },
            },
            NotificationView::TurnCompleted {
                thread_id,
                turn: TurnView {
                    id: ids.final_plan_turn_id,
                    items: seq![],
                    status: TurnStatus::Completed,
                    error: None,
                    started_at: Some(now),
                    completed_at: Some(now),
                    duration_ms: Some(0),
                },
            },
        ],
{
}

} // verus!
