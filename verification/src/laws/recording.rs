//! What holds of what a commit records: how it reads back, and how it agrees with
//! what the model is given and what clients are told.

use vstd::prelude::*;

use crate::context;
use crate::ids;
use crate::ids::IdsView;
use crate::notifications;
use crate::protocol::{
    ContentItemView, ContextItemView, EventView, NotificationView, ParamsView, ResponseItemView,
    RolloutItemView, ThreadItemView, TurnItemView, TurnStatus, TurnView,
};
use crate::rollout;

verus! {

/// A turn as it is read back from a rollout.
pub struct ReplayedTurn<Input> {
    pub id: Seq<char>,
    pub items: Seq<ReplayedItem<Input>>,
    pub complete: bool,
}

/// An item of a turn as it is read back from a rollout.
pub enum ReplayedItem<Input> {
    UserMessage { inputs: Seq<Input> },
    AgentMessage { text: Seq<char> },
    Plan { id: Seq<char>, text: Seq<char> },
}

/// `turns` with `item` added to the last of them, which is not complete.
pub open spec fn with_item<Input>(
    turns: Seq<ReplayedTurn<Input>>,
    item: ReplayedItem<Input>,
) -> Seq<ReplayedTurn<Input>> {
    if turns.len() > 0 && !turns.last().complete {
        turns.drop_last().push(
            ReplayedTurn { items: turns.last().items.push(item), ..turns.last() },
        )
    } else {
        turns
    }
}

/// What one more event makes of the turns read so far. An event that names a turn
/// counts only for that turn, and only while it is the last and not complete.
pub open spec fn replay_event<Id, Input>(
    turns: Seq<ReplayedTurn<Input>>,
    event: EventView<Id, Input>,
) -> Seq<ReplayedTurn<Input>> {
    match event {
        EventView::TurnStarted(start) => turns.push(
            ReplayedTurn { id: start.turn_id, items: seq![], complete: false },
        ),
        EventView::UserMessage { inputs } => with_item(turns, ReplayedItem::UserMessage { inputs }),
        EventView::AgentMessage(said) => with_item(
            turns,
            ReplayedItem::AgentMessage { text: said.message },
        ),
        EventView::ItemCompleted { turn_id, item: TurnItemView::Plan { id, text }, .. } => {
            if turns.len() > 0 && turns.last().id == turn_id {
                with_item(turns, ReplayedItem::Plan { id, text })
            } else {
                turns
            }
        },
        EventView::TurnComplete(end) => {
            if turns.len() > 0 && !turns.last().complete && turns.last().id == end.turn_id {
                turns.drop_last().push(ReplayedTurn { complete: true, ..turns.last() })
            } else {
                turns
            }
        },
        _ => turns,
    }
}

/// The turns that `events` amount to after `turns`.
pub open spec fn replay<Id, Input>(
    turns: Seq<ReplayedTurn<Input>>,
    events: Seq<EventView<Id, Input>>,
) -> Seq<ReplayedTurn<Input>>
    decreases events.len(),
{
    if events.len() == 0 {
        turns
    } else {
        replay_event(replay(turns, events.drop_last()), events.last())
    }
}

/// What was said in a context turn, as it is read back.
pub open spec fn context_item_read<Input>(item: ContextItemView<Input>) -> ReplayedItem<Input> {
    match item {
        ContextItemView::UserMessage { content } => ReplayedItem::UserMessage { inputs: content },
        ContextItemView::AgentMessage { text } => ReplayedItem::AgentMessage { text },
    }
}

/// A context turn as it is read back.
pub open spec fn context_turn_read<Input>(
    turn_id: Seq<char>,
    turn: Seq<ContextItemView<Input>>,
) -> ReplayedTurn<Input> {
    ReplayedTurn {
        id: turn_id,
        items: Seq::new(turn.len(), |i: int| context_item_read(turn[i])),
        complete: true,
    }
}

/// The conversation of `params` turn by turn, under `ids`: the original request if
/// `params` gives it, the context turns, and the plan.
pub open spec fn conversation<Input>(params: ParamsView<Input>, ids: IdsView) -> Seq<
    ReplayedTurn<Input>,
> {
    (match params.original_user_input {
        Some(inputs) => seq![
            ReplayedTurn {
                id: ids.original_request_turn_id->0,
                items: seq![ReplayedItem::UserMessage { inputs }],
                complete: true,
            },
        ],
        None => seq![],
    }) + Seq::new(
        params.committed_visible_context_turns.len(),
        |i: int|
            context_turn_read(
                ids.committed_visible_context_turn_ids[i],
                params.committed_visible_context_turns[i],
            ),
    ) + seq![
        ReplayedTurn {
            id: ids.final_plan_turn_id,
            items: seq![
                ReplayedItem::Plan {
                    id: ids.final_plan_item_id,
                    text: params.final_plan_markdown,
                },
            ],
            complete: true,
        },
    ]
}

proof fn lemma_replay_concat<Id, Input>(
    turns: Seq<ReplayedTurn<Input>>,
    a: Seq<EventView<Id, Input>>,
    b: Seq<EventView<Id, Input>>,
)
    ensures
        replay(turns, a + b) == replay(replay(turns, a), b),
    decreases b.len(),
{
    if b.len() == 0 {
        assert(a + b =~= a);
    } else {
        assert((a + b).drop_last() =~= a + b.drop_last());
        lemma_replay_concat(turns, a, b.drop_last());
    }
}

proof fn lemma_replay_one<Id, Input>(
    turns: Seq<ReplayedTurn<Input>>,
    event: EventView<Id, Input>,
)
    ensures
        replay(turns, seq![event]) == replay_event(turns, event),
{
    reveal_with_fuel(replay, 2);
    assert(seq![event].drop_last() =~= Seq::<EventView<Id, Input>>::empty());
}

proof fn lemma_replay_context_events<Id, Input>(
    turns: Seq<ReplayedTurn<Input>>,
    turn_id: Seq<char>,
    said: Seq<ContextItemView<Input>>,
)
    ensures
        replay(
            turns.push(ReplayedTurn { id: turn_id, items: seq![], complete: false }),
            rollout::context_events::<Id, Input>(said),
        ) == turns.push(
            ReplayedTurn { complete: false, ..context_turn_read(turn_id, said) },
        ),
    decreases said.len(),
{
    let events = rollout::context_events::<Id, Input>(said);
    let opened = turns.push(ReplayedTurn { id: turn_id, items: seq![], complete: false });
    let read = ReplayedTurn { complete: false, ..context_turn_read(turn_id, said) };
    if said.len() == 0 {
        assert(read.items =~= seq![]);
    } else {
        let before = said.drop_last();
        let read_before = ReplayedTurn { complete: false, ..context_turn_read(turn_id, before) };
        assert(events.drop_last() =~= rollout::context_events::<Id, Input>(before));
        lemma_replay_context_events::<Id, Input>(turns, turn_id, before);
        assert(turns.push(read_before).drop_last() =~= turns);
        assert(read.items =~= read_before.items.push(context_item_read(said.last())));
    }
}

proof fn lemma_replay_context_turn<Id, Input>(
    turns: Seq<ReplayedTurn<Input>>,
    turn_id: Seq<char>,
    said: Seq<ContextItemView<Input>>,
    now: i64,
)
    ensures
        replay(turns, rollout::context_turn::<Id, Input>(turn_id, said, now)) == turns.push(
            context_turn_read(turn_id, said),
        ),
{
    let start: EventView<Id, Input> = EventView::TurnStarted(rollout::started(turn_id, now));
    let events = rollout::context_events::<Id, Input>(said);
    let end: EventView<Id, Input> = EventView::TurnComplete(rollout::completed(turn_id, now));
    lemma_replay_concat(turns, seq![start] + events, seq![end]);
    lemma_replay_concat(turns, seq![start], events);
    lemma_replay_one(turns, start);
    lemma_replay_context_events::<Id, Input>(turns, turn_id, said);
    let open = ReplayedTurn { complete: false, ..context_turn_read(turn_id, said) };
    lemma_replay_one(turns.push(open), end);
    assert(turns.push(open).drop_last() =~= turns);
}

proof fn lemma_replay_context_turns<Id, Input>(
    turns: Seq<ReplayedTurn<Input>>,
    turn_ids: Seq<Seq<char>>,
    said: Seq<Seq<ContextItemView<Input>>>,
    now: i64,
)
    requires
        turn_ids.len() == said.len(),
    ensures
        replay(turns, rollout::context_turns::<Id, Input>(turn_ids, said, now).flatten()) == turns
            + Seq::new(said.len(), |i: int| context_turn_read(turn_ids[i], said[i])),
    decreases said.len(),
{
    let blocks = rollout::context_turns::<Id, Input>(turn_ids, said, now);
    let read = Seq::new(said.len(), |i: int| context_turn_read(turn_ids[i], said[i]));
    if said.len() == 0 {
        assert(blocks.flatten() =~= Seq::empty());
        assert(turns + read =~= turns);
    } else {
        let ids_before = turn_ids.drop_last();
        let said_before = said.drop_last();
        let blocks_before = rollout::context_turns::<Id, Input>(ids_before, said_before, now);
        let read_before = Seq::new(
            said_before.len(),
            |i: int| context_turn_read(ids_before[i], said_before[i]),
        );
        let last = rollout::context_turn::<Id, Input>(turn_ids.last(), said.last(), now);
        lemma_replay_context_turns::<Id, Input>(turns, ids_before, said_before, now);
        assert(blocks =~= blocks_before.push(last));
        blocks_before.lemma_flatten_push(last);
        lemma_replay_concat(turns, blocks_before.flatten(), last);
        lemma_replay_context_turn::<Id, Input>(
            turns + read_before,
            turn_ids.last(),
            said.last(),
            now,
        );
        assert((turns + read_before).push(context_turn_read(turn_ids.last(), said.last())) =~= turns
            + read);
    }
}

proof fn lemma_replay_user_turn<Id, Input>(
    turns: Seq<ReplayedTurn<Input>>,
    turn_id: Seq<char>,
    inputs: Seq<Input>,
    now: i64,
)
    ensures
        replay(turns, rollout::user_turn::<Id, Input>(turn_id, inputs, now)) == turns.push(
            ReplayedTurn {
                id: turn_id,
                items: seq![ReplayedItem::UserMessage { inputs }],
                complete: true,
            },
        ),
{
    let said = seq![ContextItemView::UserMessage { content: inputs }];
    assert(rollout::user_turn::<Id, Input>(turn_id, inputs, now) =~= rollout::context_turn::<
        Id,
        Input,
    >(turn_id, said, now));
    lemma_replay_context_turn::<Id, Input>(turns, turn_id, said, now);
    assert(context_turn_read(turn_id, said).items =~= seq![ReplayedItem::UserMessage { inputs }]);
}

proof fn lemma_replay_plan_turn<Id, Input>(
    turns: Seq<ReplayedTurn<Input>>,
    thread_id: Id,
    ids: IdsView,
    plan: Seq<char>,
    now: i64,
)
    ensures
        replay(turns, rollout::plan_turn::<Id, Input>(thread_id, ids, plan, now)) == turns.push(
            ReplayedTurn {
                id: ids.final_plan_turn_id,
                items: seq![ReplayedItem::Plan { id: ids.final_plan_item_id, text: plan }],
                complete: true,
            },
        ),
{
    let events = rollout::plan_turn::<Id, Input>(thread_id, ids, plan, now);
    let opened = ReplayedTurn::<Input> {
        id: ids.final_plan_turn_id,
        items: seq![],
        complete: false,
    };
    let item = ReplayedItem::<Input>::Plan { id: ids.final_plan_item_id, text: plan };
    let filled = ReplayedTurn { items: seq![item], ..opened };
    lemma_replay_concat(turns, seq![events[0], events[1], events[2]], seq![events[3]]);
    lemma_replay_concat(turns, seq![events[0], events[1]], seq![events[2]]);
    lemma_replay_concat(turns, seq![events[0]], seq![events[1]]);
    assert(events =~= seq![events[0], events[1], events[2]] + seq![events[3]]);
    assert(seq![events[0], events[1], events[2]] =~= seq![events[0], events[1]] + seq![events[2]]);
    assert(seq![events[0], events[1]] =~= seq![events[0]] + seq![events[1]]);
    lemma_replay_one(turns, events[0]);
    lemma_replay_one(turns.push(opened), events[1]);
    lemma_replay_one(turns.push(opened), events[2]);
    lemma_replay_one(turns.push(filled), events[3]);
    assert(turns.push(opened).drop_last() =~= turns);
    assert(turns.push(filled).drop_last() =~= turns);
    assert(opened.items.push(item) =~= seq![item]);
}

/// What a commit records reads back as the conversation that was committed: each
/// turn once, complete, in order, under its identifier, with what was said in it,
/// after whatever turns were there before.
pub proof fn law_recorded_events_read_back<Id, Input>(
    turns: Seq<ReplayedTurn<Input>>,
    thread_id: Id,
    params: ParamsView<Input>,
    now: i64,
)
    ensures
        replay(
            turns,
            rollout::recorded_events::<Id, Input>(thread_id, params, ids::ids_of(params), now),
        ) == turns + conversation(params, ids::ids_of(params)),
{
    let view = ids::ids_of(params);
    let request = rollout::request_turn::<Id, Input>(
        view.original_request_turn_id,
        params.original_user_input,
        now,
    );
    let context = rollout::context_turns::<Id, Input>(
        view.committed_visible_context_turn_ids,
        params.committed_visible_context_turns,
        now,
    ).flatten();
    let plan = rollout::plan_turn::<Id, Input>(thread_id, view, params.final_plan_markdown, now);
    lemma_replay_concat(turns, request + context, plan);
    lemma_replay_concat(turns, request, context);
    match params.original_user_input {
        Some(inputs) => {
            lemma_replay_user_turn::<Id, Input>(
                turns,
                view.original_request_turn_id->0,
                inputs,
                now,
            );
        },
        None => {},
    }
    let after_request = replay(turns, request);
    lemma_replay_context_turns::<Id, Input>(
        after_request,
        view.committed_visible_context_turn_ids,
        params.committed_visible_context_turns,
        now,
    );
    let after_context = replay(after_request, context);
    lemma_replay_plan_turn::<Id, Input>(
        after_context,
        thread_id,
        view,
        params.final_plan_markdown,
        now,
    );
    assert(replay(after_context, plan) =~= turns + conversation(params, view));
}

// ---------------------------------------------------------------------------
// Any property of all recorded events
// ---------------------------------------------------------------------------
proof fn lemma_flatten_all<A>(blocks: Seq<Seq<A>>, holds: spec_fn(A) -> bool)
    requires
        forall|b: int, i: int|
            0 <= b < blocks.len() && 0 <= i < blocks[b].len() ==> holds(#[trigger] blocks[b][i]),
    ensures
        forall|i: int| 0 <= i < blocks.flatten().len() ==> holds(#[trigger] blocks.flatten()[i]),
    decreases blocks.len(),
{
    if blocks.len() > 0 {
        let before = blocks.drop_last();
        assert forall|b: int, i: int|
            0 <= b < before.len() && 0 <= i < before[b].len() implies holds(
            #[trigger] before[b][i],
        ) by {
            assert(before[b][i] == blocks[b][i]);
        }
        lemma_flatten_all(before, holds);
        assert(blocks =~= before.push(blocks.last()));
        before.lemma_flatten_push(blocks.last());
        let last = blocks.len() - 1;
        assert forall|i: int| 0 <= i < blocks.flatten().len() implies holds(
            #[trigger] blocks.flatten()[i],
        ) by {
            let done = before.flatten().len() as int;
            if i < done {
                assert(blocks.flatten()[i] == before.flatten()[i]);
            } else {
                assert(blocks.flatten()[i] == blocks[last][i - done]);
            }
        }
    }
}

/// The time that an event gives for the start or the end of a turn is `now`, and
/// no time was spent in the turn.
pub open spec fn timed<Id, Input>(event: EventView<Id, Input>, now: i64) -> bool {
    match event {
        EventView::TurnStarted(start) => start.started_at == Some(now),
        EventView::TurnComplete(end) => end.completed_at == Some(now) && end.duration_ms == Some(
            0i64,
        ),
        _ => true,
    }
}

/// All turns of a commit start and end at one time.
pub proof fn law_events_carry_one_time<Id, Input>(
    thread_id: Id,
    params: ParamsView<Input>,
    ids: IdsView,
    now: i64,
)
    ensures
        forall|i: int|
            0 <= i < rollout::recorded_events::<Id, Input>(thread_id, params, ids, now).len()
                ==> timed(
                #[trigger] rollout::recorded_events::<Id, Input>(thread_id, params, ids, now)[i],
                now,
            ),
{
    let blocks = rollout::context_turns::<Id, Input>(
        ids.committed_visible_context_turn_ids,
        params.committed_visible_context_turns,
        now,
    );
    lemma_flatten_all(blocks, |event: EventView<Id, Input>| timed(event, now));
}

// ---------------------------------------------------------------------------
// The plan is recorded once
// ---------------------------------------------------------------------------
/// How many completions of the plan item `plan_item_id` `history` holds.
pub open spec fn plan_count<Id, Input>(
    history: Seq<RolloutItemView<Id, Input>>,
    plan_item_id: Seq<char>,
) -> nat
    decreases history.len(),
{
    if history.len() == 0 {
        0
    } else {
        plan_count(history.drop_last(), plan_item_id) + if rollout::completes_plan(
            history.last(),
            plan_item_id,
        ) {
            1nat
        } else {
            0nat
        }
    }
}

/// `events` as items of a rollout.
pub open spec fn as_history<Id, Input>(events: Seq<EventView<Id, Input>>) -> Seq<
    RolloutItemView<Id, Input>,
> {
    Seq::new(events.len(), |i: int| RolloutItemView::EventMsg(events[i]))
}

proof fn lemma_plan_count_concat<Id, Input>(
    a: Seq<RolloutItemView<Id, Input>>,
    b: Seq<RolloutItemView<Id, Input>>,
    plan_item_id: Seq<char>,
)
    ensures
        plan_count(a + b, plan_item_id) == plan_count(a, plan_item_id) + plan_count(
            b,
            plan_item_id,
        ),
    decreases b.len(),
{
    if b.len() == 0 {
        assert(a + b =~= a);
    } else {
        assert((a + b).drop_last() =~= a + b.drop_last());
        lemma_plan_count_concat(a, b.drop_last(), plan_item_id);
    }
}

proof fn lemma_plan_count_none<Id, Input>(
    history: Seq<RolloutItemView<Id, Input>>,
    plan_item_id: Seq<char>,
)
    requires
        !rollout::plan_recorded(history, plan_item_id),
    ensures
        plan_count(history, plan_item_id) == 0,
    decreases history.len(),
{
    if history.len() > 0 {
        let before = history.drop_last();
        assert forall|i: int| 0 <= i < before.len() implies !rollout::completes_plan(
            #[trigger] before[i],
            plan_item_id,
        ) by {
            assert(before[i] == history[i]);
        }
        lemma_plan_count_none(before, plan_item_id);
        assert(history.last() == history[history.len() - 1]);
    }
}

/// A history in which no completion of a plan item is counted records none.
pub proof fn lemma_plan_count_zero<Id, Input>(
    history: Seq<RolloutItemView<Id, Input>>,
    plan_item_id: Seq<char>,
)
    requires
        plan_count(history, plan_item_id) == 0,
    ensures
        !rollout::plan_recorded(history, plan_item_id),
    decreases history.len(),
{
    if history.len() > 0 {
        let before = history.drop_last();
        lemma_plan_count_zero(before, plan_item_id);
        assert forall|i: int| 0 <= i < history.len() implies !rollout::completes_plan(
            #[trigger] history[i],
            plan_item_id,
        ) by {
            if i < before.len() {
                assert(history[i] == before[i]);
            }
        }
    }
}

/// A commit records the completion of its plan item exactly once.
pub proof fn law_plan_is_recorded_once<Id, Input>(
    history: Seq<RolloutItemView<Id, Input>>,
    thread_id: Id,
    params: ParamsView<Input>,
    ids: IdsView,
    now: i64,
)
    requires
        !rollout::plan_recorded(history, ids.final_plan_item_id),
    ensures
        plan_count(
            history + as_history(
                rollout::recorded_events::<Id, Input>(thread_id, params, ids, now),
            ),
            ids.final_plan_item_id,
        ) == 1,
{
    let id = ids.final_plan_item_id;
    let request = rollout::request_turn::<Id, Input>(
        ids.original_request_turn_id,
        params.original_user_input,
        now,
    );
    let blocks = rollout::context_turns::<Id, Input>(
        ids.committed_visible_context_turn_ids,
        params.committed_visible_context_turns,
        now,
    );
    let plan = rollout::plan_turn::<Id, Input>(thread_id, ids, params.final_plan_markdown, now);
    let lead = request + blocks.flatten();
    lemma_flatten_all(blocks, |event: EventView<Id, Input>| !(event is ItemCompleted));
    assert forall|i: int| 0 <= i < as_history(lead).len() implies !rollout::completes_plan(
        #[trigger] as_history(lead)[i],
        id,
    ) by {
        if i < request.len() {
            assert(lead[i] == request[i]);
        } else {
            assert(lead[i] == blocks.flatten()[i - request.len()]);
        }
    }
    lemma_plan_count_none(history, id);
    lemma_plan_count_none(as_history(lead), id);
    lemma_plan_count_concat(history, as_history(lead) + as_history(plan), id);
    lemma_plan_count_concat(as_history(lead), as_history(plan), id);
    assert(as_history(lead + plan) =~= as_history(lead) + as_history(plan));
    let tail = as_history(plan);
    reveal_with_fuel(plan_count, 5);
    assert(tail.drop_last().last() == tail[2]);
    assert(tail.drop_last().drop_last().last() == tail[1]);
    assert(tail.drop_last().drop_last().drop_last().last() == tail[0]);
}

/// A history that holds what a commit recorded, or no more of it than the
/// completion of the plan item, shows that the plan was recorded.
pub proof fn law_recorded_plan_is_found<Id, Input>(
    history: Seq<RolloutItemView<Id, Input>>,
    thread_id: Id,
    params: ParamsView<Input>,
    ids: IdsView,
    now: i64,
)
    ensures
        rollout::recorded_events::<Id, Input>(thread_id, params, ids, now).contains(
            rollout::plan_completed(thread_id, ids, params.final_plan_markdown),
        ),
        history.contains(
            RolloutItemView::EventMsg(
                rollout::plan_completed(thread_id, ids, params.final_plan_markdown),
            ),
        ) ==> rollout::plan_recorded(history, ids.final_plan_item_id),
{
    let events = rollout::recorded_events::<Id, Input>(thread_id, params, ids, now);
    let completion: EventView<Id, Input> = rollout::plan_completed(
        thread_id,
        ids,
        params.final_plan_markdown,
    );
    assert(events[events.len() - 2] == completion);
    if history.contains(RolloutItemView::EventMsg(completion)) {
        let i = choose|i: int|
            0 <= i < history.len() && history[i] == RolloutItemView::EventMsg(completion);
        assert(rollout::completes_plan(history[i], ids.final_plan_item_id));
    }
}

/// A commit records the completion of no plan item but its own.
pub proof fn law_no_other_plan_is_recorded<Id, Input>(
    thread_id: Id,
    params: ParamsView<Input>,
    ids: IdsView,
    now: i64,
    other: Seq<char>,
)
    requires
        other != ids.final_plan_item_id,
    ensures
        !rollout::plan_recorded(
            as_history(rollout::recorded_events::<Id, Input>(thread_id, params, ids, now)),
            other,
        ),
{
    let request = rollout::request_turn::<Id, Input>(
        ids.original_request_turn_id,
        params.original_user_input,
        now,
    );
    let blocks = rollout::context_turns::<Id, Input>(
        ids.committed_visible_context_turn_ids,
        params.committed_visible_context_turns,
        now,
    );
    let plan = rollout::plan_turn::<Id, Input>(thread_id, ids, params.final_plan_markdown, now);
    let events = rollout::recorded_events::<Id, Input>(thread_id, params, ids, now);
    lemma_flatten_all(blocks, |event: EventView<Id, Input>| !(event is ItemCompleted));
    assert forall|i: int| 0 <= i < events.len() implies !rollout::completes_plan(
        #[trigger] as_history(events)[i],
        other,
    ) by {
        let context = request.len() + blocks.flatten().len();
        if i < request.len() {
            assert(events[i] == request[i]);
        } else if i < context {
            assert(events[i] == blocks.flatten()[i - request.len()]);
        } else {
            assert(events[i] == plan[i - context]);
        }
    }
}

// ---------------------------------------------------------------------------
// The rollout, the model and the clients agree
// ---------------------------------------------------------------------------
/// Something said, and by whom.
pub enum Utterance<Input> {
    User { inputs: Seq<Input> },
    Agent { text: Seq<char> },
}

/// The text of a message.
pub open spec fn content_text(content: Seq<ContentItemView>) -> Seq<char> {
    Seq::new(
        content.len(),
        |i: int|
            match content[i] {
                ContentItemView::OutputText { text } => text,
            },
    ).flatten()
}

/// What an item that the model is given says.
pub open spec fn utterance<Input>(item: ResponseItemView<Input>) -> Utterance<Input> {
    match item {
        ResponseItemView::UserInput { inputs } => Utterance::User { inputs },
        ResponseItemView::Message { content, .. } => Utterance::Agent {
            text: content_text(content),
        },
    }
}

/// What the items that the model is given say, in order.
pub open spec fn utterances<Input>(items: Seq<ResponseItemView<Input>>) -> Seq<Utterance<Input>> {
    Seq::new(items.len(), |i: int| utterance(items[i]))
}

/// What an item of a turn that was read back says.
pub open spec fn item_said<Input>(item: ReplayedItem<Input>) -> Utterance<Input> {
    match item {
        ReplayedItem::UserMessage { inputs } => Utterance::User { inputs },
        ReplayedItem::AgentMessage { text } => Utterance::Agent { text },
        ReplayedItem::Plan { text, .. } => Utterance::Agent { text },
    }
}

/// What a turn that was read back says.
pub open spec fn turn_said<Input>(turn: ReplayedTurn<Input>) -> Seq<Utterance<Input>> {
    Seq::new(turn.items.len(), |i: int| item_said(turn.items[i]))
}

/// What turns that were read back say, one after another.
pub open spec fn turns_said<Input>(turns: Seq<ReplayedTurn<Input>>) -> Seq<Utterance<Input>> {
    Seq::new(turns.len(), |i: int| turn_said(turns[i])).flatten()
}

proof fn lemma_turns_said_push<Input>(
    turns: Seq<ReplayedTurn<Input>>,
    turn: ReplayedTurn<Input>,
)
    ensures
        turns_said(turns.push(turn)) == turns_said(turns) + turn_said(turn),
{
    let said = Seq::new(turns.len(), |i: int| turn_said(turns[i]));
    assert(Seq::new(turns.push(turn).len(), |i: int| turn_said(turns.push(turn)[i])) =~= said.push(
        turn_said(turn),
    ));
    said.lemma_flatten_push(turn_said(turn));
}

proof fn lemma_agent_message_said<Input>(item: ResponseItemView<Input>, text: Seq<char>)
    requires
        item matches ResponseItemView::Message { content, .. } && content == seq![
            ContentItemView::OutputText { text },
        ],
    ensures
        utterance(item) == (Utterance::<Input>::Agent { text }),
{
    let content = item->content;
    let parts = Seq::new(
        content.len(),
        |i: int|
            match content[i] {
                ContentItemView::OutputText { text } => text,
            },
    );
    assert(parts =~= seq![text]);
    parts.lemma_flatten_one_element();
}

proof fn lemma_context_turn_said<Input>(turn_id: Seq<char>, said: Seq<ContextItemView<Input>>)
    ensures
        utterances(context::visible_turn(said)) == turn_said(context_turn_read(turn_id, said)),
{
    let items = context::visible_turn(said);
    assert forall|i: int| 0 <= i < said.len() implies #[trigger] utterance(items[i]) == item_said(
        context_item_read(said[i]),
    ) by {
        match said[i] {
            ContextItemView::AgentMessage { text } => {
                lemma_agent_message_said(items[i], text);
            },
            _ => {},
        }
    }
    assert(utterances(items) =~= turn_said(context_turn_read(turn_id, said)));
}

proof fn lemma_context_turns_said<Input>(
    turns: Seq<ReplayedTurn<Input>>,
    turn_ids: Seq<Seq<char>>,
    said: Seq<Seq<ContextItemView<Input>>>,
)
    requires
        turn_ids.len() == said.len(),
    ensures
        turns_said(
            turns + Seq::new(said.len(), |i: int| context_turn_read(turn_ids[i], said[i])),
        ) == turns_said(turns) + utterances(context::visible_turns(said).flatten()),
    decreases said.len(),
{
    let read = Seq::new(said.len(), |i: int| context_turn_read(turn_ids[i], said[i]));
    let blocks = context::visible_turns(said);
    if said.len() == 0 {
        assert(turns + read =~= turns);
        assert(utterances(blocks.flatten()) =~= Seq::empty());
        assert(turns_said(turns) + utterances(blocks.flatten()) =~= turns_said(turns));
    } else {
        let ids_before = turn_ids.drop_last();
        let said_before = said.drop_last();
        let read_before = Seq::new(
            said_before.len(),
            |i: int| context_turn_read(ids_before[i], said_before[i]),
        );
        let blocks_before = context::visible_turns(said_before);
        let last = context_turn_read(turn_ids.last(), said.last());
        let block = context::visible_turn(said.last());
        lemma_context_turns_said(turns, ids_before, said_before);
        assert(turns + read =~= (turns + read_before).push(last));
        lemma_turns_said_push(turns + read_before, last);
        lemma_context_turn_said(turn_ids.last(), said.last());
        assert(blocks =~= blocks_before.push(block));
        blocks_before.lemma_flatten_push(block);
        assert(utterances(blocks.flatten()) =~= utterances(blocks_before.flatten()) + utterances(
            block,
        ));
        assert(turns_said(turns + read) =~= turns_said(turns) + utterances(blocks.flatten()));
    }
}

/// What the rollout of a commit reads back as says the same things, by the same
/// speakers and in the same order, as what the model is given.
pub proof fn law_model_and_rollout_agree<Id, Input>(
    thread_id: Id,
    params: ParamsView<Input>,
    now: i64,
)
    ensures
        turns_said(
            replay(
                seq![],
                rollout::recorded_events::<Id, Input>(thread_id, params, ids::ids_of(params), now),
            ),
        ) == utterances(context::model_context(params)),
{
    let view = ids::ids_of(params);
    law_recorded_events_read_back::<Id, Input>(seq![], thread_id, params, now);
    let all = conversation(params, view);
    assert(seq![] + all =~= all);
    let plan = all.last();
    let request: Seq<ReplayedTurn<Input>> = match params.original_user_input {
        Some(inputs) => seq![all.first()],
        None => seq![],
    };
    let read = Seq::new(
        params.committed_visible_context_turns.len(),
        |i: int|
            context_turn_read(
                view.committed_visible_context_turn_ids[i],
                params.committed_visible_context_turns[i],
            ),
    );
    assert(all =~= (request + read).push(plan));
    lemma_turns_said_push(request + read, plan);
    lemma_context_turns_said(
        request,
        view.committed_visible_context_turn_ids,
        params.committed_visible_context_turns,
    );
    let items = context::model_context(params);
    let shown = context::visible_request(params.original_user_input);
    match params.original_user_input {
        Some(inputs) => {
            let none = Seq::<ReplayedTurn<Input>>::empty();
            assert(request =~= none.push(all.first()));
            lemma_turns_said_push(none, all.first());
            assert(turns_said(none) =~= Seq::empty());
            assert(turns_said(request) =~= utterances(shown));
        },
        None => {
            assert(turns_said(request) =~= utterances(shown));
        },
    }
    lemma_agent_message_said(items.last(), params.final_plan_markdown);
    assert(turn_said(plan) =~= seq![utterance(items.last())]);
    assert(utterances(items) =~= utterances(shown) + utterances(
        context::visible_turns(params.committed_visible_context_turns).flatten(),
    ) + seq![utterance(items.last())]);
}

/// `notification` tells of `event`, which happened at `now` in the thread
/// `thread_id`.
pub open spec fn tells<Id, Input>(
    notification: NotificationView,
    thread_id: Seq<char>,
    event: EventView<Id, Input>,
    now: i64,
) -> bool {
    match event {
        EventView::TurnStarted(start) => notification == NotificationView::TurnStarted {
            thread_id,
            turn: TurnView {
                id: start.turn_id,
                items: seq![],
                status: TurnStatus::InProgress,
                error: None,
                started_at: Some(now),
                completed_at: None,
                duration_ms: None,
            },
        },
        EventView::ItemStarted { turn_id, item: TurnItemView::Plan { id, text }, .. } => {
            notification == NotificationView::ItemStarted {
                thread_id,
                turn_id,
                item: ThreadItemView::Plan { id, text },
            }
        },
        EventView::ItemCompleted { turn_id, item: TurnItemView::Plan { id, text }, .. } => {
            notification == NotificationView::ItemCompleted {
                thread_id,
                turn_id,
                item: ThreadItemView::Plan { id, text },
            }
        },
        EventView::TurnComplete(end) => notification == NotificationView::TurnCompleted {
            thread_id,
            turn: TurnView {
                id: end.turn_id,
                items: seq![],
                status: TurnStatus::Completed,
                error: None,
                started_at: Some(now),
                completed_at: end.completed_at,
                duration_ms: end.duration_ms,
            },
        },
        _ => false,
    }
}

/// Clients are told of the plan turn what is recorded of it, event by event.
pub proof fn law_clients_are_told_what_is_recorded<Id, Input>(
    thread_text: Seq<char>,
    thread_id: Id,
    ids: IdsView,
    plan: Seq<char>,
    now: i64,
)
    ensures
        notifications::plan_told(thread_text, ids, plan, now).len() == rollout::plan_turn::<
            Id,
            Input,
        >(thread_id, ids, plan, now).len(),
        forall|i: int|
            0 <= i < notifications::plan_told(thread_text, ids, plan, now).len() ==> tells(
                #[trigger] notifications::plan_told(thread_text, ids, plan, now)[i],
                thread_text,
                rollout::plan_turn::<Id, Input>(thread_id, ids, plan, now)[i],
                now,
            ),
{
}

} // verus!
