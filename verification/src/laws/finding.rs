//! What holds of how an earlier commit is found.

use vstd::prelude::*;

use crate::protocol::{ErrorView, EventView, RolloutItemView, TurnItemView};
use crate::rollout;
use crate::rollout::LookupView;

verus! {

/// `item` is the completion of the plan item `plan_item_id`, in whatever thread and
/// turn, with whatever text.
pub open spec fn is_completion<Id, Input>(
    item: RolloutItemView<Id, Input>,
    plan_item_id: Seq<char>,
) -> bool {
    exists|thread_id: Id, turn_id: Seq<char>, text: Seq<char>|
        item == RolloutItemView::<Id, Input>::EventMsg(
            #[trigger] completion_in(thread_id, turn_id, plan_item_id, text),
        )
}

/// The completion of a plan item with `text`.
pub open spec fn completion_in<Id, Input>(
    thread_id: Id,
    turn_id: Seq<char>,
    plan_item_id: Seq<char>,
    text: Seq<char>,
) -> EventView<Id, Input> {
    EventView::ItemCompleted {
        thread_id,
        turn_id,
        item: TurnItemView::Plan { id: plan_item_id, text },
    }
}

/// Some item of `history` is the completion of the plan item.
pub open spec fn holds_completion<Id, Input>(
    history: Seq<RolloutItemView<Id, Input>>,
    plan_item_id: Seq<char>,
) -> bool {
    exists|i: int| 0 <= i < history.len() && is_completion(#[trigger] history[i], plan_item_id)
}

/// Nothing in the rollout shows that the plan item was completed, and the rollout
/// was read if there is one.
pub open spec fn unrecorded<Id, Input>(
    lookup: LookupView<Id, Input>,
    plan_item_id: Seq<char>,
) -> bool {
    match lookup {
        LookupView::NoPath => true,
        LookupView::Missing => true,
        LookupView::Unreadable(_) => false,
        LookupView::History(history) => !holds_completion(history, plan_item_id),
    }
}

proof fn lemma_is_completion<Id, Input>(
    item: RolloutItemView<Id, Input>,
    plan_item_id: Seq<char>,
)
    ensures
        rollout::completes_plan(item, plan_item_id) <==> is_completion(item, plan_item_id),
{
    match item {
        RolloutItemView::EventMsg(
            EventView::ItemCompleted { thread_id, turn_id, item: TurnItemView::Plan { id, text } },
        ) => {
            assert(item == RolloutItemView::<Id, Input>::EventMsg(
                completion_in(thread_id, turn_id, id, text),
            ));
        },
        _ => {},
    }
}

/// A thread without a rollout has recorded no plan. A rollout that cannot be read is
/// an error, in the reader's words. One that was read has recorded a plan exactly
/// when one of its items is the completion of the plan item.
pub proof fn law_completion_is_what_counts<Id, Input>(
    history: Seq<RolloutItemView<Id, Input>>,
    reason: Seq<char>,
    plan_item_id: Seq<char>,
)
    ensures
        rollout::recorded_before(LookupView::<Id, Input>::NoPath, plan_item_id) == Ok::<
            bool,
            ErrorView,
        >(false),
        rollout::recorded_before(LookupView::<Id, Input>::Missing, plan_item_id) == Ok::<
            bool,
            ErrorView,
        >(false),
        rollout::recorded_before(LookupView::<Id, Input>::Unreadable(reason), plan_item_id)
            == Err::<bool, ErrorView>(
            ErrorView::Internal("failed to read rollout history: "@ + reason),
        ),
        rollout::recorded_before(LookupView::<Id, Input>::History(history), plan_item_id) == Ok::<
            bool,
            ErrorView,
        >(holds_completion(history, plan_item_id)),
{
    if holds_completion(history, plan_item_id) {
        let i = choose|i: int|
            0 <= i < history.len() && is_completion(#[trigger] history[i], plan_item_id);
        lemma_is_completion(history[i], plan_item_id);
    }
    if rollout::plan_recorded(history, plan_item_id) {
        let i = choose|i: int|
            0 <= i < history.len() && rollout::completes_plan(#[trigger] history[i], plan_item_id);
        lemma_is_completion(history[i], plan_item_id);
    }
}

/// A completion is found wherever it stands: two histories one after the other show
/// a plan exactly when one of them does.
pub proof fn law_completion_is_found_anywhere<Id, Input>(
    a: Seq<RolloutItemView<Id, Input>>,
    b: Seq<RolloutItemView<Id, Input>>,
    plan_item_id: Seq<char>,
)
    ensures
        rollout::recorded_before(LookupView::<Id, Input>::History(a + b), plan_item_id) == Ok::<
            bool,
            ErrorView,
        >(true) <==> (rollout::recorded_before(LookupView::<Id, Input>::History(a), plan_item_id)
            == Ok::<bool, ErrorView>(true) || rollout::recorded_before(
            LookupView::<Id, Input>::History(b),
            plan_item_id,
        ) == Ok::<bool, ErrorView>(true)),
{
    let both = a + b;
    if rollout::plan_recorded(both, plan_item_id) {
        let i = choose|i: int|
            0 <= i < both.len() && rollout::completes_plan(#[trigger] both[i], plan_item_id);
        if i < a.len() {
            assert(a[i] == both[i]);
        } else {
            assert(b[i - a.len()] == both[i]);
        }
    }
    if rollout::plan_recorded(a, plan_item_id) {
        let i = choose|i: int|
            0 <= i < a.len() && rollout::completes_plan(#[trigger] a[i], plan_item_id);
        assert(both[i] == a[i]);
    }
    if rollout::plan_recorded(b, plan_item_id) {
        let i = choose|i: int|
            0 <= i < b.len() && rollout::completes_plan(#[trigger] b[i], plan_item_id);
        assert(both[a.len() + i] == b[i]);
    }
}

} // verus!
