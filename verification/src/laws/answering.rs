//! What holds of the answer to a commit, and how it agrees with what is recorded.

use vstd::prelude::*;

use crate::commit;
use crate::ids;
use crate::ids::IdsView;
use crate::laws::recording;
use crate::laws::recording::{ReplayedItem, ReplayedTurn};
use crate::protocol::{ContextItemView, ParamsView, ResponseView};
use crate::rollout;

verus! {

/// An answer hands out each identifier of the commit as it is, all of those of the
/// context turns among them, and says whether the plan was there already.
pub proof fn law_answer_hands_out_the_ids(ids: IdsView, already_committed: bool)
    ensures
        ({
            let answer = ids::response_with(ids, already_committed);
            &&& answer.original_request_turn_id == ids.original_request_turn_id
            &&& answer.committed_visible_context_turn_ids.len()
                == ids.committed_visible_context_turn_ids.len()
            &&& forall|i: int|
                0 <= i < ids.committed_visible_context_turn_ids.len() ==> #[trigger]
                answer.committed_visible_context_turn_ids[i]
                    == ids.committed_visible_context_turn_ids[i]
            &&& answer.final_plan_turn_id == ids.final_plan_turn_id
            &&& answer.final_plan_item_id == ids.final_plan_item_id
            &&& answer.already_committed == already_committed
        }),
{
}

/// `read` is what was there `before`, followed by the conversation of `params`: the
/// original request if it is given, each context turn, and the plan. Each is complete,
/// holds what was said, and stands under the identifier that `answer` gives for it;
/// and `answer` gives no others.
pub open spec fn reads_as_answered<Input>(
    read: Seq<ReplayedTurn<Input>>,
    before: Seq<ReplayedTurn<Input>>,
    params: ParamsView<Input>,
    answer: ResponseView,
) -> bool {
    let turns = params.committed_visible_context_turns;
    let start = before.len() as int;
    let lead: int = if params.original_user_input is Some {
        1
    } else {
        0
    };
    &&& answer.original_request_turn_id is Some <==> params.original_user_input is Some
    &&& answer.committed_visible_context_turn_ids.len() == turns.len()
    &&& read.len() == start + lead + turns.len() + 1
    &&& forall|i: int| 0 <= i < start ==> #[trigger] read[i] == before[i]
    &&& params.original_user_input matches Some(inputs) ==> {
        let turn = read[start];
        &&& turn.id == answer.original_request_turn_id->0
        &&& turn.items == seq![ReplayedItem::UserMessage { inputs }]
        &&& turn.complete
    }
    &&& forall|i: int|
        0 <= i < turns.len() ==> {
            let turn = read[start + lead + i];
            &&& turn.id == #[trigger] answer.committed_visible_context_turn_ids[i]
            &&& turn.items.len() == turns[i].len()
            &&& turn.complete
        }
    &&& forall|i: int, j: int|
        0 <= i < turns.len() && 0 <= j < turns[i].len() ==> read[start + lead + i].items[j]
            == match #[trigger] turns[i][j] {
            ContextItemView::UserMessage { content } => ReplayedItem::UserMessage {
                inputs: content,
            },
            ContextItemView::AgentMessage { text } => ReplayedItem::AgentMessage { text },
        }
    &&& read.last().id == answer.final_plan_turn_id
    &&& read.last().items == seq![
        ReplayedItem::<Input>::Plan {
            id: answer.final_plan_item_id,
            text: params.final_plan_markdown,
        },
    ]
    &&& read.last().complete
}

/// What a commit records reads back as the conversation of its request, turn by turn,
/// under the identifiers that the answer lists: one for the request exactly when it is
/// given, one for each context turn in order, and those of the plan. The answer to a
/// repeated request lists the same ones.
pub proof fn law_answer_names_what_reads_back<Id, Input>(
    before: Seq<ReplayedTurn<Input>>,
    thread_id: Id,
    params: ParamsView<Input>,
    now: i64,
)
    ensures
        ({
            let view = ids::ids_of(params);
            let read = recording::replay(
                before,
                rollout::recorded_events::<Id, Input>(thread_id, params, view, now),
            );
            &&& reads_as_answered(
                read,
                before,
                params,
                commit::committed(params, view, now).response,
            )
            &&& reads_as_answered(read, before, params, commit::repeated(view).response)
        }),
{
    recording::law_recorded_events_read_back::<Id, Input>(before, thread_id, params, now);
}

} // verus!
