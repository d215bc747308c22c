//! The history that the model is given of a committed plan.

use vstd::prelude::*;

use crate::protocol;
use crate::protocol::{
    CommittedVisibleContextItem, ContentItem, ContentItemView, ContextItemView, MessagePhase,
    ParamsView, ResponseItem, ResponseItemView, ThreadSuperplanCommitParams,
};

verus! {

/// A message of the agent.
pub open spec fn agent_message<Input>(
    text: Seq<char>,
    phase: Option<MessagePhase>,
) -> ResponseItemView<Input> {
    ResponseItemView::Message {
        id: None,
        role: "assistant"@,
        content: seq![ContentItemView::OutputText { text }],
        end_turn: None,
        phase,
    }
}

/// What the model is given of something said in a context turn.
pub open spec fn visible_item<Input>(
    item: ContextItemView<Input>,
) -> ResponseItemView<Input> {
    match item {
        ContextItemView::UserMessage { content } => {
            ResponseItemView::UserInput { inputs: content }
        },
        ContextItemView::AgentMessage { text } => agent_message(text, None),
    }
}

/// What the model is given of a context turn.
pub open spec fn visible_turn<Input>(
    turn: Seq<ContextItemView<Input>>,
) -> Seq<ResponseItemView<Input>> {
    Seq::new(turn.len(), |i: int| visible_item(turn[i]))
}

/// What the model is given of each context turn.
pub open spec fn visible_turns<Input>(
    turns: Seq<Seq<ContextItemView<Input>>>,
) -> Seq<Seq<ResponseItemView<Input>>> {
    Seq::new(turns.len(), |i: int| visible_turn(turns[i]))
}

/// What the model is given of the original request.
pub open spec fn visible_request<Input>(
    request: Option<Seq<Input>>,
) -> Seq<ResponseItemView<Input>> {
    match request {
        Some(inputs) => seq![ResponseItemView::UserInput { inputs }],
        None => seq![],
    }
}

/// All that the model is given: the original request, the context turns one
/// after another, and the plan as the final answer.
pub open spec fn model_context<Input>(
    params: ParamsView<Input>,
) -> Seq<ResponseItemView<Input>> {
    visible_request(params.original_user_input) + visible_turns(
        params.committed_visible_context_turns,
    ).flatten() + seq![agent_message(params.final_plan_markdown, Some(MessagePhase::FinalAnswer))]
}

/// The message that `inputs` amount to, as the user's. It carries the inputs
/// themselves: how the model is shown them is settled where the item is injected.
pub fn user_inputs_to_response_item<'a, Input>(inputs: &'a [Input]) -> (item: ResponseItem<
    'a,
    Input,
>)
    ensures
        item@ == (ResponseItemView::UserInput { inputs: inputs@ }),
{
    ResponseItem::UserInput { inputs }
}

/// A message of the agent.
pub fn agent_message_response_item<'a, Input>(
    text: String,
    phase: Option<MessagePhase>,
) -> (item: ResponseItem<'a, Input>)
    ensures
        item@ == agent_message::<Input>(text@, phase),
{
    let mut content: Vec<ContentItem> = Vec::new();
    content.push(ContentItem::OutputText { text });
    assert(protocol::views(content@) =~= seq![
        ContentItemView::OutputText { text: text@ },
    ]);
    ResponseItem::Message { id: None, role: "assistant".to_string(), content, end_turn: None, phase }
}

/// Lists what the model is given of the commit that `params` asks for.
pub fn model_visible_items<'a, Input>(
    params: &'a ThreadSuperplanCommitParams<Input>,
) -> (items: Vec<ResponseItem<'a, Input>>)
    ensures
        protocol::views(items@) == model_context(params@),
{
    broadcast use crate::protocol::lemma_views_push;

    let mut items: Vec<ResponseItem<'a, Input>> = Vec::new();
    let ghost request = visible_request(params@.original_user_input);
    let ghost blocks = visible_turns(params@.committed_visible_context_turns);

    if let Some(original_user_input) = &params.original_user_input {
        items.push(user_inputs_to_response_item(original_user_input.as_slice()));
    }
    assert(protocol::views(items@) =~= request);

    let turns = &params.committed_visible_context_turns;
    let mut t: usize = 0;
    assert(request + blocks.take(0).flatten() =~= request);
    while t < turns.len()
        invariant
            t <= turns@.len(),
            turns@ == params.committed_visible_context_turns@,
            blocks == visible_turns(params@.committed_visible_context_turns),
            protocol::views(items@) == request + blocks.take(t as int).flatten(),
        decreases turns@.len() - t,
    {
        let turn = &turns[t];
        let ghost block = visible_turn(turn@);
        assert(block == blocks[t as int]);
        let ghost before = protocol::views(items@);
        let mut i: usize = 0;
        while i < turn.items.len()
            invariant
                i <= turn.items@.len(),
                block == visible_turn(turn@),
                protocol::views(items@) == before + block.take(i as int),
            decreases turn.items@.len() - i,
        {
            match &turn.items[i] {
                CommittedVisibleContextItem::UserMessage { content } => {
                    items.push(user_inputs_to_response_item(content.as_slice()));
                },
                CommittedVisibleContextItem::AgentMessage { text } => {
                    items.push(agent_message_response_item(text.clone(), None));
                },
            }
            assert(items@.last()@ == block[i as int]);
            assert(before + block.take(i + 1) =~= (before + block.take(i as int)).push(
                block[i as int],
            ));
            i = i + 1;
        }
        assert(block.take(i as int) =~= block);
        assert(blocks.take(t + 1) =~= blocks.take(t as int).push(block));
        proof {
            blocks.take(t as int).lemma_flatten_push(block);
        }
        t = t + 1;
    }
    assert(blocks.take(t as int) =~= blocks);

    items.push(
        agent_message_response_item(
            params.final_plan_markdown.clone(),
            Some(MessagePhase::FinalAnswer),
        ),
    );
    items
}

} // verus!
