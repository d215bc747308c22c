//! The identifiers of the turns and of the plan item that a commit records.
//!
//! They are derived from the request, so a repeated request has the same ones.

use vstd::prelude::*;

use crate::hash;
use crate::protocol;
use crate::protocol::{
    ParamsView, ResponseView, ThreadSuperplanCommitParams, ThreadSuperplanCommitResponse,
};
use crate::text;

verus! {

/// The identifiers of one commit.
#[derive(Debug, PartialEq, Eq)]
pub struct SuperplanCommitIds {
    pub original_request_turn_id: Option<String>,
    pub committed_visible_context_turn_ids: Vec<String>,
    pub final_plan_turn_id: String,
    pub final_plan_item_id: String,
}

pub struct IdsView {
    pub original_request_turn_id: Option<Seq<char>>,
    pub committed_visible_context_turn_ids: Seq<Seq<char>>,
    pub final_plan_turn_id: Seq<char>,
    pub final_plan_item_id: Seq<char>,
}

impl View for SuperplanCommitIds {
    type V = IdsView;

    open spec fn view(&self) -> IdsView {
        IdsView {
            original_request_turn_id: protocol::text_view(self.original_request_turn_id),
            committed_visible_context_turn_ids: protocol::views(
                self.committed_visible_context_turn_ids@,
            ),
            final_plan_turn_id: self.final_plan_turn_id@,
            final_plan_item_id: self.final_plan_item_id@,
        }
    }
}

/// What tells one commit from another: thread, job and idempotency key, each on
/// a line of its own.
pub open spec fn commit_key(
    thread_id: Seq<char>,
    job_id: Seq<char>,
    idempotency_key: Seq<char>,
) -> Seq<char> {
    thread_id + "\n"@ + job_id + "\n"@ + idempotency_key
}

/// What all identifiers of a commit begin with.
pub open spec fn id_prefix<Input>(params: ParamsView<Input>) -> Seq<char> {
    "superplan-"@ + text::hex_digits(
        hash::text_hash(
            commit_key(params.thread_id, params.job_id, params.idempotency_key),
        ),
    )
}

/// The identifier of the context turn at `index`.
pub open spec fn context_turn_id(prefix: Seq<char>, index: int) -> Seq<char> {
    prefix + "-context-"@ + text::padded_digits(index as nat)
}

/// The identifiers of the first `count` context turns.
pub open spec fn context_turn_ids(prefix: Seq<char>, count: nat) -> Seq<Seq<char>> {
    Seq::new(count, |i: int| context_turn_id(prefix, i))
}

/// The identifiers of the commit that `params` asks for: one for the original
/// request where there is one, one for each context turn, and those of the plan.
pub open spec fn ids_of<Input>(params: ParamsView<Input>) -> IdsView {
    let prefix = id_prefix(params);
    IdsView {
        original_request_turn_id: if params.original_user_input is Some {
            Some(prefix + "-request"@)
        } else {
            None
        },
        committed_visible_context_turn_ids: context_turn_ids(
            prefix,
            params.committed_visible_context_turns.len(),
        ),
        final_plan_turn_id: prefix + "-plan-turn"@,
        final_plan_item_id: prefix + "-plan-item"@,
    }
}

/// Derives the identifiers of a commit from its request.
pub fn commit_ids<Input>(params: &ThreadSuperplanCommitParams<Input>) -> (ids: SuperplanCommitIds)
    ensures
        ids@ == ids_of(params@),
{
    broadcast use crate::protocol::lemma_views_push;

    let key = params.thread_id.clone().concat("\n").concat(params.job_id.as_str()).concat(
        "\n",
    ).concat(params.idempotency_key.as_str());
    let hash = hash::stable_hex_hash(key.as_str());
    let prefix = "superplan-".to_string().concat(hash.as_str());
    let original_request_turn_id = match &params.original_user_input {
        Some(_) => Some(prefix.clone().concat("-request")),
        None => None,
    };
    let turns = &params.committed_visible_context_turns;
    let mut turn_ids: Vec<String> = Vec::new();
    let mut index: usize = 0;
    while index < turns.len()
        invariant
            index <= turns@.len(),
            protocol::views(turn_ids@) == context_turn_ids(prefix@, index as nat),
        decreases turns@.len() - index,
    {
        let turn_id = prefix.clone().concat("-context-").concat(text::padded_text(index).as_str());
        assert(turn_id@ == context_turn_id(prefix@, index as int));
        turn_ids.push(turn_id);
        index = index + 1;
        assert(context_turn_ids(prefix@, index as nat) =~= context_turn_ids(
            prefix@,
            (index - 1) as nat,
        ).push(context_turn_id(prefix@, index - 1)));
    }
    SuperplanCommitIds {
        original_request_turn_id,
        committed_visible_context_turn_ids: turn_ids,
        final_plan_turn_id: prefix.clone().concat("-plan-turn"),
        final_plan_item_id: prefix.concat("-plan-item"),
    }
}

/// The answer that hands out `ids`.
pub open spec fn response_with(
    ids: IdsView,
    already_committed: bool,
) -> ResponseView {
    ResponseView {
        original_request_turn_id: ids.original_request_turn_id,
        committed_visible_context_turn_ids: ids.committed_visible_context_turn_ids,
        final_plan_turn_id: ids.final_plan_turn_id,
        final_plan_item_id: ids.final_plan_item_id,
        already_committed,
    }
}

/// Answers with `ids`, and whether an earlier request had committed them.
pub fn response_from_ids(
    ids: SuperplanCommitIds,
    already_committed: bool,
) -> (response: ThreadSuperplanCommitResponse)
    ensures
        response@ == response_with(ids@, already_committed),
{
    ThreadSuperplanCommitResponse {
        original_request_turn_id: ids.original_request_turn_id,
        committed_visible_context_turn_ids: ids.committed_visible_context_turn_ids,
        final_plan_turn_id: ids.final_plan_turn_id,
        final_plan_item_id: ids.final_plan_item_id,
        already_committed,
    }
}

} // verus!
