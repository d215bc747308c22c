//! What holds of the requests that are refused.

use vstd::prelude::*;

use crate::protocol::{ErrorView, ParamsView};
use crate::text;
use crate::validation;

verus! {

/// Some character of `text` is not white space.
pub open spec fn says_something(text: Seq<char>) -> bool {
    exists|i: int| 0 <= i < text.len() && !text::is_white_space(#[trigger] text[i])
}

/// Every text that a commit needs says something.
pub open spec fn acceptable<Input>(params: ParamsView<Input>) -> bool {
    &&& says_something(params.job_id)
    &&& says_something(params.idempotency_key)
    &&& says_something(params.final_plan_markdown)
}

/// A request is refused if and only if its job, its idempotency key or its plan
/// holds nothing but white space, and in the words for the first of these.
pub proof fn law_blank_texts_are_refused<Input>(params: ParamsView<Input>)
    ensures
        validation::refusal(params) is None <==> acceptable(params),
        !says_something(params.job_id) ==> validation::refusal(params) == Some(
            ErrorView::InvalidRequest("jobId must not be empty"@),
        ),
        says_something(params.job_id) && !says_something(params.idempotency_key)
            ==> validation::refusal(params) == Some(
            ErrorView::InvalidRequest("idempotencyKey must not be empty"@),
        ),
        says_something(params.job_id) && says_something(params.idempotency_key) && !says_something(
            params.final_plan_markdown,
        ) ==> validation::refusal(params) == Some(
            ErrorView::InvalidRequest("finalPlanMarkdown must not be empty"@),
        ),
{
}

/// Nothing but the job, the idempotency key and the plan decides whether a request
/// is refused: two requests that agree in them are refused alike or not at all.
pub proof fn law_no_other_field_is_refused<A, B>(a: ParamsView<A>, b: ParamsView<B>)
    requires
        a.job_id == b.job_id,
        a.idempotency_key == b.idempotency_key,
        a.final_plan_markdown == b.final_plan_markdown,
    ensures
        validation::refusal(a) == validation::refusal(b),
{
}

} // verus!
