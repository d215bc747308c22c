//! Which requests are refused, and in what words.

use vstd::prelude::*;

use crate::protocol::{ErrorView, ParamsView, SuperplanCommitError, ThreadSuperplanCommitParams};
use crate::text;

verus! {

/// Why a request is refused before anything is done for it; `None` where it is
/// not. Of several reasons the first counts.
pub open spec fn refusal<Input>(
    params: ParamsView<Input>,
) -> Option<ErrorView> {
    if text::is_blank(params.job_id) {
        Some(ErrorView::InvalidRequest("jobId must not be empty"@))
    } else if text::is_blank(params.idempotency_key) {
        Some(ErrorView::InvalidRequest("idempotencyKey must not be empty"@))
    } else if text::is_blank(params.final_plan_markdown) {
        Some(ErrorView::InvalidRequest("finalPlanMarkdown must not be empty"@))
    } else {
        None
    }
}

/// Accepts a request whose job, idempotency key and plan all hold more than
/// white space.
pub fn validate_params<Input>(params: &ThreadSuperplanCommitParams<Input>) -> (result: Result<
    (),
    SuperplanCommitError,
>)
    ensures
        match result {
            Ok(_) => refusal(params@) is None,
            Err(error) => refusal(params@) == Some(error@),
        },
{
    if text::blank(params.job_id.as_str()) {
        return Err(
            SuperplanCommitError::InvalidRequest("jobId must not be empty".to_string()),
        );
    }
    if text::blank(params.idempotency_key.as_str()) {
        return Err(
            SuperplanCommitError::InvalidRequest("idempotencyKey must not be empty".to_string()),
        );
    }
    if text::blank(params.final_plan_markdown.as_str()) {
        return Err(
            SuperplanCommitError::InvalidRequest(
                "finalPlanMarkdown must not be empty".to_string(),
            ),
        );
    }
    Ok(())
}

} // verus!
