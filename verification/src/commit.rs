//! The course of a commit, step by step.
//!
//! A commit alternates between deciding and work on the thread: parsing its
//! identifier, reading its rollout, writing to it. The deciding is done here. Each
//! step takes the state of the commit and what came of the last piece of work, and
//! gives the next state and the next piece of work.

use vstd::prelude::*;

use crate::context;
use crate::ids;
use crate::ids::{IdsView, SuperplanCommitIds};
use crate::notifications;
use crate::protocol;
use crate::protocol::{
    ErrorView, EventMsg, EventView, OutcomeView, ParamsView, ResponseItem, ResponseItemView,
    ServerNotification, SuperplanCommitError, SuperplanCommitOutcome, ThreadSuperplanCommitParams,
};
use crate::rollout;
use crate::rollout::{LookupView, RolloutLookup};
use crate::validation;

verus! {

/// How far a commit has come: the work that it waits for.
#[derive(Debug, PartialEq, Eq)]
pub enum CommitState<Id> {
    /// Nothing was done yet.
    Received,
    /// The thread identifier is being parsed.
    Identifying,
    /// The rollout is being brought into being.
    Materializing { thread_id: Id },
    /// The rollout is being read.
    Checking { thread_id: Id, ids: SuperplanCommitIds },
    /// The model is being given the plan.
    Injecting { thread_id: Id, ids: SuperplanCommitIds, now: i64 },
    /// The events are being recorded.
    Recording { ids: SuperplanCommitIds, now: i64 },
    /// There is an answer.
    Finished,
}

/// What came of a piece of work. A failure comes with its reason in words.
#[derive(Debug, PartialEq, Eq)]
pub enum CommitEvent<'a, Id, Input> {
    /// The request is here.
    Begin,
    ThreadIdParsed(Result<Id, String>),
    RolloutMaterialized,
    RolloutLookedUp(RolloutLookup<'a, Id, Input>),
    ItemsInjected(Result<(), String>),
    EventsAppended(Result<(), String>),
}

/// The next piece of work.
#[derive(Debug, PartialEq, Eq)]
pub enum CommitAction<'a, Id, Input> {
    /// Parse the thread identifier.
    ParseThreadId(&'a str),
    /// Make sure that the thread's rollout exists.
    MaterializeRollout,
    /// Read the thread's rollout.
    LookUpRollout,
    /// Add the items to the history that the model is given.
    InjectItems(Vec<ResponseItem<'a, Input>>),
    /// Add the events to the thread's rollout.
    AppendEvents(Vec<EventMsg<'a, Id, Input>>),
    /// Answer the request.
    Finish(Result<SuperplanCommitOutcome, SuperplanCommitError>),
    /// Go on waiting: this was not what the commit waits for.
    Wait,
}

pub enum StateView<Id> {
    Received,
    Identifying,
    Materializing { thread_id: Id },
    Checking { thread_id: Id, ids: IdsView },
    Injecting { thread_id: Id, ids: IdsView, now: i64 },
    Recording { ids: IdsView, now: i64 },
    Finished,
}

pub enum CommitEventView<Id, Input> {
    Begin,
    ThreadIdParsed(Result<Id, Seq<char>>),
    RolloutMaterialized,
    RolloutLookedUp(LookupView<Id, Input>),
    ItemsInjected(Result<(), Seq<char>>),
    EventsAppended(Result<(), Seq<char>>),
}

pub enum ActionView<Id, Input> {
    ParseThreadId(Seq<char>),
    MaterializeRollout,
    LookUpRollout,
    InjectItems(Seq<ResponseItemView<Input>>),
    AppendEvents(Seq<EventView<Id, Input>>),
    Finish(Result<OutcomeView, ErrorView>),
    Wait,
}

/// The view of a result whose failure is a reason in words.
pub open spec fn reason_view<T>(result: Result<T, String>) -> Result<T, Seq<char>> {
    match result {
        Ok(value) => Ok(value),
        Err(reason) => Err(reason@),
    }
}

/// The view of an answer.
pub open spec fn answer_view(
    answer: Result<SuperplanCommitOutcome, SuperplanCommitError>,
) -> Result<OutcomeView, ErrorView> {
    match answer {
        Ok(outcome) => Ok(outcome@),
        Err(error) => Err(error@),
    }
}

impl<Id> View for CommitState<Id> {
    type V = StateView<Id>;

    open spec fn view(&self) -> StateView<Id> {
        match self {
            CommitState::Received => StateView::Received,
            CommitState::Identifying => StateView::Identifying,
            CommitState::Materializing { thread_id } => StateView::Materializing {
                thread_id: *thread_id,
            },
            CommitState::Checking { thread_id, ids } => StateView::Checking {
                thread_id: *thread_id,
                ids: ids@,
            },
            CommitState::Injecting { thread_id, ids, now } => StateView::Injecting {
                thread_id: *thread_id,
                ids: ids@,
                now: *now,
            },
            CommitState::Recording { ids, now } => StateView::Recording { ids: ids@, now: *now },
            CommitState::Finished => StateView::Finished,
        }
    }
}

impl<'a, Id, Input> View for CommitEvent<'a, Id, Input> {
    type V = CommitEventView<Id, Input>;

    open spec fn view(&self) -> CommitEventView<Id, Input> {
        match self {
            CommitEvent::Begin => CommitEventView::Begin,
            CommitEvent::ThreadIdParsed(result) => CommitEventView::ThreadIdParsed(
                reason_view(*result),
            ),
            CommitEvent::RolloutMaterialized => CommitEventView::RolloutMaterialized,
            CommitEvent::RolloutLookedUp(lookup) => CommitEventView::RolloutLookedUp(lookup@),
            CommitEvent::ItemsInjected(result) => CommitEventView::ItemsInjected(
                reason_view(*result),
            ),
            CommitEvent::EventsAppended(result) => CommitEventView::EventsAppended(
                reason_view(*result),
            ),
        }
    }
}

impl<'a, Id, Input> View for CommitAction<'a, Id, Input> {
    type V = ActionView<Id, Input>;

    open spec fn view(&self) -> ActionView<Id, Input> {
        match self {
            CommitAction::ParseThreadId(text) => ActionView::ParseThreadId(text@),
            CommitAction::MaterializeRollout => ActionView::MaterializeRollout,
            CommitAction::LookUpRollout => ActionView::LookUpRollout,
            CommitAction::InjectItems(items) => ActionView::InjectItems(protocol::views(items@)),
            CommitAction::AppendEvents(events) => ActionView::AppendEvents(
                protocol::views(events@),
            ),
            CommitAction::Finish(answer) => ActionView::Finish(answer_view(*answer)),
            CommitAction::Wait => ActionView::Wait,
        }
    }
}

/// The step that ends a commit with `answer`.
pub open spec fn finish<Id, Input>(answer: Result<OutcomeView, ErrorView>) -> (
    StateView<Id>,
    ActionView<Id, Input>,
) {
    (StateView::Finished, ActionView::Finish(answer))
}

/// The answer to a request whose plan was committed before: the identifiers it
/// was committed under, and nothing to tell.
pub open spec fn repeated(ids: IdsView) -> OutcomeView {
    OutcomeView { response: ids::response_with(ids, true), notifications: seq![] }
}

/// The answer to a request whose plan was committed now.
pub open spec fn committed<Input>(params: ParamsView<Input>, ids: IdsView, now: i64) -> OutcomeView {
    OutcomeView {
        response: ids::response_with(ids, false),
        notifications: notifications::plan_told(
            params.thread_id,
            ids,
            params.final_plan_markdown,
            now,
        ),
    }
}

/// The step that begins to write, at `now`.
pub open spec fn begin_writing<Id, Input>(
    params: ParamsView<Input>,
    thread_id: Id,
    ids: IdsView,
    now: i64,
) -> (StateView<Id>, ActionView<Id, Input>) {
    (
        StateView::Injecting { thread_id, ids, now },
        ActionView::InjectItems(context::model_context(params)),
    )
}

/// What `event` leads to in `state`. The time `now` counts only where the step
/// begins to write.
pub open spec fn next<Id, Input>(
    params: ParamsView<Input>,
    state: StateView<Id>,
    event: CommitEventView<Id, Input>,
    now: i64,
) -> (StateView<Id>, ActionView<Id, Input>) {
    match (state, event) {
        (StateView::Received, CommitEventView::Begin) => match validation::refusal(params) {
            Some(error) => finish(Err(error)),
            None => (StateView::Identifying, ActionView::ParseThreadId(params.thread_id)),
        },
        (StateView::Identifying, CommitEventView::ThreadIdParsed(result)) => match result {
            Ok(thread_id) => (
                StateView::Materializing { thread_id },
                ActionView::MaterializeRollout,
            ),
            Err(reason) => finish(
                Err(ErrorView::InvalidRequest("invalid thread id: "@ + reason)),
            ),
        },
        (
            StateView::Materializing { thread_id },
            CommitEventView::RolloutMaterialized,
        ) => (
            StateView::Checking { thread_id, ids: ids::ids_of(params) },
            ActionView::LookUpRollout,
        ),
        (
            StateView::Checking { thread_id, ids },
            CommitEventView::RolloutLookedUp(lookup),
        ) => match rollout::recorded_before(lookup, ids.final_plan_item_id) {
            Ok(true) => finish(Ok(repeated(ids))),
            Ok(false) => begin_writing(params, thread_id, ids, now),
            Err(error) => finish(Err(error)),
        },
        (
            StateView::Injecting { thread_id, ids, now: began },
            CommitEventView::ItemsInjected(result),
        ) => match result {
            Ok(_) => (
                StateView::Recording { ids, now: began },
                ActionView::AppendEvents(rollout::recorded_events(thread_id, params, ids, began)),
            ),
            Err(reason) => finish(
                Err(
                    ErrorView::Internal(
                        "failed to persist model-visible Superplan context: "@ + reason,
                    ),
                ),
            ),
        },
        (
            StateView::Recording { ids, now: began },
            CommitEventView::EventsAppended(result),
        ) => match result {
            Ok(_) => finish(Ok(committed(params, ids, began))),
            Err(reason) => finish(
                Err(
                    ErrorView::Internal("failed to persist Superplan commit events: "@ + reason),
                ),
            ),
        },
        _ => (state, ActionView::Wait),
    }
}

/// Trusted: `chrono::Utc::now` reads the system clock, and
/// `chrono::DateTime::timestamp` gives its reading as whole seconds since the start
/// of 1970 in UTC. Nothing is claimed of the reading: it differs from call to call,
/// and need not grow. `now` panics where the clock shows a time before 1970 or later
/// than chrono's calendar reaches; no argument decides that.
#[verifier::external_body]
fn current_timestamp() -> i64 {
    chrono::Utc::now().timestamp()
}

/// Begins to write at `now`: the model is given the plan first.
pub fn begin_writing_at<'a, Id, Input>(
    params: &'a ThreadSuperplanCommitParams<Input>,
    thread_id: Id,
    ids: SuperplanCommitIds,
    now: i64,
) -> (step: (CommitState<Id>, CommitAction<'a, Id, Input>))
    ensures
        (step.0@, step.1@) == begin_writing(params@, thread_id, ids@, now),
{
    let items = context::model_visible_items(params);
    (CommitState::Injecting { thread_id, ids, now }, CommitAction::InjectItems(items))
}

/// Ends a commit with `answer`.
fn finish_with<'a, Id, Input>(
    answer: Result<SuperplanCommitOutcome, SuperplanCommitError>,
) -> (step: (CommitState<Id>, CommitAction<'a, Id, Input>))
    ensures
        (step.0@, step.1@) == finish::<Id, Input>(answer_view(answer)),
{
    (CommitState::Finished, CommitAction::Finish(answer))
}

/// Takes a commit one step further: from `state`, and `event` that came of the
/// last piece of work, to the next state and the next piece of work. Where the step
/// begins to write, it does so at the time that the clock shows.
pub fn commit_superplan_completed_plan_turn<'a, 'b, Id: Copy, Input>(
    params: &'a ThreadSuperplanCommitParams<Input>,
    state: CommitState<Id>,
    event: CommitEvent<'b, Id, Input>,
) -> (step: (CommitState<Id>, CommitAction<'a, Id, Input>))
    ensures
        exists|now: i64|
            (step.0@, step.1@) == #[trigger] next(params@, state@, event@, now),
{
    // What holds of the steps that do not read the clock.
    let ghost untimed = next(params@, state@, event@, 0);
    match (state, event) {
        (CommitState::Received, CommitEvent::Begin) => match validation::validate_params(params) {
            Err(error) => finish_with(Err(error)),
            Ok(_) => (
                CommitState::Identifying,
                CommitAction::ParseThreadId(params.thread_id.as_str()),
            ),
        },
        (CommitState::Identifying, CommitEvent::ThreadIdParsed(result)) => match result {
            Ok(thread_id) => (
                CommitState::Materializing { thread_id },
                CommitAction::MaterializeRollout,
            ),
            Err(reason) => finish_with(
                Err(
                    SuperplanCommitError::InvalidRequest(
                        "invalid thread id: ".to_string().concat(reason.as_str()),
                    ),
                ),
            ),
        },
        (CommitState::Materializing { thread_id }, CommitEvent::RolloutMaterialized) => (
            CommitState::Checking { thread_id, ids: ids::commit_ids(params) },
            CommitAction::LookUpRollout,
        ),
        (CommitState::Checking { thread_id, ids }, CommitEvent::RolloutLookedUp(lookup)) => {
            match rollout::commit_is_already_persisted(
                &lookup,
                ids.final_plan_item_id.as_str(),
            ) {
                Err(error) => finish_with(Err(error)),
                Ok(true) => {
                    let notifications: Vec<ServerNotification> = Vec::new();
                    assert(protocol::views(notifications@) =~= seq![]);
                    finish_with(
                        Ok(
                            SuperplanCommitOutcome {
                                response: ids::response_from_ids(ids, true),
                                notifications,
                            },
                        ),
                    )
                },
                Ok(false) => {
                    let now: i64 = current_timestamp();
                    assert(next(params@, state@, event@, now) == begin_writing(
                        params@,
                        thread_id,
                        ids@,
                        now,
                    ));
                    begin_writing_at(params, thread_id, ids, now)
                },
            }
        },
        (
            CommitState::Injecting { thread_id, ids, now },
            CommitEvent::ItemsInjected(result),
        ) => match result {
            Ok(_) => {
                let events = rollout::rollout_events(&thread_id, params, &ids, now);
                (CommitState::Recording { ids, now }, CommitAction::AppendEvents(events))
            },
            Err(reason) => finish_with(
                Err(
                    SuperplanCommitError::Internal(
                        "failed to persist model-visible Superplan context: ".to_string().concat(
                            reason.as_str(),
                        ),
                    ),
                ),
            ),
        },
        (CommitState::Recording { ids, now }, CommitEvent::EventsAppended(result)) => match result {
            Ok(_) => {
                let notifications = notifications::live_plan_notifications(
                    params.thread_id.as_str(),
                    &ids,
                    params.final_plan_markdown.as_str(),
                    now,
                );
                finish_with(
                    Ok(
                        SuperplanCommitOutcome {
                            response: ids::response_from_ids(ids, false),
                            notifications,
                        },
                    ),
                )
            },
            Err(reason) => finish_with(
                Err(
                    SuperplanCommitError::Internal(
                        "failed to persist Superplan commit events: ".to_string().concat(
                            reason.as_str(),
                        ),
                    ),
                ),
            ),
        },
        (state, _) => (state, CommitAction::Wait),
    }
}

} // verus!
