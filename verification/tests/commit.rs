//! Commits from the request to the answer, on a thread that is kept in memory.

use superplan_commit::commit::{
    begin_writing_at, commit_superplan_completed_plan_turn, CommitAction, CommitEvent, CommitState,
};
use superplan_commit::ids::{commit_ids, SuperplanCommitIds};
use superplan_commit::protocol::{
    CommittedVisibleContextItem, CommittedVisibleContextTurn, ContentItem, EventMsg,
    ItemCompletedEvent, MessagePhase, PlanItem, ResponseItem, RolloutItem, ServerNotification,
    SuperplanCommitError, SuperplanCommitMetadata, SuperplanCommitOutcome, ThreadItem,
    ThreadSuperplanCommitParams, ThreadSuperplanCommitResponse, TurnItem, TurnStatus,
};
use superplan_commit::rollout::RolloutLookup;

const THREAD: &str = "67e55044-10b1-426f-9247-bb680e5fe0c8";
const ORIGINAL_REQUEST: &str = "/superplan build the feature";
const CLARIFICATION_QUESTION: &str = "Superplan clarification: Which surface?";
const CLARIFICATION_ANSWER: &str = "The TUI";
const FINAL_PLAN: &str = "1. Add the command.\n2. Commit the final Plan item.";

#[derive(Debug, PartialEq, Eq)]
enum UserInput {
    Text { text: String, text_elements: Vec<String> },
}

type Params = ThreadSuperplanCommitParams<UserInput>;

fn text_input(text: &str) -> UserInput {
    UserInput::Text { text: text.to_string(), text_elements: Vec::new() }
}

fn superplan_commit_params(thread_id: &str) -> Params {
    ThreadSuperplanCommitParams {
        thread_id: thread_id.to_string(),
        job_id: "job-1".to_string(),
        idempotency_key: "commit-1".to_string(),
        original_user_input: Some(vec![text_input(ORIGINAL_REQUEST)]),
        committed_visible_context_turns: vec![CommittedVisibleContextTurn {
            items: vec![
                CommittedVisibleContextItem::AgentMessage {
                    text: CLARIFICATION_QUESTION.to_string(),
                },
                CommittedVisibleContextItem::UserMessage {
                    content: vec![text_input(CLARIFICATION_ANSWER)],
                },
            ],
        }],
        final_plan_markdown: FINAL_PLAN.to_string(),
        metadata: SuperplanCommitMetadata {
            original_command_text: ORIGINAL_REQUEST.to_string(),
            outer_rounds_completed: 1,
            planner_q_and_a_count: 1,
        },
    }
}

/// A thread with its rollout and the history that its model is given.
struct Thread<'a> {
    materialized: bool,
    unreadable: Option<String>,
    injection_fails: Option<String>,
    recording_fails: Option<String>,
    model_input: Vec<ResponseItem<'a, UserInput>>,
    rollout: Vec<EventMsg<'a, u128, UserInput>>,
    work: Vec<&'static str>,
}

impl<'a> Thread<'a> {
    fn new() -> Self {
        Thread {
            materialized: false,
            unreadable: None,
            injection_fails: None,
            recording_fails: None,
            model_input: Vec::new(),
            rollout: Vec::new(),
            work: Vec::new(),
        }
    }

    fn look_up<'b>(&self) -> RolloutLookup<'b, u128, UserInput> {
        if !self.materialized {
            return RolloutLookup::Missing;
        }
        if let Some(reason) = &self.unreadable {
            return RolloutLookup::Unreadable(reason.clone());
        }
        RolloutLookup::History(self.rollout.iter().map(stored).collect())
    }
}

/// An event as it is read from the rollout: in full where it completes a plan.
fn stored<'b>(event: &EventMsg<'_, u128, UserInput>) -> RolloutItem<'b, u128, UserInput> {
    RolloutItem::EventMsg(match event {
        EventMsg::ItemCompleted(done) => EventMsg::ItemCompleted(ItemCompletedEvent {
            thread_id: done.thread_id,
            turn_id: done.turn_id.clone(),
            item: match &done.item {
                TurnItem::Plan(plan) => {
                    TurnItem::Plan(PlanItem { id: plan.id.clone(), text: plan.text.clone() })
                }
                TurnItem::Other => TurnItem::Other,
            },
        }),
        _ => EventMsg::Other,
    })
}

fn parse_thread_id(text: &str) -> Result<u128, String> {
    u128::from_str_radix(&text.replace('-', ""), 16).map_err(|_| "not a UUID".to_string())
}

fn commit<'a>(
    thread: &mut Thread<'a>,
    params: &'a Params,
) -> Result<SuperplanCommitOutcome, SuperplanCommitError> {
    let mut state: CommitState<u128> = CommitState::Received;
    let mut event: CommitEvent<'a, u128, UserInput> = CommitEvent::Begin;
    loop {
        let (next, action) = commit_superplan_completed_plan_turn(params, state, event);
        state = next;
        event = match action {
            CommitAction::ParseThreadId(text) => {
                thread.work.push("parse");
                CommitEvent::ThreadIdParsed(parse_thread_id(text))
            }
            CommitAction::MaterializeRollout => {
                thread.work.push("materialize");
                thread.materialized = true;
                CommitEvent::RolloutMaterialized
            }
            CommitAction::LookUpRollout => {
                thread.work.push("look up");
                CommitEvent::RolloutLookedUp(thread.look_up())
            }
            CommitAction::InjectItems(items) => {
                thread.work.push("inject");
                match &thread.injection_fails {
                    Some(reason) => CommitEvent::ItemsInjected(Err(reason.clone())),
                    None => {
                        thread.model_input.extend(items);
                        CommitEvent::ItemsInjected(Ok(()))
                    }
                }
            }
            CommitAction::AppendEvents(events) => {
                thread.work.push("append");
                match &thread.recording_fails {
                    Some(reason) => CommitEvent::EventsAppended(Err(reason.clone())),
                    None => {
                        thread.rollout.extend(events);
                        CommitEvent::EventsAppended(Ok(()))
                    }
                }
            }
            CommitAction::Finish(answer) => {
                assert_eq!(state, CommitState::Finished);
                return answer;
            }
            CommitAction::Wait => panic!("the commit waits for something else"),
        };
    }
}

#[derive(Debug, PartialEq, Eq)]
enum ReadItem {
    User(String),
    Agent(String),
    Plan { id: String, text: String },
}

/// The turns that the events of a rollout amount to.
fn read_turns(events: &[EventMsg<'_, u128, UserInput>]) -> Vec<(String, Vec<ReadItem>)> {
    let mut turns: Vec<(String, Vec<ReadItem>)> = Vec::new();
    let mut open: Option<(String, Vec<ReadItem>)> = None;
    for event in events {
        match event {
            EventMsg::TurnStarted(start) => {
                assert!(open.is_none());
                open = Some((start.turn_id.clone(), Vec::new()));
            }
            EventMsg::UserMessage(said) => {
                let UserInput::Text { text, .. } = &said.inputs[0];
                open.as_mut().unwrap().1.push(ReadItem::User(text.clone()));
            }
            EventMsg::AgentMessage(said) => {
                open.as_mut().unwrap().1.push(ReadItem::Agent(said.message.clone()));
            }
            EventMsg::ItemStarted(start) => {
                assert_eq!(start.turn_id, open.as_ref().unwrap().0);
            }
            EventMsg::ItemCompleted(done) => {
                let (turn_id, items) = open.as_mut().unwrap();
                assert_eq!(&done.turn_id, turn_id);
                if let TurnItem::Plan(plan) = &done.item {
                    items.push(ReadItem::Plan { id: plan.id.clone(), text: plan.text.clone() });
                }
            }
            EventMsg::TurnComplete(end) => {
                let turn = open.take().unwrap();
                assert_eq!(end.turn_id, turn.0);
                turns.push(turn);
            }
            EventMsg::Other => {}
        }
    }
    assert!(open.is_none());
    turns
}

fn committed_plan_item_count(events: &[EventMsg<'_, u128, UserInput>], item_id: &str) -> usize {
    events
        .iter()
        .filter(|event| {
            matches!(
                event,
                EventMsg::ItemCompleted(ItemCompletedEvent {
                    item: TurnItem::Plan(PlanItem { id, .. }),
                    ..
                }) if id == item_id
            )
        })
        .count()
}

fn item_text(item: &ResponseItem<'_, UserInput>) -> String {
    match item {
        ResponseItem::UserInput { inputs } => {
            let UserInput::Text { text, .. } = &inputs[0];
            text.clone()
        }
        ResponseItem::Message { content, .. } => {
            let ContentItem::OutputText { text } = &content[0];
            text.clone()
        }
    }
}

fn assert_text_order(items: &[ResponseItem<'_, UserInput>], needles: &[&str]) {
    let mut previous = 0usize;
    for needle in needles {
        let position = items.iter().position(|item| item_text(item).contains(needle)).unwrap();
        assert!(position >= previous);
        previous = position;
    }
}

#[test]
fn thread_superplan_commit_emits_replayable_plan_turn_and_is_idempotent() {
    let params = superplan_commit_params(THREAD);
    let mut thread = Thread::new();

    let outcome = commit(&mut thread, &params).unwrap();
    let commit_response = &outcome.response;
    assert_eq!(outcome.notifications.len(), 4);

    let ServerNotification::TurnStarted(turn_started) = &outcome.notifications[0] else {
        panic!("expected turn/started");
    };
    let ServerNotification::ItemStarted(item_started) = &outcome.notifications[1] else {
        panic!("expected item/started");
    };
    let ServerNotification::ItemCompleted(item_completed) = &outcome.notifications[2] else {
        panic!("expected item/completed");
    };
    let ServerNotification::TurnCompleted(turn_completed) = &outcome.notifications[3] else {
        panic!("expected turn/completed");
    };

    assert_eq!(turn_started.thread_id, THREAD);
    assert_eq!(turn_started.turn.status, TurnStatus::InProgress);
    assert_eq!(turn_started.turn.id, commit_response.final_plan_turn_id);
    assert_eq!(item_started.thread_id, THREAD);
    assert_eq!(item_started.turn_id, commit_response.final_plan_turn_id);
    assert_eq!(
        item_started.item,
        ThreadItem::Plan { id: commit_response.final_plan_item_id.clone(), text: String::new() }
    );
    assert_eq!(item_completed.thread_id, THREAD);
    assert_eq!(item_completed.turn_id, commit_response.final_plan_turn_id);
    assert_eq!(
        item_completed.item,
        ThreadItem::Plan {
            id: commit_response.final_plan_item_id.clone(),
            text: FINAL_PLAN.to_string(),
        }
    );
    assert_eq!(turn_completed.thread_id, THREAD);
    assert_eq!(turn_completed.turn.status, TurnStatus::Completed);
    assert_eq!(turn_completed.turn.id, commit_response.final_plan_turn_id);
    assert!(!commit_response.already_committed);

    let duplicate = commit(&mut thread, &params).unwrap();
    assert_eq!(
        duplicate.response,
        ThreadSuperplanCommitResponse {
            original_request_turn_id: commit_response.original_request_turn_id.clone(),
            committed_visible_context_turn_ids: commit_response
                .committed_visible_context_turn_ids
                .clone(),
            final_plan_turn_id: commit_response.final_plan_turn_id.clone(),
            final_plan_item_id: commit_response.final_plan_item_id.clone(),
            already_committed: true,
        }
    );
    assert_eq!(duplicate.notifications, vec![]);

    assert_eq!(
        committed_plan_item_count(&thread.rollout, &commit_response.final_plan_item_id),
        1
    );

    let turns = read_turns(&thread.rollout);
    assert_eq!(turns.len(), 3);
    assert_eq!(turns[0].1, vec![ReadItem::User(ORIGINAL_REQUEST.to_string())]);
    assert_eq!(
        turns[1].1,
        vec![
            ReadItem::Agent(CLARIFICATION_QUESTION.to_string()),
            ReadItem::User(CLARIFICATION_ANSWER.to_string()),
        ]
    );
    assert_eq!(
        turns[2].1,
        vec![ReadItem::Plan {
            id: commit_response.final_plan_item_id.clone(),
            text: FINAL_PLAN.to_string(),
        }]
    );

    let next_request = [text_input("Start implementation")];
    thread.model_input.push(ResponseItem::UserInput { inputs: &next_request });
    assert_text_order(
        &thread.model_input,
        &[
            ORIGINAL_REQUEST,
            CLARIFICATION_QUESTION,
            CLARIFICATION_ANSWER,
            FINAL_PLAN,
            "Start implementation",
        ],
    );
    let final_plan_response_item = ResponseItem::Message {
        id: None,
        role: "assistant".to_string(),
        content: vec![ContentItem::OutputText { text: FINAL_PLAN.to_string() }],
        end_turn: None,
        phase: Some(MessagePhase::FinalAnswer),
    };
    assert!(
        thread.model_input.contains(&final_plan_response_item),
        "final plan should be present in model-visible history"
    );
}

#[test]
fn a_commit_works_in_order() {
    let params = superplan_commit_params(THREAD);
    let mut thread = Thread::new();
    commit(&mut thread, &params).unwrap();
    assert_eq!(thread.work, vec!["parse", "materialize", "look up", "inject", "append"]);
    thread.work.clear();
    commit(&mut thread, &params).unwrap();
    assert_eq!(thread.work, vec!["parse", "materialize", "look up"]);
}

#[test]
fn a_commit_names_its_turns_after_the_request() {
    let params = superplan_commit_params(THREAD);
    let mut thread = Thread::new();
    let response = commit(&mut thread, &params).unwrap().response;
    assert_eq!(
        response,
        ThreadSuperplanCommitResponse {
            original_request_turn_id: Some("superplan-fab208f41c6ef863-request".to_string()),
            committed_visible_context_turn_ids: vec![
                "superplan-fab208f41c6ef863-context-000".to_string()
            ],
            final_plan_turn_id: "superplan-fab208f41c6ef863-plan-turn".to_string(),
            final_plan_item_id: "superplan-fab208f41c6ef863-plan-item".to_string(),
            already_committed: false,
        }
    );
    let names: Vec<String> = read_turns(&thread.rollout).into_iter().map(|turn| turn.0).collect();
    assert_eq!(
        names,
        vec![
            "superplan-fab208f41c6ef863-request",
            "superplan-fab208f41c6ef863-context-000",
            "superplan-fab208f41c6ef863-plan-turn",
        ]
    );
}

#[test]
fn another_key_makes_another_commit() {
    let params = superplan_commit_params(THREAD);
    let mut other = superplan_commit_params(THREAD);
    other.idempotency_key = "commit-2".to_string();
    let mut thread = Thread::new();
    let first = commit(&mut thread, &params).unwrap().response;
    let second = commit(&mut thread, &other).unwrap().response;
    assert!(!second.already_committed);
    assert_ne!(first.final_plan_item_id, second.final_plan_item_id);
    assert_eq!(read_turns(&thread.rollout).len(), 6);
}

#[test]
fn a_repeated_commit_may_carry_another_plan() {
    let params = superplan_commit_params(THREAD);
    let mut changed = superplan_commit_params(THREAD);
    changed.final_plan_markdown = "Another plan.".to_string();
    changed.original_user_input = None;
    changed.metadata.planner_q_and_a_count = 7;
    let mut thread = Thread::new();
    let first = commit(&mut thread, &params).unwrap().response;
    let second = commit(&mut thread, &changed).unwrap().response;
    assert!(second.already_committed);
    assert_eq!(second.original_request_turn_id, None);
    assert_eq!(first.final_plan_turn_id, second.final_plan_turn_id);
    assert_eq!(first.final_plan_item_id, second.final_plan_item_id);
}

#[test]
fn a_blank_field_is_refused_before_any_work() {
    let mut params = superplan_commit_params("no thread");
    params.job_id = " \t".to_string();
    params.idempotency_key = String::new();
    params.final_plan_markdown = "\n\u{3000}".to_string();
    let mut thread = Thread::new();
    assert_eq!(
        commit(&mut thread, &params),
        Err(SuperplanCommitError::InvalidRequest("jobId must not be empty".to_string()))
    );
    assert!(thread.work.is_empty());
}

#[test]
fn a_thread_id_that_does_not_parse_is_refused() {
    let params = superplan_commit_params("no thread");
    let mut thread = Thread::new();
    assert_eq!(
        commit(&mut thread, &params),
        Err(SuperplanCommitError::InvalidRequest("invalid thread id: not a UUID".to_string()))
    );
    assert_eq!(thread.work, vec!["parse"]);
}

#[test]
fn an_unreadable_rollout_stops_the_commit() {
    let params = superplan_commit_params(THREAD);
    let mut thread = Thread::new();
    thread.unreadable = Some("disk on fire".to_string());
    assert_eq!(
        commit(&mut thread, &params),
        Err(SuperplanCommitError::Internal(
            "failed to read rollout history: disk on fire".to_string()
        ))
    );
    assert_eq!(thread.work, vec!["parse", "materialize", "look up"]);
}

#[test]
fn a_failed_injection_records_nothing() {
    let params = superplan_commit_params(THREAD);
    let mut thread = Thread::new();
    thread.injection_fails = Some("no session".to_string());
    assert_eq!(
        commit(&mut thread, &params),
        Err(SuperplanCommitError::Internal(
            "failed to persist model-visible Superplan context: no session".to_string()
        ))
    );
    assert!(thread.rollout.is_empty());

    thread.injection_fails = None;
    assert!(!commit(&mut thread, &params).unwrap().response.already_committed);
}

#[test]
fn a_failed_recording_is_reported() {
    let params = superplan_commit_params(THREAD);
    let mut thread = Thread::new();
    thread.recording_fails = Some("disk full".to_string());
    assert_eq!(
        commit(&mut thread, &params),
        Err(SuperplanCommitError::Internal(
            "failed to persist Superplan commit events: disk full".to_string()
        ))
    );
    assert_eq!(thread.model_input.len(), 4);
}

#[test]
fn a_commit_happens_when_the_clock_says() {
    let params = superplan_commit_params(THREAD);
    let mut thread = Thread::new();
    let before: i64 = chrono::Utc::now().timestamp();
    let outcome = commit(&mut thread, &params).unwrap();
    let after: i64 = chrono::Utc::now().timestamp();

    let ServerNotification::TurnStarted(told) = &outcome.notifications[0] else {
        panic!("expected turn/started");
    };
    let now: i64 = told.turn.started_at.unwrap();
    assert!(before <= now && now <= after);
    for event in &thread.rollout {
        match event {
            EventMsg::TurnStarted(start) => assert_eq!(start.started_at, Some(now)),
            EventMsg::TurnComplete(end) => {
                assert_eq!(end.completed_at, Some(now));
                assert_eq!(end.duration_ms, Some(0));
            }
            _ => {}
        }
    }
}

#[test]
fn writing_begins_with_the_model_at_the_given_time() {
    let params = superplan_commit_params(THREAD);
    let (state, action): (CommitState<u128>, CommitAction<'_, u128, UserInput>) =
        begin_writing_at(&params, 3, commit_ids(&params), 1_700_000_000);
    assert_eq!(
        state,
        CommitState::Injecting { thread_id: 3, ids: commit_ids(&params), now: 1_700_000_000 }
    );
    let CommitAction::InjectItems(items) = action else {
        panic!("expected an injection");
    };
    assert_eq!(items.len(), 4);

    let (state, action) = commit_superplan_completed_plan_turn(
        &params,
        state,
        CommitEvent::ItemsInjected(Ok(())),
    );
    assert_eq!(
        state,
        CommitState::Recording { ids: commit_ids(&params), now: 1_700_000_000 }
    );
    let CommitAction::AppendEvents(events) = action else {
        panic!("expected a recording");
    };
    assert_eq!(read_turns(&events).len(), 3);
}

#[test]
fn an_event_out_of_turn_changes_nothing() {
    let params = superplan_commit_params(THREAD);
    let ids: fn() -> SuperplanCommitIds = || commit_ids(&superplan_commit_params(THREAD));
    let (state, action): (CommitState<u128>, CommitAction<'_, u128, UserInput>) =
        commit_superplan_completed_plan_turn(
            &params,
            CommitState::Checking { thread_id: 3, ids: ids() },
            CommitEvent::EventsAppended(Ok(())),
        );
    assert_eq!(state, CommitState::Checking { thread_id: 3, ids: ids() });
    assert_eq!(action, CommitAction::Wait);

    let (state, action): (CommitState<u128>, CommitAction<'_, u128, UserInput>) =
        commit_superplan_completed_plan_turn(&params, CommitState::Finished, CommitEvent::Begin);
    assert_eq!(state, CommitState::Finished);
    assert_eq!(action, CommitAction::Wait);
}
