//! The pieces that a commit is made of, each on its own.

use superplan_commit::context::{
    agent_message_response_item, model_visible_items, user_inputs_to_response_item,
};
use superplan_commit::hash::stable_hex_hash;
use superplan_commit::ids::{commit_ids, response_from_ids, SuperplanCommitIds};
use superplan_commit::notifications::{live_plan_notifications, live_turn};
use superplan_commit::protocol::{
    AgentMessageEvent, CommittedVisibleContextItem, CommittedVisibleContextTurn, ContentItem,
    EventMsg, ItemCompletedEvent, ItemCompletedNotification, ItemStartedEvent,
    ItemStartedNotification, MessagePhase, ModeKind, PlanItem, ResponseItem, RolloutItem,
    ServerNotification, SuperplanCommitError, SuperplanCommitMetadata, ThreadItem,
    ThreadSuperplanCommitParams, ThreadSuperplanCommitResponse, Turn, TurnCompleteEvent,
    TurnCompletedNotification, TurnItem, TurnStartedEvent, TurnStartedNotification, TurnStatus,
    UserMessageEvent,
};
use superplan_commit::rollout::{
    commit_is_already_persisted, push_user_turn_events, push_visible_context_turn_events,
    rollout_events, turn_complete, turn_started, user_message_event, RolloutLookup,
};
use superplan_commit::text::{blank, hex_text, padded_text};
use superplan_commit::validation::validate_params;

fn agent(text: &str) -> CommittedVisibleContextItem<u32> {
    CommittedVisibleContextItem::AgentMessage { text: text.to_string() }
}

fn user(inputs: &[u32]) -> CommittedVisibleContextItem<u32> {
    CommittedVisibleContextItem::UserMessage { content: inputs.to_vec() }
}

/// A request whose inputs are numbers.
fn params(
    request: Option<Vec<u32>>,
    turns: Vec<Vec<CommittedVisibleContextItem<u32>>>,
) -> ThreadSuperplanCommitParams<u32> {
    ThreadSuperplanCommitParams {
        thread_id: "thread".to_string(),
        job_id: "job".to_string(),
        idempotency_key: "key".to_string(),
        original_user_input: request,
        committed_visible_context_turns: turns
            .into_iter()
            .map(|items| CommittedVisibleContextTurn { items })
            .collect(),
        final_plan_markdown: "plan".to_string(),
        metadata: SuperplanCommitMetadata {
            original_command_text: String::new(),
            outer_rounds_completed: 0,
            planner_q_and_a_count: 0,
        },
    }
}

fn ids(request: Option<&str>, turns: &[&str]) -> SuperplanCommitIds {
    SuperplanCommitIds {
        original_request_turn_id: request.map(str::to_string),
        committed_visible_context_turn_ids: turns.iter().map(|id| id.to_string()).collect(),
        final_plan_turn_id: "turn".to_string(),
        final_plan_item_id: "item".to_string(),
    }
}

fn started<'a>(turn_id: &str, now: i64) -> EventMsg<'a, u8, u32> {
    EventMsg::TurnStarted(TurnStartedEvent {
        turn_id: turn_id.to_string(),
        started_at: Some(now),
        model_context_window: None,
        collaboration_mode_kind: ModeKind::Plan,
    })
}

fn completed<'a>(turn_id: &str, now: i64) -> EventMsg<'a, u8, u32> {
    EventMsg::TurnComplete(TurnCompleteEvent {
        turn_id: turn_id.to_string(),
        last_agent_message: None,
        completed_at: Some(now),
        duration_ms: Some(0),
    })
}

fn user_said(inputs: &[u32]) -> EventMsg<'_, u8, u32> {
    EventMsg::UserMessage(UserMessageEvent { inputs })
}

fn agent_said<'a>(text: &str) -> EventMsg<'a, u8, u32> {
    EventMsg::AgentMessage(AgentMessageEvent {
        message: text.to_string(),
        phase: None,
        memory_citation: None,
    })
}

fn plan_done<'a>(id: &str, text: &str) -> EventMsg<'a, u8, u32> {
    EventMsg::ItemCompleted(ItemCompletedEvent {
        thread_id: 9,
        turn_id: "turn".to_string(),
        item: TurnItem::Plan(PlanItem { id: id.to_string(), text: text.to_string() }),
    })
}

fn plan_turn<'a>(now: i64) -> Vec<EventMsg<'a, u8, u32>> {
    vec![
        started("turn", now),
        EventMsg::ItemStarted(ItemStartedEvent {
            thread_id: 9,
            turn_id: "turn".to_string(),
            item: TurnItem::Plan(PlanItem { id: "item".to_string(), text: String::new() }),
        }),
        plan_done("item", "plan"),
        completed("turn", now),
    ]
}

#[test]
fn the_hash_is_fnv1a_in_hexadecimal() {
    assert_eq!(stable_hex_hash(""), "cbf29ce484222325");
    assert_eq!(stable_hex_hash("a"), "af63dc4c8601ec8c");
    assert_eq!(stable_hex_hash("foobar"), "85944171f73967e8");
    assert_eq!(stable_hex_hash("plan \u{2713}"), "bb6ef8257ca2d3c9");
}

#[test]
fn hexadecimal_text_has_sixteen_digits() {
    for value in [0u64, 1, 0xf, 0x10, 0xdead_beef, 0x0123_4567_89ab_cdef, u64::MAX] {
        assert_eq!(hex_text(value), format!("{value:016x}"));
    }
}

#[test]
fn decimal_text_is_padded_to_three_digits() {
    for value in [0usize, 7, 9, 10, 42, 99, 100, 123, 999, 1000, 98_765, usize::MAX] {
        assert_eq!(padded_text(value), format!("{value:03}"));
    }
}

#[test]
fn white_space_is_what_unicode_says() {
    let white = [
        0x9u32, 0xa, 0xb, 0xc, 0xd, 0x20, 0x85, 0xa0, 0x1680, 0x2000, 0x2001, 0x2002, 0x2003,
        0x2004, 0x2005, 0x2006, 0x2007, 0x2008, 0x2009, 0x200a, 0x2028, 0x2029, 0x202f, 0x205f,
        0x3000,
    ];
    for code in 0..=0x10_ffff_u32 {
        if let Some(c) = char::from_u32(code) {
            assert_eq!(blank(&c.to_string()), white.contains(&code));
        }
    }
    assert!(blank(""));
    assert!(blank(" \t\r\n"));
    assert!(!blank("  x  "));
    assert!(!blank("x"));
}

#[test]
fn blank_fields_are_refused_in_order() {
    let mut request = params(None, vec![]);
    assert_eq!(validate_params(&request), Ok(()));
    request.final_plan_markdown = "\n".to_string();
    assert_eq!(
        validate_params(&request),
        Err(SuperplanCommitError::InvalidRequest(
            "finalPlanMarkdown must not be empty".to_string()
        ))
    );
    request.idempotency_key = " ".to_string();
    assert_eq!(
        validate_params(&request),
        Err(SuperplanCommitError::InvalidRequest("idempotencyKey must not be empty".to_string()))
    );
    request.job_id = String::new();
    assert_eq!(
        validate_params(&request),
        Err(SuperplanCommitError::InvalidRequest("jobId must not be empty".to_string()))
    );
    request.thread_id = String::new();
    request.job_id = " j".to_string();
    request.idempotency_key = "k ".to_string();
    request.final_plan_markdown = " p ".to_string();
    assert_eq!(validate_params(&request), Ok(()));
}

#[test]
fn identifiers_are_numbered() {
    let turns = (0..1002).map(|_| vec![]).collect();
    let named = commit_ids(&params(None, turns));
    assert_eq!(named.original_request_turn_id, None);
    let contexts = &named.committed_visible_context_turn_ids;
    assert_eq!(contexts.len(), 1002);
    assert_eq!(contexts[0], "superplan-e93b222e84aa325d-context-000");
    assert_eq!(contexts[42], "superplan-e93b222e84aa325d-context-042");
    assert_eq!(contexts[999], "superplan-e93b222e84aa325d-context-999");
    assert_eq!(contexts[1001], "superplan-e93b222e84aa325d-context-1001");
    assert_eq!(named.final_plan_turn_id, "superplan-e93b222e84aa325d-plan-turn");
    assert_eq!(named.final_plan_item_id, "superplan-e93b222e84aa325d-plan-item");

    let mut all = contexts.clone();
    all.push(named.final_plan_turn_id);
    all.push(named.final_plan_item_id);
    all.sort();
    all.dedup();
    assert_eq!(all.len(), 1004);
}

#[test]
fn identifiers_depend_on_thread_job_and_key_alone() {
    let a = params(Some(vec![1]), vec![vec![user(&[2])]]);
    let mut b = params(Some(vec![5, 6]), vec![vec![agent("x"), agent("y")]]);
    b.final_plan_markdown = "other".to_string();
    b.metadata.outer_rounds_completed = 3;
    assert_eq!(commit_ids(&a), commit_ids(&b));
    b.job_id = "another".to_string();
    assert_ne!(commit_ids(&a).final_plan_item_id, commit_ids(&b).final_plan_item_id);
}

#[test]
fn lines_of_the_key_run_together() {
    let mut a = params(None, vec![]);
    a.thread_id = "x\ny".to_string();
    a.job_id = "z".to_string();
    let mut b = params(None, vec![]);
    b.thread_id = "x".to_string();
    b.job_id = "y\nz".to_string();
    assert_eq!(commit_ids(&a), commit_ids(&b));
}

#[test]
fn the_response_hands_out_the_identifiers() {
    assert_eq!(
        response_from_ids(ids(Some("r"), &["c0", "c1"]), true),
        ThreadSuperplanCommitResponse {
            original_request_turn_id: Some("r".to_string()),
            committed_visible_context_turn_ids: vec!["c0".to_string(), "c1".to_string()],
            final_plan_turn_id: "turn".to_string(),
            final_plan_item_id: "item".to_string(),
            already_committed: true,
        }
    );
}

#[test]
fn the_model_is_given_the_conversation_and_the_plan() {
    let request =
        params(Some(vec![1, 2]), vec![vec![agent("q"), user(&[3])], vec![], vec![agent("r")]]);
    let message = |text: &str, phase: Option<MessagePhase>| ResponseItem::Message {
        id: None,
        role: "assistant".to_string(),
        content: vec![ContentItem::OutputText { text: text.to_string() }],
        end_turn: None,
        phase,
    };
    assert_eq!(
        model_visible_items(&request),
        vec![
            ResponseItem::UserInput { inputs: &[1, 2] },
            message("q", None),
            ResponseItem::UserInput { inputs: &[3] },
            message("r", None),
            message("plan", Some(MessagePhase::FinalAnswer)),
        ]
    );
    assert_eq!(
        model_visible_items(&params(None, vec![])),
        vec![message("plan", Some(MessagePhase::FinalAnswer))]
    );
    assert_eq!(
        agent_message_response_item::<u32>("t".to_string(), None),
        message("t", None)
    );
    assert_eq!(
        user_inputs_to_response_item(&[4u32, 5]),
        ResponseItem::UserInput { inputs: &[4, 5] }
    );
}

#[test]
fn turns_are_recorded_from_start_to_end() {
    assert_eq!(EventMsg::TurnStarted(turn_started("t".to_string(), 5)), started("t", 5));
    assert_eq!(EventMsg::TurnComplete(turn_complete("t".to_string(), 5)), completed("t", 5));
    assert_eq!(user_message_event(&[1u32]), UserMessageEvent { inputs: &[1] });

    let mut events: Vec<EventMsg<'_, u8, u32>> = vec![EventMsg::Other];
    push_user_turn_events(&mut events, "u", &[1, 2], 6);
    assert_eq!(
        events,
        vec![EventMsg::Other, started("u", 6), user_said(&[1, 2]), completed("u", 6)]
    );

    let turn = CommittedVisibleContextTurn { items: vec![agent("q"), user(&[3]), agent("r")] };
    let mut events: Vec<EventMsg<'_, u8, u32>> = vec![EventMsg::Other];
    push_visible_context_turn_events(&mut events, "c", &turn, 7);
    assert_eq!(
        events,
        vec![
            EventMsg::Other,
            started("c", 7),
            agent_said("q"),
            user_said(&[3]),
            agent_said("r"),
            completed("c", 7),
        ]
    );
}

#[test]
fn a_commit_records_request_context_and_plan() {
    let request = params(Some(vec![1]), vec![vec![agent("q"), user(&[2])], vec![]]);
    let mut expected = vec![
        started("r", 8),
        user_said(&[1]),
        completed("r", 8),
        started("c0", 8),
        agent_said("q"),
        user_said(&[2]),
        completed("c0", 8),
        started("c1", 8),
        completed("c1", 8),
    ];
    expected.extend(plan_turn(8));
    assert_eq!(rollout_events(&9u8, &request, &ids(Some("r"), &["c0", "c1"]), 8), expected);
}

#[test]
fn only_turns_with_identifiers_are_recorded() {
    let request = params(Some(vec![1]), vec![vec![agent("q")], vec![agent("r")]]);
    let mut expected = vec![started("c0", 8), agent_said("q"), completed("c0", 8)];
    expected.extend(plan_turn(8));
    assert_eq!(rollout_events(&9u8, &request, &ids(None, &["c0"]), 8), expected);

    let silent = params(None, vec![]);
    assert_eq!(rollout_events(&9u8, &silent, &ids(Some("r"), &["c0"]), 8), plan_turn(8));
}

#[test]
fn an_earlier_commit_is_found_by_its_plan_item() {
    let no_path: RolloutLookup<'_, u8, u32> = RolloutLookup::NoPath;
    assert_eq!(commit_is_already_persisted(&no_path, "item"), Ok(false));
    let missing: RolloutLookup<'_, u8, u32> = RolloutLookup::Missing;
    assert_eq!(commit_is_already_persisted(&missing, "item"), Ok(false));
    let unreadable: RolloutLookup<'_, u8, u32> = RolloutLookup::Unreadable("why".to_string());
    assert_eq!(
        commit_is_already_persisted(&unreadable, "item"),
        Err(SuperplanCommitError::Internal("failed to read rollout history: why".to_string()))
    );

    let other = || RolloutItem::EventMsg(plan_done("another item", "plan"));
    let begun = || {
        RolloutItem::EventMsg(EventMsg::ItemStarted(ItemStartedEvent {
            thread_id: 9,
            turn_id: "turn".to_string(),
            item: TurnItem::Plan(PlanItem { id: "item".to_string(), text: String::new() }),
        }))
    };
    let not_a_plan = || {
        RolloutItem::EventMsg(EventMsg::ItemCompleted(ItemCompletedEvent {
            thread_id: 9,
            turn_id: "turn".to_string(),
            item: TurnItem::Other,
        }))
    };
    let history = RolloutLookup::History(vec![other(), RolloutItem::Other, begun(), not_a_plan()]);
    assert_eq!(commit_is_already_persisted(&history, "item"), Ok(false));
    let empty: RolloutLookup<'_, u8, u32> = RolloutLookup::History(vec![]);
    assert_eq!(commit_is_already_persisted(&empty, "item"), Ok(false));
    let history = RolloutLookup::History(vec![
        other(),
        RolloutItem::EventMsg(plan_done("item", "whatever it says")),
        RolloutItem::Other,
    ]);
    assert_eq!(commit_is_already_persisted(&history, "item"), Ok(true));
}

#[test]
fn clients_are_told_the_plan_turn() {
    let turn = |status: TurnStatus, completed_at: Option<i64>, duration_ms: Option<i64>| Turn {
        id: "turn".to_string(),
        items: vec![],
        status,
        error: None,
        started_at: Some(8),
        completed_at,
        duration_ms,
    };
    assert_eq!(
        live_plan_notifications("thread", &ids(None, &[]), "plan", 8),
        vec![
            ServerNotification::TurnStarted(TurnStartedNotification {
                thread_id: "thread".to_string(),
                turn: turn(TurnStatus::InProgress, None, None),
            }),
            ServerNotification::ItemStarted(ItemStartedNotification {
                thread_id: "thread".to_string(),
                turn_id: "turn".to_string(),
                item: ThreadItem::Plan { id: "item".to_string(), text: String::new() },
            }),
            ServerNotification::ItemCompleted(ItemCompletedNotification {
                thread_id: "thread".to_string(),
                turn_id: "turn".to_string(),
                item: ThreadItem::Plan { id: "item".to_string(), text: "plan".to_string() },
            }),
            ServerNotification::TurnCompleted(TurnCompletedNotification {
                thread_id: "thread".to_string(),
                turn: turn(TurnStatus::Completed, Some(8), Some(0)),
            }),
        ]
    );
    assert_eq!(
        live_turn("turn", TurnStatus::InProgress, 8, None),
        turn(TurnStatus::InProgress, None, None)
    );
}
