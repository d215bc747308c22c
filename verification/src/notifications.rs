//! What clients that follow the thread are told of a commit.

use vstd::prelude::*;

use crate::ids::{IdsView, SuperplanCommitIds};
use crate::protocol;
use crate::protocol::{
    ItemCompletedNotification, ItemStartedNotification, NotificationView, ServerNotification,
    ThreadItem, ThreadItemView, Turn, TurnCompletedNotification, TurnStartedNotification,
    TurnStatus, TurnView,
};

verus! {

/// A turn as clients see it live: without its items, and with no time spent in
/// it once it is completed.
pub open spec fn turn_shown(
    turn_id: Seq<char>,
    status: TurnStatus,
    started_at: i64,
    completed_at: Option<i64>,
) -> TurnView {
    TurnView {
        id: turn_id,
        items: seq![],
        status,
        error: None,
        started_at: Some(started_at),
        completed_at,
        duration_ms: if completed_at is Some {
            Some(0)
        } else {
            None
        },
    }
}

/// The turn of the plan as it is told: it starts, its item starts empty and is
/// completed with the plan, and the turn is completed.
pub open spec fn plan_told(
    thread_id: Seq<char>,
    ids: IdsView,
    plan: Seq<char>,
    now: i64,
) -> Seq<NotificationView> {
    seq![
        NotificationView::TurnStarted {
            thread_id,
            turn: turn_shown(ids.final_plan_turn_id, TurnStatus::InProgress, now, None),
        },
        NotificationView::ItemStarted {
            thread_id,
            turn_id: ids.final_plan_turn_id,
            item: ThreadItemView::Plan { id: ids.final_plan_item_id, text: Seq::empty() },
        },
        NotificationView::ItemCompleted {
            thread_id,
            turn_id: ids.final_plan_turn_id,
            item: ThreadItemView::Plan { id: ids.final_plan_item_id, text: plan },
        },
        NotificationView::TurnCompleted {
            thread_id,
            turn: turn_shown(ids.final_plan_turn_id, TurnStatus::Completed, now, Some(now)),
        },
    ]
}

/// A turn as clients see it live.
pub fn live_turn(
    turn_id: &str,
    status: TurnStatus,
    started_at: i64,
    completed_at: Option<i64>,
) -> (turn: Turn)
    ensures
        turn@ == turn_shown(turn_id@, status, started_at, completed_at),
{
    let items: Vec<ThreadItem> = Vec::new();
    assert(protocol::views(items@) =~= seq![]);
    let duration_ms: Option<i64> = match completed_at {
        Some(_) => Some(0),
        None => None,
    };
    Turn {
        id: turn_id.to_string(),
        items,
        status,
        error: None,
        started_at: Some(started_at),
        completed_at,
        duration_ms,
    }
}

/// Tells the turn of the plan.
pub fn live_plan_notifications(
    thread_id: &str,
    ids: &SuperplanCommitIds,
    plan_markdown: &str,
    now: i64,
) -> (notifications: Vec<ServerNotification>)
    ensures
        protocol::views(notifications@) == plan_told(thread_id@, ids@, plan_markdown@, now),
{
    broadcast use protocol::lemma_views_push;

    let turn_id = ids.final_plan_turn_id.as_str();
    let mut notifications: Vec<ServerNotification> = Vec::new();
    notifications.push(
        ServerNotification::TurnStarted(
            TurnStartedNotification {
                thread_id: thread_id.to_string(),
                turn: live_turn(turn_id, TurnStatus::InProgress, now, None),
            },
        ),
    );
    notifications.push(
        ServerNotification::ItemStarted(
            ItemStartedNotification {
                thread_id: thread_id.to_string(),
                turn_id: turn_id.to_string(),
                item: ThreadItem::Plan {
                    id: ids.final_plan_item_id.clone(),
                    text: String::new(),
                },
            },
        ),
    );
    notifications.push(
        ServerNotification::ItemCompleted(
            ItemCompletedNotification {
                thread_id: thread_id.to_string(),
                turn_id: turn_id.to_string(),
                item: ThreadItem::Plan {
                    id: ids.final_plan_item_id.clone(),
                    text: plan_markdown.to_string(),
                },
            },
        ),
    );
    notifications.push(
        ServerNotification::TurnCompleted(
            TurnCompletedNotification {
                thread_id: thread_id.to_string(),
                turn: live_turn(turn_id, TurnStatus::Completed, now, Some(now)),
            },
        ),
    );
    assert(protocol::views(notifications@) =~= plan_told(
        thread_id@,
        ids@,
        plan_markdown@,
        now,
    ));
    notifications
}

} // verus!
