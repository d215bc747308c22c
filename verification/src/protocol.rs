//! The values that a commit takes in and hands out.
//!
//! Two types are left open. `Input` is one input of a user (a text, an image, a
//! mention): a commit carries inputs in order and never looks inside one. `Id` is
//! a thread identifier once parsed: a commit copies it into what it persists.

use vstd::prelude::*;

verus! {

/// The views of `items`, in order.
pub open spec fn views<T: View>(items: Seq<T>) -> Seq<T::V> {
    Seq::new(items.len(), |i: int| items[i]@)
}

/// The view of a text that may be missing.
pub open spec fn text_view(text: Option<String>) -> Option<Seq<char>> {
    match text {
        Some(text) => Some(text@),
        None => None,
    }
}

/// Appending one item appends its view.
pub broadcast proof fn lemma_views_push<T: View>(items: Seq<T>, item: T)
    ensures
        #[trigger] views(items.push(item)) == views(items).push(item@),
{
    assert(views(items.push(item)) =~= views(items).push(item@));
}

// ---------------------------------------------------------------------------
// The request
// ---------------------------------------------------------------------------
/// A request to commit a completed plan to a thread.
#[derive(Debug, PartialEq, Eq)]
pub struct ThreadSuperplanCommitParams<Input> {
    pub thread_id: String,
    pub job_id: String,
    pub idempotency_key: String,
    pub original_user_input: Option<Vec<Input>>,
    pub committed_visible_context_turns: Vec<CommittedVisibleContextTurn<Input>>,
    pub final_plan_markdown: String,
    pub metadata: SuperplanCommitMetadata,
}

/// How the plan came about. A commit takes no account of it.
#[derive(Debug, PartialEq, Eq)]
pub struct SuperplanCommitMetadata {
    pub original_command_text: String,
    pub outer_rounds_completed: u32,
    pub planner_q_and_a_count: u32,
}

/// A turn of the conversation that led to the plan.
#[derive(Debug, PartialEq, Eq)]
pub struct CommittedVisibleContextTurn<Input> {
    pub items: Vec<CommittedVisibleContextItem<Input>>,
}

/// What was said in a turn.
#[derive(Debug, PartialEq, Eq)]
pub enum CommittedVisibleContextItem<Input> {
    UserMessage { content: Vec<Input> },
    AgentMessage { text: String },
}

pub struct ParamsView<Input> {
    pub thread_id: Seq<char>,
    pub job_id: Seq<char>,
    pub idempotency_key: Seq<char>,
    pub original_user_input: Option<Seq<Input>>,
    pub committed_visible_context_turns: Seq<Seq<ContextItemView<Input>>>,
    pub final_plan_markdown: Seq<char>,
    pub metadata: MetadataView,
}

pub struct MetadataView {
    pub original_command_text: Seq<char>,
    pub outer_rounds_completed: u32,
    pub planner_q_and_a_count: u32,
}

pub enum ContextItemView<Input> {
    UserMessage { content: Seq<Input> },
    AgentMessage { text: Seq<char> },
}

impl<Input> View for ThreadSuperplanCommitParams<Input> {
    type V = ParamsView<Input>;

    open spec fn view(&self) -> ParamsView<Input> {
        ParamsView {
            thread_id: self.thread_id@,
            job_id: self.job_id@,
            idempotency_key: self.idempotency_key@,
            original_user_input: match self.original_user_input {
                Some(input) => Some(input@),
                None => None,
            },
            committed_visible_context_turns: views(self.committed_visible_context_turns@),
            final_plan_markdown: self.final_plan_markdown@,
            metadata: self.metadata@,
        }
    }
}

impl View for SuperplanCommitMetadata {
    type V = MetadataView;

    open spec fn view(&self) -> MetadataView {
        MetadataView {
            original_command_text: self.original_command_text@,
            outer_rounds_completed: self.outer_rounds_completed,
            planner_q_and_a_count: self.planner_q_and_a_count,
        }
    }
}

impl<Input> View for CommittedVisibleContextTurn<Input> {
    type V = Seq<ContextItemView<Input>>;

    open spec fn view(&self) -> Seq<ContextItemView<Input>> {
        views(self.items@)
    }
}

impl<Input> View for CommittedVisibleContextItem<Input> {
    type V = ContextItemView<Input>;

    open spec fn view(&self) -> ContextItemView<Input> {
        match self {
            CommittedVisibleContextItem::UserMessage { content } => ContextItemView::UserMessage {
                content: content@,
            },
            CommittedVisibleContextItem::AgentMessage { text } => ContextItemView::AgentMessage {
                text: text@,
            },
        }
    }
}

// ---------------------------------------------------------------------------
// The answer
// ---------------------------------------------------------------------------
/// The answer to a commit request.
#[derive(Debug, PartialEq, Eq)]
pub struct ThreadSuperplanCommitResponse {
    pub original_request_turn_id: Option<String>,
    pub committed_visible_context_turn_ids: Vec<String>,
    pub final_plan_turn_id: String,
    pub final_plan_item_id: String,
    pub already_committed: bool,
}

/// A commit that went through, with what clients are told of it.
#[derive(Debug, PartialEq, Eq)]
pub struct SuperplanCommitOutcome {
    pub response: ThreadSuperplanCommitResponse,
    pub notifications: Vec<ServerNotification>,
}

/// Why a commit did not go through.
#[derive(Debug, PartialEq, Eq)]
pub enum SuperplanCommitError {
    /// The request cannot be carried out as it stands.
    InvalidRequest(String),
    /// The thread's history could not be read or written.
    Internal(String),
}

pub struct ResponseView {
    pub original_request_turn_id: Option<Seq<char>>,
    pub committed_visible_context_turn_ids: Seq<Seq<char>>,
    pub final_plan_turn_id: Seq<char>,
    pub final_plan_item_id: Seq<char>,
    pub already_committed: bool,
}

pub struct OutcomeView {
    pub response: ResponseView,
    pub notifications: Seq<NotificationView>,
}

pub enum ErrorView {
    InvalidRequest(Seq<char>),
    Internal(Seq<char>),
}

impl View for ThreadSuperplanCommitResponse {
    type V = ResponseView;

    open spec fn view(&self) -> ResponseView {
        ResponseView {
            original_request_turn_id: text_view(self.original_request_turn_id),
            committed_visible_context_turn_ids: views(self.committed_visible_context_turn_ids@),
            final_plan_turn_id: self.final_plan_turn_id@,
            final_plan_item_id: self.final_plan_item_id@,
            already_committed: self.already_committed,
        }
    }
}

impl View for SuperplanCommitOutcome {
    type V = OutcomeView;

    open spec fn view(&self) -> OutcomeView {
        OutcomeView {
            response: self.response@,
            notifications: views(self.notifications@),
        }
    }
}

impl View for SuperplanCommitError {
    type V = ErrorView;

    open spec fn view(&self) -> ErrorView {
        match self {
            SuperplanCommitError::InvalidRequest(message) => ErrorView::InvalidRequest(message@),
            SuperplanCommitError::Internal(message) => ErrorView::Internal(message@),
        }
    }
}

// ---------------------------------------------------------------------------
// What the model sees
// ---------------------------------------------------------------------------
/// An item of the history that the model is given.
#[derive(Debug, PartialEq, Eq)]
pub enum ResponseItem<'a, Input> {
    /// The message that `inputs` amount to, as the user's.
    UserInput { inputs: &'a [Input] },
    Message {
        id: Option<String>,
        role: String,
        content: Vec<ContentItem>,
        end_turn: Option<bool>,
        phase: Option<MessagePhase>,
    },
}

#[derive(Debug, PartialEq, Eq)]
pub enum ContentItem {
    OutputText { text: String },
}

#[derive(Clone, Copy, Debug, PartialEq, Eq)]
pub enum MessagePhase {
    FinalAnswer,
}

pub enum ResponseItemView<Input> {
    UserInput { inputs: Seq<Input> },
    Message {
        id: Option<Seq<char>>,
        role: Seq<char>,
        content: Seq<ContentItemView>,
        end_turn: Option<bool>,
        phase: Option<MessagePhase>,
    },
}

pub enum ContentItemView {
    OutputText { text: Seq<char> },
}

impl<'a, Input> View for ResponseItem<'a, Input> {
    type V = ResponseItemView<Input>;

    open spec fn view(&self) -> ResponseItemView<Input> {
        match self {
            ResponseItem::UserInput { inputs } => ResponseItemView::UserInput { inputs: inputs@ },
            ResponseItem::Message { id, role, content, end_turn, phase } => {
                ResponseItemView::Message {
                    id: text_view(*id),
                    role: role@,
                    content: views(content@),
                    end_turn: *end_turn,
                    phase: *phase,
                }
            },
        }
    }
}

impl View for ContentItem {
    type V = ContentItemView;

    open spec fn view(&self) -> ContentItemView {
        match self {
            ContentItem::OutputText { text } => ContentItemView::OutputText { text: text@ },
        }
    }
}

// ---------------------------------------------------------------------------
// What the thread's rollout records
// ---------------------------------------------------------------------------
/// An item of a thread's recorded history.
#[derive(Debug, PartialEq, Eq)]
pub enum RolloutItem<'a, Id, Input> {
    EventMsg(EventMsg<'a, Id, Input>),
    /// Any item that is not an event.
    Other,
}

/// An event of a thread.
#[derive(Debug, PartialEq, Eq)]
pub enum EventMsg<'a, Id, Input> {
    TurnStarted(TurnStartedEvent),
    UserMessage(UserMessageEvent<'a, Input>),
    AgentMessage(AgentMessageEvent),
    ItemStarted(ItemStartedEvent<Id>),
    ItemCompleted(ItemCompletedEvent<Id>),
    TurnComplete(TurnCompleteEvent),
    /// Any event of a kind that no commit records.
    Other,
}

#[derive(Debug, PartialEq, Eq)]
pub struct TurnStartedEvent {
    pub turn_id: String,
    pub started_at: Option<i64>,
    pub model_context_window: Option<i64>,
    pub collaboration_mode_kind: ModeKind,
}

#[derive(Clone, Copy, Debug, PartialEq, Eq)]
pub enum ModeKind {
    Plan,
}

/// The event that `inputs` amount to, as a message of the user.
#[derive(Debug, PartialEq, Eq)]
pub struct UserMessageEvent<'a, Input> {
    pub inputs: &'a [Input],
}

#[derive(Debug, PartialEq, Eq)]
pub struct AgentMessageEvent {
    pub message: String,
    pub phase: Option<MessagePhase>,
    pub memory_citation: Option<String>,
}

#[derive(Debug, PartialEq, Eq)]
pub struct ItemStartedEvent<Id> {
    pub thread_id: Id,
    pub turn_id: String,
    pub item: TurnItem,
}

#[derive(Debug, PartialEq, Eq)]
pub struct ItemCompletedEvent<Id> {
    pub thread_id: Id,
    pub turn_id: String,
    pub item: TurnItem,
}

#[derive(Debug, PartialEq, Eq)]
pub enum TurnItem {
    Plan(PlanItem),
    /// Any item that is not a plan.
    Other,
}

#[derive(Debug, PartialEq, Eq)]
pub struct PlanItem {
    pub id: String,
    pub text: String,
}

#[derive(Debug, PartialEq, Eq)]
pub struct TurnCompleteEvent {
    pub turn_id: String,
    pub last_agent_message: Option<String>,
    pub completed_at: Option<i64>,
    pub duration_ms: Option<i64>,
}

pub enum RolloutItemView<Id, Input> {
    EventMsg(EventView<Id, Input>),
    Other,
}

pub enum EventView<Id, Input> {
    TurnStarted(TurnStartedView),
    UserMessage { inputs: Seq<Input> },
    AgentMessage(AgentMessageView),
    ItemStarted { thread_id: Id, turn_id: Seq<char>, item: TurnItemView },
    ItemCompleted { thread_id: Id, turn_id: Seq<char>, item: TurnItemView },
    TurnComplete(TurnCompleteView),
    Other,
}

pub struct TurnStartedView {
    pub turn_id: Seq<char>,
    pub started_at: Option<i64>,
    pub model_context_window: Option<i64>,
    pub collaboration_mode_kind: ModeKind,
}

pub struct AgentMessageView {
    pub message: Seq<char>,
    pub phase: Option<MessagePhase>,
    pub memory_citation: Option<Seq<char>>,
}

pub enum TurnItemView {
    Plan { id: Seq<char>, text: Seq<char> },
    Other,
}

pub struct TurnCompleteView {
    pub turn_id: Seq<char>,
    pub last_agent_message: Option<Seq<char>>,
    pub completed_at: Option<i64>,
    pub duration_ms: Option<i64>,
}

impl<'a, Id, Input> View for RolloutItem<'a, Id, Input> {
    type V = RolloutItemView<Id, Input>;

    open spec fn view(&self) -> RolloutItemView<Id, Input> {
        match self {
            RolloutItem::EventMsg(event) => RolloutItemView::EventMsg(event@),
            RolloutItem::Other => RolloutItemView::Other,
        }
    }
}

impl<'a, Id, Input> View for EventMsg<'a, Id, Input> {
    type V = EventView<Id, Input>;

    open spec fn view(&self) -> EventView<Id, Input> {
        match self {
            EventMsg::TurnStarted(event) => EventView::TurnStarted(event@),
            EventMsg::UserMessage(event) => EventView::UserMessage { inputs: event@ },
            EventMsg::AgentMessage(event) => EventView::AgentMessage(event@),
            EventMsg::ItemStarted(event) => EventView::ItemStarted {
                thread_id: event.thread_id,
                turn_id: event.turn_id@,
                item: event.item@,
            },
            EventMsg::ItemCompleted(event) => EventView::ItemCompleted {
                thread_id: event.thread_id,
                turn_id: event.turn_id@,
                item: event.item@,
            },
            EventMsg::TurnComplete(event) => EventView::TurnComplete(event@),
            EventMsg::Other => EventView::Other,
        }
    }
}

impl View for TurnStartedEvent {
    type V = TurnStartedView;

    open spec fn view(&self) -> TurnStartedView {
        TurnStartedView {
            turn_id: self.turn_id@,
            started_at: self.started_at,
            model_context_window: self.model_context_window,
            collaboration_mode_kind: self.collaboration_mode_kind,
        }
    }
}

impl<'a, Input> View for UserMessageEvent<'a, Input> {
    type V = Seq<Input>;

    open spec fn view(&self) -> Seq<Input> {
        self.inputs@
    }
}

impl View for AgentMessageEvent {
    type V = AgentMessageView;

    open spec fn view(&self) -> AgentMessageView {
        AgentMessageView {
            message: self.message@,
            phase: self.phase,
            memory_citation: text_view(self.memory_citation),
        }
    }
}

impl View for TurnItem {
    type V = TurnItemView;

    open spec fn view(&self) -> TurnItemView {
        match self {
            TurnItem::Plan(plan) => TurnItemView::Plan { id: plan.id@, text: plan.text@ },
            TurnItem::Other => TurnItemView::Other,
        }
    }
}

impl View for TurnCompleteEvent {
    type V = TurnCompleteView;

    open spec fn view(&self) -> TurnCompleteView {
        TurnCompleteView {
            turn_id: self.turn_id@,
            last_agent_message: text_view(self.last_agent_message),
            completed_at: self.completed_at,
            duration_ms: self.duration_ms,
        }
    }
}

// ---------------------------------------------------------------------------
// What clients are told
// ---------------------------------------------------------------------------
/// A message to the clients that follow a thread.
#[derive(Debug, PartialEq, Eq)]
pub enum ServerNotification {
    TurnStarted(TurnStartedNotification),
    ItemStarted(ItemStartedNotification),
    ItemCompleted(ItemCompletedNotification),
    TurnCompleted(TurnCompletedNotification),
}

#[derive(Debug, PartialEq, Eq)]
pub struct TurnStartedNotification {
    pub thread_id: String,
    pub turn: Turn,
}

#[derive(Debug, PartialEq, Eq)]
pub struct ItemStartedNotification {
    pub thread_id: String,
    pub turn_id: String,
    pub item: ThreadItem,
}

#[derive(Debug, PartialEq, Eq)]
pub struct ItemCompletedNotification {
    pub thread_id: String,
    pub turn_id: String,
    pub item: ThreadItem,
}

#[derive(Debug, PartialEq, Eq)]
pub struct TurnCompletedNotification {
    pub thread_id: String,
    pub turn: Turn,
}

#[derive(Debug, PartialEq, Eq)]
pub struct Turn {
    pub id: String,
    pub items: Vec<ThreadItem>,
    pub status: TurnStatus,
    pub error: Option<String>,
    pub started_at: Option<i64>,
    pub completed_at: Option<i64>,
    pub duration_ms: Option<i64>,
}

#[derive(Clone, Copy, Debug, PartialEq, Eq)]
pub enum TurnStatus {
    InProgress,
    Completed,
}

#[derive(Debug, PartialEq, Eq)]
pub enum ThreadItem {
    Plan { id: String, text: String },
}

pub enum NotificationView {
    TurnStarted { thread_id: Seq<char>, turn: TurnView },
    ItemStarted { thread_id: Seq<char>, turn_id: Seq<char>, item: ThreadItemView },
    ItemCompleted { thread_id: Seq<char>, turn_id: Seq<char>, item: ThreadItemView },
    TurnCompleted { thread_id: Seq<char>, turn: TurnView },
}

pub struct TurnView {
    pub id: Seq<char>,
    pub items: Seq<ThreadItemView>,
    pub status: TurnStatus,
    pub error: Option<Seq<char>>,
    pub started_at: Option<i64>,
    pub completed_at: Option<i64>,
    pub duration_ms: Option<i64>,
}

pub enum ThreadItemView {
    Plan { id: Seq<char>, text: Seq<char> },
}

impl View for ServerNotification {
    type V = NotificationView;

    open spec fn view(&self) -> NotificationView {
        match self {
            ServerNotification::TurnStarted(told) => NotificationView::TurnStarted {
                thread_id: told.thread_id@,
                turn: told.turn@,
            },
            ServerNotification::ItemStarted(told) => NotificationView::ItemStarted {
                thread_id: told.thread_id@,
                turn_id: told.turn_id@,
                item: told.item@,
            },
            ServerNotification::ItemCompleted(told) => NotificationView::ItemCompleted {
                thread_id: told.thread_id@,
                turn_id: told.turn_id@,
                item: told.item@,
            },
            ServerNotification::TurnCompleted(told) => NotificationView::TurnCompleted {
                thread_id: told.thread_id@,
                turn: told.turn@,
            },
        }
    }
}

impl View for Turn {
    type V = TurnView;

    open spec fn view(&self) -> TurnView {
        TurnView {
            id: self.id@,
            items: views(self.items@),
            status: self.status,
            error: text_view(self.error),
            started_at: self.started_at,
            completed_at: self.completed_at,
            duration_ms: self.duration_ms,
        }
    }
}

impl View for ThreadItem {
    type V = ThreadItemView;

    open spec fn view(&self) -> ThreadItemView {
        match self {
            ThreadItem::Plan { id, text } => ThreadItemView::Plan { id: id@, text: text@ },
        }
    }
}

} // verus!
