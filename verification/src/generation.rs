//! One chat generation, from the prompt to the stored reply.
//!
//! A generation is a state machine. Each step takes what happened last (an
//! [`Event`]) and answers with what to do next (an [`Action`]). Requests to
//! the model server are left to the caller, who reports how they went; what
//! the store is asked, [`Generation::settle`] asks itself.

use crate::db::{
    create_session, fetch_chat_history, find_session, lemma_refusal_is_no_save_failure,
    message_views, save_chat_message, save_failed_note, ChatMessage, ChatMessageView, StoreError,
};
use crate::ollama_api::{
    absorb_chat_chunk, chat_text_after, generate_session_title_with_ai, is_success, reply_of,
    succeeded, title_outcome, title_prompt, title_request, without_reasoning, TitleExchange,
    CANCELLED_MARKER,
};
use crate::session::{selected, GenerationState, GenerationStateView};
use crate::text::{joined, lines_of, utf8_lossy};
use rusqlite::Connection;
use tokio_util::sync::CancellationToken;
use vstd::prelude::*;
use vstd::string::*;

verus! {

/// Who wrote a message.
#[derive(Debug, Clone, Copy, PartialEq, Eq, Structural)]
pub enum Role {
    User,
    Assistant,
}

impl Role {
    /// The name under which the role is stored.
    pub open spec fn name(self) -> Seq<char> {
        match self {
            Role::User => "user"@,
            Role::Assistant => "assistant"@,
        }
    }

    /// The name under which the role is stored.
    pub fn as_str(&self) -> (name: &'static str)
        ensures
            name@ == self.name(),
    {
        match self {
            Role::User => "user",
            Role::Assistant => "assistant",
        }
    }
}

/// Where a generation stands.
#[derive(Debug, Clone, Copy, PartialEq, Eq, Structural)]
pub enum Stage {
    /// The model has been asked for a title for a new session.
    AwaitingTitle,
    /// The directory has been asked for the session with that title.
    FindingSession,
    /// The directory holds no session with that title and has been asked to
    /// create one.
    CreatingSession,
    /// The store has been asked to keep the prompt.
    SavingPrompt,
    /// The store has been asked for the messages of the session.
    LoadingHistory,
    /// The chat request has been sent.
    Dispatching,
    /// The reply is being read.
    Streaming,
    /// The store has been asked to keep the reply.
    SavingReply,
    /// The generation has ended.
    Done,
}

/// The four states of the coordination, as the shared state shows them.
#[derive(Debug, Clone, Copy, PartialEq, Eq, Structural)]
pub enum Phase {
    /// No generation is under way.
    Idle,
    /// The session is being resolved and the request prepared.
    Starting,
    /// The reply is being gathered.
    Streaming,
    /// The reply is being stored.
    Finalizing,
}

impl Stage {
    /// The state of the coordination at this stage.
    pub open spec fn phase_of(self) -> Phase {
        match self {
            Stage::AwaitingTitle
            | Stage::FindingSession
            | Stage::CreatingSession
            | Stage::SavingPrompt
            | Stage::LoadingHistory
            | Stage::Dispatching => Phase::Starting,
            Stage::Streaming => Phase::Streaming,
            Stage::SavingReply => Phase::Finalizing,
            Stage::Done => Phase::Idle,
        }
    }

    /// The state of the coordination at this stage.
    pub fn phase(&self) -> (phase: Phase)
        ensures
            phase == self.phase_of(),
    {
        match self {
            Stage::AwaitingTitle
            | Stage::FindingSession
            | Stage::CreatingSession
            | Stage::SavingPrompt
            | Stage::LoadingHistory
            | Stage::Dispatching => Phase::Starting,
            Stage::Streaming => Phase::Streaming,
            Stage::SavingReply => Phase::Finalizing,
            Stage::Done => Phase::Idle,
        }
    }
}

/// The step at which a generation failed.
#[derive(Debug, Clone, Copy, PartialEq, Eq, Structural)]
pub enum Failure {
    TitleGeneration,
    SessionResolution,
    SaveUserMessage,
    Dispatch,
    Status,
    Stream,
    SaveAssistantMessage,
    OutOfTurn,
}

impl Failure {
    /// What the error text of a failure at this step begins with.
    pub open spec fn prefix(self) -> Seq<char> {
        match self {
            Failure::TitleGeneration => "Failed to generate session title: "@,
            Failure::SessionResolution => "Failed to create or retrieve session: "@,
            Failure::SaveUserMessage => "Failed to save user message: "@,
            Failure::Dispatch => "Failed to make API call: "@,
            Failure::Status => "API call failed with status: "@,
            Failure::Stream => ""@,
            Failure::SaveAssistantMessage => "Failed to save assistant message: "@,
            Failure::OutOfTurn => "Event out of turn"@,
        }
    }

    /// What the error text of a failure at this step begins with.
    pub fn label(&self) -> (prefix: &'static str)
        ensures
            prefix@ == self.prefix(),
    {
        match self {
            Failure::TitleGeneration => "Failed to generate session title: ",
            Failure::SessionResolution => "Failed to create or retrieve session: ",
            Failure::SaveUserMessage => "Failed to save user message: ",
            Failure::Dispatch => "Failed to make API call: ",
            Failure::Status => "API call failed with status: ",
            Failure::Stream => "",
            Failure::SaveAssistantMessage => "Failed to save assistant message: ",
            Failure::OutOfTurn => "Event out of turn",
        }
    }
}

/// Why a generation failed: the step, and what was reported there.
#[derive(Debug, Clone, PartialEq, Eq)]
pub struct GenerationError {
    pub failure: Failure,
    pub detail: String,
}

/// A [`GenerationError`] as plain values.
pub struct GenerationErrorView {
    pub failure: Failure,
    pub detail: Seq<char>,
}

impl GenerationErrorView {
    /// The text shown for this error.
    pub open spec fn text(self) -> Seq<char> {
        self.failure.prefix() + self.detail
    }
}

impl View for GenerationError {
    type V = GenerationErrorView;

    open spec fn view(&self) -> GenerationErrorView {
        GenerationErrorView { failure: self.failure, detail: self.detail@ }
    }
}

impl GenerationError {
    /// The text shown for this error.
    pub fn message(&self) -> (text: String)
        ensures
            text@ == self@.text(),
    {
        joined(self.failure.label(), self.detail.as_str())
    }
}

/// What happened since the last action.
#[derive(Debug, PartialEq, Eq)]
pub enum Event {
    /// The exchange that asks for a title has ended.
    Title(TitleExchange),
    /// The directory has answered with the session that it holds under the
    /// title, if it holds one, or refused.
    Found(Result<Option<i64>, String>),
    /// The directory has created the session and answered with its
    /// identifier, or refused.
    Created(Result<i64, String>),
    /// The store has kept the message, or refused.
    Saved(Result<(), String>),
    /// The store has handed out the messages of the session, or refused.
    History(Result<Vec<ChatMessage>, String>),
    /// The model server has answered the chat request: the code of its
    /// status, and the status as it is shown.
    Responded { code: u16, status: String },
    /// The chat request could not be sent; the text says why.
    SendFailed(String),
    /// One chunk of the reply has arrived.
    Chunk(Vec<u8>),
    /// The reply has ended.
    EndOfStream,
    /// Reading the reply failed; the text says why.
    ReadFailed(String),
    /// Cancellation was signalled.
    Cancelled,
}

/// What to do next.
#[derive(Debug, PartialEq, Eq)]
pub enum Action {
    /// Ask `model` for a title with `prompt`, and report [`Event::Title`].
    RequestTitle { model: String, prompt: String },
    /// Ask the directory for the session titled exactly `title`, and report
    /// [`Event::Found`].
    FindSession { title: String },
    /// Ask the directory to create a session titled `title`, and report
    /// [`Event::Created`].
    CreateSession { title: String },
    /// Ask the store to keep a message, and report [`Event::Saved`].
    Save { session_id: i64, role: Role, content: String },
    /// Ask the store for the messages of a session, and report [`Event::History`].
    LoadHistory { session_id: i64 },
    /// Send the chat request, and report [`Event::Responded`],
    /// [`Event::SendFailed`] or, where cancellation was signalled first,
    /// [`Event::Cancelled`].
    OpenChat { model: String, messages: Vec<ChatMessage> },
    /// Read on in the reply, and report [`Event::Chunk`], [`Event::EndOfStream`],
    /// [`Event::ReadFailed`] or, where cancellation was signalled first,
    /// [`Event::Cancelled`].
    ReadChunk,
    /// Hand this result to the caller: the generation has ended.
    Finish(Result<String, GenerationError>),
    /// Nothing: the generation had ended before the event.
    Ended,
}

/// An [`Action`] as plain values.
pub enum ActionView {
    RequestTitle { model: Seq<char>, prompt: Seq<char> },
    FindSession { title: Seq<char> },
    CreateSession { title: Seq<char> },
    Save { session_id: i64, role: Role, content: Seq<char> },
    LoadHistory { session_id: i64 },
    OpenChat { model: Seq<char>, messages: Seq<ChatMessageView> },
    ReadChunk,
    Finish(Result<Seq<char>, GenerationErrorView>),
    Ended,
}

impl ActionView {
    /// Whether the action is a request to the store.
    pub open spec fn asks_store(self) -> bool {
        self is FindSession || self is CreateSession || self is Save || self is LoadHistory
    }
}

impl View for Action {
    type V = ActionView;

    open spec fn view(&self) -> ActionView {
        match self {
            Action::RequestTitle { model, prompt } => ActionView::RequestTitle {
                model: model@,
                prompt: prompt@,
            },
            Action::FindSession { title } => ActionView::FindSession { title: title@ },
            Action::CreateSession { title } => ActionView::CreateSession { title: title@ },
            Action::Save { session_id, role, content } => ActionView::Save {
                session_id: *session_id,
                role: *role,
                content: content@,
            },
            Action::LoadHistory { session_id } => ActionView::LoadHistory {
                session_id: *session_id,
            },
            Action::OpenChat { model, messages } => ActionView::OpenChat {
                model: model@,
                messages: message_views(messages@),
            },
            Action::ReadChunk => ActionView::ReadChunk,
            Action::Finish(Ok(text)) => ActionView::Finish(Ok(text@)),
            Action::Finish(Err(error)) => ActionView::Finish(Err(error@)),
            Action::Ended => ActionView::Ended,
        }
    }
}

/// A [`Generation`] as plain values.
pub struct GenerationView {
    pub stage: Stage,
    pub prompt: Seq<char>,
    pub model: Seq<char>,
    /// The title of the session to find or to create, once the model gave it.
    pub title: Seq<char>,
    /// The session of this generation, from [`Stage::SavingPrompt`] on.
    pub session_id: i64,
    /// The reply gathered so far.
    pub response: Seq<char>,
    /// Why the reply is not to be handed out: decided on entering
    /// [`Stage::SavingReply`], and gone once the generation has ended.
    pub failure: Option<GenerationErrorView>,
}

impl GenerationView {
    /// The generation ended with `result`.
    pub open spec fn finished(self, result: Result<Seq<char>, GenerationErrorView>) -> (
        GenerationView,
        ActionView,
    ) {
        (GenerationView { stage: Stage::Done, failure: None, ..self }, ActionView::Finish(result))
    }

    /// The session of the generation is `id`: the prompt is to be stored
    /// under it.
    pub open spec fn resolved(self, id: i64) -> (GenerationView, ActionView) {
        (
            GenerationView { stage: Stage::SavingPrompt, session_id: id, ..self },
            ActionView::Save { session_id: id, role: Role::User, content: self.prompt },
        )
    }

    /// The generation ended because `failure` was reported with `detail`.
    pub open spec fn failed(self, failure: Failure, detail: Seq<char>) -> (
        GenerationView,
        ActionView,
    ) {
        self.finished(Err(GenerationErrorView { failure, detail }))
    }

    /// The reply ends here with `response`, which is to be stored; `failure`
    /// says why it is not to be handed out, if it is not.
    pub open spec fn closing(self, response: Seq<char>, failure: Option<GenerationErrorView>) -> (
        GenerationView,
        ActionView,
    ) {
        (
            GenerationView { stage: Stage::SavingReply, response, failure, ..self },
            ActionView::Save { session_id: self.session_id, role: Role::Assistant, content: response },
        )
    }
}

/// The messages that the store handed out, or none where it refused.
pub open spec fn context_of(history: Result<Vec<ChatMessage>, String>) -> Seq<ChatMessageView> {
    match history {
        Ok(messages) => message_views(messages@),
        Err(_) => Seq::empty(),
    }
}

/// The first stage of a generation of `model` for `prompt`, and its first
/// action: with a session selected, the prompt is stored under it; without,
/// the model is asked for a title first.
pub open spec fn opening(prompt: Seq<char>, model: Seq<char>, current: Option<i64>) -> (
    GenerationView,
    ActionView,
) {
    let generation = GenerationView {
        stage: Stage::AwaitingTitle,
        prompt,
        model,
        title: Seq::empty(),
        session_id: crate::session::NO_SESSION,
        response: Seq::empty(),
        failure: None,
    };
    match selected(current) {
        Some(id) => (
            GenerationView { stage: Stage::SavingPrompt, session_id: id, ..generation },
            ActionView::Save { session_id: id, role: Role::User, content: prompt },
        ),
        None => (generation, ActionView::RequestTitle { model, prompt: title_request(prompt) }),
    }
}

/// The generation after `event`, and the action that answers it.
///
/// An event that does not fit the stage ends the generation with
/// [`Failure::OutOfTurn`]; once the generation has ended, every event is
/// answered with [`ActionView::Ended`].
pub open spec fn next(g: GenerationView, event: Event) -> (GenerationView, ActionView) {
    match g.stage {
        Stage::AwaitingTitle => match event {
            Event::Title(exchange) => match title_outcome(
                g.model,
                exchange,
                without_reasoning(reply_of(exchange)),
            ) {
                Ok(title) => (
                    GenerationView { stage: Stage::FindingSession, title, ..g },
                    ActionView::FindSession { title },
                ),
                Err(why) => g.failed(Failure::TitleGeneration, why),
            },
            _ => g.failed(Failure::OutOfTurn, Seq::empty()),
        },
        Stage::FindingSession => match event {
            Event::Found(Ok(Some(id))) => g.resolved(id),
            Event::Found(Ok(None)) => (
                GenerationView { stage: Stage::CreatingSession, ..g },
                ActionView::CreateSession { title: g.title },
            ),
            Event::Found(Err(why)) => g.failed(Failure::SessionResolution, why@),
            _ => g.failed(Failure::OutOfTurn, Seq::empty()),
        },
        Stage::CreatingSession => match event {
            Event::Created(Ok(id)) => g.resolved(id),
            Event::Created(Err(why)) => g.failed(Failure::SessionResolution, why@),
            _ => g.failed(Failure::OutOfTurn, Seq::empty()),
        },
        Stage::SavingPrompt => match event {
            Event::Saved(Ok(_)) => (
                GenerationView { stage: Stage::LoadingHistory, ..g },
                ActionView::LoadHistory { session_id: g.session_id },
            ),
            Event::Saved(Err(why)) => g.failed(Failure::SaveUserMessage, why@),
            _ => g.failed(Failure::OutOfTurn, Seq::empty()),
        },
        Stage::LoadingHistory => match event {
            Event::History(history) => (
                GenerationView { stage: Stage::Dispatching, ..g },
                ActionView::OpenChat { model: g.model, messages: context_of(history) },
            ),
            _ => g.failed(Failure::OutOfTurn, Seq::empty()),
        },
        Stage::Dispatching => match event {
            Event::Responded { code, status } => if is_success(code) {
                (GenerationView { stage: Stage::Streaming, ..g }, ActionView::ReadChunk)
            } else {
                g.closing(
                    g.response,
                    Some(GenerationErrorView { failure: Failure::Status, detail: status@ }),
                )
            },
            Event::SendFailed(why) => g.closing(
                g.response,
                Some(GenerationErrorView { failure: Failure::Dispatch, detail: why@ }),
            ),
            Event::Cancelled => g.closing(g.response + CANCELLED_MARKER@, None),
            _ => g.failed(Failure::OutOfTurn, Seq::empty()),
        },
        Stage::Streaming => match event {
            Event::Chunk(bytes) => {
                let (response, done) = chat_text_after(g.response, lines_of(utf8_lossy(bytes@)));
                if done {
                    g.closing(response, None)
                } else {
                    (GenerationView { response, ..g }, ActionView::ReadChunk)
                }
            },
            Event::EndOfStream => g.closing(g.response, None),
            Event::ReadFailed(why) => g.closing(
                g.response,
                Some(GenerationErrorView { failure: Failure::Stream, detail: why@ }),
            ),
            Event::Cancelled => g.closing(g.response + CANCELLED_MARKER@, None),
            _ => g.failed(Failure::OutOfTurn, Seq::empty()),
        },
        Stage::SavingReply => match event {
            Event::Saved(Ok(_)) => g.finished(
                match g.failure {
                    Some(error) => Err(error),
                    None => Ok(g.response),
                },
            ),
            Event::Saved(Err(why)) => g.failed(Failure::SaveAssistantMessage, why@),
            _ => g.failed(Failure::OutOfTurn, Seq::empty()),
        },
        Stage::Done => (g, ActionView::Ended),
    }
}

/// The shared state after a step that answered `event` with `action`: idle
/// once the generation ends, selecting the session once it is found or
/// created, and as it was otherwise.
pub open spec fn state_after(
    state: GenerationStateView,
    stage: Stage,
    event: Event,
    action: ActionView,
) -> GenerationStateView {
    if action is Finish {
        state.reset()
    } else {
        match (stage, event) {
            (Stage::FindingSession, Event::Found(Ok(Some(id)))) => state.selecting(Some(id)),
            (Stage::CreatingSession, Event::Created(Ok(id))) => state.selecting(Some(id)),
            _ => state,
        }
    }
}

/// One generation in progress.
pub struct Generation {
    stage: Stage,
    prompt: String,
    model: String,
    title: String,
    session_id: i64,
    response: String,
    failure: Option<GenerationError>,
    watch: CancellationToken,
}

impl View for Generation {
    type V = GenerationView;

    closed spec fn view(&self) -> GenerationView {
        GenerationView {
            stage: self.stage,
            prompt: self.prompt@,
            model: self.model@,
            title: self.title@,
            session_id: self.session_id,
            response: self.response@,
            failure: match self.failure {
                Some(error) => Some(error@),
                None => None,
            },
        }
    }
}

impl Generation {
    /// The cancellation handle that this generation watches, from its start
    /// to its end.
    pub closed spec fn watched(&self) -> CancellationToken {
        self.watch
    }

    /// Starts a generation of `model` for `prompt`: marks the shared state as
    /// running, installs a fresh cancellation handle, and answers with the
    /// first action. The handle installed is the one that the generation
    /// watches.
    pub fn begin(prompt: String, model: String, state: &mut GenerationState) -> (started: (
        Generation,
        Action,
    ))
        ensures
            (started.0@, started.1@) == opening(prompt@, model@, old(state)@.current_session_id),
            final(state)@ == old(state)@.started(started.0.watched()),
    {
        let watch = state.start();
        match state.selected_session() {
            Some(id) => {
                let content = prompt.clone();
                (
                    Generation {
                        stage: Stage::SavingPrompt,
                        prompt,
                        model,
                        title: String::new(),
                        session_id: id,
                        response: String::new(),
                        failure: None,
                        watch,
                    },
                    Action::Save { session_id: id, role: Role::User, content },
                )
            },
            None => {
                let request = title_prompt(prompt.as_str());
                let asked = model.clone();
                (
                    Generation {
                        stage: Stage::AwaitingTitle,
                        prompt,
                        model,
                        title: String::new(),
                        session_id: crate::session::NO_SESSION,
                        response: String::new(),
                        failure: None,
                        watch,
                    },
                    Action::RequestTitle { model: asked, prompt: request },
                )
            },
        }
    }

    /// Where the generation stands.
    pub fn stage(&self) -> (stage: Stage)
        ensures
            stage == self@.stage,
    {
        self.stage
    }

    /// The session of this generation, from [`Stage::SavingPrompt`] on.
    pub fn session_id(&self) -> (id: i64)
        ensures
            id == self@.session_id,
    {
        self.session_id
    }

    /// The reply gathered so far.
    pub fn response(&self) -> (text: &str)
        ensures
            text@ == self@.response,
    {
        self.response.as_str()
    }

    /// The handle on which the cancellation of this generation is signalled:
    /// the one that [`Generation::begin`] installed in the shared state.
    pub fn cancellation_token(&self) -> (token: &CancellationToken)
        ensures
            *token == self.watched(),
    {
        &self.watch
    }

    /// Ends the generation with `result` and leaves the shared state idle.
    fn finish(&mut self, state: &mut GenerationState, result: Result<String, GenerationError>) -> (action:
        Action)
        ensures
            (final(self)@, action@) == old(self)@.finished(
                match result {
                    Ok(text) => Ok(text@),
                    Err(error) => Err(error@),
                },
            ),
            final(state)@ == old(state)@.reset(),
            final(self).watched() == old(self).watched(),
    {
        self.stage = Stage::Done;
        self.failure = None;
        state.finish();
        Action::Finish(result)
    }

    /// Ends the generation because `failure` was reported with `detail`.
    fn fail(&mut self, state: &mut GenerationState, failure: Failure, detail: String) -> (action:
        Action)
        ensures
            (final(self)@, action@) == old(self)@.failed(failure, detail@),
            final(state)@ == old(state)@.reset(),
            final(self).watched() == old(self).watched(),
    {
        self.finish(state, Err(GenerationError { failure, detail }))
    }

    /// Ends the reply here and asks the store to keep it.
    fn close(&mut self, failure: Option<GenerationError>) -> (action: Action)
        ensures
            (final(self)@, action@) == old(self)@.closing(
                old(self)@.response,
                match failure {
                    Some(error) => Some(error@),
                    None => None,
                },
            ),
            final(self).watched() == old(self).watched(),
    {
        self.stage = Stage::SavingReply;
        self.failure = failure;
        Action::Save {
            session_id: self.session_id,
            role: Role::Assistant,
            content: self.response.clone(),
        }
    }

    fn after_title(&mut self, state: &mut GenerationState, event: Event) -> (action: Action)
        requires
            old(self)@.stage == Stage::AwaitingTitle,
        ensures
            (final(self)@, action@) == next(old(self)@, event),
            final(state)@ == state_after(old(state)@, old(self)@.stage, event, action@),
            final(self).watched() == old(self).watched(),
    {
        match event {
            Event::Title(exchange) => {
                match generate_session_title_with_ai(self.model.as_str(), &exchange) {
                    Ok(title) => {
                        self.stage = Stage::FindingSession;
                        self.title = title.clone();
                        Action::FindSession { title }
                    },
                    Err(why) => self.fail(state, Failure::TitleGeneration, why),
                }
            },
            _ => self.fail(state, Failure::OutOfTurn, String::new()),
        }
    }

    /// Takes `id` as the session of the generation, selects it, and asks the
    /// store to keep the prompt under it.
    fn resolve(&mut self, state: &mut GenerationState, id: i64) -> (action: Action)
        ensures
            (final(self)@, action@) == old(self)@.resolved(id),
            final(state)@ == old(state)@.selecting(Some(id)),
            final(self).watched() == old(self).watched(),
    {
        self.stage = Stage::SavingPrompt;
        self.session_id = id;
        state.select(Some(id));
        Action::Save { session_id: id, role: Role::User, content: self.prompt.clone() }
    }

    fn after_lookup(&mut self, state: &mut GenerationState, event: Event) -> (action: Action)
        requires
            old(self)@.stage == Stage::FindingSession,
        ensures
            (final(self)@, action@) == next(old(self)@, event),
            final(state)@ == state_after(old(state)@, old(self)@.stage, event, action@),
            final(self).watched() == old(self).watched(),
    {
        match event {
            Event::Found(Ok(Some(id))) => self.resolve(state, id),
            Event::Found(Ok(None)) => {
                self.stage = Stage::CreatingSession;
                Action::CreateSession { title: self.title.clone() }
            },
            Event::Found(Err(why)) => self.fail(state, Failure::SessionResolution, why),
            _ => self.fail(state, Failure::OutOfTurn, String::new()),
        }
    }

    fn after_creation(&mut self, state: &mut GenerationState, event: Event) -> (action: Action)
        requires
            old(self)@.stage == Stage::CreatingSession,
        ensures
            (final(self)@, action@) == next(old(self)@, event),
            final(state)@ == state_after(old(state)@, old(self)@.stage, event, action@),
            final(self).watched() == old(self).watched(),
    {
        match event {
            Event::Created(Ok(id)) => self.resolve(state, id),
            Event::Created(Err(why)) => self.fail(state, Failure::SessionResolution, why),
            _ => self.fail(state, Failure::OutOfTurn, String::new()),
        }
    }

    fn after_prompt(&mut self, state: &mut GenerationState, event: Event) -> (action: Action)
        requires
            old(self)@.stage == Stage::SavingPrompt,
        ensures
            (final(self)@, action@) == next(old(self)@, event),
            final(state)@ == state_after(old(state)@, old(self)@.stage, event, action@),
            final(self).watched() == old(self).watched(),
    {
        match event {
            Event::Saved(Ok(_)) => {
                self.stage = Stage::LoadingHistory;
                Action::LoadHistory { session_id: self.session_id }
            },
            Event::Saved(Err(why)) => self.fail(state, Failure::SaveUserMessage, why),
            _ => self.fail(state, Failure::OutOfTurn, String::new()),
        }
    }

    fn after_history(&mut self, state: &mut GenerationState, event: Event) -> (action: Action)
        requires
            old(self)@.stage == Stage::LoadingHistory,
        ensures
            (final(self)@, action@) == next(old(self)@, event),
            final(state)@ == state_after(old(state)@, old(self)@.stage, event, action@),
            final(self).watched() == old(self).watched(),
    {
        match event {
            Event::History(history) => {
                self.stage = Stage::Dispatching;
                let messages = match history {
                    Ok(messages) => messages,
                    Err(_) => Vec::new(),
                };
                assert(message_views(messages@) =~= context_of(history));
                Action::OpenChat { model: self.model.clone(), messages }
            },
            _ => self.fail(state, Failure::OutOfTurn, String::new()),
        }
    }

    fn after_dispatch(&mut self, state: &mut GenerationState, event: Event) -> (action: Action)
        requires
            old(self)@.stage == Stage::Dispatching,
        ensures
            (final(self)@, action@) == next(old(self)@, event),
            final(state)@ == state_after(old(state)@, old(self)@.stage, event, action@),
            final(self).watched() == old(self).watched(),
    {
        match event {
            Event::Responded { code, status } => {
                if succeeded(code) {
                    self.stage = Stage::Streaming;
                    Action::ReadChunk
                } else {
                    self.close(Some(GenerationError { failure: Failure::Status, detail: status }))
                }
            },
            Event::SendFailed(why) => self.close(
                Some(GenerationError { failure: Failure::Dispatch, detail: why }),
            ),
            Event::Cancelled => {
                self.response.append(CANCELLED_MARKER);
                self.close(None)
            },
            _ => self.fail(state, Failure::OutOfTurn, String::new()),
        }
    }

    fn after_chunk(&mut self, state: &mut GenerationState, event: Event) -> (action: Action)
        requires
            old(self)@.stage == Stage::Streaming,
        ensures
            (final(self)@, action@) == next(old(self)@, event),
            final(state)@ == state_after(old(state)@, old(self)@.stage, event, action@),
            final(self).watched() == old(self).watched(),
    {
        match event {
            Event::Chunk(bytes) => {
                if absorb_chat_chunk(&mut self.response, bytes.as_slice()) {
                    self.close(None)
                } else {
                    Action::ReadChunk
                }
            },
            Event::EndOfStream => self.close(None),
            Event::ReadFailed(why) => self.close(
                Some(GenerationError { failure: Failure::Stream, detail: why }),
            ),
            Event::Cancelled => {
                self.response.append(CANCELLED_MARKER);
                self.close(None)
            },
            _ => self.fail(state, Failure::OutOfTurn, String::new()),
        }
    }

    fn after_reply(&mut self, state: &mut GenerationState, event: Event) -> (action: Action)
        requires
            old(self)@.stage == Stage::SavingReply,
        ensures
            (final(self)@, action@) == next(old(self)@, event),
            final(state)@ == state_after(old(state)@, old(self)@.stage, event, action@),
            final(self).watched() == old(self).watched(),
    {
        match event {
            Event::Saved(Ok(_)) => {
                let result = match self.failure.take() {
                    Some(error) => Err(error),
                    None => Ok(self.response.clone()),
                };
                self.finish(state, result)
            },
            Event::Saved(Err(why)) => self.fail(state, Failure::SaveAssistantMessage, why),
            _ => self.fail(state, Failure::OutOfTurn, String::new()),
        }
    }

    /// Takes `event` and answers with the next action. An action that ends
    /// the generation leaves the shared state idle.
    pub fn step(&mut self, state: &mut GenerationState, event: Event) -> (action: Action)
        ensures
            (final(self)@, action@) == next(old(self)@, event),
            final(state)@ == state_after(old(state)@, old(self)@.stage, event, action@),
            action@ is Finish ==> final(state)@.idle(),
            final(self).watched() == old(self).watched(),
    {
        match self.stage {
            Stage::AwaitingTitle => self.after_title(state, event),
            Stage::FindingSession => self.after_lookup(state, event),
            Stage::CreatingSession => self.after_creation(state, event),
            Stage::SavingPrompt => self.after_prompt(state, event),
            Stage::LoadingHistory => self.after_history(state, event),
            Stage::Dispatching => self.after_dispatch(state, event),
            Stage::Streaming => self.after_chunk(state, event),
            Stage::SavingReply => self.after_reply(state, event),
            Stage::Done => Action::Ended,
        }
    }
}


/// The generation and the shared state after `event`, and the action that
/// answers it.
pub open spec fn step_of(g: GenerationView, state: GenerationStateView, event: Event) -> (
    GenerationView,
    GenerationStateView,
    ActionView,
) {
    let (after, action) = next(g, event);
    (after, state_after(state, g.stage, event, action), action)
}

/// The generation and the shared state after `events` in turn, and the
/// actions that answered them, one for each.
pub open spec fn run(g: GenerationView, state: GenerationStateView, events: Seq<Event>) -> (
    GenerationView,
    GenerationStateView,
    Seq<ActionView>,
)
    decreases events.len(),
{
    if events.len() == 0 {
        (g, state, Seq::empty())
    } else {
        let (before, held, actions) = run(g, state, events.drop_last());
        let (after, left, action) = step_of(before, held, events.last());
        (after, left, actions.push(action))
    }
}

/// What a generation ends with where its prompt was to be stored under an
/// identifier that names no session.
pub open spec fn prompt_refused() -> ActionView {
    ActionView::Finish(
        Err(
            GenerationErrorView {
                failure: Failure::SaveUserMessage,
                detail: StoreError::NoActiveSession.text(),
            },
        ),
    )
}

/// Whether `event` is the store's answer to the request `action`. A message
/// for an identifier that names no session is never kept: the answer is the
/// refusal, with its text. A message for any other identifier is kept, or
/// the answer is what SQLite reported, behind the note that saving failed.
pub open spec fn answers(event: Event, action: ActionView) -> bool {
    match action {
        ActionView::FindSession { .. } => event is Found,
        ActionView::CreateSession { .. } => event is Created,
        ActionView::Save { session_id, .. } => match event {
            Event::Saved(Ok(_)) => session_id > 0,
            Event::Saved(Err(why)) => if session_id <= 0 {
                why@ == StoreError::NoActiveSession.text()
            } else {
                save_failed_note().is_prefix_of(why@)
            },
            _ => false,
        },
        ActionView::LoadHistory { .. } => event is History,
        _ => false,
    }
}

/// Whether `event` does not report a message as kept that `action` asked to
/// store under an identifier that names no session.
pub open spec fn truthful(action: ActionView, event: Event) -> bool {
    match action {
        ActionView::Save { session_id, .. } => session_id <= 0 ==> !(event matches Event::Saved(
            Ok(_),
        )),
        _ => true,
    }
}

/// What holds between a generation, the shared state and the action that was
/// answered last, as long as no other command touches the state and the store
/// is truthful: the prompt is stored under the generation's session, which the
/// state selects from then on; past that point the session is a valid one;
/// and the chat request is sent from [`Stage::Dispatching`] alone.
pub open spec fn consistent(g: GenerationView, state: GenerationStateView, pending: ActionView) -> bool {
    &&& g.stage == Stage::SavingPrompt ==> pending == ActionView::Save {
        session_id: g.session_id,
        role: Role::User,
        content: g.prompt,
    }
    &&& past_prompt(g.stage) ==> g.session_id > 0
    &&& g.stage == Stage::SavingPrompt || past_prompt(g.stage) ==> state.current_session_id
        == Some(g.session_id)
    &&& pending is OpenChat ==> g.stage == Stage::Dispatching
}

/// Whether the session of a generation at `stage` is settled: it is the one
/// under which the prompt is stored, and no step changes it.
pub open spec fn session_settled(stage: Stage) -> bool {
    stage == Stage::SavingPrompt || past_prompt(stage) || stage == Stage::Done
}

/// Whether what a generation holds against its reply, if anything, is a
/// failure of the chat request or of reading the reply. It is so from the
/// start, and every step keeps it so.
pub open spec fn reply_failure_only(g: GenerationView) -> bool {
    g.failure matches Some(error) ==> error.failure == Failure::Dispatch || error.failure
        == Failure::Status || error.failure == Failure::Stream
}

/// The refusal is the answer to a prompt for no session alone: where a step
/// ends the generation with it, the session of the generation names none.
pub proof fn lemma_refusal_names_no_session(
    g: GenerationView,
    state: GenerationStateView,
    pending: ActionView,
    event: Event,
)
    requires
        consistent(g, state, pending),
        reply_failure_only(g),
        answers(event, pending),
        next(g, event).1 == prompt_refused(),
    ensures
        g.stage == Stage::SavingPrompt,
        next(g, event).0.session_id == g.session_id,
        g.session_id <= 0,
{
    lemma_refusal_is_no_save_failure();
}

/// Whether `action` ends the generation because SQLite did not keep the
/// prompt.
pub open spec fn prompt_not_kept(action: ActionView) -> bool {
    action matches ActionView::Finish(Err(error)) && error.failure == Failure::SaveUserMessage
        && save_failed_note().is_prefix_of(error.detail)
}

/// Whether `action` asks to store a message under an identifier that may
/// name a session.
pub open spec fn asks_to_store_somewhere(action: ActionView) -> bool {
    action matches ActionView::Save { session_id, .. } && session_id > 0
}

/// Whether `action` asks to store a message under an identifier that names no
/// session.
pub open spec fn asks_to_store_nowhere(action: ActionView) -> bool {
    action matches ActionView::Save { session_id, .. } && session_id <= 0
}

/// A step keeps what [`consistent`] says, where the event does not report a
/// message as kept that could not be.
pub proof fn lemma_consistent_step(
    g: GenerationView,
    state: GenerationStateView,
    pending: ActionView,
    event: Event,
)
    requires
        consistent(g, state, pending),
        truthful(pending, event),
    ensures
        consistent(step_of(g, state, event).0, step_of(g, state, event).1, step_of(g, state, event).2),
{
}

/// Whether asking the store what `first` and the actions after it request,
/// and feeding its `replies` back in turn, leads from `g` and `state` to
/// `after` and `left` with `last` as the action to take.
pub open spec fn settled(
    g: GenerationView,
    state: GenerationStateView,
    first: ActionView,
    replies: Seq<Event>,
    after: GenerationView,
    left: GenerationStateView,
    last: ActionView,
) -> bool {
    let (reached, held, actions) = run(g, state, replies);
    let all = seq![first] + actions;
    &&& reached == after
    &&& held == left
    &&& all.last() == last
    &&& forall|k: int| 0 <= k < replies.len() ==> answers(#[trigger] replies[k], all[k])
}

/// How many stages lie between `stage` and the end of a generation.
pub open spec fn stages_ahead(stage: Stage) -> nat {
    match stage {
        Stage::AwaitingTitle => 8,
        Stage::FindingSession => 7,
        Stage::CreatingSession => 6,
        Stage::SavingPrompt => 5,
        Stage::LoadingHistory => 4,
        Stage::Dispatching => 3,
        Stage::Streaming => 2,
        Stage::SavingReply => 1,
        Stage::Done => 0,
    }
}

/// Asks the store to keep a message of `role` under `session_id`, and gives
/// an error as its text: that no session is active where `session_id` names
/// none, and else what the store reported, behind a note that saving failed.
fn keep_message(conn: &Connection, session_id: i64, role: Role, content: &str) -> (saved: Result<
    (),
    String,
>)
    ensures
        session_id <= 0 ==> (saved matches Err(why) && why@
            == StoreError::NoActiveSession.text()),
        session_id > 0 ==> (saved matches Err(why) ==> save_failed_note().is_prefix_of(why@)),
{
    match save_chat_message(session_id, role.as_str(), content, conn) {
        Ok(()) => Ok(()),
        Err(error) => {
            let why = error.message();
            proof {
                if session_id > 0 {
                    let note = save_failed_note();
                    assert(why@.subrange(0, note.len() as int) =~= note);
                }
            }
            Err(why)
        },
    }
}

impl Generation {
    /// Asks the store what `action` and the actions after it request, until
    /// the action to take is none of the store's. The store decides what it
    /// answers; each answer is taken as [`Generation::step`] takes it.
    pub fn settle(&mut self, state: &mut GenerationState, conn: &Connection, action: Action) -> (last:
        Action)
        ensures
            !last@.asks_store(),
            exists|replies: Seq<Event>| #[trigger]
                settled(old(self)@, old(state)@, action@, replies, final(self)@, final(state)@, last@),
            !action@.asks_store() ==> last@ == action@ && final(self)@ == old(self)@ && final(state)@
                == old(state)@,
            action@.asks_store() && last@ is Finish ==> final(state)@.idle(),
            final(self).watched() == old(self).watched(),
            !(last@ is Finish) ==> final(state)@.cancellation_token == old(
                state,
            )@.cancellation_token && final(state)@.is_running == old(state)@.is_running,
            consistent(old(self)@, old(state)@, action@) ==> consistent(
                final(self)@,
                final(state)@,
                last@,
            ),
            old(self)@.stage == Stage::SavingPrompt && asks_to_store_nowhere(action@) ==> last@
                == prompt_refused() && final(state)@ == old(state)@.reset(),
            consistent(old(self)@, old(state)@, action@) && reply_failure_only(old(self)@)
                && action@.asks_store() && last@ == prompt_refused() ==> final(self)@.session_id
                <= 0,
            reply_failure_only(old(self)@) ==> reply_failure_only(final(self)@),
            session_settled(old(self)@.stage) ==> final(self)@.session_id == old(self)@.session_id,
            old(self)@.stage == Stage::SavingPrompt && asks_to_store_somewhere(action@) ==> last@
                is OpenChat || prompt_not_kept(last@),
    {
        let ghost first = action@;
        let ghost mut replies: Seq<Event> = Seq::empty();
        let mut pending = action;
        proof {
            assert(seq![first] + Seq::<ActionView>::empty() =~= seq![first]);
        }
        loop
            invariant
                first == action@,
                settled(old(self)@, old(state)@, first, replies, self@, state@, pending@),
                replies.len() == 0 ==> pending@ == first && self@ == old(self)@ && state@ == old(
                    state,
                )@,
                replies.len() > 0 && pending@ is Finish ==> state@.idle(),
                first.asks_store() || replies.len() == 0,
                run(old(self)@, old(state)@, replies).2.len() == replies.len(),
                self.watched() == old(self).watched(),
                !(pending@ is Finish) ==> state@.cancellation_token == old(state)@.cancellation_token
                    && state@.is_running == old(state)@.is_running,
                consistent(old(self)@, old(state)@, first) ==> consistent(self@, state@, pending@),
                old(self)@.stage == Stage::SavingPrompt && asks_to_store_nowhere(first)
                    && replies.len() > 0 ==> pending@ == prompt_refused() && state@ == old(
                    state,
                )@.reset(),
                consistent(old(self)@, old(state)@, first) && reply_failure_only(old(self)@)
                    && replies.len() > 0 && pending@ == prompt_refused() ==> self@.session_id
                    <= 0,
                reply_failure_only(old(self)@) ==> reply_failure_only(self@),
                session_settled(old(self)@.stage) ==> session_settled(self@.stage)
                    && self@.session_id == old(self)@.session_id,
                old(self)@.stage == Stage::SavingPrompt && asks_to_store_somewhere(first)
                    && replies.len() > 0 ==> (pending@ is LoadHistory && self@.stage
                    == Stage::LoadingHistory) || pending@ is OpenChat || prompt_not_kept(pending@),
            decreases stages_ahead(self@.stage), pending@.asks_store() as int,
        {
            let ghost asked = pending@;
            let event = match pending {
                Action::FindSession { title } => Event::Found(
                    match find_session(conn, title.as_str()) {
                        Ok(found) => Ok(found),
                        Err(error) => Err(error.message()),
                    },
                ),
                Action::CreateSession { title } => Event::Created(
                    match create_session(conn, title.as_str()) {
                        Ok(id) => Ok(id),
                        Err(error) => Err(error.message()),
                    },
                ),
                Action::Save { session_id, role, content } => Event::Saved(
                    keep_message(conn, session_id, role, content.as_str()),
                ),
                Action::LoadHistory { session_id } => Event::History(
                    match fetch_chat_history(session_id, conn) {
                        Ok(messages) => Ok(messages),
                        Err(error) => Err(error.message()),
                    },
                ),
                other => {
                    return other;
                },
            };
            let ghost actions = run(old(self)@, old(state)@, replies).2;
            let ghost (before, held) = (self@, state@);
            assert(answers(event, asked));
            pending = self.step(state, event);
            proof {
                if consistent(before, held, asked) {
                    lemma_consistent_step(before, held, asked, event);
                    if pending@ == prompt_refused() && reply_failure_only(before) {
                        lemma_refusal_names_no_session(before, held, asked, event);
                    }
                }
                let grown = replies.push(event);
                assert(grown.drop_last() == replies);
                assert((seq![first] + actions)[replies.len() as int] == asked);
                assert(seq![first] + actions.push(pending@) =~= (seq![first] + actions).push(
                    pending@,
                ));
                assert forall|k: int| 0 <= k < grown.len() implies answers(
                    #[trigger] grown[k],
                    (seq![first] + actions.push(pending@))[k],
                ) by {
                    if k < replies.len() {
                        assert(grown[k] == replies[k]);
                    }
                }
                replies = grown;
            }
        }
    }

    /// Takes `event`, then asks the store whatever the answer requests: the
    /// action returned is one for the caller, and one that ends the
    /// generation leaves the shared state idle. Where the answer asks nothing
    /// of the store, this is [`Generation::step`].
    pub fn advance(&mut self, state: &mut GenerationState, conn: &Connection, event: Event) -> (action:
        Action)
        ensures
            !action@.asks_store(),
            action@ is Finish ==> final(state)@.idle(),
            final(self).watched() == old(self).watched(),
            !(action@ is Finish) ==> final(state)@.cancellation_token == old(
                state,
            )@.cancellation_token && final(state)@.is_running == old(state)@.is_running,
            !step_of(old(self)@, old(state)@, event).2.asks_store() ==> (
                final(self)@,
                final(state)@,
                action@,
            ) == step_of(old(self)@, old(state)@, event),
            old(self)@.stage == Stage::AwaitingTitle && action@ is OpenChat
                ==> final(self)@.session_id > 0 && final(state)@.current_session_id == Some(
                final(self)@.session_id,
            ),
            ({
                let (g, held, first) = step_of(old(self)@, old(state)@, event);
                exists|replies: Seq<Event>| #[trigger]
                    settled(g, held, first, replies, final(self)@, final(state)@, action@)
            }),
    {
        let first = self.step(state, event);
        let ghost (g, held) = (self@, state@);
        let action = self.settle(state, conn, first);
        proof {
            let replies = choose|replies: Seq<Event>| #[trigger]
                settled(g, held, first@, replies, self@, state@, action@);
            assert(settled(g, held, first@, replies, self@, state@, action@));
        }
        action
    }
}

/// Starts a generation of `model` for `prompt` and takes it as far as the
/// store alone can: marks the shared state as running, installs a fresh
/// cancellation handle in place of any earlier one, and with a session
/// selected stores the prompt and loads the session's messages. The action
/// returned is one for the caller: to ask for a title where no session is
/// selected, to send the chat request where the prompt was stored, or the end
/// of the generation where it was not. A selection that names no session ends
/// the generation at once, with nothing sent.
pub fn process_chat_generation(
    prompt: String,
    model: String,
    state: &mut GenerationState,
    conn: &Connection,
) -> (started: (Generation, Action))
    ensures
        !started.1@.asks_store(),
        started.1@ is Finish ==> final(state)@.idle(),
        !(started.1@ is Finish) ==> final(state)@.cancellation_token == Some(
            started.0.watched(),
        ),
        selected(old(state)@.current_session_id) is None ==> started.1@
            == (ActionView::RequestTitle { model: model@, prompt: title_request(prompt@) })
            && final(state)@ == old(state)@.started(started.0.watched()),
        selected(old(state)@.current_session_id) matches Some(id) && id <= 0 ==> started.1@
            == prompt_refused() && final(state)@ == old(state)@.reset(),
        started.1@ == prompt_refused() ==> (selected(old(state)@.current_session_id) matches Some(
            id,
        ) && id <= 0),
        selected(old(state)@.current_session_id) matches Some(id) && id > 0 ==> started.1@
            is OpenChat || prompt_not_kept(started.1@),
        started.1@ is OpenChat ==> started.0@.session_id > 0 && final(state)@.is_running
            && final(state)@.current_session_id == Some(started.0@.session_id),
        ({
            let (g, first) = opening(prompt@, model@, old(state)@.current_session_id);
            exists|replies: Seq<Event>| #[trigger]
                settled(
                    g,
                    old(state)@.started(started.0.watched()),
                    first,
                    replies,
                    started.0@,
                    final(state)@,
                    started.1@,
                )
        }),
{
    let ghost first_view = opening(prompt@, model@, state@.current_session_id).1;
    let (mut generation, first) = Generation::begin(prompt, model, state);
    let ghost g = generation@;
    let ghost held = state@;
    let action = generation.settle(state, conn, first);
    proof {
        let replies = choose|replies: Seq<Event>| #[trigger]
            settled(g, held, first@, replies, generation@, state@, action@);
        assert(settled(g, held, first_view, replies, generation@, state@, action@));
        assert(consistent(g, held, first@));
        assert(held.reset() == old(state)@.reset());
    }
    let started = (generation, action);
    assert(started.0@ == generation@ && started.1@ == action@);
    started
}

/// Whether the prompt of a generation has been stored under `session_id` by
/// the action at `i`: that action asked for it, and the event that followed
/// says that the store kept it.
pub open spec fn prompt_stored_at(
    prompt: Seq<char>,
    session_id: i64,
    actions: Seq<ActionView>,
    events: Seq<Event>,
    i: int,
) -> bool {
    &&& 0 <= i < events.len()
    &&& i < actions.len()
    &&& actions[i] == ActionView::Save { session_id, role: Role::User, content: prompt }
    &&& events[i] matches Event::Saved(Ok(_))
}

/// Whether the generation has passed the point at which its prompt is stored.
pub open spec fn past_prompt(stage: Stage) -> bool {
    stage == Stage::LoadingHistory || stage == Stage::Dispatching || stage == Stage::Streaming
        || stage == Stage::SavingReply
}

/// What holds of every run of a generation from its start: `actions` are the
/// first action and those that answered `events`, `g` is where it stands.
spec fn orderly(prompt: Seq<char>, g: GenerationView, actions: Seq<ActionView>, events: Seq<Event>) -> bool {
    &&& actions.len() == events.len() + 1
    &&& g.prompt == prompt
    &&& g.stage == Stage::SavingPrompt ==> actions.last() == ActionView::Save {
        session_id: g.session_id,
        role: Role::User,
        content: prompt,
    }
    &&& past_prompt(g.stage) ==> exists|i: int| #[trigger]
        prompt_stored_at(prompt, g.session_id, actions, events, i)
    &&& forall|j: int|
        0 <= j < actions.len() && (#[trigger] actions[j] matches ActionView::Save {
            role: Role::Assistant,
            ..
        }) ==> exists|i: int|
            i < j && #[trigger] prompt_stored_at(prompt, actions[j]->Save_session_id, actions, events, i)
}

proof fn lemma_runs_are_orderly(
    prompt: Seq<char>,
    model: Seq<char>,
    state: GenerationStateView,
    events: Seq<Event>,
)
    ensures
        ({
            let (g, first) = opening(prompt, model, state.current_session_id);
            let (reached, left, actions) = run(g, state, events);
            orderly(prompt, reached, seq![first] + actions, events)
        }),
    decreases events.len(),
{
    let (g, first) = opening(prompt, model, state.current_session_id);
    if events.len() == 0 {
        assert(seq![first] + Seq::<ActionView>::empty() =~= seq![first]);
    } else {
        let earlier = events.drop_last();
        lemma_runs_are_orderly(prompt, model, state, earlier);
        let (before, held, answered) = run(g, state, earlier);
        let (after, left, action) = step_of(before, held, events.last());
        let old_actions = seq![first] + answered;
        let actions = seq![first] + answered.push(action);
        assert(actions =~= old_actions.push(action));
        assert forall|i: int, id: i64| #[trigger]
            prompt_stored_at(prompt, id, old_actions, earlier, i) implies prompt_stored_at(
            prompt,
            id,
            actions,
            events,
            i,
        ) by {
            assert(events[i] == earlier[i]);
            assert(actions[i] == old_actions[i]);
        }
        if past_prompt(after.stage) {
            if past_prompt(before.stage) {
                let i = choose|i: int| #[trigger]
                    prompt_stored_at(prompt, before.session_id, old_actions, earlier, i);
                assert(prompt_stored_at(prompt, after.session_id, actions, events, i));
            } else {
                let i = earlier.len() as int;
                assert(actions[i] == old_actions.last());
                assert(prompt_stored_at(prompt, after.session_id, actions, events, i));
            }
        }
        assert forall|j: int|
            0 <= j < actions.len() && (#[trigger] actions[j] matches ActionView::Save {
                role: Role::Assistant,
                ..
            }) implies exists|i: int|
            i < j && #[trigger] prompt_stored_at(
                prompt,
                actions[j]->Save_session_id,
                actions,
                events,
                i,
            ) by {
            if j < old_actions.len() {
                assert(actions[j] == old_actions[j]);
                let i = choose|i: int|
                    i < j && #[trigger] prompt_stored_at(
                        prompt,
                        old_actions[j]->Save_session_id,
                        old_actions,
                        earlier,
                        i,
                    );
                assert(prompt_stored_at(prompt, actions[j]->Save_session_id, actions, events, i));
            } else {
                let i = choose|i: int| #[trigger]
                    prompt_stored_at(prompt, before.session_id, old_actions, earlier, i);
                assert(prompt_stored_at(prompt, actions[j]->Save_session_id, actions, events, i));
            }
        }
    }
}

/// Within one generation the prompt is stored before the reply: whenever a
/// run asks the store to keep the reply, it has asked before to keep the
/// prompt under the same session, and the store has answered that it did.
pub proof fn lemma_prompt_stored_before_reply(
    prompt: Seq<char>,
    model: Seq<char>,
    state: GenerationStateView,
    events: Seq<Event>,
    j: int,
)
    requires
        ({
            let (g, first) = opening(prompt, model, state.current_session_id);
            let actions = seq![first] + run(g, state, events).2;
            0 <= j < actions.len() && actions[j] matches ActionView::Save {
                role: Role::Assistant,
                ..
            }
        }),
    ensures
        ({
            let (g, first) = opening(prompt, model, state.current_session_id);
            let actions = seq![first] + run(g, state, events).2;
            exists|i: int|
                i < j && #[trigger] prompt_stored_at(
                    prompt,
                    actions[j]->Save_session_id,
                    actions,
                    events,
                    i,
                )
        }),
{
    lemma_runs_are_orderly(prompt, model, state, events);
}

/// Whenever a step of a run ends the generation, the shared state is idle
/// after it: no generation runs and no cancellation handle is installed.
pub proof fn lemma_ending_leaves_idle(
    g: GenerationView,
    state: GenerationStateView,
    events: Seq<Event>,
)
    requires
        events.len() > 0,
        run(g, state, events).2.last() is Finish,
    ensures
        run(g, state, events).1.idle(),
{
}

/// Whether `text` ends with `tail`.
pub open spec fn ends_with(text: Seq<char>, tail: Seq<char>) -> bool {
    text.len() >= tail.len() && text.subrange(text.len() - tail.len(), text.len() as int) == tail
}

/// Cancellation while the reply is awaited or read keeps what has been
/// gathered and marks it: the text handed to the store is the reply so far
/// followed by the marker, and once the store has kept it the generation ends
/// in success with that same text.
pub proof fn lemma_cancelled_reply_is_marked(g: GenerationView)
    requires
        g.stage == Stage::Dispatching || g.stage == Stage::Streaming,
    ensures
        ({
            let marked = g.response + CANCELLED_MARKER@;
            let (closing, save) = next(g, Event::Cancelled);
            let (ended, finish) = next(closing, Event::Saved(Ok(())));
            &&& save == ActionView::Save {
                session_id: g.session_id,
                role: Role::Assistant,
                content: marked,
            }
            &&& finish == ActionView::Finish(Ok(marked))
            &&& ends_with(marked, CANCELLED_MARKER@)
            &&& g.response.len() == 0 ==> marked == CANCELLED_MARKER@
        }),
{
    let marked = g.response + CANCELLED_MARKER@;
    assert(marked.subrange(marked.len() - CANCELLED_MARKER@.len(), marked.len() as int)
        =~= CANCELLED_MARKER@);
    assert(g.response.len() == 0 ==> marked =~= CANCELLED_MARKER@);
}

/// A generation only moves forward: no step takes it back to an earlier
/// stage, and a step that asks the store for something takes it to a later one.
pub proof fn lemma_stages_only_advance(g: GenerationView, event: Event)
    ensures
        stages_ahead(next(g, event).0.stage) <= stages_ahead(g.stage),
        next(g, event).1.asks_store() ==> stages_ahead(next(g, event).0.stage)
            < stages_ahead(g.stage),
{
}

/// Storing the reply is the last thing a generation does: whatever the store
/// answers, and whatever else is reported in its place, the generation ends
/// there and the shared state is left idle.
pub proof fn lemma_finalizing_ends(g: GenerationView, state: GenerationStateView, event: Event)
    requires
        g.stage.phase_of() == Phase::Finalizing,
    ensures
        step_of(g, state, event).0.stage.phase_of() == Phase::Idle,
        step_of(g, state, event).2 is Finish,
        step_of(g, state, event).1.idle(),
{
}

/// The reply is gathered only once the request has been sent, and stored only
/// after that: a step leads into [`Phase::Streaming`] from [`Phase::Starting`]
/// alone, and into [`Phase::Finalizing`] from one of those two.
pub proof fn lemma_phases_in_order(g: GenerationView, event: Event)
    requires
        next(g, event).0.stage.phase_of() != g.stage.phase_of(),
    ensures
        next(g, event).0.stage.phase_of() == Phase::Streaming ==> g.stage.phase_of()
            == Phase::Starting,
        next(g, event).0.stage.phase_of() == Phase::Finalizing ==> g.stage.phase_of()
            == Phase::Starting || g.stage.phase_of() == Phase::Streaming,
        next(g, event).0.stage.phase_of() != Phase::Starting,
{
}

/// What a generation does is its own: the stages it passes through and the
/// actions it answers with are the same whatever the shared state holds, so
/// a command that changes the shared state between two steps changes neither.
pub proof fn lemma_run_ignores_state(
    g: GenerationView,
    state: GenerationStateView,
    other: GenerationStateView,
    events: Seq<Event>,
)
    ensures
        run(g, state, events).0 == run(g, other, events).0,
        run(g, state, events).2 == run(g, other, events).2,
    decreases events.len(),
{
    if events.len() > 0 {
        lemma_run_ignores_state(g, state, other, events.drop_last());
    }
}

/// Whether no event of a run reports a message as kept that could not be:
/// `first` and `actions` are the actions that `events` answer, in turn.
pub open spec fn truthful_run(first: ActionView, actions: Seq<ActionView>, events: Seq<Event>) -> bool {
    forall|k: int|
        0 <= k < events.len() ==> truthful((seq![first] + actions)[k], #[trigger] events[k])
}

/// A run keeps what [`consistent`] says, and neither stops the generation's
/// running nor changes its cancellation handle before it ends.
proof fn lemma_truthful_run(
    g: GenerationView,
    state: GenerationStateView,
    first: ActionView,
    events: Seq<Event>,
)
    requires
        consistent(g, state, first),
        truthful_run(first, run(g, state, events).2, events),
    ensures
        run(g, state, events).2.len() == events.len(),
        consistent(
            run(g, state, events).0,
            run(g, state, events).1,
            (seq![first] + run(g, state, events).2).last(),
        ),
        run(g, state, events).0.stage != Stage::Done && g.stage != Stage::Done ==> run(
            g,
            state,
            events,
        ).1.is_running == state.is_running && run(g, state, events).1.cancellation_token
            == state.cancellation_token,
        g.stage == Stage::Done ==> run(g, state, events).0.stage == Stage::Done,
    decreases events.len(),
{
    if events.len() == 0 {
        assert(seq![first] + Seq::<ActionView>::empty() =~= seq![first]);
    } else {
        let earlier = events.drop_last();
        let (before, held, answered) = run(g, state, earlier);
        let (after, left, action) = step_of(before, held, events.last());
        let all = seq![first] + answered.push(action);
        assert forall|k: int| 0 <= k < earlier.len() implies truthful(
            (seq![first] + answered)[k],
            #[trigger] earlier[k],
        ) by {
            lemma_run_answers_each(g, state, earlier);
            assert(earlier[k] == events[k]);
            assert((seq![first] + answered)[k] == all[k]);
        }
        lemma_truthful_run(g, state, first, earlier);
        let pending = (seq![first] + answered).last();
        assert(all[earlier.len() as int] == pending);
        assert(truthful(pending, events[earlier.len() as int]));
        lemma_consistent_step(before, held, pending, events.last());
        assert(all =~= (seq![first] + answered).push(action));
    }
}

/// A run answers each event with one action.
proof fn lemma_run_answers_each(g: GenerationView, state: GenerationStateView, events: Seq<Event>)
    ensures
        run(g, state, events).2.len() == events.len(),
    decreases events.len(),
{
    if events.len() > 0 {
        lemma_run_answers_each(g, state, events.drop_last());
    }
}

/// While the chat request is out and the reply is read or stored, the shared
/// state shows a generation under way in a valid session: it is running, it
/// holds the handle installed at the start, and it selects the session of the
/// generation, which is a positive identifier. This holds of every run from
/// the start in which no other command touches the state and the store keeps
/// no message under an identifier that names no session.
pub proof fn lemma_dispatch_has_a_session(
    prompt: Seq<char>,
    model: Seq<char>,
    state: GenerationStateView,
    token: CancellationToken,
    events: Seq<Event>,
)
    requires
        ({
            let (g, first) = opening(prompt, model, state.current_session_id);
            truthful_run(first, run(g, state.started(token), events).2, events)
        }),
    ensures
        ({
            let (g, first) = opening(prompt, model, state.current_session_id);
            let (after, left, actions) = run(g, state.started(token), events);
            past_prompt(after.stage) ==> {
                &&& after.session_id > 0
                &&& left.is_running
                &&& left.cancellation_token == Some(token)
                &&& left.current_session_id == Some(after.session_id)
            }
        }),
{
    let (g, first) = opening(prompt, model, state.current_session_id);
    lemma_truthful_run(g, state.started(token), first, events);
}

/// A prompt that was to be stored under an identifier that names no session
/// ends the generation there: once the store has been asked, the action left
/// is the end of the generation with the error of saving the prompt, and the
/// shared state is idle.
pub proof fn lemma_refused_prompt_ends(
    g: GenerationView,
    state: GenerationStateView,
    first: ActionView,
    replies: Seq<Event>,
    after: GenerationView,
    left: GenerationStateView,
    last: ActionView,
)
    requires
        g.stage == Stage::SavingPrompt,
        asks_to_store_nowhere(first),
        settled(g, state, first, replies, after, left, last),
        !last.asks_store(),
    ensures
        last == prompt_refused(),
        left == state.reset(),
        after.stage == Stage::Done,
        replies.len() == 1,
{
    lemma_run_answers_each(g, state, replies);
    let all = seq![first] + run(g, state, replies).2;
    if replies.len() == 0 {
        assert(all =~= seq![first]);
    } else {
        lemma_run_starts_with_a_step(g, state, replies);
        assert(all[0] == first);
        assert(answers(replies[0], all[0]));
        assert(step_of(g, state, replies[0]).2 == prompt_refused());
        if replies.len() > 1 {
            assert(all[1] == run(g, state, replies).2[0]);
            assert(answers(replies[1], all[1]));
        }
        assert(replies.drop_last() =~= Seq::<Event>::empty());
        assert(replies.last() == replies[0]);
        assert(run(g, state, replies.drop_last()) == (g, state, Seq::<ActionView>::empty()));
        assert(run(g, state, replies).1 == step_of(g, state, replies[0]).1);
        assert(run(g, state, replies).2 =~= seq![prompt_refused()]);
        assert(all =~= seq![first, prompt_refused()]);
    }
}

/// The first action of a run is the answer to its first event.
proof fn lemma_run_starts_with_a_step(
    g: GenerationView,
    state: GenerationStateView,
    events: Seq<Event>,
)
    requires
        events.len() > 0,
    ensures
        run(g, state, events).2.len() == events.len(),
        run(g, state, events).2[0] == step_of(g, state, events[0]).2,
    decreases events.len(),
{
    lemma_run_answers_each(g, state, events);
    let earlier = events.drop_last();
    if events.len() > 1 {
        lemma_run_starts_with_a_step(g, state, earlier);
        assert(earlier[0] == events[0]);
        let action = step_of(run(g, state, earlier).0, run(g, state, earlier).1, events.last()).2;
        assert(run(g, state, events).2 == run(g, state, earlier).2.push(action));
    } else {
        assert(earlier =~= Seq::<Event>::empty());
        assert(events.last() == events[0]);
    }
}

/// A session that the directory holds under the title is the one used: the
/// prompt is stored under it and the state selects it, and no session is
/// created. One is created only where the directory holds none, under the
/// title that was looked up.
pub proof fn lemma_found_session_is_used(g: GenerationView, state: GenerationStateView, id: i64)
    requires
        g.stage == Stage::FindingSession,
    ensures
        step_of(g, state, Event::Found(Ok(Some(id)))).2 == (ActionView::Save {
            session_id: id,
            role: Role::User,
            content: g.prompt,
        }),
        step_of(g, state, Event::Found(Ok(Some(id)))).0.session_id == id,
        step_of(g, state, Event::Found(Ok(Some(id)))).1 == state.selecting(Some(id)),
        step_of(g, state, Event::Found(Ok(None))).2 == (ActionView::CreateSession {
            title: g.title,
        }),
        step_of(g, state, Event::Found(Ok(None))).1 == state,
{
}

} // verus!
