//! `POST /api/ask_stream`: a question, the agent's answer as it arrives, and
//! the turns that are kept of both.
//!
//! Before the stream opens, each step takes the reply of the store to the step
//! before it. The user's turn is stored first, so that a crash never loses the
//! prompt. Then `Relay` turns what the agent sends into events for the browser
//! and, however the stream ends, into the assistant's turn.
use crate::conversations::{
    append_assistant_message, append_user_message, as_column, follows_user_message, list_messages,
    load_conversation, load_conversation_statement, loaded, CitationRecord, Conversation,
    ConversationStatement, JsonField, Message, MessageStatement, NewMessage,
};
use crate::double::Double;
use crate::error::{AppError, AppErrorView, DbError};
use crate::grpc::{AskRequest, ChatTurn};
use crate::ident::{hyphenated_form, simple_form, Uuid};
use crate::json::{encode, json_string};
use crate::routes::chat::{
    citation_in, citations_in, citations_of, flatten, flattened, shows_message, AskFinalView,
    AskStreamForm, BudgetSnapshotView, Citation, CitationView, FinalAnswer, MessageView,
};
use crate::routes::library::{
    ids_of, keys_of, list_complete_minio_keys, list_minio_keys_for_ids, ActiveDocument,
    DocumentStatement,
};
use crate::routes::{
    app_failure, connected, failed, failure, http_error, login_required, HttpError, BAD_REQUEST,
    INTERNAL_SERVER_ERROR, UNAUTHORIZED,
};
use crate::text::{is_blank, texts, trimmed};
use vstd::prelude::*;

verus! {

// ---------------------------------------------------------------------------
// Before the stream opens
// ---------------------------------------------------------------------------
/// A question whose sender is known and which is not blank: its conversation
/// is loaded next.
#[derive(Debug, Clone, PartialEq, Eq)]
pub struct AskBegun {
    pub user_id: Uuid,
    pub conversation_id: Uuid,
    pub prompt: String,
}

/// A question in a conversation of its sender: the documents that it may draw
/// on are looked up next.
#[derive(Debug, Clone, PartialEq, Eq)]
pub struct AskLoaded {
    pub user_id: Uuid,
    pub conversation_id: Uuid,
    pub conversation: Conversation,
    pub prompt: String,
}

/// A question whose documents are known: the turns before it are loaded next.
#[derive(Debug, Clone, PartialEq, Eq)]
pub struct AskGrounded {
    pub user_id: Uuid,
    pub conversation_id: Uuid,
    pub conversation: Conversation,
    pub prompt: String,
    pub active_documents: Vec<ActiveDocument>,
}

/// A question with its history: the user's turn is stored next.
#[derive(Debug, Clone, PartialEq, Eq)]
pub struct AskReady {
    pub user_id: Uuid,
    pub conversation_id: Uuid,
    pub conversation: Conversation,
    pub prompt: String,
    pub active_documents: Vec<ActiveDocument>,
    pub history: Vec<ChatTurn>,
}

/// A question begins with the session's user and a prompt that holds more than
/// white space: status 401 without the one, 400 without the other.
pub fn ask_stream_handler(user: Option<Uuid>, form: AskStreamForm) -> (r: Result<
    AskBegun,
    HttpError,
>)
    ensures
        user is None ==> (r matches Err(e) && e.is(UNAUTHORIZED, "login required"@)),
        user matches Some(u) ==> if trimmed(form.prompt@).len() == 0 {
            r matches Err(e) && e.is(BAD_REQUEST, "empty prompt"@)
        } else {
            r == Ok::<AskBegun, HttpError>(
                AskBegun {
                    user_id: u,
                    conversation_id: form.conversation_id,
                    prompt: form.prompt,
                },
            )
        },
{
    match login_required(user) {
        Ok(user_id) => if is_blank(form.prompt.as_str()) {
            Err(http_error(BAD_REQUEST, "empty prompt"))
        } else {
            Ok(AskBegun { user_id, conversation_id: form.conversation_id, prompt: form.prompt })
        },
        Err(e) => Err(e),
    }
}

impl AskBegun {
    /// The query for the conversation, once there is a connection: status 500
    /// without one.
    pub fn load(&self, conn: Result<(), String>) -> (r: Result<ConversationStatement, HttpError>)
        ensures
            conn is Ok ==> r == Ok::<ConversationStatement, HttpError>(
                ConversationStatement::LoadOwned {
                    id: self.conversation_id,
                    user_id: self.user_id,
                },
            ),
            conn matches Err(t) ==> (r matches Err(e) && e.is(
                INTERNAL_SERVER_ERROR,
                failed("db conn"@, t@),
            )),
    {
        match connected(conn) {
            Ok(_) => Ok(load_conversation_statement(self.user_id, self.conversation_id)),
            Err(e) => Err(e),
        }
    }

    /// The conversation has been loaded: status 400 if it is not there or
    /// belongs to someone else, 500 if it could not be read.
    pub fn loaded(self, reply: Result<Conversation, DbError>) -> (r: Result<AskLoaded, HttpError>)
        ensures
            loaded(reply) matches Ok(c) ==> r == Ok::<AskLoaded, HttpError>(
                AskLoaded {
                    user_id: self.user_id,
                    conversation_id: self.conversation_id,
                    conversation: c,
                    prompt: self.prompt,
                },
            ),
            loaded(reply) matches Err(e) ==> (r matches Err(h) && h.is(
                if e is Db {
                    INTERNAL_SERVER_ERROR
                } else {
                    BAD_REQUEST
                },
                failed("load conversation"@, e.message()),
            )),
    {
        match load_conversation(reply) {
            Ok(conversation) => Ok(
                AskLoaded {
                    user_id: self.user_id,
                    conversation_id: self.conversation_id,
                    conversation,
                    prompt: self.prompt,
                },
            ),
            Err(e) => {
                let text = app_failure("load conversation", &e);
                let status = match e {
                    AppError::Db(_) => INTERNAL_SERVER_ERROR,
                    _ => BAD_REQUEST,
                };
                Err(HttpError { status, text })
            },
        }
    }
}

/// What is to be asked of the library for a question: every complete document
/// if the conversation has no chosen set, those of the set otherwise, and
/// nothing at all if the set is empty.
pub open spec fn documents_query(chosen: Option<Seq<Option<Uuid>>>) -> Option<
    Option<Seq<Uuid>>,
> {
    match chosen {
        None => Some(None),
        Some(column) => if flattened(column).len() == 0 {
            None
        } else {
            Some(Some(flattened(column)))
        },
    }
}

/// The statement asks for the complete documents of a user, within a set if
/// there is one.
pub open spec fn asks_for(s: DocumentStatement, user: Uuid, within: Option<Seq<Uuid>>) -> bool {
    match within {
        None => s == (DocumentStatement::CompleteOf { user_id: user }),
        Some(set) => s matches DocumentStatement::CompleteAmong { user_id, ids } && user_id
            == user && ids@ == set,
    }
}

impl AskLoaded {
    /// The query for the documents that the agent may draw on; `None` if the
    /// user pinned nothing, so that there are none.
    pub fn documents(&self) -> (r: Option<DocumentStatement>)
        ensures
            documents_query(self.conversation@.pinned) matches Some(within) ==> (
            r matches Some(s) && asks_for(s, self.user_id, within)),
            documents_query(self.conversation@.pinned) is None ==> r is None,
    {
        match &self.conversation.pinned_document_ids {
            None => Some(list_complete_minio_keys(self.user_id)),
            Some(column) => {
                let pinned = flatten(column);
                if pinned.len() == 0 {
                    None
                } else {
                    Some(list_minio_keys_for_ids(self.user_id, pinned))
                }
            },
        }
    }

    /// It is the same question in the same conversation.
    pub open spec fn grounded_on(self, g: AskGrounded) -> bool {
        &&& g.user_id == self.user_id
        &&& g.conversation_id == self.conversation_id
        &&& g.conversation == self.conversation
        &&& g.prompt == self.prompt
    }

    /// The documents that the query returned; where there was no query, the
    /// reply is not looked at. Status 500 if it failed.
    pub fn with_documents(self, reply: Result<Vec<ActiveDocument>, DbError>) -> (r: Result<
        AskGrounded,
        HttpError,
    >)
        ensures
            documents_query(self.conversation@.pinned) is None ==> (r matches Ok(g)
                && self.grounded_on(g) && g.active_documents@.len() == 0),
            documents_query(self.conversation@.pinned) matches Some(within)
                ==> match reply {
                Ok(docs) => r matches Ok(g) && self.grounded_on(g) && g.active_documents == docs,
                Err(e) => r matches Err(h) && h.is(
                    INTERNAL_SERVER_ERROR,
                    failed(
                        if within is None {
                            "active docs"@
                        } else {
                            "pinned docs"@
                        },
                        AppErrorView::Db(e.text@).message(),
                    ),
                ),
            },
    {
        let what = match &self.conversation.pinned_document_ids {
            None => "active docs",
            Some(column) => {
                let pinned = flatten(column);
                if pinned.len() == 0 {
                    return Ok(
                        AskGrounded {
                            user_id: self.user_id,
                            conversation_id: self.conversation_id,
                            conversation: self.conversation,
                            prompt: self.prompt,
                            active_documents: Vec::new(),
                        },
                    );
                }
                "pinned docs"
            },
        };
        match reply {
            Ok(docs) => Ok(
                AskGrounded {
                    user_id: self.user_id,
                    conversation_id: self.conversation_id,
                    conversation: self.conversation,
                    prompt: self.prompt,
                    active_documents: docs,
                },
            ),
            Err(e) => Err(
                HttpError {
                    status: INTERNAL_SERVER_ERROR,
                    text: app_failure(what, &AppError::from(e)),
                },
            ),
        }
    }
}

/// The turn as the agent is told it.
pub open spec fn tells(t: ChatTurn, m: Message) -> bool {
    t.role == m.role && t.content == m.content
}

/// The turns as the agent is told them, in order.
pub open spec fn told(history: Seq<ChatTurn>, rows: Seq<Message>) -> bool {
    history.len() == rows.len() && forall|i: int|
        0 <= i < rows.len() ==> tells(#[trigger] history[i], rows[i])
}

impl AskGrounded {
    /// The query for the turns of the conversation so far.
    pub fn history(&self) -> (r: MessageStatement)
        ensures
            r == (MessageStatement::ListOf { conversation_id: self.conversation_id }),
    {
        list_messages(self.conversation_id)
    }

    /// The turns so far, which the agent is told in full: it keeps none. Status
    /// 500 if they could not be read.
    pub fn with_history(self, reply: Result<Vec<Message>, DbError>) -> (r: Result<
        AskReady,
        HttpError,
    >)
        ensures
            reply matches Ok(rows) ==> (r matches Ok(a) && a.user_id == self.user_id
                && a.conversation_id == self.conversation_id && a.conversation == self.conversation
                && a.prompt == self.prompt
                && a.active_documents == self.active_documents && told(
                a.history@,
                rows@,
            )),
            reply matches Err(e) ==> (r matches Err(h) && h.is(
                INTERNAL_SERVER_ERROR,
                failed("history"@, AppErrorView::Db(e.text@).message()),
            )),
    {
        let rows = match reply {
            Ok(rows) => rows,
            Err(e) => {
                return Err(
                    HttpError {
                        status: INTERNAL_SERVER_ERROR,
                        text: app_failure("history", &AppError::from(e)),
                    },
                );
            },
        };
        let mut history: Vec<ChatTurn> = Vec::new();
        let mut i: usize = 0;
        while i < rows.len()
            invariant
                i <= rows@.len(),
                history@.len() == i,
                forall|j: int| 0 <= j < i ==> tells(#[trigger] history@[j], rows@[j]),
            decreases rows@.len() - i,
        {
            history.push(
                ChatTurn { role: rows[i].role.clone(), content: rows[i].content.clone() },
            );
            i = i + 1;
        }
        Ok(
            AskReady {
                user_id: self.user_id,
                conversation_id: self.conversation_id,
                conversation: self.conversation,
                prompt: self.prompt,
                active_documents: self.active_documents,
                history,
            },
        )
    }
}

fn active_ids(docs: &Vec<ActiveDocument>) -> (r: Vec<Uuid>)
    ensures
        r@ == ids_of(docs@),
{
    let mut out: Vec<Uuid> = Vec::new();
    let mut i: usize = 0;
    while i < docs.len()
        invariant
            i <= docs@.len(),
            out@.len() == i,
            forall|j: int| 0 <= j < i ==> #[trigger] out@[j] == docs@[j].id,
        decreases docs@.len() - i,
    {
        out.push(docs[i].id);
        i = i + 1;
    }
    assert(out@ =~= ids_of(docs@));
    out
}

fn active_keys(docs: &Vec<ActiveDocument>) -> (r: Vec<String>)
    ensures
        texts(r@) == keys_of(docs@),
{
    let mut out: Vec<String> = Vec::new();
    let mut i: usize = 0;
    while i < docs.len()
        invariant
            i <= docs@.len(),
            out@.len() == i,
            forall|j: int| 0 <= j < i ==> (#[trigger] out@[j])@ == docs@[j].minio_object_key@,
        decreases docs@.len() - i,
    {
        out.push(docs[i].minio_object_key.clone());
        i = i + 1;
    }
    assert(texts(out@) =~= keys_of(docs@));
    out
}

impl AskReady {
    /// The user's turn: the row to insert, and the statement for the
    /// conversation that follows it. It attaches the documents that are active
    /// for the turn.
    pub fn user_turn(&self) -> (r: (NewMessage, ConversationStatement))
        ensures
            r.0.conversation_id == self.conversation.id,
            r.0.role@ == "user"@,
            r.0.content@ == self.prompt@,
            r.0.attached_document_ids@ == as_column(ids_of(self.active_documents@)),
            r.0.citations@.len() == 0,
            r.0.confidence is None,
            follows_user_message(r.1, self.conversation@, self.prompt@),
    {
        let ids = active_ids(&self.active_documents);
        append_user_message(&self.conversation, self.prompt.as_str(), ids.as_slice())
    }

    /// The request puts the question to the agent, traced by the user's turn.
    pub open spec fn asks(self, request: AskRequest, turn: Uuid) -> bool {
        &&& request.user_id@ == simple_form(self.user_id.value)
        &&& request.query == self.prompt
        &&& request.history == self.history
        &&& texts(request.active_document_keys@) == keys_of(self.active_documents@)
        &&& request.history_document_keys@.len() == 0
        &&& request.trace_id@ == hyphenated_form(turn.value)
        &&& request.strategy@.len() == 0
        &&& request.limit == 0
    }

    /// The user's turn has been stored: the stream opens with the request.
    /// Status 500 if it could not be stored.
    pub fn persisted(self, reply: Result<Message, DbError>) -> (r: Result<AskRequest, HttpError>)
        ensures
            reply matches Ok(turn) ==> (r matches Ok(request) && self.asks(request, turn.id)),
            reply matches Err(e) ==> (r matches Err(h) && h.is(
                INTERNAL_SERVER_ERROR,
                failed("persist user"@, AppErrorView::Db(e.text@).message()),
            )),
    {
        match reply {
            Ok(turn) => Ok(
                AskRequest {
                    user_id: self.user_id.simple(),
                    query: self.prompt,
                    history: self.history,
                    active_document_keys: active_keys(&self.active_documents),
                    history_document_keys: Vec::new(),
                    trace_id: turn.id.hyphenated(),
                    strategy: String::new(),
                    limit: 0,
                },
            ),
            Err(e) => Err(
                HttpError {
                    status: INTERNAL_SERVER_ERROR,
                    text: app_failure("persist user", &AppError::from(e)),
                },
            ),
        }
    }
}

// ---------------------------------------------------------------------------
// The stream
// ---------------------------------------------------------------------------
/// What an event of the agent carries.
#[derive(Debug, Clone, PartialEq, Eq)]
pub enum AskPayload {
    PartialAnswer { text_delta: String },
    Final(AskFinalView),
    BudgetSnapshot(BudgetSnapshotView),
    Error { code: String, message: String },
    IndexingWait,
    ToolCall,
}

/// One item of the agent's stream.
#[derive(Debug, Clone, PartialEq, Eq)]
pub enum AskItem {
    /// An event, which may carry nothing.
    Event(Option<AskPayload>),
    /// The transport failed.
    Broken(String),
}

/// An event for the browser.
#[derive(Debug, Clone, PartialEq, Eq)]
pub enum RelayEvent {
    /// A piece of the answer, as a JSON string.
    Delta(String),
    Final(AskFinalView),
    Budget(BudgetSnapshotView),
    Error(String),
}

/// What follows an item of the agent's stream.
#[derive(Debug, Clone, PartialEq, Eq)]
pub enum RelayStep {
    /// Nothing is sent.
    Skip,
    Send(RelayEvent),
    /// The event is the last one: the stream is read no further.
    SendLast(RelayEvent),
}

impl RelayEvent {
    /// The event's kind, as the stream names it.
    pub open spec fn kind_name(self) -> Seq<char> {
        match self {
            RelayEvent::Delta(_) => "delta"@,
            RelayEvent::Final(_) => "final"@,
            RelayEvent::Budget(_) => "budget"@,
            RelayEvent::Error(_) => "error"@,
        }
    }

    /// The event's kind, as the stream names it.
    pub fn kind(&self) -> (r: &'static str)
        ensures
            r@ == self.kind_name(),
    {
        match self {
            RelayEvent::Delta(_) => "delta",
            RelayEvent::Final(_) => "final",
            RelayEvent::Budget(_) => "budget",
            RelayEvent::Error(_) => "error",
        }
    }
}

impl RelayStep {
    /// Whether the agent's stream is read further, given whether the browser
    /// took the event: a browser that has gone ends the relay, not the record.
    pub fn goes_on(&self, delivered: bool) -> (r: bool)
        ensures
            r == (match *self {
                RelayStep::Skip => true,
                RelayStep::Send(_) => delivered,
                RelayStep::SendLast(_) => false,
            }),
    {
        match self {
            RelayStep::Skip => true,
            RelayStep::Send(_) => delivered,
            RelayStep::SendLast(_) => false,
        }
    }
}

/// The event for a stream that could not be opened. No turn is recorded.
pub fn connect_failed(reason: &str) -> (r: RelayEvent)
    ensures
        r matches RelayEvent::Error(t) && t@ == failed("grpc connect"@, reason@),
{
    RelayEvent::Error(failure("grpc connect", reason))
}

/// What has been received of an answer.
#[derive(Debug, Clone, PartialEq, Eq)]
pub struct Relay {
    answer: String,
    final_view: Option<AskFinalView>,
    error_emitted: bool,
}

/// What has been received of an answer, as a value.
pub struct Received {
    pub answer: Seq<char>,
    pub last_final: Option<FinalAnswer>,
    pub error_emitted: bool,
}

impl View for Relay {
    type V = Received;

    closed spec fn view(&self) -> Received {
        Received {
            answer: self.answer@,
            last_final: match self.final_view {
                Some(f) => Some(f@),
                None => None,
            },
            error_emitted: self.error_emitted,
        }
    }
}

/// Nothing has been received.
pub open spec fn nothing() -> Received {
    Received { answer: Seq::empty(), last_final: None, error_emitted: false }
}

/// What has been received after one more item: pieces add up, a final answer
/// replaces the one before it, an error is remembered, the rest changes
/// nothing.
pub open spec fn with_item(s: Received, item: AskItem) -> Received {
    match item {
        AskItem::Broken(_) => Received { error_emitted: true, ..s },
        AskItem::Event(None) => s,
        AskItem::Event(Some(payload)) => match payload {
            AskPayload::PartialAnswer { text_delta } => Received {
                answer: s.answer + text_delta@,
                ..s
            },
            AskPayload::Final(f) => Received { last_final: Some(f@), ..s },
            AskPayload::BudgetSnapshot(_) => s,
            AskPayload::Error { .. } => Received { error_emitted: true, ..s },
            AskPayload::IndexingWait => s,
            AskPayload::ToolCall => s,
        },
    }
}

/// The step is the one that the item calls for.
pub open spec fn step_for(item: AskItem, step: RelayStep) -> bool {
    match item {
        AskItem::Broken(t) => step matches RelayStep::SendLast(RelayEvent::Error(m)) && m@ == failed(
            "grpc transport"@,
            t@,
        ),
        AskItem::Event(None) => step == RelayStep::Skip,
        AskItem::Event(Some(payload)) => match payload {
            AskPayload::PartialAnswer { text_delta } => step matches RelayStep::Send(
                RelayEvent::Delta(data),
            ) && data@ == json_string(text_delta@),
            AskPayload::Final(f) => step matches RelayStep::Send(RelayEvent::Final(g)) && g@ == f@,
            AskPayload::BudgetSnapshot(b) => step == RelayStep::Send(RelayEvent::Budget(b)),
            AskPayload::Error { code, message } => step matches RelayStep::SendLast(
                RelayEvent::Error(m),
            ) && m@ == failed(code@, message@),
            AskPayload::IndexingWait => step == RelayStep::Skip,
            AskPayload::ToolCall => step == RelayStep::Skip,
        },
    }
}

fn copy_citations(v: &Vec<CitationView>) -> (r: Vec<CitationView>)
    ensures
        citations_of(r@) == citations_of(v@),
{
    let mut out: Vec<CitationView> = Vec::new();
    let mut i: usize = 0;
    while i < v.len()
        invariant
            i <= v@.len(),
            out@.len() == i,
            forall|j: int| 0 <= j < i ==> (#[trigger] out@[j])@ == v@[j]@,
        decreases v@.len() - i,
    {
        out.push(
            CitationView {
                index: v[i].index,
                snippet: v[i].snippet.clone(),
                minio_object_key: v[i].minio_object_key.clone(),
                section_path: v[i].section_path.clone(),
            },
        );
        i = i + 1;
    }
    assert(citations_of(out@) =~= citations_of(v@));
    out
}

fn copy_final(f: &AskFinalView) -> (r: AskFinalView)
    ensures
        r@ == f@,
{
    AskFinalView {
        answer: f.answer.clone(),
        confidence: f.confidence,
        citations: copy_citations(&f.citations),
    }
}

/// A citation as it is stored.
pub fn citation_record(c: &CitationView) -> (r: CitationRecord)
    ensures
        stores(r, c@),
{
    CitationRecord {
        index: JsonField::Unsigned(c.index as u64),
        snippet: JsonField::Text(c.snippet.clone()),
        minio_object_key: JsonField::Text(c.minio_object_key.clone()),
        section_path: JsonField::Text(c.section_path.clone()),
    }
}

/// The element holds the citation, each member under its name.
pub open spec fn stores(r: CitationRecord, c: Citation) -> bool {
    &&& r.index == JsonField::Unsigned(c.index as u64)
    &&& r.snippet matches JsonField::Text(t) && t@ == c.snippet
    &&& r.minio_object_key matches JsonField::Text(t) && t@ == c.minio_object_key
    &&& r.section_path matches JsonField::Text(t) && t@ == c.section_path
}

/// The elements hold the citations, in order.
pub open spec fn stores_all(records: Seq<CitationRecord>, citations: Seq<Citation>) -> bool {
    records.len() == citations.len() && forall|i: int|
        0 <= i < records.len() ==> stores(#[trigger] records[i], citations[i])
}

fn citation_records(v: &Vec<CitationView>) -> (r: Vec<CitationRecord>)
    ensures
        stores_all(r@, citations_of(v@)),
{
    let mut out: Vec<CitationRecord> = Vec::new();
    let mut i: usize = 0;
    while i < v.len()
        invariant
            i <= v@.len(),
            out@.len() == i,
            forall|j: int| 0 <= j < i ==> stores(#[trigger] out@[j], v@[j]@),
        decreases v@.len() - i,
    {
        out.push(citation_record(&v[i]));
        i = i + 1;
    }
    out
}

/// The text of the assistant's turn: the final answer if there is one, else
/// the pieces that arrived, else a word on why there is nothing.
pub open spec fn recorded_text(s: Received) -> Seq<char> {
    match s.last_final {
        Some(f) => f.answer,
        None => if s.answer.len() > 0 {
            s.answer
        } else if s.error_emitted {
            "agent error (see live event)"@
        } else {
            "agent produced no terminal event"@
        },
    }
}

/// The citations of the assistant's turn: those of the final answer.
pub open spec fn recorded_citations(s: Received) -> Seq<Citation> {
    match s.last_final {
        Some(f) => f.citations,
        None => Seq::empty(),
    }
}

/// The confidence of the assistant's turn: that of the final answer.
pub open spec fn recorded_confidence(s: Received) -> Option<Double> {
    match s.last_final {
        Some(f) => Some(f.confidence),
        None => None,
    }
}

impl Relay {
    /// A stream that has just been opened.
    pub fn new() -> (r: Self)
        ensures
            r@ == nothing(),
    {
        let r = Relay { answer: String::new(), final_view: None, error_emitted: false };
        assert(r@.answer =~= Seq::empty());
        r
    }

    /// Takes one item of the agent's stream and says what the browser is sent.
    pub fn on_item(&mut self, item: AskItem) -> (r: RelayStep)
        ensures
            final(self)@ == with_item(old(self)@, item),
            step_for(item, r),
    {
        match item {
            AskItem::Broken(t) => {
                self.error_emitted = true;
                RelayStep::SendLast(RelayEvent::Error(failure("grpc transport", t.as_str())))
            },
            AskItem::Event(None) => RelayStep::Skip,
            AskItem::Event(Some(payload)) => match payload {
                AskPayload::PartialAnswer { text_delta } => {
                    self.answer.append(text_delta.as_str());
                    RelayStep::Send(RelayEvent::Delta(encode(text_delta.as_str())))
                },
                AskPayload::Final(f) => {
                    let event = RelayEvent::Final(copy_final(&f));
                    self.final_view = Some(f);
                    RelayStep::Send(event)
                },
                AskPayload::BudgetSnapshot(b) => RelayStep::Send(RelayEvent::Budget(b)),
                AskPayload::Error { code, message } => {
                    self.error_emitted = true;
                    RelayStep::SendLast(
                        RelayEvent::Error(failure(code.as_str(), message.as_str())),
                    )
                },
                AskPayload::IndexingWait => RelayStep::Skip,
                AskPayload::ToolCall => RelayStep::Skip,
            },
        }
    }

    /// The stream has ended, or is read no further: the assistant's turn, and
    /// the statement for the conversation that follows it.
    pub fn finish(self, conversation_id: Uuid) -> (r: (NewMessage, ConversationStatement))
        ensures
            r.0.conversation_id == conversation_id,
            r.0.role@ == "assistant"@,
            r.0.content@ == recorded_text(self@),
            r.0.attached_document_ids@.len() == 0,
            stores_all(r.0.citations@, recorded_citations(self@)),
            r.0.confidence == recorded_confidence(self@),
            r.1 == (ConversationStatement::Touch { id: conversation_id }),
    {
        match self.final_view {
            Some(f) => {
                let citations = citation_records(&f.citations);
                append_assistant_message(conversation_id, f.answer, citations, Some(f.confidence))
            },
            None => {
                let content = if !self.answer.as_str().is_empty() {
                    self.answer
                } else if self.error_emitted {
                    "agent error (see live event)".to_string()
                } else {
                    "agent produced no terminal event".to_string()
                };
                append_assistant_message(conversation_id, content, Vec::new(), None)
            },
        }
    }
}

// ---------------------------------------------------------------------------
// Laws
// ---------------------------------------------------------------------------
/// What has been received after these items.
pub open spec fn received(items: Seq<AskItem>) -> Received
    decreases items.len(),
{
    if items.len() == 0 {
        nothing()
    } else {
        with_item(received(items.drop_last()), items.last())
    }
}

/// The piece of the answer that an item carries.
pub open spec fn piece(item: AskItem) -> Seq<char> {
    match item {
        AskItem::Event(Some(AskPayload::PartialAnswer { text_delta })) => text_delta@,
        _ => Seq::empty(),
    }
}

/// The pieces of the answer that the items carry, one after the other.
pub open spec fn said(items: Seq<AskItem>) -> Seq<char>
    decreases items.len(),
{
    if items.len() == 0 {
        Seq::empty()
    } else {
        said(items.drop_last()) + piece(items.last())
    }
}

/// Whether the item is a final answer.
pub open spec fn is_final(item: AskItem) -> bool {
    item matches AskItem::Event(Some(AskPayload::Final(_)))
}

/// Whether the stream is read no further after the item.
pub open spec fn ends_the_stream(item: AskItem) -> bool {
    match item {
        AskItem::Broken(_) => true,
        AskItem::Event(Some(AskPayload::Error { .. })) => true,
        _ => false,
    }
}

/// The answer received is the pieces that arrived, in order, nothing lost and
/// nothing added.
pub proof fn pieces_add_up(items: Seq<AskItem>)
    ensures
        received(items).answer == said(items),
    decreases items.len(),
{
    if items.len() > 0 {
        pieces_add_up(items.drop_last());
        assert(said(items.drop_last()) + Seq::<char>::empty() =~= said(items.drop_last()));
    }
}

/// Without a final answer among the items there is none.
proof fn lemma_no_final(items: Seq<AskItem>)
    requires
        forall|i: int| 0 <= i < items.len() ==> !is_final(#[trigger] items[i]),
    ensures
        received(items).last_final is None,
    decreases items.len(),
{
    if items.len() > 0 {
        let front = items.drop_last();
        assert forall|i: int| 0 <= i < front.len() implies !is_final(#[trigger] front[i]) by {
            assert(front[i] == items[i]);
        }
        lemma_no_final(front);
        assert(!is_final(items[items.len() - 1]));
    }
}

/// The last final answer prevails over the pieces and over every one before
/// it.
pub proof fn last_final_answer_is_recorded(items: Seq<AskItem>, k: int, f: AskFinalView)
    requires
        0 <= k < items.len(),
        items[k] == AskItem::Event(Some(AskPayload::Final(f))),
        forall|i: int| k < i < items.len() ==> !is_final(#[trigger] items[i]),
    ensures
        received(items).last_final == Some(f@),
        recorded_text(received(items)) == f.answer@,
        recorded_citations(received(items)) == citations_of(f.citations@),
        recorded_confidence(received(items)) == Some(f.confidence),
    decreases items.len(),
{
    let front = items.drop_last();
    if k < items.len() - 1 {
        assert(front[k] == items[k]);
        assert forall|i: int| k < i < front.len() implies !is_final(#[trigger] front[i]) by {
            assert(front[i] == items[i]);
        }
        last_final_answer_is_recorded(front, k, f);
        assert(!is_final(items[items.len() - 1]));
    }
}

/// Wherever the relay stops without a final answer, because the stream ended,
/// failed or was no longer wanted, the pieces that had arrived are recorded;
/// if none had, a word on why. What is recorded is never empty, and carries no
/// citations and no confidence.
pub proof fn what_arrived_is_recorded(items: Seq<AskItem>)
    requires
        forall|i: int| 0 <= i < items.len() ==> !is_final(#[trigger] items[i]),
    ensures
        said(items).len() > 0 ==> recorded_text(received(items)) == said(items),
        recorded_text(received(items)).len() > 0,
        recorded_citations(received(items)).len() == 0,
        recorded_confidence(received(items)) is None,
{
    lemma_no_final(items);
    pieces_add_up(items);
    reveal_strlit("agent error (see live event)");
    reveal_strlit("agent produced no terminal event");
}

/// The relay stops at an error of the agent or of the transport, and at
/// nothing else that the agent sends, as long as the browser listens.
pub proof fn only_errors_end_the_relay(item: AskItem, step: RelayStep)
    requires
        step_for(item, step),
    ensures
        step is SendLast <==> ends_the_stream(item),
{
}

/// A citation that was stored is read back as it was.
pub proof fn stored_citations_read_back(records: Seq<CitationRecord>, citations: Seq<Citation>)
    requires
        stores_all(records, citations),
    ensures
        citations_in(records) == citations,
    decreases records.len(),
{
    if records.len() == 0 {
        assert(citations =~= Seq::empty());
    } else {
        let front = records.drop_last();
        let some = citations.drop_last();
        assert forall|i: int| 0 <= i < front.len() implies stores(
            #[trigger] front[i],
            some[i],
        ) by {
            assert(front[i] == records[i]);
        }
        stored_citations_read_back(front, some);
        let r = records[records.len() - 1];
        let c = citations[citations.len() - 1];
        assert(stores(r, c));
        assert(citation_in(r) == Some(c));
        assert(some.push(c) =~= citations);
    }
}

/// What was received of an answer is what the page shows of the stored turn
/// when it loads the conversation again: text, citations and confidence.
pub proof fn recorded_turn_is_shown_again(
    s: Received,
    n: NewMessage,
    row: Message,
    view: MessageView,
)
    requires
        n.role@ == "assistant"@,
        n.content@ == recorded_text(s),
        stores_all(n.citations@, recorded_citations(s)),
        n.confidence == recorded_confidence(s),
        MessageStatement::Insert(n).creates(row),
        shows_message(view, row),
    ensures
        view.id == row.id,
        view.role@ == "assistant"@,
        view.content@ == recorded_text(s),
        citations_of(view.citations@) == recorded_citations(s),
        view.confidence == recorded_confidence(s),
{
    stored_citations_read_back(n.citations@, recorded_citations(s));
}

/// The user's turn keeps the documents that the agent is given for it, one for
/// one.
pub proof fn turn_keeps_the_documents_of_the_question(
    ready: AskReady,
    n: NewMessage,
    request: AskRequest,
    turn: Uuid,
)
    requires
        n.attached_document_ids@ == as_column(ids_of(ready.active_documents@)),
        ready.asks(request, turn),
    ensures
        n.attached_document_ids@.len() == ready.active_documents@.len(),
        request.active_document_keys@.len() == ready.active_documents@.len(),
        forall|i: int|
            0 <= i < ready.active_documents@.len() ==> n.attached_document_ids@[i] == Some(
                (#[trigger] ready.active_documents@[i]).id,
            ) && request.active_document_keys@[i]@ == ready.active_documents@[i].minio_object_key@,
{
    let docs = ready.active_documents@;
    assert(texts(request.active_document_keys@).len() == docs.len());
    assert forall|i: int| 0 <= i < docs.len() implies request.active_document_keys@[i]@ == (
    #[trigger] docs[i]).minio_object_key@ by {
        assert(texts(request.active_document_keys@)[i] == keys_of(docs)[i]);
    }
}

/// A choice of documents as the conversation's row holds it.
pub open spec fn column_of(chosen: Option<Seq<Uuid>>) -> Option<Seq<Option<Uuid>>> {
    match chosen {
        Some(ids) => Some(as_column(ids)),
        None => None,
    }
}

/// A user who pinned nothing gives the agent no document, one who never chose
/// gives it every complete one, and a choice gives it the complete ones of the
/// choice.
pub proof fn pinning_decides_the_documents(
    chosen: Option<Seq<Uuid>>,
    s: DocumentStatement,
    user_id: Uuid,
    row: crate::routes::library::DocumentRow,
)
    requires
        documents_query(column_of(chosen)) matches Some(within) ==> asks_for(s, user_id, within),
    ensures
        chosen matches Some(ids) ==> (documents_query(column_of(chosen)) is None <==> ids.len()
            == 0),
        chosen is None ==> (s.answers(row) <==> row.user_id == user_id && row.ingest_status
            == "complete"@),
        chosen matches Some(ids) ==> (ids.len() > 0 ==> (s.answers(row) <==> row.user_id == user_id
            && row.ingest_status == "complete"@ && ids.contains(row.id))),
{
    match chosen {
        Some(ids) => {
            crate::routes::chat::column_holds_what_was_put_in(ids);
        },
        None => {},
    }
}

/// Each piece of an answer is sent on at once, whole, as a JSON string, and
/// nothing else is sent as a piece.
pub proof fn pieces_are_sent_whole(item: AskItem, step: RelayStep)
    requires
        step_for(item, step),
    ensures
        item matches AskItem::Event(Some(AskPayload::PartialAnswer { text_delta })) ==> (
        step matches RelayStep::Send(RelayEvent::Delta(data)) && data@ == json_string(text_delta@)),
        step matches RelayStep::Send(RelayEvent::Delta(data)) ==> (
        item matches AskItem::Event(Some(AskPayload::PartialAnswer { text_delta })) && data@
            == json_string(text_delta@)),
        step !is SendLast || !(step->SendLast_0 is Delta),
{
}

/// A final answer is sent on with its text, its confidence and each of its
/// citations, and a budget with its figures, as the agent sent them.
pub proof fn answers_and_budgets_are_sent_whole(item: AskItem, step: RelayStep)
    requires
        step_for(item, step),
    ensures
        item matches AskItem::Event(Some(AskPayload::Final(f))) ==> (step matches RelayStep::Send(
            RelayEvent::Final(g),
        ) && g.answer@ == f.answer@ && g.confidence == f.confidence && g.citations@.len()
            == f.citations@.len() && forall|i: int|
            0 <= i < f.citations@.len() ==> (#[trigger] g.citations@[i])@ == f.citations@[i]@),
        item matches AskItem::Event(Some(AskPayload::BudgetSnapshot(b))) ==> step
            == RelayStep::Send(RelayEvent::Budget(b)),
{
    match (item, step) {
        (
            AskItem::Event(Some(AskPayload::Final(f))),
            RelayStep::Send(RelayEvent::Final(g)),
        ) => {
            assert(citations_of(g.citations@).len() == citations_of(f.citations@).len());
            assert forall|i: int| 0 <= i < f.citations@.len() implies (
            #[trigger] g.citations@[i])@ == f.citations@[i]@ by {
                assert(citations_of(g.citations@)[i] == citations_of(f.citations@)[i]);
            }
        },
        _ => {},
    }
}

/// An error is told in full: the agent's code and message, or the transport's
/// reason. What the agent reports of its own doings is not sent on.
pub proof fn errors_are_told_in_full(item: AskItem, step: RelayStep)
    requires
        step_for(item, step),
    ensures
        item matches AskItem::Event(Some(AskPayload::Error { code, message })) ==> (
        step matches RelayStep::SendLast(RelayEvent::Error(t)) && t@ == code@ + ": "@ + message@),
        item matches AskItem::Broken(reason) ==> (step matches RelayStep::SendLast(
            RelayEvent::Error(t),
        ) && t@ == "grpc transport: "@ + reason@),
        step is Skip <==> (match item {
            AskItem::Event(None) => true,
            AskItem::Event(Some(AskPayload::IndexingWait)) => true,
            AskItem::Event(Some(AskPayload::ToolCall)) => true,
            _ => false,
        }),
{
    reveal_strlit("grpc transport");
    reveal_strlit(": ");
    reveal_strlit("grpc transport: ");
    match (item, step) {
        (AskItem::Broken(reason), RelayStep::SendLast(RelayEvent::Error(t))) => {
            assert(t@ =~= "grpc transport: "@ + reason@);
        },
        _ => {},
    }
}

/// The browser knows an event by its kind: each kind of event has a name of its
/// own, which can stand in the stream as it is.
pub proof fn kinds_are_told_apart(a: RelayEvent)
    ensures
        a is Delta <==> a.kind_name() == "delta"@,
        a is Final <==> a.kind_name() == "final"@,
        a is Budget <==> a.kind_name() == "budget"@,
        a is Error <==> a.kind_name() == "error"@,
        crate::sse::is_plain_kind(a.kind_name()),
{
    reveal_strlit("delta");
    reveal_strlit("final");
    reveal_strlit("budget");
    reveal_strlit("error");
    assert("delta"@[0] == 'd' && "final"@[0] == 'f' && "budget"@[0] == 'b' && "error"@[0] == 'e');
}

/// An item that is no piece, no final answer and no error leaves what has been
/// received as it was; a piece joins the answer at its end and touches neither
/// the final answer nor the memory of an error, and those leave the pieces.
pub proof fn items_change_what_they_carry(s: Received, item: AskItem)
    ensures
        with_item(s, item).answer == (match item {
            AskItem::Event(Some(AskPayload::PartialAnswer { text_delta })) => s.answer
                + text_delta@,
            _ => s.answer,
        }),
        with_item(s, item).last_final == (match item {
            AskItem::Event(Some(AskPayload::Final(f))) => Some(f@),
            _ => s.last_final,
        }),
        with_item(s, item).error_emitted <==> s.error_emitted || ends_the_stream(item),
{
}

/// A stream of which nothing has arrived has no text, no answer and no error,
/// and the record says so; one that failed at once is recorded as failed.
pub proof fn silence_and_failure_are_told_apart(item: AskItem)
    requires
        ends_the_stream(item),
    ensures
        recorded_text(received(Seq::empty())) == "agent produced no terminal event"@,
        recorded_text(received(seq![item])) == "agent error (see live event)"@,
        recorded_text(received(Seq::empty())) != recorded_text(received(seq![item])),
{
    reveal_strlit("agent error (see live event)");
    reveal_strlit("agent produced no terminal event");
    assert("agent error (see live event)"@.len() == 28);
    assert("agent produced no terminal event"@.len() == 32);
    assert(received(Seq::empty()) == nothing());
    assert(seq![item].drop_last() =~= Seq::empty());
}

/// The agent is told every turn so far, in order, each by the one who said it
/// and in the words that were stored.
pub proof fn the_history_is_told_as_it_was(
    ready: AskReady,
    rows: Seq<Message>,
    request: AskRequest,
    turn: Uuid,
)
    requires
        told(ready.history@, rows),
        ready.asks(request, turn),
    ensures
        request.history@.len() == rows.len(),
        forall|i: int|
            0 <= i < rows.len() ==> (#[trigger] request.history@[i]).role@ == rows[i].role@
                && request.history@[i].content@ == rows[i].content@,
{
    assert forall|i: int| 0 <= i < rows.len() implies (#[trigger] request.history@[i]).role@
        == rows[i].role@ && request.history@[i].content@ == rows[i].content@ by {
        assert(tells(ready.history@[i], rows[i]));
    }
}

/// A turn that was stored is told as it was stored: the next question tells the
/// agent what the user asked as the user's words, and what the relay recorded of
/// the answer as the assistant's.
pub proof fn recorded_turns_are_told_again(
    n: NewMessage,
    row: Message,
    t: ChatTurn,
    prompt: Seq<char>,
    s: Received,
)
    requires
        MessageStatement::Insert(n).creates(row),
        tells(t, row),
    ensures
        n.role@ == "user"@ && n.content@ == prompt ==> t.role@ == "user"@ && t.content@ == prompt,
        n.role@ == "assistant"@ && n.content@ == recorded_text(s) ==> t.role@ == "assistant"@
            && t.content@ == recorded_text(s),
        t.role@ == n.role@,
        t.content@ == n.content@,
{
}

/// Two histories that are told alike are alike, turn by turn.
pub proof fn different_histories_are_told_differently(
    history: Seq<ChatTurn>,
    a: Seq<Message>,
    b: Seq<Message>,
)
    requires
        told(history, a),
        told(history, b),
    ensures
        a.len() == b.len(),
        forall|i: int|
            0 <= i < a.len() ==> (#[trigger] a[i]).role@ == b[i].role@ && a[i].content@
                == b[i].content@,
{
    assert forall|i: int| 0 <= i < a.len() implies (#[trigger] a[i]).role@ == b[i].role@
        && a[i].content@ == b[i].content@ by {
        assert(tells(history[i], a[i]));
        assert(tells(history[i], b[i]));
    }
}

/// The request carries the prompt as it was typed, names the user and the turn
/// in forms that can be read back, and sets neither a strategy nor a limit.
pub proof fn the_question_is_put_as_it_was(ready: AskReady, request: AskRequest, turn: Uuid)
    requires
        ready.asks(request, turn),
    ensures
        request.query@ == ready.prompt@,
        crate::ident::parsed(request.user_id@) == Some(ready.user_id.value),
        request.user_id@.len() == 32,
        crate::ident::parsed(request.trace_id@) == Some(turn.value),
        request.trace_id@.len() == 36,
        request.history_document_keys@.len() == 0,
        request.strategy@.len() == 0,
        request.limit == 0,
{
    crate::ident::text_forms_read_back(ready.user_id.value);
    crate::ident::text_forms_read_back(turn.value);
    crate::ident::simple_form_is_hex(ready.user_id.value);
    crate::ident::hyphenated_form_is_hex_and_hyphens(turn.value);
}

/// A question stays the one that was asked while its documents are looked up.
pub proof fn the_question_stays_the_same(loaded: AskLoaded, g: AskGrounded)
    requires
        loaded.grounded_on(g),
    ensures
        g.user_id == loaded.user_id,
        g.conversation_id == loaded.conversation_id,
        g.conversation@ == loaded.conversation@,
        g.prompt@ == loaded.prompt@,
{
}

/// A stored citation has the members of the citation, each under its own name.
pub proof fn citations_are_stored_whole(records: Seq<CitationRecord>, citations: Seq<Citation>)
    requires
        stores_all(records, citations),
    ensures
        records.len() == citations.len(),
        forall|i: int|
            0 <= i < records.len() ==> {
                let r = #[trigger] records[i];
                let c = citations[i];
                &&& r.index matches JsonField::Unsigned(n) && n == c.index
                &&& r.snippet matches JsonField::Text(t) && t@ == c.snippet
                &&& r.minio_object_key matches JsonField::Text(t) && t@ == c.minio_object_key
                &&& r.section_path matches JsonField::Text(t) && t@ == c.section_path
            },
{
    assert forall|i: int| 0 <= i < records.len() implies ({
        let r = #[trigger] records[i];
        let c = citations[i];
        &&& r.index matches JsonField::Unsigned(n) && n == c.index
        &&& r.snippet matches JsonField::Text(t) && t@ == c.snippet
        &&& r.minio_object_key matches JsonField::Text(t) && t@ == c.minio_object_key
        &&& r.section_path matches JsonField::Text(t) && t@ == c.section_path
    }) by {
        assert(stores(records[i], citations[i]));
    }
}

/// The documents of a question are those of the set that was chosen, whatever
/// gaps its column has: none are looked up exactly if a set was chosen that
/// holds none, and a document of the user is looked up exactly if it is complete
/// and the set, where there is one, holds it.
pub proof fn the_chosen_set_decides(
    chosen: Option<Seq<Option<Uuid>>>,
    s: DocumentStatement,
    user_id: Uuid,
    row: crate::routes::library::DocumentRow,
)
    requires
        documents_query(chosen) matches Some(within) ==> asks_for(s, user_id, within),
    ensures
        documents_query(chosen) is None <==> (chosen matches Some(column) && forall|i: int|
            0 <= i < column.len() ==> (#[trigger] column[i]) is None),
        documents_query(chosen) is Some ==> (s.answers(row) <==> row.user_id == user_id
            && row.ingest_status == "complete"@ && (chosen matches Some(column) ==> column.contains(
            Some(row.id),
        ))),
{
    match chosen {
        Some(column) => {
            crate::routes::chat::a_column_holds_its_identifiers(column, row.id);
            let ids = flattened(column);
            if ids.len() > 0 {
                assert(ids.contains(ids[0]));
                crate::routes::chat::a_column_holds_its_identifiers(column, ids[0]);
                let i = choose|i: int| 0 <= i < column.len() && column[i] == Some(ids[0]);
                assert(column[i] is Some);
            } else {
                assert forall|i: int| 0 <= i < column.len() implies (
                #[trigger] column[i]) is None by {
                    match column[i] {
                        Some(id) => {
                            assert(column.contains(Some(id)));
                            crate::routes::chat::a_column_holds_its_identifiers(column, id);
                        },
                        None => {},
                    }
                }
            }
        },
        None => {},
    }
}

/// From the stored turns to the request: the agent is told each of them, in
/// order, by its speaker and in its words, and then the prompt.
pub proof fn the_request_tells_the_stored_turns(
    grounded: AskGrounded,
    rows: Vec<Message>,
    ready: Result<AskReady, HttpError>,
    turn: Message,
    request: Result<AskRequest, HttpError>,
)
    requires
        call_ensures(AskGrounded::with_history, (grounded, Ok(rows)), ready),
        ready matches Ok(a) && call_ensures(AskReady::persisted, (a, Ok(turn)), request),
    ensures
        request matches Ok(q) && {
            &&& q.query@ == grounded.prompt@
            &&& q.trace_id@ == hyphenated_form(turn.id.value)
            &&& q.history@.len() == rows@.len()
            &&& forall|i: int|
                0 <= i < rows@.len() ==> (#[trigger] q.history@[i]).role@ == rows@[i].role@
                    && q.history@[i].content@ == rows@[i].content@
        },
{
    match (ready, request) {
        (Ok(a), Ok(q)) => {
            the_history_is_told_as_it_was(a, rows@, q, turn.id);
        },
        _ => {},
    }
}

/// From the end of a stream to the next question: the turn that the relay
/// records is stored in its conversation, and told the agent as the assistant's
/// words.
pub proof fn the_recorded_answer_is_told_again(
    relay: Relay,
    conversation_id: Uuid,
    recorded: (NewMessage, ConversationStatement),
    row: Message,
    grounded: AskGrounded,
    rows: Vec<Message>,
    i: int,
    ready: Result<AskReady, HttpError>,
)
    requires
        call_ensures(Relay::finish, (relay, conversation_id), recorded),
        MessageStatement::Insert(recorded.0).creates(row),
        0 <= i < rows@.len(),
        rows@[i] == row,
        call_ensures(AskGrounded::with_history, (grounded, Ok(rows)), ready),
    ensures
        row.conversation_id == conversation_id,
        (MessageStatement::ListOf { conversation_id }).answers(row),
        ready matches Ok(a) && a.history@[i].role@ == "assistant"@ && a.history@[i].content@
            == recorded_text(relay@),
{
    match ready {
        Ok(a) => {
            assert(tells(a.history@[i], rows@[i]));
        },
        Err(_) => {},
    }
}

/// From the prompt to the next question: the user's turn is stored in its
/// conversation in the words of the prompt, with the documents that were active,
/// and told the agent as the user's words.
pub proof fn the_prompt_is_told_again(
    asked: AskReady,
    stored: (NewMessage, ConversationStatement),
    row: Message,
    grounded: AskGrounded,
    rows: Vec<Message>,
    i: int,
    ready: Result<AskReady, HttpError>,
)
    requires
        call_ensures(AskReady::user_turn, (&asked,), stored),
        MessageStatement::Insert(stored.0).creates(row),
        0 <= i < rows@.len(),
        rows@[i] == row,
        call_ensures(AskGrounded::with_history, (grounded, Ok(rows)), ready),
    ensures
        row.conversation_id == asked.conversation.id,
        row.attached_document_ids@.len() == asked.active_documents@.len(),
        forall|k: int|
            0 <= k < asked.active_documents@.len() ==> row.attached_document_ids@[k] == Some(
                (#[trigger] asked.active_documents@[k]).id,
            ),
        ready matches Ok(a) && a.history@[i].role@ == "user"@ && a.history@[i].content@
            == asked.prompt@,
{
    match ready {
        Ok(a) => {
            assert(tells(a.history@[i], rows@[i]));
        },
        Err(_) => {},
    }
}

} // verus!
