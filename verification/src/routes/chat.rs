//! `/chat` and `/chat/:id`: conversation list and single conversation view.
use crate::conversations::{
    as_column, load_conversation, loaded, messages_of, pinned_documents_set,
    set_pinned_document_ids, CitationRecord, CitationsColumn, Conversation, ConversationStatement,
    JsonField, Message, MessageStatement,
};
use crate::double::Double;
use crate::error::{AppError, AppErrorView, DbError};
use crate::ident::{hyphenated_form, parsed, Uuid};
use crate::routes::{doing, failed};
use crate::text::{concat2, concat3, decimal, decimal_text, same_text, texts};
use vstd::prelude::*;

verus! {

// ---------------------------------------------------------------------------
// Constants
// ---------------------------------------------------------------------------
/// Form `action` URL for the streaming Ask endpoint, shared by the router and
/// the form.
pub const ASK_STREAM_PATH: &'static str = "/api/ask_stream";

/// Room for events between the agent's stream and the browser's, so that a
/// slow browser holds the stream back.
pub const ASK_STREAM_BUFFER: usize = 64;

// ---------------------------------------------------------------------------
// What the pages are given
// ---------------------------------------------------------------------------
#[derive(Clone, Debug, PartialEq, Eq)]
pub struct ConversationView {
    pub id: Uuid,
    pub title: String,
}

/// Library document as rendered next to the pinning checkboxes.
///
/// `pinned` is the checkbox state for this conversation; `available` means
/// that the user may pick the document: the indexer has reported it complete.
#[derive(Clone, Debug, PartialEq, Eq)]
pub struct DocumentPinningView {
    pub id: Uuid,
    pub filename: String,
    pub ingest_status: String,
    pub available: bool,
    pub pinned: bool,
}

/// What the pinning panel needs.
#[derive(Clone, Debug, PartialEq, Eq)]
pub struct PinningState {
    /// The conversation has no chosen set: every complete document counts.
    pub auto_mode: bool,
    pub documents: Vec<DocumentPinningView>,
}

#[derive(Clone, Debug, PartialEq, Eq)]
pub struct MessageView {
    pub id: Uuid,
    pub role: String,
    pub content: String,
    pub citations: Vec<CitationView>,
    pub confidence: Option<Double>,
}

#[derive(Clone, Debug, PartialEq, Eq)]
pub struct CitationView {
    pub index: u32,
    pub snippet: String,
    pub minio_object_key: String,
    pub section_path: String,
}

/// A citation as a value.
pub struct Citation {
    pub index: u32,
    pub snippet: Seq<char>,
    pub minio_object_key: Seq<char>,
    pub section_path: Seq<char>,
}

impl View for CitationView {
    type V = Citation;

    open spec fn view(&self) -> Citation {
        Citation {
            index: self.index,
            snippet: self.snippet@,
            minio_object_key: self.minio_object_key@,
            section_path: self.section_path@,
        }
    }
}

/// The values of a list of citations.
pub open spec fn citations_of(v: Seq<CitationView>) -> Seq<Citation> {
    v.map_values(|c: CitationView| c@)
}

/// The agent's final answer.
#[derive(Clone, Debug, PartialEq, Eq)]
pub struct AskFinalView {
    pub answer: String,
    pub confidence: Double,
    pub citations: Vec<CitationView>,
}

/// A final answer as a value.
pub struct FinalAnswer {
    pub answer: Seq<char>,
    pub confidence: Double,
    pub citations: Seq<Citation>,
}

impl View for AskFinalView {
    type V = FinalAnswer;

    open spec fn view(&self) -> FinalAnswer {
        FinalAnswer {
            answer: self.answer@,
            confidence: self.confidence,
            citations: citations_of(self.citations@),
        }
    }
}

/// Tokens and cost of an answer so far.
#[derive(Clone, Copy, Debug, PartialEq, Eq)]
pub struct BudgetSnapshotView {
    pub total_tokens: u64,
    pub cached_input_tokens: u64,
    pub cost_usd: Double,
    pub call_count: u64,
}

/// The form of a question.
#[derive(Debug, Clone, PartialEq, Eq)]
pub struct AskStreamForm {
    pub conversation_id: Uuid,
    pub prompt: String,
}

// ---------------------------------------------------------------------------
// Conversations
// ---------------------------------------------------------------------------
/// The view shows the conversation's id and title.
pub open spec fn lists(v: ConversationView, c: Conversation) -> bool {
    v.id == c.id && v.title == c.title
}

/// The conversations that the query for them returned, in order.
pub fn list_conversations_action(reply: Result<Vec<Conversation>, DbError>) -> (r: Result<
    Vec<ConversationView>,
    String,
>)
    ensures
        reply matches Ok(rows) ==> (r matches Ok(views) && views@.len() == rows@.len()
            && forall|i: int| 0 <= i < rows@.len() ==> lists(#[trigger] views@[i], rows@[i])),
        reply matches Err(e) ==> (r matches Err(t) && t@ == failed(
            "list"@,
            AppErrorView::Db(e.text@).message(),
        )),
{
    let rows = match reply {
        Ok(rows) => rows,
        Err(e) => {
            return doing("list", Err(AppError::from(e)));
        },
    };
    let mut out: Vec<ConversationView> = Vec::new();
    let mut i: usize = 0;
    while i < rows.len()
        invariant
            i <= rows@.len(),
            out@.len() == i,
            forall|j: int| 0 <= j < i ==> lists(#[trigger] out@[j], rows@[j]),
        decreases rows@.len() - i,
    {
        out.push(ConversationView { id: rows[i].id, title: rows[i].title.clone() });
        i = i + 1;
    }
    Ok(out)
}

/// The address of a conversation's page.
pub open spec fn conversation_path(id: Uuid) -> Seq<char> {
    "/chat/"@ + hyphenated_form(id.value)
}

/// The address of a conversation's page.
pub fn conversation_href(id: Uuid) -> (r: String)
    ensures
        r@ == conversation_path(id),
{
    let text = id.hyphenated();
    concat2("/chat/", text.as_str())
}

/// Where the browser goes once a conversation has been created: to its page.
pub fn create_conversation_action(reply: Result<Conversation, DbError>) -> (r: Result<
    String,
    String,
>)
    ensures
        reply matches Ok(c) ==> (r matches Ok(l) && l@ == conversation_path(c.id)),
        reply matches Err(e) ==> (r matches Err(t) && t@ == failed(
            "create"@,
            AppErrorView::Db(e.text@).message(),
        )),
{
    match reply {
        Ok(c) => Ok(conversation_href(c.id)),
        Err(e) => doing("create", Err(AppError::from(e))),
    }
}

/// The conversation that a server function works on, or the text of the server
/// error.
pub fn conversation_loaded(reply: Result<Conversation, DbError>) -> (r: Result<
    Conversation,
    String,
>)
    ensures
        loaded(reply) matches Ok(c) ==> r == Ok::<Conversation, String>(c),
        loaded(reply) matches Err(e) ==> (r matches Err(t) && t@ == failed("load"@, e.message())),
{
    doing("load", load_conversation(reply))
}

/// The query for the turns that a conversation's page shows: those of the
/// conversation that was loaded for its user, and none if it could not be.
pub fn messages_query(reply: Result<Conversation, DbError>) -> (r: Result<MessageStatement, String>)
    ensures
        loaded(reply) matches Ok(c) ==> r == Ok::<MessageStatement, String>(
            MessageStatement::ListOf { conversation_id: c.id },
        ),
        loaded(reply) matches Err(e) ==> (r matches Err(t) && t@ == failed("load"@, e.message())),
{
    match conversation_loaded(reply) {
        Ok(c) => Ok(messages_of(&c)),
        Err(t) => Err(t),
    }
}

/// The conversation that an address names: `None` if it spells no identifier.
pub fn conversation_of_path(id: Option<&str>) -> (r: Option<Uuid>)
    ensures
        r == (match id {
            Some(s) => match parsed(s@) {
                Some(v) => Some(Uuid { value: v }),
                None => None,
            },
            None => None::<Uuid>,
        }),
{
    match id {
        Some(s) => Uuid::parse_str(s),
        None => None,
    }
}

/// The conversation that a page's data is loaded for.
pub fn named_conversation(id: Option<Uuid>) -> (r: Result<Uuid, String>)
    ensures
        id matches Some(u) ==> r == Ok::<Uuid, String>(u),
        id is None ==> (r matches Err(t) && t@ == "no conversation id"@),
{
    match id {
        Some(u) => Ok(u),
        None => Err("no conversation id".to_string()),
    }
}

// ---------------------------------------------------------------------------
// Pinning
// ---------------------------------------------------------------------------
/// The identifiers that an array column holds, without its gaps.
pub open spec fn flattened(column: Seq<Option<Uuid>>) -> Seq<Uuid>
    decreases column.len(),
{
    if column.len() == 0 {
        Seq::empty()
    } else {
        let front = flattened(column.drop_last());
        match column.last() {
            Some(id) => front.push(id),
            None => front,
        }
    }
}

/// The identifiers that an array column holds, without its gaps.
pub fn flatten(column: &Vec<Option<Uuid>>) -> (r: Vec<Uuid>)
    ensures
        r@ == flattened(column@),
{
    let mut out: Vec<Uuid> = Vec::new();
    let mut i: usize = 0;
    while i < column.len()
        invariant
            i <= column@.len(),
            out@ == flattened(column@.take(i as int)),
        decreases column@.len() - i,
    {
        assert(column@.take(i + 1).drop_last() =~= column@.take(i as int));
        if let Some(id) = column[i] {
            out.push(id);
        }
        i = i + 1;
    }
    assert(column@.take(column@.len() as int) =~= column@);
    out
}

fn holds(ids: &Vec<Uuid>, id: Uuid) -> (r: bool)
    ensures
        r == ids@.contains(id),
{
    let mut i: usize = 0;
    while i < ids.len()
        invariant
            i <= ids@.len(),
            forall|j: int| 0 <= j < i ==> ids@[j] != id,
        decreases ids@.len() - i,
    {
        if ids[i] == id {
            assert(ids@[i as int] == id);
            return true;
        }
        i = i + 1;
    }
    false
}

/// One library row of the pinning panel.
#[derive(Debug, Clone, PartialEq, Eq)]
pub struct LibraryEntry {
    pub id: Uuid,
    pub filename: String,
    pub ingest_status: String,
}

/// Whether a document is pinned: if no set was chosen, every complete document
/// is; else exactly those of the set are.
pub open spec fn is_pinned(chosen: Option<Seq<Option<Uuid>>>, entry: LibraryEntry) -> bool {
    match chosen {
        None => entry.ingest_status@ == "complete"@,
        Some(column) => flattened(column).contains(entry.id),
    }
}

/// The panel shows the document's state for a conversation.
pub open spec fn shows_pinning(
    v: DocumentPinningView,
    entry: LibraryEntry,
    chosen: Option<Seq<Option<Uuid>>>,
) -> bool {
    &&& v.id == entry.id
    &&& v.filename == entry.filename
    &&& v.ingest_status == entry.ingest_status
    &&& v.available == (entry.ingest_status@ == "complete"@)
    &&& v.pinned == is_pinned(chosen, entry)
}

/// The state of the pinning panel of a conversation, for the reply to the
/// query for the user's library.
pub fn load_pinning_state(
    conversation: &Conversation,
    reply: Result<Vec<LibraryEntry>, DbError>,
) -> (r: Result<PinningState, String>)
    ensures
        reply matches Ok(library) ==> (r matches Ok(state) && state.auto_mode
            == conversation@.pinned is None && state.documents@.len() == library@.len()
            && forall|i: int|
            0 <= i < library@.len() ==> shows_pinning(
                #[trigger] state.documents@[i],
                library@[i],
                conversation@.pinned,
            )),
        reply matches Err(e) ==> (r matches Err(t) && t@ == failed(
            "library"@,
            AppErrorView::Db(e.text@).message(),
        )),
{
    let library = match reply {
        Ok(library) => library,
        Err(e) => {
            return doing("library", Err(AppError::from(e)));
        },
    };
    let ghost chosen = conversation@.pinned;
    let (auto_mode, pinned_set) = match &conversation.pinned_document_ids {
        None => (true, Vec::new()),
        Some(column) => (false, flatten(column)),
    };
    let mut documents: Vec<DocumentPinningView> = Vec::new();
    let mut i: usize = 0;
    while i < library.len()
        invariant
            i <= library@.len(),
            documents@.len() == i,
            auto_mode == chosen is None,
            chosen matches Some(column) ==> pinned_set@ == flattened(column),
            forall|j: int|
                0 <= j < i ==> shows_pinning(#[trigger] documents@[j], library@[j], chosen),
        decreases library@.len() - i,
    {
        let entry = &library[i];
        let available = same_text(entry.ingest_status.as_str(), "complete");
        let pinned = if auto_mode {
            available
        } else {
            holds(&pinned_set, entry.id)
        };
        documents.push(
            DocumentPinningView {
                id: entry.id,
                filename: entry.filename.clone(),
                ingest_status: entry.ingest_status.clone(),
                available,
                pinned,
            },
        );
        i = i + 1;
    }
    Ok(PinningState { auto_mode, documents })
}

/// The identifiers among the texts, in order; what spells none is passed over.
pub open spec fn spelled(s: Seq<Seq<char>>) -> Seq<Uuid>
    decreases s.len(),
{
    if s.len() == 0 {
        Seq::empty()
    } else {
        let front = spelled(s.drop_last());
        match parsed(s.last()) {
            Some(value) => front.push(Uuid { value }),
            None => front,
        }
    }
}

/// The statement gives a user's conversation this set of documents.
pub open spec fn pins(
    s: ConversationStatement,
    user_id: Uuid,
    conversation_id: Uuid,
    ids: Option<Seq<Uuid>>,
) -> bool {
    s matches ConversationStatement::SetPinned { id, user_id: u, pinned } && id == conversation_id
        && u == user_id && match ids {
        Some(v) => pinned matches Some(column) && column@ == as_column(v),
        None => pinned is None,
    }
}

/// Store the documents that were ticked. A value that spells no identifier is
/// passed over; nothing ticked is a set of its own, with nothing in it.
pub fn save_pinning_action(user_id: Uuid, conversation_id: Uuid, pinned_ids: &Vec<String>) -> (r:
    ConversationStatement)
    ensures
        pins(r, user_id, conversation_id, Some(spelled(texts(pinned_ids@)))),
{
    let mut ids: Vec<Uuid> = Vec::new();
    let mut i: usize = 0;
    while i < pinned_ids.len()
        invariant
            i <= pinned_ids@.len(),
            ids@ == spelled(texts(pinned_ids@).take(i as int)),
        decreases pinned_ids@.len() - i,
    {
        proof {
            let next = texts(pinned_ids@).take(i + 1);
            assert(next.drop_last() =~= texts(pinned_ids@).take(i as int));
            assert(next.last() == pinned_ids@[i as int]@);
        }
        if let Some(id) = Uuid::parse_str(pinned_ids[i].as_str()) {
            ids.push(id);
        }
        i = i + 1;
    }
    assert(texts(pinned_ids@).take(pinned_ids@.len() as int) =~= texts(pinned_ids@));
    set_pinned_document_ids(user_id, conversation_id, Some(ids.as_slice()))
}

/// Go back to every complete document.
pub fn clear_pinning_action(user_id: Uuid, conversation_id: Uuid) -> (r: ConversationStatement)
    ensures
        pins(r, user_id, conversation_id, None),
{
    set_pinned_document_ids(user_id, conversation_id, None)
}

/// The outcome of a pinning statement, with what was being done in front of
/// its error: `save` or `clear`.
pub fn pinning_written(what: &str, reply: Result<usize, DbError>) -> (r: Result<(), String>)
    ensures
        reply is Ok ==> r is Ok,
        reply matches Err(e) ==> (r matches Err(t) && t@ == failed(
            what@,
            AppErrorView::Db(e.text@).message(),
        )),
{
    match doing(what, pinned_documents_set(reply)) {
        Ok(_) => Ok(()),
        Err(t) => Err(t),
    }
}

// ---------------------------------------------------------------------------
// Messages
// ---------------------------------------------------------------------------
/// The text of a member, or nothing if it is no text.
pub open spec fn text_or_empty(f: JsonField) -> Seq<char> {
    match f {
        JsonField::Text(s) => s@,
        _ => Seq::empty(),
    }
}

fn member_text(f: &JsonField) -> (r: String)
    ensures
        r@ == text_or_empty(*f),
{
    match f {
        JsonField::Text(s) => s.clone(),
        _ => String::new(),
    }
}

/// The citation that a stored element holds. It needs a number as its index,
/// of which the lower 32 bits count, and a snippet of any type; what is no
/// text is shown empty.
pub open spec fn citation_in(v: CitationRecord) -> Option<Citation> {
    match v.index {
        JsonField::Unsigned(n) => if v.snippet is Absent {
            None
        } else {
            Some(
                Citation {
                    index: (n % 0x1_0000_0000) as u32,
                    snippet: text_or_empty(v.snippet),
                    minio_object_key: text_or_empty(v.minio_object_key),
                    section_path: text_or_empty(v.section_path),
                },
            )
        },
        _ => None,
    }
}

/// A citation's value, where there is one.
pub open spec fn optional_citation(c: Option<CitationView>) -> Option<Citation> {
    match c {
        Some(v) => Some(v@),
        None => None,
    }
}

/// The citation that a stored element holds.
pub fn citation_from_json(v: &CitationRecord) -> (r: Option<CitationView>)
    ensures
        optional_citation(r) == citation_in(*v),
{
    let index: u32 = match v.index {
        JsonField::Unsigned(n) => (n % 0x1_0000_0000) as u32,
        _ => {
            return None;
        },
    };
    if let JsonField::Absent = v.snippet {
        return None;
    }
    Some(
        CitationView {
            index,
            snippet: member_text(&v.snippet),
            minio_object_key: member_text(&v.minio_object_key),
            section_path: member_text(&v.section_path),
        },
    )
}

/// The citations that stored elements hold, in order; an element that holds
/// none is passed over.
pub open spec fn citations_in(records: Seq<CitationRecord>) -> Seq<Citation>
    decreases records.len(),
{
    if records.len() == 0 {
        Seq::empty()
    } else {
        let front = citations_in(records.drop_last());
        match citation_in(records.last()) {
            Some(c) => front.push(c),
            None => front,
        }
    }
}

/// The citations of a column: none if it is no array.
pub open spec fn column_citations(column: CitationsColumn) -> Seq<Citation> {
    match column {
        CitationsColumn::NotAnArray => Seq::empty(),
        CitationsColumn::Items(records) => citations_in(records@),
    }
}

fn read_citations(column: &CitationsColumn) -> (r: Vec<CitationView>)
    ensures
        citations_of(r@) == column_citations(*column),
{
    let mut out: Vec<CitationView> = Vec::new();
    match column {
        CitationsColumn::NotAnArray => {
            assert(citations_of(out@) =~= Seq::<Citation>::empty());
        },
        CitationsColumn::Items(records) => {
            let mut i: usize = 0;
            assert(citations_of(out@) =~= citations_in(records@.take(0)));
            while i < records.len()
                invariant
                    i <= records@.len(),
                    citations_of(out@) == citations_in(records@.take(i as int)),
                decreases records@.len() - i,
            {
                let ghost was = citations_of(out@);
                assert(records@.take(i + 1).drop_last() =~= records@.take(i as int));
                if let Some(c) = citation_from_json(&records[i]) {
                    let ghost value = c@;
                    out.push(c);
                    assert(citations_of(out@) =~= was.push(value));
                }
                i = i + 1;
            }
            assert(records@.take(records@.len() as int) =~= records@);
        },
    }
    out
}

/// The view shows the stored turn.
pub open spec fn shows_message(v: MessageView, m: Message) -> bool {
    &&& v.id == m.id
    &&& v.role == m.role
    &&& v.content == m.content
    &&& citations_of(v.citations@) == column_citations(m.citations)
    &&& v.confidence == m.confidence
}

/// A stored turn as the page shows it.
pub fn persisted_to_view(m: &Message) -> (r: MessageView)
    ensures
        shows_message(r, *m),
{
    MessageView {
        id: m.id,
        role: m.role.clone(),
        content: m.content.clone(),
        citations: read_citations(&m.citations),
        confidence: m.confidence,
    }
}

/// The turns that the query for them returned, in order.
pub fn load_conversation_messages(reply: Result<Vec<Message>, DbError>) -> (r: Result<
    Vec<MessageView>,
    String,
>)
    ensures
        reply matches Ok(rows) ==> (r matches Ok(views) && views@.len() == rows@.len()
            && forall|i: int|
            0 <= i < rows@.len() ==> shows_message(#[trigger] views@[i], rows@[i])),
        reply matches Err(e) ==> (r matches Err(t) && t@ == failed(
            "messages"@,
            AppErrorView::Db(e.text@).message(),
        )),
{
    let rows = match reply {
        Ok(rows) => rows,
        Err(e) => {
            return doing("messages", Err(AppError::from(e)));
        },
    };
    let mut out: Vec<MessageView> = Vec::new();
    let mut i: usize = 0;
    while i < rows.len()
        invariant
            i <= rows@.len(),
            out@.len() == i,
            forall|j: int| 0 <= j < i ==> shows_message(#[trigger] out@[j], rows@[j]),
        decreases rows@.len() - i,
    {
        out.push(persisted_to_view(&rows[i]));
        i = i + 1;
    }
    Ok(out)
}

// ---------------------------------------------------------------------------
// The pages
// ---------------------------------------------------------------------------
/// One line of the conversation list.
#[derive(Debug, Clone, PartialEq, Eq)]
pub struct ConversationLink {
    pub href: String,
    pub title: String,
}

/// What the conversation list shows.
#[derive(Debug, Clone, PartialEq, Eq)]
pub enum ConversationList {
    /// A line of text: there are no conversations.
    Empty(String),
    Links(Vec<ConversationLink>),
    /// A line of text in red.
    Failed(String),
}

/// The line leads to the conversation under its title.
pub open spec fn links_to(l: ConversationLink, c: ConversationView) -> bool {
    l.href@ == conversation_path(c.id) && l.title == c.title
}

/// The list page for the outcome of the list.
#[allow(non_snake_case)]
pub fn ChatPage(conversations: Result<Vec<ConversationView>, String>) -> (r: ConversationList)
    ensures
        conversations matches Ok(convs) ==> if convs@.len() == 0 {
            r matches ConversationList::Empty(t) && t@
                == "No conversations yet. Click the button above."@
        } else {
            r matches ConversationList::Links(links) && links@.len() == convs@.len()
                && forall|i: int|
                0 <= i < convs@.len() ==> links_to(#[trigger] links@[i], convs@[i])
        },
        conversations matches Err(e) ==> (r matches ConversationList::Failed(t) && t@
            == "Error: "@ + e@),
{
    match conversations {
        Ok(convs) => if convs.len() == 0 {
            ConversationList::Empty("No conversations yet. Click the button above.".to_string())
        } else {
            let mut links: Vec<ConversationLink> = Vec::new();
            let mut i: usize = 0;
            while i < convs.len()
                invariant
                    i <= convs@.len(),
                    links@.len() == i,
                    forall|j: int| 0 <= j < i ==> links_to(#[trigger] links@[j], convs@[j]),
                decreases convs@.len() - i,
            {
                links.push(
                    ConversationLink {
                        href: conversation_href(convs[i].id),
                        title: convs[i].title.clone(),
                    },
                );
                i = i + 1;
            }
            ConversationList::Links(links)
        },
        Err(e) => ConversationList::Failed(concat2("Error: ", e.as_str())),
    }
}

/// One checkbox of the pinning panel.
#[derive(Debug, Clone, PartialEq, Eq)]
pub struct PinningRow {
    /// The value that a ticked box sends.
    pub value: String,
    pub filename: String,
    /// Why the box cannot be ticked, empty if it can.
    pub status_note: String,
    pub checked: bool,
    pub disabled: bool,
    pub label_style: String,
}

/// What the pinning panel shows.
#[derive(Debug, Clone, PartialEq, Eq)]
pub enum PinningPanel {
    /// A line of text that sends the user to the library.
    NoDocuments,
    Choice {
        mode: &'static str,
        /// The value that both forms of the panel send.
        conversation_id: String,
        rows: Vec<PinningRow>,
    },
    /// A line of text in red.
    Failed(String),
}

/// The style of a checkbox: one that cannot be ticked is paler.
pub open spec fn checkbox_style(disabled: bool) -> Seq<char> {
    "display: flex; align-items: center; gap: 0.5rem; opacity: "@ + (if disabled {
        "0.5"@
    } else {
        "1"@
    }) + ";"@
}

/// The checkbox shows the document.
pub open spec fn ticks(row: PinningRow, doc: DocumentPinningView) -> bool {
    &&& row.value@ == hyphenated_form(doc.id.value)
    &&& row.filename == doc.filename
    &&& row.status_note@ == (if doc.available {
        Seq::empty()
    } else {
        " ("@ + doc.ingest_status@ + ")"@
    })
    &&& row.checked == doc.pinned
    &&& row.disabled == !doc.available
    &&& row.label_style@ == checkbox_style(!doc.available)
}

fn pinning_row(doc: &DocumentPinningView) -> (r: PinningRow)
    ensures
        ticks(r, *doc),
{
    let disabled = !doc.available;
    let status_note = if doc.available {
        String::new()
    } else {
        concat3(" (", doc.ingest_status.as_str(), ")")
    };
    PinningRow {
        value: doc.id.hyphenated(),
        filename: doc.filename.clone(),
        status_note,
        checked: doc.pinned,
        disabled,
        label_style: concat3(
            "display: flex; align-items: center; gap: 0.5rem; opacity: ",
            if disabled {
                "0.5"
            } else {
                "1"
            },
            ";",
        ),
    }
}

/// The words for the mode of a panel.
pub open spec fn mode_label(auto_mode: bool) -> Seq<char> {
    if auto_mode {
        "auto (every complete doc)"@
    } else {
        "custom subset"@
    }
}

/// The pinning panel of a conversation for the outcome of loading its state.
pub fn render_pinning_panel(conversation_id: Uuid, state: Result<PinningState, String>) -> (r:
    PinningPanel)
    ensures
        state matches Ok(s) ==> if s.documents@.len() == 0 {
            r == PinningPanel::NoDocuments
        } else {
            r matches PinningPanel::Choice { mode, conversation_id: value, rows } && mode@
                == mode_label(s.auto_mode) && value@ == hyphenated_form(conversation_id.value)
                && rows@.len() == s.documents@.len() && forall|i: int|
                0 <= i < s.documents@.len() ==> ticks(#[trigger] rows@[i], s.documents@[i])
        },
        state matches Err(e) ==> (r matches PinningPanel::Failed(t) && t@
            == "Pinning panel error: "@ + e@),
{
    let state = match state {
        Ok(state) => state,
        Err(e) => {
            return PinningPanel::Failed(concat2("Pinning panel error: ", e.as_str()));
        },
    };
    if state.documents.len() == 0 {
        return PinningPanel::NoDocuments;
    }
    let mode = if state.auto_mode {
        "auto (every complete doc)"
    } else {
        "custom subset"
    };
    let mut rows: Vec<PinningRow> = Vec::new();
    let mut i: usize = 0;
    while i < state.documents.len()
        invariant
            i <= state.documents@.len(),
            rows@.len() == i,
            forall|j: int| 0 <= j < i ==> ticks(#[trigger] rows@[j], state.documents@[j]),
        decreases state.documents@.len() - i,
    {
        rows.push(pinning_row(&state.documents[i]));
        i = i + 1;
    }
    PinningPanel::Choice { mode, conversation_id: conversation_id.hyphenated(), rows }
}

/// One citation below a turn.
#[derive(Debug, Clone, PartialEq, Eq)]
pub struct CitationLine {
    /// The citation's number in brackets.
    pub label: String,
    pub section_path: String,
    pub snippet: String,
}

/// The citations below a turn, folded under a line that counts them.
#[derive(Debug, Clone, PartialEq, Eq)]
pub struct CitationDetails {
    pub summary: String,
    pub lines: Vec<CitationLine>,
}

/// A turn as the page shows it.
#[derive(Debug, Clone, PartialEq, Eq)]
pub struct MessageBlock {
    pub style: String,
    pub role: String,
    pub badge: String,
    pub content: String,
    pub citations: Option<CitationDetails>,
}

/// The line shows the citation.
pub open spec fn cites(l: CitationLine, c: CitationView) -> bool {
    &&& l.label@ == "["@ + decimal(c.index as nat) + "]"@
    &&& l.section_path == c.section_path
    &&& l.snippet == c.snippet
}

/// The badge of a turn. Only an assistant's turn with a confidence has one: a
/// confidence of one half or more reads as verified. `shown` is the confidence
/// with two decimals.
pub open spec fn badge_of(role: Seq<char>, confidence: Option<Double>, shown: Seq<char>) -> Seq<
    char,
> {
    if role == "assistant"@ {
        match confidence {
            Some(c) => if c.is_half_or_more() {
                "✓ verified · conf "@ + shown
            } else {
                "low confidence · conf "@ + shown
            },
            None => Seq::empty(),
        }
    } else {
        Seq::empty()
    }
}

fn badge(role: &str, confidence: Option<Double>, shown: &str) -> (r: String)
    ensures
        r@ == badge_of(role@, confidence, shown@),
{
    if same_text(role, "assistant") {
        match confidence {
            Some(c) => if c.half_or_more() {
                concat2("✓ verified · conf ", shown)
            } else {
                concat2("low confidence · conf ", shown)
            },
            None => String::new(),
        }
    } else {
        String::new()
    }
}

/// The style of a turn: a user's turn is blue, every other green.
pub open spec fn turn_style(role: Seq<char>) -> Seq<char> {
    "padding: 0.8rem; margin-bottom: 0.5rem; background: "@ + (if role == "user"@ {
        "#eef"@
    } else {
        "#efe"@
    }) + "; border-radius: 4px;"@
}

/// The details show the citations: none at all where there are none.
pub open spec fn details_show(d: Option<CitationDetails>, citations: Seq<CitationView>) -> bool {
    if citations.len() == 0 {
        d is None
    } else {
        d matches Some(details) && details.summary@ == decimal(citations.len()) + " citation(s)"@
            && details.lines@.len() == citations.len() && forall|i: int|
            0 <= i < citations.len() ==> cites(#[trigger] details.lines@[i], citations[i])
    }
}

fn citation_details(citations: &Vec<CitationView>) -> (r: Option<CitationDetails>)
    ensures
        details_show(r, citations@),
{
    if citations.len() == 0 {
        return None;
    }
    let mut lines: Vec<CitationLine> = Vec::new();
    let mut i: usize = 0;
    while i < citations.len()
        invariant
            i <= citations@.len(),
            lines@.len() == i,
            forall|j: int| 0 <= j < i ==> cites(#[trigger] lines@[j], citations@[j]),
        decreases citations@.len() - i,
    {
        let c = &citations[i];
        let number = decimal_text(c.index as u64);
        lines.push(
            CitationLine {
                label: concat3("[", number.as_str(), "]"),
                section_path: c.section_path.clone(),
                snippet: c.snippet.clone(),
            },
        );
        i = i + 1;
    }
    let count = decimal_text(citations.len() as u64);
    Some(CitationDetails { summary: concat2(count.as_str(), " citation(s)"), lines })
}

/// The block shows the turn. `shown` is its confidence with two decimals.
pub open spec fn turn_shows(b: MessageBlock, msg: MessageView, shown: Seq<char>) -> bool {
    &&& b.style@ == turn_style(msg.role@)
    &&& b.role == msg.role
    &&& b.badge@ == badge_of(msg.role@, msg.confidence, shown)
    &&& b.content == msg.content
    &&& details_show(b.citations, msg.citations@)
}

/// A turn as the page shows it. `shown` is its confidence with two decimals.
pub fn render_message(msg: &MessageView, shown: &str) -> (r: MessageBlock)
    ensures
        turn_shows(r, *msg, shown@),
{
    let role = msg.role.as_str();
    let background = if same_text(role, "user") {
        "#eef"
    } else {
        "#efe"
    };
    MessageBlock {
        style: concat3(
            "padding: 0.8rem; margin-bottom: 0.5rem; background: ",
            background,
            "; border-radius: 4px;",
        ),
        role: msg.role.clone(),
        badge: badge(role, msg.confidence, shown),
        content: msg.content.clone(),
        citations: citation_details(&msg.citations),
    }
}

/// A turn, and its confidence with two decimals (empty where it has none).
#[derive(Debug, Clone, PartialEq, Eq)]
pub struct ShownMessage {
    pub message: MessageView,
    pub confidence: String,
}

/// What a conversation's page shows of its turns.
#[derive(Debug, Clone, PartialEq, Eq)]
pub enum MessageList {
    Turns(Vec<MessageBlock>),
    /// A line of text in red.
    Failed(String),
}

/// The turns of a conversation's page for the outcome of loading them.
#[allow(non_snake_case)]
pub fn ConversationPage(messages: Result<Vec<ShownMessage>, String>) -> (r: MessageList)
    ensures
        messages matches Ok(msgs) ==> (r matches MessageList::Turns(blocks) && blocks@.len()
            == msgs@.len() && forall|i: int|
            0 <= i < msgs@.len() ==> turn_shows(
                #[trigger] blocks@[i],
                msgs@[i].message,
                msgs@[i].confidence@,
            )),
        messages matches Err(e) ==> (r matches MessageList::Failed(t) && t@ == "Error: "@ + e@),
{
    let msgs = match messages {
        Ok(msgs) => msgs,
        Err(e) => {
            return MessageList::Failed(concat2("Error: ", e.as_str()));
        },
    };
    let mut blocks: Vec<MessageBlock> = Vec::new();
    let mut i: usize = 0;
    while i < msgs.len()
        invariant
            i <= msgs@.len(),
            blocks@.len() == i,
            forall|j: int|
                0 <= j < i ==> turn_shows(
                    #[trigger] blocks@[j],
                    msgs@[j].message,
                    msgs@[j].confidence@,
                ),
        decreases msgs@.len() - i,
    {
        blocks.push(render_message(&msgs[i].message, msgs[i].confidence.as_str()));
        i = i + 1;
    }
    MessageList::Turns(blocks)
}

/// Token and cost totals below an answer.
#[derive(Debug, Clone, PartialEq, Eq)]
pub struct BudgetLines {
    pub summary: String,
    pub total_tokens: String,
    pub cached_input_tokens: String,
    pub cost: String,
    pub calls: String,
}

/// The one-line summary of a budget. `cost` has four decimals.
pub open spec fn budget_summary(b: BudgetSnapshotView, cost: Seq<char>) -> Seq<char> {
    "tokens "@ + decimal(b.total_tokens as nat) + " · $"@ + cost + " · "@ + decimal(
        b.call_count as nat,
    ) + " call"@ + (if b.call_count == 1 {
        ""@
    } else {
        "s"@
    })
}

/// Footer with token and cost totals: a line that is always visible and the
/// figures folded under it. `cost` is the cost with four decimals, `precise`
/// with six.
#[allow(non_snake_case)]
pub fn BudgetBadge(snapshot: BudgetSnapshotView, cost: &str, precise: &str) -> (r: BudgetLines)
    ensures
        r.summary@ == budget_summary(snapshot, cost@),
        r.total_tokens@ == "total tokens: "@ + decimal(snapshot.total_tokens as nat),
        r.cached_input_tokens@ == "cached input tokens: "@ + decimal(
            snapshot.cached_input_tokens as nat,
        ),
        r.cost@ == "cost (USD): "@ + precise@,
        r.calls@ == "LLM calls: "@ + decimal(snapshot.call_count as nat),
{
    let tokens = decimal_text(snapshot.total_tokens);
    let cached = decimal_text(snapshot.cached_input_tokens);
    let calls = decimal_text(snapshot.call_count);
    let mut summary = concat3("tokens ", tokens.as_str(), " · $");
    summary.append(cost);
    summary.append(" · ");
    summary.append(calls.as_str());
    summary.append(" call");
    summary.append(
        if snapshot.call_count == 1 {
            ""
        } else {
            "s"
        },
    );
    BudgetLines {
        summary,
        total_tokens: concat2("total tokens: ", tokens.as_str()),
        cached_input_tokens: concat2("cached input tokens: ", cached.as_str()),
        cost: concat2("cost (USD): ", precise),
        calls: concat2("LLM calls: ", calls.as_str()),
    }
}

// ---------------------------------------------------------------------------
// Laws
// ---------------------------------------------------------------------------
/// The texts of identifiers, as ticked boxes send them.
pub open spec fn sent(ids: Seq<Uuid>) -> Seq<Seq<char>> {
    ids.map_values(|id: Uuid| hyphenated_form(id.value))
}

/// The values that ticked boxes send spell the documents that were ticked.
pub proof fn ticked_values_are_understood(ids: Seq<Uuid>)
    ensures
        spelled(sent(ids)) == ids,
    decreases ids.len(),
{
    if ids.len() == 0 {
        assert(ids =~= Seq::empty());
    } else {
        let front = ids.drop_last();
        ticked_values_are_understood(front);
        crate::ident::text_forms_read_back(ids.last().value);
        assert(sent(ids).drop_last() =~= sent(front));
        assert(sent(ids).last() == hyphenated_form(ids.last().value));
        assert(front.push(ids.last()) =~= ids);
    }
}

/// A column made from identifiers holds these identifiers.
pub proof fn column_holds_what_was_put_in(ids: Seq<Uuid>)
    ensures
        flattened(as_column(ids)) == ids,
    decreases ids.len(),
{
    if ids.len() == 0 {
        assert(ids =~= Seq::empty());
    } else {
        let front = ids.drop_last();
        column_holds_what_was_put_in(front);
        assert(as_column(ids).drop_last() =~= as_column(front));
        assert(as_column(ids).last() == Some(ids.last()));
        assert(front.push(ids.last()) =~= ids);
    }
}

/// What a user ticks and saves is what the panel shows ticked afterwards, no
/// more and no less, and the conversation is no longer in auto mode.
pub proof fn saved_pins_are_shown(
    s: ConversationStatement,
    user_id: Uuid,
    conversation_id: Uuid,
    ids: Seq<Uuid>,
    row: crate::conversations::ConversationRow,
    now: int,
    entry: LibraryEntry,
)
    requires
        pins(s, user_id, conversation_id, Some(spelled(sent(ids)))),
        row.id == conversation_id,
        row.user_id == user_id,
    ensures
        s.leaves(row, now) matches Some(after) && after.pinned is Some && (is_pinned(
            after.pinned,
            entry,
        ) <==> ids.contains(entry.id)),
{
    ticked_values_are_understood(ids);
    column_holds_what_was_put_in(ids);
}

/// After a reset every complete document is pinned, and no other.
pub proof fn cleared_pins_follow_the_library(
    s: ConversationStatement,
    user_id: Uuid,
    conversation_id: Uuid,
    row: crate::conversations::ConversationRow,
    now: int,
    entry: LibraryEntry,
)
    requires
        pins(s, user_id, conversation_id, None),
        row.id == conversation_id,
        row.user_id == user_id,
    ensures
        s.leaves(row, now) matches Some(after) && after.pinned is None && (is_pinned(
            after.pinned,
            entry,
        ) <==> entry.ingest_status@ == "complete"@),
{
}

/// The address of a conversation leads back to it.
pub proof fn address_names_its_conversation(id: Uuid)
    ensures
        conversation_path(id).subrange("/chat/"@.len() as int, conversation_path(id).len() as int)
            == hyphenated_form(id.value),
        parsed(hyphenated_form(id.value)) == Some(id.value),
{
    crate::ident::text_forms_read_back(id.value);
    let n = "/chat/"@.len() as int;
    assert(conversation_path(id).subrange(n, conversation_path(id).len() as int)
        =~= hyphenated_form(id.value));
}

/// A box of the panel is ticked exactly if its document is pinned for the
/// conversation: if a set was chosen, exactly if the document is in the set,
/// complete or not; else exactly if it is complete. It can be changed exactly if
/// the document is complete, its value names the document, and a document that
/// is not complete carries its status.
pub proof fn boxes_show_the_pins(
    chosen: Option<Seq<Option<Uuid>>>,
    entry: LibraryEntry,
    v: DocumentPinningView,
    row: PinningRow,
)
    requires
        shows_pinning(v, entry, chosen),
        ticks(row, v),
    ensures
        row.checked <==> is_pinned(chosen, entry),
        chosen is None ==> (row.checked <==> entry.ingest_status@ == "complete"@),
        chosen matches Some(column) ==> (row.checked <==> column.contains(Some(entry.id))),
        row.disabled <==> entry.ingest_status@ != "complete"@,
        parsed(row.value@) == Some(entry.id.value),
        row.value@.len() == 36,
        row.filename@ == entry.filename@,
        row.status_note@ == (if entry.ingest_status@ == "complete"@ {
            Seq::empty()
        } else {
            " ("@ + entry.ingest_status@ + ")"@
        }),
        row.label_style@ == checkbox_style(row.disabled),
{
    crate::ident::text_forms_read_back(entry.id.value);
    crate::ident::hyphenated_form_is_hex_and_hyphens(entry.id.value);
    match chosen {
        Some(column) => {
            a_column_holds_its_identifiers(column, entry.id);
        },
        None => {},
    }
}

/// What a user ticks and saves is what the panel shows ticked afterwards: a box
/// is ticked exactly if its document was among those that were saved.
pub proof fn saved_boxes_stay_ticked(
    s: ConversationStatement,
    user_id: Uuid,
    conversation_id: Uuid,
    ids: Seq<Uuid>,
    row: crate::conversations::ConversationRow,
    now: int,
    entry: LibraryEntry,
    v: DocumentPinningView,
    line: PinningRow,
)
    requires
        pins(s, user_id, conversation_id, Some(spelled(sent(ids)))),
        row.id == conversation_id,
        row.user_id == user_id,
        s.leaves(row, now) matches Some(after) && shows_pinning(v, entry, after.pinned),
        ticks(line, v),
    ensures
        line.checked <==> ids.contains(entry.id),
{
    saved_pins_are_shown(s, user_id, conversation_id, ids, row, now, entry);
    match s.leaves(row, now) {
        Some(after) => {
            boxes_show_the_pins(after.pinned, entry, v, line);
        },
        None => {},
    }
}

/// After a reset the boxes of the complete documents are ticked, and no other.
pub proof fn cleared_boxes_follow_the_library(
    s: ConversationStatement,
    user_id: Uuid,
    conversation_id: Uuid,
    row: crate::conversations::ConversationRow,
    now: int,
    entry: LibraryEntry,
    v: DocumentPinningView,
    line: PinningRow,
)
    requires
        pins(s, user_id, conversation_id, None),
        row.id == conversation_id,
        row.user_id == user_id,
        s.leaves(row, now) matches Some(after) && shows_pinning(v, entry, after.pinned),
        ticks(line, v),
    ensures
        line.checked <==> entry.ingest_status@ == "complete"@,
        line.checked <==> !line.disabled,
{
    cleared_pins_follow_the_library(s, user_id, conversation_id, row, now, entry);
    match s.leaves(row, now) {
        Some(after) => {
            boxes_show_the_pins(after.pinned, entry, v, line);
        },
        None => {},
    }
}

/// The boxes of a panel send back what they show: saving the values of the
/// ticked boxes of some documents stores these documents.
pub proof fn ticked_boxes_name_their_documents(rows: Seq<PinningRow>, docs: Seq<DocumentPinningView>)
    requires
        rows.len() == docs.len(),
        forall|i: int| 0 <= i < rows.len() ==> ticks(#[trigger] rows[i], docs[i]),
    ensures
        spelled(rows.map_values(|r: PinningRow| r.value@)) == docs.map_values(
            |d: DocumentPinningView| d.id,
        ),
{
    let ids = docs.map_values(|d: DocumentPinningView| d.id);
    let values = rows.map_values(|r: PinningRow| r.value@);
    assert forall|i: int| 0 <= i < values.len() implies values[i] == sent(ids)[i] by {
        assert(ticks(rows[i], docs[i]));
    }
    assert(values =~= sent(ids));
    ticked_values_are_understood(ids);
}

/// An identifier is read out of a column exactly if the column holds it; a gap
/// holds none.
pub proof fn a_column_holds_its_identifiers(column: Seq<Option<Uuid>>, id: Uuid)
    ensures
        flattened(column).contains(id) <==> column.contains(Some(id)),
    decreases column.len(),
{
    if column.len() > 0 {
        let front = column.drop_last();
        let last = column.len() - 1;
        a_column_holds_its_identifiers(front, id);
        if flattened(front).contains(id) {
            let i = choose|i: int| 0 <= i < front.len() && front[i] == Some(id);
            assert(column[i] == Some(id));
            let k = choose|k: int| 0 <= k < flattened(front).len() && flattened(front)[k] == id;
            assert(flattened(column)[k] == id);
        }
        if column[last] == Some(id) {
            assert(flattened(column)[flattened(column).len() - 1] == id);
        }
        if column.contains(Some(id)) {
            let i = choose|i: int| 0 <= i < column.len() && column[i] == Some(id);
            if i < last {
                assert(front[i] == Some(id));
            }
        }
        if flattened(column).contains(id) {
            let k = choose|k: int| 0 <= k < flattened(column).len() && flattened(column)[k] == id;
            if k < flattened(front).len() {
                assert(flattened(front)[k] == id);
            } else {
                assert(column[last] == Some(id));
            }
        }
    }
}

/// Columns are read element by element, in order: of two columns one behind the
/// other, the identifiers of the first and behind them those of the second.
pub proof fn columns_are_read_in_order(a: Seq<Option<Uuid>>, b: Seq<Option<Uuid>>)
    ensures
        flattened(a + b) == flattened(a) + flattened(b),
        b.len() == 1 ==> flattened(b) == (match b[0] {
            Some(id) => seq![id],
            None => Seq::empty(),
        }),
    decreases b.len(),
{
    if b.len() == 0 {
        assert(a + b =~= a);
        assert(flattened(a) + flattened(b) =~= flattened(a));
    } else {
        columns_are_read_in_order(a, b.drop_last());
        assert((a + b).drop_last() =~= a + b.drop_last());
        assert((a + b).last() == b.last());
        assert(flattened(a + b) =~= flattened(a) + flattened(b));
        if b.len() == 1 {
            assert(b.drop_last() =~= Seq::empty());
            assert(flattened(Seq::empty()) == Seq::<Uuid>::empty());
            match b[0] {
                Some(id) => {
                    assert(Seq::<Uuid>::empty().push(id) =~= seq![id]);
                },
                None => {},
            }
        }
    }
}

/// Values are read one by one, in order; one that spells no identifier is passed
/// over and hides no other.
pub proof fn values_are_read_in_order(a: Seq<Seq<char>>, b: Seq<Seq<char>>)
    ensures
        spelled(a + b) == spelled(a) + spelled(b),
        b.len() == 1 ==> spelled(b) == (match parsed(b[0]) {
            Some(value) => seq![Uuid { value }],
            None => Seq::empty(),
        }),
    decreases b.len(),
{
    if b.len() == 0 {
        assert(a + b =~= a);
        assert(spelled(a) + spelled(b) =~= spelled(a));
    } else {
        values_are_read_in_order(a, b.drop_last());
        assert((a + b).drop_last() =~= a + b.drop_last());
        assert((a + b).last() == b.last());
        assert(spelled(a + b) =~= spelled(a) + spelled(b));
        if b.len() == 1 {
            assert(b.drop_last() =~= Seq::empty());
            assert(spelled(Seq::empty()) == Seq::<Uuid>::empty());
            match parsed(b[0]) {
                Some(value) => {
                    assert(Seq::<Uuid>::empty().push(Uuid { value }) =~= seq![Uuid { value }]);
                },
                None => {},
            }
        }
    }
}

/// Stored citations are read one by one, in order; an element that holds none is
/// passed over and hides no other.
pub proof fn citations_are_read_in_order(a: Seq<CitationRecord>, b: Seq<CitationRecord>)
    ensures
        citations_in(a + b) == citations_in(a) + citations_in(b),
        b.len() == 1 ==> citations_in(b) == (match citation_in(b[0]) {
            Some(c) => seq![c],
            None => Seq::empty(),
        }),
    decreases b.len(),
{
    if b.len() == 0 {
        assert(a + b =~= a);
        assert(citations_in(a) + citations_in(b) =~= citations_in(a));
    } else {
        citations_are_read_in_order(a, b.drop_last());
        assert((a + b).drop_last() =~= a + b.drop_last());
        assert((a + b).last() == b.last());
        assert(citations_in(a + b) =~= citations_in(a) + citations_in(b));
        if b.len() == 1 {
            assert(b.drop_last() =~= Seq::empty());
            assert(citations_in(Seq::empty()) == Seq::<Citation>::empty());
            match citation_in(b[0]) {
                Some(c) => {
                    assert(Seq::<Citation>::empty().push(c) =~= seq![c]);
                },
                None => {},
            }
        }
    }
}

/// A stored element is a citation exactly if its index is a number without a
/// sign and it has a snippet; its texts are kept whole, what is no text is
/// empty, and an index that fits is kept as it is.
pub proof fn stored_members_are_kept(v: CitationRecord)
    ensures
        citation_in(v) is Some <==> v.index is Unsigned && v.snippet !is Absent,
        citation_in(v) matches Some(c) ==> {
            &&& v.index matches JsonField::Unsigned(n) ==> (n as int - c.index as int)
                % 0x1_0000_0000 == 0
            &&& v.index matches JsonField::Unsigned(n) ==> (n <= 0xFFFF_FFFF ==> c.index == n)
            &&& v.snippet matches JsonField::Text(t) ==> c.snippet == t@
            &&& v.snippet !is Text ==> c.snippet.len() == 0
            &&& v.minio_object_key matches JsonField::Text(t) ==> c.minio_object_key == t@
            &&& v.minio_object_key !is Text ==> c.minio_object_key.len() == 0
            &&& v.section_path matches JsonField::Text(t) ==> c.section_path == t@
            &&& v.section_path !is Text ==> c.section_path.len() == 0
        },
{
}

/// A column that is an array shows the citations of its elements, and one that
/// is not shows none.
pub proof fn only_arrays_hold_citations(column: CitationsColumn)
    ensures
        match column {
            CitationsColumn::Items(records) => column_citations(column) == citations_in(records@),
            CitationsColumn::NotAnArray => column_citations(column).len() == 0,
        },
{
}

/// The page shows a stored turn as it was stored: who said it, every word of it,
/// and each of its citations with its number, its section and its snippet.
pub proof fn the_page_shows_the_stored_turn(
    m: Message,
    v: MessageView,
    b: MessageBlock,
    shown: Seq<char>,
)
    requires
        shows_message(v, m),
        turn_shows(b, v, shown),
    ensures
        v.id == m.id,
        v.confidence == m.confidence,
        b.role@ == m.role@,
        b.content@ == m.content@,
        b.style@ == turn_style(m.role@),
        b.badge@ == badge_of(m.role@, m.confidence, shown),
        b.citations is None <==> column_citations(m.citations).len() == 0,
        b.citations matches Some(details) ==> {
            &&& details.lines@.len() == column_citations(m.citations).len()
            &&& forall|i: int|
                0 <= i < details.lines@.len() ==> {
                    let c = column_citations(m.citations)[i];
                    &&& (#[trigger] details.lines@[i]).snippet@ == c.snippet
                    &&& details.lines@[i].section_path@ == c.section_path
                    &&& details.lines@[i].label@ == "["@ + decimal(c.index as nat) + "]"@
                }
        },
        m.role@ != "assistant"@ || m.confidence is None ==> b.badge@.len() == 0,
        m.role@ == "assistant"@ && m.confidence is Some ==> b.badge@.len() > 0,
{
    reveal_strlit("✓ verified · conf ");
    reveal_strlit("low confidence · conf ");
    assert(citations_of(v.citations@).len() == v.citations@.len());
    match b.citations {
        Some(details) => {
            assert forall|i: int| 0 <= i < details.lines@.len() implies ({
                let c = column_citations(m.citations)[i];
                &&& (#[trigger] details.lines@[i]).snippet@ == c.snippet
                &&& details.lines@[i].section_path@ == c.section_path
                &&& details.lines@[i].label@ == "["@ + decimal(c.index as nat) + "]"@
            }) by {
                assert(cites(details.lines@[i], v.citations@[i]));
                assert(citations_of(v.citations@)[i] == v.citations@[i]@);
            }
        },
        None => {},
    }
}

/// The line above the citations of a turn begins with their number.
pub proof fn citations_are_counted(d: CitationDetails, citations: Seq<CitationView>)
    requires
        details_show(Some(d), citations),
    ensures
        d.summary@ == decimal(citations.len()) + " citation(s)"@,
        crate::text::number_of(
            d.summary@.subrange(0, d.summary@.len() - " citation(s)"@.len()),
        ) == d.lines@.len(),
{
    crate::text::decimal_spells_the_number(citations.len());
    assert(d.summary@.subrange(0, d.summary@.len() - " citation(s)"@.len()) =~= decimal(
        citations.len(),
    ));
}

/// An assistant's answer reads as verified exactly if its confidence is at least
/// one half, and the badge ends with the confidence as it is shown.
pub proof fn only_the_confident_are_verified(c: Double, shown: Seq<char>)
    ensures
        badge_of("assistant"@, Some(c), shown)[0] == '✓' <==> c.is_half_or_more(),
        c.is_half_or_more() ==> badge_of("assistant"@, Some(c), shown) == "✓ verified · conf "@
            + shown,
        !c.is_half_or_more() ==> badge_of("assistant"@, Some(c), shown)
            == "low confidence · conf "@ + shown,
        badge_of("assistant"@, None, shown).len() == 0,
        forall|role: Seq<char>, confidence: Option<Double>|
            role != "assistant"@ ==> (#[trigger] badge_of(role, confidence, shown)).len() == 0,
{
    reveal_strlit("✓ verified · conf ");
    reveal_strlit("low confidence · conf ");
}

/// The colour of a turn tells the user's turns from all others, and nothing
/// else.
pub proof fn colours_tell_who_speaks(a: Seq<char>, b: Seq<char>)
    ensures
        turn_style(a) == turn_style(b) <==> (a == "user"@ <==> b == "user"@),
        a == "user"@ ==> turn_style(a)
            == "padding: 0.8rem; margin-bottom: 0.5rem; background: #eef; border-radius: 4px;"@,
        a != "user"@ ==> turn_style(a)
            == "padding: 0.8rem; margin-bottom: 0.5rem; background: #efe; border-radius: 4px;"@,
{
    reveal_strlit("padding: 0.8rem; margin-bottom: 0.5rem; background: ");
    reveal_strlit("padding: 0.8rem; margin-bottom: 0.5rem; background: #eef; border-radius: 4px;");
    reveal_strlit("padding: 0.8rem; margin-bottom: 0.5rem; background: #efe; border-radius: 4px;");
    reveal_strlit("; border-radius: 4px;");
    reveal_strlit("#eef");
    reveal_strlit("#efe");
    let blue = "padding: 0.8rem; margin-bottom: 0.5rem; background: #eef; border-radius: 4px;"@;
    let green = "padding: 0.8rem; margin-bottom: 0.5rem; background: #efe; border-radius: 4px;"@;
    assert(blue[54] == 'e' && green[54] == 'f');
    assert(turn_style(a) =~= if a == "user"@ {
        blue
    } else {
        green
    });
    assert(turn_style(b) =~= if b == "user"@ {
        blue
    } else {
        green
    });
}

/// A box that cannot be ticked is half as opaque as one that can.
pub proof fn disabled_boxes_are_paler()
    ensures
        checkbox_style(true)
            == "display: flex; align-items: center; gap: 0.5rem; opacity: 0.5;"@,
        checkbox_style(false) == "display: flex; align-items: center; gap: 0.5rem; opacity: 1;"@,
{
    reveal_strlit("display: flex; align-items: center; gap: 0.5rem; opacity: ");
    reveal_strlit("display: flex; align-items: center; gap: 0.5rem; opacity: 0.5;");
    reveal_strlit("display: flex; align-items: center; gap: 0.5rem; opacity: 1;");
    reveal_strlit("0.5");
    reveal_strlit("1");
    reveal_strlit(";");
    assert(checkbox_style(true)
        =~= "display: flex; align-items: center; gap: 0.5rem; opacity: 0.5;"@);
    assert(checkbox_style(false)
        =~= "display: flex; align-items: center; gap: 0.5rem; opacity: 1;"@);
}

/// The words for the mode tell a chosen set from none.
pub proof fn the_mode_is_told(auto_mode: bool)
    ensures
        mode_label(auto_mode) == "auto (every complete doc)"@ <==> auto_mode,
        mode_label(auto_mode) == "custom subset"@ <==> !auto_mode,
{
    reveal_strlit("auto (every complete doc)");
    reveal_strlit("custom subset");
    assert("auto (every complete doc)"@[0] == 'a' && "custom subset"@[0] == 'c');
}

/// A line of the conversation list carries the conversation's title and leads to
/// its page.
pub proof fn the_list_leads_to_its_conversations(
    c: Conversation,
    v: ConversationView,
    l: ConversationLink,
)
    requires
        lists(v, c),
        links_to(l, v),
    ensures
        l.title@ == c.title@,
        l.href@ == "/chat/"@ + hyphenated_form(c.id.value),
        parsed(l.href@.skip("/chat/"@.len() as int)) == Some(c.id.value),
{
    crate::ident::text_forms_read_back(c.id.value);
    assert(l.href@.skip("/chat/"@.len() as int) =~= hyphenated_form(c.id.value));
}

/// The summary of a budget names the tokens, the cost and the calls, in this
/// order; a single call is not in the plural.
pub proof fn the_summary_tells_the_budget(b: BudgetSnapshotView, cost: Seq<char>)
    ensures
        b.call_count == 1 ==> budget_summary(b, cost) == "tokens "@ + decimal(
            b.total_tokens as nat,
        ) + " · $"@ + cost + " · 1 call"@,
        b.call_count != 1 ==> budget_summary(b, cost) == "tokens "@ + decimal(
            b.total_tokens as nat,
        ) + " · $"@ + cost + " · "@ + decimal(b.call_count as nat) + " calls"@,
{
    let head = "tokens "@ + decimal(b.total_tokens as nat) + " · $"@ + cost;
    reveal_strlit("");
    reveal_strlit("s");
    reveal_strlit(" call");
    reveal_strlit(" calls");
    reveal_strlit(" · ");
    reveal_strlit(" · 1 call");
    if b.call_count == 1 {
        assert(decimal(1) =~= seq!['1']);
        assert(budget_summary(b, cost) =~= head + " · 1 call"@);
    } else {
        assert(budget_summary(b, cost) =~= head + " · "@ + decimal(b.call_count as nat)
            + " calls"@);
    }
}

/// Citations and answers are read with all that they hold.
pub proof fn answers_are_read_whole(f: AskFinalView, v: Option<CitationView>)
    ensures
        f@.answer == f.answer@,
        f@.confidence == f.confidence,
        f@.citations.len() == f.citations@.len(),
        forall|i: int|
            0 <= i < f.citations@.len() ==> {
                let c = #[trigger] f.citations@[i];
                &&& f@.citations[i].index == c.index
                &&& f@.citations[i].snippet == c.snippet@
                &&& f@.citations[i].minio_object_key == c.minio_object_key@
                &&& f@.citations[i].section_path == c.section_path@
            },
        v is None <==> optional_citation(v) is None,
        v matches Some(c) ==> optional_citation(v) == Some(c@),
{
}

/// The panel of a conversation, from its row and the library to its boxes: one
/// box for each document, in order, ticked exactly if the document is pinned. In
/// auto mode these are the complete documents, else those of the chosen set,
/// complete or not.
pub proof fn the_panel_shows_the_pins(
    conversation: Conversation,
    library: Vec<LibraryEntry>,
    state: Result<PinningState, String>,
    id: Uuid,
    panel: PinningPanel,
)
    requires
        call_ensures(load_pinning_state, (&conversation, Ok(library)), state),
        call_ensures(render_pinning_panel, (id, state), panel),
    ensures
        library@.len() == 0 <==> panel is NoDocuments,
        library@.len() > 0 ==> {
            &&& panel matches PinningPanel::Choice { mode, conversation_id, rows }
            &&& parsed(conversation_id@) == Some(id.value)
            &&& mode@ == "auto (every complete doc)"@ <==> conversation.pinned_document_ids is None
            &&& rows@.len() == library@.len()
            &&& forall|i: int|
                0 <= i < rows@.len() ==> ((#[trigger] rows@[i]).checked
                    <==> match conversation.pinned_document_ids {
                    None => library@[i].ingest_status@ == "complete"@,
                    Some(column) => column@.contains(Some(library@[i].id)),
                })
            &&& forall|i: int|
                0 <= i < rows@.len() ==> (#[trigger] rows@[i]).filename@ == library@[i].filename@
                    && parsed(rows@[i].value@) == Some(library@[i].id.value)
        },
{
    if library@.len() > 0 {
        match (state, panel) {
            (Ok(s), PinningPanel::Choice { mode, conversation_id, rows }) => {
                crate::ident::text_forms_read_back(id.value);
                the_mode_is_told(s.auto_mode);
                assert forall|i: int| 0 <= i < rows@.len() implies ((
                #[trigger] rows@[i]).checked <==> match conversation.pinned_document_ids {
                    None => library@[i].ingest_status@ == "complete"@,
                    Some(column) => column@.contains(Some(library@[i].id)),
                }) && rows@[i].filename@ == library@[i].filename@ && parsed(rows@[i].value@)
                    == Some(library@[i].id.value) by {
                    assert(ticks(rows@[i], s.documents@[i]));
                    boxes_show_the_pins(
                        conversation@.pinned,
                        library@[i],
                        s.documents@[i],
                        rows@[i],
                    );
                }
            },
            _ => {},
        }
    }
}

/// From the boxes to the row and back: after the values of some documents have
/// been saved, the panel of the conversation shows these documents ticked and no
/// other, and is no longer in auto mode.
pub proof fn the_panel_shows_what_was_saved(
    user_id: Uuid,
    values: Vec<String>,
    ids: Seq<Uuid>,
    s: ConversationStatement,
    before: Conversation,
    now: int,
    after: Conversation,
    library: Vec<LibraryEntry>,
    state: Result<PinningState, String>,
    panel: PinningPanel,
)
    requires
        texts(values@) == sent(ids),
        before.user_id == user_id,
        call_ensures(save_pinning_action, (user_id, before.id, &values), s),
        s.leaves(before@, now) == Some(after@),
        library@.len() > 0,
        call_ensures(load_pinning_state, (&after, Ok(library)), state),
        call_ensures(render_pinning_panel, (after.id, state), panel),
    ensures
        panel matches PinningPanel::Choice { mode, rows, .. } && {
            &&& mode@ == "custom subset"@
            &&& rows@.len() == library@.len()
            &&& forall|i: int|
                0 <= i < rows@.len() ==> ((#[trigger] rows@[i]).checked <==> ids.contains(
                    library@[i].id,
                ))
        },
{
    the_panel_shows_the_pins(after, library, state, after.id, panel);
    ticked_values_are_understood(ids);
    column_holds_what_was_put_in(ids);
    match (state, panel) {
        (Ok(st), PinningPanel::Choice { mode, conversation_id, rows }) => {
            the_mode_is_told(st.auto_mode);
            assert forall|i: int| 0 <= i < rows@.len() implies ((#[trigger] rows@[i]).checked
                <==> ids.contains(library@[i].id)) by {
                saved_pins_are_shown(s, user_id, before.id, ids, before@, now, library@[i]);
                a_column_holds_its_identifiers(as_column(ids), library@[i].id);
            }
        },
        _ => {},
    }
}

/// From the stored turns to the page: each turn is shown by its speaker, in its
/// words, and with as many citations as its column holds.
pub proof fn the_page_shows_the_stored_turns(
    rows: Vec<Message>,
    views: Result<Vec<MessageView>, String>,
    i: int,
    shown: &str,
    block: MessageBlock,
)
    requires
        0 <= i < rows@.len(),
        call_ensures(load_conversation_messages, (Ok(rows),), views),
        views matches Ok(v) && call_ensures(render_message, (&v@[i], shown), block),
    ensures
        views matches Ok(v) && v@.len() == rows@.len(),
        block.role@ == rows@[i].role@,
        block.content@ == rows@[i].content@,
        block.badge@ == badge_of(rows@[i].role@, rows@[i].confidence, shown@),
        block.citations matches Some(d) ==> d.lines@.len() == column_citations(
            rows@[i].citations,
        ).len(),
        block.citations is None <==> column_citations(rows@[i].citations).len() == 0,
{
    match views {
        Ok(v) => {
            assert(shows_message(v@[i], rows@[i]));
            the_page_shows_the_stored_turn(rows@[i], v@[i], block, shown@);
        },
        Err(_) => {},
    }
}

/// From the rows to the page: the list has one line for each conversation, in
/// order, under its title and with the address of its page.
pub proof fn the_list_shows_the_rows(
    rows: Vec<Conversation>,
    views: Result<Vec<ConversationView>, String>,
    page: ConversationList,
)
    requires
        call_ensures(list_conversations_action, (Ok(rows),), views),
        call_ensures(ChatPage, (views,), page),
    ensures
        rows@.len() == 0 <==> page is Empty,
        rows@.len() > 0 ==> {
            &&& page matches ConversationList::Links(links)
            &&& links@.len() == rows@.len()
            &&& forall|i: int|
                0 <= i < links@.len() ==> (#[trigger] links@[i]).title@ == rows@[i].title@
                    && links@[i].href@ == "/chat/"@ + hyphenated_form(rows@[i].id.value)
        },
{
    match (views, page) {
        (Ok(v), ConversationList::Links(links)) => {
            assert forall|i: int| 0 <= i < links@.len() implies (#[trigger] links@[i]).title@
                == rows@[i].title@ && links@[i].href@ == "/chat/"@ + hyphenated_form(
                rows@[i].id.value,
            ) by {
                assert(links_to(links@[i], v@[i]));
                assert(lists(v@[i], rows@[i]));
            }
        },
        _ => {},
    }
}

} // verus!
