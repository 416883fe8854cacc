//! Conversation persistence, as statements for the store.
//!
//! A `Conversation` is the container for a single chat thread. The agent keeps
//! no session: each question carries the history inline, so the conversation
//! id never leaves this application.
use crate::double::Double;
use crate::error::{optional, AppError, AppErrorView, DbError, DbErrorKind};
use crate::ident::Uuid;
use crate::text::{before_char, chars_of, same_text, text_between, trim, trimmed, up_to};
use vstd::prelude::*;

verus! {

// ---------------------------------------------------------------------------
// Constants
// ---------------------------------------------------------------------------
/// A title taken from the first user message is cut to this many characters
/// to keep sidebar rows readable.
pub const AUTO_TITLE_MAX_CHARS: usize = 80;

/// Default label for a freshly created conversation, shown until the first
/// user message upgrades the title.
pub const DEFAULT_TITLE: &'static str = "New conversation";

// ---------------------------------------------------------------------------
// Models
// ---------------------------------------------------------------------------
/// A single conversation row, owned by one user. Times are microseconds since
/// the epoch.
#[derive(Debug, Clone, PartialEq, Eq)]
pub struct Conversation {
    pub id: Uuid,
    pub user_id: Uuid,
    pub title: String,
    pub created_at: i64,
    pub updated_at: i64,
    /// User-chosen active document set for this thread.
    /// - `None`: not yet chosen; every complete library document counts.
    /// - `Some` of an empty list: the user pinned nothing.
    /// - `Some(ids)`: exactly this set.
    pub pinned_document_ids: Option<Vec<Option<Uuid>>>,
}

/// A conversation row as a value.
pub struct ConversationRow {
    pub id: Uuid,
    pub user_id: Uuid,
    pub title: Seq<char>,
    pub created_at: int,
    pub updated_at: int,
    pub pinned: Option<Seq<Option<Uuid>>>,
}

impl View for Conversation {
    type V = ConversationRow;

    open spec fn view(&self) -> ConversationRow {
        ConversationRow {
            id: self.id,
            user_id: self.user_id,
            title: self.title@,
            created_at: self.created_at as int,
            updated_at: self.updated_at as int,
            pinned: match self.pinned_document_ids {
                Some(v) => Some(v@),
                None => None,
            },
        }
    }
}

/// One member of a stored JSON object, as far as it is read.
#[derive(Debug, Clone, PartialEq, Eq)]
pub enum JsonField {
    /// The object has no such member.
    Absent,
    /// A number that fits 64 bits without a sign.
    Unsigned(u64),
    Text(String),
    /// Any other value.
    Other,
}

/// One element of the stored citations. An element that is no object has no
/// members.
#[derive(Debug, Clone, PartialEq, Eq)]
pub struct CitationRecord {
    pub index: JsonField,
    pub snippet: JsonField,
    pub minio_object_key: JsonField,
    pub section_path: JsonField,
}

/// The stored citations of a turn.
#[derive(Debug, Clone, PartialEq, Eq)]
pub enum CitationsColumn {
    /// A JSON value that is no array.
    NotAnArray,
    Items(Vec<CitationRecord>),
}

/// A single persisted turn in a conversation.
#[derive(Debug, Clone, PartialEq, Eq)]
pub struct Message {
    pub id: Uuid,
    pub conversation_id: Uuid,
    pub role: String,
    pub content: String,
    pub attached_document_ids: Vec<Option<Uuid>>,
    pub citations: CitationsColumn,
    pub confidence: Option<Double>,
    pub created_at: i64,
}

/// A turn to be stored.
#[derive(Debug, Clone, PartialEq, Eq)]
pub struct NewMessage {
    pub conversation_id: Uuid,
    pub role: String,
    pub content: String,
    pub attached_document_ids: Vec<Option<Uuid>>,
    pub citations: Vec<CitationRecord>,
    pub confidence: Option<Double>,
}

// ---------------------------------------------------------------------------
// Statements
// ---------------------------------------------------------------------------
/// What is asked of the conversations table.
#[derive(Debug, Clone, PartialEq, Eq)]
pub enum ConversationStatement {
    /// A new row with this owner and title, for which no document set has been
    /// chosen yet.
    Insert { user_id: Uuid, title: String },
    /// Every row of an owner, the most recently updated first.
    ListOf { user_id: Uuid },
    /// The row with this id and this owner.
    LoadOwned { id: Uuid, user_id: Uuid },
    /// The row's time of update becomes now.
    Touch { id: Uuid },
    /// The row gets a title, and its time of update becomes now.
    Retitle { id: Uuid, title: String },
    /// The row with this id and this owner gets a document set, and its time
    /// of update becomes now.
    SetPinned { id: Uuid, user_id: Uuid, pinned: Option<Vec<Option<Uuid>>> },
    /// The row with this id and this owner goes.
    DeleteOwned { id: Uuid, user_id: Uuid },
}

impl ConversationStatement {
    /// Whether the row is one that the statement adds to the table.
    pub open spec fn creates(self, row: ConversationRow) -> bool {
        self matches ConversationStatement::Insert { user_id, title } && row.user_id == user_id
            && row.title == title@ && row.pinned is None
    }

    /// Whether the statement's answer holds the row.
    pub open spec fn answers(self, row: ConversationRow) -> bool {
        match self {
            ConversationStatement::ListOf { user_id } => row.user_id == user_id,
            ConversationStatement::LoadOwned { id, user_id } => row.id == id && row.user_id
                == user_id,
            _ => false,
        }
    }

    /// Whether the statement writes the row: sets something in it, or removes
    /// it.
    pub open spec fn writes(self, row: ConversationRow) -> bool {
        match self {
            ConversationStatement::Touch { id } => row.id == id,
            ConversationStatement::Retitle { id, .. } => row.id == id,
            ConversationStatement::SetPinned { id, user_id, .. } => row.id == id && row.user_id
                == user_id,
            ConversationStatement::DeleteOwned { id, user_id } => row.id == id && row.user_id
                == user_id,
            _ => false,
        }
    }

    /// The rows of a table that the statement writes: it answers how many they
    /// are.
    pub open spec fn written(self, table: Set<ConversationRow>) -> Set<ConversationRow> {
        table.filter(|row: ConversationRow| self.writes(row))
    }

    /// What the statement, run at `now`, makes of a stored row; `None` if the
    /// row goes.
    pub open spec fn leaves(self, row: ConversationRow, now: int) -> Option<ConversationRow> {
        match self {
            ConversationStatement::Touch { id } => if row.id == id {
                Some(ConversationRow { updated_at: now, ..row })
            } else {
                Some(row)
            },
            ConversationStatement::Retitle { id, title } => if row.id == id {
                Some(ConversationRow { title: title@, updated_at: now, ..row })
            } else {
                Some(row)
            },
            ConversationStatement::SetPinned { id, user_id, pinned } => if row.id == id
                && row.user_id == user_id {
                Some(
                    ConversationRow {
                        pinned: match pinned {
                            Some(v) => Some(v@),
                            None => None,
                        },
                        updated_at: now,
                        ..row
                    },
                )
            } else {
                Some(row)
            },
            ConversationStatement::DeleteOwned { id, user_id } => if row.id == id && row.user_id
                == user_id {
                None
            } else {
                Some(row)
            },
            _ => Some(row),
        }
    }
}

impl ConversationStatement {
    /// Whether `rows` answers the statement on a table: each row that it
    /// returns, once, and a list in falling order of the time of update.
    pub open spec fn is_answer(
        self,
        table: Set<ConversationRow>,
        rows: Seq<ConversationRow>,
    ) -> bool {
        &&& rows.no_duplicates()
        &&& forall|row: ConversationRow| #[trigger]
            rows.contains(row) <==> table.contains(row) && self.answers(row)
        &&& self is ListOf ==> forall|i: int, j: int|
            0 <= i <= j < rows.len() ==> (#[trigger] rows[i]).updated_at >= (
            #[trigger] rows[j]).updated_at
    }
}

/// What is asked of the messages table.
#[derive(Debug, Clone, PartialEq, Eq)]
pub enum MessageStatement {
    /// A new row.
    Insert(NewMessage),
    /// Every row of a conversation, the oldest first.
    ListOf { conversation_id: Uuid },
}

impl MessageStatement {
    /// Whether the row is one that the statement adds to the table.
    pub open spec fn creates(self, row: Message) -> bool {
        &&& self matches MessageStatement::Insert(n)
        &&& row.conversation_id == n.conversation_id
        &&& row.role@ == n.role@
        &&& row.content@ == n.content@
        &&& row.attached_document_ids@ == n.attached_document_ids@
        &&& row.confidence == n.confidence
        &&& row.citations matches CitationsColumn::Items(records)
        &&& records@ == n.citations@
    }

    /// Whether the statement's answer holds the row.
    pub open spec fn answers(self, row: Message) -> bool {
        match self {
            MessageStatement::Insert(_) => false,
            MessageStatement::ListOf { conversation_id } => row.conversation_id == conversation_id,
        }
    }

    /// Whether `rows` answers the statement on a table: each row that it
    /// returns, once, and a list in rising order of the time of creation.
    pub open spec fn is_answer(self, table: Set<Message>, rows: Seq<Message>) -> bool {
        &&& rows.no_duplicates()
        &&& forall|row: Message| #[trigger]
            rows.contains(row) <==> table.contains(row) && self.answers(row)
        &&& self is ListOf ==> forall|i: int, j: int|
            0 <= i <= j < rows.len() ==> (#[trigger] rows[i]).created_at <= (
            #[trigger] rows[j]).created_at
    }
}

// ---------------------------------------------------------------------------
// CRUD
// ---------------------------------------------------------------------------
/// Create an empty conversation for `user_id` with the default title.
pub fn create_conversation(user_id: Uuid) -> (r: ConversationStatement)
    ensures
        r matches ConversationStatement::Insert { user_id: u, title } && u == user_id && title@
            == DEFAULT_TITLE@,
{
    ConversationStatement::Insert { user_id, title: DEFAULT_TITLE.to_string() }
}

/// List conversations for `user_id`, most recently updated first.
pub fn list_conversations(user_id: Uuid) -> (r: ConversationStatement)
    ensures
        r == (ConversationStatement::ListOf { user_id }),
{
    ConversationStatement::ListOf { user_id }
}

/// The query for a conversation by id and owner.
pub fn load_conversation_statement(user_id: Uuid, conversation_id: Uuid) -> (r:
    ConversationStatement)
    ensures
        r == (ConversationStatement::LoadOwned { id: conversation_id, user_id }),
{
    ConversationStatement::LoadOwned { id: conversation_id, user_id }
}

/// What a reply to the query for one conversation comes to. A row that is not
/// there and a row that belongs to someone else are the same failure.
pub open spec fn loaded(reply: Result<Conversation, DbError>) -> Result<
    Conversation,
    AppErrorView,
> {
    match reply {
        Ok(row) => Ok(row),
        Err(e) => if e.kind == DbErrorKind::NotFound {
            Err(AppErrorView::Validation("conversation not found"@))
        } else {
            Err(AppErrorView::Db(e.text@))
        },
    }
}

/// The conversation that the query for it returned.
///
/// `AppError::Validation` ("conversation not found") if the id does not exist
/// or belongs to a different user.
pub fn load_conversation(reply: Result<Conversation, DbError>) -> (r: Result<
    Conversation,
    AppError,
>)
    ensures
        crate::error::viewed(r) == loaded(reply),
{
    match optional(reply) {
        Ok(Some(row)) => Ok(row),
        Ok(None) => Err(AppError::Validation("conversation not found".to_string())),
        Err(e) => Err(e),
    }
}

/// Load every message in `conversation_id`, oldest first. The caller has
/// verified ownership with `load_conversation`.
pub fn list_messages(conversation_id: Uuid) -> (r: MessageStatement)
    ensures
        r == (MessageStatement::ListOf { conversation_id }),
{
    MessageStatement::ListOf { conversation_id }
}

/// The query for the messages of a conversation that has been loaded for its
/// owner.
pub fn messages_of(conversation: &Conversation) -> (r: MessageStatement)
    ensures
        r == (MessageStatement::ListOf { conversation_id: conversation.id }),
{
    list_messages(conversation.id)
}

/// The identifiers as the array column takes them.
pub open spec fn as_column(ids: Seq<Uuid>) -> Seq<Option<Uuid>> {
    ids.map_values(|id: Uuid| Some(id))
}

fn id_column(ids: &[Uuid]) -> (r: Vec<Option<Uuid>>)
    ensures
        r@ == as_column(ids@),
{
    let mut out: Vec<Option<Uuid>> = Vec::new();
    let mut i: usize = 0;
    while i < ids.len()
        invariant
            i <= ids@.len(),
            out@ == as_column(ids@.take(i as int)),
        decreases ids@.len() - i,
    {
        out.push(Some(ids[i]));
        assert(as_column(ids@.take(i + 1)) =~= as_column(ids@.take(i as int)).push(
            Some(ids@[i as int]),
        ));
        i = i + 1;
    }
    assert(ids@.take(ids@.len() as int) =~= ids@);
    out
}

/// Append a user message to a conversation and bump its time of update: the
/// row to insert, and the statement for the conversation that follows it.
///
/// While the conversation's title is still the default, the message gives it
/// one; a name that the user chose is never overwritten.
pub fn append_user_message(
    conversation: &Conversation,
    content: &str,
    attached_document_ids: &[Uuid],
) -> (r: (NewMessage, ConversationStatement))
    ensures
        r.0.conversation_id == conversation.id,
        r.0.role@ == "user"@,
        r.0.content@ == content@,
        r.0.attached_document_ids@ == as_column(attached_document_ids@),
        r.0.citations@.len() == 0,
        r.0.confidence is None,
        follows_user_message(r.1, conversation@, content@),
{
    let row = NewMessage {
        conversation_id: conversation.id,
        role: "user".to_string(),
        content: content.to_string(),
        attached_document_ids: id_column(attached_document_ids),
        citations: Vec::new(),
        confidence: None,
    };
    let statement = if same_text(conversation.title.as_str(), DEFAULT_TITLE) {
        ConversationStatement::Retitle { id: conversation.id, title: derive_title(content) }
    } else {
        ConversationStatement::Touch { id: conversation.id }
    };
    (row, statement)
}

/// The statement that follows a user message: a title where there is none
/// yet, else only the time of update.
pub open spec fn follows_user_message(
    s: ConversationStatement,
    conversation: ConversationRow,
    content: Seq<char>,
) -> bool {
    if conversation.title == DEFAULT_TITLE@ {
        s matches ConversationStatement::Retitle { id, title } && id == conversation.id && title@
            == derived_title(content)
    } else {
        s == (ConversationStatement::Touch { id: conversation.id })
    }
}

/// Append an assistant reply to a conversation: the row to insert, and the
/// statement for the conversation that follows it. Replies attach no
/// documents.
pub fn append_assistant_message(
    conversation_id: Uuid,
    content: String,
    citations: Vec<CitationRecord>,
    confidence: Option<Double>,
) -> (r: (NewMessage, ConversationStatement))
    ensures
        r.0.conversation_id == conversation_id,
        r.0.role@ == "assistant"@,
        r.0.content == content,
        r.0.attached_document_ids@.len() == 0,
        r.0.citations == citations,
        r.0.confidence == confidence,
        r.1 == (ConversationStatement::Touch { id: conversation_id }),
{
    let row = NewMessage {
        conversation_id,
        role: "assistant".to_string(),
        content,
        attached_document_ids: Vec::new(),
        citations,
        confidence,
    };
    (row, ConversationStatement::Touch { id: conversation_id })
}

/// Overwrite the conversation's pinned-document set.
///
/// `None` clears any explicit selection back to every complete document.
/// `Some(ids)` stores the chosen subset. The owner is part of the statement.
pub fn set_pinned_document_ids(
    user_id: Uuid,
    conversation_id: Uuid,
    pinned: Option<&[Uuid]>,
) -> (r: ConversationStatement)
    ensures
        r matches ConversationStatement::SetPinned { id, user_id: u, pinned: p } && id
            == conversation_id && u == user_id && match pinned {
            Some(ids) => p matches Some(v) && v@ == as_column(ids@),
            None => p is None,
        },
{
    let value = match pinned {
        Some(ids) => Some(id_column(ids)),
        None => None,
    };
    ConversationStatement::SetPinned { id: conversation_id, user_id, pinned: value }
}

/// How many conversations got a document set: none if the id does not exist or
/// belongs to someone else.
///
/// `AppError::Db` on write failure.
pub fn pinned_documents_set(reply: Result<usize, DbError>) -> (r: Result<usize, AppError>)
    ensures
        reply matches Ok(n) ==> r == Ok::<usize, AppError>(n),
        reply matches Err(e) ==> r == Err::<usize, AppError>(AppError::Db(e.text)),
{
    match reply {
        Ok(n) => Ok(n),
        Err(e) => Err(AppError::from(e)),
    }
}

/// Delete a conversation. The owner is part of the statement, so a stolen id
/// cannot drop another user's thread.
pub fn delete_conversation(user_id: Uuid, conversation_id: Uuid) -> (r: ConversationStatement)
    ensures
        r == (ConversationStatement::DeleteOwned { id: conversation_id, user_id }),
{
    ConversationStatement::DeleteOwned { id: conversation_id, user_id }
}

/// How many conversations a deletion removed: none if the id does not exist or
/// belongs to someone else.
///
/// `AppError::Db` on write failure.
pub fn conversation_deleted(reply: Result<usize, DbError>) -> (r: Result<usize, AppError>)
    ensures
        reply matches Ok(n) ==> r == Ok::<usize, AppError>(n),
        reply matches Err(e) ==> r == Err::<usize, AppError>(AppError::Db(e.text)),
{
    match reply {
        Ok(n) => Ok(n),
        Err(e) => Err(AppError::from(e)),
    }
}

// ---------------------------------------------------------------------------
// Titles
// ---------------------------------------------------------------------------
/// The first line of a message, without the white space around the message
/// and around the line.
pub open spec fn leading_line(content: Seq<char>) -> Seq<char> {
    trimmed(up_to(trimmed(content), '\n'))
}

/// The title that a message gives a conversation: its leading line, cut to
/// `AUTO_TITLE_MAX_CHARS` characters with an ellipsis behind the cut; the
/// default title if the line is empty.
pub open spec fn derived_title(content: Seq<char>) -> Seq<char> {
    let line = leading_line(content);
    if line.len() == 0 {
        DEFAULT_TITLE@
    } else if line.len() > AUTO_TITLE_MAX_CHARS {
        line.take(AUTO_TITLE_MAX_CHARS as int).push('…')
    } else {
        line
    }
}

/// Derive a short title from the first user message. Trims white space, takes
/// the leading line, and caps the character count.
pub fn derive_title(content: &str) -> (r: String)
    ensures
        r@ == derived_title(content@),
{
    let whole = trim(content);
    let line = trim(before_char(whole.as_str(), '\n').as_str());
    if line.as_str().is_empty() {
        return DEFAULT_TITLE.to_string();
    }
    let v = chars_of(line.as_str());
    if v.len() > AUTO_TITLE_MAX_CHARS {
        let mut out = text_between(&v, 0, AUTO_TITLE_MAX_CHARS);
        assert(v@.subrange(0, AUTO_TITLE_MAX_CHARS as int) =~= v@.take(
            AUTO_TITLE_MAX_CHARS as int,
        ));
        out.push('…');
        out
    } else {
        line
    }
}

// ---------------------------------------------------------------------------
// Laws
// ---------------------------------------------------------------------------
/// A statement made for one user neither shows nor changes a row of another,
/// whatever id it names.
pub proof fn rows_of_others_are_out_of_reach(
    s: ConversationStatement,
    user_id: Uuid,
    id: Uuid,
    row: ConversationRow,
    now: int,
)
    requires
        s == (ConversationStatement::ListOf { user_id }) || s == (
        ConversationStatement::LoadOwned { id, user_id }) || s == (
        ConversationStatement::DeleteOwned { id, user_id }) || (
        s matches ConversationStatement::SetPinned { id: i, user_id: u, .. } && i == id && u
            == user_id),
        row.user_id != user_id,
    ensures
        !s.answers(row),
        s.leaves(row, now) == Some(row),
{
}

/// A list of conversations holds each conversation of its user and no other,
/// the most recently updated first.
pub proof fn list_is_the_users_own_newest_first(
    user_id: Uuid,
    table: Set<ConversationRow>,
    rows: Seq<ConversationRow>,
)
    requires
        (ConversationStatement::ListOf { user_id }).is_answer(table, rows),
    ensures
        forall|row: ConversationRow|
            rows.contains(row) <==> table.contains(row) && row.user_id == user_id,
        forall|i: int, j: int| 0 <= i <= j < rows.len() ==> rows[i].updated_at >= rows[j].updated_at,
{
    assert forall|row: ConversationRow|
        rows.contains(row) <==> table.contains(row) && row.user_id == user_id by {
        let s = ConversationStatement::ListOf { user_id };
        assert(s.answers(row) == (row.user_id == user_id));
    }
}

/// A new conversation is one of its user's, under the default title and with no
/// document set chosen, and can be loaded by its user alone.
pub proof fn new_conversation_is_the_users_own(
    s: ConversationStatement,
    user_id: Uuid,
    other: Uuid,
    row: ConversationRow,
)
    requires
        s matches ConversationStatement::Insert { user_id: u, title } && u == user_id && title@
            == DEFAULT_TITLE@,
        s.creates(row),
        other != user_id,
    ensures
        row.title == DEFAULT_TITLE@,
        row.pinned is None,
        (ConversationStatement::ListOf { user_id }).answers(row),
        (ConversationStatement::LoadOwned { id: row.id, user_id }).answers(row),
        !(ConversationStatement::ListOf { user_id: other }).answers(row),
        !(ConversationStatement::LoadOwned { id: row.id, user_id: other }).answers(row),
{
}

/// A turn that is stored is part of its conversation's history, in the words
/// in which it was said.
pub proof fn stored_turn_joins_the_history(n: NewMessage, row: Message)
    requires
        MessageStatement::Insert(n).creates(row),
    ensures
        (MessageStatement::ListOf { conversation_id: n.conversation_id }).answers(row),
        row.role@ == n.role@,
        row.content@ == n.content@,
{
}

/// A list of messages holds each message of its conversation and no other,
/// the oldest first.
pub proof fn history_is_the_conversations_own_oldest_first(
    conversation_id: Uuid,
    table: Set<Message>,
    rows: Seq<Message>,
)
    requires
        (MessageStatement::ListOf { conversation_id }).is_answer(table, rows),
    ensures
        forall|row: Message|
            rows.contains(row) <==> table.contains(row) && row.conversation_id == conversation_id,
        forall|i: int, j: int| 0 <= i <= j < rows.len() ==> rows[i].created_at <= rows[j].created_at,
{
    assert forall|row: Message|
        rows.contains(row) <==> table.contains(row) && row.conversation_id == conversation_id by {
        let s = MessageStatement::ListOf { conversation_id };
        assert(s.answers(row) == (row.conversation_id == conversation_id));
    }
}

/// Deleting one's own conversation removes it and leaves every other one.
pub proof fn delete_removes_exactly_one(user_id: Uuid, id: Uuid, row: ConversationRow, now: int)
    ensures
        (ConversationStatement::DeleteOwned { id, user_id }).leaves(row, now) is None <==> row.id
            == id && row.user_id == user_id,
        (ConversationStatement::DeleteOwned { id, user_id }).leaves(row, now) matches Some(kept)
            ==> kept == row,
{
}

/// No two rows of a table have the same id.
pub open spec fn ids_are_unique(table: Set<ConversationRow>) -> bool {
    forall|a: ConversationRow, b: ConversationRow| #[trigger]
        table.contains(a) && #[trigger] table.contains(b) && a.id == b.id ==> a == b
}

/// The table holds a conversation of this id that belongs to this user.
pub open spec fn holds_owned(table: Set<ConversationRow>, id: Uuid, user_id: Uuid) -> bool {
    exists|row: ConversationRow| #[trigger]
        table.contains(row) && (ConversationStatement::LoadOwned { id, user_id }).answers(row)
}

/// A statement that writes the rows of one id and owner writes one row if there
/// is such a row, and none otherwise.
proof fn lemma_owned_is_one(
    s: ConversationStatement,
    user_id: Uuid,
    id: Uuid,
    table: Set<ConversationRow>,
)
    requires
        ids_are_unique(table),
        forall|row: ConversationRow| #[trigger]
            s.writes(row) <==> row.id == id && row.user_id == user_id,
    ensures
        s.written(table).len() == (if holds_owned(table, id, user_id) {
            1nat
        } else {
            0nat
        }),
{
    let load = ConversationStatement::LoadOwned { id, user_id };
    if holds_owned(table, id, user_id) {
        let row = choose|row: ConversationRow| #[trigger]
            table.contains(row) && load.answers(row);
        assert(s.writes(row));
        assert(s.written(table) =~= set![row]);
    } else {
        assert forall|row: ConversationRow| !s.written(table).contains(row) by {
            if s.written(table).contains(row) {
                assert(s.writes(row));
                assert(load.answers(row));
            }
        }
        assert(s.written(table) =~= Set::empty());
    }
}

/// A statement changes the rows that it writes and no others.
pub proof fn rows_not_written_stay(s: ConversationStatement, row: ConversationRow, now: int)
    requires
        !s.writes(row),
    ensures
        s.leaves(row, now) == Some(row),
{
}

/// A deletion removes one row if the user owns a conversation of that id, and
/// none otherwise; every other row stays.
pub proof fn deletion_counts_what_it_removes(
    user_id: Uuid,
    id: Uuid,
    table: Set<ConversationRow>,
    now: int,
)
    requires
        ids_are_unique(table),
    ensures
        ({
            let s = ConversationStatement::DeleteOwned { id, user_id };
            &&& s.written(table).len() == (if holds_owned(table, id, user_id) {
                1nat
            } else {
                0nat
            })
            &&& forall|row: ConversationRow| #[trigger]
                table.contains(row) ==> s.leaves(row, now) == (if s.written(table).contains(row) {
                    None
                } else {
                    Some(row)
                })
        }),
{
    lemma_owned_is_one(ConversationStatement::DeleteOwned { id, user_id }, user_id, id, table);
}

/// Pinning sets one row if the user owns a conversation of that id, and none
/// otherwise. The row that it sets holds the chosen set, in order, and the time
/// of the change, and is otherwise as it was: no set chosen and a set with
/// nothing in it stay apart. Every other row stays.
pub proof fn pinning_counts_what_it_sets(
    s: ConversationStatement,
    user_id: Uuid,
    id: Uuid,
    ids: Option<Seq<Uuid>>,
    table: Set<ConversationRow>,
    now: int,
)
    requires
        ids_are_unique(table),
        s matches ConversationStatement::SetPinned { id: i, user_id: u, pinned: p } && i == id && u
            == user_id && match ids {
            Some(v) => p matches Some(w) && w@ == as_column(v),
            None => p is None,
        },
    ensures
        s.written(table).len() == (if holds_owned(table, id, user_id) {
            1nat
        } else {
            0nat
        }),
        forall|row: ConversationRow| #[trigger]
            table.contains(row) ==> s.leaves(row, now) == Some(
                if s.written(table).contains(row) {
                    ConversationRow {
                        pinned: match ids {
                            Some(v) => Some(as_column(v)),
                            None => None,
                        },
                        updated_at: now,
                        ..row
                    }
                } else {
                    row
                },
            ),
{
    lemma_owned_is_one(s, user_id, id, table);
}

/// Messages are read through the conversation that was loaded for its user:
/// they are those of a conversation of that user, and someone else does not
/// get as far.
pub proof fn messages_go_to_the_owner_alone(
    user_id: Uuid,
    id: Uuid,
    other: Uuid,
    conversation: Conversation,
    row: Message,
)
    requires
        (ConversationStatement::LoadOwned { id, user_id }).answers(conversation@),
        (MessageStatement::ListOf { conversation_id: conversation.id }).answers(row),
        other != user_id,
    ensures
        row.conversation_id == id,
        conversation.user_id == user_id,
        !(ConversationStatement::LoadOwned { id, user_id: other }).answers(conversation@),
{
}

/// What was pinned is what the conversation holds afterwards; its title and
/// its owner stay.
pub proof fn pinned_set_is_stored(
    s: ConversationStatement,
    user_id: Uuid,
    id: Uuid,
    ids: Option<Seq<Uuid>>,
    row: ConversationRow,
    now: int,
)
    requires
        s matches ConversationStatement::SetPinned { id: i, user_id: u, pinned: p } && i == id && u
            == user_id && match ids {
            Some(v) => p matches Some(w) && w@ == as_column(v),
            None => p is None,
        },
        row.id == id,
        row.user_id == user_id,
    ensures
        s.leaves(row, now) matches Some(after) && after.pinned == (match ids {
            Some(v) => Some(as_column(v)),
            None => None,
        }) && after.title == row.title && after.user_id == row.user_id && after.id == row.id,
{
}

/// A title that is not the default survives every further message.
pub proof fn chosen_title_survives(
    s: ConversationStatement,
    row: ConversationRow,
    content: Seq<char>,
    now: int,
)
    requires
        follows_user_message(s, row, content),
        row.title != DEFAULT_TITLE@,
    ensures
        s.leaves(row, now) == Some(ConversationRow { updated_at: now, ..row }),
{
}

/// The first message with any text in it names the conversation, and changes
/// nothing else but the time of update.
pub proof fn first_message_names_the_conversation(
    s: ConversationStatement,
    row: ConversationRow,
    content: Seq<char>,
    now: int,
)
    requires
        follows_user_message(s, row, content),
        row.title == DEFAULT_TITLE@,
    ensures
        s.leaves(row, now) == Some(
            ConversationRow { title: derived_title(content), updated_at: now, ..row },
        ),
{
}

proof fn lemma_up_to_cut(s: Seq<char>, c: char) -> (k: int)
    ensures
        0 <= k <= s.len(),
        up_to(s, c) == s.subrange(0, k),
        forall|i: int| 0 <= i < k ==> s[i] != c,
        k < s.len() ==> s[k] == c,
    decreases s.len(),
{
    if s.len() == 0 || s[0] == c {
        assert(up_to(s, c) =~= s.subrange(0, 0));
        0
    } else {
        let t = s.drop_first();
        let k = lemma_up_to_cut(t, c);
        assert(up_to(s, c) =~= s.subrange(0, k + 1));
        assert forall|i: int| 0 <= i < k + 1 implies s[i] != c by {
            if i > 0 {
                assert(t[i - 1] == s[i]);
            }
        }
        if k < t.len() {
            assert(t[k] == s[k + 1]);
        }
        k + 1
    }
}

/// A title is never empty, at most the cap and an ellipsis long, and one line.
pub proof fn title_is_short_and_one_line(content: Seq<char>)
    ensures
        0 < derived_title(content).len() <= AUTO_TITLE_MAX_CHARS + 1,
        !derived_title(content).contains('\n'),
        leading_line(content).len() > AUTO_TITLE_MAX_CHARS ==> derived_title(content).last() == '…',
{
    reveal_strlit("New conversation");
    let whole = trimmed(content);
    let k = lemma_up_to_cut(whole, '\n');
    let u = up_to(whole, '\n');
    let (a, b) = crate::text::lemma_trimmed_cut(u);
    let line = leading_line(content);
    let t = derived_title(content);
    if t.contains('\n') {
        let j = choose|j: int| 0 <= j < t.len() && t[j] == '\n';
        if line.len() > 0 && j < AUTO_TITLE_MAX_CHARS {
            assert(t[j] == line[j]);
            assert(line[j] == u[a + j]);
            assert(u[a + j] == whole[a + j]);
        }
    }
}

/// A message that holds anything but white space gives a title that begins
/// with its first character that is not white space; a blank one leaves the
/// default.
pub proof fn title_begins_as_the_message_does(content: Seq<char>)
    ensures
        trimmed(content).len() == 0 ==> derived_title(content) == DEFAULT_TITLE@,
        trimmed(content).len() > 0 ==> derived_title(content)[0] == trimmed(content)[0],
{
    let whole = trimmed(content);
    let (a, b) = crate::text::lemma_trimmed_cut(content);
    let k = lemma_up_to_cut(whole, '\n');
    let u = up_to(whole, '\n');
    let (c, d) = crate::text::lemma_trimmed_cut(u);
    if whole.len() > 0 {
        assert(whole[0] == content[a]);
        assert(!crate::text::is_white(whole[0]));
        assert(u[0] == whole[0]);
        assert(c == 0);
        assert(d > 0);
        assert(leading_line(content)[0] == whole[0]);
    }
}

/// The leading line of a message is its first line that holds anything, whatever
/// white space stands before it, behind it on its line and behind the whole. It
/// is the title if it is short enough; a longer one is cut, and an ellipsis
/// stands for the rest.
pub proof fn title_is_the_first_line(
    pad: Seq<char>,
    line: Seq<char>,
    gap: Seq<char>,
    tail: Seq<char>,
)
    requires
        forall|i: int| 0 <= i < pad.len() ==> crate::text::is_white(#[trigger] pad[i]),
        forall|i: int| 0 <= i < gap.len() ==> crate::text::is_white(#[trigger] gap[i]),
        !line.contains('\n'),
        !gap.contains('\n'),
        line.len() > 0,
        !crate::text::is_white(line[0]),
        !crate::text::is_white(line.last()),
        tail.len() == 0 || tail[0] == '\n',
    ensures
        line.len() <= 80 ==> derived_title(pad + line + gap + tail) == line,
        line.len() > 80 ==> derived_title(pad + line + gap + tail) == line.subrange(0, 80).push(
            '…',
        ),
{
    let content = pad + line + gap + tail;
    let n = pad.len() as int;
    let m = line.len() as int;
    let g = gap.len() as int;
    let (a, b) = crate::text::lemma_trimmed_cut(content);
    assert(content[n] == line[0]);
    assert(content[n + m - 1] == line[m - 1]);
    assert(a < b) by {
        if a == b {
            assert(crate::text::is_white(content[n]));
        }
    }
    assert(a <= n) by {
        if a > n {
            assert(crate::text::is_white(content[n]));
        }
    }
    assert(a == n) by {
        if a < n {
            assert(content[a] == pad[a]);
        }
    }
    assert(b >= n + m) by {
        if b < n + m {
            assert(crate::text::is_white(content[n + m - 1]));
        }
    }
    let whole = trimmed(content);
    let k = lemma_up_to_cut(whole, '\n');
    assert(m <= k) by {
        if k < m {
            assert(whole[k] == content[n + k]);
            assert(content[n + k] == line[k]);
            assert(line.contains('\n'));
        }
    }
    assert(k <= m + g) by {
        if k > m + g {
            assert(whole[m + g] == content[n + m + g]);
            assert(content[n + m + g] == tail[0]);
        }
    }
    let u = up_to(whole, '\n');
    let rest = gap.subrange(0, k - m);
    assert forall|i: int| 0 <= i < u.len() implies u[i] == (line + rest)[i] by {
        assert(u[i] == whole[i]);
        assert(whole[i] == content[n + i]);
    }
    assert(u =~= Seq::<char>::empty() + line + rest);
    assert forall|i: int| 0 <= i < rest.len() implies crate::text::is_white(#[trigger] rest[i]) by {
        assert(rest[i] == gap[i]);
    }
    crate::text::padding_does_not_count(Seq::empty(), line, rest);
    crate::text::lemma_trimmed_identity(line);
    assert(leading_line(content) == line);
    assert(line.take(80) =~= line.subrange(0, 80));
}

/// The title of a fresh conversation is not overlooked as one that the user
/// chose: a message gives a title exactly where the default stands.
pub proof fn only_the_default_title_gives_way(
    s: ConversationStatement,
    row: ConversationRow,
    content: Seq<char>,
)
    requires
        follows_user_message(s, row, content),
    ensures
        s is Retitle <==> row.title == "New conversation"@,
        s is Touch <==> row.title != "New conversation"@,
        s.writes(row),
{
}

/// A query for a conversation fails in the same way if it is not there and if it
/// is someone else's; every other failure is told as it came, and a row that was
/// found is handed on.
pub proof fn only_a_missing_conversation_is_not_found(reply: Result<Conversation, DbError>)
    ensures
        reply matches Ok(c) ==> loaded(reply) == Ok::<Conversation, AppErrorView>(c),
        reply matches Err(e) ==> (loaded(reply) matches Err(f) && f.message() == (if e.kind
            == DbErrorKind::NotFound {
            "conversation not found"@
        } else {
            "database error: "@ + e.text@
        })),
{
}

/// A column takes the identifiers one for one, in order, and leaves no gap.
pub proof fn columns_take_every_identifier(ids: Seq<Uuid>)
    ensures
        as_column(ids).len() == ids.len(),
        forall|i: int| 0 <= i < ids.len() ==> #[trigger] as_column(ids)[i] == Some(ids[i]),
{
}

/// A turn is stored with all that was given for it.
pub proof fn stored_turn_is_whole(n: NewMessage, row: Message)
    requires
        MessageStatement::Insert(n).creates(row),
    ensures
        row.conversation_id == n.conversation_id,
        row.role@ == n.role@,
        row.content@ == n.content@,
        row.attached_document_ids@ == n.attached_document_ids@,
        row.confidence == n.confidence,
        row.citations matches CitationsColumn::Items(records) && records@ == n.citations@,
{
}

/// A conversation's row holds what the conversation holds, member by member: no
/// set chosen and a set with nothing in it stay apart.
pub proof fn conversations_are_read_whole(c: Conversation)
    ensures
        c@.id == c.id,
        c@.user_id == c.user_id,
        c@.title == c.title@,
        c@.created_at == c.created_at,
        c@.updated_at == c.updated_at,
        c@.pinned is None <==> c.pinned_document_ids is None,
        c.pinned_document_ids matches Some(column) ==> c@.pinned == Some(column@),
{
}

} // verus!
