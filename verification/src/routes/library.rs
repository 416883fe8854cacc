//! Library page: per-user document uploads.
//!
//! An upload is stored, recorded and queued for indexing; a deletion takes it
//! out of the index, the store and the table. Each handler stands here as its
//! steps: every step takes the reply of the service before it and says what to
//! do next, or how the request ends.
use crate::error::{optional, AppError, AppErrorView, DbError, DbErrorKind};
use crate::grpc::{
    delete_document, enqueue_index, get_document_status, DeleteDocumentRequest,
    EnqueueIndexRequest, GetDocumentStatusRequest, GetDocumentStatusResponse,
};
use crate::ident::{hyphenated_form, is_version_4, simple_form, Uuid};
use crate::minio_client::{
    content_type_to_ext, extension_of, key_of, object_key, put_bytes, StorageError,
};
use crate::routes::{
    app_failure, connected, failed, failure, http_error, login_required, HttpError, BAD_REQUEST,
    INTERNAL_SERVER_ERROR, PAYLOAD_TOO_LARGE, UNAUTHORIZED,
};
use crate::text::{
    concat2, concat3, decimal, decimal_text, given_or, optional_text, same_text, signed_decimal,
    signed_decimal_text, text_or,
};
use vstd::prelude::*;

verus! {

// ---------------------------------------------------------------------------
// Rows
// ---------------------------------------------------------------------------
/// A document row. Times are microseconds since the epoch.
#[derive(Debug, Clone, PartialEq, Eq)]
pub struct IngestedDocument {
    pub id: Uuid,
    pub user_id: Uuid,
    pub minio_object_key: String,
    pub source_filename: String,
    pub content_type: String,
    pub size_bytes: i64,
    pub sha256: Option<String>,
    pub n_pages: Option<i32>,
    pub n_chunks: Option<i32>,
    pub ingest_status: String,
    pub error_message: Option<String>,
    pub created_at: i64,
    pub updated_at: i64,
}

/// A document row as a value.
pub struct DocumentRow {
    pub id: Uuid,
    pub user_id: Uuid,
    pub minio_object_key: Seq<char>,
    pub source_filename: Seq<char>,
    pub content_type: Seq<char>,
    pub size_bytes: int,
    pub sha256: Option<Seq<char>>,
    pub n_pages: Option<i32>,
    pub n_chunks: Option<i32>,
    pub ingest_status: Seq<char>,
    pub error_message: Option<Seq<char>>,
    pub created_at: int,
    pub updated_at: int,
}

impl View for IngestedDocument {
    type V = DocumentRow;

    open spec fn view(&self) -> DocumentRow {
        DocumentRow {
            id: self.id,
            user_id: self.user_id,
            minio_object_key: self.minio_object_key@,
            source_filename: self.source_filename@,
            content_type: self.content_type@,
            size_bytes: self.size_bytes as int,
            sha256: optional_text(self.sha256),
            n_pages: self.n_pages,
            n_chunks: self.n_chunks,
            ingest_status: self.ingest_status@,
            error_message: optional_text(self.error_message),
            created_at: self.created_at as int,
            updated_at: self.updated_at as int,
        }
    }
}

/// A document row to be stored.
#[derive(Debug, Clone, PartialEq, Eq)]
pub struct NewIngestedDocument {
    pub user_id: Uuid,
    pub minio_object_key: String,
    pub source_filename: String,
    pub content_type: String,
    pub size_bytes: i64,
    pub ingest_status: String,
}

/// What a row is set to when the indexer has reported.
#[derive(Debug, Clone, PartialEq, Eq)]
pub struct StatusPatch {
    pub ingest_status: String,
    pub sha256: Option<String>,
    pub n_pages: Option<i32>,
    pub n_chunks: Option<i32>,
    pub error_message: Option<String>,
}

/// What the library shows of a document.
#[derive(Clone, Debug, PartialEq, Eq)]
pub struct IngestedDocumentView {
    pub id: Uuid,
    pub source_filename: String,
    pub ingest_status: String,
    pub n_pages: Option<i32>,
    pub n_chunks: Option<i32>,
}

// ---------------------------------------------------------------------------
// Statements
// ---------------------------------------------------------------------------
/// What is asked of the documents table.
#[derive(Debug, Clone, PartialEq, Eq)]
pub enum DocumentStatement {
    /// Every row of an owner, the newest first.
    ListOf { user_id: Uuid },
    /// The row with this id and this owner.
    LoadOwned { id: Uuid, user_id: Uuid },
    /// A new row.
    Insert(NewIngestedDocument),
    /// The row with this id and this owner goes.
    DeleteOwned { id: Uuid, user_id: Uuid },
    /// The row takes the patch, and its time of update becomes now.
    SetStatus { id: Uuid, patch: StatusPatch },
    /// Id and object key of each complete document of an owner.
    CompleteOf { user_id: Uuid },
    /// Id and object key of each complete document of an owner among these.
    CompleteAmong { user_id: Uuid, ids: Vec<Uuid> },
    /// Id, filename and status of every row of an owner, the newest first.
    LibraryEntriesOf { user_id: Uuid },
}

impl DocumentStatement {
    /// Whether the row is one that the statement adds to the table.
    pub open spec fn creates(self, row: DocumentRow) -> bool {
        self matches DocumentStatement::Insert(n) && row.user_id == n.user_id
            && row.minio_object_key == n.minio_object_key@ && row.source_filename
            == n.source_filename@ && row.content_type == n.content_type@ && row.size_bytes
            == n.size_bytes && row.ingest_status == n.ingest_status@
    }

    /// Whether the statement's answer speaks of the row.
    pub open spec fn answers(self, row: DocumentRow) -> bool {
        match self {
            DocumentStatement::ListOf { user_id } => row.user_id == user_id,
            DocumentStatement::LoadOwned { id, user_id } => row.id == id && row.user_id == user_id,
            DocumentStatement::CompleteOf { user_id } => row.user_id == user_id
                && row.ingest_status == "complete"@,
            DocumentStatement::CompleteAmong { user_id, ids } => row.user_id == user_id
                && ids@.contains(row.id) && row.ingest_status == "complete"@,
            DocumentStatement::LibraryEntriesOf { user_id } => row.user_id == user_id,
            _ => false,
        }
    }

    /// What the statement, run at `now`, makes of a stored row; `None` if the
    /// row goes.
    pub open spec fn leaves(self, row: DocumentRow, now: int) -> Option<DocumentRow> {
        match self {
            DocumentStatement::DeleteOwned { id, user_id } => if row.id == id && row.user_id
                == user_id {
                None
            } else {
                Some(row)
            },
            DocumentStatement::SetStatus { id, patch } => if row.id == id {
                Some(
                    DocumentRow {
                        ingest_status: patch.ingest_status@,
                        sha256: optional_text(patch.sha256),
                        n_pages: patch.n_pages,
                        n_chunks: patch.n_chunks,
                        error_message: optional_text(patch.error_message),
                        updated_at: now,
                        ..row
                    },
                )
            } else {
                Some(row)
            },
            _ => Some(row),
        }
    }
}

impl DocumentStatement {
    /// Whether the statement lists rows in falling order of the time of
    /// creation.
    pub open spec fn lists_newest_first(self) -> bool {
        self is ListOf || self is LibraryEntriesOf
    }

    /// Whether `rows` are those that the statement's answer speaks of on a
    /// table: each of them, once, in the order that the statement asks for.
    pub open spec fn is_answer(self, table: Set<DocumentRow>, rows: Seq<DocumentRow>) -> bool {
        &&& rows.no_duplicates()
        &&& forall|row: DocumentRow| #[trigger]
            rows.contains(row) <==> table.contains(row) && self.answers(row)
        &&& self.lists_newest_first() ==> forall|i: int, j: int|
            0 <= i <= j < rows.len() ==> (#[trigger] rows[i]).created_at >= (
            #[trigger] rows[j]).created_at
    }
}

// ---------------------------------------------------------------------------
// The list
// ---------------------------------------------------------------------------
/// The query for a user's documents, the newest first.
pub fn list_documents(owner: Uuid) -> (r: DocumentStatement)
    ensures
        r == (DocumentStatement::ListOf { user_id: owner }),
{
    DocumentStatement::ListOf { user_id: owner }
}

/// The documents that the query returned, or the text of the server error.
pub fn documents_listed(reply: Result<Vec<IngestedDocument>, DbError>) -> (r: Result<
    Vec<IngestedDocument>,
    String,
>)
    ensures
        reply matches Ok(docs) ==> r == Ok::<Vec<IngestedDocument>, String>(docs),
        reply matches Err(e) ==> (r matches Err(t) && t@ == failed(
            "list docs"@,
            AppErrorView::Db(e.text@).message(),
        )),
{
    match reply {
        Ok(docs) => Ok(docs),
        Err(e) => Err(app_failure("list docs", &AppError::from(e))),
    }
}

/// A document whose indexing has neither completed nor failed.
pub open spec fn in_flight(row: DocumentRow) -> bool {
    row.ingest_status != "complete"@ && row.ingest_status != "failed"@
}

/// A question to the agent about one document.
#[derive(Debug, Clone, PartialEq, Eq)]
pub struct StatusCheck {
    pub document_id: Uuid,
    pub request: GetDocumentStatusRequest,
}

/// The documents among `docs` that are in flight, in order.
pub open spec fn in_flight_among(docs: Seq<IngestedDocument>) -> Seq<IngestedDocument>
    decreases docs.len(),
{
    if docs.len() == 0 {
        Seq::empty()
    } else {
        let front = in_flight_among(docs.drop_last());
        if in_flight(docs.last()@) {
            front.push(docs.last())
        } else {
            front
        }
    }
}

/// The check asks about the document, for its owner.
pub open spec fn asks_about(c: StatusCheck, user_id: Uuid, doc: IngestedDocument) -> bool {
    &&& c.document_id == doc.id
    &&& c.request.user_id@ == simple_form(user_id.value)
    &&& c.request.minio_object_key@ == doc.minio_object_key@
}

/// Which documents to ask the agent about before the list is shown: those in
/// flight, and no others.
pub fn status_checks(user_id: Uuid, docs: &Vec<IngestedDocument>) -> (r: Vec<StatusCheck>)
    ensures
        r@.len() == in_flight_among(docs@).len(),
        forall|i: int|
            0 <= i < r@.len() ==> asks_about(#[trigger] r@[i], user_id, in_flight_among(docs@)[i]),
{
    let user = user_id.simple();
    let mut out: Vec<StatusCheck> = Vec::new();
    let mut i: usize = 0;
    while i < docs.len()
        invariant
            i <= docs@.len(),
            user@ == simple_form(user_id.value),
            out@.len() == in_flight_among(docs@.take(i as int)).len(),
            forall|j: int|
                0 <= j < out@.len() ==> asks_about(
                    #[trigger] out@[j],
                    user_id,
                    in_flight_among(docs@.take(i as int))[j],
                ),
        decreases docs@.len() - i,
    {
        proof {
            assert(docs@.take(i + 1).drop_last() =~= docs@.take(i as int));
        }
        let status = docs[i].ingest_status.as_str();
        if !same_text(status, "complete") && !same_text(status, "failed") {
            out.push(
                StatusCheck {
                    document_id: docs[i].id,
                    request: get_document_status(user.as_str(), docs[i].minio_object_key.as_str()),
                },
            );
        }
        i = i + 1;
    }
    assert(docs@.take(docs@.len() as int) =~= docs@);
    out
}

/// The count as the table holds it: unknown where the agent reports zero, and
/// otherwise the lower 32 bits read with a sign.
pub open spec fn stored_count(n: u32) -> Option<i32> {
    if n == 0 {
        None
    } else if n <= i32::MAX {
        Some(n as i32)
    } else {
        Some((n - 0x1_0000_0000) as i32)
    }
}

fn count_column(n: u32) -> (r: Option<i32>)
    ensures
        r == stored_count(n),
{
    if n == 0 {
        None
    } else if n <= 0x7FFF_FFFF {
        Some(n as i32)
    } else {
        Some(((n as i64) - 0x1_0000_0000) as i32)
    }
}

/// The text as the table holds it: unknown where the agent reports none.
pub open spec fn stored_text(s: Seq<char>) -> Option<Seq<char>> {
    if s.len() == 0 {
        None
    } else {
        Some(s)
    }
}

fn text_column(s: &String) -> (r: Option<String>)
    ensures
        optional_text(r) == stored_text(s@),
{
    if s.as_str().is_empty() {
        None
    } else {
        Some(s.clone())
    }
}

/// The statement sets a document's row to what the agent reported.
pub open spec fn records_status(
    s: DocumentStatement,
    document_id: Uuid,
    status: GetDocumentStatusResponse,
) -> bool {
    &&& s matches DocumentStatement::SetStatus { id, patch }
    &&& id == document_id
    &&& patch.ingest_status@ == status.state@
    &&& optional_text(patch.sha256) == stored_text(status.sha256@)
    &&& patch.n_pages == stored_count(status.n_pages)
    &&& patch.n_chunks == stored_count(status.n_chunks)
    &&& optional_text(patch.error_message) == stored_text(status.error_message@)
}

/// Record what the agent reported of a document.
pub fn update_document_status(id: Uuid, status: &GetDocumentStatusResponse) -> (r:
    DocumentStatement)
    ensures
        records_status(r, id, *status),
{
    DocumentStatement::SetStatus {
        id,
        patch: StatusPatch {
            ingest_status: status.state.clone(),
            sha256: text_column(&status.sha256),
            n_pages: count_column(status.n_pages),
            n_chunks: count_column(status.n_chunks),
            error_message: text_column(&status.error_message),
        },
    }
}

/// What is recorded when the agent has replied to a check; nothing if it could
/// not be asked.
pub fn status_reply(check: &StatusCheck, reply: Result<GetDocumentStatusResponse, String>) -> (r:
    Option<DocumentStatement>)
    ensures
        reply is Err ==> r is None,
        reply matches Ok(status) ==> (r matches Some(s) && records_status(
            s,
            check.document_id,
            status,
        )),
{
    match reply {
        Ok(status) => Some(update_document_status(check.document_id, &status)),
        Err(_) => None,
    }
}

/// What the list shows of a row.
pub open spec fn shows(v: IngestedDocumentView, doc: IngestedDocument) -> bool {
    &&& v.id == doc.id
    &&& v.source_filename == doc.source_filename
    &&& v.ingest_status == doc.ingest_status
    &&& v.n_pages == doc.n_pages
    &&& v.n_chunks == doc.n_chunks
}

/// The rows as the library page shows them, in order. They come from the query
/// that follows the status checks.
pub fn list_documents_action(reply: Result<Vec<IngestedDocument>, DbError>) -> (r: Result<
    Vec<IngestedDocumentView>,
    String,
>)
    ensures
        reply matches Ok(docs) ==> (r matches Ok(views) && views@.len() == docs@.len()
            && forall|i: int| 0 <= i < docs@.len() ==> shows(#[trigger] views@[i], docs@[i])),
        reply matches Err(e) ==> (r matches Err(t) && t@ == failed(
            "list docs"@,
            AppErrorView::Db(e.text@).message(),
        )),
{
    let docs = match documents_listed(reply) {
        Ok(d) => d,
        Err(t) => {
            return Err(t);
        },
    };
    let mut out: Vec<IngestedDocumentView> = Vec::new();
    let mut i: usize = 0;
    while i < docs.len()
        invariant
            i <= docs@.len(),
            out@.len() == i,
            forall|j: int| 0 <= j < i ==> shows(#[trigger] out@[j], docs@[j]),
        decreases docs@.len() - i,
    {
        let d = &docs[i];
        out.push(
            IngestedDocumentView {
                id: d.id,
                source_filename: d.source_filename.clone(),
                ingest_status: d.ingest_status.clone(),
                n_pages: d.n_pages,
                n_chunks: d.n_chunks,
            },
        );
        i = i + 1;
    }
    Ok(out)
}

// ---------------------------------------------------------------------------
// The page
// ---------------------------------------------------------------------------
/// One line of the document table.
#[derive(Debug, Clone, PartialEq, Eq)]
pub struct TableRow {
    pub name: String,
    pub status: String,
    /// The style of the status: its colour.
    pub status_style: String,
    pub pages: String,
    pub chunks: String,
    /// The value that the line's delete form sends.
    pub document_id: String,
}

/// The colour of a status: green for a complete document, red for a failed
/// one, amber for every other.
pub open spec fn status_color(status: Seq<char>) -> Seq<char> {
    if status == "complete"@ {
        "#0a0"@
    } else if status == "failed"@ {
        "#c00"@
    } else {
        "#aa7700"@
    }
}

/// A count as the table shows it: in decimal, or nothing where it is unknown.
pub open spec fn count_shown(n: Option<i32>) -> Seq<char> {
    match n {
        Some(k) => signed_decimal(k as int),
        None => Seq::empty(),
    }
}

fn count_text(n: Option<i32>) -> (r: String)
    ensures
        r@ == count_shown(n),
{
    match n {
        Some(k) => signed_decimal_text(k),
        None => String::new(),
    }
}

/// The line shows the document.
pub open spec fn row_shows(row: TableRow, doc: IngestedDocumentView) -> bool {
    &&& row.name == doc.source_filename
    &&& row.status == doc.ingest_status
    &&& row.status_style@ == "color: "@ + status_color(doc.ingest_status@) + ";"@
    &&& row.pages@ == count_shown(doc.n_pages)
    &&& row.chunks@ == count_shown(doc.n_chunks)
    &&& row.document_id@ == hyphenated_form(doc.id.value)
}

fn table_row(doc: &IngestedDocumentView) -> (r: TableRow)
    ensures
        row_shows(r, *doc),
{
    let status = doc.ingest_status.as_str();
    let color = if same_text(status, "complete") {
        "#0a0"
    } else if same_text(status, "failed") {
        "#c00"
    } else {
        "#aa7700"
    };
    TableRow {
        name: doc.source_filename.clone(),
        status: doc.ingest_status.clone(),
        status_style: concat3("color: ", color, ";"),
        pages: count_text(doc.n_pages),
        chunks: count_text(doc.n_chunks),
        document_id: doc.id.hyphenated(),
    }
}

/// The lines of the document table, one for each document, in order.
pub fn document_table(docs: &Vec<IngestedDocumentView>) -> (r: Vec<TableRow>)
    ensures
        r@.len() == docs@.len(),
        forall|i: int| 0 <= i < docs@.len() ==> row_shows(#[trigger] r@[i], docs@[i]),
{
    let mut out: Vec<TableRow> = Vec::new();
    let mut i: usize = 0;
    while i < docs.len()
        invariant
            i <= docs@.len(),
            out@.len() == i,
            forall|j: int| 0 <= j < i ==> row_shows(#[trigger] out@[j], docs@[j]),
        decreases docs@.len() - i,
    {
        out.push(table_row(&docs[i]));
        i = i + 1;
    }
    out
}

/// What the library page shows below the upload form.
#[derive(Debug, Clone, PartialEq, Eq)]
pub enum LibraryView {
    /// A line of text: there are no documents.
    Empty(String),
    Table(Vec<TableRow>),
    /// A line of text in red.
    Failed(String),
}

/// The library page for the outcome of the list.
#[allow(non_snake_case)]
pub fn LibraryPage(documents: Result<Vec<IngestedDocumentView>, String>) -> (r: LibraryView)
    ensures
        documents matches Ok(docs) ==> if docs@.len() == 0 {
            r matches LibraryView::Empty(t) && t@ == "No documents yet. Upload one above."@
        } else {
            r matches LibraryView::Table(rows) && rows@.len() == docs@.len() && forall|i: int|
                0 <= i < docs@.len() ==> row_shows(#[trigger] rows@[i], docs@[i])
        },
        documents matches Err(e) ==> (r matches LibraryView::Failed(t) && t@
            == "Error loading documents: "@ + e@),
{
    match documents {
        Ok(docs) => if docs.len() == 0 {
            LibraryView::Empty("No documents yet. Upload one above.".to_string())
        } else {
            LibraryView::Table(document_table(&docs))
        },
        Err(e) => LibraryView::Failed(concat2("Error loading documents: ", e.as_str())),
    }
}

// ---------------------------------------------------------------------------
// Upload
// ---------------------------------------------------------------------------
/// The largest upload, in MiB.
pub const MAX_UPLOAD_MB: u64 = 100;

/// The largest upload, in bytes.
pub open spec fn max_upload_bytes() -> nat {
    (MAX_UPLOAD_MB * 1024 * 1024) as nat
}

/// An upload whose sender is known: the form's first field is read next.
#[derive(Debug, Clone, PartialEq, Eq)]
pub struct UploadBegun {
    pub user_id: Uuid,
}

/// What the headers of a form field say.
#[derive(Debug, Clone, PartialEq, Eq)]
pub struct FieldHead {
    pub file_name: Option<String>,
    pub content_type: Option<String>,
}

/// An upload whose name and type are known: the field's bytes are read next.
#[derive(Debug, Clone, PartialEq, Eq)]
pub struct UploadNamed {
    pub user_id: Uuid,
    pub file_name: String,
    pub content_type: String,
}

/// An upload that has been read and is within the limit.
#[derive(Debug, Clone, PartialEq, Eq)]
pub struct UploadRead {
    pub user_id: Uuid,
    pub file_name: String,
    pub content_type: String,
    pub bytes: Vec<u8>,
}

/// An upload that has its key: the bytes are put into the store next.
#[derive(Debug, Clone, PartialEq, Eq)]
pub struct UploadPlaced {
    pub user_id: Uuid,
    pub file_name: String,
    pub content_type: String,
    pub size: i64,
    pub key: String,
    pub bytes: Vec<u8>,
}

/// An upload that lies in the store: its row is inserted next.
#[derive(Debug, Clone, PartialEq, Eq)]
pub struct UploadStored {
    pub user_id: Uuid,
    pub file_name: String,
    pub content_type: String,
    pub size: i64,
    pub key: String,
}

/// An upload that has its row: the agent is asked to index it next.
#[derive(Debug, Clone, PartialEq, Eq)]
pub struct UploadRecorded {
    pub document_id: Uuid,
    pub request: EnqueueIndexRequest,
}

/// An upload begins with the session's user: status 401 without one.
pub fn upload_handler(user: Option<Uuid>) -> (r: Result<UploadBegun, HttpError>)
    ensures
        user matches Some(u) ==> r == Ok::<UploadBegun, HttpError>(UploadBegun { user_id: u }),
        user is None ==> (r matches Err(e) && e.is(UNAUTHORIZED, "login required"@)),
{
    match login_required(user) {
        Ok(user_id) => Ok(UploadBegun { user_id }),
        Err(e) => Err(e),
    }
}

impl UploadBegun {
    /// The first field names the file and its type. Status 400 if the form
    /// cannot be parsed or has no field.
    pub fn field(self, next: Result<Option<FieldHead>, String>) -> (r: Result<
        UploadNamed,
        HttpError,
    >)
        ensures
            next matches Ok(Some(head)) ==> (r matches Ok(u) && u.user_id == self.user_id
                && u.file_name@ == text_or(head.file_name, "upload.bin"@) && u.content_type@
                == text_or(head.content_type, "application/octet-stream"@)),
            next matches Ok(None) ==> (r matches Err(e) && e.is(
                BAD_REQUEST,
                "no file field in form"@,
            )),
            next matches Err(t) ==> (r matches Err(e) && e.is(
                BAD_REQUEST,
                failed("multipart parse"@, t@),
            )),
    {
        match next {
            Ok(Some(head)) => Ok(
                UploadNamed {
                    user_id: self.user_id,
                    file_name: given_or(head.file_name, "upload.bin"),
                    content_type: given_or(head.content_type, "application/octet-stream"),
                },
            ),
            Ok(None) => Err(http_error(BAD_REQUEST, "no file field in form")),
            Err(t) => Err(
                HttpError { status: BAD_REQUEST, text: failure("multipart parse", t.as_str()) },
            ),
        }
    }
}

/// The words of a refusal for size.
pub open spec fn too_large() -> Seq<char> {
    "upload exceeds "@ + decimal(MAX_UPLOAD_MB as nat) + " MiB limit"@
}

impl UploadNamed {
    /// The bytes are taken if they are within the limit: status 413 if they
    /// are not, 400 if they cannot be read.
    pub fn body(self, bytes: Result<Vec<u8>, String>) -> (r: Result<UploadRead, HttpError>)
        ensures
            bytes matches Ok(b) ==> if b@.len() <= max_upload_bytes() {
                r == Ok::<UploadRead, HttpError>(
                    UploadRead {
                        user_id: self.user_id,
                        file_name: self.file_name,
                        content_type: self.content_type,
                        bytes: b,
                    },
                )
            } else {
                r matches Err(e) && e.is(PAYLOAD_TOO_LARGE, too_large())
            },
            bytes matches Err(t) ==> (r matches Err(e) && e.is(
                BAD_REQUEST,
                failed("read body"@, t@),
            )),
    {
        match bytes {
            Ok(b) => if b.len() as u64 > MAX_UPLOAD_MB * 1024 * 1024 {
                let limit = decimal_text(MAX_UPLOAD_MB);
                Err(
                    HttpError {
                        status: PAYLOAD_TOO_LARGE,
                        text: concat3("upload exceeds ", limit.as_str(), " MiB limit"),
                    },
                )
            } else {
                Ok(
                    UploadRead {
                        user_id: self.user_id,
                        file_name: self.file_name,
                        content_type: self.content_type,
                        bytes: b,
                    },
                )
            },
            Err(t) => Err(
                HttpError { status: BAD_REQUEST, text: failure("read body", t.as_str()) },
            ),
        }
    }
}

impl UploadRead {
    /// The upload is within the limit.
    pub open spec fn within_limit(self) -> bool {
        self.bytes@.len() <= max_upload_bytes()
    }

    /// The upload as it is placed under a document id.
    pub open spec fn placed_as(self, document_id: Uuid, p: UploadPlaced) -> bool {
        &&& p.user_id == self.user_id
        &&& p.file_name == self.file_name
        &&& p.content_type == self.content_type
        &&& p.size == self.bytes@.len()
        &&& p.key@ == key_of(self.user_id, document_id, extension_of(self.content_type@))
        &&& p.bytes == self.bytes
    }

    /// The upload gets a key under a document id.
    pub fn place_as(self, document_id: Uuid) -> (r: UploadPlaced)
        requires
            self.within_limit(),
        ensures
            self.placed_as(document_id, r),
    {
        let ext = content_type_to_ext(self.content_type.as_str());
        let key = object_key(self.user_id, document_id, ext);
        UploadPlaced {
            user_id: self.user_id,
            file_name: self.file_name,
            content_type: self.content_type,
            size: self.bytes.len() as i64,
            key,
            bytes: self.bytes,
        }
    }

    /// The upload gets a key under a fresh document id.
    pub fn place(self) -> (r: UploadPlaced)
        requires
            self.within_limit(),
        ensures
            exists|id: Uuid| is_version_4(id.value) && #[trigger] self.placed_as(id, r),
    {
        let document_id = Uuid::new_v4();
        self.place_as(document_id)
    }
}

impl UploadPlaced {
    /// The store has replied: status 500 if it did not take the bytes.
    pub fn stored(self, reply: Result<(), StorageError>) -> (r: Result<UploadStored, HttpError>)
        ensures
            reply is Ok ==> r == Ok::<UploadStored, HttpError>(
                UploadStored {
                    user_id: self.user_id,
                    file_name: self.file_name,
                    content_type: self.content_type,
                    size: self.size,
                    key: self.key,
                },
            ),
            reply is Err ==> (r matches Err(e) && e.is(INTERNAL_SERVER_ERROR, "upload failed"@)),
    {
        match put_bytes(self.key, reply) {
            Ok(key) => Ok(
                UploadStored {
                    user_id: self.user_id,
                    file_name: self.file_name,
                    content_type: self.content_type,
                    size: self.size,
                    key,
                },
            ),
            Err(_) => Err(http_error(INTERNAL_SERVER_ERROR, "upload failed")),
        }
    }
}

/// The statement inserts a pending document.
pub open spec fn inserts_pending(
    s: DocumentStatement,
    owner: Uuid,
    key: Seq<char>,
    source_filename: Seq<char>,
    content_type: Seq<char>,
    size_bytes: i64,
) -> bool {
    &&& s matches DocumentStatement::Insert(row)
    &&& row.user_id == owner
    &&& row.minio_object_key@ == key
    &&& row.source_filename@ == source_filename
    &&& row.content_type@ == content_type
    &&& row.size_bytes == size_bytes
    &&& row.ingest_status@ == "pending"@
}

/// A new document's row, pending until the agent has indexed it.
pub fn insert_ingested_document(
    owner: Uuid,
    key: &str,
    source_filename: &str,
    content_type: &str,
    size_bytes: i64,
) -> (r: DocumentStatement)
    ensures
        inserts_pending(r, owner, key@, source_filename@, content_type@, size_bytes),
{
    DocumentStatement::Insert(
        NewIngestedDocument {
            user_id: owner,
            minio_object_key: key.to_string(),
            source_filename: source_filename.to_string(),
            content_type: content_type.to_string(),
            size_bytes,
            ingest_status: "pending".to_string(),
        },
    )
}

impl UploadStored {
    /// The row to insert, once there is a connection: status 500 without one.
    pub fn insert(&self, conn: Result<(), String>) -> (r: Result<DocumentStatement, HttpError>)
        ensures
            conn is Ok ==> (r matches Ok(s) && inserts_pending(
                s,
                self.user_id,
                self.key@,
                self.file_name@,
                self.content_type@,
                self.size,
            )),
            conn matches Err(t) ==> (r matches Err(e) && e.is(
                INTERNAL_SERVER_ERROR,
                failed("db conn"@, t@),
            )),
    {
        match connected(conn) {
            Ok(_) => Ok(
                insert_ingested_document(
                    self.user_id,
                    self.key.as_str(),
                    self.file_name.as_str(),
                    self.content_type.as_str(),
                    self.size,
                ),
            ),
            Err(e) => Err(e),
        }
    }

    /// The row has been inserted: status 500 if it could not be.
    pub fn recorded(self, reply: Result<IngestedDocument, DbError>) -> (r: Result<
        UploadRecorded,
        HttpError,
    >)
        ensures
            reply matches Ok(row) ==> (r matches Ok(u) && u.document_id == row.id
                && u.request.user_id@ == simple_form(self.user_id.value)
                && u.request.minio_object_key@ == self.key@),
            reply is Err ==> (r matches Err(e) && e.is(INTERNAL_SERVER_ERROR, "db insert failed"@)),
    {
        match reply {
            Ok(row) => {
                let user = self.user_id.simple();
                Ok(
                    UploadRecorded {
                        document_id: row.id,
                        request: enqueue_index(user.as_str(), self.key.as_str()),
                    },
                )
            },
            Err(_) => Err(http_error(INTERNAL_SERVER_ERROR, "db insert failed")),
        }
    }
}

impl UploadRecorded {
    /// The agent has replied: the browser goes back to the library, whatever
    /// the reply. A document that was not queued stays pending.
    pub fn enqueued(self, reply: Result<(), String>) -> (r: &'static str)
        ensures
            r@ == "/library"@,
    {
        "/library"
    }
}

// ---------------------------------------------------------------------------
// Delete
// ---------------------------------------------------------------------------
/// The form of a deletion.
#[derive(Debug, Clone, Copy, PartialEq, Eq)]
pub struct DeleteForm {
    pub document_id: Uuid,
}

/// A deletion whose sender is known: the document's row is loaded next.
#[derive(Debug, Clone, Copy, PartialEq, Eq)]
pub struct DeleteBegun {
    pub user_id: Uuid,
    pub document_id: Uuid,
}

/// A deletion of a document that is there and belongs to the sender: its
/// index, its object and its row go next, in this order.
#[derive(Debug, Clone, PartialEq, Eq)]
pub struct Deletion {
    pub request: DeleteDocumentRequest,
    pub key: String,
    pub statement: DocumentStatement,
}

/// Where a deletion leads when the row has been looked for.
#[derive(Debug, Clone, PartialEq, Eq)]
pub enum DeleteNext {
    /// There is no such document of this user: nothing is done.
    Redirect(&'static str),
    Delete(Deletion),
}

/// The query for a document by id and owner.
pub fn load_document_for_user(owner: Uuid, id: Uuid) -> (r: DocumentStatement)
    ensures
        r == (DocumentStatement::LoadOwned { id, user_id: owner }),
{
    DocumentStatement::LoadOwned { id, user_id: owner }
}

/// The removal of a document's row by id and owner.
pub fn delete_document_row(owner: Uuid, id: Uuid) -> (r: DocumentStatement)
    ensures
        r == (DocumentStatement::DeleteOwned { id, user_id: owner }),
{
    DocumentStatement::DeleteOwned { id, user_id: owner }
}

/// A deletion begins with the session's user: status 401 without one.
pub fn delete_handler(user: Option<Uuid>, form: DeleteForm) -> (r: Result<DeleteBegun, HttpError>)
    ensures
        user matches Some(u) ==> r == Ok::<DeleteBegun, HttpError>(
            DeleteBegun { user_id: u, document_id: form.document_id },
        ),
        user is None ==> (r matches Err(e) && e.is(UNAUTHORIZED, "login required"@)),
{
    match login_required(user) {
        Ok(user_id) => Ok(DeleteBegun { user_id, document_id: form.document_id }),
        Err(e) => Err(e),
    }
}

impl DeleteBegun {
    /// The query for the document, once there is a connection: status 500
    /// without one.
    pub fn load(&self, conn: Result<(), String>) -> (r: Result<DocumentStatement, HttpError>)
        ensures
            conn is Ok ==> r == Ok::<DocumentStatement, HttpError>(
                DocumentStatement::LoadOwned { id: self.document_id, user_id: self.user_id },
            ),
            conn matches Err(t) ==> (r matches Err(e) && e.is(
                INTERNAL_SERVER_ERROR,
                failed("db conn"@, t@),
            )),
    {
        match connected(conn) {
            Ok(_) => Ok(load_document_for_user(self.user_id, self.document_id)),
            Err(e) => Err(e),
        }
    }

    /// The deletion removes this document of this user everywhere.
    pub open spec fn removes(self, d: Deletion, key: Seq<char>) -> bool {
        &&& d.request.user_id@ == simple_form(self.user_id.value)
        &&& d.request.minio_object_key@ == key
        &&& d.key@ == key
        &&& d.statement == (DocumentStatement::DeleteOwned {
            id: self.document_id,
            user_id: self.user_id,
        })
    }

    /// The row has been looked for. A document that is not there, or that
    /// belongs to someone else, is left alone; status 500 if the query failed.
    pub fn loaded(self, reply: Result<IngestedDocument, DbError>) -> (r: Result<
        DeleteNext,
        HttpError,
    >)
        ensures
            reply matches Ok(doc) ==> (r matches Ok(DeleteNext::Delete(d)) && self.removes(
                d,
                doc.minio_object_key@,
            )),
            reply matches Err(e) ==> if e.kind == DbErrorKind::NotFound {
                r matches Ok(DeleteNext::Redirect(l)) && l@ == "/library"@
            } else {
                r matches Err(h) && h.is(
                    INTERNAL_SERVER_ERROR,
                    failed("load doc"@, AppErrorView::Db(e.text@).message()),
                )
            },
    {
        match optional(reply) {
            Ok(Some(doc)) => {
                let user = self.user_id.simple();
                Ok(
                    DeleteNext::Delete(
                        Deletion {
                            request: delete_document(user.as_str(), doc.minio_object_key.as_str()),
                            key: doc.minio_object_key,
                            statement: delete_document_row(self.user_id, self.document_id),
                        },
                    ),
                )
            },
            Ok(None) => Ok(DeleteNext::Redirect("/library")),
            Err(e) => Err(
                HttpError { status: INTERNAL_SERVER_ERROR, text: app_failure("load doc", &e) },
            ),
        }
    }
}

/// The end of a deletion. The agent and the store may have failed: the row
/// goes all the same, so that the document does not stay in the list. Status
/// 500 if the row could not be removed.
pub fn deletion_finished(
    agent: Result<(), String>,
    store: Result<(), AppError>,
    row: Result<usize, DbError>,
) -> (r: Result<&'static str, HttpError>)
    ensures
        row is Ok ==> (r matches Ok(l) && l@ == "/library"@),
        row is Err ==> (r matches Err(e) && e.is(INTERNAL_SERVER_ERROR, "db delete failed"@)),
{
    match row {
        Ok(_) => Ok("/library"),
        Err(_) => Err(http_error(INTERNAL_SERVER_ERROR, "db delete failed")),
    }
}

// ---------------------------------------------------------------------------
// Queries for the chat
// ---------------------------------------------------------------------------
/// A document that a question may draw on.
#[derive(Debug, Clone, PartialEq, Eq)]
pub struct ActiveDocument {
    pub id: Uuid,
    pub minio_object_key: String,
}

/// The ids of documents, in order.
pub open spec fn ids_of(docs: Seq<ActiveDocument>) -> Seq<Uuid> {
    docs.map_values(|d: ActiveDocument| d.id)
}

/// The object keys of documents, in order.
pub open spec fn keys_of(docs: Seq<ActiveDocument>) -> Seq<Seq<char>> {
    docs.map_values(|d: ActiveDocument| d.minio_object_key@)
}

/// The query for the object keys, with the ids, of every complete document of
/// a user.
pub fn list_complete_minio_keys(owner: Uuid) -> (r: DocumentStatement)
    ensures
        r == (DocumentStatement::CompleteOf { user_id: owner }),
{
    DocumentStatement::CompleteOf { user_id: owner }
}

/// The query for the object keys, with the ids, of a specific set of documents
/// of a user. A document that is not complete is left out.
pub fn list_minio_keys_for_ids(owner: Uuid, ids: Vec<Uuid>) -> (r: DocumentStatement)
    ensures
        r == (DocumentStatement::CompleteAmong { user_id: owner, ids }),
{
    DocumentStatement::CompleteAmong { user_id: owner, ids }
}

/// The query for the library rows that a pinning panel needs.
pub fn list_library_entries(owner: Uuid) -> (r: DocumentStatement)
    ensures
        r == (DocumentStatement::LibraryEntriesOf { user_id: owner }),
{
    DocumentStatement::LibraryEntriesOf { user_id: owner }
}

// ---------------------------------------------------------------------------
// Laws
// ---------------------------------------------------------------------------
/// The statement serves this user.
pub open spec fn serves(s: DocumentStatement, user_id: Uuid) -> bool {
    match s {
        DocumentStatement::ListOf { user_id: u } => u == user_id,
        DocumentStatement::LoadOwned { user_id: u, .. } => u == user_id,
        DocumentStatement::Insert(row) => row.user_id == user_id,
        DocumentStatement::DeleteOwned { user_id: u, .. } => u == user_id,
        DocumentStatement::SetStatus { .. } => false,
        DocumentStatement::CompleteOf { user_id: u } => u == user_id,
        DocumentStatement::CompleteAmong { user_id: u, .. } => u == user_id,
        DocumentStatement::LibraryEntriesOf { user_id: u } => u == user_id,
    }
}

/// A statement that serves one user neither reads nor changes a row of
/// another.
pub proof fn documents_of_others_are_out_of_reach(
    s: DocumentStatement,
    user_id: Uuid,
    row: DocumentRow,
    now: int,
)
    requires
        serves(s, user_id),
        row.user_id != user_id,
    ensures
        !s.answers(row),
        s.leaves(row, now) == Some(row),
{
}

/// The library of a user holds each document of the user and no other, the
/// newest first.
pub proof fn library_is_the_users_own_newest_first(
    user_id: Uuid,
    table: Set<DocumentRow>,
    rows: Seq<DocumentRow>,
)
    requires
        (DocumentStatement::ListOf { user_id }).is_answer(table, rows),
    ensures
        forall|row: DocumentRow|
            rows.contains(row) <==> table.contains(row) && row.user_id == user_id,
        forall|i: int, j: int| 0 <= i <= j < rows.len() ==> rows[i].created_at >= rows[j].created_at,
{
    let s = DocumentStatement::ListOf { user_id };
    assert(s.lists_newest_first());
    assert forall|row: DocumentRow|
        rows.contains(row) <==> table.contains(row) && row.user_id == user_id by {
        assert(s.answers(row) == (row.user_id == user_id));
    }
}

/// Removing a document removes the one row with its id and owner, and leaves
/// every other as it was.
pub proof fn deletion_removes_exactly_one(id: Uuid, user_id: Uuid, row: DocumentRow, now: int)
    ensures
        (DocumentStatement::DeleteOwned { id, user_id }).leaves(row, now) == (if row.id == id
            && row.user_id == user_id {
            None
        } else {
            Some(row)
        }),
        (DocumentStatement::DeleteOwned { id, user_id }).leaves(row, now) is None
            <==> (DocumentStatement::LoadOwned { id, user_id }).answers(row),
{
}

/// Only complete documents reach the agent: a chosen set narrows what every
/// complete document gives, and never widens it.
pub proof fn chosen_documents_are_complete_ones(
    user_id: Uuid,
    ids: Vec<Uuid>,
    row: DocumentRow,
)
    ensures
        (DocumentStatement::CompleteAmong { user_id, ids }).answers(row) <==> (
        DocumentStatement::CompleteOf { user_id }).answers(row) && ids@.contains(row.id),
        (DocumentStatement::CompleteAmong { user_id, ids }).answers(row)
            ==> row.ingest_status == "complete"@,
{
}

/// A report changes what the agent knows of a document and nothing else: its
/// owner, its key, its name, its type, its size and its time of creation stay.
pub proof fn a_report_changes_only_the_status(
    s: DocumentStatement,
    id: Uuid,
    status: GetDocumentStatusResponse,
    row: DocumentRow,
    now: int,
)
    requires
        records_status(s, id, status),
    ensures
        row.id != id ==> s.leaves(row, now) == Some(row),
        row.id == id ==> (s.leaves(row, now) matches Some(after) && after.id == row.id
            && after.user_id == row.user_id && after.minio_object_key == row.minio_object_key
            && after.source_filename == row.source_filename && after.content_type
            == row.content_type && after.size_bytes == row.size_bytes && after.created_at
            == row.created_at && after.ingest_status == status.state@ && after.updated_at == now),
{
}

/// A document that the agent reports complete or failed is not asked about
/// again.
pub proof fn a_finished_document_is_not_in_flight(
    s: DocumentStatement,
    id: Uuid,
    status: GetDocumentStatusResponse,
    row: DocumentRow,
    now: int,
)
    requires
        records_status(s, id, status),
        row.id == id,
        status.state@ == "complete"@ || status.state@ == "failed"@,
    ensures
        s.leaves(row, now) matches Some(after) && !in_flight(after),
{
}

/// The documents that are asked about are those of the list that are in
/// flight, and no others.
pub proof fn checks_are_about_documents_in_flight(docs: Seq<IngestedDocument>)
    ensures
        forall|i: int|
            0 <= i < in_flight_among(docs).len() ==> in_flight((#[trigger] in_flight_among(docs)[i])@)
                && docs.contains(in_flight_among(docs)[i]),
        forall|j: int|
            0 <= j < docs.len() && in_flight((#[trigger] docs[j])@) ==> in_flight_among(
                docs,
            ).contains(docs[j]),
    decreases docs.len(),
{
    if docs.len() > 0 {
        let front = docs.drop_last();
        let some = in_flight_among(front);
        checks_are_about_documents_in_flight(front);
        let all = in_flight_among(docs);
        assert forall|i: int| 0 <= i < all.len() implies in_flight((#[trigger] all[i])@)
            && docs.contains(all[i]) by {
            if i < some.len() {
                assert(all[i] == some[i]);
                let k = choose|k: int| 0 <= k < front.len() && front[k] == some[i];
                assert(docs[k] == all[i]);
            } else {
                assert(docs[docs.len() - 1] == all[i]);
            }
        }
        assert forall|j: int| 0 <= j < docs.len() && in_flight((#[trigger] docs[j])@) implies
            all.contains(docs[j]) by {
            if j < docs.len() - 1 {
                assert(front[j] == docs[j]);
                let k = choose|k: int| 0 <= k < some.len() && some[k] == front[j];
                assert(all[k] == docs[j]);
            } else {
                assert(all[all.len() - 1] == docs[j]);
            }
        }
    }
}

/// An upload shows up in its sender's library at once. It is pending: the agent
/// is asked about it, and no question draws on it yet.
pub proof fn an_upload_shows_up_as_pending(
    s: DocumentStatement,
    owner: Uuid,
    key: Seq<char>,
    name: Seq<char>,
    content_type: Seq<char>,
    size: i64,
    row: DocumentRow,
)
    requires
        inserts_pending(s, owner, key, name, content_type, size),
        s.creates(row),
    ensures
        (DocumentStatement::ListOf { user_id: owner }).answers(row),
        row.source_filename == name,
        row.minio_object_key == key,
        in_flight(row),
        !(DocumentStatement::CompleteOf { user_id: owner }).answers(row),
{
    reveal_strlit("pending");
    reveal_strlit("complete");
    reveal_strlit("failed");
    assert("pending"@.len() == 7 && "complete"@.len() == 8 && "failed"@.len() == 6);
}

/// The object, the row and the index request of one upload name the same key,
/// and it lies under the sender's prefix.
pub proof fn an_upload_keeps_its_key(
    read: UploadRead,
    document_id: Uuid,
    placed: UploadPlaced,
    statement: DocumentStatement,
)
    requires
        read.placed_as(document_id, placed),
        inserts_pending(
            statement,
            placed.user_id,
            placed.key@,
            placed.file_name@,
            placed.content_type@,
            placed.size,
        ),
    ensures
        statement matches DocumentStatement::Insert(row) && row.minio_object_key@ == placed.key@
            && row.user_id == read.user_id && row.size_bytes == placed.bytes@.len()
            && crate::text::begins_with(
            row.minio_object_key@,
            crate::minio_client::user_prefix(read.user_id),
        ),
{
    let ext = extension_of(read.content_type@);
    crate::minio_client::key_lies_under_its_user(read.user_id, document_id, ext);
}

/// An upload within the limit is stored byte for byte as it was read, under a
/// key that spells its sender, its document and its type, and the row that
/// records it counts those bytes and carries the name and the type that the form
/// gave.
pub proof fn an_upload_is_stored_whole(
    named: UploadNamed,
    bytes: Vec<u8>,
    read: UploadRead,
    document_id: Uuid,
    placed: UploadPlaced,
    statement: DocumentStatement,
    row: DocumentRow,
)
    requires
        read == (UploadRead {
            user_id: named.user_id,
            file_name: named.file_name,
            content_type: named.content_type,
            bytes,
        }),
        bytes@.len() <= 104_857_600,
        read.placed_as(document_id, placed),
        inserts_pending(
            statement,
            placed.user_id,
            placed.key@,
            placed.file_name@,
            placed.content_type@,
            placed.size,
        ),
        statement.creates(row),
    ensures
        read.within_limit(),
        placed.bytes@ == bytes@,
        placed.size == bytes@.len(),
        placed.key@ == "users/"@ + simple_form(named.user_id.value) + "/docs/"@ + hyphenated_form(
            document_id.value,
        ) + "."@ + extension_of(named.content_type@),
        row.user_id == named.user_id,
        row.minio_object_key == placed.key@,
        row.source_filename == named.file_name@,
        row.content_type == named.content_type@,
        row.size_bytes == bytes@.len(),
        row.ingest_status == "pending"@,
{
    the_limit_is_a_hundred_mebibytes();
    crate::minio_client::key_spells_user_document_and_type(
        named.user_id,
        document_id,
        extension_of(named.content_type@),
    );
}

/// Two uploads that differ in their bytes put different bytes into the store,
/// whatever ids they got.
pub proof fn different_uploads_are_stored_differently(
    a: UploadRead,
    b: UploadRead,
    a_id: Uuid,
    b_id: Uuid,
    a_placed: UploadPlaced,
    b_placed: UploadPlaced,
)
    requires
        a.placed_as(a_id, a_placed),
        b.placed_as(b_id, b_placed),
    ensures
        a.bytes@ != b.bytes@ ==> a_placed.bytes@ != b_placed.bytes@,
        a.bytes@ == b.bytes@ ==> a_placed.bytes@ == b_placed.bytes@ && a_placed.size
            == b_placed.size,
{
}

/// The limit on an upload, in bytes, and the words of a refusal.
pub proof fn the_limit_is_a_hundred_mebibytes()
    ensures
        max_upload_bytes() == 104_857_600,
        too_large() == "upload exceeds 100 MiB limit"@,
{
    reveal_strlit("upload exceeds ");
    reveal_strlit(" MiB limit");
    reveal_strlit("upload exceeds 100 MiB limit");
    reveal_with_fuel(decimal, 3);
    assert(decimal(100) =~= seq!['1', '0', '0']);
    assert(too_large() =~= "upload exceeds 100 MiB limit"@);
}

/// The documents that are asked about come in the order of the list, each one
/// for itself: of two lists together, those of the first and behind them those
/// of the second.
pub proof fn checks_follow_the_list(a: Seq<IngestedDocument>, b: Seq<IngestedDocument>)
    ensures
        in_flight_among(a + b) == in_flight_among(a) + in_flight_among(b),
        b.len() == 1 ==> in_flight_among(b) == (if b[0].ingest_status@ == "complete"@
            || b[0].ingest_status@ == "failed"@ {
            Seq::empty()
        } else {
            b
        }),
    decreases b.len(),
{
    if b.len() == 0 {
        assert(a + b =~= a);
        assert(in_flight_among(a) + in_flight_among(b) =~= in_flight_among(a));
    } else {
        checks_follow_the_list(a, b.drop_last());
        assert((a + b).drop_last() =~= a + b.drop_last());
        assert((a + b).last() == b.last());
        assert(in_flight_among(a + b) =~= in_flight_among(a) + in_flight_among(b));
        if b.len() == 1 {
            assert(b.drop_last() =~= Seq::empty());
            assert(in_flight_among(Seq::empty()) == Seq::<IngestedDocument>::empty());
            assert(Seq::<IngestedDocument>::empty().push(b[0]) =~= b);
        }
    }
}

/// A document is in flight as long as its status is neither of the two final
/// ones.
pub proof fn only_the_final_states_end_the_flight(row: DocumentRow)
    ensures
        !in_flight(row) <==> row.ingest_status == "complete"@ || row.ingest_status == "failed"@,
{
}

/// A check names the document and its object, and the user who owns it: the
/// user can be read out of the request.
pub proof fn a_check_names_its_document(c: StatusCheck, user_id: Uuid, doc: IngestedDocument)
    requires
        asks_about(c, user_id, doc),
    ensures
        c.document_id == doc@.id,
        c.request.minio_object_key@ == doc@.minio_object_key,
        crate::ident::parsed(c.request.user_id@) == Some(user_id.value),
        crate::auth::is_agent_user_id(c.request.user_id@),
        c.request.user_id@.len() == 32,
{
    crate::auth::grpc_id_is_accepted(user_id);
    crate::ident::text_forms_read_back(user_id.value);
}

/// What the agent reports is what the row holds afterwards: a text or a count
/// that it leaves out is unknown, and every other is kept, a count up to the
/// largest that the column takes as it is and a larger one by its lower 32
/// bits.
pub proof fn a_report_is_recorded(
    s: DocumentStatement,
    id: Uuid,
    status: GetDocumentStatusResponse,
    row: DocumentRow,
    now: int,
)
    requires
        records_status(s, id, status),
        row.id == id,
    ensures
        s.leaves(row, now) matches Some(after) && {
            &&& after.ingest_status == status.state@
            &&& after.sha256 is None <==> status.sha256@.len() == 0
            &&& after.sha256 matches Some(t) ==> t == status.sha256@
            &&& after.error_message is None <==> status.error_message@.len() == 0
            &&& after.error_message matches Some(t) ==> t == status.error_message@
            &&& after.n_pages is None <==> status.n_pages == 0
            &&& after.n_pages matches Some(n) ==> (n as int - status.n_pages as int)
                % 0x1_0000_0000 == 0
            &&& 0 < status.n_pages <= 0x7FFF_FFFF ==> after.n_pages == Some(status.n_pages as i32)
            &&& after.n_chunks is None <==> status.n_chunks == 0
            &&& after.n_chunks matches Some(n) ==> (n as int - status.n_chunks as int)
                % 0x1_0000_0000 == 0
            &&& 0 < status.n_chunks <= 0x7FFF_FFFF ==> after.n_chunks == Some(
                status.n_chunks as i32,
            )
        },
{
}

/// The table shows a document as its row holds it: name, counts and status, in
/// the colour of the status, and the value of its delete form names it. A count
/// that is unknown is left blank.
pub proof fn the_table_shows_the_row(
    doc: IngestedDocument,
    v: IngestedDocumentView,
    line: TableRow,
)
    requires
        shows(v, doc),
        row_shows(line, v),
    ensures
        line.name@ == doc@.source_filename,
        line.status@ == doc@.ingest_status,
        crate::ident::parsed(line.document_id@) == Some(doc@.id.value),
        line.document_id@.len() == 36,
        line.pages@.len() == 0 <==> doc@.n_pages is None,
        doc@.n_pages matches Some(n) ==> line.pages@ == signed_decimal(n as int),
        line.chunks@.len() == 0 <==> doc@.n_chunks is None,
        doc@.n_chunks matches Some(n) ==> line.chunks@ == signed_decimal(n as int),
        line.status_style@ == (if doc@.ingest_status == "complete"@ {
            "color: #0a0;"@
        } else if doc@.ingest_status == "failed"@ {
            "color: #c00;"@
        } else {
            "color: #aa7700;"@
        }),
{
    reveal_strlit("color: ");
    reveal_strlit(";");
    reveal_strlit("#0a0");
    reveal_strlit("#c00");
    reveal_strlit("#aa7700");
    reveal_strlit("color: #0a0;");
    reveal_strlit("color: #c00;");
    reveal_strlit("color: #aa7700;");
    if doc.ingest_status@ == "complete"@ {
        assert(line.status_style@ =~= "color: #0a0;"@);
    } else if doc.ingest_status@ == "failed"@ {
        assert(line.status_style@ =~= "color: #c00;"@);
    } else {
        assert(line.status_style@ =~= "color: #aa7700;"@);
    }
    crate::ident::text_forms_read_back(doc.id.value);
    crate::ident::hyphenated_form_is_hex_and_hyphens(doc.id.value);
    match doc.n_pages {
        Some(n) => {
            lemma_signed_decimal_not_empty(n as int);
        },
        None => {},
    }
    match doc.n_chunks {
        Some(n) => {
            lemma_signed_decimal_not_empty(n as int);
        },
        None => {},
    }
}

proof fn lemma_signed_decimal_not_empty(n: int)
    ensures
        signed_decimal(n).len() > 0,
{
    if n >= 0 {
        crate::text::decimal_spells_the_number(n as nat);
    }
}

/// The colour of a status tells a complete document from a failed one and both
/// from every other, and those alike.
pub proof fn colours_tell_the_states_apart(a: Seq<char>, b: Seq<char>)
    ensures
        status_color(a) == "#0a0"@ <==> a == "complete"@,
        status_color(a) == "#c00"@ <==> a == "failed"@,
        status_color(a) == "#aa7700"@ <==> a != "complete"@ && a != "failed"@,
        status_color(a) == status_color(b) <==> a == b || (a != "complete"@ && a != "failed"@ && b
            != "complete"@ && b != "failed"@),
{
    reveal_strlit("#0a0");
    reveal_strlit("#c00");
    reveal_strlit("#aa7700");
    reveal_strlit("complete");
    reveal_strlit("failed");
    assert("#0a0"@[1] == '0' && "#c00"@[1] == 'c' && "#aa7700"@[1] == 'a');
    assert("complete"@.len() == 8 && "failed"@.len() == 6);
}

/// A deletion takes one document out of the index, the store and the table: the
/// three name the same object, and the row that goes is the one that was
/// loaded.
pub proof fn a_deletion_removes_one_document_everywhere(
    begun: DeleteBegun,
    d: Deletion,
    doc: IngestedDocument,
    now: int,
    row: DocumentRow,
)
    requires
        begun.removes(d, doc.minio_object_key@),
        (DocumentStatement::LoadOwned { id: begun.document_id, user_id: begun.user_id }).answers(
            doc@,
        ),
    ensures
        d.request.minio_object_key@ == doc@.minio_object_key,
        d.key@ == doc@.minio_object_key,
        crate::ident::parsed(d.request.user_id@) == Some(doc@.user_id.value),
        crate::auth::is_agent_user_id(d.request.user_id@),
        d.request.user_id@.len() == 32,
        d.statement.leaves(doc@, now) is None,
        row.id != doc@.id || row.user_id != doc@.user_id ==> d.statement.leaves(row, now) == Some(
            row,
        ),
{
    crate::auth::grpc_id_is_accepted(begun.user_id);
    crate::ident::text_forms_read_back(begun.user_id.value);
}

/// A row is added with every value that was given for it.
pub proof fn a_new_row_holds_what_was_given(n: NewIngestedDocument, row: DocumentRow)
    requires
        DocumentStatement::Insert(n).creates(row),
    ensures
        row.user_id == n.user_id,
        row.minio_object_key == n.minio_object_key@,
        row.source_filename == n.source_filename@,
        row.content_type == n.content_type@,
        row.size_bytes == n.size_bytes,
        row.ingest_status == n.ingest_status@,
{
}

/// The documents of a question are taken one for one: as many ids and as many
/// keys, in the same order.
pub proof fn ids_and_keys_go_together(docs: Seq<ActiveDocument>)
    ensures
        ids_of(docs).len() == docs.len(),
        keys_of(docs).len() == docs.len(),
        forall|i: int|
            0 <= i < docs.len() ==> ids_of(docs)[i] == (#[trigger] docs[i]).id && keys_of(docs)[i]
                == docs[i].minio_object_key@,
{
}

/// A document's row holds what the document holds, member by member.
pub proof fn rows_are_read_whole(doc: IngestedDocument)
    ensures
        doc@.id == doc.id,
        doc@.user_id == doc.user_id,
        doc@.minio_object_key == doc.minio_object_key@,
        doc@.source_filename == doc.source_filename@,
        doc@.content_type == doc.content_type@,
        doc@.size_bytes == doc.size_bytes,
        doc@.n_pages == doc.n_pages,
        doc@.n_chunks == doc.n_chunks,
        doc@.ingest_status == doc.ingest_status@,
        doc@.sha256 is None <==> doc.sha256 is None,
        doc.sha256 matches Some(t) ==> doc@.sha256 == Some(t@),
        doc@.error_message is None <==> doc.error_message is None,
        doc.error_message matches Some(t) ==> doc@.error_message == Some(t@),
        doc@.created_at == doc.created_at,
        doc@.updated_at == doc.updated_at,
{
}

/// From the form to the store and the table: the bytes that were read are the
/// bytes that go into the store, and the row that is inserted names the key that
/// they lie under, counts them, and keeps the name and the type of the file.
pub proof fn an_upload_goes_through_whole(
    named: UploadNamed,
    bytes: Vec<u8>,
    read: Result<UploadRead, HttpError>,
    document_id: Uuid,
    placed: UploadPlaced,
    stored: Result<UploadStored, HttpError>,
    statement: Result<DocumentStatement, HttpError>,
)
    requires
        bytes@.len() <= 104_857_600,
        call_ensures(UploadNamed::body, (named, Ok(bytes)), read),
        read matches Ok(u) && call_ensures(UploadRead::place_as, (u, document_id), placed),
        call_ensures(UploadPlaced::stored, (placed, Ok(())), stored),
        stored matches Ok(s) && call_ensures(UploadStored::insert, (&s, Ok(())), statement),
    ensures
        placed.bytes@ == bytes@,
        statement matches Ok(DocumentStatement::Insert(row)) && {
            &&& row.user_id == named.user_id
            &&& row.minio_object_key@ == placed.key@
            &&& row.minio_object_key@ == key_of(
                named.user_id,
                document_id,
                extension_of(named.content_type@),
            )
            &&& row.source_filename@ == named.file_name@
            &&& row.content_type@ == named.content_type@
            &&& row.size_bytes == bytes@.len()
            &&& row.ingest_status@ == "pending"@
        },
{
    the_limit_is_a_hundred_mebibytes();
}

/// From the rows to the page: the library page has one line for each document,
/// in order, under the document's own name and status.
pub proof fn the_page_lists_the_rows(
    docs: Vec<IngestedDocument>,
    views: Result<Vec<IngestedDocumentView>, String>,
    page: LibraryView,
)
    requires
        call_ensures(list_documents_action, (Ok(docs),), views),
        call_ensures(LibraryPage, (views,), page),
    ensures
        docs@.len() == 0 <==> page is Empty,
        docs@.len() > 0 ==> {
            &&& page matches LibraryView::Table(lines)
            &&& lines@.len() == docs@.len()
            &&& forall|i: int|
                0 <= i < lines@.len() ==> (#[trigger] lines@[i]).name@ == docs@[i].source_filename@
                    && lines@[i].status@ == docs@[i].ingest_status@ && lines@[i].document_id@
                    == hyphenated_form(docs@[i].id.value)
        },
{
    match (views, page) {
        (Ok(v), LibraryView::Table(lines)) => {
            assert forall|i: int| 0 <= i < lines@.len() implies (#[trigger] lines@[i]).name@
                == docs@[i].source_filename@ && lines@[i].status@ == docs@[i].ingest_status@
                && lines@[i].document_id@ == hyphenated_form(docs@[i].id.value) by {
                assert(row_shows(lines@[i], v@[i]));
                assert(shows(v@[i], docs@[i]));
            }
        },
        _ => {},
    }
}

/// From the row that was loaded to the deletion: the index, the store and the
/// table are asked to drop the same document, and a document that is not there
/// is left alone.
pub proof fn a_deletion_follows_the_row(
    user_id: Uuid,
    form: DeleteForm,
    begun: Result<DeleteBegun, HttpError>,
    doc: IngestedDocument,
    next: Result<DeleteNext, HttpError>,
)
    requires
        call_ensures(delete_handler, (Some(user_id), form), begun),
        begun matches Ok(b) && call_ensures(DeleteBegun::loaded, (b, Ok(doc)), next),
    ensures
        next matches Ok(DeleteNext::Delete(d)) && {
            &&& d.key@ == doc.minio_object_key@
            &&& d.request.minio_object_key@ == doc.minio_object_key@
            &&& d.request.user_id@ == simple_form(user_id.value)
            &&& d.statement == (DocumentStatement::DeleteOwned { id: form.document_id, user_id })
        },
{
}

/// The check names this document, and the document is in flight.
pub open spec fn checks_in_flight(c: StatusCheck, doc: IngestedDocument) -> bool {
    &&& c.document_id == doc.id
    &&& c.request.minio_object_key@ == doc.minio_object_key@
    &&& doc.ingest_status@ != "complete"@
    &&& doc.ingest_status@ != "failed"@
}

/// The check is about a document of the list that is in flight.
pub open spec fn is_called_for(c: StatusCheck, docs: Seq<IngestedDocument>) -> bool {
    exists|j: int| 0 <= j < docs.len() && checks_in_flight(c, #[trigger] docs[j])
}

/// One of the checks is about the document.
pub open spec fn is_checked(doc: IngestedDocument, checks: Seq<StatusCheck>) -> bool {
    exists|i: int| 0 <= i < checks.len() && checks_in_flight(#[trigger] checks[i], doc)
}

/// The agent is asked about a document of the list exactly if the document is in
/// flight.
pub proof fn the_agent_is_asked_about_documents_in_flight(
    user_id: Uuid,
    docs: Vec<IngestedDocument>,
    checks: Vec<StatusCheck>,
)
    requires
        call_ensures(status_checks, (user_id, &docs), checks),
    ensures
        forall|i: int| 0 <= i < checks@.len() ==> is_called_for(#[trigger] checks@[i], docs@),
        forall|j: int|
            0 <= j < docs@.len() ==> (is_checked(#[trigger] docs@[j], checks@)
                <==> docs@[j].ingest_status@ != "complete"@ && docs@[j].ingest_status@
                != "failed"@),
{
    checks_are_about_documents_in_flight(docs@);
    let some = in_flight_among(docs@);
    assert forall|i: int| 0 <= i < checks@.len() implies is_called_for(
        #[trigger] checks@[i],
        docs@,
    ) by {
        assert(asks_about(checks@[i], user_id, some[i]));
        assert(in_flight(some[i]@));
        assert(docs@.contains(some[i]));
        let j = choose|j: int| 0 <= j < docs@.len() && docs@[j] == some[i];
        assert(checks_in_flight(checks@[i], docs@[j]));
    }
    assert forall|j: int| 0 <= j < docs@.len() implies (is_checked(#[trigger] docs@[j], checks@)
        <==> docs@[j].ingest_status@ != "complete"@ && docs@[j].ingest_status@ != "failed"@) by {
        if in_flight(docs@[j]@) {
            assert(some.contains(docs@[j]));
            let i = choose|i: int| 0 <= i < some.len() && some[i] == docs@[j];
            assert(asks_about(checks@[i], user_id, some[i]));
            assert(checks_in_flight(checks@[i], docs@[j]));
        }
    }
}

} // verus!
