use agent_rs_web::error::{AppError, DbError, DbErrorKind};
use agent_rs_web::grpc::GetDocumentStatusResponse;
use agent_rs_web::ident::Uuid;
use agent_rs_web::minio_client::StorageError;
use agent_rs_web::routes::library::{
    delete_document_row, delete_handler, deletion_finished, document_table, documents_listed,
    list_complete_minio_keys, list_documents, list_documents_action, list_library_entries,
    list_minio_keys_for_ids, load_document_for_user, status_checks, status_reply,
    update_document_status, upload_handler, DeleteForm, DeleteNext, DocumentStatement, FieldHead,
    IngestedDocument, IngestedDocumentView, LibraryPage, LibraryView, StatusPatch, UploadRead,
};
use agent_rs_web::routes::HttpError;

const USER: Uuid = Uuid { value: 1 };
const DOCUMENT: Uuid = Uuid { value: 2 };

fn document(id: u128, status: &str) -> IngestedDocument {
    IngestedDocument {
        id: Uuid { value: id },
        user_id: USER,
        minio_object_key: format!("key{id}"),
        source_filename: format!("file{id}"),
        content_type: "text/plain".to_string(),
        size_bytes: 3,
        sha256: None,
        n_pages: Some(4),
        n_chunks: None,
        ingest_status: status.to_string(),
        error_message: None,
        created_at: 0,
        updated_at: 0,
    }
}

fn report(state: &str, n_pages: u32) -> GetDocumentStatusResponse {
    GetDocumentStatusResponse {
        state: state.to_string(),
        sha256: String::new(),
        n_pages,
        n_chunks: 0,
        error_message: String::new(),
    }
}

fn db_error<T>(kind: DbErrorKind) -> Result<T, DbError> {
    Err(DbError { kind, text: "t".to_string() })
}

fn http<T>(status: u16, text: &str) -> Result<T, HttpError> {
    Err(HttpError { status, text: text.to_string() })
}

#[test]
fn only_documents_in_flight_are_asked_about() {
    let docs = vec![
        document(1, "complete"),
        document(2, "pending"),
        document(3, "failed"),
        document(4, "indexing"),
    ];
    let checks = status_checks(USER, &docs);
    assert_eq!(checks.len(), 2);
    assert_eq!(checks[0].document_id, Uuid { value: 2 });
    assert_eq!(checks[0].request.user_id, "00000000000000000000000000000001");
    assert_eq!(checks[0].request.minio_object_key, "key2");
    assert_eq!(checks[1].document_id, Uuid { value: 4 });
}

#[test]
fn a_report_is_recorded_and_silence_is_not() {
    let docs = vec![document(2, "pending")];
    let check = &status_checks(USER, &docs)[0];
    assert_eq!(status_reply(check, Err("down".to_string())), None);
    assert_eq!(
        status_reply(check, Ok(report("complete", 3))),
        Some(update_document_status(DOCUMENT, &report("complete", 3)))
    );
}

#[test]
fn unknown_counts_and_texts_are_not_stored() {
    let full = GetDocumentStatusResponse {
        state: "failed".to_string(),
        sha256: "ab".to_string(),
        n_pages: 12,
        n_chunks: 34,
        error_message: "bad pdf".to_string(),
    };
    assert_eq!(
        update_document_status(DOCUMENT, &full),
        DocumentStatement::SetStatus {
            id: DOCUMENT,
            patch: StatusPatch {
                ingest_status: "failed".to_string(),
                sha256: Some("ab".to_string()),
                n_pages: Some(12),
                n_chunks: Some(34),
                error_message: Some("bad pdf".to_string()),
            }
        }
    );
    assert_eq!(
        update_document_status(DOCUMENT, &report("indexing", 0)),
        DocumentStatement::SetStatus {
            id: DOCUMENT,
            patch: StatusPatch {
                ingest_status: "indexing".to_string(),
                sha256: None,
                n_pages: None,
                n_chunks: None,
                error_message: None,
            }
        }
    );
}

#[test]
fn counts_beyond_the_column_wrap() {
    for n in [1u32, 0x7FFF_FFFF, 0x8000_0000, u32::MAX] {
        match update_document_status(DOCUMENT, &report("complete", n)) {
            DocumentStatement::SetStatus { patch, .. } => assert_eq!(patch.n_pages, Some(n as i32)),
            other => panic!("{other:?}"),
        }
    }
}

#[test]
fn the_list_shows_every_row_in_order() {
    let views =
        list_documents_action(Ok(vec![document(1, "complete"), document(2, "pending")])).unwrap();
    assert_eq!(views.len(), 2);
    assert_eq!(
        views[0],
        IngestedDocumentView {
            id: Uuid { value: 1 },
            source_filename: "file1".to_string(),
            ingest_status: "complete".to_string(),
            n_pages: Some(4),
            n_chunks: None,
        }
    );
    assert_eq!(views[1].source_filename, "file2");
    assert_eq!(
        list_documents_action(db_error(DbErrorKind::Other)),
        Err("list docs: database error: t".to_string())
    );
    assert_eq!(documents_listed(Ok(Vec::new())), Ok(Vec::new()));
}

#[test]
fn the_table_colours_the_status() {
    let views = list_documents_action(Ok(vec![
        document(1, "complete"),
        document(2, "failed"),
        document(3, "odd"),
    ]))
    .unwrap();
    let rows = document_table(&views);
    assert_eq!(rows[0].status_style, "color: #0a0;");
    assert_eq!(rows[1].status_style, "color: #c00;");
    assert_eq!(rows[2].status_style, "color: #aa7700;");
    assert_eq!(rows[0].name, "file1");
    assert_eq!(rows[0].pages, "4");
    assert_eq!(rows[0].chunks, "");
    assert_eq!(rows[0].document_id, "00000000-0000-0000-0000-000000000001");
    assert_eq!(LibraryPage(Ok(views)), LibraryView::Table(rows));
}

#[test]
fn the_page_says_when_there_is_nothing_or_a_failure() {
    assert_eq!(
        LibraryPage(Ok(Vec::new())),
        LibraryView::Empty("No documents yet. Upload one above.".to_string())
    );
    assert_eq!(
        LibraryPage(Err("x".to_string())),
        LibraryView::Failed("Error loading documents: x".to_string())
    );
}

#[test]
fn an_upload_goes_through() {
    let named = upload_handler(Some(USER))
        .unwrap()
        .field(Ok(Some(FieldHead {
            file_name: Some("notes.txt".to_string()),
            content_type: Some("text/plain".to_string()),
        })))
        .unwrap();
    let read = named.body(Ok(b"abc".to_vec())).unwrap();
    let placed = read.place_as(DOCUMENT);
    let key = "users/00000000000000000000000000000001/docs/00000000-0000-0000-0000-000000000002.txt";
    assert_eq!(placed.key, key);
    assert_eq!(placed.bytes, b"abc");
    assert_eq!(placed.size, 3);
    let stored = placed.stored(Ok(())).unwrap();
    match stored.insert(Ok(())).unwrap() {
        DocumentStatement::Insert(row) => {
            assert_eq!(row.user_id, USER);
            assert_eq!(row.minio_object_key, key);
            assert_eq!(row.source_filename, "notes.txt");
            assert_eq!(row.content_type, "text/plain");
            assert_eq!(row.size_bytes, 3);
            assert_eq!(row.ingest_status, "pending");
        }
        other => panic!("{other:?}"),
    }
    let recorded = stored.recorded(Ok(document(5, "pending"))).unwrap();
    assert_eq!(recorded.document_id, Uuid { value: 5 });
    assert_eq!(recorded.request.user_id, "00000000000000000000000000000001");
    assert_eq!(recorded.request.minio_object_key, key);
    assert_eq!(recorded.clone().enqueued(Ok(())), "/library");
    assert_eq!(recorded.enqueued(Err("agent down".to_string())), "/library");
}

#[test]
fn fresh_uploads_have_keys_of_their_own() {
    let read = || UploadRead {
        user_id: USER,
        file_name: "f".to_string(),
        content_type: "application/pdf".to_string(),
        bytes: Vec::new(),
    };
    let a = read().place();
    let b = read().place();
    assert_ne!(a.key, b.key);
    assert!(a.key.starts_with("users/00000000000000000000000000000001/docs/"));
    assert!(a.key.ends_with(".pdf"));
}

#[test]
fn an_upload_without_headers_gets_defaults() {
    let named = upload_handler(Some(USER))
        .unwrap()
        .field(Ok(Some(FieldHead { file_name: None, content_type: None })))
        .unwrap();
    assert_eq!(named.file_name, "upload.bin");
    assert_eq!(named.content_type, "application/octet-stream");
    assert!(named.body(Ok(Vec::new())).unwrap().place().key.ends_with(".bin"));
}

#[test]
fn an_upload_can_fail_at_each_step() {
    assert_eq!(upload_handler(None), http(401, "login required"));
    let begun = || upload_handler(Some(USER)).unwrap();
    assert_eq!(begun().field(Err("x".to_string())), http(400, "multipart parse: x"));
    assert_eq!(begun().field(Ok(None)), http(400, "no file field in form"));
    let named = || {
        begun().field(Ok(Some(FieldHead { file_name: None, content_type: None }))).unwrap()
    };
    assert_eq!(named().body(Err("x".to_string())), http(400, "read body: x"));
    let placed = || named().body(Ok(vec![1])).unwrap().place();
    let down = StorageError { status: None, text: "x".to_string() };
    assert_eq!(placed().stored(Err(down)), http(500, "upload failed"));
    let stored = || placed().stored(Ok(())).unwrap();
    assert_eq!(stored().insert(Err("x".to_string())), http(500, "db conn: x"));
    assert_eq!(stored().recorded(db_error(DbErrorKind::Other)), http(500, "db insert failed"));
}

#[test]
fn uploads_are_limited() {
    let named = || {
        upload_handler(Some(USER))
            .unwrap()
            .field(Ok(Some(FieldHead { file_name: None, content_type: None })))
            .unwrap()
    };
    assert!(named().body(Ok(vec![0; 100 * 1024 * 1024])).is_ok());
    assert_eq!(
        named().body(Ok(vec![0; 100 * 1024 * 1024 + 1])),
        http(413, "upload exceeds 100 MiB limit")
    );
}

#[test]
fn a_deletion_removes_the_document_everywhere() {
    let begun = delete_handler(Some(USER), DeleteForm { document_id: DOCUMENT }).unwrap();
    assert_eq!(begun.load(Ok(())), Ok(load_document_for_user(USER, DOCUMENT)));
    match begun.loaded(Ok(document(2, "complete"))).unwrap() {
        DeleteNext::Delete(d) => {
            assert_eq!(d.request.user_id, "00000000000000000000000000000001");
            assert_eq!(d.request.minio_object_key, "key2");
            assert_eq!(d.key, "key2");
            assert_eq!(d.statement, delete_document_row(USER, DOCUMENT));
        }
        other => panic!("{other:?}"),
    }
    assert_eq!(deletion_finished(Ok(()), Ok(()), Ok(1)), Ok("/library"));
    assert_eq!(
        deletion_finished(
            Err("agent down".to_string()),
            Err(AppError::Internal("store down".to_string())),
            Ok(1)
        ),
        Ok("/library")
    );
    assert_eq!(
        deletion_finished(Ok(()), Ok(()), db_error(DbErrorKind::Other)),
        http(500, "db delete failed")
    );
}

#[test]
fn a_document_of_someone_else_is_left_alone() {
    let begun = delete_handler(Some(USER), DeleteForm { document_id: DOCUMENT }).unwrap();
    assert_eq!(
        begun.loaded(db_error(DbErrorKind::NotFound)),
        Ok(DeleteNext::Redirect("/library"))
    );
}

#[test]
fn a_deletion_can_fail_before_it_starts() {
    let form = DeleteForm { document_id: DOCUMENT };
    assert_eq!(delete_handler(None, form), http(401, "login required"));
    let begun = delete_handler(Some(USER), form).unwrap();
    assert_eq!(begun.load(Err("x".to_string())), http(500, "db conn: x"));
    assert_eq!(
        begun.loaded(db_error(DbErrorKind::Other)),
        http(500, "load doc: database error: t")
    );
}

#[test]
fn queries_name_their_owner() {
    assert_eq!(list_documents(USER), DocumentStatement::ListOf { user_id: USER });
    assert_eq!(
        load_document_for_user(USER, DOCUMENT),
        DocumentStatement::LoadOwned { id: DOCUMENT, user_id: USER }
    );
    assert_eq!(
        delete_document_row(USER, DOCUMENT),
        DocumentStatement::DeleteOwned { id: DOCUMENT, user_id: USER }
    );
    assert_eq!(
        list_complete_minio_keys(USER),
        DocumentStatement::CompleteOf { user_id: USER }
    );
    assert_eq!(
        list_minio_keys_for_ids(USER, vec![DOCUMENT]),
        DocumentStatement::CompleteAmong { user_id: USER, ids: vec![DOCUMENT] }
    );
    assert_eq!(
        list_library_entries(USER),
        DocumentStatement::LibraryEntriesOf { user_id: USER }
    );
}
