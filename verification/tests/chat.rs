use agent_rs_web::conversations::{
    CitationRecord, CitationsColumn, Conversation, ConversationStatement, JsonField, Message,
    MessageStatement,
};
use agent_rs_web::double::Double;
use agent_rs_web::error::{DbError, DbErrorKind};
use agent_rs_web::ident::Uuid;
use agent_rs_web::routes::ask::citation_record;
use agent_rs_web::routes::chat::{
    citation_from_json, clear_pinning_action, conversation_href, conversation_loaded,
    conversation_of_path, create_conversation_action, flatten, list_conversations_action,
    load_conversation_messages, load_pinning_state, messages_query, named_conversation,
    persisted_to_view, pinning_written, render_message, render_pinning_panel, save_pinning_action, BudgetBadge,
    BudgetSnapshotView, ChatPage, CitationView, ConversationList, ConversationPage, LibraryEntry,
    MessageList, MessageView, PinningPanel, ShownMessage,
};

const USER: Uuid = Uuid { value: 1 };
const CONVERSATION: Uuid = Uuid { value: 2 };

fn conversation(pinned: Option<Vec<Option<Uuid>>>) -> Conversation {
    Conversation {
        id: CONVERSATION,
        user_id: USER,
        title: "T".to_string(),
        created_at: 0,
        updated_at: 0,
        pinned_document_ids: pinned,
    }
}

fn db_error<T>(kind: DbErrorKind) -> Result<T, DbError> {
    Err(DbError { kind, text: "t".to_string() })
}

fn entry(id: u128, status: &str) -> LibraryEntry {
    LibraryEntry {
        id: Uuid { value: id },
        filename: format!("f{id}"),
        ingest_status: status.to_string(),
    }
}

fn words(s: &str) -> JsonField {
    JsonField::Text(s.to_string())
}

fn message(role: &str, confidence: Option<f64>, citations: Vec<CitationView>) -> MessageView {
    MessageView {
        id: Uuid { value: 3 },
        role: role.to_string(),
        content: "c".to_string(),
        citations,
        confidence: confidence.map(|c| Double { bits: c.to_bits() }),
    }
}

fn citation(index: u32) -> CitationView {
    CitationView {
        index,
        snippet: "snip".to_string(),
        minio_object_key: "key".to_string(),
        section_path: "1 > 2".to_string(),
    }
}

#[test]
fn conversations_are_listed_in_order() {
    let views = list_conversations_action(Ok(vec![conversation(None)])).unwrap();
    assert_eq!(views[0].id, CONVERSATION);
    assert_eq!(views[0].title, "T");
    match ChatPage(Ok(views)) {
        ConversationList::Links(links) => {
            assert_eq!(links[0].href, "/chat/00000000-0000-0000-0000-000000000002");
            assert_eq!(links[0].title, "T");
        }
        other => panic!("{other:?}"),
    }
    assert_eq!(
        list_conversations_action(db_error(DbErrorKind::Other)),
        Err("list: database error: t".to_string())
    );
    assert_eq!(
        ChatPage(Ok(Vec::new())),
        ConversationList::Empty("No conversations yet. Click the button above.".to_string())
    );
    assert_eq!(
        ChatPage(Err("x".to_string())),
        ConversationList::Failed("Error: x".to_string())
    );
}

#[test]
fn a_new_conversation_opens() {
    assert_eq!(
        create_conversation_action(Ok(conversation(None))),
        Ok("/chat/00000000-0000-0000-0000-000000000002".to_string())
    );
    assert_eq!(
        create_conversation_action(db_error(DbErrorKind::Other)),
        Err("create: database error: t".to_string())
    );
}

#[test]
fn addresses_lead_back_to_their_conversation() {
    let href = conversation_href(CONVERSATION);
    assert_eq!(conversation_of_path(href.strip_prefix("/chat/")), Some(CONVERSATION));
    assert_eq!(conversation_of_path(Some("nonsense")), None);
    assert_eq!(conversation_of_path(None), None);
    assert_eq!(named_conversation(Some(CONVERSATION)), Ok(CONVERSATION));
    assert_eq!(named_conversation(None), Err("no conversation id".to_string()));
}

#[test]
fn a_conversation_of_someone_else_is_not_found() {
    assert_eq!(conversation_loaded(Ok(conversation(None))), Ok(conversation(None)));
    assert_eq!(
        conversation_loaded(db_error(DbErrorKind::NotFound)),
        Err("load: conversation not found".to_string())
    );
    assert_eq!(
        conversation_loaded(db_error(DbErrorKind::Other)),
        Err("load: database error: t".to_string())
    );
}

#[test]
fn turns_are_read_through_their_conversation() {
    assert_eq!(
        messages_query(Ok(conversation(None))),
        Ok(MessageStatement::ListOf { conversation_id: CONVERSATION })
    );
    assert_eq!(
        messages_query(db_error(DbErrorKind::NotFound)),
        Err("load: conversation not found".to_string())
    );
}

#[test]
fn without_a_choice_every_complete_document_is_pinned() {
    let library = vec![entry(1, "complete"), entry(2, "pending")];
    let state = load_pinning_state(&conversation(None), Ok(library)).unwrap();
    assert!(state.auto_mode);
    assert!(state.documents[0].available && state.documents[0].pinned);
    assert!(!state.documents[1].available && !state.documents[1].pinned);
    assert_eq!(state.documents[1].filename, "f2");
    assert_eq!(
        load_pinning_state(&conversation(None), db_error(DbErrorKind::Other)),
        Err("library: database error: t".to_string())
    );
}

#[test]
fn a_choice_pins_exactly_its_documents() {
    let library = vec![entry(1, "complete"), entry(2, "pending"), entry(3, "complete")];
    let chosen = Some(vec![Some(Uuid { value: 2 }), None, Some(Uuid { value: 3 })]);
    let state = load_pinning_state(&conversation(chosen), Ok(library.clone())).unwrap();
    assert!(!state.auto_mode);
    let pinned: Vec<bool> = state.documents.iter().map(|d| d.pinned).collect();
    assert_eq!(pinned, vec![false, true, true]);
    let nothing = load_pinning_state(&conversation(Some(Vec::new())), Ok(library)).unwrap();
    assert!(!nothing.auto_mode);
    assert!(nothing.documents.iter().all(|d| !d.pinned));
}

#[test]
fn saved_pins_are_shown_again() {
    let ids = [Uuid { value: 3 }, Uuid { value: 1 }];
    let mut values: Vec<String> = ids.iter().map(|id| id.hyphenated()).collect();
    values.insert(1, "nonsense".to_string());
    let column = match save_pinning_action(USER, CONVERSATION, &values) {
        ConversationStatement::SetPinned { id, user_id, pinned } => {
            assert_eq!(id, CONVERSATION);
            assert_eq!(user_id, USER);
            pinned
        }
        other => panic!("{other:?}"),
    };
    assert_eq!(column, Some(vec![Some(ids[0]), Some(ids[1])]));
    assert_eq!(flatten(&column.clone().unwrap()), ids.to_vec());
    let library = vec![entry(1, "complete"), entry(2, "complete"), entry(3, "complete")];
    let state = load_pinning_state(&conversation(column), Ok(library)).unwrap();
    let pinned: Vec<bool> = state.documents.iter().map(|d| d.pinned).collect();
    assert_eq!(pinned, vec![true, false, true]);
}

#[test]
fn clearing_goes_back_to_auto_mode() {
    assert_eq!(
        clear_pinning_action(USER, CONVERSATION),
        ConversationStatement::SetPinned { id: CONVERSATION, user_id: USER, pinned: None }
    );
    assert_eq!(
        save_pinning_action(USER, CONVERSATION, &Vec::new()),
        ConversationStatement::SetPinned {
            id: CONVERSATION,
            user_id: USER,
            pinned: Some(Vec::new())
        }
    );
    assert_eq!(pinning_written("save", Ok(1)), Ok(()));
    assert_eq!(
        pinning_written("clear", db_error(DbErrorKind::Other)),
        Err("clear: database error: t".to_string())
    );
}

#[test]
fn the_panel_disables_what_is_not_complete() {
    let library = vec![entry(1, "complete"), entry(2, "indexing")];
    let state = load_pinning_state(&conversation(None), Ok(library)).unwrap();
    match render_pinning_panel(CONVERSATION, Ok(state)) {
        PinningPanel::Choice { mode, conversation_id, rows } => {
            assert_eq!(mode, "auto (every complete doc)");
            assert_eq!(conversation_id, "00000000-0000-0000-0000-000000000002");
            assert_eq!(rows[0].value, "00000000-0000-0000-0000-000000000001");
            assert_eq!(rows[0].status_note, "");
            assert!(rows[0].checked && !rows[0].disabled);
            assert_eq!(
                rows[0].label_style,
                "display: flex; align-items: center; gap: 0.5rem; opacity: 1;"
            );
            assert_eq!(rows[1].filename, "f2");
            assert_eq!(rows[1].status_note, " (indexing)");
            assert!(!rows[1].checked && rows[1].disabled);
            assert_eq!(
                rows[1].label_style,
                "display: flex; align-items: center; gap: 0.5rem; opacity: 0.5;"
            );
        }
        other => panic!("{other:?}"),
    }
    let chosen = load_pinning_state(&conversation(Some(Vec::new())), Ok(vec![entry(1, "x")]));
    match render_pinning_panel(CONVERSATION, chosen) {
        PinningPanel::Choice { mode, .. } => assert_eq!(mode, "custom subset"),
        other => panic!("{other:?}"),
    }
    let empty = load_pinning_state(&conversation(None), Ok(Vec::new()));
    assert_eq!(render_pinning_panel(CONVERSATION, empty), PinningPanel::NoDocuments);
    assert_eq!(
        render_pinning_panel(CONVERSATION, Err("x".to_string())),
        PinningPanel::Failed("Pinning panel error: x".to_string())
    );
}

#[test]
fn stored_citations_are_read_leniently() {
    let record = |index, snippet| CitationRecord {
        index,
        snippet,
        minio_object_key: JsonField::Absent,
        section_path: JsonField::Other,
    };
    let c = citation_from_json(&record(JsonField::Unsigned(3), words("s"))).unwrap();
    assert_eq!(c.index, 3);
    assert_eq!(c.snippet, "s");
    assert_eq!(c.minio_object_key, "");
    assert_eq!(c.section_path, "");
    let odd = citation_from_json(&record(JsonField::Unsigned(0x1_0000_0005), JsonField::Other));
    assert_eq!(odd.as_ref().map(|c| c.index), Some(5));
    assert_eq!(odd.map(|c| c.snippet), Some(String::new()));
    assert_eq!(citation_from_json(&record(JsonField::Unsigned(3), JsonField::Absent)), None);
    assert_eq!(citation_from_json(&record(JsonField::Absent, words("s"))), None);
    assert_eq!(citation_from_json(&record(words("3"), words("s"))), None);
    assert_eq!(citation_from_json(&record(JsonField::Other, words("s"))), None);
}

#[test]
fn stored_citations_read_back() {
    let c = citation(7);
    assert_eq!(citation_from_json(&citation_record(&c)), Some(c));
}

#[test]
fn stored_turns_are_shown() {
    let mut stored = Message {
        id: Uuid { value: 3 },
        conversation_id: CONVERSATION,
        role: "assistant".to_string(),
        content: "c".to_string(),
        attached_document_ids: Vec::new(),
        citations: CitationsColumn::Items(vec![
            citation_record(&citation(1)),
            CitationRecord {
                index: JsonField::Absent,
                snippet: JsonField::Absent,
                minio_object_key: JsonField::Absent,
                section_path: JsonField::Absent,
            },
            citation_record(&citation(2)),
        ]),
        confidence: Some(Double { bits: 0.25f64.to_bits() }),
        created_at: 0,
    };
    let view = persisted_to_view(&stored);
    assert_eq!(view, message("assistant", Some(0.25), vec![citation(1), citation(2)]));
    assert_eq!(load_conversation_messages(Ok(vec![stored.clone()])), Ok(vec![view]));
    stored.citations = CitationsColumn::NotAnArray;
    assert!(persisted_to_view(&stored).citations.is_empty());
    assert_eq!(
        load_conversation_messages(db_error(DbErrorKind::Other)),
        Err("messages: database error: t".to_string())
    );
}

#[test]
fn badges_tell_verified_answers_from_others() {
    let badge = |m: MessageView, shown: &str| render_message(&m, shown).badge;
    assert_eq!(badge(message("assistant", Some(0.5), vec![]), "0.50"), "✓ verified · conf 0.50");
    assert_eq!(badge(message("assistant", Some(0.49), vec![]), "0.49"), "low confidence · conf 0.49");
    assert_eq!(badge(message("assistant", None, vec![]), ""), "");
    assert_eq!(badge(message("user", Some(0.9), vec![]), "0.90"), "");
}

#[test]
fn turns_are_rendered() {
    let block = render_message(&message("user", None, vec![]), "");
    assert_eq!(
        block.style,
        "padding: 0.8rem; margin-bottom: 0.5rem; background: #eef; border-radius: 4px;"
    );
    assert_eq!(block.role, "user");
    assert_eq!(block.content, "c");
    assert_eq!(block.citations, None);
    let block = render_message(&message("assistant", None, vec![citation(1), citation(12)]), "");
    assert!(block.style.contains("#efe"));
    let details = block.citations.clone().unwrap();
    assert_eq!(details.summary, "2 citation(s)");
    assert_eq!(details.lines[1].label, "[12]");
    assert_eq!(details.lines[1].section_path, "1 > 2");
    assert_eq!(details.lines[1].snippet, "snip");
    let shown = ShownMessage {
        message: message("assistant", None, vec![citation(1), citation(12)]),
        confidence: String::new(),
    };
    assert_eq!(ConversationPage(Ok(vec![shown])), MessageList::Turns(vec![block]));
    assert_eq!(
        ConversationPage(Err("x".to_string())),
        MessageList::Failed("Error: x".to_string())
    );
}

#[test]
fn budgets_are_summed_up() {
    let budget = |calls| BudgetSnapshotView {
        total_tokens: 1234,
        cached_input_tokens: 56,
        cost_usd: Double { bits: 0 },
        call_count: calls,
    };
    let lines = BudgetBadge(budget(1), "0.0120", "0.012000");
    assert_eq!(lines.summary, "tokens 1234 · $0.0120 · 1 call");
    assert_eq!(lines.total_tokens, "total tokens: 1234");
    assert_eq!(lines.cached_input_tokens, "cached input tokens: 56");
    assert_eq!(lines.cost, "cost (USD): 0.012000");
    assert_eq!(lines.calls, "LLM calls: 1");
    assert_eq!(BudgetBadge(budget(0), "0", "0").summary, "tokens 1234 · $0 · 0 calls");
    assert_eq!(BudgetBadge(budget(2), "0", "0").summary, "tokens 1234 · $0 · 2 calls");
}
