use agent_rs_web::conversations::{
    CitationsColumn, Conversation, ConversationStatement, JsonField, Message, MessageStatement,
    DEFAULT_TITLE,
};
use agent_rs_web::double::Double;
use agent_rs_web::error::{DbError, DbErrorKind};
use agent_rs_web::ident::Uuid;
use agent_rs_web::routes::ask::{
    ask_stream_handler, connect_failed, AskItem, AskLoaded, AskPayload, Relay, RelayEvent,
    RelayStep,
};
use agent_rs_web::routes::chat::{AskFinalView, AskStreamForm, BudgetSnapshotView, CitationView};
use agent_rs_web::routes::library::{
    list_complete_minio_keys, list_minio_keys_for_ids, ActiveDocument,
};
use agent_rs_web::routes::HttpError;

const USER: Uuid = Uuid { value: 1 };
const CONVERSATION: Uuid = Uuid { value: 2 };

fn form(prompt: &str) -> AskStreamForm {
    AskStreamForm { conversation_id: CONVERSATION, prompt: prompt.to_string() }
}

fn conversation(pinned: Option<Vec<Option<Uuid>>>) -> Conversation {
    Conversation {
        id: CONVERSATION,
        user_id: USER,
        title: DEFAULT_TITLE.to_string(),
        created_at: 0,
        updated_at: 0,
        pinned_document_ids: pinned,
    }
}

fn turn(id: u128, role: &str, content: &str) -> Message {
    Message {
        id: Uuid { value: id },
        conversation_id: CONVERSATION,
        role: role.to_string(),
        content: content.to_string(),
        attached_document_ids: Vec::new(),
        citations: CitationsColumn::NotAnArray,
        confidence: None,
        created_at: 0,
    }
}

fn db_error<T>(kind: DbErrorKind) -> Result<T, DbError> {
    Err(DbError { kind, text: "t".to_string() })
}

fn http<T>(status: u16, text: &str) -> Result<T, HttpError> {
    Err(HttpError { status, text: text.to_string() })
}

fn loaded(pinned: Option<Vec<Option<Uuid>>>) -> AskLoaded {
    ask_stream_handler(Some(USER), form(" why? ")).unwrap().loaded(Ok(conversation(pinned))).unwrap()
}

fn active(id: u128, key: &str) -> ActiveDocument {
    ActiveDocument { id: Uuid { value: id }, minio_object_key: key.to_string() }
}

fn delta(text: &str) -> AskItem {
    AskItem::Event(Some(AskPayload::PartialAnswer { text_delta: text.to_string() }))
}

fn final_view(answer: &str) -> AskFinalView {
    AskFinalView {
        answer: answer.to_string(),
        confidence: Double { bits: 0.75f64.to_bits() },
        citations: vec![CitationView {
            index: 1,
            snippet: "s".to_string(),
            minio_object_key: "k".to_string(),
            section_path: "p".to_string(),
        }],
    }
}

fn final_item(answer: &str) -> AskItem {
    AskItem::Event(Some(AskPayload::Final(final_view(answer))))
}

fn recorded(items: Vec<AskItem>) -> String {
    let mut relay = Relay::new();
    for item in items {
        if !relay.on_item(item).goes_on(true) {
            break;
        }
    }
    relay.finish(CONVERSATION).0.content
}

#[test]
fn a_question_needs_a_user_and_a_prompt() {
    assert_eq!(ask_stream_handler(None, form("x")), http(401, "login required"));
    assert_eq!(ask_stream_handler(Some(USER), form(" \n ")), http(400, "empty prompt"));
    let begun = ask_stream_handler(Some(USER), form("x")).unwrap();
    assert_eq!(begun.load(Err("x".to_string())), http(500, "db conn: x"));
    assert_eq!(
        begun.load(Ok(())),
        Ok(ConversationStatement::LoadOwned { id: CONVERSATION, user_id: USER })
    );
}

#[test]
fn a_question_in_a_conversation_of_someone_else_is_refused() {
    let begun = || ask_stream_handler(Some(USER), form("x")).unwrap();
    assert_eq!(
        begun().loaded(db_error(DbErrorKind::NotFound)),
        http(400, "load conversation: conversation not found")
    );
    assert_eq!(
        begun().loaded(db_error(DbErrorKind::Other)),
        http(500, "load conversation: database error: t")
    );
}

#[test]
fn the_documents_follow_the_pinning() {
    let doc = Uuid { value: 8 };
    assert_eq!(loaded(None).documents(), Some(list_complete_minio_keys(USER)));
    assert_eq!(
        loaded(Some(vec![None, Some(doc)])).documents(),
        Some(list_minio_keys_for_ids(USER, vec![doc]))
    );
    assert_eq!(loaded(Some(vec![])).documents(), None);
    assert_eq!(loaded(Some(vec![None])).documents(), None);
    let docs = || vec![active(8, "k")];
    assert_eq!(loaded(None).with_documents(Ok(docs())).unwrap().active_documents, docs());
    assert!(loaded(Some(vec![])).with_documents(Ok(docs())).unwrap().active_documents.is_empty());
    assert_eq!(
        loaded(None).with_documents(db_error(DbErrorKind::Other)),
        http(500, "active docs: database error: t")
    );
    assert_eq!(
        loaded(Some(vec![Some(doc)])).with_documents(db_error(DbErrorKind::Other)),
        http(500, "pinned docs: database error: t")
    );
}

#[test]
fn the_agent_is_told_the_whole_history() {
    let grounded = loaded(None).with_documents(Ok(vec![active(8, "k"), active(9, "l")])).unwrap();
    assert_eq!(
        grounded.history(),
        MessageStatement::ListOf { conversation_id: CONVERSATION }
    );
    assert_eq!(
        grounded.clone().with_history(db_error(DbErrorKind::Other)),
        http(500, "history: database error: t")
    );
    let ready = grounded
        .with_history(Ok(vec![turn(5, "user", "a"), turn(6, "assistant", "b")]))
        .unwrap();
    let (row, after) = ready.user_turn();
    assert_eq!(row.conversation_id, CONVERSATION);
    assert_eq!(row.role, "user");
    assert_eq!(row.content, " why? ");
    assert_eq!(
        row.attached_document_ids,
        vec![Some(Uuid { value: 8 }), Some(Uuid { value: 9 })]
    );
    assert!(row.citations.is_empty());
    assert_eq!(
        after,
        ConversationStatement::Retitle { id: CONVERSATION, title: "why?".to_string() }
    );
    assert_eq!(
        ready.clone().persisted(db_error(DbErrorKind::Other)),
        http(500, "persist user: database error: t")
    );
    let request = ready.persisted(Ok(turn(0xAB, "user", " why? "))).unwrap();
    assert_eq!(request.user_id, "00000000000000000000000000000001");
    assert_eq!(request.query, " why? ");
    assert_eq!(request.history.len(), 2);
    assert_eq!(request.history[0].role, "user");
    assert_eq!(request.history[1].content, "b");
    assert_eq!(request.active_document_keys, vec!["k", "l"]);
    assert!(request.history_document_keys.is_empty());
    assert_eq!(request.trace_id, "00000000-0000-0000-0000-0000000000ab");
    assert_eq!(request.strategy, "");
    assert_eq!(request.limit, 0);
}

#[test]
fn a_turn_without_documents_attaches_none() {
    let ready = loaded(Some(vec![]))
        .with_documents(Ok(vec![active(8, "k")]))
        .unwrap()
        .with_history(Ok(vec![]))
        .unwrap();
    assert!(ready.user_turn().0.attached_document_ids.is_empty());
    let request = ready.persisted(Ok(turn(5, "user", "x"))).unwrap();
    assert!(request.active_document_keys.is_empty());
}

#[test]
fn each_item_has_its_event() {
    let mut relay = Relay::new();
    assert_eq!(
        relay.on_item(delta("a\nb")),
        RelayStep::Send(RelayEvent::Delta("\"a\\nb\"".to_string()))
    );
    assert_eq!(
        relay.on_item(final_item("x")),
        RelayStep::Send(RelayEvent::Final(final_view("x")))
    );
    let budget = BudgetSnapshotView {
        total_tokens: 1,
        cached_input_tokens: 2,
        cost_usd: Double { bits: 3 },
        call_count: 4,
    };
    assert_eq!(
        relay.on_item(AskItem::Event(Some(AskPayload::BudgetSnapshot(budget)))),
        RelayStep::Send(RelayEvent::Budget(budget))
    );
    assert_eq!(relay.on_item(AskItem::Event(Some(AskPayload::IndexingWait))), RelayStep::Skip);
    assert_eq!(relay.on_item(AskItem::Event(Some(AskPayload::ToolCall))), RelayStep::Skip);
    assert_eq!(relay.on_item(AskItem::Event(None)), RelayStep::Skip);
    let error = AskPayload::Error { code: "E7".to_string(), message: "no".to_string() };
    assert_eq!(
        relay.on_item(AskItem::Event(Some(error))),
        RelayStep::SendLast(RelayEvent::Error("E7: no".to_string()))
    );
    assert_eq!(
        relay.on_item(AskItem::Broken("gone".to_string())),
        RelayStep::SendLast(RelayEvent::Error("grpc transport: gone".to_string()))
    );
    assert_eq!(
        connect_failed("refused"),
        RelayEvent::Error("grpc connect: refused".to_string())
    );
}

#[test]
fn events_are_named_in_the_stream() {
    let budget = BudgetSnapshotView {
        total_tokens: 0,
        cached_input_tokens: 0,
        cost_usd: Double { bits: 0 },
        call_count: 0,
    };
    assert_eq!(RelayEvent::Delta(String::new()).kind(), "delta");
    assert_eq!(RelayEvent::Final(final_view("")).kind(), "final");
    assert_eq!(RelayEvent::Budget(budget).kind(), "budget");
    assert_eq!(RelayEvent::Error(String::new()).kind(), "error");
}

#[test]
fn the_relay_ends_with_an_error_or_without_a_listener() {
    let event = || RelayEvent::Error(String::new());
    assert!(RelayStep::Skip.goes_on(false));
    assert!(RelayStep::Send(event()).goes_on(true));
    assert!(!RelayStep::Send(event()).goes_on(false));
    assert!(!RelayStep::SendLast(event()).goes_on(true));
}

#[test]
fn the_final_answer_is_recorded_with_its_citations() {
    let mut relay = Relay::new();
    relay.on_item(delta("draft"));
    relay.on_item(final_item("first"));
    relay.on_item(final_item("answer"));
    relay.on_item(delta("more"));
    let (row, after) = relay.finish(CONVERSATION);
    assert_eq!(row.conversation_id, CONVERSATION);
    assert_eq!(row.role, "assistant");
    assert_eq!(row.content, "answer");
    assert_eq!(row.confidence, Some(Double { bits: 0.75f64.to_bits() }));
    assert_eq!(row.citations.len(), 1);
    assert_eq!(row.citations[0].index, JsonField::Unsigned(1));
    assert_eq!(row.citations[0].snippet, JsonField::Text("s".to_string()));
    assert_eq!(row.citations[0].minio_object_key, JsonField::Text("k".to_string()));
    assert_eq!(row.citations[0].section_path, JsonField::Text("p".to_string()));
    assert_eq!(after, ConversationStatement::Touch { id: CONVERSATION });
}

#[test]
fn without_a_final_answer_the_pieces_are_recorded() {
    assert_eq!(recorded(vec![delta("Hel"), AskItem::Event(None), delta("lo")]), "Hello");
    assert_eq!(recorded(vec![delta("Hel"), AskItem::Broken("x".to_string())]), "Hel");
    assert_eq!(recorded(vec![final_item("")]), "");
}

#[test]
fn without_any_answer_the_reason_is_recorded() {
    assert_eq!(recorded(vec![]), "agent produced no terminal event");
    assert_eq!(recorded(vec![delta("")]), "agent produced no terminal event");
    assert_eq!(
        recorded(vec![AskItem::Broken("x".to_string())]),
        "agent error (see live event)"
    );
    assert_eq!(
        recorded(vec![
            AskItem::Event(Some(AskPayload::Error {
                code: "c".to_string(),
                message: "m".to_string()
            })),
            delta("never read"),
        ]),
        "agent error (see live event)"
    );
}

#[test]
fn a_browser_that_has_gone_still_leaves_a_record() {
    let mut relay = Relay::new();
    assert!(relay.on_item(delta("so ")).goes_on(true));
    assert!(!relay.on_item(delta("far")).goes_on(false));
    let (row, _) = relay.finish(CONVERSATION);
    assert_eq!(row.content, "so far");
    assert_eq!(row.confidence, None);
    assert!(row.citations.is_empty());
}
