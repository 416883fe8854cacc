use agent_rs_web::conversations::{
    append_assistant_message, append_user_message, conversation_deleted, create_conversation,
    delete_conversation, derive_title, list_conversations, list_messages, load_conversation,
    load_conversation_statement, messages_of, pinned_documents_set, set_pinned_document_ids,
    Conversation, ConversationStatement, MessageStatement, AUTO_TITLE_MAX_CHARS, DEFAULT_TITLE,
};
use agent_rs_web::double::Double;
use agent_rs_web::error::{AppError, DbError, DbErrorKind};
use agent_rs_web::ident::Uuid;

const USER: Uuid = Uuid { value: 1 };
const CONVERSATION: Uuid = Uuid { value: 2 };

fn conversation(title: &str) -> Conversation {
    Conversation {
        id: CONVERSATION,
        user_id: USER,
        title: title.to_string(),
        created_at: 0,
        updated_at: 0,
        pinned_document_ids: None,
    }
}

#[test]
fn derive_title_caps_length() {
    let long = "a".repeat(200);
    let t = derive_title(&long);
    assert!(t.chars().count() <= AUTO_TITLE_MAX_CHARS + 1); // +1 for ellipsis
    assert!(t.ends_with('…'));
}

#[test]
fn derive_title_takes_first_line() {
    assert_eq!(derive_title("first\nsecond"), "first");
}

#[test]
fn derive_title_falls_back_on_empty() {
    assert_eq!(derive_title("   \n "), DEFAULT_TITLE);
}

#[test]
fn titles_at_the_cap_are_kept_whole() {
    let exact = "é".repeat(80);
    assert_eq!(derive_title(&exact), exact);
    assert_eq!(derive_title(&"é".repeat(81)), format!("{exact}…"));
    assert_eq!(derive_title("\n\n  hello \t\nworld"), "hello");
    assert_eq!(derive_title("a\r\nb"), "a");
}

#[test]
fn a_new_conversation_has_the_default_title() {
    assert_eq!(
        create_conversation(USER),
        ConversationStatement::Insert { user_id: USER, title: "New conversation".to_string() }
    );
}

#[test]
fn statements_name_their_owner() {
    assert_eq!(list_conversations(USER), ConversationStatement::ListOf { user_id: USER });
    assert_eq!(
        load_conversation_statement(USER, CONVERSATION),
        ConversationStatement::LoadOwned { id: CONVERSATION, user_id: USER }
    );
    assert_eq!(
        delete_conversation(USER, CONVERSATION),
        ConversationStatement::DeleteOwned { id: CONVERSATION, user_id: USER }
    );
    assert_eq!(
        list_messages(CONVERSATION),
        MessageStatement::ListOf { conversation_id: CONVERSATION }
    );
}

#[test]
fn a_missing_conversation_is_a_validation_failure() {
    let err = |kind| Err(DbError { kind, text: "t".to_string() });
    assert_eq!(load_conversation(Ok(conversation("x"))), Ok(conversation("x")));
    assert_eq!(
        load_conversation(err(DbErrorKind::NotFound)),
        Err(AppError::Validation("conversation not found".to_string()))
    );
    assert_eq!(load_conversation(err(DbErrorKind::Other)), Err(AppError::Db("t".to_string())));
}

#[test]
fn the_first_message_names_the_conversation() {
    let doc = Uuid { value: 7 };
    let (row, after) = append_user_message(&conversation(DEFAULT_TITLE), "Why?\nBecause.", &[doc]);
    assert_eq!(row.conversation_id, CONVERSATION);
    assert_eq!(row.role, "user");
    assert_eq!(row.content, "Why?\nBecause.");
    assert_eq!(row.attached_document_ids, vec![Some(doc)]);
    assert!(row.citations.is_empty());
    assert_eq!(row.confidence, None);
    assert_eq!(
        after,
        ConversationStatement::Retitle { id: CONVERSATION, title: "Why?".to_string() }
    );
}

#[test]
fn a_chosen_title_survives_further_messages() {
    let (_, after) = append_user_message(&conversation("Mine"), "Why?", &[]);
    assert_eq!(after, ConversationStatement::Touch { id: CONVERSATION });
}

#[test]
fn replies_attach_no_documents() {
    let c = Some(Double { bits: 1 });
    let (row, after) = append_assistant_message(CONVERSATION, "Yes".to_string(), Vec::new(), c);
    assert_eq!(row.role, "assistant");
    assert_eq!(row.content, "Yes");
    assert!(row.attached_document_ids.is_empty());
    assert_eq!(row.confidence, c);
    assert_eq!(after, ConversationStatement::Touch { id: CONVERSATION });
}

#[test]
fn a_deletion_says_how_many_it_removed() {
    assert_eq!(conversation_deleted(Ok(1)), Ok(1));
    assert_eq!(conversation_deleted(Ok(0)), Ok(0));
    assert_eq!(
        conversation_deleted(Err(DbError { kind: DbErrorKind::Other, text: "t".to_string() })),
        Err(AppError::Db("t".to_string()))
    );
}

#[test]
fn pinning_says_how_many_it_set() {
    assert_eq!(pinned_documents_set(Ok(1)), Ok(1));
    assert_eq!(pinned_documents_set(Ok(0)), Ok(0));
    assert_eq!(
        pinned_documents_set(Err(DbError { kind: DbErrorKind::Other, text: "t".to_string() })),
        Err(AppError::Db("t".to_string()))
    );
}

#[test]
fn messages_are_those_of_the_conversation() {
    assert_eq!(messages_of(&conversation("x")), list_messages(CONVERSATION));
}

#[test]
fn pinning_stores_a_set_or_clears_it() {
    let doc = Uuid { value: 7 };
    assert_eq!(
        set_pinned_document_ids(USER, CONVERSATION, Some(&[doc])),
        ConversationStatement::SetPinned {
            id: CONVERSATION,
            user_id: USER,
            pinned: Some(vec![Some(doc)])
        }
    );
    assert_eq!(
        set_pinned_document_ids(USER, CONVERSATION, None),
        ConversationStatement::SetPinned { id: CONVERSATION, user_id: USER, pinned: None }
    );
    assert_eq!(
        set_pinned_document_ids(USER, CONVERSATION, Some(&[])),
        ConversationStatement::SetPinned {
            id: CONVERSATION,
            user_id: USER,
            pinned: Some(Vec::new())
        }
    );
}
