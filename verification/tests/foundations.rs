use agent_rs_web::db::{build_pool, redis_url};
use agent_rs_web::double::Double;
use agent_rs_web::error::{optional, AppError, DbError, DbErrorKind, ServiceError};
use agent_rs_web::grpc::{
    connect, delete_document, enqueue_index, get_document_status, DEFAULT_AGENT_GRPC_URL,
};
use agent_rs_web::ident::Uuid;
use agent_rs_web::json::{decode_or_raw, encode};
use agent_rs_web::minio_client::{
    content_type_to_ext, delete_by_key, object_key, put_bytes, MinioConfig, StorageError,
};
use agent_rs_web::text::{
    before_char, decimal_text, is_blank, join, signed_decimal_text, split_char, strip_prefix,
    to_lower, trim, trim_end_char, trim_start_char, white,
};

#[test]
fn text_agrees_with_the_standard_library() {
    for s in [
        "",
        " ",
        "a",
        " a b ",
        "\t\u{a0}x\u{3000}\r\n",
        "a\nb\n",
        "\n\n",
        "ÄÖ ß\u{2028}",
    ] {
        assert_eq!(trim(s), s.trim());
        assert_eq!(is_blank(s), s.trim().is_empty());
        assert_eq!(to_lower(s), s.to_ascii_lowercase());
        assert_eq!(trim_start_char(s, ' '), s.trim_start_matches(' '));
        assert_eq!(trim_end_char(s, '\r'), s.trim_end_matches('\r'));
        assert_eq!(split_char(s, '\n'), s.split('\n').collect::<Vec<_>>());
        assert_eq!(before_char(s, '\n'), s.split('\n').next().unwrap_or_default());
        assert_eq!(join(&split_char(s, '\n'), "\n"), s);
        assert_eq!(strip_prefix(s, " a").as_deref(), s.strip_prefix(" a"));
    }
    for n in 0..0x1_0000u32 {
        if let Some(c) = char::from_u32(n) {
            assert_eq!(white(c), c.is_whitespace());
        }
    }
}

#[test]
fn numbers_are_written_in_decimal() {
    for n in [0, 7, 10, 99, 100, u64::MAX] {
        assert_eq!(decimal_text(n), n.to_string());
    }
    for n in [0, -1, 42, i32::MAX, i32::MIN] {
        assert_eq!(signed_decimal_text(n), n.to_string());
    }
}

#[test]
fn identifiers_have_two_text_forms() {
    let id = Uuid { value: 0x0123_4567_89AB_CDEF_0011_2233_4455_6677 };
    assert_eq!(id.simple(), "0123456789abcdef0011223344556677");
    assert_eq!(id.hyphenated(), "01234567-89ab-cdef-0011-223344556677");
}

#[test]
fn identifiers_read_back() {
    let id = Uuid { value: 0xFFFF_0000_1234_5678_9ABC_DEF0_0000_0001 };
    assert_eq!(Uuid::parse_str(&id.simple()), Some(id));
    assert_eq!(Uuid::parse_str(&id.hyphenated()), Some(id));
    assert_eq!(Uuid::parse_str(&id.hyphenated().to_uppercase()), Some(id));
    assert_eq!(Uuid::parse_str(&format!("{{{}}}", id.hyphenated())), Some(id));
    assert_eq!(Uuid::parse_str(&format!("urn:uuid:{}", id.hyphenated())), Some(id));
    assert_eq!(Uuid::parse_str(&format!("URN:UUID:{}", id.hyphenated())), Some(id));
}

#[test]
fn other_texts_spell_no_identifier() {
    let id = Uuid { value: 5 };
    for s in [
        "".to_string(),
        "x".to_string(),
        id.simple()[1..].to_string(),
        format!("{}0", id.simple()),
        format!("{{{}", id.hyphenated()),
        format!("{{{}}}", id.simple()),
        format!("urn:uuid:{}", id.simple()),
        id.simple().replace('0', "g"),
        format!(" {}", id.simple()),
        "0".repeat(31) + "é",
        "00000000_0000-0000-0000-000000000000".to_string(),
    ] {
        assert_eq!(Uuid::parse_str(&s), None, "{s}");
    }
}

#[test]
fn fresh_identifiers_differ_and_are_of_version_four() {
    let a = Uuid::new_v4();
    let b = Uuid::new_v4();
    assert_ne!(a, b);
    assert_eq!((a.value >> 76) & 0xF, 4);
    assert_eq!((a.value >> 62) & 0x3, 2);
    assert_eq!(a.hyphenated().as_bytes()[14], b'4');
}

#[test]
fn json_strings_are_one_line_and_read_back() {
    assert_eq!(encode("a\"b\\c\n\t\r\u{8}\u{c}\u{1}é"), "\"a\\\"b\\\\c\\n\\t\\r\\b\\f\\u0001é\"");
    assert_eq!(encode(""), "\"\"");
    for s in ["", "two\nlines", "quote \" and \\", "\u{0}\u{1f}\u{7f}", "日本"] {
        assert!(!encode(s).contains('\n'));
        assert_eq!(decode_or_raw(&encode(s)), s);
    }
}

#[test]
fn text_that_is_no_json_string_stays_as_it_is() {
    assert_eq!(decode_or_raw("plain"), "plain");
    assert_eq!(decode_or_raw("12"), "12");
    assert_eq!(decode_or_raw("\"open"), "\"open");
    assert_eq!(decode_or_raw(" \"a\" "), "a");
    assert_eq!(decode_or_raw("\"\\u00e9\""), "é");
}

#[test]
fn doubles_are_ordered_around_one_half() {
    for (x, expected) in [
        (0.5, true),
        (0.75, true),
        (1.0, true),
        (f64::INFINITY, true),
        (0.49999999999999994, false),
        (0.0, false),
        (-0.0, false),
        (-0.75, false),
        (f64::NEG_INFINITY, false),
        (f64::NAN, false),
    ] {
        assert_eq!(Double { bits: x.to_bits() }.half_or_more(), expected);
        assert_eq!(x >= 0.5, expected);
    }
}

#[test]
fn errors_name_their_kind() {
    let s = || "x".to_string();
    assert_eq!(AppError::Db(s()).message(), "database error: x");
    assert_eq!(AppError::Password(s()).message(), "password error: x");
    assert_eq!(AppError::Unauthenticated.message(), "not authenticated");
    assert_eq!(AppError::Grpc(s()).message(), "grpc error: x");
    assert_eq!(AppError::Validation(s()).message(), "x");
    assert_eq!(AppError::Internal(s()).into_server_fn_error(), "internal error: x");
}

#[test]
fn service_failures_become_errors_of_their_kind() {
    let s = || "x".to_string();
    assert_eq!(AppError::from(ServiceError::Pool(s())), AppError::Db(s()));
    assert_eq!(AppError::from(ServiceError::Password(s())), AppError::Password(s()));
    assert_eq!(AppError::from(ServiceError::GrpcStatus(s())), AppError::Grpc(s()));
    assert_eq!(AppError::from(ServiceError::GrpcTransport(s())), AppError::Grpc(s()));
    assert_eq!(AppError::from(ServiceError::Other(s())), AppError::Internal(s()));
}

#[test]
fn a_missing_row_is_no_failure() {
    let err = |kind| DbError { kind, text: "t".to_string() };
    assert_eq!(optional(Ok::<u8, _>(3)), Ok(Some(3)));
    assert_eq!(optional::<u8>(Err(err(DbErrorKind::NotFound))), Ok(None));
    assert_eq!(
        optional::<u8>(Err(err(DbErrorKind::Other))),
        Err(AppError::Db("t".to_string()))
    );
    assert_eq!(AppError::from(err(DbErrorKind::UniqueViolation)), AppError::Db("t".to_string()));
}

#[test]
fn settings_fall_back_to_their_defaults() {
    assert_eq!(connect(None), DEFAULT_AGENT_GRPC_URL);
    assert_eq!(connect(Some("http://agent:1".to_string())), "http://agent:1");
    assert_eq!(redis_url(None), "redis://localhost:1074");
    assert_eq!(redis_url(Some("redis://r".to_string())), "redis://r");
    assert_eq!(build_pool(Some("postgres://p".to_string())), Ok("postgres://p".to_string()));
    assert_eq!(build_pool(None), Err(AppError::Db("DATABASE_URL not set".to_string())));
    let c = MinioConfig::from_env(None, Some("k".to_string()), None, None);
    assert_eq!(c.endpoint, "http://localhost:1069");
    assert_eq!(c.access_key, "k");
    assert_eq!(c.secret_key, "minioadmin");
    assert_eq!(c.bucket, "agent-rs-docs");
}

#[test]
fn agent_requests_carry_the_user_and_the_key() {
    assert_eq!(enqueue_index("u", "k").user_id, "u");
    assert_eq!(enqueue_index("u", "k").minio_object_key, "k");
    assert_eq!(get_document_status("u", "k").minio_object_key, "k");
    assert_eq!(delete_document("u", "k").user_id, "u");
}

#[test]
fn object_keys_lie_under_their_user() {
    let user = Uuid { value: 1 };
    let document = Uuid { value: 2 };
    assert_eq!(
        object_key(user, document, "pdf"),
        "users/00000000000000000000000000000001/docs/00000000-0000-0000-0000-000000000002.pdf"
    );
    assert_ne!(object_key(user, document, "pdf"), object_key(document, document, "pdf"));
    assert_ne!(object_key(user, document, "pdf"), object_key(user, user, "pdf"));
}

#[test]
fn content_types_have_extensions() {
    for (ct, ext) in [
        ("application/pdf", "pdf"),
        ("text/html", "html"),
        ("text/plain", "txt"),
        ("text/markdown", "md"),
        ("text/x-markdown", "md"),
        ("image/png", "bin"),
        ("", "bin"),
        ("Application/PDF", "bin"),
    ] {
        assert_eq!(content_type_to_ext(ct), ext);
    }
}

#[test]
fn storage_replies_become_outcomes() {
    let err = |status| StorageError { status, text: "t".to_string() };
    assert_eq!(put_bytes("k".to_string(), Ok(())), Ok("k".to_string()));
    assert_eq!(
        put_bytes("k".to_string(), Err(err(Some(503)))),
        Err(AppError::Internal("MinIO put_object k: t".to_string()))
    );
    assert_eq!(delete_by_key("k", Ok(())), Ok(()));
    assert_eq!(delete_by_key("k", Err(err(Some(404)))), Ok(()));
    assert_eq!(
        delete_by_key("k", Err(err(Some(500)))),
        Err(AppError::Internal("MinIO delete_object k: t".to_string()))
    );
    assert!(delete_by_key("k", Err(err(None))).is_err());
}
