//! MinIO / S3-compatible storage for per-user document uploads: where the
//! objects lie and what the replies of the store come to.
use crate::error::{AppError, AppErrorView};
use crate::ident::{hyphenated_form, simple_form, Uuid};
use crate::text::{begins_with, concat2, concat3, given_or, same_text, text_or};
use vstd::prelude::*;

verus! {

/// Fallback endpoint of the development set-up.
pub const DEFAULT_ENDPOINT: &'static str = "http://localhost:1069";

pub const DEFAULT_BUCKET: &'static str = "agent-rs-docs";

pub const DEFAULT_ACCESS_KEY: &'static str = "minioadmin";

pub const DEFAULT_SECRET_KEY: &'static str = "minioadmin";

/// Settings loaded once at start-up.
#[derive(Debug, Clone, PartialEq, Eq)]
pub struct MinioConfig {
    pub endpoint: String,
    pub access_key: String,
    pub secret_key: String,
    pub bucket: String,
}

impl MinioConfig {
    /// Build a config from the values of
    /// `AGENT_RS__MINIO__{ENDPOINT,ACCESS_KEY,SECRET_KEY,BUCKET}`, each falling
    /// back to its default.
    pub fn from_env(
        endpoint: Option<String>,
        access_key: Option<String>,
        secret_key: Option<String>,
        bucket: Option<String>,
    ) -> (r: Self)
        ensures
            r.endpoint@ == text_or(endpoint, DEFAULT_ENDPOINT@),
            r.access_key@ == text_or(access_key, DEFAULT_ACCESS_KEY@),
            r.secret_key@ == text_or(secret_key, DEFAULT_SECRET_KEY@),
            r.bucket@ == text_or(bucket, DEFAULT_BUCKET@),
            endpoint is None ==> r.endpoint@ == "http://localhost:1069"@,
            access_key is None ==> r.access_key@ == "minioadmin"@,
            secret_key is None ==> r.secret_key@ == "minioadmin"@,
            bucket is None ==> r.bucket@ == "agent-rs-docs"@,
            endpoint matches Some(s) ==> r.endpoint@ == s@,
            access_key matches Some(s) ==> r.access_key@ == s@,
            secret_key matches Some(s) ==> r.secret_key@ == s@,
            bucket matches Some(s) ==> r.bucket@ == s@,
    {
        MinioConfig {
            endpoint: given_or(endpoint, DEFAULT_ENDPOINT),
            access_key: given_or(access_key, DEFAULT_ACCESS_KEY),
            secret_key: given_or(secret_key, DEFAULT_SECRET_KEY),
            bucket: given_or(bucket, DEFAULT_BUCKET),
        }
    }
}

/// The reply of a store request that failed.
#[derive(Debug, Clone, PartialEq, Eq)]
pub struct StorageError {
    /// The HTTP status of the reply, if there was one.
    pub status: Option<u16>,
    pub text: String,
}

/// What an upload under `key` comes to.
pub open spec fn put_outcome(key: Seq<char>, reply: Result<(), StorageError>) -> Result<
    Seq<char>,
    AppErrorView,
> {
    match reply {
        Ok(_) => Ok(key),
        Err(e) => Err(AppErrorView::Internal("MinIO put_object "@ + key + ": "@ + e.text@)),
    }
}

/// The full object key of an upload that the store took, so that the caller
/// persists it verbatim; `AppError::Internal` if the store refused it.
pub fn put_bytes(key: String, reply: Result<(), StorageError>) -> (r: Result<String, AppError>)
    ensures
        r matches Ok(k) ==> k == key && put_outcome(key@, reply) == Ok::<Seq<char>, AppErrorView>(
            k@,
        ),
        r matches Err(e) ==> put_outcome(key@, reply) == Err::<Seq<char>, AppErrorView>(e@),
{
    match reply {
        Ok(_) => Ok(key),
        Err(e) => {
            let head = concat3("MinIO put_object ", key.as_str(), ": ");
            Err(AppError::Internal(concat2(head.as_str(), e.text.as_str())))
        },
    }
}

/// What a removal of `key` comes to: an object that is not there is gone.
pub open spec fn delete_outcome(key: Seq<char>, reply: Result<(), StorageError>) -> Result<
    (),
    AppErrorView,
> {
    match reply {
        Ok(_) => Ok(()),
        Err(e) => if e.status == Some(404u16) {
            Ok(())
        } else {
            Err(AppErrorView::Internal("MinIO delete_object "@ + key + ": "@ + e.text@))
        },
    }
}

/// Removal of an object by its full key. Idempotent: "not found" is success.
///
/// `AppError::Internal` on any other failure.
pub fn delete_by_key(key: &str, reply: Result<(), StorageError>) -> (r: Result<(), AppError>)
    ensures
        crate::error::viewed(r) == delete_outcome(key@, reply),
{
    match reply {
        Ok(_) => Ok(()),
        Err(e) => {
            let missing = match e.status {
                Some(s) => s == 404,
                None => false,
            };
            if missing {
                Ok(())
            } else {
                let head = concat3("MinIO delete_object ", key, ": ");
                Err(AppError::Internal(concat2(head.as_str(), e.text.as_str())))
            }
        },
    }
}

/// The prefix under which a user's documents lie.
pub open spec fn user_prefix(user_id: Uuid) -> Seq<char> {
    "users/"@ + simple_form(user_id.value) + "/docs/"@
}

/// `users/{user_id_simple}/docs/{document_uuid}.{ext}`.
pub open spec fn key_of(user_id: Uuid, document_id: Uuid, ext: Seq<char>) -> Seq<char> {
    user_prefix(user_id) + (hyphenated_form(document_id.value) + "."@ + ext)
}

/// Build the canonical object key.
///
/// The user segment is the simple form of the id, as the agent writes it; the
/// document segment keeps the hyphenated form.
pub fn object_key(user_id: Uuid, document_id: Uuid, ext: &str) -> (r: String)
    ensures
        r@ == key_of(user_id, document_id, ext@),
{
    let user = user_id.simple();
    let document = document_id.hyphenated();
    let prefix = concat3("users/", user.as_str(), "/docs/");
    let name = concat3(document.as_str(), ".", ext);
    concat2(prefix.as_str(), name.as_str())
}

/// The canonical filename extension of a MIME type; `bin` for an unknown one.
pub open spec fn extension_of(ct: Seq<char>) -> Seq<char> {
    if ct == "application/pdf"@ {
        "pdf"@
    } else if ct == "text/html"@ {
        "html"@
    } else if ct == "text/plain"@ {
        "txt"@
    } else if ct == "text/markdown"@ || ct == "text/x-markdown"@ {
        "md"@
    } else {
        "bin"@
    }
}

/// Map a MIME type to a canonical filename extension.
pub fn content_type_to_ext(ct: &str) -> (r: &'static str)
    ensures
        r@ == extension_of(ct@),
{
    if same_text(ct, "application/pdf") {
        "pdf"
    } else if same_text(ct, "text/html") {
        "html"
    } else if same_text(ct, "text/plain") {
        "txt"
    } else if same_text(ct, "text/markdown") || same_text(ct, "text/x-markdown") {
        "md"
    } else {
        "bin"
    }
}

// ---------------------------------------------------------------------------
// Laws
// ---------------------------------------------------------------------------
/// Every key of a user lies under the user's own prefix, which holds the id
/// exactly as the agent spells it.
pub proof fn key_lies_under_its_user(user_id: Uuid, document_id: Uuid, ext: Seq<char>)
    ensures
        begins_with(key_of(user_id, document_id, ext), user_prefix(user_id)),
{
    let p = user_prefix(user_id);
    assert(key_of(user_id, document_id, ext).subrange(0, p.len() as int) =~= p);
}

/// A key is its user's prefix, the document's id, a point and the extension,
/// and nothing else: both ids can be read out of it.
pub proof fn key_spells_user_document_and_type(user_id: Uuid, document_id: Uuid, ext: Seq<char>)
    ensures
        key_of(user_id, document_id, ext) == "users/"@ + simple_form(user_id.value) + "/docs/"@
            + hyphenated_form(document_id.value) + "."@ + ext,
        crate::ident::parsed(
            key_of(user_id, document_id, ext).subrange(
                "users/"@.len() as int,
                "users/"@.len() as int + 32,
            ),
        ) == Some(user_id.value),
{
    let k = key_of(user_id, document_id, ext);
    let n = "users/"@.len() as int;
    crate::ident::simple_form_is_hex(user_id.value);
    crate::ident::text_forms_read_back(user_id.value);
    assert(k =~= "users/"@ + simple_form(user_id.value) + "/docs/"@ + hyphenated_form(
        document_id.value,
    ) + "."@ + ext);
    assert(k.subrange(n, n + 32) =~= simple_form(user_id.value));
}

/// The store's word is final: an upload that it took is under its key, one that
/// it refused is a failure that names the key and the reason.
pub proof fn uploads_report_what_the_store_said(key: Seq<char>, reply: Result<(), StorageError>)
    ensures
        reply is Ok ==> put_outcome(key, reply) == Ok::<Seq<char>, AppErrorView>(key),
        reply matches Err(e) ==> (put_outcome(key, reply) matches Err(f) && f.message()
            == "internal error: "@ + ("MinIO put_object "@ + key + ": "@ + e.text@)),
{
}

/// Removing an object that is not there succeeds, and so does removing it a
/// second time; every other failure is reported with the key and the reason.
pub proof fn removal_is_idempotent(key: Seq<char>, reply: Result<(), StorageError>)
    ensures
        delete_outcome(key, reply) is Ok <==> reply is Ok || (reply matches Err(e) && e.status
            == Some(404u16)),
        reply matches Err(e) ==> (e.status != Some(404u16) ==> (delete_outcome(
            key,
            reply,
        ) matches Err(f) && f.message() == "internal error: "@ + ("MinIO delete_object "@ + key
            + ": "@ + e.text@))),
{
}

/// The types that the indexer reads keep an extension of their own; no other
/// type gets one of these.
pub proof fn extensions_go_by_the_type(ct: Seq<char>)
    ensures
        extension_of(ct) == "pdf"@ <==> ct == "application/pdf"@,
        extension_of(ct) == "html"@ <==> ct == "text/html"@,
        extension_of(ct) == "txt"@ <==> ct == "text/plain"@,
        extension_of(ct) == "md"@ <==> ct == "text/markdown"@ || ct == "text/x-markdown"@,
        extension_of(ct) == "bin"@ <==> ct != "application/pdf"@ && ct != "text/html"@ && ct
            != "text/plain"@ && ct != "text/markdown"@ && ct != "text/x-markdown"@,
{
    reveal_strlit("pdf");
    reveal_strlit("html");
    reveal_strlit("txt");
    reveal_strlit("md");
    reveal_strlit("bin");
    reveal_strlit("application/pdf");
    reveal_strlit("text/html");
    reveal_strlit("text/plain");
    reveal_strlit("text/markdown");
    reveal_strlit("text/x-markdown");
    assert("pdf"@[0] == 'p' && "txt"@[0] == 't' && "bin"@[0] == 'b');
    assert("html"@.len() == 4 && "md"@.len() == 2 && "pdf"@.len() == 3 && "txt"@.len() == 3
        && "bin"@.len() == 3);
    assert("application/pdf"@.len() == 15 && "text/html"@.len() == 9 && "text/plain"@.len() == 10
        && "text/markdown"@.len() == 13 && "text/x-markdown"@.len() == 15);
    assert("application/pdf"@[0] == 'a' && "text/x-markdown"@[0] == 't');
}

/// No key of one user lies under the prefix of another.
pub proof fn key_lies_under_no_other_user(a: Uuid, b: Uuid, document_id: Uuid, ext: Seq<char>)
    requires
        a != b,
    ensures
        !begins_with(key_of(a, document_id, ext), user_prefix(b)),
{
    crate::ident::simple_form_is_hex(a.value);
    crate::ident::simple_form_is_hex(b.value);
    crate::ident::text_forms_tell_identifiers_apart(a.value, b.value);
    let k = key_of(a, document_id, ext);
    let p = user_prefix(b);
    let h = "users/"@.len() as int;
    if begins_with(k, p) {
        let sa = simple_form(a.value);
        let sb = simple_form(b.value);
        assert forall|i: int| 0 <= i < 32 implies sa[i] == sb[i] by {
            assert(k[h + i] == sa[i]);
            assert(p[h + i] == sb[i]);
            assert(k.subrange(0, p.len() as int)[h + i] == p[h + i]);
        }
        assert(sa =~= sb);
    }
}

/// Two documents of a user never share a key, whatever their types.
pub proof fn documents_have_keys_of_their_own(
    user_id: Uuid,
    a: Uuid,
    b: Uuid,
    ext_a: Seq<char>,
    ext_b: Seq<char>,
)
    requires
        a != b,
    ensures
        key_of(user_id, a, ext_a) != key_of(user_id, b, ext_b),
{
    crate::ident::hyphenated_form_is_hex_and_hyphens(a.value);
    crate::ident::hyphenated_form_is_hex_and_hyphens(b.value);
    crate::ident::text_forms_tell_identifiers_apart(a.value, b.value);
    let ka = key_of(user_id, a, ext_a);
    let kb = key_of(user_id, b, ext_b);
    let n = user_prefix(user_id).len() as int;
    let ha = hyphenated_form(a.value);
    let hb = hyphenated_form(b.value);
    if ka == kb {
        assert forall|i: int| 0 <= i < 36 implies ha[i] == hb[i] by {
            assert(ka[n + i] == ha[i]);
            assert(kb[n + i] == hb[i]);
        }
        assert(ha =~= hb);
    }
}

} // verus!
