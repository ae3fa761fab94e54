//! Media storage in an S3-compatible bucket: the settings a client is made with, the keys
//! uploads are stored under and the public address of a stored object.

use vstd::prelude::*;
use crate::auth::session::opt_view;
use crate::error::Error;
use crate::json::hex_digit;
use crate::schema::config::StorageConfig;
use crate::text::{chars_of, push_char, push_str, string_of};

verus! {

/// What a storage client is made with, once the defaults are filled in.
pub struct StorageSettings {
    pub bucket: String,
    pub region: String,
    pub access_key_id: String,
    pub secret_access_key: String,
    pub endpoint: Option<String>,
    /// The address stored objects are served from.
    pub base_url: String,
}

/// The environment's fall-backs for storage settings: `S3_REGION`, `S3_ACCESS_KEY_ID`,
/// `S3_SECRET_ACCESS_KEY` and `S3_ENDPOINT` (each absent when unset).
pub struct StorageEnv {
    pub region: Option<String>,
    pub access_key_id: Option<String>,
    pub secret_access_key: Option<String>,
    pub endpoint: Option<String>,
}

/// The first of two optional texts that is there.
pub open spec fn first_of(a: Option<String>, b: Option<String>) -> Option<Seq<char>> {
    match a {
        Some(x) => Some(x@),
        None => opt_view(b),
    }
}

/// An optional text, or a default.
pub open spec fn or_default(a: Option<Seq<char>>, d: Seq<char>) -> Seq<char> {
    match a {
        Some(x) => x,
        None => d,
    }
}

/// The settings of a storage client: each setting from the config, else from the
/// environment; the region defaults to `us-east-1` and the keys to empty; objects are
/// served from the endpoint when one is set, else from the bucket's AWS address.
pub open spec fn settings_of(cfg: StorageConfig, env: StorageEnv, s: StorageSettings) -> bool {
    let region = or_default(first_of(cfg.region, env.region), "us-east-1"@);
    let endpoint = first_of(cfg.endpoint, env.endpoint);
    &&& s.bucket@ == cfg.bucket@
    &&& s.region@ == region
    &&& s.access_key_id@ == or_default(first_of(cfg.access_key_id, env.access_key_id), seq![])
    &&& s.secret_access_key@ == or_default(first_of(cfg.secret_access_key, env.secret_access_key), seq![])
    &&& opt_view(s.endpoint) == endpoint
    &&& s.base_url@ == or_default(endpoint, "https://s3."@ + region + ".amazonaws.com/"@ + cfg.bucket@)
}

/// The first of two optional strings that is there.
fn pick(a: Option<String>, b: Option<String>) -> (r: Option<String>)
    ensures
        opt_view(r) == first_of(a, b),
{
    match a {
        Some(x) => Some(x),
        None => b,
    }
}

/// Fills in a storage configuration from the environment and the defaults.
pub fn storage_settings(cfg: StorageConfig, env: StorageEnv) -> (r: StorageSettings)
    ensures
        settings_of(cfg, env, r),
{
    let ghost cfg0 = cfg;
    let ghost env0 = env;
    let region = match pick(cfg.region, env.region) {
        Some(r) => r,
        None => "us-east-1".to_string(),
    };
    let access_key_id = match pick(cfg.access_key_id, env.access_key_id) {
        Some(k) => k,
        None => String::new(),
    };
    let secret_access_key = match pick(cfg.secret_access_key, env.secret_access_key) {
        Some(k) => k,
        None => String::new(),
    };
    let endpoint = pick(cfg.endpoint, env.endpoint);
    let base_url = match &endpoint {
        Some(e) => e.clone(),
        None => {
            let mut u = String::new();
            push_str(&mut u, "https://s3.");
            push_str(&mut u, region.as_str());
            push_str(&mut u, ".amazonaws.com/");
            push_str(&mut u, cfg.bucket.as_str());
            u
        },
    };
    StorageSettings { bucket: cfg.bucket, region, access_key_id, secret_access_key, endpoint, base_url }
}

/// The number of `/` characters at the end of `s`.
pub open spec fn trailing_slashes(s: Seq<char>) -> nat
    decreases s.len(),
{
    if s.len() > 0 && s.last() == '/' {
        1 + trailing_slashes(s.drop_last())
    } else {
        0
    }
}

/// The public address of the object stored under `key`: the base address without its
/// trailing slashes, `/`, and the key.
pub open spec fn object_address(base_url: Seq<char>, key: Seq<char>) -> Seq<char> {
    base_url.take(base_url.len() - trailing_slashes(base_url)) + seq!['/'] + key
}

/// Trailing slashes never run past the start.
pub proof fn lemma_trailing_slashes_bound(s: Seq<char>)
    ensures
        trailing_slashes(s) <= s.len(),
    decreases s.len(),
{
    if s.len() > 0 && s.last() == '/' {
        lemma_trailing_slashes_bound(s.drop_last());
    }
}

/// The public address of the object stored under `key`.
pub fn object_url(base_url: &str, key: &str) -> (r: String)
    ensures
        r@ == object_address(base_url@, key@),
{
    let cs = chars_of(base_url);
    proof {
        lemma_trailing_slashes_bound(cs@);
    }
    let mut j: usize = cs.len();
    assert(cs@.take(cs@.len() as int) =~= cs@);
    while j > 0 && cs[j - 1] == '/'
        invariant
            j <= cs@.len(),
            trailing_slashes(cs@) == (cs@.len() - j) + trailing_slashes(cs@.take(j as int)),
        decreases j,
    {
        assert(cs@.take(j as int).drop_last() =~= cs@.take(j - 1));
        j = j - 1;
    }
    let mut r = crate::text::substring(cs.as_slice(), 0, j);
    assert(cs@.subrange(0, j as int) =~= cs@.take(j as int));
    push_char(&mut r, '/');
    push_str(&mut r, key);
    r
}

// ---------------------------------------------------------------------------
// Uploads
// ---------------------------------------------------------------------------

/// The `k`-th of the 32 hexadecimal digits of `id`, most significant first.
pub open spec fn nibble(id: u128, k: int) -> char {
    hex_digit(((id as int / vstd::arithmetic::power::pow(16, (31 - k) as nat)) % 16) as nat)
}

/// A UUID written the usual way: 32 lowercase hexadecimal digits in groups of 8, 4, 4, 4
/// and 12, joined by hyphens.
pub open spec fn uuid_text(id: u128) -> Seq<char> {
    Seq::new(
        36,
        |i: int|
            if i == 8 || i == 13 || i == 18 || i == 23 {
                '-'
            } else {
                nibble(
                    id,
                    if i < 8 {
                        i
                    } else if i < 13 {
                        i - 1
                    } else if i < 18 {
                        i - 2
                    } else if i < 23 {
                        i - 3
                    } else {
                        i - 4
                    },
                )
            },
    )
}

/// Writes a UUID with `uuid::Uuid::from_u128` and its `Display`, which the crate documents
/// as the hyphenated lowercase form.
#[verifier::external_body]
fn uuid_string(id: u128) -> (r: String)
    ensures
        r@ == uuid_text(id),
{
    uuid::Uuid::from_u128(id).to_string()
}

/// A fresh random UUID from `uuid::Uuid::new_v4`, as its 128 bits; nothing is stated of
/// its value.
#[verifier::external_body]
fn random_uuid() -> (r: u128) {
    uuid::Uuid::new_v4().as_u128()
}

/// The extension `std::path::Path::extension` finds in a file name, if any.
pub uninterp spec fn path_extension(name: Seq<char>) -> Option<Seq<char>>;

/// `std::path::Path::new(name).extension()`, as text (a name made from a string always
/// has a text extension); named by [`path_extension`].
#[verifier::external_body]
fn file_extension(name: &str) -> (r: Option<String>)
    ensures
        opt_view(r) == path_extension(name@),
{
    std::path::Path::new(name).extension().and_then(|e| e.to_str()).map(|e| e.to_string())
}

/// The key an upload is stored under: `uploads/`, the id, and the file's extension (`bin`
/// when it has none).
pub open spec fn upload_key_for(id: u128, file_name: Seq<char>) -> Seq<char> {
    "uploads/"@ + uuid_text(id) + seq!['.'] + or_default(path_extension(file_name), "bin"@)
}

/// The key an upload with this id and file name is stored under.
pub fn upload_key(id: u128, file_name: &str) -> (r: String)
    ensures
        r@ == upload_key_for(id, file_name@),
{
    let ext = match file_extension(file_name) {
        Some(e) => e,
        None => "bin".to_string(),
    };
    let mut r = String::new();
    push_str(&mut r, "uploads/");
    let id_text = uuid_string(id);
    push_str(&mut r, id_text.as_str());
    push_char(&mut r, '.');
    push_str(&mut r, ext.as_str());
    r
}

/// How one part of an upload form is stored: its file name, its content type and the key.
pub struct UploadPlan {
    pub file_name: String,
    pub content_type: String,
    pub key: String,
}

/// The plan for a form part, given the id its key uses: only the part named `file` is
/// stored; its file name defaults to `upload` and its content type to
/// `application/octet-stream`.
pub open spec fn plan_for(field_name: Option<Seq<char>>, file_name: Option<Seq<char>>, content_type: Option<Seq<char>>, id: u128, p: Option<UploadPlan>) -> bool {
    if field_name != Some("file"@) {
        p is None
    } else {
        let name = or_default(file_name, "upload"@);
        p matches Some(plan) && plan.file_name@ == name && plan.content_type@ == or_default(
            content_type,
            "application/octet-stream"@,
        ) && plan.key@ == upload_key_for(id, name)
    }
}

/// How a form part is stored, given the id its key uses.
pub fn plan_upload_with(field_name: Option<&str>, file_name: Option<&str>, content_type: Option<&str>, id: u128) -> (r: Option<
    UploadPlan,
>)
    ensures
        plan_for(
            crate::cli::opt_str(field_name),
            crate::cli::opt_str(file_name),
            crate::cli::opt_str(content_type),
            id,
            r,
        ),
{
    match field_name {
        Some(n) => {
            if !crate::text::str_eq(n, "file") {
                return None;
            }
        },
        None => {
            return None;
        },
    }
    let name = match file_name {
        Some(f) => f.to_string(),
        None => "upload".to_string(),
    };
    let content_type = match content_type {
        Some(c) => c.to_string(),
        None => "application/octet-stream".to_string(),
    };
    let key = upload_key(id, name.as_str());
    Some(UploadPlan { file_name: name, content_type, key })
}

/// How a form part is stored, under a fresh random id.
pub fn plan_upload(field_name: Option<&str>, file_name: Option<&str>, content_type: Option<&str>) -> (r: Option<
    UploadPlan,
>)
    ensures
        exists|id: u128|
            plan_for(
                crate::cli::opt_str(field_name),
                crate::cli::opt_str(file_name),
                crate::cli::opt_str(content_type),
                id,
                r,
            ),
{
    let id = random_uuid();
    plan_upload_with(field_name, file_name, content_type, id)
}

/// The refusal of an upload when no storage is configured.
pub fn storage_not_configured() -> (r: Error)
    ensures
        r matches Error::BadRequest(m) && m@ == "storage is not configured"@,
{
    Error::BadRequest("storage is not configured".to_string())
}

/// The refusal of an upload form without a `file` part.
pub fn no_file_field() -> (r: Error)
    ensures
        r matches Error::BadRequest(m) && m@ == "no file field in multipart body"@,
{
    Error::BadRequest("no file field in multipart body".to_string())
}

} // verus!
