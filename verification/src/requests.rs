//! The decisions of the HTTP handlers: validating requests, and what a
//! download, a ticket or an upload is made of.
//!
//! Times are microseconds since the Unix epoch.
use vstd::prelude::*;
use crate::digest::{content_hash, sha256};
use crate::encoding::{decimal, hex_of_bytes, hyphenated, i64_to_string, percent_encode, percent_encode_header};
use crate::error::DriveError;
use crate::ids::uuid_hyphenated;
use crate::node::{new_file, opt_view, Node, NodeKind, NodeView};
use crate::text::{char_count, contains_char, spec_trim, trim};
use vstd::utf8::encode_utf8;

verus! {

broadcast use vstd::string::group_string_axioms;

/// Longest file or folder name, in characters.
pub const MAX_NODE_NAME_CHARS: usize = 255;

/// Largest single upload, in bytes (100 MiB).
pub const MAX_UPLOAD_BYTES: usize = 104_857_600;

/// Lifetime of a signed download ticket, in microseconds (5 minutes).
pub const TICKET_LIFETIME_MICROS: i64 = 300_000_000;

/// Lifetime of a presigned storage URL, in seconds.
pub const PRESIGN_SECONDS: u64 = 300;

/// Is a trimmed name acceptable for a file or folder?
pub open spec fn valid_node_name(n: Seq<char>) -> bool {
    n.len() > 0 && n.len() <= 255 && !n.contains('/')
}

/// Validates the name of a new folder or file: trimmed, it must have 1 to 255
/// characters and no `/`.
pub fn validate_node_name(name: &str, kind: NodeKind) -> (r: Result<String, DriveError>)
    ensures
        valid_node_name(spec_trim(name@)) ==> (r matches Ok(s) && s@ == spec_trim(name@)),
        !valid_node_name(spec_trim(name@)) ==> r == Err::<String, DriveError>(
            match kind {
                NodeKind::Folder => DriveError::FolderNameInvalid,
                NodeKind::File => DriveError::FileNameInvalid,
            },
        ),
        (r is Ok) <==> (0 < spec_trim(name@).len() <= 255 && !spec_trim(name@).contains('/')),
        r matches Ok(s) ==> s@ == spec_trim(name@),
{
    let t = trim(name);
    let n = char_count(t);
    if n == 0 || n > MAX_NODE_NAME_CHARS || contains_char(t, '/') {
        match kind {
            NodeKind::Folder => Err(DriveError::FolderNameInvalid),
            NodeKind::File => Err(DriveError::FileNameInvalid),
        }
    } else {
        Ok(t.to_owned())
    }
}

/// A name is accepted exactly when, trimmed, it has 1 to 255 characters and
/// no `/`; any other character (dots, spaces inside, any script) is allowed.
pub proof fn lemma_node_name_rule(n: Seq<char>)
    ensures
        valid_node_name(n) <==> (0 < n.len() <= 255 && !n.contains('/')),
{
}

/// The MIME type stored for an upload, `application/octet-stream` when none.
pub fn content_type_or_default(mime: Option<&str>) -> (r: &str)
    ensures
        r@ == (match mime {
            Some(m) => m@,
            None => "application/octet-stream"@,
        }),
{
    match mime {
        Some(m) => m,
        None => "application/octet-stream",
    }
}

/// The file node recorded for an upload of `body`, once its bytes are stored
/// under `storage_key`: its size is the body's length and its hash the
/// body's SHA-256.
pub fn upload_node(
    id: u128,
    space_id: u128,
    parent_id: Option<u128>,
    name: &str,
    mime: Option<String>,
    storage_key: String,
    body: &[u8],
    user_id: u128,
    now: i64,
) -> (r: Node)
    requires
        body@.len() <= i64::MAX,
    ensures
        r@ == (NodeView {
            id,
            space_id,
            parent_id,
            name: name@,
            kind: NodeKind::File,
            storage_key: Some(storage_key@),
            size: body@.len() as i64,
            mime: opt_view(mime),
            hash: Some(hex_of_bytes(sha256(body@))),
            created_by: user_id,
            deleted_at: None,
            created_at: now,
            updated_at: now,
        }),
        crate::node::node_wf(r@),
{
    let hash = content_hash(body);
    let size = body.len() as i64;
    new_file(id, space_id, parent_id, name, mime, storage_key, size, Some(hash), user_id, now)
}

/// The `Content-Disposition` value of a download:
/// `attachment; filename*=UTF-8''` followed by the percent-encoded name.
pub fn content_disposition(name: &str) -> (r: String)
    ensures
        r@ == "attachment; filename*=UTF-8''"@ + percent_encode(encode_utf8(name@)),
{
    let v = String::from_str("attachment; filename*=UTF-8''");
    let e = percent_encode_header(name);
    v.concat(e.as_str())
}

/// How a download is served.
#[derive(Debug, Clone)]
pub enum DownloadPlan {
    /// Redirect to a presigned URL of the key (object storage).
    Redirect {
        /// Storage key.
        key: String,
    },
    /// Stream the bytes of the key from local storage.
    Stream {
        /// Storage key.
        key: String,
        /// `Content-Type`.
        content_type: String,
        /// `Content-Disposition`.
        disposition: String,
    },
}

/// The download of a member's node: it must be a live file with a storage
/// key; object storage redirects, local storage streams the bytes with the
/// node's MIME type (`application/octet-stream` when none) as an attachment.
pub fn plan_download(node: &Node, local: bool) -> (r: Result<DownloadPlan, DriveError>)
    ensures
        node.kind != NodeKind::File || node.deleted_at is Some ==> r == Err::<
            DownloadPlan,
            DriveError,
        >(DriveError::FileNotFound),
        node.kind == NodeKind::File && node.deleted_at is None ==> match node.storage_key {
            None => r == Err::<DownloadPlan, DriveError>(DriveError::MissingStorageKey),
            Some(k) => if local {
                r matches Ok(DownloadPlan::Stream { key, content_type, disposition }) && key@
                    == k@ && content_type@ == (match node.mime {
                    Some(m) => m@,
                    None => "application/octet-stream"@,
                }) && disposition@ == "attachment; filename*=UTF-8''"@ + percent_encode(
                    encode_utf8(node.name@),
                )
            } else {
                r matches Ok(DownloadPlan::Redirect { key }) && key@ == k@
            },
        },
{
    if node.kind != NodeKind::File || node.deleted_at.is_some() {
        return Err(DriveError::FileNotFound);
    }
    let key = match &node.storage_key {
        Some(k) => k.clone(),
        None => return Err(DriveError::MissingStorageKey),
    };
    if !local {
        return Ok(DownloadPlan::Redirect { key });
    }
    let content_type = match &node.mime {
        Some(m) => m.clone(),
        None => String::from_str("application/octet-stream"),
    };
    let disposition = content_disposition(node.name.as_str());
    Ok(DownloadPlan::Stream { key, content_type, disposition })
}

/// The storage key a ticket signs; the node must have one.
pub fn ticket_key(node: &Node) -> (r: Result<String, DriveError>)
    ensures
        match node.storage_key {
            Some(k) => r matches Ok(s) && s@ == k@,
            None => r == Err::<String, DriveError>(DriveError::MissingStorageKey),
        },
{
    match &node.storage_key {
        Some(k) => Ok(k.clone()),
        None => Err(DriveError::MissingStorageKey),
    }
}

/// Expiry of a ticket issued at `now`: five minutes later.
pub fn ticket_expiry(now: i64) -> (r: i64)
    requires
        now <= i64::MAX - TICKET_LIFETIME_MICROS,
    ensures
        r == now + TICKET_LIFETIME_MICROS,
{
    now + TICKET_LIFETIME_MICROS
}

/// Whole seconds of a time, rounded down (`DateTime::timestamp`).
pub open spec fn floor_seconds(micros: int) -> int {
    micros / 1_000_000
}

/// Unix seconds of a time in microseconds, rounded down.
pub fn unix_seconds(micros: i64) -> (r: i64)
    ensures
        r == floor_seconds(micros as int),
        r * 1_000_000 <= micros < r * 1_000_000 + 1_000_000,
{
    let q = micros / 1_000_000;
    let m = micros % 1_000_000;
    if m < 0 {
        q - 1
    } else {
        q
    }
}

/// The URL of a signed download ticket:
/// `/api/v1/drive/spaces/<space>/nodes/<node>/download?expires=<seconds>&signature=<sig>`.
pub fn ticket_url(space_id: u128, node_id: u128, expires_at: i64, signature: &str) -> (r: String)
    ensures
        r@ == "/api/v1/drive/spaces/"@ + hyphenated(space_id) + "/nodes/"@ + hyphenated(node_id)
            + "/download?expires="@ + decimal(floor_seconds(expires_at as int)) + "&signature="@
            + signature@,
{
    let secs = unix_seconds(expires_at);
    let mut u = String::from_str("/api/v1/drive/spaces/");
    u.append(uuid_hyphenated(space_id).as_str());
    u.append("/nodes/");
    u.append(uuid_hyphenated(node_id).as_str());
    u.append("/download?expires=");
    u.append(i64_to_string(secs).as_str());
    u.append("&signature=");
    u.append(signature);
    u
}

/// Next step of loading the signing keys at start-up, after an attempt.
#[derive(Debug, Clone, Copy, PartialEq, Eq, Structural)]
pub enum RetryStep {
    /// The keys are loaded.
    Done,
    /// Wait a second, then make attempt number `next`.
    Retry {
        /// Number of the next attempt.
        next: u32,
    },
    /// Wait a second, then give up with the last error.
    GiveUp,
}

/// Most attempts at loading the signing keys.
pub const MAX_KEY_ATTEMPTS: u32 = 10;

/// After attempt `attempt` (1-based) loaded the keys or failed: stop on
/// success, retry after failures until the tenth.
pub fn key_retry_step(attempt: u32, loaded: bool) -> (r: RetryStep)
    requires
        1 <= attempt <= MAX_KEY_ATTEMPTS,
    ensures
        r == (if loaded {
            RetryStep::Done
        } else if attempt < MAX_KEY_ATTEMPTS {
            RetryStep::Retry { next: (attempt + 1) as u32 }
        } else {
            RetryStep::GiveUp
        }),
{
    if loaded {
        RetryStep::Done
    } else if attempt < MAX_KEY_ATTEMPTS {
        RetryStep::Retry { next: attempt + 1 }
    } else {
        RetryStep::GiveUp
    }
}

/// Number of attempts made when every attempt from `attempt` on fails.
pub open spec fn attempts_until_give_up(attempt: u32) -> nat
    decreases MAX_KEY_ATTEMPTS - attempt,
{
    if attempt >= MAX_KEY_ATTEMPTS {
        1
    } else {
        1 + attempts_until_give_up((attempt + 1) as u32)
    }
}

/// When loading never succeeds, start-up makes exactly ten attempts.
pub proof fn lemma_ten_attempts()
    ensures
        attempts_until_give_up(1) == 10,
{
    reveal_with_fuel(attempts_until_give_up, 11);
}

} // verus!
