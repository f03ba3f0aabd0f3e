//! Read-only share links: creating them, when they may be used, their
//! download limit, revocation and password protection.
//!
//! Times are microseconds since the Unix epoch.
use vstd::prelude::*;
use vstd::utf8::encode_utf8;
use argon2::password_hash::{PasswordHasher, PasswordVerifier};
use crate::error::DriveError;
use crate::node::{opt_view, Node, NodeKind};
use crate::text::{char_count, spec_trim, trim};

verus! {

broadcast use vstd::string::group_string_axioms;

/// Microseconds per second.
pub const MICROS_PER_SECOND: i64 = 1_000_000;

/// Shortest share lifetime that can be asked for, in seconds.
pub const MIN_SHARE_SECONDS: i64 = 60;

/// Longest share lifetime that can be asked for, in seconds (30 days).
pub const MAX_SHARE_SECONDS: i64 = 2_592_000;

/// A share link of one node.
#[derive(Debug, Clone)]
pub struct Share {
    /// Share id.
    pub id: u128,
    /// The shared node.
    pub node_id: u128,
    /// Random URL-safe token.
    pub token: String,
    /// Permission; `read` is the only one.
    pub permission: String,
    /// Argon2 PHC hash of the access password.
    pub password_hash: Option<String>,
    /// When the share stops working; `None` never.
    pub expires_at: Option<i64>,
    /// Download limit; 0 means unlimited.
    pub max_downloads: i64,
    /// Downloads so far.
    pub download_count: i64,
    /// Creator.
    pub created_by: u128,
    /// Creation time.
    pub created_at: i64,
    /// When the share was revoked.
    pub revoked_at: Option<i64>,
}

/// The stored content of a share.
pub struct ShareView {
    pub id: u128,
    pub node_id: u128,
    pub token: Seq<char>,
    pub permission: Seq<char>,
    pub password_hash: Option<Seq<char>>,
    pub expires_at: Option<i64>,
    pub max_downloads: i64,
    pub download_count: i64,
    pub created_by: u128,
    pub created_at: i64,
    pub revoked_at: Option<i64>,
}

impl View for Share {
    type V = ShareView;

    open spec fn view(&self) -> ShareView {
        ShareView {
            id: self.id,
            node_id: self.node_id,
            token: self.token@,
            permission: self.permission@,
            password_hash: opt_view(self.password_hash),
            expires_at: self.expires_at,
            max_downloads: self.max_downloads,
            download_count: self.download_count,
            created_by: self.created_by,
            created_at: self.created_at,
            revoked_at: self.revoked_at,
        }
    }
}

/// A share's counters make sense: the limit and the count are not negative.
pub open spec fn share_wf(s: ShareView) -> bool {
    s.max_downloads >= 0 && s.download_count >= 0
}

/// Query parameters of a public share access.
#[derive(Debug, Clone)]
pub struct ShareAccess {
    /// Share password.
    pub password: Option<String>,
}

/// A request to create a share.
#[derive(Debug, Clone)]
pub struct CreateShareRequest {
    /// Lifetime in seconds; `None` never expires.
    pub expires_in_seconds: Option<i64>,
    /// Download limit; 0 or `None` is unlimited.
    pub max_downloads: Option<i64>,
    /// Access password, 4 to 64 characters once trimmed.
    pub password: Option<String>,
}

/// What a valid request makes of a share, before any password is hashed.
#[derive(Debug, Clone)]
pub struct SharePlan {
    /// Expiry time.
    pub expires_at: Option<i64>,
    /// Download limit, 0 for unlimited.
    pub max_downloads: i64,
    /// The trimmed password, when one was given.
    pub password: Option<String>,
}

/// `v` clamped to `[lo, hi]`.
pub open spec fn clamp(v: int, lo: int, hi: int) -> int {
    if v < lo {
        lo
    } else if v > hi {
        hi
    } else {
        v
    }
}

/// Expiry of a share created at `now` that should live `seconds`, clamped to
/// between one minute and 30 days.
pub open spec fn expiry_of(now: i64, seconds: i64) -> int {
    now + clamp(seconds as int, MIN_SHARE_SECONDS as int, MAX_SHARE_SECONDS as int)
        * MICROS_PER_SECOND
}

/// The password a request sets: its trimmed text, `None` when absent or blank.
pub open spec fn requested_password(p: Option<Seq<char>>) -> Option<Seq<char>> {
    match p {
        None => None,
        Some(t) => if spec_trim(t).len() == 0 {
            None
        } else {
            Some(spec_trim(t))
        },
    }
}

/// Validates a share request made at `now`: the lifetime is clamped, a
/// negative limit counts as unlimited, and a password must be 4 to 64
/// characters long.
pub fn plan_share(req: &CreateShareRequest, now: i64) -> (r: Result<SharePlan, DriveError>)
    requires
        match req.expires_in_seconds {
            Some(s) => expiry_of(now, s) <= i64::MAX,
            None => true,
        },
    ensures
        match requested_password(opt_view(req.password)) {
            Some(p) if !(4 <= p.len() <= 64) => r == Err::<SharePlan, DriveError>(
                DriveError::SharePasswordLength,
            ),
            pw => r matches Ok(plan) && opt_view(plan.password) == pw && plan.max_downloads >= 0
                && plan.max_downloads == (
            match req.max_downloads {
                Some(m) => if m > 0 {
                    m
                } else {
                    0
                },
                None => 0,
            }) && plan.expires_at == (match req.expires_in_seconds {
                Some(s) => Some(expiry_of(now, s) as i64),
                None => None,
            }),
        },
        req.password is Some && 4 <= spec_trim(req.password.unwrap()@).len() <= 64 ==> (r matches Ok(
            plan) && plan.password is Some && plan.password.unwrap()@ == spec_trim(
            req.password.unwrap()@,
        )),
        req.password is Some && 0 < spec_trim(req.password.unwrap()@).len() && !(4 <= spec_trim(
            req.password.unwrap()@,
        ).len() <= 64) ==> r == Err::<SharePlan, DriveError>(DriveError::SharePasswordLength),
        (req.password is None || spec_trim(req.password.unwrap()@).len() == 0) ==> (r matches Ok(
            plan) && plan.password is None),
        r matches Ok(plan) ==> match req.max_downloads {
            Some(m) => plan.max_downloads == if m < 0 {
                0
            } else {
                m
            },
            None => plan.max_downloads == 0,
        },
        r matches Ok(plan) ==> match req.expires_in_seconds {
            Some(s) => if 60 <= s <= 2_592_000 {
                plan.expires_at == Some((now + s * 1_000_000) as i64)
            } else if s < 60 {
                plan.expires_at == Some((now + 60_000_000) as i64)
            } else {
                plan.expires_at == Some((now + 2_592_000_000_000) as i64)
            },
            None => plan.expires_at is None,
        },
{
    let expires_at = match req.expires_in_seconds {
        Some(s) => {
            let c = if s < MIN_SHARE_SECONDS {
                MIN_SHARE_SECONDS
            } else if s > MAX_SHARE_SECONDS {
                MAX_SHARE_SECONDS
            } else {
                s
            };
            Some(now + c * MICROS_PER_SECOND)
        },
        None => None,
    };
    let password: Option<String> = match &req.password {
        None => None,
        Some(raw) => {
            let t = trim(raw.as_str());
            let n = char_count(t);
            if n == 0 {
                None
            } else if 4 <= n && n <= 64 {
                Some(t.to_owned())
            } else {
                return Err(DriveError::SharePasswordLength);
            }
        },
    };
    let max_downloads = match req.max_downloads {
        Some(m) => if m > 0 {
            m
        } else {
            0
        },
        None => 0,
    };
    Ok(SharePlan { expires_at, max_downloads, password })
}

/// A share may be created only for a node that is not in the trash.
pub fn check_shareable(node: &Node) -> (r: Result<(), DriveError>)
    ensures
        r == (if node.deleted_at is Some {
            Err(DriveError::NodeNotFound)
        } else {
            Ok(())
        }),
{
    if node.deleted_at.is_some() {
        Err(DriveError::NodeNotFound)
    } else {
        Ok(())
    }
}

/// The new share, read-only, with no downloads yet.
pub fn new_share(
    id: u128,
    node_id: u128,
    token: String,
    plan: &SharePlan,
    password_hash: Option<String>,
    user_id: u128,
    now: i64,
) -> (r: Share)
    ensures
        r@ == (ShareView {
            id,
            node_id,
            token: token@,
            permission: "read"@,
            password_hash: opt_view(password_hash),
            expires_at: plan.expires_at,
            max_downloads: plan.max_downloads,
            download_count: 0,
            created_by: user_id,
            created_at: now,
            revoked_at: None,
        }),
        plan.max_downloads >= 0 ==> share_wf(r@),
{
    Share {
        id,
        node_id,
        token,
        permission: String::from_str("read"),
        password_hash,
        expires_at: plan.expires_at,
        max_downloads: plan.max_downloads,
        download_count: 0,
        created_by: user_id,
        created_at: now,
        revoked_at: None,
    }
}

/// Has the share expired at `now`? (It expires strictly after its expiry time.)
pub open spec fn is_expired(s: ShareView, now: i64) -> bool {
    match s.expires_at {
        Some(e) => e < now,
        None => false,
    }
}

/// Are the share's downloads used up?
pub open spec fn is_exhausted(s: ShareView) -> bool {
    s.max_downloads > 0 && s.download_count >= s.max_downloads
}

/// Whether a share may be used at `now`: a revoked or expired share is
/// invalid; a share whose downloads are used up is exhausted.
pub open spec fn share_status(s: ShareView, now: i64) -> Result<(), DriveError> {
    if s.revoked_at is Some || is_expired(s, now) {
        Err(DriveError::ShareInvalid)
    } else if is_exhausted(s) {
        Err(DriveError::ShareExhausted)
    } else {
        Ok(())
    }
}

/// Checks the share a token lookup found, at `now`.
pub fn check_share(found: Option<&Share>, now: i64) -> (r: Result<(), DriveError>)
    ensures
        r == (match found {
            None => Err(DriveError::ShareNotFound),
            Some(s) => share_status(s@, now),
        }),
        found matches Some(s) ==> (s.revoked_at is None && (s.expires_at matches Some(e) ==> now
            <= e) && (s.max_downloads == 0 || s.download_count < s.max_downloads) ==> r == Ok::<
            (),
            DriveError,
        >(())),
        found matches Some(s) ==> (s.revoked_at is Some ==> r == Err::<(), DriveError>(
            DriveError::ShareInvalid,
        )),
{
    match found {
        None => Err(DriveError::ShareNotFound),
        Some(s) => {
            let expired = match s.expires_at {
                Some(e) => e < now,
                None => false,
            };
            let exhausted = s.max_downloads > 0 && s.download_count >= s.max_downloads;
            if s.revoked_at.is_some() || expired {
                Err(DriveError::ShareInvalid)
            } else if exhausted {
                Err(DriveError::ShareExhausted)
            } else {
                Ok(())
            }
        },
    }
}

/// The shared node, given what a lookup found: it must exist and not be in
/// the trash.
pub fn check_shared_node(found: Option<Node>) -> (r: Result<Node, DriveError>)
    ensures
        match found {
            Some(n) if n.deleted_at is None => r matches Ok(m) && m == n,
            _ => r == Err::<Node, DriveError>(DriveError::ShareContentNotFound),
        },
{
    match found {
        Some(n) => {
            if n.deleted_at.is_none() {
                Ok(n)
            } else {
                Err(DriveError::ShareContentNotFound)
            }
        },
        None => Err(DriveError::ShareContentNotFound),
    }
}

/// Only files can be downloaded through a share.
pub fn check_downloadable(node: &Node) -> (r: Result<(), DriveError>)
    ensures
        r == (if node.kind == NodeKind::File {
            Ok(())
        } else {
            Err(DriveError::NotFile)
        }),
{
    if node.kind == NodeKind::File {
        Ok(())
    } else {
        Err(DriveError::NotFile)
    }
}

/// The share after one more download, or `None` when its limit is reached.
pub open spec fn after_download(s: ShareView) -> Option<ShareView> {
    if s.max_downloads == 0 || s.download_count < s.max_downloads {
        Some(ShareView { download_count: (s.download_count + 1) as i64, ..s })
    } else {
        None
    }
}

/// Counts one download if the limit allows it: the atomic
/// "increment unless used up" of a share download.
pub fn consume_download(share: &Share) -> (r: Option<Share>)
    requires
        share.download_count < i64::MAX,
    ensures
        match after_download(share@) {
            Some(v) => r matches Some(s) && s@ == v,
            None => r is None,
        },
        share_wf(share@) ==> (r matches Some(s) ==> share_wf(s@)),
        (share.max_downloads == 0 || share.download_count < share.max_downloads) ==> (r matches Some(
            s) && s.download_count == share.download_count + 1 && s.max_downloads
            == share.max_downloads && s.revoked_at == share.revoked_at && s.expires_at
            == share.expires_at),
        !(share.max_downloads == 0 || share.download_count < share.max_downloads) ==> r is None,
{
    if share.max_downloads == 0 || share.download_count < share.max_downloads {
        Some(
            Share {
                id: share.id,
                node_id: share.node_id,
                token: share.token.clone(),
                permission: share.permission.clone(),
                password_hash: match &share.password_hash {
                    Some(h) => Some(h.clone()),
                    None => None,
                },
                expires_at: share.expires_at,
                max_downloads: share.max_downloads,
                download_count: share.download_count + 1,
                created_by: share.created_by,
                created_at: share.created_at,
                revoked_at: share.revoked_at,
            },
        )
    } else {
        None
    }
}

/// The share revoked at `now`.
pub fn revoke(share: &Share, now: i64) -> (r: Share)
    ensures
        r@ == (ShareView { revoked_at: Some(now), ..share@ }),
        share_wf(share@) ==> share_wf(r@),
{
    Share {
        id: share.id,
        node_id: share.node_id,
        token: share.token.clone(),
        permission: share.permission.clone(),
        password_hash: match &share.password_hash {
            Some(h) => Some(h.clone()),
            None => None,
        },
        expires_at: share.expires_at,
        max_downloads: share.max_downloads,
        download_count: share.download_count,
        created_by: share.created_by,
        created_at: share.created_at,
        revoked_at: Some(now),
    }
}

/// The share after `k` downloads in a row, or `None` when one of them is refused.
pub open spec fn after_downloads(s: ShareView, k: nat) -> Option<ShareView>
    decreases k,
{
    if k == 0 {
        Some(s)
    } else {
        match after_downloads(s, (k - 1) as nat) {
            Some(t) => after_download(t),
            None => None,
        }
    }
}

proof fn lemma_after_downloads_count(s: ShareView, k: nat)
    requires
        s.max_downloads > 0,
        s.download_count + k <= s.max_downloads,
    ensures
        after_downloads(s, k) == Some(ShareView { download_count: (s.download_count + k) as i64, ..s }),
    decreases k,
{
    if k > 0 {
        lemma_after_downloads_count(s, (k - 1) as nat);
    }
}

/// A share limited to `n` downloads allows exactly `n`: from a fresh share
/// all `n` succeed, the next is refused, and the share then reads as exhausted.
pub proof fn lemma_download_limit(s: ShareView, now: i64)
    requires
        s.max_downloads > 0,
        s.download_count == 0,
    ensures
        after_downloads(s, s.max_downloads as nat) is Some,
        after_download(after_downloads(s, s.max_downloads as nat).unwrap()) is None,
        share_status(after_downloads(s, s.max_downloads as nat).unwrap(), now) != Ok::<
            (),
            DriveError,
        >(()),
        s.revoked_at is None && !is_expired(s, now) ==> share_status(
            after_downloads(s, s.max_downloads as nat).unwrap(),
            now,
        ) == Err::<(), DriveError>(DriveError::ShareExhausted),
{
    lemma_after_downloads_count(s, s.max_downloads as nat);
}

/// A share that is neither revoked nor past its expiry, and whose limit is
/// unlimited (0) or not yet reached, may be used, whatever its download count;
/// one whose limit is reached, and only such a one, is exhausted.
pub proof fn lemma_share_usable_iff(s: ShareView, now: i64)
    ensures
        s.revoked_at is None && (s.expires_at matches Some(e) ==> now <= e) && (s.max_downloads
            == 0 || s.download_count < s.max_downloads) ==> share_status(s, now) == Ok::<
            (),
            DriveError,
        >(()),
        s.revoked_at is None && (s.expires_at matches Some(e) ==> now <= e) && s.max_downloads > 0
            && s.download_count >= s.max_downloads ==> share_status(s, now) == Err::<
            (),
            DriveError,
        >(DriveError::ShareExhausted),
        s.revoked_at is Some || (s.expires_at matches Some(e) && e < now) ==> share_status(s, now)
            == Err::<(), DriveError>(DriveError::ShareInvalid),
{
}

/// The lifetime asked for is kept when it lies between one minute and 30
/// days; shorter asks get one minute, longer ones 30 days.
pub proof fn lemma_share_lifetime(now: i64, seconds: i64)
    ensures
        60 <= seconds <= 2_592_000 ==> expiry_of(now, seconds) == now + seconds * 1_000_000,
        seconds < 60 ==> expiry_of(now, seconds) == now + 60_000_000,
        seconds > 2_592_000 ==> expiry_of(now, seconds) == now + 2_592_000_000_000,
        expiry_of(now, seconds) - now >= 60_000_000,
        expiry_of(now, seconds) - now <= 2_592_000_000_000,
{
}

/// A well-formed share that may be used also admits one more download, and
/// one that refuses a download is never reported usable.
pub proof fn lemma_usable_share_downloads(s: ShareView, now: i64)
    requires
        share_wf(s),
    ensures
        share_status(s, now) == Ok::<(), DriveError>(()) ==> after_download(s) is Some,
        after_download(s) is None ==> share_status(s, now) != Ok::<(), DriveError>(()),
{
}

/// Every download of an unlimited share succeeds.
pub proof fn lemma_unlimited_downloads(s: ShareView, k: nat)
    requires
        s.max_downloads == 0,
        s.download_count + k <= i64::MAX,
    ensures
        after_downloads(s, k) == Some(ShareView { download_count: (s.download_count + k) as i64, ..s }),
    decreases k,
{
    if k > 0 {
        lemma_unlimited_downloads(s, (k - 1) as nat);
    }
}

/// A revoked share is refused at any time, whatever its counters.
pub proof fn lemma_revoked_refused(s: ShareView, t: i64, now: i64)
    ensures
        share_status(ShareView { revoked_at: Some(t), ..s }, now) == Err::<(), DriveError>(
            DriveError::ShareInvalid,
        ),
{
}

/// A share is refused once its expiry time has passed.
pub proof fn lemma_expired_refused(s: ShareView, now: i64)
    requires
        s.expires_at matches Some(e) && e < now,
    ensures
        share_status(s, now) == Err::<(), DriveError>(DriveError::ShareInvalid),
{
}

/// A newly created share can be used until it expires.
pub proof fn lemma_fresh_share_usable(s: ShareView, now: i64)
    requires
        s.revoked_at is None,
        s.download_count == 0,
        s.max_downloads >= 0,
        s.expires_at matches Some(e) ==> now <= e,
    ensures
        share_status(s, now) == Ok::<(), DriveError>(()),
{
}

/// Counting a download keeps a share's counters sensible.
pub proof fn lemma_download_keeps_wf(s: ShareView)
    requires
        share_wf(s),
        s.download_count < i64::MAX,
        after_download(s) is Some,
    ensures
        share_wf(after_download(s).unwrap()),
{
}

/// The URL path of a share: `/s/<token>`.
pub fn share_url(token: &str) -> (r: String)
    ensures
        r@ == "/s/"@ + token@,
{
    let u = String::from_str("/s/");
    u.concat(token)
}

// ----- password protection -----

/// `argon2::password_hash::Error`.
#[verifier::external_type_specification]
#[verifier::external_body]
pub struct ExPasswordHashError(argon2::password_hash::Error);

/// What `PasswordHash::new` makes of a text: does it parse as a PHC string?
pub uninterp spec fn phc_well_formed(hash: Seq<char>) -> bool;

/// What `Argon2::default().verify_password` says of a password's bytes and a
/// parsed PHC string: do they match?
pub uninterp spec fn argon2_accepts(password: Seq<u8>, hash: Seq<char>) -> bool;

/// Outcome of checking a password against a stored hash.
#[derive(Debug, Clone, Copy, PartialEq, Eq, Structural)]
pub enum PasswordCheck {
    /// The stored hash does not parse.
    Malformed,
    /// The password does not match.
    Rejected,
    /// The password matches.
    Accepted,
}

/// Hashes a password with Argon2 (default parameters) and a fresh random salt
/// (`SaltString::generate` with `OsRng`, then `PasswordHasher::hash_password`),
/// giving the PHC string. Trusted: a hash that is made parses and accepts the
/// same password; the salt, and so the text, is left unstated.
#[verifier::external_body]
fn argon2_hash(password: &str) -> (r: Result<String, argon2::password_hash::Error>)
    ensures
        r matches Ok(h) ==> phc_well_formed(h@) && argon2_accepts(encode_utf8(password@), h@),
{
    let salt = argon2::password_hash::SaltString::generate(&mut argon2::password_hash::rand_core::OsRng);
    argon2::Argon2::default().hash_password(password.as_bytes(), &salt).map(|h| h.to_string())
}

/// Parses a stored hash (`PasswordHash::new`) and verifies a password against it
/// (`Argon2::default().verify_password`). Trusted: the outcome follows
/// `phc_well_formed` and `argon2_accepts`.
#[verifier::external_body]
fn argon2_check(password: &str, hash: &str) -> (r: PasswordCheck)
    ensures
        (r == PasswordCheck::Malformed) == !phc_well_formed(hash@),
        (r == PasswordCheck::Accepted) == (phc_well_formed(hash@) && argon2_accepts(
            encode_utf8(password@),
            hash@,
        )),
{
    match argon2::password_hash::PasswordHash::new(hash) {
        Err(_) => PasswordCheck::Malformed,
        Ok(parsed) => match argon2::Argon2::default().verify_password(password.as_bytes(), &parsed) {
            Ok(()) => PasswordCheck::Accepted,
            Err(_) => PasswordCheck::Rejected,
        },
    }
}

/// Hashes a share password; a failure of the hasher is an internal error.
pub fn hash_share_password(password: &str) -> (r: Result<String, DriveError>)
    ensures
        match r {
            Ok(h) => phc_well_formed(h@) && argon2_accepts(encode_utf8(password@), h@),
            Err(e) => e == DriveError::PasswordHashFailed,
        },
{
    match argon2_hash(password) {
        Ok(h) => Ok(h),
        Err(_) => Err(DriveError::PasswordHashFailed),
    }
}

/// What checking a given password against a stored hash answers.
pub fn password_decision(check: PasswordCheck) -> (r: Result<(), DriveError>)
    ensures
        r == (match check {
            PasswordCheck::Malformed => Err(DriveError::SharePasswordHashCorrupt),
            PasswordCheck::Rejected => Err(DriveError::SharePasswordInvalid),
            PasswordCheck::Accepted => Ok(()),
        }),
{
    match check {
        PasswordCheck::Malformed => Err(DriveError::SharePasswordHashCorrupt),
        PasswordCheck::Rejected => Err(DriveError::SharePasswordInvalid),
        PasswordCheck::Accepted => Ok(()),
    }
}

/// What a share answers to a password: a share without password lets
/// everyone in; otherwise the password is required and must match.
pub open spec fn password_outcome(hash: Option<Seq<char>>, provided: Option<Seq<char>>) -> Result<(), DriveError> {
    match hash {
        None => Ok(()),
        Some(h) => match provided {
            None => Err(DriveError::SharePasswordRequired),
            Some(p) => if !phc_well_formed(h) {
                Err(DriveError::SharePasswordHashCorrupt)
            } else if argon2_accepts(encode_utf8(p), h) {
                Ok(())
            } else {
                Err(DriveError::SharePasswordInvalid)
            },
        },
    }
}

/// Checks the password given with a share access.
pub fn verify_share_password(share: &Share, provided: Option<&str>) -> (r: Result<(), DriveError>)
    ensures
        r == password_outcome(opt_view(share.password_hash), match provided {
            Some(p) => Some(p@),
            None => None,
        }),
{
    match &share.password_hash {
        None => Ok(()),
        Some(h) => match provided {
            None => Err(DriveError::SharePasswordRequired),
            Some(p) => password_decision(argon2_check(p, h.as_str())),
        },
    }
}

/// A share protected by the hash of a password admits that password, and
/// refuses an access that brings none.
pub proof fn lemma_password_roundtrip(password: Seq<char>, hash: Seq<char>)
    requires
        phc_well_formed(hash),
        argon2_accepts(encode_utf8(password), hash),
    ensures
        password_outcome(Some(hash), Some(password)) == Ok::<(), DriveError>(()),
        password_outcome(Some(hash), None) == Err::<(), DriveError>(
            DriveError::SharePasswordRequired,
        ),
{
}

/// A share without password admits every access.
pub proof fn lemma_no_password_open(provided: Option<Seq<char>>)
    ensures
        password_outcome(None, provided) == Ok::<(), DriveError>(()),
{
}

} // verus!
