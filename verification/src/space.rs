//! Spaces: creating them, their types and their members.
//!
//! Times are microseconds since the Unix epoch.
use vstd::prelude::*;
use crate::error::DriveError;
use crate::node::opt_view;
use crate::text::{char_count, spec_trim, str_eq, trim};

verus! {

broadcast use vstd::string::group_string_axioms;

/// Longest space name, in characters.
pub const MAX_SPACE_NAME_CHARS: usize = 64;

/// Kind of a space.
#[derive(Debug, Clone, Copy, PartialEq, Eq, Structural)]
pub enum SpaceType {
    /// A personal space.
    Personal,
    /// A public space.
    Public,
    /// A team space (the default).
    Team,
}

impl SpaceType {
    /// The stored name of the type.
    pub fn as_str(&self) -> (r: &'static str)
        ensures
            r@ == space_type_name(*self),
    {
        match self {
            SpaceType::Personal => "personal",
            SpaceType::Public => "public",
            SpaceType::Team => "team",
        }
    }
}

/// Stored name of each space type.
pub open spec fn space_type_name(t: SpaceType) -> Seq<char> {
    match t {
        SpaceType::Personal => "personal"@,
        SpaceType::Public => "public"@,
        SpaceType::Team => "team"@,
    }
}

/// The space type a name denotes, if any.
pub open spec fn space_type_of(s: Seq<char>) -> Option<SpaceType> {
    if s == "personal"@ {
        Some(SpaceType::Personal)
    } else if s == "public"@ {
        Some(SpaceType::Public)
    } else if s == "team"@ {
        Some(SpaceType::Team)
    } else {
        None
    }
}

/// Each type is read back from its stored name, and the three names are
/// the only ones read as types.
pub proof fn lemma_space_type_names(t: SpaceType, s: Seq<char>)
    ensures
        space_type_of(space_type_name(t)) == Some(t),
        space_type_of(s) matches Some(u) ==> s == space_type_name(u),
        space_type_of("personal"@) == Some(SpaceType::Personal),
        space_type_of("public"@) == Some(SpaceType::Public),
        space_type_of("team"@) == Some(SpaceType::Team),
{
    reveal_strlit("personal");
    reveal_strlit("public");
    reveal_strlit("team");
    assert("personal"@.len() == 8 && "public"@.len() == 6 && "team"@.len() == 4);
    assert("public"@ != "personal"@);
    assert("team"@ != "personal"@);
    assert("team"@ != "public"@);
}

/// A valid name with a requested type gives a space of exactly that type;
/// without one, a team space.
pub proof fn lemma_space_request_keeps_type(name: Seq<char>, t: SpaceType)
    requires
        0 < spec_trim(name).len() <= 64,
    ensures
        space_request_outcome(name, Some(space_type_name(t))) == Ok::<
            (Seq<char>, SpaceType),
            DriveError,
        >((spec_trim(name), t)),
        space_request_outcome(name, None) == Ok::<(Seq<char>, SpaceType), DriveError>(
            (spec_trim(name), SpaceType::Team),
        ),
{
    lemma_space_type_names(t, space_type_name(t));
    lemma_space_type_names(SpaceType::Team, "team"@);
}

/// A request to create a space.
#[derive(Debug, Clone)]
pub struct CreateSpaceRequest {
    /// Name.
    pub name: String,
    /// `personal`, `public` or `team` (the default).
    pub kind: Option<String>,
}

/// What a request to create a space answers: the trimmed name must have 1 to
/// 64 characters, and the type, `team` when absent, must be one of the three.
pub open spec fn space_request_outcome(name: Seq<char>, kind: Option<Seq<char>>) -> Result<
    (Seq<char>, SpaceType),
    DriveError,
> {
    let n = spec_trim(name);
    if n.len() == 0 || n.len() > 64 {
        Err(DriveError::SpaceNameInvalid)
    } else {
        match space_type_of(or_team(kind)) {
            Some(t) => Ok((n, t)),
            None => Err(DriveError::SpaceTypeInvalid),
        }
    }
}

/// The requested type, `team` when absent.
pub open spec fn or_team(kind: Option<Seq<char>>) -> Seq<char> {
    match kind {
        Some(k) => k,
        None => "team"@,
    }
}

/// Validates a request to create a space, giving the name to store and the type.
pub fn validate_space_request(req: &CreateSpaceRequest) -> (r: Result<(String, SpaceType), DriveError>)
    ensures
        match space_request_outcome(req.name@, opt_view(req.kind)) {
            Ok((n, t)) => r matches Ok((m, u)) && m@ == n && u == t,
            Err(e) => r == Err::<(String, SpaceType), DriveError>(e),
        },
        r matches Ok((_, t)) ==> space_type_name(t) == or_team(opt_view(req.kind)),
        0 < spec_trim(req.name@).len() <= 64 && (req.kind is None || space_type_of(opt_view(req.kind).unwrap()) is Some)
            ==> r is Ok,
        r is Ok ==> 0 < spec_trim(req.name@).len() <= 64,
        r matches Ok((m, _)) ==> m@ == spec_trim(req.name@),
{
    let name = trim(req.name.as_str());
    let n = char_count(name);
    if n == 0 || n > MAX_SPACE_NAME_CHARS {
        return Err(DriveError::SpaceNameInvalid);
    }
    let kind: &str = match &req.kind {
        Some(k) => k.as_str(),
        None => "team",
    };
    let t = if str_eq(kind, "personal") {
        SpaceType::Personal
    } else if str_eq(kind, "public") {
        SpaceType::Public
    } else if str_eq(kind, "team") {
        SpaceType::Team
    } else {
        return Err(DriveError::SpaceTypeInvalid);
    };
    Ok((name.to_owned(), t))
}

/// Role of a space member.
#[derive(Debug, Clone, Copy, PartialEq, Eq, Structural)]
pub enum Role {
    /// Manages the space.
    Admin,
    /// Edits the space.
    Editor,
    /// Reads the space.
    Viewer,
}

impl Role {
    /// The stored name of the role.
    pub fn as_str(&self) -> (r: &'static str)
        ensures
            r@ == (match self {
                Role::Admin => "admin"@,
                Role::Editor => "editor"@,
                Role::Viewer => "viewer"@,
            }),
    {
        match self {
            Role::Admin => "admin",
            Role::Editor => "editor",
            Role::Viewer => "viewer",
        }
    }
}

/// A space.
#[derive(Debug, Clone)]
pub struct Space {
    /// Space id.
    pub id: u128,
    /// Name.
    pub name: String,
    /// Type.
    pub kind: SpaceType,
    /// Owner.
    pub owner_id: u128,
    /// Creation time.
    pub created_at: i64,
}

/// A user's membership of a space.
#[derive(Debug, Clone, Copy, PartialEq, Eq, Structural)]
pub struct Membership {
    /// The space.
    pub space_id: u128,
    /// The member.
    pub user_id: u128,
    /// The member's role.
    pub role: Role,
    /// When the user joined.
    pub joined_at: i64,
}

/// A new space and the membership that makes its creator its admin.
pub fn new_space(id: u128, name: &str, kind: SpaceType, owner_id: u128, now: i64) -> (r: (
    Space,
    Membership,
))
    ensures
        r.0.id == id,
        r.0.name@ == name@,
        r.0.kind == kind,
        r.0.owner_id == owner_id,
        r.0.created_at == now,
        r.1 == (Membership { space_id: id, user_id: owner_id, role: Role::Admin, joined_at: now }),
{
    (
        Space { id, name: name.to_owned(), kind, owner_id, created_at: now },
        Membership { space_id: id, user_id: owner_id, role: Role::Admin, joined_at: now },
    )
}

} // verus!
