//! Files and folders of a space, the trash, and which nodes a listing shows.
//!
//! Times are microseconds since the Unix epoch.
use vstd::prelude::*;
use crate::error::DriveError;

verus! {

/// Folder or file.
#[derive(Debug, Clone, Copy, PartialEq, Eq, Structural)]
pub enum NodeKind {
    /// A folder (stored as `folder`).
    Folder,
    /// A file (stored as `file`).
    File,
}

impl NodeKind {
    /// The stored name of the kind.
    pub fn as_str(&self) -> (r: &'static str)
        ensures
            r@ == (match self {
                NodeKind::Folder => "folder"@,
                NodeKind::File => "file"@,
            }),
    {
        match self {
            NodeKind::Folder => "folder",
            NodeKind::File => "file",
        }
    }
}

/// A file or folder of a space; a node with `deleted_at` set is in the trash.
#[derive(Debug, Clone)]
pub struct Node {
    /// Node id.
    pub id: u128,
    /// Space the node belongs to.
    pub space_id: u128,
    /// Parent folder; `None` at the root.
    pub parent_id: Option<u128>,
    /// File or folder name.
    pub name: String,
    /// Folder or file.
    pub kind: NodeKind,
    /// Storage key of a file's bytes; folders have none.
    pub storage_key: Option<String>,
    /// Size in bytes.
    pub size: i64,
    /// MIME type.
    pub mime: Option<String>,
    /// SHA-256 of the content, lowercase hex.
    pub hash: Option<String>,
    /// Creator.
    pub created_by: u128,
    /// When the node was moved to the trash.
    pub deleted_at: Option<i64>,
    /// Creation time.
    pub created_at: i64,
    /// Last update time.
    pub updated_at: i64,
}

/// The stored content of a node: every field, strings by their text.
pub struct NodeView {
    pub id: u128,
    pub space_id: u128,
    pub parent_id: Option<u128>,
    pub name: Seq<char>,
    pub kind: NodeKind,
    pub storage_key: Option<Seq<char>>,
    pub size: i64,
    pub mime: Option<Seq<char>>,
    pub hash: Option<Seq<char>>,
    pub created_by: u128,
    pub deleted_at: Option<i64>,
    pub created_at: i64,
    pub updated_at: i64,
}

/// A node is well formed: a folder holds no content (no storage key, no
/// size, MIME type or hash), a file has a storage key, and sizes are not
/// negative.
pub open spec fn node_wf(n: NodeView) -> bool {
    &&& n.size >= 0
    &&& n.kind == NodeKind::Folder ==> n.storage_key is None && n.size == 0 && n.mime is None
        && n.hash is None
    &&& n.kind == NodeKind::File ==> n.storage_key is Some
}

/// Text of an optional string.
pub open spec fn opt_view(s: Option<String>) -> Option<Seq<char>> {
    match s {
        Some(v) => Some(v@),
        None => None,
    }
}

impl View for Node {
    type V = NodeView;

    open spec fn view(&self) -> NodeView {
        NodeView {
            id: self.id,
            space_id: self.space_id,
            parent_id: self.parent_id,
            name: self.name@,
            kind: self.kind,
            storage_key: opt_view(self.storage_key),
            size: self.size,
            mime: opt_view(self.mime),
            hash: opt_view(self.hash),
            created_by: self.created_by,
            deleted_at: self.deleted_at,
            created_at: self.created_at,
            updated_at: self.updated_at,
        }
    }
}

fn clone_opt_string(s: &Option<String>) -> (r: Option<String>)
    ensures
        opt_view(r) == opt_view(*s),
{
    match s {
        Some(v) => Some(v.clone()),
        None => None,
    }
}

/// A new folder, created by `user_id` at `now`.
pub fn new_folder(id: u128, space_id: u128, parent_id: Option<u128>, name: &str, user_id: u128, now: i64) -> (r: Node)
    ensures
        r@ == (NodeView {
            id,
            space_id,
            parent_id,
            name: name@,
            kind: NodeKind::Folder,
            storage_key: None,
            size: 0,
            mime: None,
            hash: None,
            created_by: user_id,
            deleted_at: None,
            created_at: now,
            updated_at: now,
        }),
        node_wf(r@),
{
    Node {
        id,
        space_id,
        parent_id,
        name: name.to_owned(),
        kind: NodeKind::Folder,
        storage_key: None,
        size: 0,
        mime: None,
        hash: None,
        created_by: user_id,
        deleted_at: None,
        created_at: now,
        updated_at: now,
    }
}

/// A new file whose bytes are stored under `storage_key`.
pub fn new_file(
    id: u128,
    space_id: u128,
    parent_id: Option<u128>,
    name: &str,
    mime: Option<String>,
    storage_key: String,
    size: i64,
    hash: Option<String>,
    user_id: u128,
    now: i64,
) -> (r: Node)
    ensures
        r@ == (NodeView {
            id,
            space_id,
            parent_id,
            name: name@,
            kind: NodeKind::File,
            storage_key: Some(storage_key@),
            size,
            mime: opt_view(mime),
            hash: opt_view(hash),
            created_by: user_id,
            deleted_at: None,
            created_at: now,
            updated_at: now,
        }),
        size >= 0 ==> node_wf(r@),
{
    Node {
        id,
        space_id,
        parent_id,
        name: name.to_owned(),
        kind: NodeKind::File,
        storage_key: Some(storage_key),
        size,
        mime,
        hash,
        created_by: user_id,
        deleted_at: None,
        created_at: now,
        updated_at: now,
    }
}

/// `n` with the trash mark and update time changed.
pub open spec fn with_times(n: NodeView, deleted_at: Option<i64>, now: i64) -> NodeView {
    NodeView { deleted_at, updated_at: now, ..n }
}

/// The node moved to the trash at `now`.
pub fn soft_delete(node: &Node, now: i64) -> (r: Node)
    ensures
        r@ == with_times(node@, Some(now), now),
        node_wf(node@) ==> node_wf(r@),
{
    Node {
        id: node.id,
        space_id: node.space_id,
        parent_id: node.parent_id,
        name: node.name.clone(),
        kind: node.kind,
        storage_key: clone_opt_string(&node.storage_key),
        size: node.size,
        mime: clone_opt_string(&node.mime),
        hash: clone_opt_string(&node.hash),
        created_by: node.created_by,
        deleted_at: Some(now),
        created_at: node.created_at,
        updated_at: now,
    }
}

/// The node taken out of the trash at `now`.
pub fn restore(node: &Node, now: i64) -> (r: Node)
    ensures
        r@ == with_times(node@, None, now),
        node_wf(node@) ==> node_wf(r@),
{
    Node {
        id: node.id,
        space_id: node.space_id,
        parent_id: node.parent_id,
        name: node.name.clone(),
        kind: node.kind,
        storage_key: clone_opt_string(&node.storage_key),
        size: node.size,
        mime: clone_opt_string(&node.mime),
        hash: clone_opt_string(&node.hash),
        created_by: node.created_by,
        deleted_at: None,
        created_at: node.created_at,
        updated_at: now,
    }
}

/// Which nodes a listing of a space shows: the trash, or the live children of
/// one folder (of the root when `parent_id` is `None`).
#[derive(Debug, Clone, Copy, PartialEq, Eq, Structural)]
pub struct NodeListing {
    /// The space.
    pub space_id: u128,
    /// The folder whose children are listed; ignored for the trash.
    pub parent_id: Option<u128>,
    /// List the trash instead of a folder.
    pub trashed: bool,
}

/// Does the listing show the node?
pub open spec fn listed(l: NodeListing, n: NodeView) -> bool {
    &&& n.space_id == l.space_id
    &&& if l.trashed {
        n.deleted_at is Some
    } else {
        n.deleted_at is None && n.parent_id == l.parent_id
    }
}

/// The listing a request asks for; `trashed` defaults to `false`.
pub fn listing_for(space_id: u128, parent_id: Option<u128>, trashed: Option<bool>) -> (r: NodeListing)
    ensures
        r == (NodeListing {
            space_id,
            parent_id,
            trashed: match trashed {
                Some(t) => t,
                None => false,
            },
        }),
{
    NodeListing {
        space_id,
        parent_id,
        trashed: match trashed {
            Some(t) => t,
            None => false,
        },
    }
}

impl NodeListing {
    /// Does this listing show `node`?
    pub fn shows(&self, node: &Node) -> (r: bool)
        ensures
            r == listed(*self, node@),
            r ==> node.space_id == self.space_id,
            r ==> (self.trashed <==> node.deleted_at is Some),
            !self.trashed && r ==> node.parent_id == self.parent_id,
    {
        if node.space_id != self.space_id {
            false
        } else if self.trashed {
            node.deleted_at.is_some()
        } else {
            node.deleted_at.is_none() && node.parent_id == self.parent_id
        }
    }
}

/// Moving a node to the trash and restoring it gives the node back as it
/// was, but for its update time.
pub proof fn lemma_restore_undoes_delete(n: NodeView, t1: i64, t2: i64)
    requires
        n.deleted_at is None,
    ensures
        with_times(with_times(n, Some(t1), t1), None, t2) == with_times(n, None, t2),
        with_times(with_times(n, Some(t1), t1), None, t2) == (NodeView { updated_at: t2, ..n }),
{
}

/// A node in the trash is listed in its space's trash and in no folder; once
/// restored it is listed in its own folder again and no longer in the trash.
pub proof fn lemma_trash_listing(n: NodeView, t1: i64, t2: i64, folder: Option<u128>)
    ensures
        listed(NodeListing { space_id: n.space_id, parent_id: folder, trashed: true }, with_times(n, Some(t1), t1)),
        !listed(NodeListing { space_id: n.space_id, parent_id: folder, trashed: false }, with_times(n, Some(t1), t1)),
        listed(NodeListing { space_id: n.space_id, parent_id: n.parent_id, trashed: false }, with_times(with_times(n, Some(t1), t1), None, t2)),
        !listed(NodeListing { space_id: n.space_id, parent_id: folder, trashed: true }, with_times(with_times(n, Some(t1), t1), None, t2)),
{
}

/// A listing shows only nodes of its own space, trash listings included; a
/// trash listing shows every trashed node of the space, and a folder listing
/// exactly the live children of that folder.
pub proof fn lemma_listing_scope(l: NodeListing, n: NodeView)
    ensures
        listed(l, n) ==> n.space_id == l.space_id,
        l.trashed ==> (listed(l, n) <==> n.space_id == l.space_id && n.deleted_at is Some),
        !l.trashed ==> (listed(l, n) <==> n.space_id == l.space_id && n.deleted_at is None
            && n.parent_id == l.parent_id),
{
}

/// A node just created (not in the trash) is listed in its own folder of its
/// space and in no other listing of that space.
pub proof fn lemma_new_node_listed(n: NodeView, folder: Option<u128>)
    requires
        n.deleted_at is None,
    ensures
        listed(NodeListing { space_id: n.space_id, parent_id: n.parent_id, trashed: false }, n),
        !listed(NodeListing { space_id: n.space_id, parent_id: folder, trashed: true }, n),
        folder != n.parent_id ==> !listed(NodeListing { space_id: n.space_id, parent_id: folder, trashed: false }, n),
{
}

/// Whether `parent_id` may hold new nodes of `space_id`, given what a lookup
/// of the parent found: no parent is the root; a parent must exist, belong to
/// the space, be a folder and not be in the trash.
pub fn check_parent(space_id: u128, parent_id: Option<u128>, found: Option<&Node>) -> (r: Result<(), DriveError>)
    ensures
        r == (match parent_id {
            None => Ok(()),
            Some(_) => match found {
                None => Err(DriveError::ParentNotFound),
                Some(p) => if p.space_id == space_id && p.kind == NodeKind::Folder && p.deleted_at is None {
                    Ok(())
                } else {
                    Err(DriveError::ParentInvalid)
                },
            },
        }),
{
    match parent_id {
        None => Ok(()),
        Some(_) => match found {
            None => Err(DriveError::ParentNotFound),
            Some(p) => {
                if p.space_id == space_id && p.kind == NodeKind::Folder && p.deleted_at.is_none() {
                    Ok(())
                } else {
                    Err(DriveError::ParentInvalid)
                }
            },
        },
    }
}

/// Only members of a space may use it.
pub fn check_membership(is_member: bool) -> (r: Result<(), DriveError>)
    ensures
        r == (if is_member {
            Ok(())
        } else {
            Err(DriveError::NotMember)
        }),
{
    if is_member {
        Ok(())
    } else {
        Err(DriveError::NotMember)
    }
}

/// The node a member asked for, given what a lookup by id found: it must
/// exist and belong to the space (trashed nodes included).
pub fn check_member_node(space_id: u128, found: Option<Node>) -> (r: Result<Node, DriveError>)
    ensures
        match found {
            Some(n) if n.space_id == space_id => r matches Ok(m) && m == n,
            _ => r == Err::<Node, DriveError>(DriveError::NodeNotFound),
        },
{
    match found {
        Some(n) => {
            if n.space_id == space_id {
                Ok(n)
            } else {
                Err(DriveError::NodeNotFound)
            }
        },
        None => Err(DriveError::NodeNotFound),
    }
}

} // verus!
