//! The errors the drive service answers with.
use vstd::prelude::*;

verus! {

/// Every refusal of the drive service; each has an HTTP status, a stable code
/// and a message (see `status`, `code`, `message` and `field`).
#[derive(Debug, Clone, Copy, PartialEq, Eq, Structural)]
pub enum DriveError {
    /// The access token's subject is no user id.
    InvalidToken,
    /// The space name is empty or longer than 64 characters.
    SpaceNameInvalid,
    /// The space type is not personal, public or team.
    SpaceTypeInvalid,
    /// The user is not a member of the space.
    NotMember,
    /// The folder name is empty, longer than 255 characters or holds `/`.
    FolderNameInvalid,
    /// The file name is empty, longer than 255 characters or holds `/`.
    FileNameInvalid,
    /// The parent folder does not exist.
    ParentNotFound,
    /// The parent is not a live folder of the same space.
    ParentInvalid,
    /// The node does not exist in the space.
    NodeNotFound,
    /// The node is no live file.
    FileNotFound,
    /// A file node has no storage key.
    MissingStorageKey,
    /// The share password is not 4 to 64 characters long.
    SharePasswordLength,
    /// Hashing the share password failed.
    PasswordHashFailed,
    /// No share has the token.
    ShareNotFound,
    /// The shared node no longer exists.
    ShareContentNotFound,
    /// The share is revoked or expired.
    ShareInvalid,
    /// The share's downloads are used up.
    ShareExhausted,
    /// The share needs a password and none was given.
    SharePasswordRequired,
    /// The given share password is wrong.
    SharePasswordInvalid,
    /// The stored password hash cannot be read.
    SharePasswordHashCorrupt,
    /// Only files can be downloaded.
    NotFile,
}

/// HTTP status of each error.
pub open spec fn spec_status(e: DriveError) -> u16 {
    match e {
        DriveError::InvalidToken => 401,
        DriveError::SpaceNameInvalid => 422,
        DriveError::SpaceTypeInvalid => 422,
        DriveError::NotMember => 403,
        DriveError::FolderNameInvalid => 422,
        DriveError::FileNameInvalid => 422,
        DriveError::ParentNotFound => 404,
        DriveError::ParentInvalid => 422,
        DriveError::NodeNotFound => 404,
        DriveError::FileNotFound => 404,
        DriveError::MissingStorageKey => 500,
        DriveError::SharePasswordLength => 422,
        DriveError::PasswordHashFailed => 500,
        DriveError::ShareNotFound => 404,
        DriveError::ShareContentNotFound => 404,
        DriveError::ShareInvalid => 403,
        DriveError::ShareExhausted => 403,
        DriveError::SharePasswordRequired => 401,
        DriveError::SharePasswordInvalid => 401,
        DriveError::SharePasswordHashCorrupt => 500,
        DriveError::NotFile => 400,
    }
}

impl DriveError {
    /// HTTP status code.
    pub fn status(&self) -> (r: u16)
        ensures
            r == spec_status(*self),
    {
        match self {
            DriveError::InvalidToken => 401,
            DriveError::SpaceNameInvalid => 422,
            DriveError::SpaceTypeInvalid => 422,
            DriveError::NotMember => 403,
            DriveError::FolderNameInvalid => 422,
            DriveError::FileNameInvalid => 422,
            DriveError::ParentNotFound => 404,
            DriveError::ParentInvalid => 422,
            DriveError::NodeNotFound => 404,
            DriveError::FileNotFound => 404,
            DriveError::MissingStorageKey => 500,
            DriveError::SharePasswordLength => 422,
            DriveError::PasswordHashFailed => 500,
            DriveError::ShareNotFound => 404,
            DriveError::ShareContentNotFound => 404,
            DriveError::ShareInvalid => 403,
            DriveError::ShareExhausted => 403,
            DriveError::SharePasswordRequired => 401,
            DriveError::SharePasswordInvalid => 401,
            DriveError::SharePasswordHashCorrupt => 500,
            DriveError::NotFile => 400,
        }
    }

    /// Stable machine-readable code; internal errors have none.
    pub fn code(&self) -> (r: Option<&'static str>)
        ensures
            match r {
                Some(c) => spec_code(*self) == Some(c@),
                None => spec_code(*self) is None,
            },
    {
        match self {
            DriveError::InvalidToken => Some("AUTH_INVALID_TOKEN"),
            DriveError::SpaceNameInvalid => Some("DRIVE_VALIDATION"),
            DriveError::SpaceTypeInvalid => Some("DRIVE_VALIDATION"),
            DriveError::NotMember => Some("DRIVE_NOT_MEMBER"),
            DriveError::FolderNameInvalid => Some("DRIVE_VALIDATION"),
            DriveError::FileNameInvalid => Some("DRIVE_VALIDATION"),
            DriveError::ParentNotFound => Some("DRIVE_NODE_NOT_FOUND"),
            DriveError::ParentInvalid => Some("DRIVE_VALIDATION"),
            DriveError::NodeNotFound => Some("DRIVE_NODE_NOT_FOUND"),
            DriveError::FileNotFound => Some("DRIVE_NODE_NOT_FOUND"),
            DriveError::MissingStorageKey => None,
            DriveError::SharePasswordLength => Some("DRIVE_VALIDATION"),
            DriveError::PasswordHashFailed => None,
            DriveError::ShareNotFound => Some("DRIVE_SHARE_NOT_FOUND"),
            DriveError::ShareContentNotFound => Some("DRIVE_SHARE_NOT_FOUND"),
            DriveError::ShareInvalid => Some("DRIVE_SHARE_INVALID"),
            DriveError::ShareExhausted => Some("DRIVE_SHARE_EXHAUSTED"),
            DriveError::SharePasswordRequired => Some("DRIVE_SHARE_PASSWORD_REQUIRED"),
            DriveError::SharePasswordInvalid => Some("DRIVE_SHARE_PASSWORD_INVALID"),
            DriveError::SharePasswordHashCorrupt => None,
            DriveError::NotFile => Some("DRIVE_NOT_FILE"),
        }
    }

    /// Human-readable message.
    pub fn message(&self) -> (r: &'static str)
        ensures
            r@ == spec_message(*self),
    {
        match self {
            DriveError::InvalidToken => "访问令牌无效",
            DriveError::SpaceNameInvalid => "空间名称需为 1 ~ 64 字符",
            DriveError::SpaceTypeInvalid => "空间类型不合法",
            DriveError::NotMember => "无权访问该空间",
            DriveError::FolderNameInvalid => "文件夹名称不合法",
            DriveError::FileNameInvalid => "文件名不合法",
            DriveError::ParentNotFound => "父目录不存在",
            DriveError::ParentInvalid => "父目录不合法",
            DriveError::NodeNotFound => "节点不存在",
            DriveError::FileNotFound => "文件不存在",
            DriveError::MissingStorageKey => "文件缺少存储 Key",
            DriveError::SharePasswordLength => "分享密码需为 4 ~ 64 字符",
            DriveError::PasswordHashFailed => "分享密码哈希失败",
            DriveError::ShareNotFound => "分享不存在",
            DriveError::ShareContentNotFound => "分享内容不存在",
            DriveError::ShareInvalid => "分享已失效",
            DriveError::ShareExhausted => "分享下载次数已用完",
            DriveError::SharePasswordRequired => "需要分享密码",
            DriveError::SharePasswordInvalid => "分享密码错误",
            DriveError::SharePasswordHashCorrupt => "分享密码哈希损坏",
            DriveError::NotFile => "仅文件可下载",
        }
    }

    /// The request field a validation error is about, with its detail.
    pub fn field(&self) -> (r: Option<(&'static str, &'static str)>)
        ensures
            match r {
                Some((f, d)) => spec_field(*self) == Some((f@, d@)),
                None => spec_field(*self) is None,
            },
    {
        match self {
            DriveError::SpaceNameInvalid => Some(("name", "非法")),
            DriveError::SpaceTypeInvalid => Some(("type", "仅支持 personal/public/team")),
            DriveError::FolderNameInvalid => Some(("name", "不能为空或包含 /")),
            DriveError::FileNameInvalid => Some(("name", "不能为空或包含 /")),
            DriveError::ParentInvalid => Some(("parentId", "必须是同空间的文件夹")),
            DriveError::SharePasswordLength => Some(("password", "长度不合法")),
            _ => None,
        }
    }
}

/// How the answers are organised: validation errors (422) and only they
/// name a field and share the code `DRIVE_VALIDATION`; internal errors (500)
/// and only they carry no code; share refusals that forbid (403) are told
/// apart by their codes.
pub proof fn lemma_error_classes(e: DriveError)
    ensures
        (spec_status(e) == 422) <==> spec_field(e) is Some,
        spec_status(e) == 422 ==> spec_code(e) == Some("DRIVE_VALIDATION"@),
        (spec_status(e) == 500) <==> spec_code(e) is None,
        spec_code(DriveError::ShareInvalid) != spec_code(DriveError::ShareExhausted),
        spec_code(DriveError::SharePasswordRequired) != spec_code(
            DriveError::SharePasswordInvalid,
        ),
        spec_status(e) == 400 || spec_status(e) == 401 || spec_status(e) == 403 || spec_status(e)
            == 404 || spec_status(e) == 422 || spec_status(e) == 500,
{
    reveal_strlit("DRIVE_SHARE_INVALID");
    reveal_strlit("DRIVE_SHARE_EXHAUSTED");
    reveal_strlit("DRIVE_SHARE_PASSWORD_REQUIRED");
    reveal_strlit("DRIVE_SHARE_PASSWORD_INVALID");
    assert("DRIVE_SHARE_INVALID"@.len() != "DRIVE_SHARE_EXHAUSTED"@.len());
    assert("DRIVE_SHARE_PASSWORD_REQUIRED"@[22] != "DRIVE_SHARE_PASSWORD_INVALID"@[22]);
}

/// Code of each error; internal errors have none.
pub open spec fn spec_code(e: DriveError) -> Option<Seq<char>> {
    match e {
        DriveError::InvalidToken => Some("AUTH_INVALID_TOKEN"@),
        DriveError::SpaceNameInvalid => Some("DRIVE_VALIDATION"@),
        DriveError::SpaceTypeInvalid => Some("DRIVE_VALIDATION"@),
        DriveError::NotMember => Some("DRIVE_NOT_MEMBER"@),
        DriveError::FolderNameInvalid => Some("DRIVE_VALIDATION"@),
        DriveError::FileNameInvalid => Some("DRIVE_VALIDATION"@),
        DriveError::ParentNotFound => Some("DRIVE_NODE_NOT_FOUND"@),
        DriveError::ParentInvalid => Some("DRIVE_VALIDATION"@),
        DriveError::NodeNotFound => Some("DRIVE_NODE_NOT_FOUND"@),
        DriveError::FileNotFound => Some("DRIVE_NODE_NOT_FOUND"@),
        DriveError::MissingStorageKey => None,
        DriveError::SharePasswordLength => Some("DRIVE_VALIDATION"@),
        DriveError::PasswordHashFailed => None,
        DriveError::ShareNotFound => Some("DRIVE_SHARE_NOT_FOUND"@),
        DriveError::ShareContentNotFound => Some("DRIVE_SHARE_NOT_FOUND"@),
        DriveError::ShareInvalid => Some("DRIVE_SHARE_INVALID"@),
        DriveError::ShareExhausted => Some("DRIVE_SHARE_EXHAUSTED"@),
        DriveError::SharePasswordRequired => Some("DRIVE_SHARE_PASSWORD_REQUIRED"@),
        DriveError::SharePasswordInvalid => Some("DRIVE_SHARE_PASSWORD_INVALID"@),
        DriveError::SharePasswordHashCorrupt => None,
        DriveError::NotFile => Some("DRIVE_NOT_FILE"@),
    }
}

/// Message of each error.
pub open spec fn spec_message(e: DriveError) -> Seq<char> {
    match e {
        DriveError::InvalidToken => "访问令牌无效"@,
        DriveError::SpaceNameInvalid => "空间名称需为 1 ~ 64 字符"@,
        DriveError::SpaceTypeInvalid => "空间类型不合法"@,
        DriveError::NotMember => "无权访问该空间"@,
        DriveError::FolderNameInvalid => "文件夹名称不合法"@,
        DriveError::FileNameInvalid => "文件名不合法"@,
        DriveError::ParentNotFound => "父目录不存在"@,
        DriveError::ParentInvalid => "父目录不合法"@,
        DriveError::NodeNotFound => "节点不存在"@,
        DriveError::FileNotFound => "文件不存在"@,
        DriveError::MissingStorageKey => "文件缺少存储 Key"@,
        DriveError::SharePasswordLength => "分享密码需为 4 ~ 64 字符"@,
        DriveError::PasswordHashFailed => "分享密码哈希失败"@,
        DriveError::ShareNotFound => "分享不存在"@,
        DriveError::ShareContentNotFound => "分享内容不存在"@,
        DriveError::ShareInvalid => "分享已失效"@,
        DriveError::ShareExhausted => "分享下载次数已用完"@,
        DriveError::SharePasswordRequired => "需要分享密码"@,
        DriveError::SharePasswordInvalid => "分享密码错误"@,
        DriveError::SharePasswordHashCorrupt => "分享密码哈希损坏"@,
        DriveError::NotFile => "仅文件可下载"@,
    }
}

/// Field and detail of each validation error.
pub open spec fn spec_field(e: DriveError) -> Option<(Seq<char>, Seq<char>)> {
    match e {
        DriveError::SpaceNameInvalid => Some(("name"@, "非法"@)),
        DriveError::SpaceTypeInvalid => Some(("type"@, "仅支持 personal/public/team"@)),
        DriveError::FolderNameInvalid => Some(("name"@, "不能为空或包含 /"@)),
        DriveError::FileNameInvalid => Some(("name"@, "不能为空或包含 /"@)),
        DriveError::ParentInvalid => Some(("parentId"@, "必须是同空间的文件夹"@)),
        DriveError::SharePasswordLength => Some(("password"@, "长度不合法"@)),
        _ => None,
    }
}

} // verus!
