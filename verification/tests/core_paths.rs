//! Tests of the verified core on concrete values.

use std::collections::HashMap;

use drive_service::config::{is_valid_schema_name, Config, ConfigError};
use drive_service::digest::content_hash;
use drive_service::encoding::percent_encode_header;
use drive_service::error::DriveError;
use drive_service::ids::{share_token, storage_key, user_id_of, uuid_hyphenated, uuid_simple};
use drive_service::node::{
    check_member_node, check_membership, check_parent, listing_for, new_folder, restore,
    soft_delete, Node, NodeKind,
};
use drive_service::requests::{
    content_disposition, content_type_or_default, key_retry_step, plan_download, ticket_expiry,
    ticket_key, ticket_url, unix_seconds, upload_node, validate_node_name, DownloadPlan, RetryStep,
};
use drive_service::space::{new_space, validate_space_request, CreateSpaceRequest, Role, SpaceType};
use drive_service::share::{
    check_downloadable, check_share, check_shareable, check_shared_node, consume_download,
    hash_share_password, new_share, password_decision, plan_share, revoke, share_url,
    verify_share_password, CreateShareRequest, PasswordCheck, Share, ShareAccess,
};
use drive_service::text::{trim, trim_end_matches_char};

const SEC: i64 = 1_000_000;

fn map(pairs: &[(&str, &str)]) -> HashMap<String, String> {
    pairs
        .iter()
        .map(|(k, v)| (k.to_string(), v.to_string()))
        .collect()
}

#[test]
fn config_and_connect_validation_paths() {
    // schema 名非法 → 直接拒绝
    assert!(!is_valid_schema_name("Bad-Name"));
    // 缺少 DATABASE_URL → 报错
    assert!(Config::from_map(Default::default()).is_err());
    // 正常路径
    let config = Config::from_map(map(&[("DATABASE_URL", "postgres://x/db")])).expect("env config");
    assert!(!config.issuer.is_empty());
    assert_eq!(config.storage_driver, "local");
}

#[test]
fn config_defaults_and_overrides() {
    let c = Config::from_map(map(&[("DATABASE_URL", "postgres://db")])).unwrap();
    assert_eq!(c.database_url, "postgres://db");
    assert_eq!(c.bind_addr, "0.0.0.0:8087");
    assert_eq!(c.issuer, "http://localhost:8081");
    assert_eq!(c.storage_local_path, "data/storage");
    assert_eq!(c.storage_secret, "dev-storage-secret");
    let c = Config::from_map(map(&[
        ("DATABASE_URL", "u"),
        ("AUTH_ISSUER", "https://auth.example//"),
        ("DRIVE_BIND_ADDR", "127.0.0.1:1"),
        ("STORAGE_DRIVER", "s3"),
    ]))
    .unwrap();
    assert_eq!(c.issuer, "https://auth.example");
    assert_eq!(c.bind_addr, "127.0.0.1:1");
    assert_eq!(c.storage_driver, "s3");
    assert_eq!(
        Config::from_map(map(&[("AUTH_ISSUER", "x")])).unwrap_err(),
        ConfigError::MissingDatabaseUrl
    );
}

#[test]
fn schema_names() {
    assert!(is_valid_schema_name("drive"));
    assert!(is_valid_schema_name("a_1"));
    assert!(!is_valid_schema_name(""));
    assert!(!is_valid_schema_name("drive;drop"));
    assert!(!is_valid_schema_name("Drive"));
}

#[test]
fn trimming() {
    assert_eq!(trim("  x y \u{3000}\t"), "x y");
    assert_eq!(trim("\u{2003}"), "");
    assert_eq!(trim("素材"), "素材");
    assert_eq!(trim_end_matches_char("a///", '/'), "a");
    assert_eq!(trim_end_matches_char("///", '/'), "");
}

#[test]
fn percent_encoding_of_names() {
    assert_eq!(percent_encode_header("logo.png"), "logo.png");
    assert_eq!(percent_encode_header("a b"), "a%20b");
    assert_eq!(percent_encode_header("中"), "%E4%B8%AD");
    assert_eq!(percent_encode_header("r(1)~_-.pdf"), "r%281%29~_-.pdf");
    assert_eq!(percent_encode_header("\r\n"), "%0D%0A");
    assert_eq!(
        content_disposition("报告.pdf"),
        "attachment; filename*=UTF-8''%E6%8A%A5%E5%91%8A.pdf"
    );
}

#[test]
fn user_ids() {
    assert_eq!(
        user_id_of("a1a2a3a4-b1b2-c1c2-d1d2-d3d4d5d6d7d8"),
        Ok(0xa1a2a3a4b1b2c1c2d1d2d3d4d5d6d7d8u128)
    );
    assert_eq!(user_id_of("not-a-uuid"), Err(DriveError::InvalidToken));
    assert_eq!(user_id_of(""), Err(DriveError::InvalidToken));
}

#[test]
fn keys_and_tokens() {
    assert_eq!(
        storage_key(1, 0xabcdef),
        "drive/00000000000000000000000000000001/00000000000000000000000000abcdef"
    );
    let t = share_token(0xa1a2a3a4b1b2c1c2d1d2d3d4d5d6d7d8, 2);
    assert_eq!(
        t,
        "a1a2a3a4b1b2c1c2d1d2d3d4d5d6d7d800000000000000000000000000000002"
    );
    assert_eq!(share_url(&t), format!("/s/{t}"));
}

#[test]
fn content_hashes() {
    assert_eq!(
        content_hash(b""),
        "e3b0c44298fc1c149afbf4c8996fb92427ae41e4649b934ca495991b7852b855"
    );
    assert_eq!(
        content_hash(b"abc"),
        "ba7816bf8f01cfea414140de5dae2223b00361a396177a9cb410ff61f20015ad"
    );
}

#[test]
fn upload_records_size_and_hash() {
    let n = upload_node(
        7,
        1,
        Some(3),
        "logo.png",
        Some("image/png".to_string()),
        "drive/k".to_string(),
        b"fake-png-bytes",
        9,
        100,
    );
    assert_eq!(n.size, 14);
    assert_eq!(n.kind, NodeKind::File);
    assert_eq!(n.hash.as_deref(), Some(content_hash(b"fake-png-bytes").as_str()));
    assert_eq!(n.storage_key.as_deref(), Some("drive/k"));
    assert_eq!(n.deleted_at, None);
    assert_eq!(content_type_or_default(None), "application/octet-stream");
    assert_eq!(content_type_or_default(Some("text/plain")), "text/plain");
}

#[test]
fn space_requests() {
    let ok = validate_space_request(&CreateSpaceRequest {
        name: "  项目资料 ".to_string(),
        kind: None,
    })
    .unwrap();
    assert_eq!(ok.0, "项目资料");
    assert_eq!(ok.1, SpaceType::Team);
    assert_eq!(ok.1.as_str(), "team");
    let personal = validate_space_request(&CreateSpaceRequest {
        name: "me".to_string(),
        kind: Some("personal".to_string()),
    })
    .unwrap();
    assert_eq!(personal.1, SpaceType::Personal);
    assert_eq!(
        validate_space_request(&CreateSpaceRequest {
            name: "   ".to_string(),
            kind: None
        })
        .unwrap_err(),
        DriveError::SpaceNameInvalid
    );
    assert_eq!(
        validate_space_request(&CreateSpaceRequest {
            name: "a".repeat(65),
            kind: None
        })
        .unwrap_err(),
        DriveError::SpaceNameInvalid
    );
    assert!(validate_space_request(&CreateSpaceRequest {
        name: "字".repeat(64),
        kind: None
    })
    .is_ok());
    assert_eq!(
        validate_space_request(&CreateSpaceRequest {
            name: "x".to_string(),
            kind: Some("Team".to_string())
        })
        .unwrap_err(),
        DriveError::SpaceTypeInvalid
    );
}

#[test]
fn node_names() {
    assert_eq!(
        validate_node_name("a/b", NodeKind::Folder),
        Err(DriveError::FolderNameInvalid)
    );
    assert_eq!(
        validate_node_name(" ", NodeKind::File),
        Err(DriveError::FileNameInvalid)
    );
    assert_eq!(
        validate_node_name(&"n".repeat(256), NodeKind::File),
        Err(DriveError::FileNameInvalid)
    );
    assert_eq!(
        validate_node_name(" 素材 ", NodeKind::Folder),
        Ok("素材".to_string())
    );
}

fn folder(id: u128, space: u128) -> Node {
    new_folder(id, space, None, "dir", 1, 10)
}

fn file(id: u128, space: u128, parent: Option<u128>) -> Node {
    upload_node(
        id,
        space,
        parent,
        "f.txt",
        None,
        "drive/key".to_string(),
        b"hi",
        1,
        10,
    )
}

#[test]
fn parents() {
    assert_eq!(check_parent(5, None, None), Ok(()));
    assert_eq!(
        check_parent(5, Some(9), None),
        Err(DriveError::ParentNotFound)
    );
    let f = folder(9, 5);
    assert_eq!(check_parent(5, Some(9), Some(&f)), Ok(()));
    assert_eq!(
        check_parent(6, Some(9), Some(&f)),
        Err(DriveError::ParentInvalid)
    );
    let trashed = soft_delete(&f, 20);
    assert_eq!(
        check_parent(5, Some(9), Some(&trashed)),
        Err(DriveError::ParentInvalid)
    );
    let a_file = file(10, 5, None);
    assert_eq!(
        check_parent(5, Some(10), Some(&a_file)),
        Err(DriveError::ParentInvalid)
    );
}

#[test]
fn membership_and_lookup() {
    assert_eq!(check_membership(true), Ok(()));
    assert_eq!(check_membership(false), Err(DriveError::NotMember));
    assert_eq!(check_member_node(5, None).unwrap_err(), DriveError::NodeNotFound);
    assert_eq!(
        check_member_node(5, Some(folder(1, 6))).unwrap_err(),
        DriveError::NodeNotFound
    );
    assert_eq!(check_member_node(5, Some(folder(1, 5))).unwrap().id, 1);
}

#[test]
fn trash_and_restore() {
    let n = file(3, 5, Some(9));
    let deleted = soft_delete(&n, 50);
    assert_eq!(deleted.deleted_at, Some(50));
    assert_eq!(deleted.updated_at, 50);
    assert_eq!(deleted.name, "f.txt");
    let trash = listing_for(5, None, Some(true));
    let folder_view = listing_for(5, Some(9), None);
    assert!(trash.shows(&deleted));
    assert!(!folder_view.shows(&deleted));
    let restored = restore(&deleted, 60);
    assert_eq!(restored.deleted_at, None);
    assert_eq!(restored.updated_at, 60);
    assert_eq!(restored.created_at, n.created_at);
    assert_eq!(restored.hash, n.hash);
    assert!(folder_view.shows(&restored));
    assert!(!trash.shows(&restored));
    assert!(!listing_for(6, Some(9), None).shows(&restored));
    assert!(!listing_for(5, None, None).shows(&restored));
}

#[test]
fn downloads() {
    let n = file(3, 5, None);
    match plan_download(&n, true).unwrap() {
        DownloadPlan::Stream {
            key,
            content_type,
            disposition,
        } => {
            assert_eq!(key, "drive/key");
            assert_eq!(content_type, "application/octet-stream");
            assert_eq!(disposition, "attachment; filename*=UTF-8''f.txt");
        }
        _ => panic!("expected a stream"),
    }
    match plan_download(&n, false).unwrap() {
        DownloadPlan::Redirect { key } => assert_eq!(key, "drive/key"),
        _ => panic!("expected a redirect"),
    }
    assert_eq!(
        plan_download(&soft_delete(&n, 1), true).unwrap_err(),
        DriveError::FileNotFound
    );
    assert_eq!(
        plan_download(&folder(1, 5), true).unwrap_err(),
        DriveError::FileNotFound
    );
    let mut keyless = n.clone();
    keyless.storage_key = None;
    assert_eq!(
        plan_download(&keyless, true).unwrap_err(),
        DriveError::MissingStorageKey
    );
    assert_eq!(ticket_key(&keyless).unwrap_err(), DriveError::MissingStorageKey);
    assert_eq!(ticket_key(&n).unwrap(), "drive/key");
}

#[test]
fn tickets() {
    assert_eq!(ticket_expiry(1_000 * SEC), 1_300 * SEC);
    assert_eq!(unix_seconds(1_500_000), 1);
    assert_eq!(unix_seconds(-1), -1);
    assert_eq!(unix_seconds(-1_000_000), -1);
    assert_eq!(unix_seconds(0), 0);
    let url = ticket_url(
        0xa1a2a3a4b1b2c1c2d1d2d3d4d5d6d7d8,
        1,
        1_700_000_000 * SEC + 5,
        "abc",
    );
    assert_eq!(
        url,
        "/api/v1/drive/spaces/a1a2a3a4-b1b2-c1c2-d1d2-d3d4d5d6d7d8/nodes/00000000-0000-0000-0000-000000000001/download?expires=1700000000&signature=abc"
    );
    assert!(url.contains("signature="));
}

fn share_request(
    expires: Option<i64>,
    max: Option<i64>,
    password: Option<&str>,
) -> CreateShareRequest {
    CreateShareRequest {
        expires_in_seconds: expires,
        max_downloads: max,
        password: password.map(|p| p.to_string()),
    }
}

fn make_share(max: i64, expires: Option<i64>) -> Share {
    let plan = plan_share(&share_request(expires, Some(max), None), 0).unwrap();
    new_share(1, 2, share_token(3, 4), &plan, None, 9, 0)
}

#[test]
fn share_plans() {
    let now = 1_000 * SEC;
    let p = plan_share(&share_request(Some(10), None, None), now).unwrap();
    assert_eq!(p.expires_at, Some(now + 60 * SEC));
    assert_eq!(p.max_downloads, 0);
    assert_eq!(p.password, None);
    let p = plan_share(&share_request(Some(1_000_000_000), Some(-5), Some("   ")), now).unwrap();
    assert_eq!(p.expires_at, Some(now + 2_592_000 * SEC));
    assert_eq!(p.max_downloads, 0);
    assert_eq!(p.password, None);
    let p = plan_share(&share_request(Some(3600), Some(3), Some(" pass1234 ")), now).unwrap();
    assert_eq!(p.expires_at, Some(now + 3600 * SEC));
    assert_eq!(p.max_downloads, 3);
    assert_eq!(p.password.as_deref(), Some("pass1234"));
    assert_eq!(
        plan_share(&share_request(None, None, Some("x")), now).unwrap_err(),
        DriveError::SharePasswordLength
    );
    assert_eq!(
        plan_share(&share_request(None, None, Some(&"p".repeat(65))), now).unwrap_err(),
        DriveError::SharePasswordLength
    );
    assert!(plan_share(&share_request(None, None, Some(&"p".repeat(64))), now).is_ok());
    assert_eq!(check_shareable(&folder(1, 1)), Ok(()));
    assert_eq!(
        check_shareable(&soft_delete(&folder(1, 1), 3)),
        Err(DriveError::NodeNotFound)
    );
}

#[test]
fn share_link_lifecycle_with_limits() {
    let share = make_share(1, None);
    assert_eq!(share.permission, "read");
    assert_eq!(share.download_count, 0);
    assert_eq!(check_share(Some(&share), 5), Ok(()));
    // 第一次下载成功
    let after = consume_download(&share).expect("first download");
    assert_eq!(after.download_count, 1);
    // 超过次数
    assert!(consume_download(&after).is_none());
    assert_eq!(check_share(Some(&after), 5), Err(DriveError::ShareExhausted));
    // 吊销后不可用
    let revoked = revoke(&share, 7);
    assert_eq!(revoked.revoked_at, Some(7));
    assert_eq!(check_share(Some(&revoked), 8), Err(DriveError::ShareInvalid));
    // 不存在的分享
    assert_eq!(check_share(None, 8), Err(DriveError::ShareNotFound));
}

#[test]
fn share_expiry_and_unlimited() {
    let share = make_share(0, Some(60));
    assert_eq!(check_share(Some(&share), 60 * SEC), Ok(()));
    assert_eq!(
        check_share(Some(&share), 60 * SEC + 1),
        Err(DriveError::ShareInvalid)
    );
    let mut s = share;
    for k in 1..=5 {
        s = consume_download(&s).unwrap();
        assert_eq!(s.download_count, k);
    }
    let three = make_share(3, None);
    let a = consume_download(&three).unwrap();
    let b = consume_download(&a).unwrap();
    let c = consume_download(&b).unwrap();
    assert!(consume_download(&c).is_none());
}

#[test]
fn shared_nodes() {
    assert_eq!(
        check_shared_node(None).unwrap_err(),
        DriveError::ShareContentNotFound
    );
    assert_eq!(
        check_shared_node(Some(soft_delete(&file(1, 1, None), 2))).unwrap_err(),
        DriveError::ShareContentNotFound
    );
    assert_eq!(check_shared_node(Some(file(1, 1, None))).unwrap().id, 1);
    assert_eq!(check_downloadable(&file(1, 1, None)), Ok(()));
    assert_eq!(
        check_downloadable(&folder(1, 1)),
        Err(DriveError::NotFile)
    );
}

#[test]
fn share_password_protection() {
    let hash = hash_share_password("pass1234").expect("hash");
    assert!(hash.starts_with("$argon2"));
    let plan = plan_share(&share_request(None, None, Some("pass1234")), 0).unwrap();
    let share = new_share(1, 2, share_token(3, 4), &plan, Some(hash), 9, 0);
    // 无密码
    assert_eq!(
        verify_share_password(&share, None),
        Err(DriveError::SharePasswordRequired)
    );
    // 错误密码
    assert_eq!(
        verify_share_password(&share, Some("nope")),
        Err(DriveError::SharePasswordInvalid)
    );
    // 正确密码
    let access = ShareAccess {
        password: Some("pass1234".to_string()),
    };
    assert_eq!(
        verify_share_password(&share, access.password.as_deref()),
        Ok(())
    );
    // 哈希损坏
    let mut broken = share.clone();
    broken.password_hash = Some("not a phc string".to_string());
    assert_eq!(
        verify_share_password(&broken, Some("pass1234")),
        Err(DriveError::SharePasswordHashCorrupt)
    );
    // 无密码分享
    let open = make_share(0, None);
    assert_eq!(verify_share_password(&open, None), Ok(()));
    assert_eq!(verify_share_password(&open, Some("x")), Ok(()));
}

#[test]
fn password_decisions() {
    assert_eq!(
        password_decision(PasswordCheck::Malformed),
        Err(DriveError::SharePasswordHashCorrupt)
    );
    assert_eq!(
        password_decision(PasswordCheck::Rejected),
        Err(DriveError::SharePasswordInvalid)
    );
    assert_eq!(password_decision(PasswordCheck::Accepted), Ok(()));
}

#[test]
fn key_loading_retries() {
    assert_eq!(key_retry_step(1, true), RetryStep::Done);
    assert_eq!(key_retry_step(1, false), RetryStep::Retry { next: 2 });
    assert_eq!(key_retry_step(9, false), RetryStep::Retry { next: 10 });
    assert_eq!(key_retry_step(10, false), RetryStep::GiveUp);
    let mut attempts = 1;
    loop {
        match key_retry_step(attempts, false) {
            RetryStep::Retry { next } => attempts = next,
            _ => break,
        }
    }
    assert_eq!(attempts, 10);
}

#[test]
fn error_answers() {
    assert_eq!(DriveError::NotMember.status(), 403);
    assert_eq!(DriveError::NotMember.code(), Some("DRIVE_NOT_MEMBER"));
    assert_eq!(DriveError::ShareExhausted.status(), 403);
    assert_eq!(
        DriveError::SharePasswordRequired.code(),
        Some("DRIVE_SHARE_PASSWORD_REQUIRED")
    );
    assert_eq!(DriveError::SharePasswordInvalid.status(), 401);
    assert_eq!(DriveError::FolderNameInvalid.status(), 422);
    assert_eq!(DriveError::FolderNameInvalid.field(), Some(("name", "不能为空或包含 /")));
    assert_eq!(DriveError::ShareNotFound.status(), 404);
    assert_eq!(DriveError::NotFile.status(), 400);
    assert_eq!(DriveError::MissingStorageKey.status(), 500);
    assert_eq!(DriveError::MissingStorageKey.code(), None);
    assert_eq!(DriveError::ShareInvalid.message(), "分享已失效");
    assert_eq!(DriveError::InvalidToken.status(), 401);
}

#[test]
fn space_creator_is_admin() {
    let (space, member) = new_space(4, "项目资料", SpaceType::Team, 8, 100);
    assert_eq!(space.id, 4);
    assert_eq!(space.name, "项目资料");
    assert_eq!(space.owner_id, 8);
    assert_eq!(member.space_id, 4);
    assert_eq!(member.user_id, 8);
    assert_eq!(member.role, Role::Admin);
    assert_eq!(member.role.as_str(), "admin");
    assert_eq!(member.joined_at, 100);
}

#[test]
fn new_nodes_are_listed_in_their_folder() {
    let n = new_folder(11, 5, Some(9), "sub", 1, 10);
    assert!(listing_for(5, Some(9), None).shows(&n));
    assert!(listing_for(5, Some(9), Some(false)).shows(&n));
    assert!(!listing_for(5, None, None).shows(&n));
    assert!(!listing_for(5, Some(9), Some(true)).shows(&n));
    assert_eq!(n.storage_key, None);
    assert_eq!(n.size, 0);
}

#[test]
fn encoded_names_are_header_safe() {
    assert_eq!(percent_encode_header(""), "");
    let encoded = percent_encode_header("a\"b;c\r\n报告 (1).pdf");
    assert!(encoded
        .chars()
        .all(|c| c.is_ascii_alphanumeric() || ".-_~%".contains(c)));
    assert_eq!(encoded, "a%22b%3Bc%0D%0A%E6%8A%A5%E5%91%8A%20%281%29.pdf");
}

#[test]
fn trimming_is_idempotent() {
    for s in ["  a b  ", "\u{205F}x\u{85}", "", "   ", "素 材"] {
        let once = trim(s);
        assert_eq!(trim(once), once);
        assert!(!once.starts_with(char::is_whitespace));
        assert!(!once.ends_with(char::is_whitespace));
    }
}

#[test]
fn user_ids_round_trip() {
    for x in [0u128, 1, 0xffff_ffff_ffff_ffff_ffff_ffff_ffff_ffff, 0x0190_a1b2_c3d4_7e5f_8a9b_0c1d_2e3f_4a5b] {
        assert_eq!(user_id_of(&uuid_hyphenated(x)), Ok(x));
        assert_eq!(user_id_of(&uuid_simple(x)), Ok(x));
    }
    assert_eq!(uuid_hyphenated(1), "00000000-0000-0000-0000-000000000001");
    assert_eq!(uuid_simple(0xab), "000000000000000000000000000000ab");
}
