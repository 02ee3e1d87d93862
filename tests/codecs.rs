use std::collections::HashMap;

use club_registry::auth::{
    AuthHeader, User, UserRoles, UserTable, bearer_token, student_id_of, subject_user_id,
    token_user_id, user_id_from_subject,
};
use club_registry::clubs::{ActivityDayHouse, SubmissionStatus};
use club_registry::common::{ErrorKind, ErrorType, page_window, PaginationConfig};
use club_registry::contacts::ContactType;
use club_registry::date::{academic_year, get_current_academic_year};
use club_registry::health::Header;
use club_registry::text::{parse_u32, remove_bearer, text_eq};

#[test]
fn house_names_round_trip() {
    for h in [
        ActivityDayHouse::Felis,
        ActivityDayHouse::Cornicula,
        ActivityDayHouse::Sciurus,
        ActivityDayHouse::Cyprinus,
    ] {
        assert_eq!(ActivityDayHouse::from_string(&h.to_string()), Some(h));
    }
    assert_eq!(ActivityDayHouse::Cornicula.to_string(), "cornicula");
    assert_eq!(ActivityDayHouse::from_string("Felis"), None);
}

#[test]
fn submission_status_names() {
    assert_eq!(SubmissionStatus::Approved.to_string(), "approved");
    assert_eq!(SubmissionStatus::from_string("pending"), Some(SubmissionStatus::Pending));
    assert_eq!(SubmissionStatus::from_string("declined"), Some(SubmissionStatus::Declined));
    assert_eq!(SubmissionStatus::from_string("rejected"), None);
}

#[test]
fn contact_type_unknown_is_other() {
    assert_eq!(ContactType::from_string("Discord"), ContactType::Discord);
    assert_eq!(ContactType::from_string("Line"), ContactType::Line);
    assert_eq!(ContactType::from_string("Telegram"), ContactType::Other);
    assert_eq!(ContactType::Instagram.to_string(), "Instagram");
}

#[test]
fn user_roles_are_quoted() {
    assert_eq!(UserRoles::Teacher.to_string(), "\"teacher\"");
    assert_eq!(UserRoles::from_string("\"teacher\""), UserRoles::Teacher);
    assert_eq!(UserRoles::from_string("teacher"), UserRoles::Student);
    assert_eq!(UserRoles::new("\"student\""), UserRoles::Student);
}

#[test]
fn pagination_window() {
    assert_eq!(page_window(&None), Some((50, 0)));
    assert_eq!(page_window(&Some(PaginationConfig { p: 3, size: Some(10) })), Some((10, 20)));
    assert_eq!(page_window(&Some(PaginationConfig { p: 2, size: None })), Some((50, 50)));
    assert_eq!(page_window(&Some(PaginationConfig { p: 0, size: Some(10) })), None);
    assert_eq!(page_window(&Some(PaginationConfig { p: 1, size: Some(0) })), None);
    assert_eq!(
        page_window(&Some(PaginationConfig { p: u32::MAX, size: Some(u32::MAX) })),
        None
    );
}

#[test]
fn text_helpers() {
    assert!(text_eq("abc", "abc"));
    assert!(!text_eq("abc", "abd"));
    assert!(!text_eq("ab", "abc"));
    assert_eq!(parse_u32("12345"), Some(12345));
    assert_eq!(parse_u32("+7"), Some(7));
    assert_eq!(parse_u32("4294967295"), Some(u32::MAX));
    assert_eq!(parse_u32("4294967296"), None);
    assert_eq!(parse_u32("12a"), None);
    assert_eq!(parse_u32(""), None);
    assert_eq!(parse_u32("+"), None);
    assert_eq!(remove_bearer("Bearer abc.def"), "abc.def");
    assert_eq!(remove_bearer("xBearer yBearer "), "xy");
    assert_eq!(remove_bearer("token"), "token");
}

#[test]
fn bearer_header_decisions() {
    let e = bearer_token(&AuthHeader::Missing).unwrap_err();
    assert_eq!(e.kind, ErrorKind::MissingToken);
    assert_eq!(e.kind.slug(), "missing_token");
    assert_eq!(e.kind.code(), 401);
    let e = bearer_token(&AuthHeader::Unreadable).unwrap_err();
    assert_eq!(e.kind, ErrorKind::InvalidToken);
    assert_eq!(e.kind.slug(), "invalid_token");
    assert_eq!(e.kind.code(), 401);
    let t = bearer_token(&AuthHeader::Text("Bearer eyJ.x.y".to_string())).unwrap();
    assert_eq!(t, "eyJ.x.y");
}

#[test]
fn subject_parses_as_uuid() {
    assert_eq!(
        subject_user_id("550e8400-e29b-41d4-a716-446655440000").unwrap(),
        0x550e8400_e29b_41d4_a716_446655440000u128
    );
    assert_eq!(subject_user_id("not-a-uuid").unwrap_err().kind, ErrorKind::NotFound);
    assert_eq!(
        subject_user_id("550E8400-E29B-41D4-A716-446655440000").unwrap(),
        0x550e8400_e29b_41d4_a716_446655440000u128
    );
}

#[test]
fn academic_year_turns_in_may() {
    assert_eq!(academic_year(2024, 1), 2023);
    assert_eq!(academic_year(2024, 4), 2023);
    assert_eq!(academic_year(2024, 5), 2024);
    assert_eq!(academic_year(2024, 12), 2024);
    let now = get_current_academic_year();
    assert!(now >= 2024 && now < 2200);
}

#[test]
fn status_codes() {
    let mk = |code: u32| ErrorType::<String> {
        id: String::new(),
        code,
        error_type: String::new(),
        detail: String::new(),
        source: String::new(),
    };
    assert_eq!(mk(403).to_status_code(), 403);
    assert_eq!(mk(405).to_status_code(), 405);
    assert_eq!(mk(409).to_status_code(), 409);
    assert_eq!(mk(418).to_status_code(), 500);
    assert_eq!(ErrorKind::Conflict.code(), 409);
    assert_eq!(ErrorKind::NotFound.slug(), "entity_not_found");
}

#[test]
fn log_headers() {
    assert_eq!(Header::WARNING.label(), "WARNING");
    assert_eq!(Header::SUCCESS.label(), "SUCCESS");
}

#[test]
fn decoded_subject_names_a_user() {
    assert_eq!(user_id_from_subject(None).unwrap_err().kind, ErrorKind::InvalidToken);
    assert_eq!(
        user_id_from_subject(Some("e2104f1d-a1e4-4b3a-90c3-46e11d7592f9".to_string())).unwrap(),
        0xe2104f1d_a1e4_4b3a_90c3_46e11d7592f9u128
    );
    assert_eq!(
        user_id_from_subject(Some("3205".to_string())).unwrap_err().kind,
        ErrorKind::NotFound
    );
}

#[test]
fn signed_token_resolves_to_its_subject() {
    let mut claims: HashMap<String, serde_json::Value> = HashMap::new();
    claims.insert(
        "sub".to_string(),
        serde_json::Value::String("e2104f1d-a1e4-4b3a-90c3-46e11d7592f9".to_string()),
    );
    claims.insert("exp".to_string(), serde_json::Value::from(4_102_444_800u64));
    claims.insert("aud".to_string(), serde_json::Value::String("authenticated".to_string()));
    claims.insert("email".to_string(), serde_json::Value::String("a@student.example".to_string()));
    let token = jsonwebtoken::encode(
        &jsonwebtoken::Header::default(),
        &claims,
        &jsonwebtoken::EncodingKey::from_secret(b"s3cret"),
    )
    .unwrap();
    let header = AuthHeader::Text(format!("Bearer {token}"));
    assert_eq!(token_user_id(&header, "s3cret").unwrap(), 0xe2104f1d_a1e4_4b3a_90c3_46e11d7592f9u128);
    assert_eq!(token_user_id(&header, "other").unwrap_err().kind, ErrorKind::InvalidToken);
    assert_eq!(token_user_id(&AuthHeader::Missing, "s3cret").unwrap_err().kind, ErrorKind::MissingToken);
    let expired = {
        claims.insert("exp".to_string(), serde_json::Value::from(1_000u64));
        jsonwebtoken::encode(
            &jsonwebtoken::Header::default(),
            &claims,
            &jsonwebtoken::EncodingKey::from_secret(b"s3cret"),
        )
        .unwrap()
    };
    let header = AuthHeader::Text(format!("Bearer {expired}"));
    assert_eq!(token_user_id(&header, "s3cret").unwrap_err().kind, ErrorKind::InvalidToken);
    claims.insert("exp".to_string(), serde_json::Value::from(4_102_444_800u64));
    claims.remove("email");
    let no_email = jsonwebtoken::encode(
        &jsonwebtoken::Header::default(),
        &claims,
        &jsonwebtoken::EncodingKey::from_secret(b"s3cret"),
    )
    .unwrap();
    let header = AuthHeader::Text(format!("Bearer {no_email}"));
    assert_eq!(token_user_id(&header, "s3cret").unwrap_err().kind, ErrorKind::InvalidToken);
}

#[test]
fn teacher_on_student_route_is_forbidden() {
    let teacher = User::new(UserTable {
        id: 1,
        email: None,
        role: "\"teacher\"".to_string(),
        student: None,
        teacher: Some(9),
        onboarded: true,
        is_admin: false,
    });
    let e = student_id_of(&teacher).unwrap_err();
    assert_eq!(e.kind, ErrorKind::Forbidden);
    assert_eq!(e.kind.code(), 403);
    let student = User::new(UserTable {
        id: 2,
        email: None,
        role: "\"student\"".to_string(),
        student: None,
        teacher: None,
        onboarded: true,
        is_admin: false,
    });
    assert_eq!(student_id_of(&student).unwrap_err().kind, ErrorKind::NotFound);
}

#[test]
fn uuid_forms_parse_to_the_same_id() {
    let want = 0x550e8400_e29b_41d4_a716_446655440000u128;
    for text in [
        "550e8400e29b41d4a716446655440000",
        "550e8400-e29b-41d4-a716-446655440000",
        "{550e8400-e29b-41d4-a716-446655440000}",
        "urn:uuid:550e8400-e29b-41d4-a716-446655440000",
        "URN:UUID:550E8400-E29B-41D4-A716-446655440000",
    ] {
        assert_eq!(club_registry::ids::path_id(text), Some(want), "{text}");
    }
    assert_eq!(club_registry::ids::path_id("550e8400-e29b-41d4-a716-44665544000g"), None);
    assert_eq!(club_registry::ids::path_id("(550e8400-e29b-41d4-a716-446655440000)"), None);
}

#[test]
fn authenticated_user_keeps_the_stored_fields() {
    let row = UserTable {
        id: 5,
        email: Some("t@school.example".to_string()),
        role: "\"teacher\"".to_string(),
        student: None,
        teacher: Some(77),
        onboarded: false,
        is_admin: true,
    };
    let u = club_registry::auth::authenticated_user(Some(row)).unwrap();
    assert_eq!(u.id, 5);
    assert_eq!(u.role, UserRoles::Teacher);
    assert_eq!(u.teacher, Some(77));
    assert_eq!(u.email.as_deref(), Some("t@school.example"));
    assert!(u.is_admin && !u.onboarded);
    assert_eq!(
        club_registry::auth::authenticated_user(None).unwrap_err().kind,
        ErrorKind::NotFound
    );
}
