//! Users and roles, and the decisions of bearer-token authentication.

use vstd::prelude::*;

use crate::common::{ApiError, ErrorKind};
use crate::ids::{hyphenated_uuid, parse_uuid, uuid_of_text};
use crate::sql::{Bound, SqlValue, Statement, statement};
use crate::text::{remove_bearer, text_eq, without_bearer};

verus! {

/// The role of a user.
#[derive(Debug, Clone, Copy, PartialEq, Eq, Structural)]
pub enum UserRoles {
    Teacher,
    Student,
}

pub open spec fn role_text(r: UserRoles) -> Seq<char> {
    match r {
        UserRoles::Teacher => "\"teacher\""@,
        UserRoles::Student => "\"student\""@,
    }
}

/// The role that a stored role text names; any other text is a student.
pub open spec fn role_of_text(s: Seq<char>) -> UserRoles {
    if s == "\"teacher\""@ {
        UserRoles::Teacher
    } else {
        UserRoles::Student
    }
}

impl UserRoles {
    pub fn to_string(&self) -> (r: String)
        ensures
            r@ == role_text(*self),
    {
        match self {
            UserRoles::Teacher => String::from_str("\"teacher\""),
            UserRoles::Student => String::from_str("\"student\""),
        }
    }

    pub fn from_string(role: &str) -> (r: UserRoles)
        ensures
            r == role_of_text(role@),
    {
        if text_eq(role, "\"teacher\"") {
            UserRoles::Teacher
        } else {
            UserRoles::Student
        }
    }

    pub fn new(role: &str) -> (r: UserRoles)
        ensures
            r == role_of_text(role@),
    {
        UserRoles::from_string(role)
    }
}

/// A user as stored.
#[derive(Debug)]
pub struct UserTable {
    pub id: u128,
    pub email: Option<String>,
    pub role: String,
    pub student: Option<i64>,
    pub teacher: Option<i64>,
    pub onboarded: bool,
    pub is_admin: bool,
}

/// No user has the id that a token names.
#[derive(Debug)]
pub struct UserNotFoundError;

/// An authenticated user.
#[derive(Debug)]
pub struct User {
    pub id: u128,
    pub email: Option<String>,
    pub role: UserRoles,
    pub student: Option<i64>,
    pub teacher: Option<i64>,
    pub onboarded: bool,
    pub is_admin: bool,
}

impl User {
    pub fn new(user: UserTable) -> (r: Self)
        ensures
            r.id == user.id,
            r.email == user.email,
            r.role == role_of_text(user.role@),
            r.student == user.student,
            r.teacher == user.teacher,
            r.onboarded == user.onboarded,
            r.is_admin == user.is_admin,
    {
        let role = UserRoles::new(user.role.as_str());
        User {
            id: user.id,
            email: user.email,
            role,
            student: user.student,
            teacher: user.teacher,
            onboarded: user.onboarded,
            is_admin: user.is_admin,
        }
    }
}

/// What a request carries in its `Authorization` header.
#[derive(Debug)]
pub enum AuthHeader {
    Missing,
    /// Present, but not visible ASCII text.
    Unreadable,
    Text(String),
}

/// The token of an authorization header: the header's text with the bearer
/// marker taken out. A missing header is refused as `missing_token`, an
/// unreadable one as `invalid_token`.
pub fn bearer_token(header: &AuthHeader) -> (r: Result<String, ApiError>)
    ensures
        match *header {
            AuthHeader::Missing => r is Err && r->Err_0.kind == ErrorKind::MissingToken,
            AuthHeader::Unreadable => r is Err && r->Err_0.kind == ErrorKind::InvalidToken,
            AuthHeader::Text(t) => r is Ok && r->Ok_0@ == without_bearer(t@),
        },
{
    match header {
        AuthHeader::Missing => Err(ApiError::new(ErrorKind::MissingToken, "Missing Token", "")),
        AuthHeader::Unreadable => Err(ApiError::new(ErrorKind::InvalidToken, "Invalid token", "")),
        AuthHeader::Text(t) => Ok(remove_bearer(t.as_str())),
    }
}

/// The claims of a verified token that the service reads: each is `None`
/// when the token does not carry it with the right type (text, or an
/// integer for `exp`).
#[derive(Debug)]
pub struct TokenClaims {
    pub aud: Option<String>,
    pub exp: Option<i64>,
    pub sub: Option<String>,
    pub email: Option<String>,
}

/// Relies on `jsonwebtoken::decode` with `DecodingKey::from_secret` and
/// `Validation::default`: a token signed with the secret under HS256, well
/// formed and not expired by the clock (60 s leeway), gives its claims, of
/// which this keeps `aud`, `exp`, `sub` and `email`. The outcome depends on
/// the clock, so nothing is promised of it. (jsonwebtoken panics if the
/// system clock reads before 1970.)
#[verifier::external_body]
fn token_claims(token: &str, secret: &str) -> Option<TokenClaims> {
    let key = jsonwebtoken::DecodingKey::from_secret(secret.as_bytes());
    let validation = jsonwebtoken::Validation::default();
    let data = jsonwebtoken::decode::<std::collections::HashMap<String, serde_json::Value>>(token, &key, &validation).ok()?;
    let text = |k: &str| data.claims.get(k).and_then(serde_json::Value::as_str).map(String::from);
    let exp = data.claims.get("exp").and_then(serde_json::Value::as_i64);
    Some(TokenClaims { aud: text("aud"), exp, sub: text("sub"), email: text("email") })
}

/// A token carries every claim that the service requires: `aud`, `exp`,
/// `sub` and `email`.
pub open spec fn claims_complete(c: TokenClaims) -> bool {
    c.aud is Some && c.exp is Some && c.sub is Some && c.email is Some
}

/// The user id that a decoded token's subject names: a token that did not
/// decode is refused as `invalid_token`, and a subject that is no UUID names
/// no user.
pub fn user_id_from_subject(subject: Option<String>) -> (r: Result<u128, ApiError>)
    ensures
        subject is None ==> r is Err && r->Err_0.kind == ErrorKind::InvalidToken,
        subject is Some ==> {
            &&& (r is Ok <==> uuid_of_text(subject->Some_0@) is Some)
            &&& r is Ok ==> r->Ok_0 == uuid_of_text(subject->Some_0@)->Some_0
            &&& r is Err ==> r->Err_0.kind == ErrorKind::NotFound
        },
{
    match subject {
        None => Err(ApiError::new(ErrorKind::InvalidToken, "Invalid token", "")),
        Some(sub) => subject_user_id(sub.as_str()),
    }
}

/// The user id that a token's claims name: a token that did not decode, or
/// lacks a required claim, is refused as `invalid_token`; a subject that is
/// no UUID names no user.
pub fn user_id_from_claims(claims: Option<TokenClaims>) -> (r: Result<u128, ApiError>)
    ensures
        !(claims is Some && claims_complete(claims->Some_0)) ==> r is Err && r->Err_0.kind
            == ErrorKind::InvalidToken,
        claims is Some && claims_complete(claims->Some_0) ==> {
            let sub = claims->Some_0.sub->Some_0@;
            &&& (r is Ok <==> uuid_of_text(sub) is Some)
            &&& r is Ok ==> r->Ok_0 == uuid_of_text(sub)->Some_0
            &&& r is Err ==> r->Err_0.kind == ErrorKind::NotFound
        },
{
    match claims {
        Some(c) => {
            if c.aud.is_some() && c.exp.is_some() && c.email.is_some() {
                user_id_from_subject(c.sub)
            } else {
                user_id_from_subject(None)
            }
        },
        None => user_id_from_subject(None),
    }
}

/// The user id that a request's authorization header names, for tokens
/// signed with `secret`. A missing header is refused as `missing_token`; an
/// unreadable header, and a token that does not decode or lacks a required
/// claim, as `invalid_token`; a subject that is no UUID names no user.
pub fn token_user_id(header: &AuthHeader, secret: &str) -> (r: Result<u128, ApiError>)
    ensures
        header is Missing ==> r is Err && r->Err_0.kind == ErrorKind::MissingToken,
        r is Err && r->Err_0.kind == ErrorKind::MissingToken ==> header is Missing,
        header is Unreadable ==> r is Err && r->Err_0.kind == ErrorKind::InvalidToken,
        r is Ok ==> header is Text && exists|sub: Seq<char>| uuid_of_text(sub) == Some(r->Ok_0),
        r is Err ==> r->Err_0.kind == ErrorKind::MissingToken || r->Err_0.kind
            == ErrorKind::InvalidToken || r->Err_0.kind == ErrorKind::NotFound,
{
    let token = match bearer_token(header) {
        Ok(t) => t,
        Err(e) => return Err(e),
    };
    let claims = token_claims(token.as_str(), secret);
    let ghost sub = if claims is Some && claims->Some_0.sub is Some {
        claims->Some_0.sub->Some_0@
    } else {
        Seq::empty()
    };
    let r = user_id_from_claims(claims);
    proof {
        if r is Ok {
            assert(uuid_of_text(sub) == Some(r->Ok_0));
        }
    }
    r
}

/// The user id that a token's subject names; a subject that is no UUID
/// names no user.
pub fn subject_user_id(sub: &str) -> (r: Result<u128, ApiError>)
    ensures
        r is Ok <==> uuid_of_text(sub@) is Some,
        hyphenated_uuid(sub@) is Some ==> r is Ok && r->Ok_0 == hyphenated_uuid(sub@)->Some_0,
        r is Ok ==> r->Ok_0 == uuid_of_text(sub@)->Some_0,
        r is Err ==> r->Err_0.kind == ErrorKind::NotFound,
{
    user_id_from_parsed(parse_uuid(sub))
}

/// The user id of a parsed subject.
pub fn user_id_from_parsed(parsed: Option<u128>) -> (r: Result<u128, ApiError>)
    ensures
        r is Ok <==> parsed is Some,
        r is Ok ==> r->Ok_0 == parsed->Some_0,
        r is Err ==> r->Err_0.kind == ErrorKind::NotFound,
{
    match parsed {
        Some(id) => Ok(id),
        None => Err(ApiError::new(ErrorKind::NotFound, "User not found", "")),
    }
}

/// The user that a token's subject resolves to, from the stored row, if any.
pub fn authenticated_user(row: Option<UserTable>) -> (r: Result<User, ApiError>)
    ensures
        r is Ok <==> row is Some,
        r is Ok ==> {
            let (u, t) = (r->Ok_0, row->Some_0);
            &&& u.id == t.id
            &&& u.email == t.email
            &&& u.role == role_of_text(t.role@)
            &&& u.student == t.student
            &&& u.teacher == t.teacher
            &&& u.onboarded == t.onboarded
            &&& u.is_admin == t.is_admin
        },
        r is Err ==> r->Err_0.kind == ErrorKind::NotFound,
{
    match row {
        Some(u) => Ok(User::new(u)),
        None => Err(ApiError::new(ErrorKind::NotFound, "User not found", "")),
    }
}

/// The student id of a user who acts as a student: an authenticated user of
/// another role is forbidden, and a student user with no student record is
/// not found.
pub fn student_id_of(user: &User) -> (r: Result<i64, ApiError>)
    ensures
        user.role == UserRoles::Student && user.student is Some <==> r is Ok,
        r is Ok ==> r->Ok_0 == user.student->Some_0,
        user.role != UserRoles::Student ==> r is Err && r->Err_0.kind == ErrorKind::Forbidden,
        user.role == UserRoles::Student && user.student is None ==> r is Err
            && r->Err_0.kind == ErrorKind::NotFound,
{
    match user.role {
        UserRoles::Student => match user.student {
            Some(id) => Ok(id),
            None => Err(ApiError::new(ErrorKind::NotFound, "Student ID not Found", "")),
        },
        UserRoles::Teacher => Err(ApiError::new(ErrorKind::Forbidden, "User not a student", "")),
    }
}


/// Loads a user by id.
pub const USER_BY_ID: &'static str = "SELECT id, email, role, student, teacher, onboarded, is_admin FROM users WHERE id = $1";

/// Loads the user of a student.
pub const USER_OF_STUDENT: &'static str = "SELECT id, email, role, student, teacher, onboarded, is_admin FROM users WHERE student = $1";

impl UserTable {
    /// Loads the user with id `id`.
    pub fn from_id(id: u128) -> (r: Statement)
        ensures
            r@.sql == USER_BY_ID@,
            r@.params == seq![Bound::Uuid(id)],
    {
        let r = statement(USER_BY_ID, vec![SqlValue::Uuid(id)]);
        assert(r@.params =~= seq![Bound::Uuid(id)]);
        r
    }

    /// Loads the user of the student with id `student`.
    pub fn from_student_id(student: i64) -> (r: Statement)
        ensures
            r@.sql == USER_OF_STUDENT@,
            r@.params == seq![Bound::Int(student)],
    {
        let r = statement(USER_OF_STUDENT, vec![SqlValue::Int(student)]);
        assert(r@.params =~= seq![Bound::Int(student)]);
        r
    }
}

} // verus!
