//! Types shared by every entity: multi-language text, fetch levels, the
//! request envelope, pagination and the error taxonomy.

use vstd::prelude::*;

use crate::ids::fresh_error_id;

verus! {

/// A text in Thai, with an optional English form.
#[derive(Debug, Clone)]
pub struct MultiLangString {
    pub en: Option<String>,
    pub th: String,
}

impl MultiLangString {
    pub fn new(en: Option<String>, th: String) -> (r: MultiLangString)
        ensures
            r.en == en,
            r.th == th,
    {
        MultiLangString { en, th }
    }
}

/// A text whose Thai and English forms are both optional.
#[derive(Debug, Clone)]
pub struct FlexibleMultiLangString {
    pub en: Option<String>,
    pub th: Option<String>,
}

/// How much of an entity a view carries.
#[derive(Debug, Clone, Copy, PartialEq, Eq, Structural)]
pub enum FetchLevel {
    Default,
    Compact,
    IdOnly,
}

/// A filter: an entity-specific structured part and a free-text query.
#[derive(Debug)]
pub struct FilterConfig<T> {
    pub data: Option<T>,
    pub q: Option<String>,
}

/// Sort keys, all in one direction.
#[derive(Debug, Clone)]
pub struct SortingConfig<T> {
    pub by: Option<Vec<T>>,
    pub ascending: bool,
}

/// A one-based page number and an optional page size.
#[derive(Debug)]
pub struct PaginationConfig {
    pub p: u32,
    pub size: Option<u32>,
}

/// The request envelope.
#[derive(Debug)]
pub struct RequestType<T, Queryable, Sortable> {
    pub data: Option<T>,
    pub pagination: Option<PaginationConfig>,
    pub filter: Option<FilterConfig<Queryable>>,
    pub sorting: Option<SortingConfig<Sortable>>,
    pub fetch_level: Option<FetchLevel>,
    pub descendant_fetch_level: Option<FetchLevel>,
}

/// The page size used when a request names none.
pub const DEFAULT_PAGE_SIZE: u32 = 50;

/// The page size that a pagination setting asks for.
pub open spec fn page_size(p: Option<PaginationConfig>) -> nat {
    match p {
        Some(c) => match c.size {
            Some(s) => s as nat,
            None => DEFAULT_PAGE_SIZE as nat,
        },
        None => DEFAULT_PAGE_SIZE as nat,
    }
}

/// The one-based page that a pagination setting asks for.
pub open spec fn page_number(p: Option<PaginationConfig>) -> nat {
    match p {
        Some(c) => c.p as nat,
        None => 1,
    }
}

/// A page must be positive and so must a given size; the offset of the page
/// must fit a signed 64-bit integer, the type of SQL's `OFFSET`.
pub open spec fn pagination_valid(p: Option<PaginationConfig>) -> bool {
    &&& page_number(p) >= 1
    &&& page_size(p) >= 1
    &&& (page_number(p) - 1) * page_size(p) <= i64::MAX
}

/// The `(limit, offset)` of a pagination setting, or `None` when it is not
/// valid.
pub fn page_window(p: &Option<PaginationConfig>) -> (r: Option<(i64, i64)>)
    ensures
        r.is_some() == pagination_valid(*p),
        r.is_some() ==> r.unwrap().0 == page_size(*p),
        r.is_some() ==> r.unwrap().1 == (page_number(*p) - 1) * page_size(*p),
{
    let (page, size): (u32, u32) = match p {
        Some(c) => (c.p, match c.size {
            Some(s) => s,
            None => DEFAULT_PAGE_SIZE,
        }),
        None => (1, DEFAULT_PAGE_SIZE),
    };
    if page == 0 || size == 0 {
        return None;
    }
    let pm: u64 = page as u64 - 1;
    let sz: u64 = size as u64;
    assert(pm * sz <= 0xffff_ffff * 0xffff_ffffu64) by (nonlinear_arith)
        requires
            pm <= 0xffff_ffff,
            sz <= 0xffff_ffff,
    ;
    let offset: u64 = pm * sz;
    if offset > i64::MAX as u64 {
        return None;
    }
    Some((size as i64, offset as i64))
}

/// The first `limit` rows, or all of them when there are fewer: a page
/// never holds more rows than its size.
pub fn keep_page<T>(rows: Vec<T>, limit: i64) -> (r: Vec<T>)
    requires
        limit >= 0,
    ensures
        r.len() <= limit,
        r@ == rows@.subrange(0, r.len() as int),
        rows.len() <= limit ==> r@ == rows@,
        rows.len() > limit ==> r.len() == limit,
{
    let mut rows = rows;
    if rows.len() as u64 > limit as u64 {
        rows.truncate(limit as usize);
    }
    rows
}

/// The error classes of the service, each with its HTTP status.
#[derive(Debug, Clone, Copy, PartialEq, Eq, Structural)]
pub enum ErrorKind {
    BadRequest,
    /// No token was sent (401).
    MissingToken,
    /// The token could not be read, verified or decoded (401).
    InvalidToken,
    Forbidden,
    NotFound,
    Conflict,
    InternalServerError,
}

pub open spec fn kind_code(k: ErrorKind) -> u32 {
    match k {
        ErrorKind::BadRequest => 400,
        ErrorKind::MissingToken => 401,
        ErrorKind::InvalidToken => 401,
        ErrorKind::Forbidden => 403,
        ErrorKind::NotFound => 404,
        ErrorKind::Conflict => 409,
        ErrorKind::InternalServerError => 500,
    }
}

impl ErrorKind {
    /// The HTTP status of this class.
    pub fn code(&self) -> (r: u32)
        ensures
            r == kind_code(*self),
    {
        match self {
            ErrorKind::BadRequest => 400,
            ErrorKind::MissingToken => 401,
        ErrorKind::InvalidToken => 401,
            ErrorKind::Forbidden => 403,
            ErrorKind::NotFound => 404,
            ErrorKind::Conflict => 409,
            ErrorKind::InternalServerError => 500,
        }
    }

    /// The short slug that names this class in an error object.
    pub fn slug(&self) -> (r: String)
        ensures
            r@ == kind_slug(*self),
    {
        let s: &str = match self {
            ErrorKind::BadRequest => "bad_request",
            ErrorKind::MissingToken => "missing_token",
            ErrorKind::InvalidToken => "invalid_token",
            ErrorKind::Forbidden => "forbidden",
            ErrorKind::NotFound => "entity_not_found",
            ErrorKind::Conflict => "conflict",
            ErrorKind::InternalServerError => "internal_server_error",
        };
        String::from_str(s)
    }
}

pub open spec fn kind_slug(k: ErrorKind) -> Seq<char> {
    match k {
        ErrorKind::BadRequest => "bad_request"@,
        ErrorKind::MissingToken => "missing_token"@,
        ErrorKind::InvalidToken => "invalid_token"@,
        ErrorKind::Forbidden => "forbidden"@,
        ErrorKind::NotFound => "entity_not_found"@,
        ErrorKind::Conflict => "conflict"@,
        ErrorKind::InternalServerError => "internal_server_error"@,
    }
}

/// An error as the handlers decide it: its class, a human detail and the
/// path it came from.
#[derive(Debug, Clone)]
pub struct ApiError {
    pub kind: ErrorKind,
    pub detail: String,
    pub source: String,
}

impl ApiError {
    pub fn new(kind: ErrorKind, detail: &str, source: &str) -> (r: ApiError)
        ensures
            r.kind == kind,
            r.detail@ == detail@,
            r.source@ == source@,
    {
        ApiError { kind, detail: String::from_str(detail), source: String::from_str(source) }
    }
}

/// The error object of a response.
#[derive(Debug)]
pub struct ErrorType<T> {
    pub id: String,
    pub code: u32,
    pub error_type: T,
    pub detail: String,
    pub source: String,
}

/// The HTTP status that an error object's code stands for: the codes of the
/// taxonomy and 405 stand for themselves, any other for 500.
pub open spec fn status_of_code(code: u32) -> u16 {
    if code == 400 || code == 401 || code == 403 || code == 404 || code == 405 || code == 409
        || code == 500 {
        code as u16
    } else {
        500
    }
}

impl<T> ErrorType<T> {
    pub fn to_status_code(&self) -> (r: u16)
        ensures
            r == status_of_code(self.code),
    {
        match self.code {
            400 => 400,
            401 => 401,
            403 => 403,
            404 => 404,
            405 => 405,
            409 => 409,
            _ => 500,
        }
    }
}

impl ErrorType<String> {
    /// The error object of an error, under a fresh correlation id.
    pub fn from_api_error(e: &ApiError) -> (r: ErrorType<String>)
        ensures
            r.id@.len() == 36,
            r.code == kind_code(e.kind),
            r.error_type@ == kind_slug(e.kind),
            r.detail == e.detail,
            r.source == e.source,
    {
        ErrorType {
            id: fresh_error_id(),
            code: e.kind.code(),
            error_type: e.kind.slug(),
            detail: e.detail.clone(),
            source: e.source.clone(),
        }
    }
}

/// Links to the pages of a listing.
#[derive(Debug)]
pub struct PaginationType {
    pub first: String,
    pub last: String,
    pub next: Option<String>,
    pub prev: Option<String>,
    pub size: u32,
    pub total: u32,
}

/// What a response says of itself.
#[derive(Debug)]
pub struct MetadataType {
    /// Seconds since the Unix epoch.
    pub timestamp: i64,
    pub pagination: PaginationType,
}

/// The version of the API that answers.
pub const API_VERSION: &'static str = "0.1.0";

/// A successful response: data and no error.
#[derive(Debug)]
pub struct ResponseType<T> {
    pub api_version: String,
    pub data: Option<T>,
    pub error: Option<ErrorType<String>>,
    pub meta: Option<MetadataType>,
}

impl<T> ResponseType<T> {
    pub fn new(data: T, meta: Option<MetadataType>) -> (r: Self)
        ensures
            r.api_version@ == API_VERSION@,
            r.data == Some(data),
            r.error is None,
            r.meta == meta,
    {
        ResponseType { api_version: String::from_str(API_VERSION), data: Some(data), error: None, meta }
    }
}

/// A failed response: an error and no data.
#[derive(Debug)]
pub struct ErrorResponseType {
    pub api_version: String,
    pub error: ErrorType<String>,
    pub data: Option<String>,
    pub meta: Option<MetadataType>,
}

impl ErrorResponseType {
    pub fn new(error: ErrorType<String>, meta: Option<MetadataType>) -> (r: Self)
        ensures
            r.api_version@ == API_VERSION@,
            r.error == error,
            r.data is None,
            r.meta == meta,
    {
        ErrorResponseType { api_version: String::from_str(API_VERSION), error, data: None, meta }
    }

    /// The HTTP status of the response.
    pub fn status_code(&self) -> (r: u16)
        ensures
            r == status_of_code(self.error.code),
    {
        self.error.to_status_code()
    }
}

} // verus!
