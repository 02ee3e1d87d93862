//! Join requests: a student's request to join a club for an academic year,
//! their filter and sort keys, and their views.

use vstd::prelude::*;

use crate::clubs::{Club, SubmissionStatus, club_id, sort_ascending};
use crate::student::{Student, student_id};
use crate::common::{
    FetchLevel, FilterConfig, RequestType, SortingConfig, page_number, page_size, page_window,
    pagination_valid,
};
use crate::sql::{
    Statement, statement,
    Bound, Column, FilterTerm, QueryView, SqlQuery, SqlValue, TermView, all_slots, build_select,
    bound_values, equals_terms, lemma_slots_fresh_and_increasing, push_equals, select_query,
    slot_run, some_count, terms_view,
};

verus! {

/// The structured part of a join-request filter.
#[derive(Debug, Clone)]
pub struct QueryableClubRequest {
    pub id: Option<u128>,
    pub club_id: Option<u128>,
    pub student_id: Option<i64>,
    pub year: Option<i64>,
    pub membership_status: Option<SubmissionStatus>,
}

/// The fields of a new join request.
#[derive(Debug, Clone)]
pub struct CreatableClubRequest {
    pub club_id: u128,
    pub student_id: i64,
    pub year: Option<i64>,
    pub membership_status: SubmissionStatus,
}

/// The fields of a join request that an update may set.
#[derive(Debug, Clone)]
pub struct UpdatableClubRequest {
    pub club_id: Option<u128>,
    pub student_id: Option<i64>,
    pub year: Option<i64>,
    pub membership_status: Option<SubmissionStatus>,
}

/// A key that join requests may be sorted by.
#[derive(Debug, Clone, Copy, PartialEq, Eq, Structural)]
pub enum ClubRequestSortableField {
    Id,
    ClubId,
    StudentId,
    Year,
    MembershipStatus,
    CreatedAt,
}

pub open spec fn request_sort_column(f: ClubRequestSortableField) -> Column {
    match f {
        ClubRequestSortableField::Id => Column::Id,
        ClubRequestSortableField::ClubId => Column::ClubId,
        ClubRequestSortableField::StudentId => Column::StudentId,
        ClubRequestSortableField::Year => Column::Year,
        ClubRequestSortableField::MembershipStatus => Column::MembershipStatus,
        ClubRequestSortableField::CreatedAt => Column::CreatedAt,
    }
}

impl ClubRequestSortableField {
    pub fn column(&self) -> (r: Column)
        ensures
            r == request_sort_column(*self),
    {
        match self {
            ClubRequestSortableField::Id => Column::Id,
            ClubRequestSortableField::ClubId => Column::ClubId,
            ClubRequestSortableField::StudentId => Column::StudentId,
            ClubRequestSortableField::Year => Column::Year,
            ClubRequestSortableField::MembershipStatus => Column::MembershipStatus,
            ClubRequestSortableField::CreatedAt => Column::CreatedAt,
        }
    }
}

/// The columns of a join request row.
pub const CLUB_REQUEST_SELECT: &'static str = "SELECT id, club_id, student_id, year, membership_status, created_at FROM club_members";

/// A join request as stored.
#[derive(Debug, Clone)]
pub struct ClubRequestTable {
    pub id: u128,
    pub club_id: u128,
    pub student_id: i64,
    pub year: i64,
    pub membership_status: SubmissionStatus,
    /// Seconds since the Unix epoch.
    pub created_at: Option<i64>,
}

/// The terms of a join-request filter, one per given field. Join requests
/// have no text column, so a free-text query adds none.
pub open spec fn request_data_terms(d: QueryableClubRequest) -> Seq<TermView> {
    equals_terms(
        match d.id {
            Some(u) => Some(Bound::Uuid(u)),
            None => None,
        },
        Column::Id,
    ) + equals_terms(
        match d.club_id {
            Some(u) => Some(Bound::Uuid(u)),
            None => None,
        },
        Column::ClubId,
    ) + equals_terms(
        match d.student_id {
            Some(s) => Some(Bound::Int(s)),
            None => None,
        },
        Column::StudentId,
    ) + equals_terms(
        match d.year {
            Some(y) => Some(Bound::Int(y)),
            None => None,
        },
        Column::Year,
    ) + equals_terms(
        match d.membership_status {
            Some(s) => Some(Bound::Status(s)),
            None => None,
        },
        Column::MembershipStatus,
    )
}

pub open spec fn request_terms(f: Option<FilterConfig<QueryableClubRequest>>) -> Seq<TermView> {
    match f {
        Some(f) => match f.data {
            Some(d) => request_data_terms(d),
            None => seq![],
        },
        None => seq![],
    }
}

/// The number of fields that a join-request filter gives.
pub open spec fn request_fields_given(d: QueryableClubRequest) -> nat {
    some_count(d.id) + some_count(d.club_id) + some_count(d.student_id) + some_count(d.year)
        + some_count(d.membership_status)
}

/// The sort columns: those asked for, or the primary key when none is.
pub open spec fn request_order(s: Option<SortingConfig<ClubRequestSortableField>>) -> Seq<Column> {
    match s {
        Some(c) => match c.by {
            Some(v) => if v@.len() > 0 {
                v@.map_values(|f: ClubRequestSortableField| request_sort_column(f))
            } else {
                seq![Column::Id]
            },
            None => seq![Column::Id],
        },
        None => seq![Column::Id],
    }
}

/// The statement that a valid join-request request asks for.
pub open spec fn request_query<T>(
    r: RequestType<T, QueryableClubRequest, ClubRequestSortableField>,
) -> QueryView {
    select_query(
        CLUB_REQUEST_SELECT@,
        request_terms(r.filter),
        request_order(r.sorting),
        sort_ascending(r.sorting),
        page_size(r.pagination) as i64,
        ((page_number(r.pagination) - 1) * page_size(r.pagination)) as i64,
    )
}

fn request_filter_terms(f: &Option<FilterConfig<QueryableClubRequest>>) -> (r: Vec<FilterTerm>)
    ensures
        terms_view(r@) == request_terms(*f),
{
    let mut ts: Vec<FilterTerm> = Vec::new();
    assert(terms_view(ts@) =~= seq![]);
    if let Some(f) = f {
        if let Some(d) = &f.data {
            push_equals(
                &mut ts,
                match d.id {
                    Some(u) => Some(SqlValue::Uuid(u)),
                    None => None,
                },
                Column::Id,
            );
            push_equals(
                &mut ts,
                match d.club_id {
                    Some(u) => Some(SqlValue::Uuid(u)),
                    None => None,
                },
                Column::ClubId,
            );
            push_equals(
                &mut ts,
                match d.student_id {
                    Some(s) => Some(SqlValue::Int(s)),
                    None => None,
                },
                Column::StudentId,
            );
            push_equals(
                &mut ts,
                match d.year {
                    Some(y) => Some(SqlValue::Int(y)),
                    None => None,
                },
                Column::Year,
            );
            push_equals(
                &mut ts,
                match d.membership_status {
                    Some(s) => Some(SqlValue::Status(s)),
                    None => None,
                },
                Column::MembershipStatus,
            );
            assert(terms_view(ts@) =~= request_data_terms(*d));
        }
    }
    ts
}

fn request_order_columns(s: &Option<SortingConfig<ClubRequestSortableField>>) -> (r: Vec<Column>)
    ensures
        r@ == request_order(*s),
{
    let mut cols: Vec<Column> = Vec::new();
    if let Some(c) = s {
        if let Some(by) = &c.by {
            let mut i: usize = 0;
            while i < by.len()
                invariant
                    i <= by.len(),
                    cols@ == by@.subrange(0, i as int).map_values(
                        |f: ClubRequestSortableField| request_sort_column(f),
                    ),
                decreases by.len() - i,
            {
                cols.push(by[i].column());
                assert(by@.subrange(0, i + 1) == by@.subrange(0, i as int).push(by@[i as int]));
                assert(cols@ =~= by@.subrange(0, i + 1).map_values(
                    |f: ClubRequestSortableField| request_sort_column(f),
                ));
                i = i + 1;
            }
            assert(by@.subrange(0, i as int) == by@);
        }
    }
    if cols.len() == 0 {
        cols.push(Column::Id);
    }
    assert(cols@ =~= request_order(*s));
    cols
}

impl ClubRequestTable {
    /// The statement that lists join requests for a request: filter, order
    /// and page. `None` when the request's pagination is not valid.
    pub fn construct_query_string<T>(
        request: &RequestType<T, QueryableClubRequest, ClubRequestSortableField>,
    ) -> (r: Option<SqlQuery>)
        ensures
            r.is_some() == pagination_valid(request.pagination),
            r.is_some() ==> r.unwrap()@ == request_query(*request),
    {
        let (limit, offset) = match page_window(&request.pagination) {
            Some(w) => w,
            None => return None,
        };
        let terms = request_filter_terms(&request.filter);
        let order = request_order_columns(&request.sorting);
        let ascending = match &request.sorting {
            Some(c) => c.ascending,
            None => true,
        };
        Some(build_select(CLUB_REQUEST_SELECT, &terms, order, ascending, limit, offset))
    }
}

/// A join-request filter that gives exactly the fields of a set S yields
/// exactly |S| predicates; their placeholders are `1` to `|S|`, and `LIMIT`
/// and `OFFSET` take the next two.
pub proof fn lemma_request_filter_composes<T>(
    r: RequestType<T, QueryableClubRequest, ClubRequestSortableField>,
)
    ensures
        ({
            let q = request_query(r);
            let n: nat = match r.filter {
                Some(f) => match f.data {
                    Some(d) => request_fields_given(d),
                    None => 0,
                },
                None => 0,
            };
            &&& q.predicates.len() == n
            &&& all_slots(q.predicates) == slot_run(1, n)
            &&& q.limit_slot == n + 1
            &&& q.offset_slot == n + 2
        }),
{
    let ts = request_terms(r.filter);
    lemma_slots_fresh_and_increasing(ts);
    assert(ts.len() == bound_values(ts).len()) by {
        if let Some(f) = r.filter {
            if let Some(d) = f.data {
                lemma_equality_terms_bind_one_value(request_data_terms(d));
            }
        }
    }
}

/// A page of join requests is `LIMIT` rows from `OFFSET` on: the size
/// asked for, 50 when none is, from `(page - 1) * size`; with no pagination
/// at all, the first 50 rows.
pub proof fn lemma_request_pagination<T>(
    r: RequestType<T, QueryableClubRequest, ClubRequestSortableField>,
)
    requires
        pagination_valid(r.pagination),
    ensures
        ({
            let q = request_query(r);
            let n = bound_values(request_terms(r.filter)).len();
            &&& q.params.len() == n + 2
            &&& q.params[n as int] == Bound::Int(page_size(r.pagination) as i64)
            &&& q.params[n as int + 1] == Bound::Int(
                ((page_number(r.pagination) - 1) * page_size(r.pagination)) as i64,
            )
            &&& r.pagination is None ==> q.params[n as int] == Bound::Int(50) && q.params[n as int
                + 1] == Bound::Int(0)
        }),
{
    let q = request_query(r);
    let b = bound_values(request_terms(r.filter));
    let size = page_size(r.pagination) as i64;
    let offset = ((page_number(r.pagination) - 1) * page_size(r.pagination)) as i64;
    assert(q.params == b + seq![Bound::Int(size), Bound::Int(offset)]);
    assert(q.params[b.len() as int] == Bound::Int(size));
    assert(q.params[b.len() as int + 1] == Bound::Int(offset));
    assert(q.params.len() == b.len() + 2);
    if r.pagination is None {
        assert(page_size(r.pagination) == 50);
        assert(page_number(r.pagination) == 1);
        assert(q.params[b.len() as int] == Bound::Int(50));
        assert((page_number(r.pagination) - 1) * page_size(r.pagination) == 0 * 50);
        assert(offset == 0);
        assert(q.params[b.len() as int + 1] == Bound::Int(0));
    }
}

/// Terms that are all equalities bind one value each.
proof fn lemma_equality_terms_bind_one_value(ts: Seq<TermView>)
    requires
        forall|i: int| 0 <= i < ts.len() ==> ts[i] is Equals,
    ensures
        bound_values(ts).len() == ts.len(),
    decreases ts.len(),
{
    if ts.len() > 0 {
        lemma_equality_terms_bind_one_value(ts.drop_last());
    }
}

/// A join request's id alone.
#[derive(Debug)]
pub struct IdOnlyClubRequest {
    pub id: u128,
}

/// A join request's own fields, with the club and student by id.
#[derive(Debug)]
pub struct CompactClubRequest {
    pub id: u128,
    pub club_id: u128,
    pub student_id: i64,
    pub year: i64,
    pub membership_status: SubmissionStatus,
}

/// A join request with its club and student.
#[derive(Debug)]
pub struct DefaultClubRequest {
    pub id: u128,
    pub club: Club,
    pub student: Student,
    pub year: i64,
    pub membership_status: SubmissionStatus,
}

/// A join request at one of the three fetch levels.
#[derive(Debug)]
pub enum ClubRequest {
    Default(DefaultClubRequest),
    Compact(CompactClubRequest),
    IdOnly(IdOnlyClubRequest),
}

/// The related records of a `Default` join-request view, as loaded.
#[derive(Debug)]
pub struct ClubRequestRelations {
    pub club: Option<Club>,
    pub student: Option<Student>,
}

/// The loaded club and student are those that the request names.
pub open spec fn request_relations_match(rel: ClubRequestRelations, row: ClubRequestTable) -> bool {
    &&& rel.club is Some
    &&& rel.student is Some
    &&& club_id(rel.club->Some_0) == row.club_id
    &&& student_id(rel.student->Some_0) == row.student_id
}

/// `v` is the view of `row` at `level`.
pub open spec fn request_view_of(v: ClubRequest, row: ClubRequestTable, level: FetchLevel) -> bool {
    match level {
        FetchLevel::IdOnly => match v {
            ClubRequest::IdOnly(x) => x.id == row.id,
            _ => false,
        },
        FetchLevel::Compact => match v {
            ClubRequest::Compact(x) => x.id == row.id && x.club_id == row.club_id && x.student_id
                == row.student_id && x.year == row.year && x.membership_status
                == row.membership_status,
            _ => false,
        },
        FetchLevel::Default => match v {
            ClubRequest::Default(x) => x.id == row.id && club_id(x.club) == row.club_id
                && student_id(x.student) == row.student_id && x.year == row.year
                && x.membership_status == row.membership_status,
            _ => false,
        },
    }
}

impl ClubRequest {
    /// The view of a join-request row at `fetch_level`. The relations are
    /// read only at `Default`, where they must be the request's own club
    /// and student; `None` when they are not.
    pub fn from_table(
        table: &ClubRequestTable,
        fetch_level: FetchLevel,
        relations: ClubRequestRelations,
    ) -> (r: Option<ClubRequest>)
        ensures
            r is Some <==> (fetch_level == FetchLevel::Default ==> request_relations_match(
                relations,
                *table,
            )),
            r is Some ==> request_view_of(r->Some_0, *table, fetch_level),
    {
        match fetch_level {
            FetchLevel::IdOnly => Some(ClubRequest::IdOnly(IdOnlyClubRequest { id: table.id })),
            FetchLevel::Compact => Some(
                ClubRequest::Compact(
                    CompactClubRequest {
                        id: table.id,
                        club_id: table.club_id,
                        student_id: table.student_id,
                        year: table.year,
                        membership_status: table.membership_status,
                    },
                ),
            ),
            FetchLevel::Default => match (relations.club, relations.student) {
                (Some(club), Some(student)) => {
                    if club.id() != table.club_id || student.id() != table.student_id {
                        return None;
                    }
                    Some(
                        ClubRequest::Default(
                            DefaultClubRequest {
                                id: table.id,
                                club,
                                student,
                                year: table.year,
                                membership_status: table.membership_status,
                            },
                        ),
                    )
                },
                _ => None,
            },
        }
    }

    /// The id of the club that the request is for, when the view shows it.
    pub fn club_id(&self) -> (r: Option<u128>)
        ensures
            match *self {
                ClubRequest::Default(x) => r == Some(club_id(x.club)),
                ClubRequest::Compact(x) => r == Some(x.club_id),
                ClubRequest::IdOnly(_) => r is None,
            },
    {
        match self {
            ClubRequest::Default(x) => Some(x.club.id()),
            ClubRequest::Compact(x) => Some(x.club_id),
            ClubRequest::IdOnly(_) => None,
        }
    }
}

impl CreatableClubRequest {
    /// A pending request of a student to join a club in an academic year.
    pub fn pending(club_id: u128, student_id: i64, year: i64) -> (r: Self)
        ensures
            r.club_id == club_id,
            r.student_id == student_id,
            r.year == Some(year),
            r.membership_status == SubmissionStatus::Pending,
    {
        CreatableClubRequest {
            club_id,
            student_id,
            year: Some(year),
            membership_status: SubmissionStatus::Pending,
        }
    }
}


/// Loads a join request by id.
pub const CLUB_REQUEST_BY_ID: &'static str = "SELECT id, club_id, student_id, year, membership_status, created_at FROM club_members WHERE id = $1";

/// A student's memberships of a club in an academic year.
pub const CLUB_MEMBERSHIPS: &'static str = "SELECT id, club_id, student_id, year, membership_status, created_at FROM club_members WHERE club_id = $1 AND student_id = $2 AND year = $3";

/// Stores a join request for a given year and returns its id.
pub const CLUB_REQUEST_INSERT: &'static str = "INSERT INTO club_members (club_id, student_id, year, membership_status) VALUES ($1, $2, $3, $4) RETURNING id";

/// Stores a join request for the year that storage assigns and returns its id.
pub const CLUB_REQUEST_INSERT_DEFAULT_YEAR: &'static str = "INSERT INTO club_members (club_id, student_id, membership_status) VALUES ($1, $2, $3) RETURNING id";

/// Sets the status of a join request.
pub const CLUB_REQUEST_SET_STATUS: &'static str = "UPDATE club_members SET membership_status = $1 WHERE id = $2";

impl ClubRequestTable {
    /// Loads the join request with id `id`.
    pub fn get_by_id(id: u128) -> (r: Statement)
        ensures
            r@.sql == CLUB_REQUEST_BY_ID@,
            r@.params == seq![Bound::Uuid(id)],
    {
        let r = statement(CLUB_REQUEST_BY_ID, vec![SqlValue::Uuid(id)]);
        assert(r@.params =~= seq![Bound::Uuid(id)]);
        r
    }

    /// Lists a student's memberships of a club in an academic year.
    pub fn memberships(club_id: u128, student_id: i64, year: i64) -> (r: Statement)
        ensures
            r@.sql == CLUB_MEMBERSHIPS@,
            r@.params == seq![Bound::Uuid(club_id), Bound::Int(student_id), Bound::Int(year)],
    {
        let r = statement(
            CLUB_MEMBERSHIPS,
            vec![SqlValue::Uuid(club_id), SqlValue::Int(student_id), SqlValue::Int(year)],
        );
        assert(r@.params =~= seq![Bound::Uuid(club_id), Bound::Int(student_id), Bound::Int(year)]);
        r
    }

    /// Stores a new join request.
    pub fn create(request: &CreatableClubRequest) -> (r: Statement)
        ensures
            match request.year {
                Some(y) => r@.sql == CLUB_REQUEST_INSERT@ && r@.params == seq![
                    Bound::Uuid(request.club_id),
                    Bound::Int(request.student_id),
                    Bound::Int(y),
                    Bound::Status(request.membership_status),
                ],
                None => r@.sql == CLUB_REQUEST_INSERT_DEFAULT_YEAR@ && r@.params == seq![
                    Bound::Uuid(request.club_id),
                    Bound::Int(request.student_id),
                    Bound::Status(request.membership_status),
                ],
            },
    {
        match request.year {
            Some(y) => {
                let r = statement(
                    CLUB_REQUEST_INSERT,
                    vec![
                        SqlValue::Uuid(request.club_id),
                        SqlValue::Int(request.student_id),
                        SqlValue::Int(y),
                        SqlValue::Status(request.membership_status),
                    ],
                );
                assert(r@.params =~= seq![
                    Bound::Uuid(request.club_id),
                    Bound::Int(request.student_id),
                    Bound::Int(y),
                    Bound::Status(request.membership_status),
                ]);
                r
            },
            None => {
                let r = statement(
                    CLUB_REQUEST_INSERT_DEFAULT_YEAR,
                    vec![
                        SqlValue::Uuid(request.club_id),
                        SqlValue::Int(request.student_id),
                        SqlValue::Status(request.membership_status),
                    ],
                );
                assert(r@.params =~= seq![
                    Bound::Uuid(request.club_id),
                    Bound::Int(request.student_id),
                    Bound::Status(request.membership_status),
                ]);
                r
            },
        }
    }

    /// Sets the status of the join request with id `id`.
    pub fn set_status(id: u128, status: SubmissionStatus) -> (r: Statement)
        ensures
            r@.sql == CLUB_REQUEST_SET_STATUS@,
            r@.params == seq![Bound::Status(status), Bound::Uuid(id)],
    {
        let r = statement(CLUB_REQUEST_SET_STATUS, vec![SqlValue::Status(status), SqlValue::Uuid(id)]);
        assert(r@.params =~= seq![Bound::Status(status), Bound::Uuid(id)]);
        r
    }
}

/// A row holds what was stored for a new join request.
pub open spec fn request_row_stores(row: ClubRequestTable, sent: CreatableClubRequest) -> bool {
    &&& row.club_id == sent.club_id
    &&& row.student_id == sent.student_id
    &&& (sent.year is Some ==> row.year == sent.year->Some_0)
    &&& row.membership_status == sent.membership_status
}

/// A join request that is created and then read back at the default level
/// shows the club, student, year and status that were sent.
pub proof fn lemma_request_round_trip(
    sent: CreatableClubRequest,
    row: ClubRequestTable,
    read: ClubRequest,
)
    requires
        request_row_stores(row, sent),
        sent.year is Some,
        request_view_of(read, row, FetchLevel::Default),
    ensures
        read is Default,
        read->Default_0.id == row.id,
        club_id(read->Default_0.club) == sent.club_id,
        student_id(read->Default_0.student) == sent.student_id,
        Some(read->Default_0.year) == sent.year,
        read->Default_0.membership_status == sent.membership_status,
{
}

} // verus!
