//! Clubs: their enumerations, table row, filter and update inputs, the three
//! views and the façade that picks one by fetch level.

use vstd::prelude::*;

use crate::common::{
    FetchLevel, FilterConfig, FlexibleMultiLangString, MultiLangString, RequestType, SortingConfig,
    page_number, page_size, page_window, pagination_valid,
};
use crate::sql::{
    Statement, statement,
    Assignment, UpdateStatement, UpdateTarget, UpdateView, assignment_if, assignments_view,
    push_assignment, text_bound, text_value, update_of, update_statement, Bound, Column, ColumnGroup, FilterTerm, QueryView, SqlQuery, SqlValue, TermView, all_slots,
    build_select, bound_values, equals_terms, lemma_slots_fresh_and_increasing, like_terms,
    push_equals, push_like, select_query, slot_run, some_count, terms_view,
};
use crate::batch::copy_ids;
use crate::contacts::Contact;
use crate::student::Student;
use crate::text::{copy_text, text_eq};

verus! {

/// The house that a club belongs to on activity day.
#[derive(Debug, Clone, Copy, PartialEq, Eq, Structural)]
pub enum ActivityDayHouse {
    Felis,
    Cornicula,
    Sciurus,
    Cyprinus,
}

pub open spec fn house_text(h: ActivityDayHouse) -> Seq<char> {
    match h {
        ActivityDayHouse::Felis => "felis"@,
        ActivityDayHouse::Cornicula => "cornicula"@,
        ActivityDayHouse::Sciurus => "sciurus"@,
        ActivityDayHouse::Cyprinus => "cyprinus"@,
    }
}

pub open spec fn house_of_text(t: Seq<char>) -> Option<ActivityDayHouse> {
    if t == "felis"@ {
        Some(ActivityDayHouse::Felis)
    } else if t == "cornicula"@ {
        Some(ActivityDayHouse::Cornicula)
    } else if t == "sciurus"@ {
        Some(ActivityDayHouse::Sciurus)
    } else if t == "cyprinus"@ {
        Some(ActivityDayHouse::Cyprinus)
    } else {
        None
    }
}

impl ActivityDayHouse {
    pub fn to_string(&self) -> (r: String)
        ensures
            r@ == house_text(*self),
    {
        let s: &str = match self {
            ActivityDayHouse::Felis => "felis",
            ActivityDayHouse::Cornicula => "cornicula",
            ActivityDayHouse::Sciurus => "sciurus",
            ActivityDayHouse::Cyprinus => "cyprinus",
        };
        String::from_str(s)
    }

    pub fn from_string(s: &str) -> (r: Option<ActivityDayHouse>)
        ensures
            r == house_of_text(s@),
    {
        if text_eq(s, "felis") {
            Some(ActivityDayHouse::Felis)
        } else if text_eq(s, "cornicula") {
            Some(ActivityDayHouse::Cornicula)
        } else if text_eq(s, "sciurus") {
            Some(ActivityDayHouse::Sciurus)
        } else if text_eq(s, "cyprinus") {
            Some(ActivityDayHouse::Cyprinus)
        } else {
            None
        }
    }
}

/// The state of a membership or join request.
#[derive(Debug, Clone, Copy, PartialEq, Eq, Structural)]
pub enum SubmissionStatus {
    Pending,
    Approved,
    Declined,
}

pub open spec fn status_text(s: SubmissionStatus) -> Seq<char> {
    match s {
        SubmissionStatus::Pending => "pending"@,
        SubmissionStatus::Approved => "approved"@,
        SubmissionStatus::Declined => "declined"@,
    }
}

pub open spec fn status_of_text(t: Seq<char>) -> Option<SubmissionStatus> {
    if t == "pending"@ {
        Some(SubmissionStatus::Pending)
    } else if t == "approved"@ {
        Some(SubmissionStatus::Approved)
    } else if t == "declined"@ {
        Some(SubmissionStatus::Declined)
    } else {
        None
    }
}

impl SubmissionStatus {
    pub fn to_string(&self) -> (r: String)
        ensures
            r@ == status_text(*self),
    {
        let s: &str = match self {
            SubmissionStatus::Pending => "pending",
            SubmissionStatus::Approved => "approved",
            SubmissionStatus::Declined => "declined",
        };
        String::from_str(s)
    }

    pub fn from_string(s: &str) -> (r: Option<SubmissionStatus>)
        ensures
            r == status_of_text(s@),
    {
        if text_eq(s, "pending") {
            Some(SubmissionStatus::Pending)
        } else if text_eq(s, "approved") {
            Some(SubmissionStatus::Approved)
        } else if text_eq(s, "declined") {
            Some(SubmissionStatus::Declined)
        } else {
            None
        }
    }
}

/// The structured part of a club filter: each given field narrows the result.
#[derive(Debug)]
pub struct QueryableClub {
    pub id: Option<u128>,
    pub name: Option<String>,
    pub description: Option<String>,
    pub main_room: Option<String>,
    pub logo_url: Option<String>,
    pub background_color: Option<String>,
    pub accent_color: Option<String>,
    pub house: Option<ActivityDayHouse>,
    pub map_location: Option<i64>,
    pub staffs: Option<Vec<i64>>,
}

/// A key that clubs may be sorted by.
#[derive(Debug, Clone, Copy, PartialEq, Eq, Structural)]
pub enum ClubSortableField {
    Id,
    CreatedAt,
    NameTh,
    NameEn,
    DescriptionTh,
    DescriptionEn,
    MainRoom,
    LogoUrl,
    BackgroundColor,
    AccentColor,
    House,
    MapLocation,
}

pub open spec fn club_sort_column(f: ClubSortableField) -> Column {
    match f {
        ClubSortableField::Id => Column::ClubsId,
        ClubSortableField::CreatedAt => Column::ClubsCreatedAt,
        ClubSortableField::NameTh => Column::NameTh,
        ClubSortableField::NameEn => Column::NameEn,
        ClubSortableField::DescriptionTh => Column::DescriptionTh,
        ClubSortableField::DescriptionEn => Column::DescriptionEn,
        ClubSortableField::MainRoom => Column::MainRoom,
        ClubSortableField::LogoUrl => Column::LogoUrl,
        ClubSortableField::BackgroundColor => Column::BackgroundColor,
        ClubSortableField::AccentColor => Column::AccentColor,
        ClubSortableField::House => Column::House,
        ClubSortableField::MapLocation => Column::MapLocation,
    }
}

impl ClubSortableField {
    pub fn column(&self) -> (r: Column)
        ensures
            r == club_sort_column(*self),
    {
        match self {
            ClubSortableField::Id => Column::ClubsId,
            ClubSortableField::CreatedAt => Column::ClubsCreatedAt,
            ClubSortableField::NameTh => Column::NameTh,
            ClubSortableField::NameEn => Column::NameEn,
            ClubSortableField::DescriptionTh => Column::DescriptionTh,
            ClubSortableField::DescriptionEn => Column::DescriptionEn,
            ClubSortableField::MainRoom => Column::MainRoom,
            ClubSortableField::LogoUrl => Column::LogoUrl,
            ClubSortableField::BackgroundColor => Column::BackgroundColor,
            ClubSortableField::AccentColor => Column::AccentColor,
            ClubSortableField::House => Column::House,
            ClubSortableField::MapLocation => Column::MapLocation,
        }
    }
}

/// The columns of a club row, from the club and its organization.
pub const CLUB_SELECT: &'static str = "SELECT clubs.id, clubs.created_at, name_th, name_en, description_th, description_en, main_room, logo_url, background_color, accent_color, house, map_location FROM clubs INNER JOIN organizations ON clubs.organization_id = organizations.id";

/// A club as stored: the club row joined with its organization.
#[derive(Debug)]
pub struct ClubTable {
    pub id: u128,
    /// Seconds since the Unix epoch.
    pub created_at: Option<i64>,
    pub name_th: String,
    pub name_en: Option<String>,
    pub description_th: Option<String>,
    pub description_en: Option<String>,
    pub main_room: Option<String>,
    pub logo_url: Option<String>,
    pub background_color: Option<String>,
    pub accent_color: Option<String>,
    pub house: Option<ActivityDayHouse>,
    pub map_location: Option<i64>,
}

pub open spec fn staff_terms(v: Option<Vec<i64>>) -> Seq<TermView> {
    match v {
        Some(s) => seq![TermView::StaffedBy { students: s@ }],
        None => seq![],
    }
}

/// The terms of a club filter's id and text fields.
pub open spec fn club_text_terms(d: QueryableClub) -> Seq<TermView> {
    equals_terms(
        match d.id {
            Some(u) => Some(Bound::Uuid(u)),
            None => None,
        },
        Column::ClubsId,
    ) + like_terms(d.name, ColumnGroup::ClubName) + like_terms(
        d.description,
        ColumnGroup::ClubDescription,
    ) + like_terms(d.main_room, ColumnGroup::One(Column::MainRoom)) + like_terms(
        d.logo_url,
        ColumnGroup::One(Column::LogoUrl),
    ) + like_terms(d.background_color, ColumnGroup::One(Column::BackgroundColor)) + like_terms(
        d.accent_color,
        ColumnGroup::One(Column::AccentColor),
    )
}

/// The terms of a club filter's house, location and staff fields.
pub open spec fn club_value_terms(d: QueryableClub) -> Seq<TermView> {
    equals_terms(
        match d.house {
            Some(h) => Some(Bound::House(h)),
            None => None,
        },
        Column::House,
    ) + equals_terms(
        match d.map_location {
            Some(l) => Some(Bound::Int(l)),
            None => None,
        },
        Column::MapLocation,
    ) + staff_terms(d.staffs)
}

/// The terms of the structured part of a club filter, one per given field.
pub open spec fn club_data_terms(d: QueryableClub) -> Seq<TermView> {
    club_text_terms(d) + club_value_terms(d)
}

/// The number of fields that a club filter gives.
pub open spec fn club_fields_given(d: QueryableClub) -> nat {
    some_count(d.id) + some_count(d.name) + some_count(d.description) + some_count(d.main_room)
        + some_count(d.logo_url) + some_count(d.background_color) + some_count(d.accent_color)
        + some_count(d.house) + some_count(d.map_location) + some_count(d.staffs)
}

/// The terms of a club filter: the free-text search over the club's text
/// columns first, then one per given field.
pub open spec fn club_terms(f: Option<FilterConfig<QueryableClub>>) -> Seq<TermView> {
    match f {
        None => seq![],
        Some(f) => like_terms(f.q, ColumnGroup::ClubText) + match f.data {
            Some(d) => club_data_terms(d),
            None => seq![],
        },
    }
}

/// The sort columns: those asked for, or the primary key when none is.
pub open spec fn club_order(s: Option<SortingConfig<ClubSortableField>>) -> Seq<Column> {
    match s {
        Some(c) => match c.by {
            Some(v) => if v@.len() > 0 {
                v@.map_values(|f: ClubSortableField| club_sort_column(f))
            } else {
                seq![Column::ClubsId]
            },
            None => seq![Column::ClubsId],
        },
        None => seq![Column::ClubsId],
    }
}

/// The sort direction: ascending unless a sorting says otherwise.
pub open spec fn sort_ascending<T>(s: Option<SortingConfig<T>>) -> bool {
    match s {
        Some(c) => c.ascending,
        None => true,
    }
}

/// The statement that a valid club request asks for.
pub open spec fn club_query<T>(r: RequestType<T, QueryableClub, ClubSortableField>) -> QueryView {
    select_query(
        CLUB_SELECT@,
        club_terms(r.filter),
        club_order(r.sorting),
        sort_ascending(r.sorting),
        page_size(r.pagination) as i64,
        ((page_number(r.pagination) - 1) * page_size(r.pagination)) as i64,
    )
}

fn push_club_text_terms(ts: &mut Vec<FilterTerm>, d: &QueryableClub)
    ensures
        terms_view(final(ts)@) == terms_view(old(ts)@) + club_text_terms(*d),
{
    let ghost t0 = terms_view(ts@);
    push_equals(
        ts,
        match d.id {
            Some(u) => Some(SqlValue::Uuid(u)),
            None => None,
        },
        Column::ClubsId,
    );
    let ghost t1 = terms_view(ts@);
    push_like(ts, &d.name, ColumnGroup::ClubName);
    let ghost t2 = terms_view(ts@);
    push_like(ts, &d.description, ColumnGroup::ClubDescription);
    let ghost t3 = terms_view(ts@);
    push_like(ts, &d.main_room, ColumnGroup::One(Column::MainRoom));
    let ghost t4 = terms_view(ts@);
    push_like(ts, &d.logo_url, ColumnGroup::One(Column::LogoUrl));
    let ghost t5 = terms_view(ts@);
    push_like(ts, &d.background_color, ColumnGroup::One(Column::BackgroundColor));
    let ghost t6 = terms_view(ts@);
    push_like(ts, &d.accent_color, ColumnGroup::One(Column::AccentColor));
    let ghost t7 = terms_view(ts@);
    assert(t7 =~= t0 + club_text_terms(*d));
}

fn push_club_value_terms(ts: &mut Vec<FilterTerm>, d: &QueryableClub)
    ensures
        terms_view(final(ts)@) == terms_view(old(ts)@) + club_value_terms(*d),
{
    let ghost t0 = terms_view(ts@);
    push_equals(
        ts,
        match d.house {
            Some(h) => Some(SqlValue::House(h)),
            None => None,
        },
        Column::House,
    );
    push_equals(
        ts,
        match d.map_location {
            Some(l) => Some(SqlValue::Int(l)),
            None => None,
        },
        Column::MapLocation,
    );
    let ghost t2 = terms_view(ts@);
    if let Some(s) = &d.staffs {
        ts.push(FilterTerm::StaffedBy { students: copy_ids(s) });
    }
    assert(terms_view(ts@) =~= t2 + staff_terms(d.staffs));
    assert(terms_view(ts@) =~= t0 + club_value_terms(*d));
}

fn club_filter_terms(f: &Option<FilterConfig<QueryableClub>>) -> (r: Vec<FilterTerm>)
    ensures
        terms_view(r@) == club_terms(*f),
{
    let mut ts: Vec<FilterTerm> = Vec::new();
    assert(terms_view(ts@) =~= seq![]);
    if let Some(f) = f {
        push_like(&mut ts, &f.q, ColumnGroup::ClubText);
        if let Some(d) = &f.data {
            let ghost t1 = terms_view(ts@);
            push_club_text_terms(&mut ts, d);
            push_club_value_terms(&mut ts, d);
            assert(terms_view(ts@) =~= t1 + club_data_terms(*d));
        }
    }
    assert(terms_view(ts@) =~= club_terms(*f));
    ts
}

fn club_order_columns(s: &Option<SortingConfig<ClubSortableField>>) -> (r: Vec<Column>)
    ensures
        r@ == club_order(*s),
{
    let mut cols: Vec<Column> = Vec::new();
    if let Some(c) = s {
        if let Some(by) = &c.by {
            let mut i: usize = 0;
            while i < by.len()
                invariant
                    i <= by.len(),
                    cols@ == by@.subrange(0, i as int).map_values(
                        |f: ClubSortableField| club_sort_column(f),
                    ),
                decreases by.len() - i,
            {
                cols.push(by[i].column());
                assert(by@.subrange(0, i + 1) == by@.subrange(0, i as int).push(by@[i as int]));
                assert(cols@ =~= by@.subrange(0, i + 1).map_values(
                    |f: ClubSortableField| club_sort_column(f),
                ));
                i = i + 1;
            }
            assert(by@.subrange(0, i as int) == by@);
        }
    }
    if cols.len() == 0 {
        cols.push(Column::ClubsId);
    }
    assert(cols@ =~= club_order(*s));
    cols
}

impl ClubTable {
    /// The statement that lists clubs for a request: filter, order and page.
    /// `None` when the request's pagination is not valid.
    pub fn construct_query_string<T>(
        request: &RequestType<T, QueryableClub, ClubSortableField>,
    ) -> (r: Option<SqlQuery>)
        ensures
            r.is_some() == pagination_valid(request.pagination),
            r.is_some() ==> r.unwrap()@ == club_query(*request),
    {
        let (limit, offset) = match page_window(&request.pagination) {
            Some(w) => w,
            None => return None,
        };
        let terms = club_filter_terms(&request.filter);
        let order = club_order_columns(&request.sorting);
        let ascending = match &request.sorting {
            Some(c) => c.ascending,
            None => true,
        };
        Some(build_select(CLUB_SELECT, &terms, order, ascending, limit, offset))
    }
}

proof fn lemma_club_term_count(f: Option<FilterConfig<QueryableClub>>)
    ensures
        club_terms(f).len() == match f {
            Some(f) => some_count(f.q) + match f.data {
                Some(d) => club_fields_given(d),
                None => 0,
            },
            None => 0,
        },
{
    if let Some(f) = f {
        assert(like_terms(f.q, ColumnGroup::ClubText).len() == some_count(f.q));
        if let Some(d) = f.data {
            assert(club_text_terms(d).len() == some_count(d.id) + some_count(d.name) + some_count(
                d.description,
            ) + some_count(d.main_room) + some_count(d.logo_url) + some_count(d.background_color)
                + some_count(d.accent_color));
            assert(club_value_terms(d).len() == some_count(d.house) + some_count(d.map_location)
                + some_count(d.staffs));
        }
    }
}

/// A club filter that gives exactly the fields of a set S yields exactly |S|
/// predicates, one more when a free-text query is given too; their
/// placeholders are fresh and increasing, `1` to `n` for the `n` values
/// bound, and `LIMIT` and `OFFSET` take `n + 1` and `n + 2`.
pub proof fn lemma_club_filter_composes<T>(r: RequestType<T, QueryableClub, ClubSortableField>)
    ensures
        ({
            let q = club_query(r);
            let n = bound_values(club_terms(r.filter)).len();
            &&& q.predicates.len() == match r.filter {
                Some(f) => some_count(f.q) + match f.data {
                    Some(d) => club_fields_given(d),
                    None => 0,
                },
                None => 0,
            }
            &&& all_slots(q.predicates) == slot_run(1, n)
            &&& q.limit_slot == n + 1
            &&& q.offset_slot == n + 2
        }),
{
    lemma_slots_fresh_and_increasing(club_terms(r.filter));
    lemma_club_term_count(r.filter);
}

/// The stored fields of a club that an update may set; a field left `None`
/// keeps its value.
#[derive(Debug)]
pub struct UpdatableClubTable {
    pub name_th: Option<String>,
    pub name_en: Option<String>,
    pub description_th: Option<String>,
    pub description_en: Option<String>,
    pub main_room: Option<String>,
    pub logo_url: Option<String>,
    pub background_color: Option<String>,
    pub accent_color: Option<String>,
    pub house: Option<ActivityDayHouse>,
    pub map_location: Option<i64>,
}

/// A club update as a client sends it.
#[derive(Debug)]
pub struct UpdatableClub {
    pub name: Option<MultiLangString>,
    pub description: Option<FlexibleMultiLangString>,
    pub main_room: Option<String>,
    pub logo_url: Option<String>,
    pub background_color: Option<String>,
    pub accent_color: Option<String>,
    pub house: Option<ActivityDayHouse>,
    pub map_location: Option<i64>,
}

/// The assignments to the club row: colours, house and location.
pub open spec fn club_assignments(u: UpdatableClubTable) -> Seq<(Column, Bound)> {
    assignment_if(text_bound(u.background_color), Column::BackgroundColor) + assignment_if(
        text_bound(u.accent_color),
        Column::AccentColor,
    ) + assignment_if(
        match u.house {
            Some(h) => Some(Bound::House(h)),
            None => None,
        },
        Column::House,
    ) + assignment_if(
        match u.map_location {
            Some(l) => Some(Bound::Int(l)),
            None => None,
        },
        Column::MapLocation,
    )
}

/// The assignments to the club's organization row: names, descriptions,
/// room and logo.
pub open spec fn organization_assignments(u: UpdatableClubTable) -> Seq<(Column, Bound)> {
    assignment_if(text_bound(u.name_th), Column::NameTh) + assignment_if(
        text_bound(u.name_en),
        Column::NameEn,
    ) + assignment_if(text_bound(u.description_th), Column::DescriptionTh) + assignment_if(
        text_bound(u.description_en),
        Column::DescriptionEn,
    ) + assignment_if(text_bound(u.main_room), Column::MainRoom) + assignment_if(
        text_bound(u.logo_url),
        Column::LogoUrl,
    )
}

/// The statements of a club update, to run in one transaction: one per
/// table that has a field to set, none when no field is given.
pub open spec fn club_update_plan(u: UpdatableClubTable, id: u128) -> Seq<UpdateView> {
    (if club_assignments(u).len() > 0 {
        seq![update_of(UpdateTarget::Clubs, club_assignments(u), id)]
    } else {
        seq![]
    }) + (if organization_assignments(u).len() > 0 {
        seq![update_of(UpdateTarget::ClubOrganization, organization_assignments(u), id)]
    } else {
        seq![]
    })
}

pub open spec fn update_views(s: Seq<UpdateStatement>) -> Seq<UpdateView> {
    s.map_values(|u: UpdateStatement| u@)
}

/// An update that gives no field.
pub open spec fn club_update_is_empty(u: UpdatableClubTable) -> bool {
    &&& u.name_th is None
    &&& u.name_en is None
    &&& u.description_th is None
    &&& u.description_en is None
    &&& u.main_room is None
    &&& u.logo_url is None
    &&& u.background_color is None
    &&& u.accent_color is None
    &&& u.house is None
    &&& u.map_location is None
}

fn club_row_assignments(u: &UpdatableClubTable) -> (r: Vec<Assignment>)
    ensures
        assignments_view(r@) == club_assignments(*u),
{
    let mut a: Vec<Assignment> = Vec::new();
    assert(assignments_view(a@) =~= seq![]);
    push_assignment(&mut a, text_value(&u.background_color), Column::BackgroundColor);
    push_assignment(&mut a, text_value(&u.accent_color), Column::AccentColor);
    push_assignment(
        &mut a,
        match u.house {
            Some(h) => Some(SqlValue::House(h)),
            None => None,
        },
        Column::House,
    );
    push_assignment(
        &mut a,
        match u.map_location {
            Some(l) => Some(SqlValue::Int(l)),
            None => None,
        },
        Column::MapLocation,
    );
    assert(assignments_view(a@) =~= club_assignments(*u));
    a
}

fn organization_row_assignments(u: &UpdatableClubTable) -> (r: Vec<Assignment>)
    ensures
        assignments_view(r@) == organization_assignments(*u),
{
    let mut a: Vec<Assignment> = Vec::new();
    assert(assignments_view(a@) =~= seq![]);
    push_assignment(&mut a, text_value(&u.name_th), Column::NameTh);
    push_assignment(&mut a, text_value(&u.name_en), Column::NameEn);
    push_assignment(&mut a, text_value(&u.description_th), Column::DescriptionTh);
    push_assignment(&mut a, text_value(&u.description_en), Column::DescriptionEn);
    push_assignment(&mut a, text_value(&u.main_room), Column::MainRoom);
    push_assignment(&mut a, text_value(&u.logo_url), Column::LogoUrl);
    assert(assignments_view(a@) =~= organization_assignments(*u));
    a
}

impl ClubTable {
    /// The statements that apply a partial update to the club with id `id`:
    /// only the given fields are set, and a table with no field to set is
    /// not written. The caller runs them in one transaction and reads the
    /// club again.
    pub fn update_by_id(id: u128, club: &UpdatableClubTable) -> (r: Vec<UpdateStatement>)
        ensures
            update_views(r@) == club_update_plan(*club, id),
    {
        let mut r: Vec<UpdateStatement> = Vec::new();
        let a = club_row_assignments(club);
        if a.len() > 0 {
            r.push(update_statement(UpdateTarget::Clubs, a, id));
        }
        let o = organization_row_assignments(club);
        if o.len() > 0 {
            r.push(update_statement(UpdateTarget::ClubOrganization, o, id));
        }
        assert(update_views(r@) =~= club_update_plan(*club, id));
        r
    }
}

/// The stored fields that a client's club update sets.
pub open spec fn club_update_fields(u: UpdatableClub) -> UpdatableClubTable {
    UpdatableClubTable {
        name_th: match u.name {
            Some(n) => Some(n.th),
            None => None,
        },
        name_en: match u.name {
            Some(n) => n.en,
            None => None,
        },
        description_th: match u.description {
            Some(d) => d.th,
            None => None,
        },
        description_en: match u.description {
            Some(d) => d.en,
            None => None,
        },
        main_room: u.main_room,
        logo_url: u.logo_url,
        background_color: u.background_color,
        accent_color: u.accent_color,
        house: u.house,
        map_location: u.map_location,
    }
}

impl UpdatableClub {
    /// The stored fields that this update sets.
    pub fn to_table(&self) -> (r: UpdatableClubTable)
        ensures
            r == club_update_fields(*self),
    {
        UpdatableClubTable {
            name_th: match &self.name {
                Some(n) => Some(n.th.clone()),
                None => None,
            },
            name_en: match &self.name {
                Some(n) => copy_text(&n.en),
                None => None,
            },
            description_th: match &self.description {
                Some(d) => copy_text(&d.th),
                None => None,
            },
            description_en: match &self.description {
                Some(d) => copy_text(&d.en),
                None => None,
            },
            main_room: copy_text(&self.main_room),
            logo_url: copy_text(&self.logo_url),
            background_color: copy_text(&self.background_color),
            accent_color: copy_text(&self.accent_color),
            house: self.house,
            map_location: self.map_location,
        }
    }
}

/// An update that gives no field writes nothing: its plan holds no
/// statement, so every stored row keeps its value, and the club read back
/// afterwards is the club as it was.
pub proof fn lemma_empty_update_writes_nothing(u: UpdatableClub, id: u128)
    requires
        u.name is None,
        u.description is None,
        u.main_room is None,
        u.logo_url is None,
        u.background_color is None,
        u.accent_color is None,
        u.house is None,
        u.map_location is None,
    ensures
        club_update_is_empty(club_update_fields(u)),
        club_update_plan(club_update_fields(u), id).len() == 0,
{
    let t = club_update_fields(u);
    assert(club_assignments(t) =~= seq![]);
    assert(organization_assignments(t) =~= seq![]);
}

/// A page is `LIMIT` rows from `OFFSET` on: the size asked for, 50 when
/// none is, from `(page - 1) * size`; with no pagination at all, the first
/// 50 rows.
pub proof fn lemma_club_pagination<T>(r: RequestType<T, QueryableClub, ClubSortableField>)
    requires
        pagination_valid(r.pagination),
    ensures
        ({
            let q = club_query(r);
            let n = bound_values(club_terms(r.filter)).len();
            &&& q.params.len() == n + 2
            &&& q.params[n as int] == Bound::Int(page_size(r.pagination) as i64)
            &&& q.params[n as int + 1] == Bound::Int(
                ((page_number(r.pagination) - 1) * page_size(r.pagination)) as i64,
            )
            &&& r.pagination is None ==> q.params[n as int] == Bound::Int(50) && q.params[n as int + 1]
                == Bound::Int(0)
        }),
{
    let q = club_query(r);
    let b = bound_values(club_terms(r.filter));
    let size = page_size(r.pagination) as i64;
    let offset = ((page_number(r.pagination) - 1) * page_size(r.pagination)) as i64;
    assert(q.params == b + seq![Bound::Int(size), Bound::Int(offset)]);
    assert(q.params[b.len() as int] == Bound::Int(size));
    assert(q.params[b.len() as int + 1] == Bound::Int(offset));
    assert(q.params.len() == b.len() + 2);
    if r.pagination is None {
        assert(page_size(r.pagination) == 50);
        assert(page_number(r.pagination) == 1);
        assert(q.params[b.len() as int] == Bound::Int(50));
        assert((page_number(r.pagination) - 1) * page_size(r.pagination) == 0 * 50);
        assert(offset == 0);
        assert(q.params[b.len() as int + 1] == Bound::Int(0));
    }
}

/// A club's id alone.
#[derive(Debug)]
pub struct IdOnlyClub {
    pub id: u128,
}

/// A club's scalar display fields.
#[derive(Debug)]
pub struct CompactClub {
    pub id: u128,
    pub name: MultiLangString,
    pub description: Option<MultiLangString>,
    pub logo_url: Option<String>,
    pub house: Option<ActivityDayHouse>,
    pub map_location: Option<i64>,
    pub background_color: Option<String>,
}

/// A club with its staff, members and contacts.
#[derive(Debug)]
pub struct DefaultClub {
    pub id: u128,
    pub name: MultiLangString,
    pub description: Option<MultiLangString>,
    pub logo_url: Option<String>,
    pub staffs: Vec<Student>,
    pub members: Vec<Student>,
    pub background_color: Option<String>,
    pub accent_color: Option<String>,
    pub contacts: Vec<Contact>,
    pub main_room: Option<String>,
    pub house: Option<ActivityDayHouse>,
    pub map_location: Option<i64>,
}

/// A club at one of the three fetch levels.
#[derive(Debug)]
pub enum Club {
    Default(DefaultClub),
    Compact(CompactClub),
    IdOnly(IdOnlyClub),
}

/// The related collections of a `Default` club view, as loaded: this year's
/// approved members and staff, and the club's contacts.
#[derive(Debug)]
pub struct ClubRelations {
    pub members: Vec<Student>,
    pub staffs: Vec<Student>,
    pub contacts: Vec<Contact>,
}

/// A description is shown only when both its forms are stored.
pub open spec fn description_of(v: Option<MultiLangString>, row: ClubTable) -> bool {
    match (row.description_th, row.description_en) {
        (Some(th), Some(en)) => v is Some && v->Some_0.th == th && v->Some_0.en == Some(en),
        _ => v is None,
    }
}

pub open spec fn compact_club_of(v: CompactClub, row: ClubTable) -> bool {
    &&& v.id == row.id
    &&& v.name.th == row.name_th
    &&& v.name.en == row.name_en
    &&& description_of(v.description, row)
    &&& v.logo_url == row.logo_url
    &&& v.house == row.house
    &&& v.map_location == row.map_location
    &&& v.background_color == row.background_color
}

pub open spec fn default_club_of(v: DefaultClub, row: ClubTable, rel: ClubRelations) -> bool {
    &&& v.id == row.id
    &&& v.name.th == row.name_th
    &&& v.name.en == row.name_en
    &&& description_of(v.description, row)
    &&& v.logo_url == row.logo_url
    &&& v.house == row.house
    &&& v.map_location == row.map_location
    &&& v.background_color == row.background_color
    &&& v.accent_color == row.accent_color
    &&& v.main_room == row.main_room
    &&& v.members@ == rel.members@
    &&& v.staffs@ == rel.staffs@
    &&& v.contacts@ == rel.contacts@
}

/// `v` is the view of `row` at `level`, with the given relations.
pub open spec fn club_view_of(v: Club, row: ClubTable, level: FetchLevel, rel: ClubRelations) -> bool {
    match level {
        FetchLevel::IdOnly => match v {
            Club::IdOnly(c) => c.id == row.id,
            _ => false,
        },
        FetchLevel::Compact => match v {
            Club::Compact(c) => compact_club_of(c, row),
            _ => false,
        },
        FetchLevel::Default => match v {
            Club::Default(c) => default_club_of(c, row, rel),
            _ => false,
        },
    }
}

pub open spec fn club_id(c: Club) -> u128 {
    match c {
        Club::Default(x) => x.id,
        Club::Compact(x) => x.id,
        Club::IdOnly(x) => x.id,
    }
}

fn description_from(row: &ClubTable) -> (r: Option<MultiLangString>)
    ensures
        description_of(r, *row),
{
    match (&row.description_th, &row.description_en) {
        (Some(th), Some(en)) => Some(MultiLangString { th: th.clone(), en: Some(en.clone()) }),
        _ => None,
    }
}

impl IdOnlyClub {
    pub fn from_table(club: &ClubTable) -> (r: Self)
        ensures
            r.id == club.id,
    {
        IdOnlyClub { id: club.id }
    }
}

impl CompactClub {
    pub fn from_table(club: &ClubTable) -> (r: Self)
        ensures
            compact_club_of(r, *club),
    {
        CompactClub {
            id: club.id,
            name: MultiLangString { th: club.name_th.clone(), en: copy_text(&club.name_en) },
            description: description_from(club),
            logo_url: copy_text(&club.logo_url),
            house: club.house,
            map_location: club.map_location,
            background_color: copy_text(&club.background_color),
        }
    }
}

impl DefaultClub {
    pub fn from_table(club: &ClubTable, relations: ClubRelations) -> (r: Self)
        ensures
            default_club_of(r, *club, relations),
    {
        DefaultClub {
            id: club.id,
            name: MultiLangString { th: club.name_th.clone(), en: copy_text(&club.name_en) },
            description: description_from(club),
            logo_url: copy_text(&club.logo_url),
            staffs: relations.staffs,
            members: relations.members,
            background_color: copy_text(&club.background_color),
            accent_color: copy_text(&club.accent_color),
            contacts: relations.contacts,
            main_room: copy_text(&club.main_room),
            house: club.house,
            map_location: club.map_location,
        }
    }
}

impl Club {
    /// The view of a club row at `fetch_level`; the relations are read only
    /// at `Default`.
    pub fn from_table(club: &ClubTable, fetch_level: FetchLevel, relations: ClubRelations) -> (r:
        Club)
        ensures
            club_view_of(r, *club, fetch_level, relations),
            club_id(r) == club.id,
    {
        match fetch_level {
            FetchLevel::IdOnly => Club::IdOnly(IdOnlyClub::from_table(club)),
            FetchLevel::Compact => Club::Compact(CompactClub::from_table(club)),
            FetchLevel::Default => Club::Default(DefaultClub::from_table(club, relations)),
        }
    }

    /// The club's id, whatever its view.
    pub fn id(&self) -> (r: u128)
        ensures
            r == club_id(*self),
    {
        match self {
            Club::Default(c) => c.id,
            Club::Compact(c) => c.id,
            Club::IdOnly(c) => c.id,
        }
    }
}


/// The statement that loads a club's row by id.
pub const CLUB_BY_ID: &'static str = "SELECT clubs.id, clubs.created_at, name_th, name_en, description_th, description_en, main_room, logo_url, background_color, accent_color, house, map_location FROM clubs INNER JOIN organizations ON clubs.organization_id = organizations.id WHERE clubs.id = $1";

/// The ids of a club's approved members in an academic year.
pub const CLUB_MEMBERS: &'static str = "SELECT student_id FROM club_members WHERE club_id = $1 AND year = $2 AND membership_status = 'approved'";

/// The ids of a club's staff in an academic year.
pub const CLUB_STAFFS: &'static str = "SELECT student_id FROM club_staffs WHERE club_id = $1 AND year = $2";

/// The ids of a club's contacts.
pub const CLUB_CONTACTS: &'static str = "SELECT contact_id FROM club_contacts WHERE club_id = $1";

/// Attaches a contact to a club.
pub const CLUB_CONTACT_LINK: &'static str = "INSERT INTO club_contacts (club_id, contact_id) VALUES ($1, $2)";

/// The academic year that a relation of a club is read for: the one asked
/// for, or the current one.
fn year_or_current(year: Option<i64>) -> (r: i64)
    ensures
        year is Some ==> r == year->Some_0,
{
    match year {
        Some(y) => y,
        None => crate::date::get_current_academic_year(),
    }
}

impl ClubTable {
    /// Loads the club with id `id`.
    pub fn get_by_id(id: u128) -> (r: Statement)
        ensures
            r@.sql == CLUB_BY_ID@,
            r@.params == seq![Bound::Uuid(id)],
    {
        let r = statement(CLUB_BY_ID, vec![SqlValue::Uuid(id)]);
        assert(r@.params =~= seq![Bound::Uuid(id)]);
        r
    }

    /// Lists the approved members of a club in an academic year, the
    /// current one when none is given.
    pub fn get_members(id: u128, year: Option<i64>) -> (r: Statement)
        ensures
            r@.sql == CLUB_MEMBERS@,
            r@.params.len() == 2,
            r@.params[0] == Bound::Uuid(id),
            r@.params[1] is Int,
            year is Some ==> r@.params[1] == Bound::Int(year->Some_0),
    {
        let y = year_or_current(year);
        let r = statement(CLUB_MEMBERS, vec![SqlValue::Uuid(id), SqlValue::Int(y)]);
        assert(r@.params =~= seq![Bound::Uuid(id), Bound::Int(y)]);
        r
    }

    /// Lists the staff of a club in an academic year, the current one when
    /// none is given.
    pub fn get_staffs(id: u128, year: Option<i64>) -> (r: Statement)
        ensures
            r@.sql == CLUB_STAFFS@,
            r@.params.len() == 2,
            r@.params[0] == Bound::Uuid(id),
            r@.params[1] is Int,
            year is Some ==> r@.params[1] == Bound::Int(year->Some_0),
    {
        let y = year_or_current(year);
        let r = statement(CLUB_STAFFS, vec![SqlValue::Uuid(id), SqlValue::Int(y)]);
        assert(r@.params =~= seq![Bound::Uuid(id), Bound::Int(y)]);
        r
    }

    /// Lists the contacts of a club.
    pub fn get_contacts(id: u128) -> (r: Statement)
        ensures
            r@.sql == CLUB_CONTACTS@,
            r@.params == seq![Bound::Uuid(id)],
    {
        let r = statement(CLUB_CONTACTS, vec![SqlValue::Uuid(id)]);
        assert(r@.params =~= seq![Bound::Uuid(id)]);
        r
    }

    /// Attaches the contact with id `contact` to the club with id `id`.
    pub fn link_contact(id: u128, contact: i64) -> (r: Statement)
        ensures
            r@.sql == CLUB_CONTACT_LINK@,
            r@.params == seq![Bound::Uuid(id), Bound::Int(contact)],
    {
        let r = statement(CLUB_CONTACT_LINK, vec![SqlValue::Uuid(id), SqlValue::Int(contact)]);
        assert(r@.params =~= seq![Bound::Uuid(id), Bound::Int(contact)]);
        r
    }
}

} // verus!
