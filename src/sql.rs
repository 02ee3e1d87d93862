//! Parameterised SQL: filter terms, the predicates they become once each
//! bound value has its own placeholder, and the SELECT statement text.
//!
//! Placeholders are numbered from 1 in the order in which values are bound,
//! and every bound value gets a fresh one; `LIMIT` and `OFFSET` always take
//! the last two.

use vstd::prelude::*;

use crate::clubs::{ActivityDayHouse, SubmissionStatus};
use crate::batch::copy_ids;
use crate::text::{decimal, push_decimal};

verus! {

/// A column that a filter or a sort key may name.
#[derive(Debug, Clone, Copy, PartialEq, Eq, Structural)]
pub enum Column {
    ClubsId,
    ClubsCreatedAt,
    NameTh,
    NameEn,
    DescriptionTh,
    DescriptionEn,
    MainRoom,
    LogoUrl,
    BackgroundColor,
    AccentColor,
    House,
    MapLocation,
    Id,
    ClubId,
    StudentId,
    Year,
    MembershipStatus,
    CreatedAt,
}

pub open spec fn column_name(c: Column) -> Seq<char> {
    match c {
        Column::ClubsId => "clubs.id"@,
        Column::ClubsCreatedAt => "clubs.created_at"@,
        Column::NameTh => "name_th"@,
        Column::NameEn => "name_en"@,
        Column::DescriptionTh => "description_th"@,
        Column::DescriptionEn => "description_en"@,
        Column::MainRoom => "main_room"@,
        Column::LogoUrl => "logo_url"@,
        Column::BackgroundColor => "background_color"@,
        Column::AccentColor => "accent_color"@,
        Column::House => "house"@,
        Column::MapLocation => "map_location"@,
        Column::Id => "id"@,
        Column::ClubId => "club_id"@,
        Column::StudentId => "student_id"@,
        Column::Year => "year"@,
        Column::MembershipStatus => "membership_status"@,
        Column::CreatedAt => "created_at"@,
    }
}

impl Column {
    pub fn name(&self) -> (r: &'static str)
        ensures
            r@ == column_name(*self),
    {
        match self {
            Column::ClubsId => "clubs.id",
            Column::ClubsCreatedAt => "clubs.created_at",
            Column::NameTh => "name_th",
            Column::NameEn => "name_en",
            Column::DescriptionTh => "description_th",
            Column::DescriptionEn => "description_en",
            Column::MainRoom => "main_room",
            Column::LogoUrl => "logo_url",
            Column::BackgroundColor => "background_color",
            Column::AccentColor => "accent_color",
            Column::House => "house",
            Column::MapLocation => "map_location",
            Column::Id => "id",
            Column::ClubId => "club_id",
            Column::StudentId => "student_id",
            Column::Year => "year",
            Column::MembershipStatus => "membership_status",
            Column::CreatedAt => "created_at",
        }
    }
}

/// The text columns that one case-insensitive match searches together.
#[derive(Debug, Clone, Copy, PartialEq, Eq, Structural)]
pub enum ColumnGroup {
    One(Column),
    ClubText,
    ClubName,
    ClubDescription,
}

pub open spec fn group_columns(g: ColumnGroup) -> Seq<Column> {
    match g {
        ColumnGroup::One(c) => seq![c],
        ColumnGroup::ClubText => seq![
            Column::NameTh,
            Column::NameEn,
            Column::DescriptionTh,
            Column::DescriptionEn,
            Column::MainRoom,
        ],
        ColumnGroup::ClubName => seq![Column::NameTh, Column::NameEn],
        ColumnGroup::ClubDescription => seq![Column::DescriptionTh, Column::DescriptionEn],
    }
}

impl ColumnGroup {
    pub fn columns(&self) -> (r: Vec<Column>)
        ensures
            r@ == group_columns(*self),
    {
        match self {
            ColumnGroup::One(c) => vec![*c],
            ColumnGroup::ClubText => vec![
                Column::NameTh,
                Column::NameEn,
                Column::DescriptionTh,
                Column::DescriptionEn,
                Column::MainRoom,
            ],
            ColumnGroup::ClubName => vec![Column::NameTh, Column::NameEn],
            ColumnGroup::ClubDescription => vec![Column::DescriptionTh, Column::DescriptionEn],
        }
    }
}

/// A value bound to a placeholder.
#[derive(Debug)]
pub enum SqlValue {
    Text(String),
    Int(i64),
    Uuid(u128),
    House(ActivityDayHouse),
    Status(SubmissionStatus),
    /// An array of integers, for `= ANY($n)`.
    IntList(Vec<i64>),
}

/// What a bound value holds.
pub enum Bound {
    Text(Seq<char>),
    Int(i64),
    Uuid(u128),
    House(ActivityDayHouse),
    Status(SubmissionStatus),
    IntList(Seq<i64>),
}

impl View for SqlValue {
    type V = Bound;

    open spec fn view(&self) -> Bound {
        match self {
            SqlValue::Text(s) => Bound::Text(s@),
            SqlValue::Int(i) => Bound::Int(*i),
            SqlValue::Uuid(u) => Bound::Uuid(*u),
            SqlValue::House(h) => Bound::House(*h),
            SqlValue::Status(s) => Bound::Status(*s),
            SqlValue::IntList(v) => Bound::IntList(v@),
        }
    }
}

impl SqlValue {
    pub fn duplicate(&self) -> (r: SqlValue)
        ensures
            r@ == self@,
    {
        match self {
            SqlValue::Text(s) => SqlValue::Text(s.clone()),
            SqlValue::Int(i) => SqlValue::Int(*i),
            SqlValue::Uuid(u) => SqlValue::Uuid(*u),
            SqlValue::House(h) => SqlValue::House(*h),
            SqlValue::Status(s) => SqlValue::Status(*s),
            SqlValue::IntList(v) => SqlValue::IntList(copy_ids(v)),
        }
    }
}

pub open spec fn bounds_of(vs: Seq<SqlValue>) -> Seq<Bound> {
    vs.map_values(|v: SqlValue| v@)
}

/// The pattern that finds `s` anywhere in a text: `%s%`.
pub open spec fn containing(s: Seq<char>) -> Seq<char> {
    "%"@ + s + "%"@
}

/// Wraps `s` in the wildcards of a substring match.
pub fn containing_pattern(s: &str) -> (r: String)
    ensures
        r@ == containing(s@),
{
    let mut r = String::from_str("%");
    r.append(s);
    r.append("%");
    r
}

/// The staff club subquery, whose student list follows.
pub open spec fn staff_subquery() -> Seq<char> {
    "clubs.id IN (SELECT club_id FROM club_staffs WHERE student_id IN ("@
}

/// One condition of a filter, with the values it binds.
#[derive(Debug)]
pub enum FilterTerm {
    /// Some column of the group contains the pattern, case-insensitively.
    Like { group: ColumnGroup, pattern: String },
    /// The column equals the value.
    Equals { column: Column, value: SqlValue },
    /// The club has one of these students on its staff.
    StaffedBy { students: Vec<i64> },
}

pub enum TermView {
    Like { group: ColumnGroup, pattern: Seq<char> },
    Equals { column: Column, value: Bound },
    StaffedBy { students: Seq<i64> },
}

impl View for FilterTerm {
    type V = TermView;

    open spec fn view(&self) -> TermView {
        match self {
            FilterTerm::Like { group, pattern } => TermView::Like { group: *group, pattern: pattern@ },
            FilterTerm::Equals { column, value } => TermView::Equals { column: *column, value: value@ },
            FilterTerm::StaffedBy { students } => TermView::StaffedBy { students: students@ },
        }
    }
}

pub open spec fn terms_view(ts: Seq<FilterTerm>) -> Seq<TermView> {
    ts.map_values(|t: FilterTerm| t@)
}

/// The values that a term binds, in order.
pub open spec fn term_values(t: TermView) -> Seq<Bound> {
    match t {
        TermView::Like { pattern, .. } => seq![Bound::Text(pattern)],
        TermView::Equals { value, .. } => seq![value],
        TermView::StaffedBy { students } => students.map_values(|s: i64| Bound::Int(s)),
    }
}

/// The values that a list of terms binds, in order.
pub open spec fn bound_values(ts: Seq<TermView>) -> Seq<Bound>
    decreases ts.len(),
{
    if ts.len() == 0 {
        seq![]
    } else {
        bound_values(ts.drop_last()) + term_values(ts.last())
    }
}

/// A condition of a WHERE clause, with the placeholders it reads.
#[derive(Debug)]
pub enum Predicate {
    Like { group: ColumnGroup, slot: usize },
    Equals { column: Column, slot: usize },
    StaffedBy { slots: Vec<usize> },
}

pub enum PredicateView {
    Like { group: ColumnGroup, slot: nat },
    Equals { column: Column, slot: nat },
    StaffedBy { slots: Seq<nat> },
}

impl View for Predicate {
    type V = PredicateView;

    open spec fn view(&self) -> PredicateView {
        match self {
            Predicate::Like { group, slot } => PredicateView::Like { group: *group, slot: *slot as nat },
            Predicate::Equals { column, slot } => PredicateView::Equals {
                column: *column,
                slot: *slot as nat,
            },
            Predicate::StaffedBy { slots } => PredicateView::StaffedBy {
                slots: slots@.map_values(|s: usize| s as nat),
            },
        }
    }
}

pub open spec fn predicates_view(ps: Seq<Predicate>) -> Seq<PredicateView> {
    ps.map_values(|p: Predicate| p@)
}

/// The placeholders `first, first + 1, ...`, `n` of them.
pub open spec fn slot_run(first: nat, n: nat) -> Seq<nat> {
    Seq::new(n, |i: int| (first + i) as nat)
}

/// The predicate of a term whose values take placeholders from `first` on.
pub open spec fn predicate_of(t: TermView, first: nat) -> PredicateView {
    match t {
        TermView::Like { group, .. } => PredicateView::Like { group, slot: first },
        TermView::Equals { column, .. } => PredicateView::Equals { column, slot: first },
        TermView::StaffedBy { students } => PredicateView::StaffedBy {
            slots: slot_run(first, students.len()),
        },
    }
}

/// The predicates of a list of terms, numbered in binding order from 1.
pub open spec fn assigned_predicates(ts: Seq<TermView>) -> Seq<PredicateView>
    decreases ts.len(),
{
    if ts.len() == 0 {
        seq![]
    } else {
        assigned_predicates(ts.drop_last()).push(
            predicate_of(ts.last(), bound_values(ts.drop_last()).len() + 1),
        )
    }
}

/// The placeholders that a predicate reads, in order.
pub open spec fn predicate_slots(p: PredicateView) -> Seq<nat> {
    match p {
        PredicateView::Like { slot, .. } => seq![slot],
        PredicateView::Equals { slot, .. } => seq![slot],
        PredicateView::StaffedBy { slots } => slots,
    }
}

/// The placeholders that a list of predicates reads, in order.
pub open spec fn all_slots(ps: Seq<PredicateView>) -> Seq<nat>
    decreases ps.len(),
{
    if ps.len() == 0 {
        seq![]
    } else {
        all_slots(ps.drop_last()) + predicate_slots(ps.last())
    }
}

/// A SELECT statement with its filter, order and page, and the values bound
/// to its placeholders.
#[derive(Debug)]
pub struct SqlQuery {
    pub base: String,
    pub predicates: Vec<Predicate>,
    pub order_by: Vec<Column>,
    pub ascending: bool,
    pub limit_slot: usize,
    pub offset_slot: usize,
    pub params: Vec<SqlValue>,
}

pub struct QueryView {
    pub base: Seq<char>,
    pub predicates: Seq<PredicateView>,
    pub order_by: Seq<Column>,
    pub ascending: bool,
    pub limit_slot: nat,
    pub offset_slot: nat,
    pub params: Seq<Bound>,
}

impl View for SqlQuery {
    type V = QueryView;

    open spec fn view(&self) -> QueryView {
        QueryView {
            base: self.base@,
            predicates: predicates_view(self.predicates@),
            order_by: self.order_by@,
            ascending: self.ascending,
            limit_slot: self.limit_slot as nat,
            offset_slot: self.offset_slot as nat,
            params: bounds_of(self.params@),
        }
    }
}

/// The statement that selects from `base` the rows that meet every term, in
/// the given order, `limit` rows from `offset` on.
pub open spec fn select_query(
    base: Seq<char>,
    ts: Seq<TermView>,
    order_by: Seq<Column>,
    ascending: bool,
    limit: i64,
    offset: i64,
) -> QueryView {
    let n = bound_values(ts).len();
    QueryView {
        base,
        predicates: assigned_predicates(ts),
        order_by,
        ascending,
        limit_slot: n + 1,
        offset_slot: n + 2,
        params: bound_values(ts) + seq![Bound::Int(limit), Bound::Int(offset)],
    }
}

/// Builds a SELECT from its terms: each term becomes one predicate, and each
/// value it binds takes the next placeholder.
pub fn build_select(
    base: &str,
    terms: &Vec<FilterTerm>,
    order_by: Vec<Column>,
    ascending: bool,
    limit: i64,
    offset: i64,
) -> (r: SqlQuery)
    ensures
        r@ == select_query(base@, terms_view(terms@), order_by@, ascending, limit, offset),
{
    let ghost ts = terms_view(terms@);
    let mut predicates: Vec<Predicate> = Vec::new();
    let mut params: Vec<SqlValue> = Vec::new();
    let mut i: usize = 0;
    while i < terms.len()
        invariant
            i <= terms.len(),
            ts == terms_view(terms@),
            predicates_view(predicates@) == assigned_predicates(ts.subrange(0, i as int)),
            bounds_of(params@) == bound_values(ts.subrange(0, i as int)),
        decreases terms.len() - i,
    {
        let ghost pre = ts.subrange(0, i as int);
        let ghost next = ts.subrange(0, i + 1);
        assert(next.drop_last() == pre);
        assert(next.last() == terms@[i as int]@);
        match &terms[i] {
            FilterTerm::Like { group, pattern } => {
                params.push(SqlValue::Text(pattern.clone()));
                predicates.push(Predicate::Like { group: *group, slot: params.len() });
            },
            FilterTerm::Equals { column, value } => {
                params.push(value.duplicate());
                predicates.push(Predicate::Equals { column: *column, slot: params.len() });
            },
            FilterTerm::StaffedBy { students } => {
                let ghost start = params.len();
                let mut slots: Vec<usize> = Vec::new();
                let mut j: usize = 0;
                while j < students.len()
                    invariant
                        j <= students.len(),
                        params.len() == start + j,
                        bounds_of(params@) == bound_values(pre) + students@.subrange(
                            0,
                            j as int,
                        ).map_values(|s: i64| Bound::Int(s)),
                        slots@.map_values(|s: usize| s as nat) == slot_run(
                            (start + 1) as nat,
                            j as nat,
                        ),
                    decreases students.len() - j,
                {
                    let ghost old_params = params@;
                    let ghost old_slots = slots@;
                    params.push(SqlValue::Int(students[j]));
                    slots.push(params.len());
                    let ghost done = students@.subrange(0, j as int);
                    assert(students@.subrange(0, j + 1) == done.push(students@[j as int]));
                    assert(done.push(students@[j as int]).map_values(|s: i64| Bound::Int(s))
                        =~= done.map_values(|s: i64| Bound::Int(s)).push(
                        Bound::Int(students@[j as int]),
                    ));
                    assert(bounds_of(params@) =~= bounds_of(old_params).push(
                        Bound::Int(students@[j as int]),
                    ));
                    assert(slots@.map_values(|s: usize| s as nat) =~= old_slots.map_values(
                        |s: usize| s as nat,
                    ).push((start + j + 1) as nat));
                    assert(slots@.map_values(|s: usize| s as nat) =~= slot_run(
                        (start + 1) as nat,
                        (j + 1) as nat,
                    ));
                    assert(bounds_of(params@) =~= bound_values(pre) + students@.subrange(
                        0,
                        j + 1,
                    ).map_values(|s: i64| Bound::Int(s)));
                    j = j + 1;
                }
                assert(students@.subrange(0, j as int) == students@);
                predicates.push(Predicate::StaffedBy { slots });
            },
        }
        assert(predicates_view(predicates@) =~= assigned_predicates(next));
        assert(bounds_of(params@) =~= bound_values(next));
        i = i + 1;
    }
    assert(ts.subrange(0, i as int) == ts);
    let ghost n = params.len();
    params.push(SqlValue::Int(limit));
    let limit_slot = params.len();
    params.push(SqlValue::Int(offset));
    let offset_slot = params.len();
    let r = SqlQuery {
        base: String::from_str(base),
        predicates,
        order_by,
        ascending,
        limit_slot,
        offset_slot,
        params,
    };
    assert(bounds_of(r.params@) =~= bound_values(ts) + seq![Bound::Int(limit), Bound::Int(offset)]);
    r
}

/// Numbering terms gives one predicate per term, and the placeholders that
/// the predicates read, taken in order, are exactly `1, 2, ..., n` for the
/// `n` values bound: each is fresh and each is greater than the one before.
pub proof fn lemma_slots_fresh_and_increasing(ts: Seq<TermView>)
    ensures
        assigned_predicates(ts).len() == ts.len(),
        all_slots(assigned_predicates(ts)) == slot_run(1, bound_values(ts).len()),
    decreases ts.len(),
{
    if ts.len() > 0 {
        let init = ts.drop_last();
        lemma_slots_fresh_and_increasing(init);
        let ps = assigned_predicates(ts);
        let n0 = bound_values(init).len();
        assert(ps.drop_last() == assigned_predicates(init));
        let p = predicate_of(ts.last(), n0 + 1);
        assert(ps.last() == p);
        assert(predicate_slots(p) =~= slot_run(n0 + 1, term_values(ts.last()).len()));
        assert(all_slots(ps) =~= slot_run(1, bound_values(ts).len()));
    }
}

/// A substring match on the group, when the text is given.
pub open spec fn like_terms(v: Option<String>, g: ColumnGroup) -> Seq<TermView> {
    match v {
        Some(t) => seq![TermView::Like { group: g, pattern: containing(t@) }],
        None => seq![],
    }
}

/// An equality on the column, when the value is given.
pub open spec fn equals_terms(v: Option<Bound>, c: Column) -> Seq<TermView> {
    match v {
        Some(b) => seq![TermView::Equals { column: c, value: b }],
        None => seq![],
    }
}

pub open spec fn some_count<T>(v: Option<T>) -> nat {
    if v.is_some() {
        1
    } else {
        0
    }
}

/// Adds a substring match on the group when the text is given.
pub fn push_like(ts: &mut Vec<FilterTerm>, v: &Option<String>, g: ColumnGroup)
    ensures
        terms_view(final(ts)@) == terms_view(old(ts)@) + like_terms(*v, g),
{
    if let Some(t) = v {
        ts.push(FilterTerm::Like { group: g, pattern: containing_pattern(t.as_str()) });
    }
    assert(terms_view(final(ts)@) =~= terms_view(old(ts)@) + like_terms(*v, g));
}

/// Adds an equality on the column when the value is given.
pub fn push_equals(ts: &mut Vec<FilterTerm>, v: Option<SqlValue>, c: Column)
    ensures
        terms_view(final(ts)@) == terms_view(old(ts)@) + equals_terms(
            match v {
                Some(x) => Some(x@),
                None => None,
            },
            c,
        ),
{
    if let Some(x) = v {
        ts.push(FilterTerm::Equals { column: c, value: x });
    }
    assert(terms_view(final(ts)@) =~= terms_view(old(ts)@) + equals_terms(
        match v {
            Some(x) => Some(x@),
            None => None,
        },
        c,
    ));
}

/// The parts, in order, with `sep` between each two.
pub open spec fn joined(parts: Seq<Seq<char>>, sep: Seq<char>) -> Seq<char>
    decreases parts.len(),
{
    if parts.len() == 0 {
        seq![]
    } else if parts.len() == 1 {
        parts[0]
    } else {
        joined(parts.drop_last(), sep) + sep + parts.last()
    }
}

proof fn lemma_joined_step(parts: Seq<Seq<char>>, sep: Seq<char>, i: int)
    requires
        0 <= i < parts.len(),
    ensures
        joined(parts.subrange(0, i + 1), sep) == joined(parts.subrange(0, i), sep) + (if i == 0 {
            seq![]
        } else {
            sep
        }) + parts[i],
{
    let q = parts.subrange(0, i + 1);
    assert(q.drop_last() =~= parts.subrange(0, i));
    if i == 0 {
        assert(joined(parts.subrange(0, i), sep) + Seq::<char>::empty() + parts[i] =~= parts[i]);
    }
}

/// The text of placeholder `slot`.
pub open spec fn placeholder(slot: nat) -> Seq<char> {
    "$"@ + decimal(slot)
}

pub open spec fn like_text(c: Column, slot: nat) -> Seq<char> {
    column_name(c) + " ILIKE "@ + placeholder(slot)
}

pub open spec fn predicate_text(p: PredicateView) -> Seq<char> {
    match p {
        PredicateView::Like { group, slot } => "("@ + joined(
            group_columns(group).map_values(|c: Column| like_text(c, slot)),
            " OR "@,
        ) + ")"@,
        PredicateView::Equals { column, slot } => column_name(column) + " = "@ + placeholder(slot),
        PredicateView::StaffedBy { slots } => staff_subquery() + (if slots.len() == 0 {
            "NULL"@
        } else {
            joined(slots.map_values(|s: nat| placeholder(s)), ", "@)
        }) + "))"@,
    }
}

/// The WHERE clause: present only when there is a predicate, which are then
/// joined with AND.
pub open spec fn where_text(ps: Seq<PredicateView>) -> Seq<char> {
    if ps.len() == 0 {
        seq![]
    } else {
        " WHERE "@ + joined(ps.map_values(|p: PredicateView| predicate_text(p)), " AND "@)
    }
}

pub open spec fn direction(ascending: bool) -> Seq<char> {
    if ascending {
        " ASC"@
    } else {
        " DESC"@
    }
}

pub open spec fn order_text(cols: Seq<Column>, ascending: bool) -> Seq<char> {
    if cols.len() == 0 {
        seq![]
    } else {
        " ORDER BY "@ + joined(
            cols.map_values(|c: Column| column_name(c) + direction(ascending)),
            ", "@,
        )
    }
}

/// The statement text of a query.
pub open spec fn query_text(q: QueryView) -> Seq<char> {
    q.base + where_text(q.predicates) + order_text(q.order_by, q.ascending) + " LIMIT "@
        + placeholder(q.limit_slot) + " OFFSET "@ + placeholder(q.offset_slot)
}

fn push_placeholder(s: &mut String, slot: usize)
    ensures
        final(s)@ == old(s)@ + placeholder(slot as nat),
{
    s.append("$");
    push_decimal(s, slot as u64);
    assert(final(s)@ =~= old(s)@ + placeholder(slot as nat));
}

fn push_predicate(s: &mut String, p: &Predicate)
    ensures
        final(s)@ == old(s)@ + predicate_text(p@),
{
    let ghost start = s@;
    match p {
        Predicate::Like { group, slot } => {
            let cols = group.columns();
            let ghost parts = cols@.map_values(|c: Column| like_text(c, *slot as nat));
            s.append("(");
            let ghost open = s@;
            let mut i: usize = 0;
            while i < cols.len()
                invariant
                    i <= cols.len(),
                    parts == cols@.map_values(|c: Column| like_text(c, *slot as nat)),
                    s@ == open + joined(parts.subrange(0, i as int), " OR "@),
                decreases cols.len() - i,
            {
                let ghost before = s@;
                if i > 0 {
                    s.append(" OR ");
                }
                s.append(cols[i].name());
                s.append(" ILIKE ");
                push_placeholder(s, *slot);
                proof {
                    lemma_joined_step(parts, " OR "@, i as int);
                }
                assert(s@ =~= open + joined(parts.subrange(0, i + 1), " OR "@));
                i = i + 1;
            }
            assert(parts.subrange(0, i as int) == parts);
            s.append(")");
            assert(s@ =~= start + predicate_text(p@));
        },
        Predicate::Equals { column, slot } => {
            s.append(column.name());
            s.append(" = ");
            push_placeholder(s, *slot);
            assert(s@ =~= start + predicate_text(p@));
        },
        Predicate::StaffedBy { slots } => {
            s.append("clubs.id IN (SELECT club_id FROM club_staffs WHERE student_id IN (");
            let ghost open = s@;
            let ghost nats = slots@.map_values(|x: usize| x as nat);
            let ghost parts = nats.map_values(|x: nat| placeholder(x));
            if slots.len() == 0 {
                s.append("NULL");
            } else {
                let mut i: usize = 0;
                while i < slots.len()
                    invariant
                        i <= slots.len(),
                        nats == slots@.map_values(|x: usize| x as nat),
                        parts == nats.map_values(|x: nat| placeholder(x)),
                        s@ == open + joined(parts.subrange(0, i as int), ", "@),
                    decreases slots.len() - i,
                {
                    if i > 0 {
                        s.append(", ");
                    }
                    push_placeholder(s, slots[i]);
                    proof {
                        lemma_joined_step(parts, ", "@, i as int);
                    }
                    assert(s@ =~= open + joined(parts.subrange(0, i + 1), ", "@));
                    i = i + 1;
                }
                assert(parts.subrange(0, i as int) == parts);
            }
            s.append("))");
            assert(s@ =~= start + predicate_text(p@));
        },
    }
}

impl SqlQuery {
    /// The statement text, with `$n` placeholders.
    pub fn to_sql(&self) -> (r: String)
        ensures
            r@ == query_text(self@),
    {
        let mut s = String::from_str(self.base.as_str());
        let ghost q = self@;
        let ghost after_base = s@;
        if self.predicates.len() > 0 {
            s.append(" WHERE ");
            let ghost open = s@;
            let ghost parts = q.predicates.map_values(|p: PredicateView| predicate_text(p));
            let mut i: usize = 0;
            while i < self.predicates.len()
                invariant
                    i <= self.predicates.len(),
                    q == self@,
                    parts == q.predicates.map_values(|p: PredicateView| predicate_text(p)),
                    s@ == open + joined(parts.subrange(0, i as int), " AND "@),
                decreases self.predicates.len() - i,
            {
                if i > 0 {
                    s.append(" AND ");
                }
                push_predicate(&mut s, &self.predicates[i]);
                proof {
                    lemma_joined_step(parts, " AND "@, i as int);
                }
                assert(s@ =~= open + joined(parts.subrange(0, i + 1), " AND "@));
                i = i + 1;
            }
            assert(parts.subrange(0, i as int) == parts);
        }
        assert(s@ =~= after_base + where_text(q.predicates));
        let ghost after_where = s@;
        if self.order_by.len() > 0 {
            s.append(" ORDER BY ");
            let ghost open = s@;
            let ghost parts = q.order_by.map_values(
                |c: Column| column_name(c) + direction(q.ascending),
            );
            let mut i: usize = 0;
            while i < self.order_by.len()
                invariant
                    i <= self.order_by.len(),
                    q == self@,
                    parts == q.order_by.map_values(
                        |c: Column| column_name(c) + direction(q.ascending),
                    ),
                    s@ == open + joined(parts.subrange(0, i as int), ", "@),
                decreases self.order_by.len() - i,
            {
                if i > 0 {
                    s.append(", ");
                }
                s.append(self.order_by[i].name());
                if self.ascending {
                    s.append(" ASC");
                } else {
                    s.append(" DESC");
                }
                proof {
                    lemma_joined_step(parts, ", "@, i as int);
                }
                assert(s@ =~= open + joined(parts.subrange(0, i + 1), ", "@));
                i = i + 1;
            }
            assert(parts.subrange(0, i as int) == parts);
        }
        assert(s@ =~= after_where + order_text(q.order_by, q.ascending));
        s.append(" LIMIT ");
        push_placeholder(&mut s, self.limit_slot);
        s.append(" OFFSET ");
        push_placeholder(&mut s, self.offset_slot);
        assert(s@ =~= query_text(q));
        s
    }
}

/// The table that an UPDATE writes, and how it finds the row.
#[derive(Debug, Clone, Copy, PartialEq, Eq, Structural)]
pub enum UpdateTarget {
    /// The club row with the given id.
    Clubs,
    /// The organization row of the club with the given id.
    ClubOrganization,
}

/// One column that an UPDATE sets, with its new value.
#[derive(Debug)]
pub struct Assignment {
    pub column: Column,
    pub value: SqlValue,
}

pub open spec fn assignments_view(a: Seq<Assignment>) -> Seq<(Column, Bound)> {
    a.map_values(|x: Assignment| (x.column, x.value@))
}

/// An assignment of the column, when the value is given.
pub open spec fn assignment_if(v: Option<Bound>, c: Column) -> Seq<(Column, Bound)> {
    match v {
        Some(b) => seq![(c, b)],
        None => seq![],
    }
}

pub open spec fn text_bound(v: Option<String>) -> Option<Bound> {
    match v {
        Some(t) => Some(Bound::Text(t@)),
        None => None,
    }
}

/// Adds an assignment of the column when the value is given.
pub fn push_assignment(a: &mut Vec<Assignment>, v: Option<SqlValue>, c: Column)
    ensures
        assignments_view(final(a)@) == assignments_view(old(a)@) + assignment_if(
            match v {
                Some(x) => Some(x@),
                None => None,
            },
            c,
        ),
{
    if let Some(x) = v {
        a.push(Assignment { column: c, value: x });
    }
    assert(assignments_view(final(a)@) =~= assignments_view(old(a)@) + assignment_if(
        match v {
            Some(x) => Some(x@),
            None => None,
        },
        c,
    ));
}

/// A copy of an optional text as a bound value.
pub fn text_value(v: &Option<String>) -> (r: Option<SqlValue>)
    ensures
        match r {
            Some(x) => Some(x@),
            None => None,
        } == text_bound(*v),
{
    match v {
        Some(t) => Some(SqlValue::Text(t.clone())),
        None => None,
    }
}

/// An UPDATE that sets some columns of one row: the new values take
/// placeholders `1..n` in order and the row's id takes `n + 1`.
#[derive(Debug)]
pub struct UpdateStatement {
    pub target: UpdateTarget,
    pub columns: Vec<Column>,
    pub params: Vec<SqlValue>,
}

pub struct UpdateView {
    pub target: UpdateTarget,
    pub columns: Seq<Column>,
    pub params: Seq<Bound>,
}

impl View for UpdateStatement {
    type V = UpdateView;

    open spec fn view(&self) -> UpdateView {
        UpdateView { target: self.target, columns: self.columns@, params: bounds_of(self.params@) }
    }
}

/// The UPDATE that sets the assigned columns of the row with id `id`.
pub open spec fn update_of(
    target: UpdateTarget,
    a: Seq<(Column, Bound)>,
    id: u128,
) -> UpdateView {
    UpdateView {
        target,
        columns: a.map_values(|x: (Column, Bound)| x.0),
        params: a.map_values(|x: (Column, Bound)| x.1).push(Bound::Uuid(id)),
    }
}

/// Builds the UPDATE of the assigned columns of the row with id `id`.
pub fn update_statement(target: UpdateTarget, a: Vec<Assignment>, id: u128) -> (r:
    UpdateStatement)
    ensures
        r@ == update_of(target, assignments_view(a@), id),
{
    let ghost av = assignments_view(a@);
    let mut columns: Vec<Column> = Vec::new();
    let mut params: Vec<SqlValue> = Vec::new();
    let mut i: usize = 0;
    while i < a.len()
        invariant
            i <= a.len(),
            av == assignments_view(a@),
            columns@ == av.subrange(0, i as int).map_values(|x: (Column, Bound)| x.0),
            bounds_of(params@) == av.subrange(0, i as int).map_values(|x: (Column, Bound)| x.1),
        decreases a.len() - i,
    {
        let ghost old_params = params@;
        assert(av[i as int] == (a@[i as int].column, a@[i as int].value@));
        columns.push(a[i].column);
        params.push(a[i].value.duplicate());
        assert(bounds_of(params@) =~= bounds_of(old_params).push(av[i as int].1));
        assert(av.subrange(0, i + 1) == av.subrange(0, i as int).push(av[i as int]));
        assert(columns@ =~= av.subrange(0, i + 1).map_values(|x: (Column, Bound)| x.0));
        assert(bounds_of(params@) =~= av.subrange(0, i + 1).map_values(
            |x: (Column, Bound)| x.1,
        ));
        i = i + 1;
    }
    assert(av.subrange(0, i as int) == av);
    params.push(SqlValue::Uuid(id));
    let r = UpdateStatement { target, columns, params };
    assert(bounds_of(r.params@) =~= av.map_values(|x: (Column, Bound)| x.1).push(
        Bound::Uuid(id),
    ));
    r
}

pub open spec fn update_head(t: UpdateTarget) -> Seq<char> {
    match t {
        UpdateTarget::Clubs => "UPDATE clubs SET "@,
        UpdateTarget::ClubOrganization => "UPDATE organizations SET "@,
    }
}

pub open spec fn update_row(t: UpdateTarget) -> Seq<char> {
    match t {
        UpdateTarget::Clubs => " WHERE id = "@,
        UpdateTarget::ClubOrganization => " WHERE id = (SELECT organization_id FROM clubs WHERE id = "@,
    }
}

pub open spec fn update_tail(t: UpdateTarget) -> Seq<char> {
    match t {
        UpdateTarget::Clubs => seq![],
        UpdateTarget::ClubOrganization => ")"@,
    }
}

/// `column = $i`, for each column in order.
pub open spec fn assignment_parts(cols: Seq<Column>) -> Seq<Seq<char>> {
    Seq::new(cols.len(), |i: int| column_name(cols[i]) + " = "@ + placeholder((i + 1) as nat))
}

/// The text of an UPDATE.
pub open spec fn update_text(u: UpdateView) -> Seq<char> {
    update_head(u.target) + joined(assignment_parts(u.columns), ", "@) + update_row(u.target)
        + placeholder(u.columns.len() + 1) + update_tail(u.target)
}

impl UpdateStatement {
    /// The statement text, with `$n` placeholders.
    pub fn to_sql(&self) -> (r: String)
        requires
            self.columns@.len() < usize::MAX,
        ensures
            r@ == update_text(self@),
    {
        let mut s = match self.target {
            UpdateTarget::Clubs => String::from_str("UPDATE clubs SET "),
            UpdateTarget::ClubOrganization => String::from_str("UPDATE organizations SET "),
        };
        let ghost open = s@;
        let ghost parts = assignment_parts(self.columns@);
        let mut i: usize = 0;
        while i < self.columns.len()
            invariant
                i <= self.columns.len(),
                parts == assignment_parts(self.columns@),
                s@ == open + joined(parts.subrange(0, i as int), ", "@),
            decreases self.columns.len() - i,
        {
            if i > 0 {
                s.append(", ");
            }
            s.append(self.columns[i].name());
            s.append(" = ");
            push_placeholder(&mut s, i + 1);
            proof {
                lemma_joined_step(parts, ", "@, i as int);
            }
            assert(s@ =~= open + joined(parts.subrange(0, i + 1), ", "@));
            i = i + 1;
        }
        assert(parts.subrange(0, i as int) == parts);
        match self.target {
            UpdateTarget::Clubs => s.append(" WHERE id = "),
            UpdateTarget::ClubOrganization => s.append(
                " WHERE id = (SELECT organization_id FROM clubs WHERE id = ",
            ),
        }
        push_placeholder(&mut s, self.columns.len() + 1);
        match self.target {
            UpdateTarget::Clubs => {},
            UpdateTarget::ClubOrganization => s.append(")"),
        }
        assert(s@ =~= update_text(self@));
        s
    }
}

/// A statement of fixed text with the values bound to its placeholders.
#[derive(Debug)]
pub struct Statement {
    pub sql: String,
    pub params: Vec<SqlValue>,
}

pub struct StatementView {
    pub sql: Seq<char>,
    pub params: Seq<Bound>,
}

impl View for Statement {
    type V = StatementView;

    open spec fn view(&self) -> StatementView {
        StatementView { sql: self.sql@, params: bounds_of(self.params@) }
    }
}

/// The statement `sql` with `params` bound in order.
pub fn statement(sql: &str, params: Vec<SqlValue>) -> (r: Statement)
    ensures
        r.sql@ == sql@,
        r.params@ == params@,
{
    Statement { sql: String::from_str(sql), params }
}

} // verus!
