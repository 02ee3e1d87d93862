//! Which related collections a view loads. Only the `Default` view of an
//! entity expands relations, each once; nested entities are resolved at the
//! descendant level with their own relations capped to `IdOnly`, so
//! expansion stops after two levels.

use vstd::prelude::*;

use crate::common::FetchLevel;

verus! {

/// A fetch level that a request may leave out: reads default to `Default`.
pub open spec fn level_or_default(l: Option<FetchLevel>) -> FetchLevel {
    match l {
        Some(l) => l,
        None => FetchLevel::Default,
    }
}

pub fn resolve_level(l: Option<FetchLevel>) -> (r: FetchLevel)
    ensures
        r == level_or_default(l),
{
    match l {
        Some(l) => l,
        None => FetchLevel::Default,
    }
}

/// The levels that the related entities of a `Default` view are resolved
/// at: the descendant level, `IdOnly` when none is given, and below that
/// always `IdOnly`.
pub open spec fn nested_levels(descendant: Option<FetchLevel>) -> (FetchLevel, Option<FetchLevel>) {
    (
        match descendant {
            Some(l) => l,
            None => FetchLevel::IdOnly,
        },
        Some(FetchLevel::IdOnly),
    )
}

pub fn nested(descendant: Option<FetchLevel>) -> (r: (FetchLevel, Option<FetchLevel>))
    ensures
        r == nested_levels(descendant),
{
    (
        match descendant {
            Some(l) => l,
            None => FetchLevel::IdOnly,
        },
        Some(FetchLevel::IdOnly),
    )
}

/// The related collections of a club.
#[derive(Debug, Clone, Copy, PartialEq, Eq, Structural)]
pub enum ClubRelation {
    Members,
    Staffs,
    Contacts,
}

/// The related records of a student.
#[derive(Debug, Clone, Copy, PartialEq, Eq, Structural)]
pub enum StudentRelation {
    User,
    Contacts,
    Classroom,
}

/// The related collections of a classroom.
#[derive(Debug, Clone, Copy, PartialEq, Eq, Structural)]
pub enum ClassroomRelation {
    Students,
    Contacts,
}

/// The related records of a join request.
#[derive(Debug, Clone, Copy, PartialEq, Eq, Structural)]
pub enum ClubRequestRelation {
    Club,
    Student,
}

pub open spec fn all_club_relations() -> Seq<ClubRelation> {
    seq![ClubRelation::Members, ClubRelation::Staffs, ClubRelation::Contacts]
}

pub open spec fn all_student_relations() -> Seq<StudentRelation> {
    seq![StudentRelation::User, StudentRelation::Contacts, StudentRelation::Classroom]
}

pub open spec fn all_classroom_relations() -> Seq<ClassroomRelation> {
    seq![ClassroomRelation::Students, ClassroomRelation::Contacts]
}

pub open spec fn all_club_request_relations() -> Seq<ClubRequestRelation> {
    seq![ClubRequestRelation::Club, ClubRequestRelation::Student]
}

pub open spec fn club_plan(l: FetchLevel) -> Seq<ClubRelation> {
    if l == FetchLevel::Default {
        all_club_relations()
    } else {
        seq![]
    }
}

pub open spec fn student_plan(l: FetchLevel) -> Seq<StudentRelation> {
    if l == FetchLevel::Default {
        all_student_relations()
    } else {
        seq![]
    }
}

pub open spec fn classroom_plan(l: FetchLevel) -> Seq<ClassroomRelation> {
    if l == FetchLevel::Default {
        all_classroom_relations()
    } else {
        seq![]
    }
}

pub open spec fn club_request_plan(l: FetchLevel) -> Seq<ClubRequestRelation> {
    if l == FetchLevel::Default {
        all_club_request_relations()
    } else {
        seq![]
    }
}

/// The relation queries that building a club view at `level` issues.
pub fn club_relations(level: FetchLevel) -> (r: Vec<ClubRelation>)
    ensures
        r@ == club_plan(level),
{
    match level {
        FetchLevel::Default => vec![ClubRelation::Members, ClubRelation::Staffs, ClubRelation::Contacts],
        _ => Vec::new(),
    }
}

/// The relation queries that building a student view at `level` issues.
pub fn student_relations(level: FetchLevel) -> (r: Vec<StudentRelation>)
    ensures
        r@ == student_plan(level),
{
    match level {
        FetchLevel::Default => vec![
            StudentRelation::User,
            StudentRelation::Contacts,
            StudentRelation::Classroom,
        ],
        _ => Vec::new(),
    }
}

/// The relation queries that building a classroom view at `level` issues.
pub fn classroom_relations(level: FetchLevel) -> (r: Vec<ClassroomRelation>)
    ensures
        r@ == classroom_plan(level),
{
    match level {
        FetchLevel::Default => vec![ClassroomRelation::Students, ClassroomRelation::Contacts],
        _ => Vec::new(),
    }
}

/// The relation queries that building a join-request view at `level` issues.
pub fn club_request_relations(level: FetchLevel) -> (r: Vec<ClubRequestRelation>)
    ensures
        r@ == club_request_plan(level),
{
    match level {
        FetchLevel::Default => vec![ClubRequestRelation::Club, ClubRequestRelation::Student],
        _ => Vec::new(),
    }
}

/// `IdOnly` and `Compact` views issue no relation query; a `Default` view
/// issues exactly one per relation collection of its entity: each relation
/// appears in its plan, and none twice.
pub proof fn lemma_fetch_level_cost(level: FetchLevel)
    ensures
        level != FetchLevel::Default ==> club_plan(level).len() == 0 && student_plan(level).len()
            == 0 && classroom_plan(level).len() == 0 && club_request_plan(level).len() == 0,
        level == FetchLevel::Default ==> {
            &&& club_plan(level).no_duplicates()
            &&& forall|r: ClubRelation| club_plan(level).contains(r)
            &&& student_plan(level).no_duplicates()
            &&& forall|r: StudentRelation| student_plan(level).contains(r)
            &&& classroom_plan(level).no_duplicates()
            &&& forall|r: ClassroomRelation| classroom_plan(level).contains(r)
            &&& club_request_plan(level).no_duplicates()
            &&& forall|r: ClubRequestRelation| club_request_plan(level).contains(r)
        },
{
    if level == FetchLevel::Default {
        assert forall|r: ClubRelation| club_plan(level).contains(r) by {
            match r {
                ClubRelation::Members => assert(club_plan(level)[0] == r),
                ClubRelation::Staffs => assert(club_plan(level)[1] == r),
                ClubRelation::Contacts => assert(club_plan(level)[2] == r),
            }
        }
        assert forall|r: StudentRelation| student_plan(level).contains(r) by {
            match r {
                StudentRelation::User => assert(student_plan(level)[0] == r),
                StudentRelation::Contacts => assert(student_plan(level)[1] == r),
                StudentRelation::Classroom => assert(student_plan(level)[2] == r),
            }
        }
        assert forall|r: ClassroomRelation| classroom_plan(level).contains(r) by {
            match r {
                ClassroomRelation::Students => assert(classroom_plan(level)[0] == r),
                ClassroomRelation::Contacts => assert(classroom_plan(level)[1] == r),
            }
        }
        assert forall|r: ClubRequestRelation| club_request_plan(level).contains(r) by {
            match r {
                ClubRequestRelation::Club => assert(club_request_plan(level)[0] == r),
                ClubRequestRelation::Student => assert(club_request_plan(level)[1] == r),
            }
        }
    }
}

/// Expansion stops after two levels: the relations of a view are resolved
/// at the descendant level, theirs at `IdOnly`, and an `IdOnly` view loads
/// no relation at all.
pub proof fn lemma_expansion_is_bounded(descendant: Option<FetchLevel>)
    ensures
        nested_levels(nested_levels(descendant).1).0 == FetchLevel::IdOnly,
        nested_levels(nested_levels(descendant).1).1 == Some(FetchLevel::IdOnly),
        club_plan(FetchLevel::IdOnly).len() == 0,
        student_plan(FetchLevel::IdOnly).len() == 0,
        classroom_plan(FetchLevel::IdOnly).len() == 0,
        club_request_plan(FetchLevel::IdOnly).len() == 0,
{
}

} // verus!
