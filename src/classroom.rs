//! Classrooms: a homeroom for one academic year, its views and a student's
//! number in it.

use vstd::prelude::*;

use crate::common::FetchLevel;
use crate::contacts::Contact;
use crate::sql::{Bound, SqlValue, Statement, statement};
use crate::student::Student;

verus! {

/// A classroom as stored.
#[derive(Debug)]
pub struct ClassroomTable {
    pub id: i64,
    /// Seconds since the Unix epoch.
    pub created_at: Option<i64>,
    pub number: i64,
    pub year: i64,
    pub students: Vec<i64>,
    pub advisors: Vec<i64>,
    pub contacts: Vec<i64>,
    pub subjects: Vec<i64>,
    pub no_list: Vec<i64>,
}

/// A classroom's id alone.
#[derive(Debug)]
pub struct IdOnlyClassroom {
    pub id: i64,
}

/// A classroom's id and number.
#[derive(Debug)]
pub struct CompactClassroom {
    pub id: i64,
    pub number: i64,
}

/// A classroom with its students and contacts.
#[derive(Debug)]
pub struct DefaultClassroom {
    pub id: i64,
    pub number: i64,
    pub students: Vec<Student>,
    pub contacts: Vec<Contact>,
    pub year: i64,
}

/// A classroom at one of the three fetch levels.
#[derive(Debug)]
pub enum Classroom {
    Default(DefaultClassroom),
    IdOnly(IdOnlyClassroom),
    Compact(CompactClassroom),
}

/// The related collections of a `Default` classroom view, as loaded.
#[derive(Debug)]
pub struct ClassroomRelations {
    pub students: Vec<Student>,
    pub contacts: Vec<Contact>,
}

/// `v` is the view of `row` at `level`, with the given relations.
pub open spec fn classroom_view_of(
    v: Classroom,
    row: ClassroomTable,
    level: FetchLevel,
    rel: ClassroomRelations,
) -> bool {
    match level {
        FetchLevel::IdOnly => match v {
            Classroom::IdOnly(c) => c.id == row.id,
            _ => false,
        },
        FetchLevel::Compact => match v {
            Classroom::Compact(c) => c.id == row.id && c.number == row.number,
            _ => false,
        },
        FetchLevel::Default => match v {
            Classroom::Default(c) => c.id == row.id && c.number == row.number && c.year == row.year
                && c.students@ == rel.students@ && c.contacts@ == rel.contacts@,
            _ => false,
        },
    }
}

/// `n` is the one-based place of the student's first entry in a class
/// list.
pub open spec fn is_class_number(no_list: Seq<i64>, student: i64, n: int) -> bool {
    &&& 1 <= n <= no_list.len()
    &&& no_list[n - 1] == student
    &&& forall|j: int| 0 <= j < n - 1 ==> no_list[j] != student
}

impl Classroom {
    /// The view of a classroom row at `level`; the relations are read only
    /// at `Default`.
    pub fn from_table(level: FetchLevel, row: &ClassroomTable, relations: ClassroomRelations) -> (r:
        Classroom)
        ensures
            classroom_view_of(r, *row, level, relations),
    {
        match level {
            FetchLevel::IdOnly => Classroom::IdOnly(IdOnlyClassroom { id: row.id }),
            FetchLevel::Compact => Classroom::Compact(
                CompactClassroom { id: row.id, number: row.number },
            ),
            FetchLevel::Default => Classroom::Default(
                DefaultClassroom {
                    id: row.id,
                    number: row.number,
                    students: relations.students,
                    contacts: relations.contacts,
                    year: row.year,
                },
            ),
        }
    }

    /// A student's number in the classroom they belong to: `None` when they
    /// belong to none or are not on its list.
    pub fn get_class_no_by_student_id(classroom: Option<&ClassroomTable>, id: i64) -> (r: Option<
        u64,
    >)
        ensures
            r is Some <==> classroom is Some && classroom->Some_0.no_list@.contains(id),
            r is Some ==> is_class_number(classroom->Some_0.no_list@, id, r->Some_0 as int),
    {
        match classroom {
            None => None,
            Some(c) => {
                let mut i: usize = 0;
                while i < c.no_list.len()
                    invariant
                        classroom == Some(c),
                        i <= c.no_list.len(),
                        forall|j: int| 0 <= j < i ==> c.no_list@[j] != id,
                    decreases c.no_list.len() - i,
                {
                    if c.no_list[i] == id {
                        assert(c.no_list@.contains(id));
                        return Some((i + 1) as u64);
                    }
                    i = i + 1;
                }
                assert(!c.no_list@.contains(id));
                None
            },
        }
    }
}


/// Loads the classroom that lists a student in an academic year.
pub const CLASSROOM_OF_STUDENT: &'static str = "SELECT id, created_at, number, year, students, advisors, contacts, subjects, no_list FROM classroom WHERE $1 = ANY(students) AND year = $2";

impl ClassroomTable {
    /// Loads the classroom of a student in an academic year.
    pub fn get_by_student_id(id: i64, year: i64) -> (r: Statement)
        ensures
            r@.sql == CLASSROOM_OF_STUDENT@,
            r@.params == seq![Bound::Int(id), Bound::Int(year)],
    {
        let r = statement(CLASSROOM_OF_STUDENT, vec![SqlValue::Int(id), SqlValue::Int(year)]);
        assert(r@.params =~= seq![Bound::Int(id), Bound::Int(year)]);
        r
    }
}

} // verus!
