//! Students: a person row and a student row, and the three student views.

use vstd::prelude::*;

use crate::auth::User;
use crate::classroom::Classroom;
use crate::common::{FetchLevel, MultiLangString};
use crate::contacts::Contact;
use crate::batch::copy_ids;
use crate::sql::{Bound, SqlValue, Statement, statement};
use crate::text::{copy_text, parse_u32, u32_of_text};

verus! {

#[derive(Debug, Clone, Copy, PartialEq, Eq, Structural)]
pub enum Sex {
    Male,
    Female,
}

#[derive(Debug, Clone, Copy, PartialEq, Eq, Structural)]
pub enum BloodType {
    APositive,
    ANegative,
    BPositive,
    BNegative,
    ABPositive,
    ABNegative,
    OPositive,
    ONegative,
}

/// A calendar date.
#[derive(Debug, Clone, Copy, PartialEq, Eq, Structural)]
pub struct CalendarDate {
    pub year: i32,
    pub month: u32,
    pub day: u32,
}

/// A person as stored.
#[derive(Debug)]
pub struct PeopleTable {
    pub id: i64,
    /// Seconds since the Unix epoch.
    pub created_at: Option<i64>,
    pub prefix_th: String,
    pub prefix_en: Option<String>,
    pub first_name_th: String,
    pub first_name_en: Option<String>,
    pub last_name_th: String,
    pub last_name_en: Option<String>,
    pub middle_name_th: Option<String>,
    pub middle_name_en: Option<String>,
    pub birthdate: CalendarDate,
    pub citizen_id: String,
    pub contacts: Option<Vec<i64>>,
    pub profile: Option<String>,
    pub nickname_th: Option<String>,
    pub nickname_en: Option<String>,
    pub pants_size: Option<String>,
}

/// A student as stored; the person row holds the rest.
#[derive(Debug)]
pub struct StudentTable {
    pub id: i64,
    /// Seconds since the Unix epoch.
    pub created_at: Option<i64>,
    pub std_id: String,
    pub person: i64,
}

/// A student's id alone.
#[derive(Debug)]
pub struct IdOnlyStudent {
    pub id: i64,
}

/// A student's id, names, picture, birthdate and student number.
#[derive(Debug)]
pub struct CompactStudent {
    pub id: i64,
    pub prefix: MultiLangString,
    pub first_name: MultiLangString,
    pub last_name: MultiLangString,
    pub profile_url: Option<String>,
    pub birthdate: CalendarDate,
    pub student_id: u32,
}

/// A student with their contacts, classroom and user.
#[derive(Debug)]
pub struct DefaultStudent {
    pub id: i64,
    pub prefix: MultiLangString,
    pub first_name: MultiLangString,
    pub last_name: MultiLangString,
    pub middle_name: Option<MultiLangString>,
    pub profile_url: Option<String>,
    pub birthdate: CalendarDate,
    pub contacts: Vec<Contact>,
    pub student_id: u32,
    pub class: Option<Classroom>,
    pub class_number: Option<u64>,
    pub user: User,
}

/// A student at one of the three fetch levels.
#[derive(Debug)]
pub enum Student {
    Default(DefaultStudent),
    IdOnly(IdOnlyStudent),
    Compact(CompactStudent),
}

/// The related records of a `Default` student view, as loaded.
#[derive(Debug)]
pub struct StudentRelations {
    pub user: Option<User>,
    pub contacts: Vec<Contact>,
    pub class: Option<Classroom>,
    pub class_number: Option<u64>,
}

pub open spec fn text_pair(v: MultiLangString, th: String, en: Option<String>) -> bool {
    v.th == th && v.en == en
}

/// A middle name is shown only when both its forms are stored.
pub open spec fn middle_name_of(v: Option<MultiLangString>, p: PeopleTable) -> bool {
    match (p.middle_name_th, p.middle_name_en) {
        (Some(th), Some(en)) => v is Some && v->Some_0.th == th && v->Some_0.en == Some(en),
        _ => v is None,
    }
}

/// The rows can be shown: the person is the student's, and the student
/// number is a decimal `u32`.
pub open spec fn student_rows_valid(s: StudentTable, p: PeopleTable) -> bool {
    p.id == s.person && u32_of_text(s.std_id@) is Some
}

pub open spec fn compact_student_of(v: CompactStudent, s: StudentTable, p: PeopleTable) -> bool {
    &&& v.id == s.id
    &&& text_pair(v.prefix, p.prefix_th, p.prefix_en)
    &&& text_pair(v.first_name, p.first_name_th, p.first_name_en)
    &&& text_pair(v.last_name, p.last_name_th, p.last_name_en)
    &&& v.profile_url == p.profile
    &&& v.birthdate == p.birthdate
    &&& Some(v.student_id) == u32_of_text(s.std_id@)
}

pub open spec fn default_student_of(v: DefaultStudent, s: StudentTable, p: PeopleTable) -> bool {
    &&& v.id == s.id
    &&& text_pair(v.prefix, p.prefix_th, p.prefix_en)
    &&& text_pair(v.first_name, p.first_name_th, p.first_name_en)
    &&& text_pair(v.last_name, p.last_name_th, p.last_name_en)
    &&& middle_name_of(v.middle_name, p)
    &&& v.profile_url == p.profile
    &&& v.birthdate == p.birthdate
    &&& Some(v.student_id) == u32_of_text(s.std_id@)
}

fn text_pair_of(th: &String, en: &Option<String>) -> (r: MultiLangString)
    ensures
        text_pair(r, *th, *en),
{
    MultiLangString { th: th.clone(), en: copy_text(en) }
}

impl IdOnlyStudent {
    pub fn from_table(student: &StudentTable) -> (r: Self)
        ensures
            r.id == student.id,
    {
        IdOnlyStudent { id: student.id }
    }
}

impl CompactStudent {
    /// The compact view of a student's rows; `None` when they cannot be
    /// shown.
    pub fn from_rows(student: &StudentTable, person: &PeopleTable) -> (r: Option<Self>)
        ensures
            r is Some <==> student_rows_valid(*student, *person),
            r is Some ==> compact_student_of(r->Some_0, *student, *person),
    {
        if person.id != student.person {
            return None;
        }
        let number = match parse_u32(student.std_id.as_str()) {
            Some(n) => n,
            None => return None,
        };
        Some(CompactStudent {
            id: student.id,
            prefix: text_pair_of(&person.prefix_th, &person.prefix_en),
            first_name: text_pair_of(&person.first_name_th, &person.first_name_en),
            last_name: text_pair_of(&person.last_name_th, &person.last_name_en),
            profile_url: copy_text(&person.profile),
            birthdate: person.birthdate,
            student_id: number,
        })
    }
}

impl DefaultStudent {
    /// The default view of a student's rows with their loaded relations;
    /// `None` when the rows cannot be shown or the student has no user.
    pub fn from_rows(student: &StudentTable, person: &PeopleTable, relations: StudentRelations) -> (r:
        Option<Self>)
        ensures
            r is Some <==> student_rows_valid(*student, *person) && relations.user is Some,
            r is Some ==> default_student_of(r->Some_0, *student, *person),
            r is Some ==> r->Some_0.contacts@ == relations.contacts@,
            r is Some ==> r->Some_0.class == relations.class,
            r is Some ==> r->Some_0.class_number == relations.class_number,
            r is Some ==> r->Some_0.user == relations.user->Some_0,
    {
        if person.id != student.person {
            return None;
        }
        let number = match parse_u32(student.std_id.as_str()) {
            Some(n) => n,
            None => return None,
        };
        let user = match relations.user {
            Some(u) => u,
            None => return None,
        };
        let middle_name = match (&person.middle_name_th, &person.middle_name_en) {
            (Some(th), Some(en)) => Some(MultiLangString { th: th.clone(), en: Some(en.clone()) }),
            _ => None,
        };
        Some(DefaultStudent {
            id: student.id,
            prefix: text_pair_of(&person.prefix_th, &person.prefix_en),
            first_name: text_pair_of(&person.first_name_th, &person.first_name_en),
            last_name: text_pair_of(&person.last_name_th, &person.last_name_en),
            middle_name,
            profile_url: copy_text(&person.profile),
            birthdate: person.birthdate,
            contacts: relations.contacts,
            student_id: number,
            class: relations.class,
            class_number: relations.class_number,
            user,
        })
    }
}

/// `v` is the view of the rows at `level`.
pub open spec fn student_view_of(
    v: Student,
    s: StudentTable,
    p: PeopleTable,
    level: FetchLevel,
) -> bool {
    match level {
        FetchLevel::IdOnly => match v {
            Student::IdOnly(x) => x.id == s.id,
            _ => false,
        },
        FetchLevel::Compact => match v {
            Student::Compact(x) => compact_student_of(x, s, p),
            _ => false,
        },
        FetchLevel::Default => match v {
            Student::Default(x) => default_student_of(x, s, p),
            _ => false,
        },
    }
}

impl Student {
    /// The view of a student at `level`. The relations are read only at
    /// `Default`. `None` when the rows cannot be shown at that level: an
    /// `IdOnly` view needs the student row alone.
    pub fn from_rows(
        level: FetchLevel,
        student: &StudentTable,
        person: &PeopleTable,
        relations: StudentRelations,
    ) -> (r: Option<Student>)
        ensures
            r is Some <==> match level {
                FetchLevel::IdOnly => true,
                FetchLevel::Compact => student_rows_valid(*student, *person),
                FetchLevel::Default => student_rows_valid(*student, *person)
                    && relations.user is Some,
            },
            r is Some ==> student_view_of(r->Some_0, *student, *person, level),
            r is Some && level == FetchLevel::Default ==> match r->Some_0 {
                Student::Default(d) => {
                    &&& d.contacts@ == relations.contacts@
                    &&& d.class == relations.class
                    &&& d.class_number == relations.class_number
                    &&& d.user == relations.user->Some_0
                },
                _ => false,
            },
    {
        match level {
            FetchLevel::IdOnly => Some(Student::IdOnly(IdOnlyStudent::from_table(student))),
            FetchLevel::Compact => match CompactStudent::from_rows(student, person) {
                Some(c) => Some(Student::Compact(c)),
                None => None,
            },
            FetchLevel::Default => match DefaultStudent::from_rows(student, person, relations) {
                Some(d) => Some(Student::Default(d)),
                None => None,
            },
        }
    }

    /// The student's id, whatever its view.
    pub fn id(&self) -> (r: i64)
        ensures
            r == student_id(*self),
    {
        match self {
            Student::Default(s) => s.id,
            Student::IdOnly(s) => s.id,
            Student::Compact(s) => s.id,
        }
    }
}

pub open spec fn student_id(s: Student) -> i64 {
    match s {
        Student::Default(x) => x.id,
        Student::IdOnly(x) => x.id,
        Student::Compact(x) => x.id,
    }
}


/// Loads the students whose ids are in a list.
pub const STUDENTS_BY_IDS: &'static str = "SELECT id, created_at, std_id, person FROM student WHERE id = ANY($1)";

/// Loads the people whose ids are in a list.
pub const PEOPLE_BY_IDS: &'static str = "SELECT id, created_at, prefix_th, prefix_en, first_name_th, first_name_en, last_name_th, last_name_en, middle_name_th, middle_name_en, birthdate, citizen_id, contacts, profile, nickname_th, nickname_en, pants_size FROM people WHERE id = ANY($1)";

impl StudentTable {
    /// Loads the students with the given ids, in no particular order.
    pub fn get_from_ids(ids: &Vec<i64>) -> (r: Statement)
        ensures
            r@.sql == STUDENTS_BY_IDS@,
            r@.params == seq![Bound::IntList(ids@)],
    {
        let r = statement(STUDENTS_BY_IDS, vec![SqlValue::IntList(copy_ids(ids))]);
        assert(r@.params =~= seq![Bound::IntList(ids@)]);
        r
    }
}

impl PeopleTable {
    /// Loads the people with the given ids, in no particular order.
    pub fn get_from_ids(ids: &Vec<i64>) -> (r: Statement)
        ensures
            r@.sql == PEOPLE_BY_IDS@,
            r@.params == seq![Bound::IntList(ids@)],
    {
        let r = statement(PEOPLE_BY_IDS, vec![SqlValue::IntList(copy_ids(ids))]);
        assert(r@.params =~= seq![Bound::IntList(ids@)]);
        r
    }
}

} // verus!
