use club_registry::auth::{User, UserRoles, UserTable};
use club_registry::batch::arrange_by_ids;
use club_registry::classroom::{Classroom, ClassroomRelations, ClassroomTable};
use club_registry::club_request::{ClubRequest, ClubRequestRelations, ClubRequestTable};
use club_registry::clubs::{Club, ClubRelations, ClubTable, SubmissionStatus};
use club_registry::common::{
    ApiError, ErrorKind, ErrorResponseType, ErrorType, FetchLevel, FlexibleMultiLangString,
    ResponseType, keep_page,
};
use club_registry::contacts::{Contact, ContactTable, ContactType, CreateContact, DefaultContact};
use club_registry::health::HealthCheckResponse;
use club_registry::relations::{
    ClubRelation, StudentRelation, club_relations, club_request_relations, nested,
    resolve_level, student_relations,
};
use club_registry::student::{
    CalendarDate, PeopleTable, Student, StudentRelations, StudentTable,
};

fn contact_row(id: i64, th: Option<&str>) -> ContactTable {
    ContactTable {
        id,
        created_at: None,
        name_th: th.map(|s| s.to_string()),
        name_en: Some("Office".to_string()),
        value: format!("0{id}"),
        contact_type: ContactType::Phone,
        include_students: Some(true),
        include_teachers: None,
        include_parents: Some(false),
    }
}

#[test]
fn contact_round_trip_keeps_sent_fields() {
    let sent = CreateContact {
        name: Some(FlexibleMultiLangString { en: Some("Mail".to_string()), th: Some("อีเมล".to_string()) }),
        value: "club@example.org".to_string(),
        contact_type: ContactType::Email,
        include_students: Some(true),
        include_teachers: Some(false),
        include_parents: None,
    };
    let stored = ContactTable::create_contact(&sent);
    let row = ContactTable {
        id: 77,
        created_at: Some(1_700_000_000),
        name_th: stored.name_th,
        name_en: stored.name_en,
        value: stored.value,
        contact_type: stored.contact_type,
        include_students: stored.include_students,
        include_teachers: stored.include_teachers,
        include_parents: stored.include_parents,
    };
    let read = DefaultContact::from_table(&row);
    assert_eq!(read.id, 77);
    assert_eq!(read.value, "club@example.org");
    assert_eq!(read.contact_type, ContactType::Email);
    assert_eq!(read.name.th, "อีเมล");
    assert_eq!(read.name.en.as_deref(), Some("Mail"));
    assert_eq!(read.include_student, Some(true));
    assert_eq!(read.include_teacher, Some(false));
    assert_eq!(read.include_parents, None);
}

#[test]
fn contact_without_thai_name_shows_empty_name() {
    let v = DefaultContact::from_table(&contact_row(3, None));
    assert_eq!(v.name.th, "");
}

#[test]
fn contacts_come_back_in_requested_order() {
    let rows = vec![contact_row(5, Some("a")), contact_row(2, Some("b")), contact_row(9, Some("c"))];
    let got = Contact::get_from_ids(&vec![9, 4, 5, 2], &rows, FetchLevel::Compact);
    let ids: Vec<i64> = got
        .iter()
        .map(|c| match c {
            Contact::Compact(c) => c.id,
            _ => panic!("wrong view"),
        })
        .collect();
    assert_eq!(ids, vec![9, 5, 2]);
    assert_eq!(arrange_by_ids(&vec![2, 2, 8], &vec![1, 2]), vec![1, 1]);
}

#[test]
fn contact_views_by_level() {
    let row = contact_row(5, Some("ก"));
    assert!(matches!(Contact::from_table(&row, FetchLevel::IdOnly), Contact::IdOnly(c) if c.id == 5));
    match Contact::from_table(&row, FetchLevel::Default) {
        Contact::Default(c) => assert_eq!(c.value, "05"),
        _ => panic!("wrong view"),
    }
}

fn club_row() -> ClubTable {
    ClubTable {
        id: 0xabc,
        created_at: None,
        name_th: "ชมรมหมากรุก".to_string(),
        name_en: Some("Chess".to_string()),
        description_th: Some("เล่นหมากรุก".to_string()),
        description_en: None,
        main_room: Some("421".to_string()),
        logo_url: None,
        background_color: Some("#000".to_string()),
        accent_color: Some("#fff".to_string()),
        house: None,
        map_location: Some(12),
    }
}

fn no_club_relations() -> ClubRelations {
    ClubRelations { members: vec![], staffs: vec![], contacts: vec![] }
}

#[test]
fn club_views_by_level() {
    let row = club_row();
    match Club::from_table(&row, FetchLevel::Compact, no_club_relations()) {
        Club::Compact(c) => {
            assert_eq!(c.id, 0xabc);
            assert_eq!(c.name.en.as_deref(), Some("Chess"));
            assert!(c.description.is_none());
            assert_eq!(c.map_location, Some(12));
        }
        _ => panic!("wrong view"),
    }
    let rel = ClubRelations {
        members: vec![],
        staffs: vec![],
        contacts: vec![Contact::from_table(&contact_row(1, None), FetchLevel::IdOnly)],
    };
    match Club::from_table(&row, FetchLevel::Default, rel) {
        Club::Default(c) => {
            assert_eq!(c.contacts.len(), 1);
            assert_eq!(c.accent_color.as_deref(), Some("#fff"));
            assert_eq!(c.main_room.as_deref(), Some("421"));
        }
        _ => panic!("wrong view"),
    }
    let c = Club::from_table(&row, FetchLevel::IdOnly, no_club_relations());
    assert_eq!(c.id(), 0xabc);
    assert!(matches!(c, Club::IdOnly(_)));
}

#[test]
fn relation_queries_follow_fetch_level() {
    assert!(club_relations(FetchLevel::IdOnly).is_empty());
    assert!(club_relations(FetchLevel::Compact).is_empty());
    assert_eq!(
        club_relations(FetchLevel::Default),
        vec![ClubRelation::Members, ClubRelation::Staffs, ClubRelation::Contacts]
    );
    assert_eq!(student_relations(FetchLevel::Default).len(), 3);
    assert!(student_relations(FetchLevel::Compact).is_empty());
    assert!(student_relations(FetchLevel::Default).contains(&StudentRelation::User));
    assert!(club_request_relations(FetchLevel::Compact).is_empty());
    assert_eq!(resolve_level(None), FetchLevel::Default);
    assert_eq!(nested(None), (FetchLevel::IdOnly, Some(FetchLevel::IdOnly)));
    assert_eq!(nested(Some(FetchLevel::Compact)), (FetchLevel::Compact, Some(FetchLevel::IdOnly)));
}

#[test]
fn page_keeps_at_most_its_size() {
    assert_eq!(keep_page(vec![1, 2, 3, 4], 3), vec![1, 2, 3]);
    assert_eq!(keep_page(vec![1, 2], 50), vec![1, 2]);
    assert!(keep_page(vec![1, 2], 0).is_empty());
}

fn student_rows(std_id: &str) -> (StudentTable, PeopleTable) {
    let s = StudentTable { id: 3205, created_at: None, std_id: std_id.to_string(), person: 8 };
    let p = PeopleTable {
        id: 8,
        created_at: None,
        prefix_th: "นาย".to_string(),
        prefix_en: Some("Mr.".to_string()),
        first_name_th: "สมาร์ท".to_string(),
        first_name_en: Some("Smart".to_string()),
        last_name_th: "วัฒน์".to_string(),
        last_name_en: None,
        middle_name_th: Some("ก".to_string()),
        middle_name_en: Some("K".to_string()),
        birthdate: CalendarDate { year: 2007, month: 1, day: 22 },
        citizen_id: "0".to_string(),
        contacts: None,
        profile: None,
        nickname_th: None,
        nickname_en: None,
        pants_size: None,
    };
    (s, p)
}

fn no_student_relations() -> StudentRelations {
    StudentRelations { user: None, contacts: vec![], class: None, class_number: None }
}

fn user() -> User {
    User::new(UserTable {
        id: 1,
        email: None,
        role: "\"student\"".to_string(),
        student: Some(3205),
        teacher: None,
        onboarded: true,
        is_admin: false,
    })
}

#[test]
fn student_views() {
    let (s, p) = student_rows("51234");
    match Student::from_rows(FetchLevel::Compact, &s, &p, no_student_relations()) {
        Some(Student::Compact(c)) => {
            assert_eq!(c.student_id, 51234);
            assert_eq!(c.first_name.en.as_deref(), Some("Smart"));
            assert_eq!(c.birthdate, CalendarDate { year: 2007, month: 1, day: 22 });
        }
        _ => panic!("wrong view"),
    }
    assert!(Student::from_rows(FetchLevel::Default, &s, &p, no_student_relations()).is_none());
    let rel = StudentRelations { user: Some(user()), contacts: vec![], class: None, class_number: Some(4) };
    match Student::from_rows(FetchLevel::Default, &s, &p, rel) {
        Some(Student::Default(d)) => {
            assert_eq!(d.middle_name.map(|m| m.th), Some("ก".to_string()));
            assert_eq!(d.class_number, Some(4));
            assert_eq!(d.user.role, UserRoles::Student);
        }
        _ => panic!("wrong view"),
    }
    let (bad, p) = student_rows("S-1");
    assert!(Student::from_rows(FetchLevel::Compact, &bad, &p, no_student_relations()).is_none());
    assert_eq!(
        Student::from_rows(FetchLevel::IdOnly, &bad, &p, no_student_relations()).map(|s| s.id()),
        Some(3205)
    );
}

fn classroom(no_list: Vec<i64>) -> ClassroomTable {
    ClassroomTable {
        id: 402,
        created_at: None,
        number: 402,
        year: 2023,
        students: vec![],
        advisors: vec![],
        contacts: vec![],
        subjects: vec![],
        no_list,
    }
}

#[test]
fn class_numbers() {
    let c = classroom(vec![30, 31, 32, 31]);
    assert_eq!(Classroom::get_class_no_by_student_id(Some(&c), 31), Some(2));
    assert_eq!(Classroom::get_class_no_by_student_id(Some(&c), 99), None);
    assert_eq!(Classroom::get_class_no_by_student_id(None, 31), None);
    let rel = ClassroomRelations { students: vec![], contacts: vec![] };
    assert!(matches!(Classroom::from_table(FetchLevel::Compact, &c, rel), Classroom::Compact(v) if v.number == 402));
}

fn request_row() -> ClubRequestTable {
    ClubRequestTable {
        id: 10,
        club_id: 0xabc,
        student_id: 3205,
        year: 2023,
        membership_status: SubmissionStatus::Pending,
        created_at: None,
    }
}

#[test]
fn join_request_views() {
    let row = request_row();
    let none = || ClubRequestRelations { club: None, student: None };
    match ClubRequest::from_table(&row, FetchLevel::Compact, none()) {
        Some(ClubRequest::Compact(c)) => {
            assert_eq!(c.club_id, 0xabc);
            assert_eq!(c.membership_status, SubmissionStatus::Pending);
        }
        _ => panic!("wrong view"),
    }
    assert!(ClubRequest::from_table(&row, FetchLevel::Default, none()).is_none());
    let (s, p) = student_rows("1");
    let rel = ClubRequestRelations {
        club: Some(Club::from_table(&club_row(), FetchLevel::IdOnly, no_club_relations())),
        student: Student::from_rows(FetchLevel::IdOnly, &s, &p, no_student_relations()),
    };
    let v = ClubRequest::from_table(&row, FetchLevel::Default, rel).unwrap();
    assert_eq!(v.club_id(), Some(0xabc));
}

#[test]
fn envelopes() {
    let ok = ResponseType::new(5, None);
    assert_eq!(ok.data, Some(5));
    assert!(ok.error.is_none());
    let e = ErrorType::from_api_error(&ApiError::new(ErrorKind::Forbidden, "no", "/clubs/1"));
    assert_eq!(e.id.len(), 36);
    assert_eq!(e.code, 403);
    assert_eq!(e.error_type, "forbidden");
    assert_eq!(e.source, "/clubs/1");
    let r = ErrorResponseType::new(e, None);
    assert!(r.data.is_none());
    assert_eq!(r.status_code(), 403);
    let h = HealthCheckResponse::new(true, "3".to_string());
    assert!(h.database_connection);
    assert_eq!(h.database_response_time, "3");
    assert!(h.server_time.ends_with('Z'));
}
