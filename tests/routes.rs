use club_registry::club_request::{ClubRequestTable, UpdatableClubRequest};
use club_registry::clubs::{SubmissionStatus, UpdatableClub};
use club_registry::common::ErrorKind;
use club_registry::contacts::{ContactType, CreateContact};
use club_registry::handlers::{
    Action, CreateContactForClub, Event, JoinClub, DecideJoinRequest, StaffRecord,
    StorageError, UpdateClub,
};

fn membership(status: SubmissionStatus, year: i64) -> ClubRequestTable {
    ClubRequestTable { id: 1, club_id: 7, student_id: 42, year, membership_status: status, created_at: None }
}

fn kind(a: &Action) -> Option<ErrorKind> {
    match a {
        Action::Fail(e) => Some(e.kind),
        _ => None,
    }
}

#[test]
fn join_conflicts_with_pending_membership() {
    let (mut j, a) = JoinClub::start(7, 42, 2023, "/clubs/7/join".to_string());
    assert!(matches!(a, Action::LoadClub(7)));
    assert!(matches!(j.step(Event::ClubFound(Ok(true))), Action::LoadMemberships(7, 42, 2023)));
    let a = j.step(Event::Memberships(Ok(vec![membership(SubmissionStatus::Pending, 2023)])));
    assert_eq!(kind(&a), Some(ErrorKind::Conflict));
    assert!(matches!(j.step(Event::RequestCreated(Ok(9))), Action::Nothing));
}

#[test]
fn join_allowed_after_decline_or_other_year() {
    let (mut j, _) = JoinClub::start(7, 42, 2023, String::new());
    j.step(Event::ClubFound(Ok(true)));
    let rows = vec![
        membership(SubmissionStatus::Declined, 2023),
        membership(SubmissionStatus::Approved, 2022),
    ];
    match j.step(Event::Memberships(Ok(rows))) {
        Action::InsertRequest(r) => {
            assert_eq!((r.club_id, r.student_id, r.year), (7, 42, Some(2023)));
            assert_eq!(r.membership_status, SubmissionStatus::Pending);
        }
        _ => panic!("expected an insert"),
    }
    assert!(matches!(j.step(Event::RequestCreated(Ok(9))), Action::ReplyRequest(9)));
}

#[test]
fn join_unknown_club_is_not_found() {
    let (mut j, _) = JoinClub::start(7, 42, 2023, String::new());
    assert_eq!(kind(&j.step(Event::ClubFound(Ok(false)))), Some(ErrorKind::NotFound));
    let (mut j, _) = JoinClub::start(7, 42, 2023, String::new());
    let a = j.step(Event::ClubFound(Err(StorageError { detail: "down".to_string() })));
    assert_eq!(kind(&a), Some(ErrorKind::InternalServerError));
}

fn update() -> UpdatableClub {
    UpdatableClub {
        name: None,
        description: None,
        main_room: Some("421".to_string()),
        logo_url: None,
        background_color: None,
        accent_color: None,
        house: None,
        map_location: None,
    }
}

#[test]
fn update_by_non_staff_is_forbidden_and_writes_nothing() {
    let u = update();
    let (mut s, a) = UpdateClub::start(7, 42, Some(&u), "/clubs/7".to_string());
    assert!(matches!(a, Action::LoadStaffRecords(42)));
    let other_club = vec![StaffRecord { student_id: 42, club_id: 8 }];
    let a = s.step(Event::StaffRecords(Ok(other_club)));
    assert_eq!(kind(&a), Some(ErrorKind::Forbidden));
    assert!(matches!(s.step(Event::Written(Ok(()))), Action::Nothing));
}

#[test]
fn update_by_staff_runs_the_plan() {
    let u = update();
    let (mut s, _) = UpdateClub::start(7, 42, Some(&u), String::new());
    match s.step(Event::StaffRecords(Ok(vec![StaffRecord { student_id: 42, club_id: 7 }]))) {
        Action::RunUpdates(st) => {
            assert_eq!(st.len(), 1);
            assert_eq!(
                st[0].to_sql(),
                "UPDATE organizations SET main_room = $1 WHERE id = (SELECT organization_id FROM clubs WHERE id = $2)"
            );
        }
        _ => panic!("expected updates"),
    }
    assert!(matches!(s.step(Event::Written(Ok(()))), Action::ReplyClub(7)));
}

#[test]
fn empty_update_answers_without_writing() {
    let mut u = update();
    u.main_room = None;
    let (mut s, _) = UpdateClub::start(7, 42, Some(&u), String::new());
    let a = s.step(Event::StaffRecords(Ok(vec![StaffRecord { student_id: 42, club_id: 7 }])));
    assert!(matches!(a, Action::ReplyClub(7)));
}

#[test]
fn update_without_data_is_bad_request() {
    let (_, a) = UpdateClub::start(7, 42, None, String::new());
    assert_eq!(kind(&a), Some(ErrorKind::BadRequest));
}

#[test]
fn contact_creation_flow() {
    let c = CreateContact {
        name: None,
        value: "@club".to_string(),
        contact_type: ContactType::Instagram,
        include_students: None,
        include_teachers: None,
        include_parents: None,
    };
    let (mut s, _) = CreateContactForClub::start(7, 42, Some(&c), String::new());
    assert!(matches!(
        s.step(Event::StaffRecords(Ok(vec![StaffRecord { student_id: 42, club_id: 7 }]))),
        Action::LoadClub(7)
    ));
    match s.step(Event::ClubFound(Ok(true))) {
        Action::InsertContactForClub(7, row) => assert_eq!(row.value, "@club"),
        _ => panic!("expected an insert"),
    }
    assert!(matches!(s.step(Event::ContactCreated(Ok(55))), Action::ReplyClub(7)));
    let (mut s, _) = CreateContactForClub::start(7, 42, Some(&c), String::new());
    assert_eq!(kind(&s.step(Event::StaffRecords(Ok(vec![])))), Some(ErrorKind::Forbidden));
}

#[test]
fn decision_rejects_pending_target() {
    let d = UpdatableClubRequest {
        club_id: None,
        student_id: None,
        year: None,
        membership_status: Some(SubmissionStatus::Pending),
    };
    let (mut s, a) = DecideJoinRequest::start(10, 42, Some(&d), String::new());
    assert!(matches!(a, Action::LoadRequest(10)));
    let row = membership(SubmissionStatus::Pending, 2023);
    assert!(matches!(s.step(Event::RequestFound(Ok(Some(row)))), Action::LoadStaffRecords(42)));
    let a = s.step(Event::StaffRecords(Ok(vec![StaffRecord { student_id: 42, club_id: 7 }])));
    assert_eq!(kind(&a), Some(ErrorKind::BadRequest));
}

#[test]
fn decision_approves() {
    let d = UpdatableClubRequest {
        club_id: None,
        student_id: None,
        year: None,
        membership_status: Some(SubmissionStatus::Approved),
    };
    let (mut s, _) = DecideJoinRequest::start(10, 42, Some(&d), String::new());
    s.step(Event::RequestFound(Ok(Some(membership(SubmissionStatus::Pending, 2023)))));
    let a = s.step(Event::StaffRecords(Ok(vec![StaffRecord { student_id: 42, club_id: 7 }])));
    assert!(matches!(a, Action::SetRequestStatus(10, SubmissionStatus::Approved)));
    assert!(matches!(s.step(Event::Written(Ok(()))), Action::ReplyRequest(10)));
    let (mut s, _) = DecideJoinRequest::start(10, 42, Some(&d), String::new());
    assert_eq!(kind(&s.step(Event::RequestFound(Ok(None)))), Some(ErrorKind::NotFound));
}

#[test]
fn contact_creation_failures_end_the_route() {
    let (mut s, _) = CreateContactForClub::start(7, 42, None, String::new());
    s.step(Event::StaffRecords(Ok(vec![StaffRecord { student_id: 42, club_id: 7 }])));
    assert_eq!(kind(&s.step(Event::ClubFound(Ok(true)))), Some(ErrorKind::BadRequest));
    assert!(matches!(s.step(Event::ClubFound(Ok(true))), Action::Nothing));
    let c = CreateContact {
        name: None,
        value: "x".to_string(),
        contact_type: ContactType::Other,
        include_students: None,
        include_teachers: None,
        include_parents: None,
    };
    let (mut s, _) = CreateContactForClub::start(7, 42, Some(&c), String::new());
    s.step(Event::StaffRecords(Ok(vec![StaffRecord { student_id: 42, club_id: 7 }])));
    assert_eq!(kind(&s.step(Event::ClubFound(Ok(false)))), Some(ErrorKind::NotFound));
    assert!(matches!(s.step(Event::ClubFound(Ok(true))), Action::Nothing));
    let (mut s, _) = CreateContactForClub::start(7, 42, Some(&c), String::new());
    s.step(Event::StaffRecords(Ok(vec![StaffRecord { student_id: 42, club_id: 7 }])));
    s.step(Event::ClubFound(Ok(true)));
    let a = s.step(Event::ContactCreated(Err(StorageError { detail: "link failed".to_string() })));
    assert_eq!(kind(&a), Some(ErrorKind::InternalServerError));
}
