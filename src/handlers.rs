//! The decisions of the mutating routes. Each route is a small state
//! machine: the caller performs the returned action against storage and
//! hands back its outcome as the next event. Authorization is decided before
//! any write is returned, and a finished route returns nothing more.

use vstd::prelude::*;

use crate::club_request::{ClubRequestTable, CreatableClubRequest, UpdatableClubRequest};
use crate::clubs::{ClubTable, SubmissionStatus, UpdatableClub, club_update_fields, club_update_plan};
use crate::common::{ApiError, ErrorKind};
use crate::contacts::{ContactTable, CreateContact, NewContactRow, new_contact_row_of};
use crate::sql::{Bound, SqlValue, Statement, UpdateStatement, statement};
use crate::clubs::update_views;

verus! {

/// A student's staff position in a club.
#[derive(Debug, Clone, Copy, PartialEq, Eq, Structural)]
pub struct StaffRecord {
    pub student_id: i64,
    pub club_id: u128,
}

/// The student is on the club's staff.
pub open spec fn staff_of(records: Seq<StaffRecord>, student: i64, club: u128) -> bool {
    exists|i: int|
        0 <= i < records.len() && records[i].student_id == student && records[i].club_id == club
}

/// Whether the records make the student a staff member of the club: the
/// one test that guards every write to a club.
pub fn is_club_staff(records: &Vec<StaffRecord>, student: i64, club: u128) -> (r: bool)
    ensures
        r == staff_of(records@, student, club),
{
    let mut i: usize = 0;
    while i < records.len()
        invariant
            i <= records.len(),
            forall|j: int|
                0 <= j < i ==> !(records@[j].student_id == student && records@[j].club_id == club),
        decreases records.len() - i,
    {
        if records[i].student_id == student && records[i].club_id == club {
            return true;
        }
        i = i + 1;
    }
    false
}

/// A membership that blocks a new join request: the same club, student and
/// academic year, approved or still pending.
pub open spec fn blocks_join(m: ClubRequestTable, club: u128, student: i64, year: i64) -> bool {
    &&& m.club_id == club
    &&& m.student_id == student
    &&& m.year == year
    &&& (m.membership_status == SubmissionStatus::Approved || m.membership_status
        == SubmissionStatus::Pending)
}

pub open spec fn has_active_membership(
    rows: Seq<ClubRequestTable>,
    club: u128,
    student: i64,
    year: i64,
) -> bool {
    exists|i: int| 0 <= i < rows.len() && blocks_join(rows[i], club, student, year)
}

/// Whether the student already has an approved or pending membership of the
/// club in the academic year.
pub fn active_membership(rows: &Vec<ClubRequestTable>, club: u128, student: i64, year: i64) -> (r:
    bool)
    ensures
        r == has_active_membership(rows@, club, student, year),
{
    let mut i: usize = 0;
    while i < rows.len()
        invariant
            i <= rows.len(),
            forall|j: int| 0 <= j < i ==> !blocks_join(rows@[j], club, student, year),
        decreases rows.len() - i,
    {
        let m = &rows[i];
        if m.club_id == club && m.student_id == student && m.year == year && (match m.membership_status {
            SubmissionStatus::Approved => true,
            SubmissionStatus::Pending => true,
            SubmissionStatus::Declined => false,
        }) {
            assert(blocks_join(rows@[i as int], club, student, year));
            return true;
        }
        i = i + 1;
    }
    false
}

/// A failure of storage, with its message.
#[derive(Debug)]
pub struct StorageError {
    pub detail: String,
}

/// The outcome of the last action.
#[derive(Debug)]
pub enum Event {
    /// Whether the club exists.
    ClubFound(Result<bool, StorageError>),
    StaffRecords(Result<Vec<StaffRecord>, StorageError>),
    Memberships(Result<Vec<ClubRequestTable>, StorageError>),
    /// The id of the stored join request.
    RequestCreated(Result<u128, StorageError>),
    /// The id of the contact stored and attached to the club.
    ContactCreated(Result<i64, StorageError>),
    Written(Result<(), StorageError>),
    RequestFound(Result<Option<ClubRequestTable>, StorageError>),
}

/// What the caller does next.
#[derive(Debug)]
pub enum Action {
    LoadClub(u128),
    /// Load the staff positions of a student.
    LoadStaffRecords(i64),
    /// Load a student's memberships of a club in a year: club, student, year.
    LoadMemberships(u128, i64, i64),
    InsertRequest(CreatableClubRequest),
    /// Run the statements in one transaction.
    RunUpdates(Vec<UpdateStatement>),
    /// Store a new contact and attach it to a club, in one transaction: both
    /// or neither.
    InsertContactForClub(u128, NewContactRow),
    LoadRequest(u128),
    SetRequestStatus(u128, SubmissionStatus),
    /// Answer with the club, read again at the requested levels.
    ReplyClub(u128),
    /// Answer with the join request, read again at the requested levels.
    ReplyRequest(u128),
    Fail(ApiError),
    Nothing,
}

/// The action changes stored data.
pub open spec fn writes(a: Action) -> bool {
    a is InsertRequest || a is RunUpdates || a is InsertContactForClub
        || a is SetRequestStatus
}

pub open spec fn fails_with(a: Action, k: ErrorKind) -> bool {
    a is Fail && a->Fail_0.kind == k
}

fn fail(kind: ErrorKind, detail: &str, source: &String) -> (r: Action)
    ensures
        fails_with(r, kind),
{
    Action::Fail(ApiError { kind, detail: String::from_str(detail), source: source.clone() })
}

fn storage_failure(e: StorageError, source: &String) -> (r: Action)
    ensures
        fails_with(r, ErrorKind::InternalServerError),
{
    Action::Fail(ApiError { kind: ErrorKind::InternalServerError, detail: e.detail, source: source.clone() })
}

fn unexpected(source: &String) -> (r: Action)
    ensures
        fails_with(r, ErrorKind::InternalServerError),
{
    fail(ErrorKind::InternalServerError, "unexpected outcome", source)
}

#[derive(Debug, Clone, Copy, PartialEq, Eq, Structural)]
pub enum JoinStage {
    AwaitClub,
    AwaitMemberships,
    AwaitInsert,
    Done,
}

/// `POST /clubs/{id}/join`: a student asks to join a club for the current
/// academic year.
#[derive(Debug)]
pub struct JoinClub {
    pub stage: JoinStage,
    pub club_id: u128,
    pub student_id: i64,
    pub year: i64,
    pub source: String,
}

impl JoinClub {
    pub fn start(club_id: u128, student_id: i64, year: i64, source: String) -> (r: (JoinClub, Action))
        ensures
            r.0.stage == JoinStage::AwaitClub,
            r.0.club_id == club_id,
            r.0.student_id == student_id,
            r.0.year == year,
            r.1 == Action::LoadClub(club_id),
    {
        (JoinClub { stage: JoinStage::AwaitClub, club_id, student_id, year, source }, Action::LoadClub(club_id))
    }

    /// The next action. A student who already has an approved or pending
    /// membership of the club this year gets a conflict and no request is
    /// stored; the only write is the insert of a pending request, made when
    /// there is none.
    pub fn step(&mut self, event: Event) -> (a: Action)
        ensures
            final(self).club_id == old(self).club_id,
            final(self).student_id == old(self).student_id,
            final(self).year == old(self).year,
            old(self).stage == JoinStage::Done ==> a is Nothing && final(self).stage
                == JoinStage::Done,
            old(self).stage == JoinStage::AwaitClub ==> match event {
                Event::ClubFound(Ok(true)) => a == Action::LoadMemberships(
                    old(self).club_id,
                    old(self).student_id,
                    old(self).year,
                ) && final(self).stage == JoinStage::AwaitMemberships,
                Event::ClubFound(Ok(false)) => fails_with(a, ErrorKind::NotFound)
                    && final(self).stage == JoinStage::Done,
                _ => fails_with(a, ErrorKind::InternalServerError) && final(self).stage
                    == JoinStage::Done,
            },
            old(self).stage == JoinStage::AwaitMemberships ==> match event {
                Event::Memberships(Ok(rows)) => if has_active_membership(
                    rows@,
                    old(self).club_id,
                    old(self).student_id,
                    old(self).year,
                ) {
                    fails_with(a, ErrorKind::Conflict) && final(self).stage == JoinStage::Done
                } else {
                    &&& a is InsertRequest
                    &&& a->InsertRequest_0.club_id == old(self).club_id
                    &&& a->InsertRequest_0.student_id == old(self).student_id
                    &&& a->InsertRequest_0.year == Some(old(self).year)
                    &&& a->InsertRequest_0.membership_status == SubmissionStatus::Pending
                    &&& final(self).stage == JoinStage::AwaitInsert
                },
                _ => fails_with(a, ErrorKind::InternalServerError) && final(self).stage
                    == JoinStage::Done,
            },
            old(self).stage == JoinStage::AwaitInsert ==> match event {
                Event::RequestCreated(Ok(id)) => a == Action::ReplyRequest(id) && final(self).stage
                    == JoinStage::Done,
                _ => fails_with(a, ErrorKind::InternalServerError) && final(self).stage
                    == JoinStage::Done,
            },
            writes(a) ==> old(self).stage == JoinStage::AwaitMemberships && (match event {
                Event::Memberships(Ok(rows)) => !has_active_membership(
                    rows@,
                    old(self).club_id,
                    old(self).student_id,
                    old(self).year,
                ),
                _ => false,
            }),
    {
        match self.stage {
            JoinStage::Done => Action::Nothing,
            JoinStage::AwaitClub => {
                self.stage = JoinStage::Done;
                match event {
                    Event::ClubFound(Ok(true)) => {
                        self.stage = JoinStage::AwaitMemberships;
                        Action::LoadMemberships(self.club_id, self.student_id, self.year)
                    },
                    Event::ClubFound(Ok(false)) => fail(ErrorKind::NotFound, "club not found", &self.source),
                    Event::ClubFound(Err(e)) => storage_failure(e, &self.source),
                    _ => unexpected(&self.source),
                }
            },
            JoinStage::AwaitMemberships => {
                self.stage = JoinStage::Done;
                match event {
                    Event::Memberships(Ok(rows)) => {
                        if active_membership(&rows, self.club_id, self.student_id, self.year) {
                            fail(ErrorKind::Conflict, "student is already in the club", &self.source)
                        } else {
                            self.stage = JoinStage::AwaitInsert;
                            Action::InsertRequest(
                                CreatableClubRequest::pending(self.club_id, self.student_id, self.year),
                            )
                        }
                    },
                    Event::Memberships(Err(e)) => storage_failure(e, &self.source),
                    _ => unexpected(&self.source),
                }
            },
            JoinStage::AwaitInsert => {
                self.stage = JoinStage::Done;
                match event {
                    Event::RequestCreated(Ok(id)) => Action::ReplyRequest(id),
                    Event::RequestCreated(Err(e)) => storage_failure(e, &self.source),
                    _ => unexpected(&self.source),
                }
            },
        }
    }
}

#[derive(Debug, Clone, Copy, PartialEq, Eq, Structural)]
pub enum UpdateStage {
    AwaitStaff,
    AwaitWrite,
    Done,
}

/// `PATCH /clubs/{id}`: a club's staff member updates some of its fields.
#[derive(Debug)]
pub struct UpdateClub {
    pub stage: UpdateStage,
    pub club_id: u128,
    pub student_id: i64,
    pub statements: Vec<UpdateStatement>,
    pub source: String,
}

impl UpdateClub {
    /// Starts the route; a request without data is refused before anything
    /// is read.
    pub fn start(club_id: u128, student_id: i64, data: Option<&UpdatableClub>, source: String) -> (r:
        (UpdateClub, Action))
        ensures
            r.0.club_id == club_id,
            r.0.student_id == student_id,
            data is None ==> fails_with(r.1, ErrorKind::BadRequest) && r.0.stage
                == UpdateStage::Done,
            data is Some ==> r.1 == Action::LoadStaffRecords(student_id) && r.0.stage
                == UpdateStage::AwaitStaff && update_views(r.0.statements@) == club_update_plan(
                club_update_fields(*data->Some_0),
                club_id,
            ),
    {
        match data {
            None => {
                let a = fail(ErrorKind::BadRequest, "request body is empty", &source);
                (UpdateClub { stage: UpdateStage::Done, club_id, student_id, statements: Vec::new(), source }, a)
            },
            Some(d) => {
                let statements = ClubTable::update_by_id(club_id, &d.to_table());
                (
                    UpdateClub { stage: UpdateStage::AwaitStaff, club_id, student_id, statements, source },
                    Action::LoadStaffRecords(student_id),
                )
            },
        }
    }

    /// The next action. A student who is not on the club's staff is
    /// forbidden and nothing is written; the only write is the planned
    /// update, made for a staff member. An update with nothing to set
    /// writes nothing and answers with the club as it is.
    pub fn step(&mut self, event: Event) -> (a: Action)
        ensures
            final(self).club_id == old(self).club_id,
            final(self).student_id == old(self).student_id,
            old(self).stage == UpdateStage::Done ==> a is Nothing && final(self).stage
                == UpdateStage::Done,
            old(self).stage == UpdateStage::AwaitStaff ==> match event {
                Event::StaffRecords(Ok(recs)) => if !staff_of(
                    recs@,
                    old(self).student_id,
                    old(self).club_id,
                ) {
                    fails_with(a, ErrorKind::Forbidden) && final(self).stage == UpdateStage::Done
                } else if old(self).statements.len() == 0 {
                    a == Action::ReplyClub(old(self).club_id) && final(self).stage
                        == UpdateStage::Done
                } else {
                    a is RunUpdates && update_views(a->RunUpdates_0@) == update_views(
                        old(self).statements@,
                    ) && final(self).stage == UpdateStage::AwaitWrite
                },
                _ => fails_with(a, ErrorKind::InternalServerError) && final(self).stage
                    == UpdateStage::Done,
            },
            old(self).stage == UpdateStage::AwaitWrite ==> match event {
                Event::Written(Ok(())) => a == Action::ReplyClub(old(self).club_id)
                    && final(self).stage == UpdateStage::Done,
                _ => fails_with(a, ErrorKind::InternalServerError) && final(self).stage
                    == UpdateStage::Done,
            },
            writes(a) ==> old(self).stage == UpdateStage::AwaitStaff && (match event {
                Event::StaffRecords(Ok(recs)) => staff_of(
                    recs@,
                    old(self).student_id,
                    old(self).club_id,
                ),
                _ => false,
            }),
    {
        match self.stage {
            UpdateStage::Done => Action::Nothing,
            UpdateStage::AwaitStaff => {
                self.stage = UpdateStage::Done;
                match event {
                    Event::StaffRecords(Ok(recs)) => {
                        if !is_club_staff(&recs, self.student_id, self.club_id) {
                            fail(ErrorKind::Forbidden, "the student is not club staff", &self.source)
                        } else if self.statements.len() == 0 {
                            Action::ReplyClub(self.club_id)
                        } else {
                            self.stage = UpdateStage::AwaitWrite;
                            let mut statements: Vec<UpdateStatement> = Vec::new();
                            std::mem::swap(&mut statements, &mut self.statements);
                            Action::RunUpdates(statements)
                        }
                    },
                    Event::StaffRecords(Err(e)) => storage_failure(e, &self.source),
                    _ => unexpected(&self.source),
                }
            },
            UpdateStage::AwaitWrite => {
                self.stage = UpdateStage::Done;
                match event {
                    Event::Written(Ok(())) => Action::ReplyClub(self.club_id),
                    Event::Written(Err(e)) => storage_failure(e, &self.source),
                    _ => unexpected(&self.source),
                }
            },
        }
    }
}

#[derive(Debug, Clone, Copy, PartialEq, Eq, Structural)]
pub enum ContactStage {
    AwaitStaff,
    AwaitClub,
    AwaitInsert,
    Done,
}

/// `POST /clubs/{id}/contacts`: a club's staff member attaches a new
/// contact to the club.
#[derive(Debug)]
pub struct CreateContactForClub {
    pub stage: ContactStage,
    pub club_id: u128,
    pub student_id: i64,
    pub row: Option<NewContactRow>,
    pub source: String,
}

impl CreateContactForClub {
    pub fn start(club_id: u128, student_id: i64, data: Option<&CreateContact>, source: String) -> (r:
        (CreateContactForClub, Action))
        ensures
            r.0.stage == ContactStage::AwaitStaff,
            r.0.club_id == club_id,
            r.0.student_id == student_id,
            r.0.source == source,
            r.0.row is Some <==> data is Some,
            data is Some ==> new_contact_row_of(r.0.row->Some_0, *data->Some_0),
            r.1 == Action::LoadStaffRecords(student_id),
    {
        let row = match data {
            Some(d) => Some(ContactTable::create_contact(d)),
            None => None,
        };
        (
            CreateContactForClub { stage: ContactStage::AwaitStaff, club_id, student_id, row, source },
            Action::LoadStaffRecords(student_id),
        )
    }

    /// The next action. The contact sent is kept until it is stored; it is
    /// stored, together with its link to the club, only when the student is
    /// on the club's staff, the club exists and a contact was sent.
    pub fn step(&mut self, event: Event) -> (a: Action)
        ensures
            final(self).club_id == old(self).club_id,
            final(self).student_id == old(self).student_id,
            final(self).source == old(self).source,
            !(a is InsertContactForClub) ==> final(self).row == old(self).row,
            old(self).stage == ContactStage::Done ==> a is Nothing && final(self).stage
                == ContactStage::Done,
            old(self).stage == ContactStage::AwaitStaff ==> match event {
                Event::StaffRecords(Ok(recs)) => if staff_of(
                    recs@,
                    old(self).student_id,
                    old(self).club_id,
                ) {
                    a == Action::LoadClub(old(self).club_id) && final(self).stage
                        == ContactStage::AwaitClub
                } else {
                    fails_with(a, ErrorKind::Forbidden) && final(self).stage == ContactStage::Done
                },
                _ => fails_with(a, ErrorKind::InternalServerError) && final(self).stage
                    == ContactStage::Done,
            },
            old(self).stage == ContactStage::AwaitClub ==> match event {
                Event::ClubFound(Ok(true)) => if old(self).row is Some {
                    a == Action::InsertContactForClub(old(self).club_id, old(self).row->Some_0)
                        && final(self).stage == ContactStage::AwaitInsert
                } else {
                    fails_with(a, ErrorKind::BadRequest) && final(self).stage == ContactStage::Done
                },
                Event::ClubFound(Ok(false)) => fails_with(a, ErrorKind::NotFound)
                    && final(self).stage == ContactStage::Done,
                _ => fails_with(a, ErrorKind::InternalServerError) && final(self).stage
                    == ContactStage::Done,
            },
            old(self).stage == ContactStage::AwaitInsert ==> match event {
                Event::ContactCreated(Ok(_)) => a == Action::ReplyClub(old(self).club_id)
                    && final(self).stage == ContactStage::Done,
                _ => fails_with(a, ErrorKind::InternalServerError) && final(self).stage
                    == ContactStage::Done,
            },
            writes(a) ==> old(self).stage == ContactStage::AwaitClub && a
                == Action::InsertContactForClub(old(self).club_id, old(self).row->Some_0),
    {
        match self.stage {
            ContactStage::Done => Action::Nothing,
            ContactStage::AwaitStaff => {
                self.stage = ContactStage::Done;
                match event {
                    Event::StaffRecords(Ok(recs)) => {
                        if is_club_staff(&recs, self.student_id, self.club_id) {
                            self.stage = ContactStage::AwaitClub;
                            Action::LoadClub(self.club_id)
                        } else {
                            fail(ErrorKind::Forbidden, "the student is not club staff", &self.source)
                        }
                    },
                    Event::StaffRecords(Err(e)) => storage_failure(e, &self.source),
                    _ => unexpected(&self.source),
                }
            },
            ContactStage::AwaitClub => {
                self.stage = ContactStage::Done;
                match event {
                    Event::ClubFound(Ok(true)) => match self.row.take() {
                        Some(row) => {
                            self.stage = ContactStage::AwaitInsert;
                            Action::InsertContactForClub(self.club_id, row)
                        },
                        None => fail(ErrorKind::BadRequest, "request body is empty", &self.source),
                    },
                    Event::ClubFound(Ok(false)) => fail(ErrorKind::NotFound, "club not found", &self.source),
                    Event::ClubFound(Err(e)) => storage_failure(e, &self.source),
                    _ => unexpected(&self.source),
                }
            },
            ContactStage::AwaitInsert => {
                self.stage = ContactStage::Done;
                match event {
                    Event::ContactCreated(Ok(_)) => Action::ReplyClub(self.club_id),
                    Event::ContactCreated(Err(e)) => storage_failure(e, &self.source),
                    _ => unexpected(&self.source),
                }
            },
        }
    }
}

#[derive(Debug, Clone, Copy, PartialEq, Eq, Structural)]
pub enum DecisionStage {
    AwaitRequest,
    AwaitStaff,
    AwaitWrite,
    Done,
}

/// `PATCH /join_requests/{id}`: a club's staff member approves or declines
/// a join request.
#[derive(Debug)]
pub struct DecideJoinRequest {
    pub stage: DecisionStage,
    pub request_id: u128,
    pub student_id: i64,
    pub club_id: u128,
    pub decision: Option<Option<SubmissionStatus>>,
    pub source: String,
}

impl DecideJoinRequest {
    pub fn start(
        request_id: u128,
        student_id: i64,
        data: Option<&UpdatableClubRequest>,
        source: String,
    ) -> (r: (DecideJoinRequest, Action))
        ensures
            r.0.stage == DecisionStage::AwaitRequest,
            r.0.request_id == request_id,
            r.0.student_id == student_id,
            r.0.decision == match data {
                Some(d) => Some(d.membership_status),
                None => None,
            },
            r.1 == Action::LoadRequest(request_id),
    {
        let decision = match data {
            Some(d) => Some(d.membership_status),
            None => None,
        };
        (
            DecideJoinRequest {
                stage: DecisionStage::AwaitRequest,
                request_id,
                student_id,
                club_id: 0,
                decision,
                source,
            },
            Action::LoadRequest(request_id),
        )
    }

    /// The next action. The request's club is read first; a student who is
    /// not on its staff is forbidden. A staff member may approve or decline,
    /// never set a request back to pending; only then is the status written.
    pub fn step(&mut self, event: Event) -> (a: Action)
        ensures
            final(self).request_id == old(self).request_id,
            final(self).student_id == old(self).student_id,
            final(self).decision == old(self).decision,
            final(self).source == old(self).source,
            old(self).stage != DecisionStage::AwaitRequest ==> final(self).club_id == old(
                self,
            ).club_id,
            old(self).stage == DecisionStage::Done ==> a is Nothing && final(self).stage
                == DecisionStage::Done,
            old(self).stage == DecisionStage::AwaitRequest ==> match event {
                Event::RequestFound(Ok(Some(row))) => a == Action::LoadStaffRecords(
                    old(self).student_id,
                ) && final(self).stage == DecisionStage::AwaitStaff && final(self).club_id
                    == row.club_id,
                Event::RequestFound(Ok(None)) => fails_with(a, ErrorKind::NotFound)
                    && final(self).stage == DecisionStage::Done,
                _ => fails_with(a, ErrorKind::InternalServerError) && final(self).stage
                    == DecisionStage::Done,
            },
            old(self).stage == DecisionStage::AwaitStaff ==> match event {
                Event::StaffRecords(Ok(recs)) => if !staff_of(
                    recs@,
                    old(self).student_id,
                    old(self).club_id,
                ) {
                    fails_with(a, ErrorKind::Forbidden) && final(self).stage == DecisionStage::Done
                } else {
                    match old(self).decision {
                        Some(Some(SubmissionStatus::Approved)) => a == Action::SetRequestStatus(
                            old(self).request_id,
                            SubmissionStatus::Approved,
                        ) && final(self).stage == DecisionStage::AwaitWrite,
                        Some(Some(SubmissionStatus::Declined)) => a == Action::SetRequestStatus(
                            old(self).request_id,
                            SubmissionStatus::Declined,
                        ) && final(self).stage == DecisionStage::AwaitWrite,
                        _ => fails_with(a, ErrorKind::BadRequest) && final(self).stage
                            == DecisionStage::Done,
                    }
                },
                _ => fails_with(a, ErrorKind::InternalServerError) && final(self).stage
                    == DecisionStage::Done,
            },
            old(self).stage == DecisionStage::AwaitWrite ==> match event {
                Event::Written(Ok(())) => a == Action::ReplyRequest(old(self).request_id)
                    && final(self).stage == DecisionStage::Done,
                _ => fails_with(a, ErrorKind::InternalServerError) && final(self).stage
                    == DecisionStage::Done,
            },
            writes(a) ==> old(self).stage == DecisionStage::AwaitStaff && (match event {
                Event::StaffRecords(Ok(recs)) => staff_of(
                    recs@,
                    old(self).student_id,
                    old(self).club_id,
                ),
                _ => false,
            }),
    {
        match self.stage {
            DecisionStage::Done => Action::Nothing,
            DecisionStage::AwaitRequest => {
                self.stage = DecisionStage::Done;
                match event {
                    Event::RequestFound(Ok(Some(row))) => {
                        self.club_id = row.club_id;
                        self.stage = DecisionStage::AwaitStaff;
                        Action::LoadStaffRecords(self.student_id)
                    },
                    Event::RequestFound(Ok(None)) => fail(ErrorKind::NotFound, "join request not found", &self.source),
                    Event::RequestFound(Err(e)) => storage_failure(e, &self.source),
                    _ => unexpected(&self.source),
                }
            },
            DecisionStage::AwaitStaff => {
                self.stage = DecisionStage::Done;
                match event {
                    Event::StaffRecords(Ok(recs)) => {
                        if !is_club_staff(&recs, self.student_id, self.club_id) {
                            fail(ErrorKind::Forbidden, "the student is not club staff", &self.source)
                        } else {
                            match self.decision {
                                Some(Some(SubmissionStatus::Approved)) => {
                                    self.stage = DecisionStage::AwaitWrite;
                                    Action::SetRequestStatus(self.request_id, SubmissionStatus::Approved)
                                },
                                Some(Some(SubmissionStatus::Declined)) => {
                                    self.stage = DecisionStage::AwaitWrite;
                                    Action::SetRequestStatus(self.request_id, SubmissionStatus::Declined)
                                },
                                Some(Some(SubmissionStatus::Pending)) => fail(
                                    ErrorKind::BadRequest,
                                    "membership_status can not be pending",
                                    &self.source,
                                ),
                                _ => fail(ErrorKind::BadRequest, "data is required", &self.source),
                            }
                        }
                    },
                    Event::StaffRecords(Err(e)) => storage_failure(e, &self.source),
                    _ => unexpected(&self.source),
                }
            },
            DecisionStage::AwaitWrite => {
                self.stage = DecisionStage::Done;
                match event {
                    Event::Written(Ok(())) => Action::ReplyRequest(self.request_id),
                    Event::Written(Err(e)) => storage_failure(e, &self.source),
                    _ => unexpected(&self.source),
                }
            },
        }
    }
}


/// The staff positions of a student.
pub const STAFF_POSITIONS: &'static str = "SELECT student_id, club_id FROM club_staffs WHERE student_id = $1";

/// Loads the staff positions of the student with id `student`.
pub fn staff_positions(student: i64) -> (r: Statement)
    ensures
        r@.sql == STAFF_POSITIONS@,
        r@.params == seq![Bound::Int(student)],
{
    let r = statement(STAFF_POSITIONS, vec![SqlValue::Int(student)]);
    assert(r@.params =~= seq![Bound::Int(student)]);
    r
}

} // verus!
