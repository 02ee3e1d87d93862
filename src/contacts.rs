//! Contacts: a way to reach a club, student or classroom, its views and the
//! record of a new contact.

use vstd::prelude::*;

use crate::batch::{arrange_by_ids, found_ids, lemma_found_ids_len};
use crate::common::{FetchLevel, FlexibleMultiLangString, MultiLangString};
use crate::batch::copy_ids;
use crate::sql::{Bound, SqlValue, Statement, statement};
use crate::text::{copy_text, text_eq};

verus! {

/// The kind of a contact.
#[derive(Debug, Clone, Copy, PartialEq, Eq, Structural)]
pub enum ContactType {
    Phone,
    Email,
    Facebook,
    Line,
    Instagram,
    Website,
    Discord,
    Other,
}

pub open spec fn contact_type_text(t: ContactType) -> Seq<char> {
    match t {
        ContactType::Phone => "Phone"@,
        ContactType::Email => "Email"@,
        ContactType::Facebook => "Facebook"@,
        ContactType::Line => "Line"@,
        ContactType::Instagram => "Instagram"@,
        ContactType::Website => "Website"@,
        ContactType::Discord => "Discord"@,
        ContactType::Other => "Other"@,
    }
}

/// The kind that a text names; a text that names none is `Other`.
pub open spec fn contact_type_of_text(s: Seq<char>) -> ContactType {
    if s == "Phone"@ {
        ContactType::Phone
    } else if s == "Email"@ {
        ContactType::Email
    } else if s == "Facebook"@ {
        ContactType::Facebook
    } else if s == "Line"@ {
        ContactType::Line
    } else if s == "Instagram"@ {
        ContactType::Instagram
    } else if s == "Website"@ {
        ContactType::Website
    } else if s == "Discord"@ {
        ContactType::Discord
    } else {
        ContactType::Other
    }
}

impl ContactType {
    pub fn to_string(&self) -> (r: String)
        ensures
            r@ == contact_type_text(*self),
    {
        let s: &str = match self {
            ContactType::Phone => "Phone",
            ContactType::Email => "Email",
            ContactType::Facebook => "Facebook",
            ContactType::Line => "Line",
            ContactType::Instagram => "Instagram",
            ContactType::Website => "Website",
            ContactType::Discord => "Discord",
            ContactType::Other => "Other",
        };
        String::from_str(s)
    }

    pub fn from_string(role: &str) -> (r: ContactType)
        ensures
            r == contact_type_of_text(role@),
    {
        if text_eq(role, "Phone") {
            ContactType::Phone
        } else if text_eq(role, "Email") {
            ContactType::Email
        } else if text_eq(role, "Facebook") {
            ContactType::Facebook
        } else if text_eq(role, "Line") {
            ContactType::Line
        } else if text_eq(role, "Instagram") {
            ContactType::Instagram
        } else if text_eq(role, "Website") {
            ContactType::Website
        } else if text_eq(role, "Discord") {
            ContactType::Discord
        } else {
            ContactType::Other
        }
    }
}

/// A contact as a client asks to create it.
#[derive(Debug)]
pub struct CreateContact {
    pub name: Option<FlexibleMultiLangString>,
    pub value: String,
    pub contact_type: ContactType,
    pub include_students: Option<bool>,
    pub include_teachers: Option<bool>,
    pub include_parents: Option<bool>,
}

/// The columns that creating a contact stores; storage assigns the id.
#[derive(Debug)]
pub struct NewContactRow {
    pub name_th: Option<String>,
    pub name_en: Option<String>,
    pub value: String,
    pub contact_type: ContactType,
    pub include_students: Option<bool>,
    pub include_teachers: Option<bool>,
    pub include_parents: Option<bool>,
}

/// The statement that stores a new contact and returns its id.
pub const CONTACT_INSERT: &'static str = "INSERT INTO contacts (name_th, name_en, value, type, include_students, include_teachers, include_parents) VALUES ($1, $2, $3, $4, $5, $6, $7) RETURNING id";

/// The columns of a contact row.
pub const CONTACT_SELECT: &'static str = "SELECT id, created_at, name_th, name_en, value, type, include_students, include_teachers, include_parents FROM contacts";

/// A contact as stored.
#[derive(Debug)]
pub struct ContactTable {
    pub id: i64,
    /// Seconds since the Unix epoch.
    pub created_at: Option<i64>,
    pub name_th: Option<String>,
    pub name_en: Option<String>,
    pub value: String,
    pub contact_type: ContactType,
    pub include_students: Option<bool>,
    pub include_teachers: Option<bool>,
    pub include_parents: Option<bool>,
}

/// The stored columns of a new contact match what the client sent.
pub open spec fn new_contact_row_of(r: NewContactRow, c: CreateContact) -> bool {
    &&& r.name_th == match c.name {
        Some(n) => n.th,
        None => None,
    }
    &&& r.name_en == match c.name {
        Some(n) => n.en,
        None => None,
    }
    &&& r.value == c.value
    &&& r.contact_type == c.contact_type
    &&& r.include_students == c.include_students
    &&& r.include_teachers == c.include_teachers
    &&& r.include_parents == c.include_parents
}

/// A row holds what was stored for a new contact.
pub open spec fn row_stores(row: ContactTable, n: NewContactRow) -> bool {
    &&& row.name_th == n.name_th
    &&& row.name_en == n.name_en
    &&& row.value == n.value
    &&& row.contact_type == n.contact_type
    &&& row.include_students == n.include_students
    &&& row.include_teachers == n.include_teachers
    &&& row.include_parents == n.include_parents
}

impl ContactTable {
    /// The columns to store for a new contact.
    pub fn create_contact(contact: &CreateContact) -> (r: NewContactRow)
        ensures
            new_contact_row_of(r, *contact),
    {
        NewContactRow {
            name_th: match &contact.name {
                Some(n) => copy_text(&n.th),
                None => None,
            },
            name_en: match &contact.name {
                Some(n) => copy_text(&n.en),
                None => None,
            },
            value: contact.value.clone(),
            contact_type: contact.contact_type,
            include_students: contact.include_students,
            include_teachers: contact.include_teachers,
            include_parents: contact.include_parents,
        }
    }
}

/// The Thai name of a stored contact; a contact without one shows an empty
/// name.
pub open spec fn thai_or_empty(v: Option<String>) -> Seq<char> {
    match v {
        Some(t) => t@,
        None => seq![],
    }
}

fn thai_name(v: &Option<String>) -> (r: String)
    ensures
        r@ == thai_or_empty(*v),
{
    match v {
        Some(t) => t.clone(),
        None => String::new(),
    }
}

/// A contact with every field.
#[derive(Debug)]
pub struct DefaultContact {
    pub id: i64,
    pub name: MultiLangString,
    pub value: String,
    pub contact_type: ContactType,
    pub include_student: Option<bool>,
    pub include_teacher: Option<bool>,
    pub include_parents: Option<bool>,
}

/// A contact's id alone.
#[derive(Debug)]
pub struct IdOnlyContact {
    pub id: i64,
}

/// A contact's id, name, value and kind.
#[derive(Debug)]
pub struct CompactContact {
    pub id: i64,
    pub name: MultiLangString,
    pub value: String,
    pub contact_type: ContactType,
}

pub open spec fn default_contact_of(v: DefaultContact, row: ContactTable) -> bool {
    &&& v.id == row.id
    &&& v.name.en == row.name_en
    &&& v.name.th@ == thai_or_empty(row.name_th)
    &&& v.value == row.value
    &&& v.contact_type == row.contact_type
    &&& v.include_student == row.include_students
    &&& v.include_teacher == row.include_teachers
    &&& v.include_parents == row.include_parents
}

pub open spec fn compact_contact_of(v: CompactContact, row: ContactTable) -> bool {
    &&& v.id == row.id
    &&& v.name.en == row.name_en
    &&& v.name.th@ == thai_or_empty(row.name_th)
    &&& v.value == row.value
    &&& v.contact_type == row.contact_type
}

impl DefaultContact {
    pub fn from_table(contact: &ContactTable) -> (r: Self)
        ensures
            default_contact_of(r, *contact),
    {
        DefaultContact {
            id: contact.id,
            name: MultiLangString::new(copy_text(&contact.name_en), thai_name(&contact.name_th)),
            value: contact.value.clone(),
            contact_type: contact.contact_type,
            include_student: contact.include_students,
            include_teacher: contact.include_teachers,
            include_parents: contact.include_parents,
        }
    }
}

impl IdOnlyContact {
    pub fn from_table(table: &ContactTable) -> (r: Self)
        ensures
            r.id == table.id,
    {
        IdOnlyContact { id: table.id }
    }
}

impl CompactContact {
    pub fn from_table(contact: &ContactTable) -> (r: Self)
        ensures
            compact_contact_of(r, *contact),
    {
        CompactContact {
            id: contact.id,
            name: MultiLangString::new(copy_text(&contact.name_en), thai_name(&contact.name_th)),
            value: contact.value.clone(),
            contact_type: contact.contact_type,
        }
    }
}

/// A contact at one of the three fetch levels.
#[derive(Debug)]
pub enum Contact {
    Default(DefaultContact),
    IdOnly(IdOnlyContact),
    Compact(CompactContact),
}

/// `v` is the view of `row` at `level`.
pub open spec fn contact_view_of(v: Contact, row: ContactTable, level: FetchLevel) -> bool {
    match level {
        FetchLevel::Default => match v {
            Contact::Default(c) => default_contact_of(c, row),
            _ => false,
        },
        FetchLevel::Compact => match v {
            Contact::Compact(c) => compact_contact_of(c, row),
            _ => false,
        },
        FetchLevel::IdOnly => match v {
            Contact::IdOnly(c) => c.id == row.id,
            _ => false,
        },
    }
}

pub open spec fn contact_ids(rows: Seq<ContactTable>) -> Seq<i64> {
    rows.map_values(|r: ContactTable| r.id)
}

/// The ids of a list of rows.
pub fn contact_row_ids(rows: &Vec<ContactTable>) -> (r: Vec<i64>)
    ensures
        r@ == contact_ids(rows@),
{
    let mut r: Vec<i64> = Vec::new();
    let mut i: usize = 0;
    while i < rows.len()
        invariant
            i <= rows.len(),
            r@ == contact_ids(rows@.subrange(0, i as int)),
        decreases rows.len() - i,
    {
        r.push(rows[i].id);
        assert(r@ =~= contact_ids(rows@.subrange(0, i + 1)));
        i = i + 1;
    }
    assert(rows@.subrange(0, i as int) == rows@);
    r
}

impl Contact {
    /// The view of a row at the given level; no other row is read.
    pub fn from_table(contact: &ContactTable, fetch_level: FetchLevel) -> (r: Contact)
        ensures
            contact_view_of(r, *contact, fetch_level),
    {
        match fetch_level {
            FetchLevel::Default => Contact::Default(DefaultContact::from_table(contact)),
            FetchLevel::IdOnly => Contact::IdOnly(IdOnlyContact::from_table(contact)),
            FetchLevel::Compact => Contact::Compact(CompactContact::from_table(contact)),
        }
    }

    /// The views of the contacts with the given ids, from the rows that
    /// storage returned for them: one per id that has a row, in the order of
    /// the ids; an id with no row is left out.
    pub fn get_from_ids(ids: &Vec<i64>, rows: &Vec<ContactTable>, fetch_level: FetchLevel) -> (r:
        Vec<Contact>)
        ensures
            contacts_in_order(r@, found_ids(ids@, contact_ids(rows@)), rows@, fetch_level),
            r.len() <= ids.len(),
    {
        let row_ids = contact_row_ids(rows);
        let order = arrange_by_ids(ids, &row_ids);
        let ghost found = found_ids(ids@, contact_ids(rows@));
        assert(order@.map_values(|k: usize| row_ids@[k as int]).len() == order.len());
        let mut r: Vec<Contact> = Vec::new();
        let mut i: usize = 0;
        while i < order.len()
            invariant
                i <= order.len(),
                row_ids@ == contact_ids(rows@),
                found == found_ids(ids@, contact_ids(rows@)),
                forall|j: int| 0 <= j < order.len() ==> order@[j] < rows.len(),
                order@.map_values(|k: usize| row_ids@[k as int]) == found,
                contacts_in_order(r@, found.subrange(0, i as int), rows@, fetch_level),
            decreases order.len() - i,
        {
            let k = order[i];
            let ghost old_r = r@;
            let v = Contact::from_table(&rows[k], fetch_level);
            r.push(v);
            assert(found[i as int] == row_ids@[k as int]);
            assert(rows@[k as int].id == found[i as int]);
            assert forall|j: int| #![trigger r@[j]] 0 <= j < r@.len() implies exists|m: int|
                0 <= m < rows@.len() && rows@[m].id == found.subrange(0, i + 1)[j]
                    && contact_view_of(r@[j], rows@[m], fetch_level) by {
                if j < i {
                    assert(r@[j] == old_r[j]);
                    assert(found.subrange(0, i + 1)[j] == found.subrange(0, i as int)[j]);
                } else {
                    assert(contact_view_of(r@[j], rows@[k as int], fetch_level));
                }
            }
            i = i + 1;
        }
        assert(found.subrange(0, i as int) == found);
        proof {
            lemma_found_ids_len(ids@, contact_ids(rows@));
        }
        r
    }
}

/// `vs` holds, in order, one view at `level` of a row with each id of
/// `wanted`.
pub open spec fn contacts_in_order(
    vs: Seq<Contact>,
    wanted: Seq<i64>,
    rows: Seq<ContactTable>,
    level: FetchLevel,
) -> bool {
    &&& vs.len() == wanted.len()
    &&& forall|j: int|
        #![trigger vs[j]]
        0 <= j < vs.len() ==> exists|m: int|
            0 <= m < rows.len() && rows[m].id == wanted[j] && contact_view_of(
                vs[j],
                rows[m],
                level,
            )
}

/// A contact that is created and then read back at the default level shows
/// the fields that were sent: the same value, kind and audience flags, the
/// same English name, and the same Thai name where one was sent.
pub proof fn lemma_contact_round_trip(
    sent: CreateContact,
    stored: NewContactRow,
    row: ContactTable,
    read: DefaultContact,
)
    requires
        new_contact_row_of(stored, sent),
        row_stores(row, stored),
        default_contact_of(read, row),
    ensures
        read.value@ == sent.value@,
        read.contact_type == sent.contact_type,
        read.include_student == sent.include_students,
        read.include_teacher == sent.include_teachers,
        read.include_parents == sent.include_parents,
        read.name.en == match sent.name {
            Some(n) => n.en,
            None => None,
        },
        match sent.name {
            Some(n) => match n.th {
                Some(t) => read.name.th@ == t@,
                None => read.name.th@.len() == 0,
            },
            None => read.name.th@.len() == 0,
        },
{
}


/// Loads the contacts whose ids are in a list.
pub const CONTACTS_BY_IDS: &'static str = "SELECT id, created_at, name_th, name_en, value, type, include_students, include_teachers, include_parents FROM contacts WHERE id = ANY($1)";

impl ContactTable {
    /// Loads the contacts with the given ids, in no particular order.
    pub fn get_from_ids(ids: &Vec<i64>) -> (r: Statement)
        ensures
            r@.sql == CONTACTS_BY_IDS@,
            r@.params == seq![Bound::IntList(ids@)],
    {
        let r = statement(CONTACTS_BY_IDS, vec![SqlValue::IntList(copy_ids(ids))]);
        assert(r@.params =~= seq![Bound::IntList(ids@)]);
        r
    }
}

} // verus!
