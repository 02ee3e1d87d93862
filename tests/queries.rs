use club_registry::club_request::{
    ClubRequestSortableField, ClubRequestTable, QueryableClubRequest,
};
use club_registry::clubs::{
    ActivityDayHouse, ClubSortableField, ClubTable, QueryableClub, UpdatableClub,
};
use club_registry::common::{
    FilterConfig, MultiLangString, PaginationConfig, RequestType, SortingConfig,
};
use club_registry::sql::{Predicate, SqlValue};

const BASE: &str = "SELECT clubs.id, clubs.created_at, name_th, name_en, description_th, description_en, main_room, logo_url, background_color, accent_color, house, map_location FROM clubs INNER JOIN organizations ON clubs.organization_id = organizations.id";

fn empty_filter() -> QueryableClub {
    QueryableClub {
        id: None,
        name: None,
        description: None,
        main_room: None,
        logo_url: None,
        background_color: None,
        accent_color: None,
        house: None,
        map_location: None,
        staffs: None,
    }
}

fn request(
    filter: Option<FilterConfig<QueryableClub>>,
    sorting: Option<SortingConfig<ClubSortableField>>,
    pagination: Option<PaginationConfig>,
) -> RequestType<(), QueryableClub, ClubSortableField> {
    RequestType {
        data: None,
        pagination,
        filter,
        sorting,
        fetch_level: None,
        descendant_fetch_level: None,
    }
}

#[test]
fn unfiltered_club_query_defaults() {
    let q = ClubTable::construct_query_string(&request(None, None, None)).unwrap();
    assert_eq!(q.to_sql(), format!("{BASE} ORDER BY clubs.id ASC LIMIT $1 OFFSET $2"));
    assert_eq!(q.params.len(), 2);
    assert!(matches!(q.params[0], SqlValue::Int(50)));
    assert!(matches!(q.params[1], SqlValue::Int(0)));
    assert!(q.predicates.is_empty());
}

#[test]
fn club_filter_predicates_are_joined_with_and() {
    let mut d = empty_filter();
    d.name = Some("chess".to_string());
    d.house = Some(ActivityDayHouse::Sciurus);
    d.staffs = Some(vec![11, 12]);
    let f = FilterConfig { data: Some(d), q: Some("go".to_string()) };
    let sorting = SortingConfig {
        by: Some(vec![ClubSortableField::NameTh, ClubSortableField::House]),
        ascending: false,
    };
    let q = ClubTable::construct_query_string(&request(
        Some(f),
        Some(sorting),
        Some(PaginationConfig { p: 3, size: Some(10) }),
    ))
    .unwrap();
    assert_eq!(
        q.to_sql(),
        format!(
            "{BASE} WHERE (name_th ILIKE $1 OR name_en ILIKE $1 OR description_th ILIKE $1 OR description_en ILIKE $1 OR main_room ILIKE $1) AND (name_th ILIKE $2 OR name_en ILIKE $2) AND house = $3 AND clubs.id IN (SELECT club_id FROM club_staffs WHERE student_id IN ($4, $5)) ORDER BY name_th DESC, house DESC LIMIT $6 OFFSET $7"
        )
    );
    assert_eq!(q.predicates.len(), 4);
    assert_eq!(q.params.len(), 7);
    assert!(matches!(&q.params[0], SqlValue::Text(t) if t == "%go%"));
    assert!(matches!(&q.params[1], SqlValue::Text(t) if t == "%chess%"));
    assert!(matches!(q.params[2], SqlValue::House(ActivityDayHouse::Sciurus)));
    assert!(matches!(q.params[3], SqlValue::Int(11)));
    assert!(matches!(q.params[4], SqlValue::Int(12)));
    assert!(matches!(q.params[5], SqlValue::Int(10)));
    assert!(matches!(q.params[6], SqlValue::Int(20)));
    assert_eq!((q.limit_slot, q.offset_slot), (6, 7));
}

#[test]
fn every_club_field_gives_one_predicate() {
    let d = QueryableClub {
        id: Some(7),
        name: Some("a".to_string()),
        description: Some("b".to_string()),
        main_room: Some("c".to_string()),
        logo_url: Some("d".to_string()),
        background_color: Some("e".to_string()),
        accent_color: Some("f".to_string()),
        house: Some(ActivityDayHouse::Felis),
        map_location: Some(3),
        staffs: Some(vec![1]),
    };
    let f = FilterConfig { data: Some(d), q: None };
    let q = ClubTable::construct_query_string(&request(Some(f), None, None)).unwrap();
    assert_eq!(q.predicates.len(), 10);
    let mut slots = Vec::new();
    for p in &q.predicates {
        match p {
            Predicate::Like { slot, .. } | Predicate::Equals { slot, .. } => slots.push(*slot),
            Predicate::StaffedBy { slots: s } => slots.extend(s.iter().copied()),
        }
    }
    assert_eq!(slots, (1..=10).collect::<Vec<usize>>());
    assert_eq!((q.limit_slot, q.offset_slot), (11, 12));
}

#[test]
fn empty_staff_filter_matches_nothing() {
    let mut d = empty_filter();
    d.staffs = Some(vec![]);
    let q = ClubTable::construct_query_string(&request(
        Some(FilterConfig { data: Some(d), q: None }),
        None,
        None,
    ))
    .unwrap();
    assert_eq!(
        q.to_sql(),
        format!("{BASE} WHERE clubs.id IN (SELECT club_id FROM club_staffs WHERE student_id IN (NULL)) ORDER BY clubs.id ASC LIMIT $1 OFFSET $2")
    );
}

#[test]
fn empty_sort_list_sorts_by_id() {
    let sorting = SortingConfig { by: Some(vec![]), ascending: true };
    let q = ClubTable::construct_query_string(&request(None, Some(sorting), None)).unwrap();
    assert!(q.to_sql().ends_with("ORDER BY clubs.id ASC LIMIT $1 OFFSET $2"));
}

#[test]
fn invalid_page_is_refused() {
    let r = request(None, None, Some(PaginationConfig { p: 0, size: None }));
    assert!(ClubTable::construct_query_string(&r).is_none());
}

#[test]
fn join_request_query() {
    let d = QueryableClubRequest {
        id: None,
        club_id: Some(5),
        student_id: Some(42),
        year: None,
        membership_status: None,
    };
    let r: RequestType<(), QueryableClubRequest, ClubRequestSortableField> = RequestType {
        data: None,
        pagination: Some(PaginationConfig { p: 2, size: Some(25) }),
        filter: Some(FilterConfig { data: Some(d), q: Some("ignored".to_string()) }),
        sorting: Some(SortingConfig {
            by: Some(vec![ClubRequestSortableField::Year]),
            ascending: true,
        }),
        fetch_level: None,
        descendant_fetch_level: None,
    };
    let q = ClubRequestTable::construct_query_string(&r).unwrap();
    assert_eq!(
        q.to_sql(),
        "SELECT id, club_id, student_id, year, membership_status, created_at FROM club_members WHERE club_id = $1 AND student_id = $2 ORDER BY year ASC LIMIT $3 OFFSET $4"
    );
    assert!(matches!(q.params[0], SqlValue::Uuid(5)));
    assert!(matches!(q.params[1], SqlValue::Int(42)));
    assert!(matches!(q.params[2], SqlValue::Int(25)));
    assert!(matches!(q.params[3], SqlValue::Int(25)));
}

fn no_update() -> UpdatableClub {
    UpdatableClub {
        name: None,
        description: None,
        main_room: None,
        logo_url: None,
        background_color: None,
        accent_color: None,
        house: None,
        map_location: None,
    }
}

#[test]
fn empty_update_has_no_statement() {
    let t = no_update().to_table();
    assert!(ClubTable::update_by_id(9, &t).is_empty());
}

#[test]
fn update_touches_only_given_fields() {
    let mut u = no_update();
    u.name = Some(MultiLangString::new(None, "ชมรม".to_string()));
    u.background_color = Some("#fff".to_string());
    u.map_location = Some(4);
    let s = ClubTable::update_by_id(9, &u.to_table());
    assert_eq!(s.len(), 2);
    assert_eq!(s[0].to_sql(), "UPDATE clubs SET background_color = $1, map_location = $2 WHERE id = $3");
    assert!(matches!(&s[0].params[0], SqlValue::Text(t) if t == "#fff"));
    assert!(matches!(s[0].params[1], SqlValue::Int(4)));
    assert!(matches!(s[0].params[2], SqlValue::Uuid(9)));
    assert_eq!(
        s[1].to_sql(),
        "UPDATE organizations SET name_th = $1 WHERE id = (SELECT organization_id FROM clubs WHERE id = $2)"
    );
    assert!(matches!(&s[1].params[0], SqlValue::Text(t) if t == "ชมรม"));
}

#[test]
fn relation_statements() {
    let m = ClubTable::get_members(5, Some(2023));
    assert_eq!(
        m.sql,
        "SELECT student_id FROM club_members WHERE club_id = $1 AND year = $2 AND membership_status = 'approved'"
    );
    assert!(matches!(m.params[..], [SqlValue::Uuid(5), SqlValue::Int(2023)]));
    let s = ClubTable::get_staffs(5, None);
    assert!(matches!(s.params[..], [SqlValue::Uuid(5), SqlValue::Int(_)]));
    let c = club_registry::contacts::ContactTable::get_from_ids(&vec![3, 1]);
    assert!(matches!(&c.params[..], [SqlValue::IntList(v)] if v == &vec![3, 1]));
}

#[test]
fn join_request_insert_statement() {
    let r = club_registry::club_request::CreatableClubRequest::pending(5, 42, 2023);
    let st = ClubRequestTable::create(&r);
    assert_eq!(
        st.sql,
        "INSERT INTO club_members (club_id, student_id, year, membership_status) VALUES ($1, $2, $3, $4) RETURNING id"
    );
    assert!(matches!(
        st.params[..],
        [SqlValue::Uuid(5), SqlValue::Int(42), SqlValue::Int(2023), SqlValue::Status(_)]
    ));
    let mut r = r;
    r.year = None;
    assert_eq!(ClubRequestTable::create(&r).params.len(), 3);
}
