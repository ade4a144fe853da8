use lex_catalog::error::Error;
use lex_catalog::filter::{BroadType, Direction, OrderKey, Page, SearchParams};
use lex_catalog::query::{Predicate, QueryPlan, Search, SqlValue};

fn empty() -> SearchParams {
    SearchParams {
        start: None,
        amount: None,
        order: None,
        concise: false,
        user: None,
        dependencies: None,
        comments: None,
        votes: None,
        creator: None,
        broad_category: None,
        lex_category: None,
        lex_type: None,
        broad_type: None,
        group: None,
        order_by: None,
        query: None,
        exclude_notcert: None,
        exclude_locked: None,
    }
}

fn s(v: &str) -> Option<String> {
    Some(v.to_string())
}

fn compose(p: SearchParams) -> QueryPlan {
    match Search::build_query(p) {
        Ok(q) => q,
        Err(e) => panic!("unexpected error {:?}", e),
    }
}

#[test]
fn no_filter_is_malformed() {
    assert!(matches!(Search::build_query(empty()), Err(Error::MalformedRequest)));
}

#[test]
fn paging_and_order_alone_are_malformed() {
    let mut p = empty();
    p.start = s("10");
    p.amount = s("20");
    p.order = s("asc");
    p.concise = true;
    assert!(matches!(Search::build_query(p), Err(Error::MalformedRequest)));
}

#[test]
fn creator_id_is_a_bound_parameter() {
    let mut p = empty();
    p.creator = s("42");
    let plan = compose(p);
    assert_eq!(plan.predicates, vec![Predicate::Creator(42), Predicate::Active]);
    let q = plan.to_sql();
    assert_eq!(
        q.text,
        "SELECT * FROM LEX_LOTS WHERE USRID = ? AND ISACTIVE = 'T' ORDER BY LOTID ASC LIMIT ?, ?"
    );
    assert_eq!(q.params, vec![SqlValue::Int(42), SqlValue::Int(0), SqlValue::Int(15)]);
}

#[test]
fn every_numeric_dimension_binds_its_id() {
    let mut p = empty();
    p.creator = s("1");
    p.lex_category = s("2");
    p.lex_type = s("+3");
    p.group = s("4");
    let plan = compose(p);
    assert_eq!(
        plan.predicates,
        vec![
            Predicate::Creator(1),
            Predicate::LexCategory(2),
            Predicate::LexType(3),
            Predicate::Group(4),
            Predicate::Active,
        ]
    );
    let q = plan.to_sql();
    assert_eq!(
        q.text,
        "SELECT * FROM LEX_LOTS WHERE USRID = ? AND CATID = ? AND TYPEID = ? AND LOTGROUP = ? AND ISACTIVE = 'T' ORDER BY LOTID ASC LIMIT ?, ?"
    );
    assert_eq!(
        q.params,
        vec![
            SqlValue::Int(1),
            SqlValue::Int(2),
            SqlValue::Int(3),
            SqlValue::Int(4),
            SqlValue::Int(0),
            SqlValue::Int(15),
        ]
    );
}

#[test]
fn select_sentinel_and_garbage_add_no_predicate() {
    let mut p = empty();
    p.creator = s("Select");
    p.lex_category = s("-5");
    p.lex_type = s("12abc");
    p.group = s("");
    let plan = compose(p);
    assert_eq!(plan.predicates, vec![Predicate::Active]);
}

#[test]
fn free_text_with_sql_metacharacters_stays_a_value() {
    let mut benign = empty();
    benign.query = s("park");
    benign.creator = s("7");
    let mut hostile = empty();
    hostile.query = s("' OR '1'='1");
    hostile.creator = s("7");
    let a = compose(benign);
    let b = compose(hostile);
    assert_eq!(a.predicates.len(), b.predicates.len());
    assert_eq!(b.predicates[0], Predicate::Creator(7));
    assert_eq!(b.predicates[1], Predicate::NameContains("' OR '1'='1".to_string()));
    let qa = a.to_sql();
    let qb = b.to_sql();
    assert_eq!(qa.text, qb.text);
    assert!(!qb.text.contains("'1'='1"));
    assert_eq!(qb.params[1], SqlValue::Text("' OR '1'='1".to_string()));
}

#[test]
fn free_text_select_is_searched_for() {
    let mut p = empty();
    p.query = s("Select");
    assert_eq!(
        compose(p).predicates,
        vec![Predicate::NameContains("Select".to_string()), Predicate::Active]
    );
}

#[test]
fn empty_free_text_adds_no_predicate() {
    let mut p = empty();
    p.query = s("");
    assert_eq!(compose(p).predicates, vec![Predicate::Active]);
}

#[test]
fn broad_category_is_a_text_parameter() {
    let mut p = empty();
    p.broad_category = s("250_MXC_Maps.gif");
    let q = compose(p).to_sql();
    assert_eq!(
        q.text,
        "SELECT * FROM LEX_LOTS WHERE MAXISCAT = ? AND ISACTIVE = 'T' ORDER BY LOTID ASC LIMIT ?, ?"
    );
    assert_eq!(q.params[0], SqlValue::Text("250_MXC_Maps.gif".to_string()));
}

#[test]
fn broad_type_binds_its_tags() {
    let mut p = empty();
    p.broad_type = s("lotbat");
    let lotbat = compose(p);
    assert_eq!(lotbat.predicates[0], Predicate::BroadType(BroadType::LotBat));
    let q = lotbat.to_sql();
    assert_eq!(q.params.len(), 14);
    assert_eq!(q.params[0], SqlValue::Text("250_MX_Agric.gif".to_string()));
    assert_eq!(q.params[11], SqlValue::Text("250_MXC_Military.gif".to_string()));
    assert!(q.text.contains("MAXISCAT IN (?, ?, ?, ?, ?, ?, ?, ?, ?, ?, ?, ?)"));

    let mut p = empty();
    p.broad_type = s("other");
    let q = compose(p).to_sql();
    assert_eq!(
        q.params[..2].to_vec(),
        vec![
            SqlValue::Text("250_MXC_Tools.gif".to_string()),
            SqlValue::Text("250_MXC_FilesDocs.gif".to_string()),
        ]
    );
}

#[test]
fn unknown_broad_type_adds_no_predicate() {
    let mut p = empty();
    p.broad_type = s("spaceship");
    assert_eq!(compose(p).predicates, vec![Predicate::Active]);
}

#[test]
fn exclusion_flags_need_exactly_true() {
    let mut p = empty();
    p.exclude_locked = s("true");
    p.exclude_notcert = s("true");
    let q = compose(p).to_sql();
    assert_eq!(
        q.text,
        "SELECT * FROM LEX_LOTS WHERE ADMLOCK = 'F' AND USRLOCK = 'F' AND ACCLVL > 0 AND ISACTIVE = 'T' ORDER BY LOTID ASC LIMIT ?, ?"
    );
    let mut p = empty();
    p.exclude_locked = s("True");
    p.exclude_notcert = s("false");
    assert_eq!(compose(p).predicates, vec![Predicate::Active]);
}

#[test]
fn pagination_defaults() {
    let mut p = empty();
    p.creator = s("1");
    assert_eq!(compose(p).page, Page { offset: 0, amount: 15 });
}

#[test]
fn pagination_unreadable_values_use_defaults() {
    let mut p = empty();
    p.creator = s("1");
    p.start = s("-3");
    p.amount = s("lots");
    assert_eq!(compose(p).page, Page { offset: 0, amount: 15 });
}

#[test]
fn page_size_is_clamped() {
    let mut p = empty();
    p.creator = s("1");
    p.start = s("30");
    p.amount = s("100000");
    let clamped = compose(p);
    assert_eq!(clamped.page, Page { offset: 30, amount: 100 });
    let q = clamped.to_sql();
    assert_eq!(q.params[q.params.len() - 2..].to_vec(), vec![SqlValue::Int(30), SqlValue::Int(100)]);

    let mut p = empty();
    p.creator = s("1");
    p.amount = s("100");
    assert_eq!(compose(p).page.amount, 100);
}

#[test]
fn unknown_order_key_orders_by_id_ascending() {
    let mut p = empty();
    p.order_by = s("sideways");
    let plan = compose(p);
    assert_eq!(plan.order, OrderKey::Id);
    assert_eq!(plan.direction, Direction::Ascending);
    assert_eq!(plan.predicates, vec![Predicate::Active]);
    assert_eq!(
        plan.to_sql().text,
        "SELECT * FROM LEX_LOTS WHERE ISACTIVE = 'T' ORDER BY LOTID ASC LIMIT ?, ?"
    );
}

#[test]
fn order_keys() {
    let cases = [
        ("download", OrderKey::Downloads, " ORDER BY LOTDOWNLOADS "),
        ("popular", OrderKey::Downloads, " ORDER BY LOTDOWNLOADS "),
        ("update", OrderKey::Updated, " ORDER BY LASTUPDATE "),
        ("recent", OrderKey::Id, " ORDER BY LOTID "),
        ("random", OrderKey::Random, " ORDER BY RAND() "),
    ];
    for (key, expected, fragment) in cases {
        let mut p = empty();
        p.order_by = s(key);
        let plan = compose(p);
        assert_eq!(plan.order, expected);
        assert!(plan.to_sql().text.contains(fragment));
    }
}

#[test]
fn order_direction() {
    let cases = [
        ("asc", Direction::Ascending),
        ("ASC", Direction::Ascending),
        ("Desc", Direction::Descending),
        ("upward", Direction::Descending),
    ];
    for (dir, expected) in cases {
        let mut p = empty();
        p.creator = s("1");
        p.order = s(dir);
        assert_eq!(compose(p).direction, expected);
    }
    let mut p = empty();
    p.creator = s("1");
    p.order = s("desc");
    assert!(compose(p).to_sql().text.ends_with("ORDER BY LOTID DESC LIMIT ?, ?"));
}

#[test]
fn concise_selects_id_and_name() {
    let mut p = empty();
    p.group = s("3");
    p.concise = true;
    assert_eq!(
        compose(p).to_sql().text,
        "SELECT LOTID, LOTNAME FROM LEX_LOTS WHERE LOTGROUP = ? AND ISACTIVE = 'T' ORDER BY LOTID ASC LIMIT ?, ?"
    );
}

#[test]
fn dimension_order_is_fixed() {
    let mut p = empty();
    p.exclude_notcert = s("true");
    p.exclude_locked = s("true");
    p.query = s("bridge");
    p.group = s("9");
    p.broad_type = s("map");
    p.lex_type = s("8");
    p.lex_category = s("7");
    p.broad_category = s("tag");
    p.creator = s("6");
    assert_eq!(
        compose(p).predicates,
        vec![
            Predicate::Creator(6),
            Predicate::BroadCategory("tag".to_string()),
            Predicate::LexCategory(7),
            Predicate::LexType(8),
            Predicate::BroadType(BroadType::Maps),
            Predicate::Group(9),
            Predicate::NameContains("bridge".to_string()),
            Predicate::NotLocked,
            Predicate::Certified,
            Predicate::Active,
        ]
    );
}

#[test]
fn error_status_codes() {
    assert_eq!(Error::MalformedRequest.status_code(), 400);
    assert_eq!(Error::Unauthorized.status_code(), 401);
    assert_eq!(Error::Forbidden.status_code(), 403);
    assert_eq!(Error::NotFound.status_code(), 404);
    assert_eq!(Error::StoreUnavailable.status_code(), 500);
    assert_eq!(Error::MalformedRequest.message(), "MalformedRequest");
}
