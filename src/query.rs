//! The query composer: a search request becomes a plan of predicates, an
//! order and a page, and a plan becomes one parameterized `SELECT`.
use vstd::prelude::*;
use crate::error::Error;
use crate::text::{is_digit, parse_u64_spec, unsigned_digits};
use crate::filter::{
    broad_type_filter, broad_type_filter_spec, category_filter, category_filter_spec, direction,
    direction_spec, flag, flag_spec, id_filter, id_filter_spec, name_filter, name_filter_spec,
    order_key, order_key_spec, page, page_spec, view_opt, BroadType, Direction, OrderKey, Page,
    DEFAULT_PAGE_SIZE, MAX_PAGE_SIZE,
    SearchParams,
};

verus! {

/// One conjunct of a listing's `WHERE` clause. Client values travel as
/// bound parameters, never as SQL text.
#[derive(Clone, Debug, PartialEq, Eq)]
pub enum Predicate {
    Creator(u64),
    BroadCategory(String),
    LexCategory(u64),
    LexType(u64),
    BroadType(BroadType),
    Group(u64),
    NameContains(String),
    NotLocked,
    Certified,
    Active,
}

/// What a predicate means, with its text values as character sequences.
pub enum PredicateView {
    Creator(u64),
    BroadCategory(Seq<char>),
    LexCategory(u64),
    LexType(u64),
    BroadType(BroadType),
    Group(u64),
    NameContains(Seq<char>),
    NotLocked,
    Certified,
    Active,
}

impl View for Predicate {
    type V = PredicateView;

    open spec fn view(&self) -> PredicateView {
        match self {
            Predicate::Creator(n) => PredicateView::Creator(*n),
            Predicate::BroadCategory(s) => PredicateView::BroadCategory(s@),
            Predicate::LexCategory(n) => PredicateView::LexCategory(*n),
            Predicate::LexType(n) => PredicateView::LexType(*n),
            Predicate::BroadType(t) => PredicateView::BroadType(*t),
            Predicate::Group(n) => PredicateView::Group(*n),
            Predicate::NameContains(s) => PredicateView::NameContains(s@),
            Predicate::NotLocked => PredicateView::NotLocked,
            Predicate::Certified => PredicateView::Certified,
            Predicate::Active => PredicateView::Active,
        }
    }
}

/// A composed listing: the predicates are a conjunction, in dimension order.
pub struct QueryPlan {
    pub predicates: Vec<Predicate>,
    pub order: OrderKey,
    pub direction: Direction,
    pub page: Page,
    pub concise: bool,
}

pub struct QueryPlanView {
    pub predicates: Seq<PredicateView>,
    pub order: OrderKey,
    pub direction: Direction,
    pub page: Page,
    pub concise: bool,
}

pub open spec fn predicate_views(v: Seq<Predicate>) -> Seq<PredicateView> {
    v.map_values(|p: Predicate| p@)
}

impl View for QueryPlan {
    type V = QueryPlanView;

    open spec fn view(&self) -> QueryPlanView {
        QueryPlanView {
            predicates: predicate_views(self.predicates@),
            order: self.order,
            direction: self.direction,
            page: self.page,
            concise: self.concise,
        }
    }
}

/// A value bound to one `?` placeholder.
#[derive(Clone, Debug, PartialEq, Eq)]
pub enum SqlValue {
    Int(u64),
    Text(String),
}

pub enum SqlValueView {
    Int(u64),
    Text(Seq<char>),
}

impl View for SqlValue {
    type V = SqlValueView;

    open spec fn view(&self) -> SqlValueView {
        match self {
            SqlValue::Int(n) => SqlValueView::Int(*n),
            SqlValue::Text(s) => SqlValueView::Text(s@),
        }
    }
}

pub open spec fn value_views(v: Seq<SqlValue>) -> Seq<SqlValueView> {
    v.map_values(|x: SqlValue| x@)
}

/// A statement with `?` placeholders and the values bound to them, in order.
pub struct SqlQuery {
    pub text: String,
    pub params: Vec<SqlValue>,
}

/// Whether the request names at least one filtering dimension. Pagination,
/// direction and the concise flag do not count.
pub open spec fn has_filter(p: SearchParams) -> bool {
    p.creator is Some || p.broad_category is Some || p.lex_category is Some
        || p.lex_type is Some || p.broad_type is Some || p.group is Some
        || p.order_by is Some || p.query is Some || p.exclude_notcert is Some
        || p.exclude_locked is Some
}

/// No predicate for an absent dimension, one for a present one.
pub open spec fn opt(o: Option<PredicateView>) -> Seq<PredicateView> {
    match o {
        Some(x) => seq![x],
        None => seq![],
    }
}

#[verifier::opaque]
pub open spec fn creator_predicate(p: SearchParams) -> Option<PredicateView> {
    match id_filter_spec(view_opt(p.creator)) {
        Some(n) => Some(PredicateView::Creator(n)),
        None => None,
    }
}

#[verifier::opaque]
pub open spec fn broad_category_predicate(p: SearchParams) -> Option<PredicateView> {
    match category_filter_spec(view_opt(p.broad_category)) {
        Some(s) => Some(PredicateView::BroadCategory(s)),
        None => None,
    }
}

#[verifier::opaque]
pub open spec fn lex_category_predicate(p: SearchParams) -> Option<PredicateView> {
    match id_filter_spec(view_opt(p.lex_category)) {
        Some(n) => Some(PredicateView::LexCategory(n)),
        None => None,
    }
}

#[verifier::opaque]
pub open spec fn lex_type_predicate(p: SearchParams) -> Option<PredicateView> {
    match id_filter_spec(view_opt(p.lex_type)) {
        Some(n) => Some(PredicateView::LexType(n)),
        None => None,
    }
}

#[verifier::opaque]
pub open spec fn broad_type_predicate(p: SearchParams) -> Option<PredicateView> {
    match broad_type_filter_spec(view_opt(p.broad_type)) {
        Some(t) => Some(PredicateView::BroadType(t)),
        None => None,
    }
}

#[verifier::opaque]
pub open spec fn group_predicate(p: SearchParams) -> Option<PredicateView> {
    match id_filter_spec(view_opt(p.group)) {
        Some(n) => Some(PredicateView::Group(n)),
        None => None,
    }
}

#[verifier::opaque]
pub open spec fn name_predicate(p: SearchParams) -> Option<PredicateView> {
    match name_filter_spec(view_opt(p.query)) {
        Some(s) => Some(PredicateView::NameContains(s)),
        None => None,
    }
}

#[verifier::opaque]
pub open spec fn locked_predicate(p: SearchParams) -> Option<PredicateView> {
    if flag_spec(view_opt(p.exclude_locked)) {
        Some(PredicateView::NotLocked)
    } else {
        None
    }
}

#[verifier::opaque]
pub open spec fn certified_predicate(p: SearchParams) -> Option<PredicateView> {
    if flag_spec(view_opt(p.exclude_notcert)) {
        Some(PredicateView::Certified)
    } else {
        None
    }
}

/// The conjunction a request asks for, in dimension order, always ending
/// with the restriction to active lots.
pub open spec fn predicates_spec(p: SearchParams) -> Seq<PredicateView> {
    opt(creator_predicate(p)) + opt(broad_category_predicate(p)) + opt(lex_category_predicate(p))
        + opt(lex_type_predicate(p)) + opt(broad_type_predicate(p)) + opt(group_predicate(p))
        + opt(name_predicate(p)) + opt(locked_predicate(p)) + opt(certified_predicate(p))
        + seq![PredicateView::Active]
}

/// The plan a request composes to, when it names a filter.
pub open spec fn plan_spec(p: SearchParams) -> QueryPlanView {
    QueryPlanView {
        predicates: predicates_spec(p),
        order: order_key_spec(view_opt(p.order_by)),
        direction: direction_spec(view_opt(p.order)),
        page: page_spec(view_opt(p.start), view_opt(p.amount)),
        concise: p.concise,
    }
}

pub open spec fn predicate_text(p: PredicateView) -> Seq<char> {
    match p {
        PredicateView::Creator(_) => "USRID = ?"@,
        PredicateView::BroadCategory(_) => "MAXISCAT = ?"@,
        PredicateView::LexCategory(_) => "CATID = ?"@,
        PredicateView::LexType(_) => "TYPEID = ?"@,
        PredicateView::BroadType(t) => match t {
            BroadType::LotBat => "MAXISCAT IN (?, ?, ?, ?, ?, ?, ?, ?, ?, ?, ?, ?)"@,
            BroadType::Other => "MAXISCAT IN (?, ?)"@,
            _ => "MAXISCAT = ?"@,
        },
        PredicateView::Group(_) => "LOTGROUP = ?"@,
        PredicateView::NameContains(_) => "INSTR(UPPER(LOTNAME), UPPER(?)) > 0"@,
        PredicateView::NotLocked => "ADMLOCK = 'F' AND USRLOCK = 'F'"@,
        PredicateView::Certified => "ACCLVL > 0"@,
        PredicateView::Active => "ISACTIVE = 'T'"@,
    }
}

/// The category-image tags that make up a broad lot type.
pub open spec fn broad_type_tags(t: BroadType) -> Seq<SqlValueView> {
    match t {
        BroadType::LotBat => seq![
            SqlValueView::Text("250_MX_Agric.gif"@),
            SqlValueView::Text("250_MX_Civic.gif"@),
            SqlValueView::Text("250_MX_Comm.gif"@),
            SqlValueView::Text("250_MX_Ind.gif"@),
            SqlValueView::Text("250_MX_Lark.gif"@),
            SqlValueView::Text("250_MX_Parks.gif"@),
            SqlValueView::Text("250_MX_Res.gif"@),
            SqlValueView::Text("250_MX_Reward.gif"@),
            SqlValueView::Text("250_MX_Transport.gif"@),
            SqlValueView::Text("250_MX_Utility.gif"@),
            SqlValueView::Text("250_MXC_WFK-Canals.gif"@),
            SqlValueView::Text("250_MXC_Military.gif"@),
        ],
        BroadType::Dependency => seq![SqlValueView::Text("250_MXC_Dependency.gif"@)],
        BroadType::Maps => seq![SqlValueView::Text("250_MXC_Maps.gif"@)],
        BroadType::Mod => seq![SqlValueView::Text("250_MXC_Modd.gif"@)],
        BroadType::Other => seq![
            SqlValueView::Text("250_MXC_Tools.gif"@),
            SqlValueView::Text("250_MXC_FilesDocs.gif"@),
        ],
    }
}

pub open spec fn predicate_params(p: PredicateView) -> Seq<SqlValueView> {
    match p {
        PredicateView::Creator(n) => seq![SqlValueView::Int(n)],
        PredicateView::BroadCategory(s) => seq![SqlValueView::Text(s)],
        PredicateView::LexCategory(n) => seq![SqlValueView::Int(n)],
        PredicateView::LexType(n) => seq![SqlValueView::Int(n)],
        PredicateView::BroadType(t) => broad_type_tags(t),
        PredicateView::Group(n) => seq![SqlValueView::Int(n)],
        PredicateView::NameContains(s) => seq![SqlValueView::Text(s)],
        _ => seq![],
    }
}

/// The predicates joined by ` AND `.
pub open spec fn where_text(ps: Seq<PredicateView>) -> Seq<char>
    decreases ps.len(),
{
    if ps.len() == 0 {
        seq![]
    } else if ps.len() == 1 {
        predicate_text(ps[0])
    } else {
        where_text(ps.drop_last()) + " AND "@ + predicate_text(ps.last())
    }
}

/// The values the predicates bind, in order.
pub open spec fn where_params(ps: Seq<PredicateView>) -> Seq<SqlValueView>
    decreases ps.len(),
{
    if ps.len() == 0 {
        seq![]
    } else {
        where_params(ps.drop_last()) + predicate_params(ps.last())
    }
}

pub open spec fn columns_text(concise: bool) -> Seq<char> {
    if concise {
        "SELECT LOTID, LOTNAME FROM LEX_LOTS WHERE "@
    } else {
        "SELECT * FROM LEX_LOTS WHERE "@
    }
}

pub open spec fn order_text(k: OrderKey, d: Direction) -> Seq<char> {
    (match k {
        OrderKey::Downloads => " ORDER BY LOTDOWNLOADS"@,
        OrderKey::Updated => " ORDER BY LASTUPDATE"@,
        OrderKey::Id => " ORDER BY LOTID"@,
        OrderKey::Random => " ORDER BY RAND()"@,
    }) + (match d {
        Direction::Ascending => " ASC LIMIT ?, ?"@,
        Direction::Descending => " DESC LIMIT ?, ?"@,
    })
}

/// The statement text of a plan: it depends on which predicates are present
/// and on the order, never on a client-supplied value.
pub open spec fn sql_text(plan: QueryPlanView) -> Seq<char> {
    columns_text(plan.concise) + where_text(plan.predicates) + order_text(plan.order, plan.direction)
}

pub open spec fn sql_params(plan: QueryPlanView) -> Seq<SqlValueView> {
    where_params(plan.predicates) + seq![
        SqlValueView::Int(plan.page.offset),
        SqlValueView::Int(plan.page.amount),
    ]
}

fn push_predicate(v: &mut Vec<Predicate>, p: Predicate)
    ensures
        predicate_views(final(v)@) == predicate_views(old(v)@).push(p@),
{
    v.push(p);
    assert(predicate_views(v@) =~= predicate_views(old(v)@).push(p@));
}

fn text_value(s: &str) -> (r: SqlValue)
    ensures
        r@ == SqlValueView::Text(s@),
{
    SqlValue::Text(s.to_string())
}

fn push_value(v: &mut Vec<SqlValue>, x: SqlValue)
    ensures
        value_views(final(v)@) == value_views(old(v)@).push(x@),
{
    v.push(x);
    assert(value_views(v@) =~= value_views(old(v)@).push(x@));
}

fn push_tags(v: &mut Vec<SqlValue>, t: BroadType)
    ensures
        value_views(final(v)@) == value_views(old(v)@) + broad_type_tags(t),
{
    let ghost start = value_views(v@);
    match t {
        BroadType::LotBat => {
            push_value(v, text_value("250_MX_Agric.gif"));
            push_value(v, text_value("250_MX_Civic.gif"));
            push_value(v, text_value("250_MX_Comm.gif"));
            push_value(v, text_value("250_MX_Ind.gif"));
            push_value(v, text_value("250_MX_Lark.gif"));
            push_value(v, text_value("250_MX_Parks.gif"));
            push_value(v, text_value("250_MX_Res.gif"));
            push_value(v, text_value("250_MX_Reward.gif"));
            push_value(v, text_value("250_MX_Transport.gif"));
            push_value(v, text_value("250_MX_Utility.gif"));
            push_value(v, text_value("250_MXC_WFK-Canals.gif"));
            push_value(v, text_value("250_MXC_Military.gif"));
        },
        BroadType::Dependency => {
            push_value(v, text_value("250_MXC_Dependency.gif"));
        },
        BroadType::Maps => {
            push_value(v, text_value("250_MXC_Maps.gif"));
        },
        BroadType::Mod => {
            push_value(v, text_value("250_MXC_Modd.gif"));
        },
        BroadType::Other => {
            push_value(v, text_value("250_MXC_Tools.gif"));
            push_value(v, text_value("250_MXC_FilesDocs.gif"));
        },
    }
    assert(value_views(v@) =~= start + broad_type_tags(t));
}

impl Predicate {
    /// The SQL fragment of this predicate, with `?` where its values go.
    pub fn sql(&self) -> (r: &'static str)
        ensures
            r@ == predicate_text(self@),
    {
        match self {
            Predicate::Creator(_) => "USRID = ?",
            Predicate::BroadCategory(_) => "MAXISCAT = ?",
            Predicate::LexCategory(_) => "CATID = ?",
            Predicate::LexType(_) => "TYPEID = ?",
            Predicate::BroadType(t) => match t {
                BroadType::LotBat => "MAXISCAT IN (?, ?, ?, ?, ?, ?, ?, ?, ?, ?, ?, ?)",
                BroadType::Other => "MAXISCAT IN (?, ?)",
                _ => "MAXISCAT = ?",
            },
            Predicate::Group(_) => "LOTGROUP = ?",
            Predicate::NameContains(_) => "INSTR(UPPER(LOTNAME), UPPER(?)) > 0",
            Predicate::NotLocked => "ADMLOCK = 'F' AND USRLOCK = 'F'",
            Predicate::Certified => "ACCLVL > 0",
            Predicate::Active => "ISACTIVE = 'T'",
        }
    }

    /// Appends the values this predicate binds.
    pub fn bind(&self, out: &mut Vec<SqlValue>)
        ensures
            value_views(final(out)@) == value_views(old(out)@) + predicate_params(self@),
    {
        let ghost start = value_views(out@);
        match self {
            Predicate::Creator(n) => push_value(out, SqlValue::Int(*n)),
            Predicate::BroadCategory(s) => push_value(out, SqlValue::Text(s.clone())),
            Predicate::LexCategory(n) => push_value(out, SqlValue::Int(*n)),
            Predicate::LexType(n) => push_value(out, SqlValue::Int(*n)),
            Predicate::BroadType(t) => push_tags(out, *t),
            Predicate::Group(n) => push_value(out, SqlValue::Int(*n)),
            Predicate::NameContains(s) => push_value(out, SqlValue::Text(s.clone())),
            _ => {},
        }
        assert(value_views(out@) =~= start + predicate_params(self@));
    }
}

impl QueryPlan {
    /// Renders the plan as one `SELECT` with its bound values.
    pub fn to_sql(&self) -> (r: SqlQuery)
        ensures
            r.text@ == sql_text(self@),
            value_views(r.params@) == sql_params(self@),
    {
        let mut text = if self.concise {
            "SELECT LOTID, LOTNAME FROM LEX_LOTS WHERE ".to_string()
        } else {
            "SELECT * FROM LEX_LOTS WHERE ".to_string()
        };
        let mut params: Vec<SqlValue> = Vec::new();
        let ghost ps = predicate_views(self.predicates@);
        let n = self.predicates.len();
        let mut i: usize = 0;
        while i < n
            invariant
                n == self.predicates@.len(),
                ps == predicate_views(self.predicates@),
                i <= n,
                text@ == columns_text(self.concise) + where_text(ps.subrange(0, i as int)),
                value_views(params@) == where_params(ps.subrange(0, i as int)),
            decreases n - i,
        {
            let p = &self.predicates[i];
            let ghost before = ps.subrange(0, i as int);
            let ghost after = ps.subrange(0, i + 1);
            assert(after.drop_last() =~= before);
            assert(after.last() == p@);
            if i > 0 {
                text.append(" AND ");
            }
            text.append(p.sql());
            p.bind(&mut params);
            assert(text@ =~= columns_text(self.concise) + where_text(after));
            assert(value_views(params@) =~= where_params(after));
            i += 1;
        }
        assert(ps.subrange(0, n as int) =~= ps);
        match self.order {
            OrderKey::Downloads => text.append(" ORDER BY LOTDOWNLOADS"),
            OrderKey::Updated => text.append(" ORDER BY LASTUPDATE"),
            OrderKey::Id => text.append(" ORDER BY LOTID"),
            OrderKey::Random => text.append(" ORDER BY RAND()"),
        }
        match self.direction {
            Direction::Ascending => text.append(" ASC LIMIT ?, ?"),
            Direction::Descending => text.append(" DESC LIMIT ?, ?"),
        }
        let ghost before_page = value_views(params@);
        push_value(&mut params, SqlValue::Int(self.page.offset));
        push_value(&mut params, SqlValue::Int(self.page.amount));
        assert(text@ =~= sql_text(self@));
        assert(value_views(params@) =~= sql_params(self@));
        SqlQuery { text, params }
    }
}

pub open spec fn opt_view(o: Option<Predicate>) -> Option<PredicateView> {
    match o {
        Some(p) => Some(p@),
        None => None,
    }
}

fn push_opt(v: &mut Vec<Predicate>, o: Option<Predicate>)
    ensures
        predicate_views(final(v)@) == predicate_views(old(v)@) + opt(opt_view(o)),
{
    let ghost start = predicate_views(v@);
    if let Some(p) = o {
        v.push(p);
    }
    assert(predicate_views(v@) =~= start + opt(opt_view(o)));
}

fn creator_of(p: &SearchParams) -> (r: Option<Predicate>)
    ensures
        opt_view(r) == creator_predicate(*p),
{
    reveal(creator_predicate);
    match id_filter(&p.creator) {
        Some(n) => Some(Predicate::Creator(n)),
        None => None,
    }
}

fn broad_category_of(p: &SearchParams) -> (r: Option<Predicate>)
    ensures
        opt_view(r) == broad_category_predicate(*p),
{
    reveal(broad_category_predicate);
    match category_filter(&p.broad_category) {
        Some(s) => Some(Predicate::BroadCategory(s)),
        None => None,
    }
}

fn lex_category_of(p: &SearchParams) -> (r: Option<Predicate>)
    ensures
        opt_view(r) == lex_category_predicate(*p),
{
    reveal(lex_category_predicate);
    match id_filter(&p.lex_category) {
        Some(n) => Some(Predicate::LexCategory(n)),
        None => None,
    }
}

fn lex_type_of(p: &SearchParams) -> (r: Option<Predicate>)
    ensures
        opt_view(r) == lex_type_predicate(*p),
{
    reveal(lex_type_predicate);
    match id_filter(&p.lex_type) {
        Some(n) => Some(Predicate::LexType(n)),
        None => None,
    }
}

fn broad_type_of(p: &SearchParams) -> (r: Option<Predicate>)
    ensures
        opt_view(r) == broad_type_predicate(*p),
{
    reveal(broad_type_predicate);
    match broad_type_filter(&p.broad_type) {
        Some(t) => Some(Predicate::BroadType(t)),
        None => None,
    }
}

fn group_of(p: &SearchParams) -> (r: Option<Predicate>)
    ensures
        opt_view(r) == group_predicate(*p),
{
    reveal(group_predicate);
    match id_filter(&p.group) {
        Some(n) => Some(Predicate::Group(n)),
        None => None,
    }
}

fn name_of(p: &SearchParams) -> (r: Option<Predicate>)
    ensures
        opt_view(r) == name_predicate(*p),
{
    reveal(name_predicate);
    match name_filter(&p.query) {
        Some(s) => Some(Predicate::NameContains(s)),
        None => None,
    }
}

fn locked_of(p: &SearchParams) -> (r: Option<Predicate>)
    ensures
        opt_view(r) == locked_predicate(*p),
{
    reveal(locked_predicate);
    if flag(&p.exclude_locked) {
        Some(Predicate::NotLocked)
    } else {
        None
    }
}

fn certified_of(p: &SearchParams) -> (r: Option<Predicate>)
    ensures
        opt_view(r) == certified_predicate(*p),
{
    reveal(certified_predicate);
    if flag(&p.exclude_notcert) {
        Some(Predicate::Certified)
    } else {
        None
    }
}

/// The predicates a request asks for, in dimension order.
fn predicates_of(params: &SearchParams) -> (r: Vec<Predicate>)
    ensures
        predicate_views(r@) == predicates_spec(*params),
{
    let mut v: Vec<Predicate> = Vec::new();
    push_opt(&mut v, creator_of(params));
    push_opt(&mut v, broad_category_of(params));
    push_opt(&mut v, lex_category_of(params));
    push_opt(&mut v, lex_type_of(params));
    push_opt(&mut v, broad_type_of(params));
    push_opt(&mut v, group_of(params));
    push_opt(&mut v, name_of(params));
    push_opt(&mut v, locked_of(params));
    push_opt(&mut v, certified_of(params));
    push_opt(&mut v, Some(Predicate::Active));
    assert(predicate_views(v@) =~= predicates_spec(*params));
    v
}

/// Builds listing queries from search requests.
pub struct Search {}

impl Search {
    /// Composes the plan of a search request. A request that names no
    /// filtering dimension is refused, so that no listing scans every lot.
    pub fn build_query(params: SearchParams) -> (r: Result<QueryPlan, Error>)
        ensures
            r is Err <==> !has_filter(params),
            r matches Err(e) ==> e == Error::MalformedRequest,
            r matches Ok(plan) ==> plan@ == plan_spec(params),
    {
        if params.creator.is_none() && params.broad_category.is_none()
            && params.lex_category.is_none() && params.lex_type.is_none()
            && params.broad_type.is_none() && params.group.is_none()
            && params.order_by.is_none() && params.query.is_none()
            && params.exclude_notcert.is_none() && params.exclude_locked.is_none() {
            return Err(Error::MalformedRequest);
        }
        let predicates = predicates_of(&params);
        Ok(
            QueryPlan {
                predicates,
                order: order_key(&params.order_by),
                direction: direction(&params.order),
                page: page(&params.start, &params.amount),
                concise: params.concise,
            },
        )
    }
}

/// The four dimensions that name a row by numeric id.
pub enum IdDimension {
    Creator,
    LexCategory,
    LexType,
    Group,
}

pub open spec fn id_raw(p: SearchParams, d: IdDimension) -> Option<String> {
    match d {
        IdDimension::Creator => p.creator,
        IdDimension::LexCategory => p.lex_category,
        IdDimension::LexType => p.lex_type,
        IdDimension::Group => p.group,
    }
}

pub open spec fn id_predicate(d: IdDimension, n: u64) -> PredicateView {
    match d {
        IdDimension::Creator => PredicateView::Creator(n),
        IdDimension::LexCategory => PredicateView::LexCategory(n),
        IdDimension::LexType => PredicateView::LexType(n),
        IdDimension::Group => PredicateView::Group(n),
    }
}

proof fn lemma_select_is_no_number()
    ensures
        parse_u64_spec("Select"@) is None,
{
    reveal_strlit("Select");
    reveal(parse_u64_spec);
    let s = "Select"@;
    assert(unsigned_digits(s) == s);
    assert(!is_digit(s[0]));
}

/// Where a predicate's dimension stands in the fixed dimension order.
pub open spec fn rank(p: PredicateView) -> int {
    match p {
        PredicateView::Creator(_) => 0,
        PredicateView::BroadCategory(_) => 1,
        PredicateView::LexCategory(_) => 2,
        PredicateView::LexType(_) => 3,
        PredicateView::BroadType(_) => 4,
        PredicateView::Group(_) => 5,
        PredicateView::NameContains(_) => 6,
        PredicateView::NotLocked => 7,
        PredicateView::Certified => 8,
        PredicateView::Active => 9,
    }
}

/// Predicates strictly in dimension order: each dimension at most once.
pub open spec fn in_dimension_order(s: Seq<PredicateView>) -> bool {
    forall|i: int, j: int| 0 <= i < j < s.len() ==> rank(#[trigger] s[i]) < rank(#[trigger] s[j])
}

proof fn lemma_extend_in_order(s: Seq<PredicateView>, o: Option<PredicateView>, k: int)
    requires
        in_dimension_order(s),
        forall|i: int| 0 <= i < s.len() ==> rank(#[trigger] s[i]) < k,
        o matches Some(x) ==> rank(x) == k,
    ensures
        in_dimension_order(s + opt(o)),
        forall|i: int| 0 <= i < (s + opt(o)).len() ==> rank(#[trigger] (s + opt(o))[i]) < k + 1,
{
    let t = s + opt(o);
    assert forall|i: int, j: int| 0 <= i < j < t.len() implies rank(#[trigger] t[i]) < rank(
        #[trigger] t[j],
    ) by {
        if j < s.len() {
            assert(t[i] == s[i] && t[j] == s[j]);
        } else {
            assert(t[i] == s[i]);
        }
    }
    assert forall|i: int| 0 <= i < t.len() implies rank(#[trigger] t[i]) < k + 1 by {
        if i < s.len() {
            assert(t[i] == s[i]);
        }
    }
}

/// A composed plan names its predicates strictly in dimension order, so no
/// dimension contributes more than one predicate.
pub proof fn lemma_plan_in_dimension_order(p: SearchParams)
    ensures
        in_dimension_order(plan_spec(p).predicates),
{
    reveal(creator_predicate);
    reveal(broad_category_predicate);
    reveal(lex_category_predicate);
    reveal(lex_type_predicate);
    reveal(broad_type_predicate);
    reveal(group_predicate);
    reveal(name_predicate);
    reveal(locked_predicate);
    reveal(certified_predicate);
    let s0 = Seq::<PredicateView>::empty();
    lemma_extend_in_order(s0, creator_predicate(p), 0);
    let s1 = s0 + opt(creator_predicate(p));
    lemma_extend_in_order(s1, broad_category_predicate(p), 1);
    let s2 = s1 + opt(broad_category_predicate(p));
    lemma_extend_in_order(s2, lex_category_predicate(p), 2);
    let s3 = s2 + opt(lex_category_predicate(p));
    lemma_extend_in_order(s3, lex_type_predicate(p), 3);
    let s4 = s3 + opt(lex_type_predicate(p));
    lemma_extend_in_order(s4, broad_type_predicate(p), 4);
    let s5 = s4 + opt(broad_type_predicate(p));
    lemma_extend_in_order(s5, group_predicate(p), 5);
    let s6 = s5 + opt(group_predicate(p));
    lemma_extend_in_order(s6, name_predicate(p), 6);
    let s7 = s6 + opt(name_predicate(p));
    lemma_extend_in_order(s7, locked_predicate(p), 7);
    let s8 = s7 + opt(locked_predicate(p));
    lemma_extend_in_order(s8, certified_predicate(p), 8);
    let s9 = s8 + opt(certified_predicate(p));
    lemma_extend_in_order(s9, Some(PredicateView::Active), 9);
    assert(s0 + opt(creator_predicate(p)) =~= opt(creator_predicate(p)));
    assert(s9 + opt(Some(PredicateView::Active)) =~= predicates_spec(p));
}

/// A valid numeric id given for a dimension becomes exactly one predicate
/// on that dimension, and the id travels as the one value that predicate
/// binds, never as statement text.
pub proof fn lemma_numeric_id_is_bound(p: SearchParams, d: IdDimension, n: u64)
    requires
        id_raw(p, d) matches Some(v) && parse_u64_spec(v@) == Some(n),
    ensures
        has_filter(p),
        plan_spec(p).predicates.contains(id_predicate(d, n)),
        forall|i: int|
            0 <= i < plan_spec(p).predicates.len() && rank(#[trigger] plan_spec(p).predicates[i])
                == rank(id_predicate(d, n)) ==> plan_spec(p).predicates[i] == id_predicate(d, n),
        predicate_params(id_predicate(d, n)) == seq![SqlValueView::Int(n)],
{
    lemma_plan_in_dimension_order(p);
    lemma_select_is_no_number();
    let ps = predicates_spec(p);
    let a = opt(creator_predicate(p));
    let b = opt(broad_category_predicate(p));
    let c = opt(lex_category_predicate(p));
    let e = opt(lex_type_predicate(p));
    let f = opt(broad_type_predicate(p));
    let g = opt(group_predicate(p));
    let rest = opt(name_predicate(p)) + opt(locked_predicate(p)) + opt(certified_predicate(p))
        + seq![PredicateView::Active];
    assert(ps =~= a + b + c + e + f + g + rest);
    let x = id_predicate(d, n);
    match d {
        IdDimension::Creator => {
            reveal(creator_predicate);
            assert(a == seq![x]);
            assert(ps[0] == x);
        },
        IdDimension::LexCategory => {
            reveal(lex_category_predicate);
            assert(c == seq![x]);
            assert(ps[(a.len() + b.len()) as int] == x);
        },
        IdDimension::LexType => {
            reveal(lex_type_predicate);
            assert(e == seq![x]);
            assert(ps[(a.len() + b.len() + c.len()) as int] == x);
        },
        IdDimension::Group => {
            reveal(group_predicate);
            assert(g == seq![x]);
            assert(ps[(a.len() + b.len() + c.len() + e.len() + f.len()) as int] == x);
        },
    }
}

/// Two requests that differ in nothing but the free text.
pub open spec fn same_but_text(a: SearchParams, b: SearchParams) -> bool {
    &&& a.start == b.start
    &&& a.amount == b.amount
    &&& a.order == b.order
    &&& a.concise == b.concise
    &&& a.creator == b.creator
    &&& a.broad_category == b.broad_category
    &&& a.lex_category == b.lex_category
    &&& a.lex_type == b.lex_type
    &&& a.broad_type == b.broad_type
    &&& a.group == b.group
    &&& a.order_by == b.order_by
    &&& a.exclude_notcert == b.exclude_notcert
    &&& a.exclude_locked == b.exclude_locked
}

proof fn lemma_where_text_by_shape(xs: Seq<PredicateView>, ys: Seq<PredicateView>)
    requires
        xs.len() == ys.len(),
        forall|i: int| 0 <= i < xs.len() ==> predicate_text(#[trigger] xs[i]) == predicate_text(ys[i]),
    ensures
        where_text(xs) == where_text(ys),
    decreases xs.len(),
{
    if xs.len() > 1 {
        lemma_where_text_by_shape(xs.drop_last(), ys.drop_last());
        assert(predicate_text(xs.last()) == predicate_text(ys.last()));
    } else if xs.len() == 1 {
        assert(predicate_text(xs[0]) == predicate_text(ys[0]));
    }
}

/// Whatever non-empty free text a request carries (quotes and other SQL
/// metacharacters included), the plan has the same number of predicates,
/// every clause but the text predicate is the same, and the statement text
/// is the same: the text only ever reaches the bound values.
pub proof fn lemma_free_text_is_isolated(a: SearchParams, b: SearchParams)
    requires
        same_but_text(a, b),
        a.query matches Some(q) && q@.len() > 0,
        b.query matches Some(q) && q@.len() > 0,
    ensures
        has_filter(a) && has_filter(b),
        plan_spec(a).predicates.len() == plan_spec(b).predicates.len(),
        forall|i: int|
            0 <= i < plan_spec(a).predicates.len() && !(plan_spec(a).predicates[i] is NameContains)
                ==> #[trigger] plan_spec(a).predicates[i] == plan_spec(b).predicates[i],
        exists|i: int|
            0 <= i < plan_spec(a).predicates.len() && #[trigger] plan_spec(a).predicates[i]
                == PredicateView::NameContains(a.query->0@) && plan_spec(b).predicates[i]
                == PredicateView::NameContains(b.query->0@),
        in_dimension_order(plan_spec(a).predicates),
        in_dimension_order(plan_spec(b).predicates),
        plan_spec(a).order == plan_spec(b).order,
        plan_spec(a).direction == plan_spec(b).direction,
        plan_spec(a).page == plan_spec(b).page,
        plan_spec(a).concise == plan_spec(b).concise,
        sql_text(plan_spec(a)) == sql_text(plan_spec(b)),
{
    reveal(creator_predicate);
    reveal(broad_category_predicate);
    reveal(lex_category_predicate);
    reveal(lex_type_predicate);
    reveal(broad_type_predicate);
    reveal(group_predicate);
    reveal(name_predicate);
    reveal(locked_predicate);
    reveal(certified_predicate);
    let pre = opt(creator_predicate(a)) + opt(broad_category_predicate(a)) + opt(
        lex_category_predicate(a),
    ) + opt(lex_type_predicate(a)) + opt(broad_type_predicate(a)) + opt(group_predicate(a));
    let post = opt(locked_predicate(a)) + opt(certified_predicate(a)) + seq![PredicateView::Active];
    let xs = predicates_spec(a);
    let ys = predicates_spec(b);
    assert(xs =~= pre + opt(name_predicate(a)) + post);
    assert(ys =~= pre + opt(name_predicate(b)) + post);
    assert forall|i: int|
        0 <= i < xs.len() && !(xs[i] is NameContains) implies #[trigger] xs[i] == ys[i] by {
        if i < pre.len() {
        } else if i == pre.len() {
        } else {
        }
    }
    assert forall|i: int| 0 <= i < xs.len() implies predicate_text(#[trigger] xs[i])
        == predicate_text(ys[i]) by {
        if i == pre.len() {
        } else {
            assert(xs[i] == ys[i]);
        }
    }
    lemma_where_text_by_shape(xs, ys);
    lemma_plan_in_dimension_order(a);
    lemma_plan_in_dimension_order(b);
    assert(xs[pre.len() as int] == PredicateView::NameContains(a.query->0@));
    assert(ys[pre.len() as int] == PredicateView::NameContains(b.query->0@));
}

/// Omitted pagination reads as offset 0 and page size 15, and no request
/// gets a page larger than the maximum.
pub proof fn lemma_pagination_defaults(p: SearchParams)
    ensures
        p.start is None ==> plan_spec(p).page.offset == 0,
        p.amount is None ==> plan_spec(p).page.amount == DEFAULT_PAGE_SIZE,
        plan_spec(p).page.amount <= MAX_PAGE_SIZE,
{
}

/// An order-by key that names no known ordering still composes, ordered
/// by id, ascending unless a direction is given.
pub proof fn lemma_unknown_order_key(p: SearchParams)
    requires
        p.order_by matches Some(k) && k@ != "download"@ && k@ != "popular"@ && k@ != "update"@
            && k@ != "random"@,
    ensures
        has_filter(p),
        plan_spec(p).order == OrderKey::Id,
        p.order is None ==> plan_spec(p).direction == Direction::Ascending,
{
}

} // verus!
