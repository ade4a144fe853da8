//! The predicate set: each optional filter dimension of a search request,
//! read from its raw query-string value into at most one typed predicate.
use vstd::prelude::*;
use crate::text::{eq_ignore_ascii_case, eq_ignore_ascii_case_spec, parse_u64, parse_u64_spec, str_eq};

verus! {

/// Page size used when a request names none, or none that reads as a number.
pub const DEFAULT_PAGE_SIZE: u64 = 15;

/// Largest page size a listing hands out.
pub const MAX_PAGE_SIZE: u64 = 100;

/// A search request as it arrives from the query string: every field optional.
pub struct SearchParams {
    pub start: Option<String>,
    pub amount: Option<String>,
    pub order: Option<String>,
    pub concise: bool,
    pub user: Option<bool>,
    pub dependencies: Option<bool>,
    pub comments: Option<bool>,
    pub votes: Option<bool>,
    pub creator: Option<String>,
    pub broad_category: Option<String>,
    pub lex_category: Option<String>,
    pub lex_type: Option<String>,
    pub broad_type: Option<String>,
    pub group: Option<String>,
    pub order_by: Option<String>,
    pub query: Option<String>,
    pub exclude_notcert: Option<String>,
    pub exclude_locked: Option<String>,
}

/// The closed set of broad lot types a listing can be narrowed to.
#[derive(Clone, Copy, Debug, PartialEq, Eq, Structural)]
pub enum BroadType {
    LotBat,
    Dependency,
    Maps,
    Mod,
    Other,
}

/// The column a listing is ordered by.
#[derive(Clone, Copy, Debug, PartialEq, Eq, Structural)]
pub enum OrderKey {
    Downloads,
    Updated,
    Id,
    Random,
}

#[derive(Clone, Copy, Debug, PartialEq, Eq, Structural)]
pub enum Direction {
    Ascending,
    Descending,
}

/// Which slice of the ordered result a listing returns.
#[derive(Clone, Copy, Debug, PartialEq, Eq, Structural)]
pub struct Page {
    pub offset: u64,
    pub amount: u64,
}

pub open spec fn view_opt(raw: Option<String>) -> Option<Seq<char>> {
    match raw {
        Some(v) => Some(v@),
        None => None,
    }
}

/// A numeric-id dimension: the sentinel `Select` and anything that does not
/// read as an unsigned number leave the dimension unconstrained.
pub open spec fn id_filter_spec(raw: Option<Seq<char>>) -> Option<u64> {
    match raw {
        Some(v) => if v == "Select"@ {
            None
        } else {
            parse_u64_spec(v)
        },
        None => None,
    }
}

/// The broad-category dimension: any value but the sentinel is matched exactly.
pub open spec fn category_filter_spec(raw: Option<Seq<char>>) -> Option<Seq<char>> {
    match raw {
        Some(v) => if v == "Select"@ {
            None
        } else {
            Some(v)
        },
        None => None,
    }
}

pub open spec fn broad_type_filter_spec(raw: Option<Seq<char>>) -> Option<BroadType> {
    match raw {
        Some(v) => if v == "lotbat"@ {
            Some(BroadType::LotBat)
        } else if v == "dependency"@ {
            Some(BroadType::Dependency)
        } else if v == "map"@ {
            Some(BroadType::Maps)
        } else if v == "mod"@ {
            Some(BroadType::Mod)
        } else if v == "other"@ {
            Some(BroadType::Other)
        } else {
            None
        },
        None => None,
    }
}

/// The free-text dimension: any non-empty value, taken as it is.
pub open spec fn name_filter_spec(raw: Option<Seq<char>>) -> Option<Seq<char>> {
    match raw {
        Some(v) => if v.len() == 0 {
            None
        } else {
            Some(v)
        },
        None => None,
    }
}

/// A boolean-flag dimension is set by exactly `true` and by nothing else.
pub open spec fn flag_spec(raw: Option<Seq<char>>) -> bool {
    raw == Some("true"@)
}

/// `popular` is another name for `download`; `recent`, and any key not
/// known, order by id.
pub open spec fn order_key_spec(raw: Option<Seq<char>>) -> OrderKey {
    match raw {
        Some(k) => if k == "download"@ || k == "popular"@ {
            OrderKey::Downloads
        } else if k == "update"@ {
            OrderKey::Updated
        } else if k == "random"@ {
            OrderKey::Random
        } else {
            OrderKey::Id
        },
        None => OrderKey::Id,
    }
}

/// Absent means ascending; `asc` and `desc` are read without case; anything
/// else means descending.
pub open spec fn direction_spec(raw: Option<Seq<char>>) -> Direction {
    match raw {
        Some(o) => if eq_ignore_ascii_case_spec(o, "asc"@) {
            Direction::Ascending
        } else {
            Direction::Descending
        },
        None => Direction::Ascending,
    }
}

pub open spec fn number_or(raw: Option<Seq<char>>, default: u64) -> u64 {
    match raw {
        Some(v) => match parse_u64_spec(v) {
            Some(n) => n,
            None => default,
        },
        None => default,
    }
}

pub open spec fn page_spec(start: Option<Seq<char>>, amount: Option<Seq<char>>) -> Page {
    let requested = number_or(amount, DEFAULT_PAGE_SIZE);
    Page {
        offset: number_or(start, 0),
        amount: if requested > MAX_PAGE_SIZE {
            MAX_PAGE_SIZE
        } else {
            requested
        },
    }
}

fn is_select(v: &str) -> (r: bool)
    ensures
        r == (v@ == "Select"@),
{
    str_eq(v, "Select")
}

/// Reads a numeric-id dimension: creator, lex category, lex type or group.
pub fn id_filter(raw: &Option<String>) -> (r: Option<u64>)
    ensures
        r == id_filter_spec(view_opt(*raw)),
{
    match raw {
        Some(v) => if is_select(v.as_str()) {
            None
        } else {
            parse_u64(v.as_str())
        },
        None => None,
    }
}

/// Reads the broad-category dimension.
pub fn category_filter(raw: &Option<String>) -> (r: Option<String>)
    ensures
        view_opt(r) == category_filter_spec(view_opt(*raw)),
{
    match raw {
        Some(v) => if is_select(v.as_str()) {
            None
        } else {
            Some(v.clone())
        },
        None => None,
    }
}

/// Reads the broad-type dimension; an unknown tag constrains nothing.
pub fn broad_type_filter(raw: &Option<String>) -> (r: Option<BroadType>)
    ensures
        r == broad_type_filter_spec(view_opt(*raw)),
{
    match raw {
        Some(v) => {
            let v = v.as_str();
            if str_eq(v, "lotbat") {
                Some(BroadType::LotBat)
            } else if str_eq(v, "dependency") {
                Some(BroadType::Dependency)
            } else if str_eq(v, "map") {
                Some(BroadType::Maps)
            } else if str_eq(v, "mod") {
                Some(BroadType::Mod)
            } else if str_eq(v, "other") {
                Some(BroadType::Other)
            } else {
                None
            }
        },
        None => None,
    }
}

/// Reads the free-text dimension.
pub fn name_filter(raw: &Option<String>) -> (r: Option<String>)
    ensures
        view_opt(r) == name_filter_spec(view_opt(*raw)),
{
    match raw {
        Some(v) => if v.as_str().unicode_len() == 0 {
            None
        } else {
            Some(v.clone())
        },
        None => None,
    }
}

/// Reads an exclusion flag: only the exact text `true` sets it.
pub fn flag(raw: &Option<String>) -> (r: bool)
    ensures
        r == flag_spec(view_opt(*raw)),
{
    match raw {
        Some(v) => str_eq(v.as_str(), "true"),
        None => false,
    }
}

/// Reads the order-by key; an unknown key orders by id.
pub fn order_key(raw: &Option<String>) -> (r: OrderKey)
    ensures
        r == order_key_spec(view_opt(*raw)),
{
    match raw {
        Some(k) => {
            let k = k.as_str();
            if str_eq(k, "download") || str_eq(k, "popular") {
                OrderKey::Downloads
            } else if str_eq(k, "update") {
                OrderKey::Updated
            } else if str_eq(k, "random") {
                OrderKey::Random
            } else {
                OrderKey::Id
            }
        },
        None => OrderKey::Id,
    }
}

/// Reads the order direction.
pub fn direction(raw: &Option<String>) -> (r: Direction)
    ensures
        r == direction_spec(view_opt(*raw)),
{
    match raw {
        Some(o) => if eq_ignore_ascii_case(o.as_str(), "asc") {
            Direction::Ascending
        } else {
            Direction::Descending
        },
        None => Direction::Ascending,
    }
}

fn number_or_default(raw: &Option<String>, default: u64) -> (r: u64)
    ensures
        r == number_or(view_opt(*raw), default),
{
    match raw {
        Some(v) => match parse_u64(v.as_str()) {
            Some(n) => n,
            None => default,
        },
        None => default,
    }
}

/// Offset defaults to 0 and page size to 15; the page size never exceeds
/// the maximum.
pub fn page(start: &Option<String>, amount: &Option<String>) -> (r: Page)
    ensures
        r == page_spec(view_opt(*start), view_opt(*amount)),
        r.amount <= MAX_PAGE_SIZE,
{
    let requested = number_or_default(amount, DEFAULT_PAGE_SIZE);
    Page {
        offset: number_or_default(start, 0),
        amount: if requested > MAX_PAGE_SIZE {
            MAX_PAGE_SIZE
        } else {
            requested
        },
    }
}

} // verus!
