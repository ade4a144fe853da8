//! The expansion assembler: the public view of one lot, with whichever
//! sub-resources the caller asked for.
use vstd::prelude::*;
use crate::comments::{chronological, in_posting_order, posted_at, Comment};
use crate::date::{date_of, parse_date, CalendarDate};
use crate::deps::{
    dependency_refs, dependents_of, ids_to_fetch, lot_ids, names_lot, parse_dependencies,
    resolve_dependencies, resolves_to, Candidate, DependencyEntry, LotSummary,
};
use crate::error::Error;
use crate::filter::SearchParams;
use crate::size::{human_size_spec, HumanSize};
use crate::text::{decimal_digits, push_char, push_decimal, str_eq, trim_text, trimmed};
use crate::votes::{tally_spec, VoteTally};

verus! {

/// A lot row as the catalog store holds it.
pub struct Lot {
    pub lotid: u64,
    pub lotname: String,
    pub version: String,
    pub usrid: u64,
    pub lotdownloads: u64,
    pub lexexcl: String,
    pub lotdesc: Vec<u8>,
    pub lotimgday: String,
    pub lotimgnigt: String,
    pub biglotimg: String,
    pub acclvl: i64,
    pub admlock: String,
    pub usrlock: String,
    pub isactive: String,
    pub dateon: String,
    pub lastupdate: String,
    pub lotfile: String,
    pub deps: String,
}

/// The base links that resolve image and page references.
pub struct Links {
    pub index_link: String,
    pub img_link: String,
}

/// Which sub-resources a view asks for; each one is fetched on its own.
#[derive(Clone, Copy, Debug, PartialEq, Eq, Structural)]
pub struct ExpansionFlags {
    pub comments: bool,
    pub votes: bool,
    pub dependencies: bool,
    pub categories: bool,
    pub dependents: bool,
    pub user: bool,
}

#[derive(Clone, Debug, PartialEq, Eq)]
pub struct Category {
    pub id: u64,
    pub name: String,
}

/// The fetches a view needs once its base lot is loaded. They do not depend
/// on one another.
pub struct FetchPlan {
    pub comments: bool,
    pub votes: bool,
    /// The lots to look up for the dependency list, when it is asked for.
    pub dependency_ids: Option<Vec<u64>>,
    pub categories: bool,
    pub dependents: bool,
    /// The user whose download record to read, when it is asked for.
    pub download_of: Option<u64>,
}

/// What the store returned for the fetches of a plan. A fetch that was not
/// made is left empty.
pub struct Fetched {
    pub comments: Vec<Comment>,
    pub ratings: Vec<i64>,
    pub dependencies: Vec<LotSummary>,
    pub categories: Vec<Category>,
    pub dependents: Vec<Candidate>,
    pub last_download: Option<String>,
}

pub struct Images {
    pub primary: String,
    pub secondary: String,
    pub extra: String,
}

/// The public shape of a lot. Each optional part is present exactly when
/// it was asked for.
pub struct LotView {
    pub id: u64,
    pub name: String,
    pub version: String,
    pub num_downloads: u64,
    pub author: Option<String>,
    pub is_exclusive: bool,
    pub description: String,
    pub images: Images,
    pub link: String,
    pub is_certified: bool,
    pub is_active: bool,
    pub upload_date: Option<CalendarDate>,
    pub update_date: Option<CalendarDate>,
    pub filesize: HumanSize,
    pub comments: Option<Vec<Comment>>,
    pub votes: Option<VoteTally>,
    pub dependencies: Option<Vec<DependencyEntry>>,
    pub categories: Option<Vec<Category>>,
    pub dependents: Option<Vec<LotSummary>>,
    pub last_downloaded: Option<Option<String>>,
}

/// Bytes read as Latin-1: each byte is the character of that code.
pub open spec fn latin1(b: Seq<u8>) -> Seq<char> {
    b.map_values(|x: u8| x as char)
}

/// A lot is active unless an administrator or its owner locked it, or it
/// was deactivated.
pub open spec fn is_active_spec(l: Lot) -> bool {
    !(l.admlock@ == "T"@ || l.usrlock@ == "T"@ || l.isactive@ == "F"@)
}

pub open spec fn page_link(index_link: Seq<char>, id: u64) -> Seq<char> {
    index_link + "lex_filedesc.php?lotGET="@ + decimal_digits(id as nat)
}

/// The fields every view has, computed from the lot alone.
pub open spec fn base_fields(
    v: LotView,
    l: Lot,
    links: Links,
    author: Option<String>,
    file_size: u64,
) -> bool {
    &&& v.id == l.lotid
    &&& v.name@ == trimmed(l.lotname@)
    &&& v.version@ == trimmed(l.version@)
    &&& v.num_downloads == l.lotdownloads
    &&& v.author == author
    &&& v.is_exclusive == (l.lexexcl@ == "T"@)
    &&& v.description@ == latin1(l.lotdesc@)
    &&& v.images.primary@ == links.img_link@ + l.lotimgday@
    &&& v.images.secondary@ == links.img_link@ + l.lotimgnigt@
    &&& v.images.extra@ == links.img_link@ + l.biglotimg@
    &&& v.link@ == page_link(links.index_link@, l.lotid)
    &&& v.is_certified == (l.acclvl > 0)
    &&& v.is_active == is_active_spec(l)
    &&& v.upload_date == date_of(l.dateon@)
    &&& v.update_date == date_of(l.lastupdate@)
    &&& v.filesize == human_size_spec(file_size)
}

/// Whether the caller's download record is part of the view: it is asked
/// for, and there is a caller to read it for.
pub open spec fn wants_download(flags: ExpansionFlags, caller: Option<u64>) -> bool {
    flags.user && caller is Some
}

/// The optional parts: each is present exactly when asked for, and holds
/// what its fetch returned; comments in the order they were posted, those
/// posted at the same time in the order they were fetched.
pub open spec fn expansion_fields(
    v: LotView,
    l: Lot,
    flags: ExpansionFlags,
    caller: Option<u64>,
    f: Fetched,
) -> bool {
    &&& v.comments is Some == flags.comments
    &&& (v.comments matches Some(cs) ==> {
        &&& chronological(cs@)
        &&& cs@.to_multiset() == f.comments@.to_multiset()
        &&& forall|t: u64| #[trigger] posted_at(cs@, t) == posted_at(f.comments@, t)
    })
    &&& v.votes == (if flags.votes {
        Some(tally_spec(f.ratings@))
    } else {
        None
    })
    &&& v.dependencies is Some == flags.dependencies
    &&& (v.dependencies matches Some(d) ==> {
        &&& d@.len() == dependency_refs(l.deps@).len()
        &&& forall|i: int|
            0 <= i < d@.len() ==> resolves_to(
                #[trigger] dependency_refs(l.deps@)[i],
                f.dependencies@,
                d@[i],
            )
    })
    &&& v.categories == (if flags.categories {
        Some(f.categories)
    } else {
        None
    })
    &&& v.dependents is Some == flags.dependents
    &&& (v.dependents matches Some(d) ==> d@ == f.dependents@.filter(
        |c: Candidate| names_lot(c.deps@, l.lotid),
    ).map_values(|c: Candidate| c.summary))
    &&& v.last_downloaded == (if wants_download(flags, caller) {
        Some(f.last_download)
    } else {
        None
    })
}

fn join(base: &String, tail: &String) -> (r: String)
    ensures
        r@ == base@ + tail@,
{
    let mut s = base.clone();
    s.append(tail.as_str());
    s
}

fn decode_latin1(b: &Vec<u8>) -> (r: String)
    ensures
        r@ == latin1(b@),
{
    let mut out = String::new();
    let n = b.len();
    let mut i: usize = 0;
    while i < n
        invariant
            n == b@.len(),
            i <= n,
            out@ == latin1(b@.subrange(0, i as int)),
        decreases n - i,
    {
        push_char(&mut out, b[i] as char);
        assert(latin1(b@.subrange(0, i + 1)) =~= latin1(b@.subrange(0, i as int)).push(
            b@[i as int] as char,
        ));
        i += 1;
    }
    assert(b@.subrange(0, n as int) =~= b@);
    out
}

fn is_t(s: &String) -> (r: bool)
    ensures
        r == (s@ == "T"@),
{
    str_eq(s.as_str(), "T")
}

impl ExpansionFlags {
    /// The expansions a search request asks for: a flag counts only when it
    /// is given as true.
    pub fn from_params(p: &SearchParams) -> (r: ExpansionFlags)
        ensures
            r.comments == (p.comments == Some(true)),
            r.votes == (p.votes == Some(true)),
            r.dependencies == (p.dependencies == Some(true)),
            r.user == (p.user == Some(true)),
            !r.categories,
            !r.dependents,
    {
        ExpansionFlags {
            comments: p.comments == Some(true),
            votes: p.votes == Some(true),
            dependencies: p.dependencies == Some(true),
            categories: false,
            dependents: false,
            user: p.user == Some(true),
        }
    }

    /// The fetches to make for a loaded lot.
    pub fn plan(&self, lot: &Lot, caller: Option<u64>) -> (r: FetchPlan)
        ensures
            r.comments == self.comments,
            r.votes == self.votes,
            r.dependency_ids is Some == self.dependencies,
            r.dependency_ids matches Some(ids) ==> ids@ == lot_ids(dependency_refs(lot.deps@)),
            r.categories == self.categories,
            r.dependents == self.dependents,
            r.download_of == (if wants_download(*self, caller) {
                caller
            } else {
                None
            }),
    {
        let dependency_ids = if self.dependencies {
            let refs = parse_dependencies(lot.deps.as_str());
            Some(ids_to_fetch(&refs))
        } else {
            None
        };
        FetchPlan {
            comments: self.comments,
            votes: self.votes,
            dependency_ids,
            categories: self.categories,
            dependents: self.dependents,
            download_of: if self.user {
                caller
            } else {
                None
            },
        }
    }
}

fn base_view(links: &Links, l: &Lot, author: Option<String>, file_size: u64) -> (r: LotView)
    ensures
        base_fields(r, *l, *links, author, file_size),
        r.comments is None,
        r.votes is None,
        r.dependencies is None,
        r.categories is None,
        r.dependents is None,
        r.last_downloaded is None,
{
    let mut link = links.index_link.clone();
    link.append("lex_filedesc.php?lotGET=");
    push_decimal(&mut link, l.lotid);
    LotView {
        id: l.lotid,
        name: trim_text(l.lotname.as_str()),
        version: trim_text(l.version.as_str()),
        num_downloads: l.lotdownloads,
        author,
        is_exclusive: is_t(&l.lexexcl),
        description: decode_latin1(&l.lotdesc),
        images: Images {
            primary: join(&links.img_link, &l.lotimgday),
            secondary: join(&links.img_link, &l.lotimgnigt),
            extra: join(&links.img_link, &l.biglotimg),
        },
        link,
        is_certified: l.acclvl > 0,
        is_active: !(is_t(&l.admlock) || is_t(&l.usrlock) || str_eq(l.isactive.as_str(), "F")),
        upload_date: parse_date(l.dateon.as_str()),
        update_date: parse_date(l.lastupdate.as_str()),
        filesize: HumanSize::from_bytes(file_size),
        comments: None,
        votes: None,
        dependencies: None,
        categories: None,
        dependents: None,
        last_downloaded: None,
    }
}

/// Assembles the view of a lot. `lot` is the base row, if the store had
/// one; `author` the owner's name and `file_size` the length of the lot's
/// file; `fetched` what the store returned for the lot's fetch plan. A
/// missing lot is `NotFound` whatever was asked for. Unresolvable
/// dependencies are reported one by one inside the view, never as a
/// failure.
pub fn assemble(
    links: &Links,
    lot: Option<Lot>,
    author: Option<String>,
    file_size: u64,
    flags: ExpansionFlags,
    caller: Option<u64>,
    fetched: Fetched,
) -> (r: Result<LotView, Error>)
    ensures
        lot is None ==> r == Err::<LotView, Error>(Error::NotFound),
        lot matches Some(l) ==> r matches Ok(v) && base_fields(v, l, *links, author, file_size)
            && expansion_fields(v, l, flags, caller, fetched),
{
    let l = match lot {
        Some(l) => l,
        None => {
            return Err(Error::NotFound);
        },
    };
    let ghost f = fetched;
    let mut v = base_view(links, &l, author, file_size);
    let Fetched { comments, ratings, dependencies, categories, dependents, last_download } =
        fetched;
    if flags.comments {
        v.comments = Some(in_posting_order(&comments));
    }
    if flags.votes {
        v.votes = Some(VoteTally::from_ratings(&ratings));
    }
    if flags.dependencies {
        let refs = parse_dependencies(l.deps.as_str());
        let ghost rv = crate::deps::ref_views(refs@);
        let entries = resolve_dependencies(refs, &dependencies);
        assert forall|i: int| 0 <= i < entries@.len() implies resolves_to(
            #[trigger] dependency_refs(l.deps@)[i],
            f.dependencies@,
            entries@[i],
        ) by {
            assert(rv[i] == refs@[i]@);
        }
        v.dependencies = Some(entries);
    }
    if flags.categories {
        v.categories = Some(categories);
    }
    if flags.dependents {
        v.dependents = Some(dependents_of(l.lotid, dependents));
    }
    if flags.user && caller.is_some() {
        v.last_downloaded = Some(last_download);
    }
    Ok(v)
}

/// A view assembled with no expansion asked for has none of the optional
/// parts, while its derived fields are there and computed from the lot: for
/// one, a lot locked by an administrator is not active.
pub proof fn lemma_no_expansions(
    links: Links,
    l: Lot,
    author: Option<String>,
    file_size: u64,
    flags: ExpansionFlags,
    caller: Option<u64>,
    fetched: Fetched,
)
    requires
        !flags.comments && !flags.votes && !flags.dependencies && !flags.categories
            && !flags.dependents && !flags.user,
    ensures
        forall|v: LotView|
            base_fields(v, l, links, author, file_size) && #[trigger] expansion_fields(
                v,
                l,
                flags,
                caller,
                fetched,
            ) ==> {
                &&& v.comments is None
                &&& v.votes is None
                &&& v.dependencies is None
                &&& v.categories is None
                &&& v.dependents is None
                &&& v.last_downloaded is None
                &&& v.id == l.lotid
                &&& v.is_active == is_active_spec(l)
                &&& (l.admlock@ == "T"@ ==> !v.is_active)
                &&& v.is_certified == (l.acclvl > 0)
                &&& v.filesize == human_size_spec(file_size)
            },
{
}

} // verus!
