//! Dependency strings: a lot names the lots it depends on as decimal ids
//! separated by `$`. Resolution reports each reference on its own, so one
//! missing or unreadable entry never fails the whole list.
use vstd::prelude::*;
use crate::text::{parse_u64, parse_u64_spec, push_char};

verus! {

/// The `$`-separated pieces of a string, empty pieces included.
pub open spec fn pieces(s: Seq<char>) -> Seq<Seq<char>>
    decreases s.len(),
{
    if s.len() == 0 {
        seq![seq![]]
    } else {
        let prev = pieces(s.drop_last());
        if s.last() == '$' {
            prev.push(seq![])
        } else {
            prev.update(prev.len() - 1, prev.last().push(s.last()))
        }
    }
}

/// One entry of a dependency string.
#[derive(Clone, Debug, PartialEq, Eq)]
pub enum DependencyRef {
    Lot(u64),
    Unreadable(String),
}

pub enum DependencyRefView {
    Lot(u64),
    Unreadable(Seq<char>),
}

impl View for DependencyRef {
    type V = DependencyRefView;

    open spec fn view(&self) -> DependencyRefView {
        match self {
            DependencyRef::Lot(id) => DependencyRefView::Lot(*id),
            DependencyRef::Unreadable(s) => DependencyRefView::Unreadable(s@),
        }
    }
}

pub open spec fn ref_views(v: Seq<DependencyRef>) -> Seq<DependencyRefView> {
    v.map_values(|r: DependencyRef| r@)
}

pub open spec fn piece_ref(p: Seq<char>) -> DependencyRefView {
    match parse_u64_spec(p) {
        Some(id) => DependencyRefView::Lot(id),
        None => DependencyRefView::Unreadable(p),
    }
}

/// The entries of a list of pieces: empty pieces are skipped.
pub open spec fn refs_of_pieces(ps: Seq<Seq<char>>) -> Seq<DependencyRefView>
    decreases ps.len(),
{
    if ps.len() == 0 {
        seq![]
    } else {
        refs_of_pieces(ps.drop_last()) + if ps.last().len() == 0 {
            seq![]
        } else {
            seq![piece_ref(ps.last())]
        }
    }
}

/// The entries a dependency string names, in order.
pub open spec fn dependency_refs(s: Seq<char>) -> Seq<DependencyRefView> {
    refs_of_pieces(pieces(s))
}

proof fn lemma_pieces_nonempty(s: Seq<char>)
    ensures
        pieces(s).len() >= 1,
    decreases s.len(),
{
    if s.len() > 0 {
        lemma_pieces_nonempty(s.drop_last());
    }
}

fn piece_to_ref(p: String) -> (r: DependencyRef)
    ensures
        r@ == piece_ref(p@),
{
    match parse_u64(p.as_str()) {
        Some(id) => DependencyRef::Lot(id),
        None => DependencyRef::Unreadable(p),
    }
}

fn push_piece(out: &mut Vec<DependencyRef>, p: String)
    ensures
        ref_views(final(out)@) == ref_views(old(out)@) + (if p@.len() == 0 {
            Seq::<DependencyRefView>::empty()
        } else {
            seq![piece_ref(p@)]
        }),
{
    let ghost start = ref_views(out@);
    if p.as_str().unicode_len() > 0 {
        let r = piece_to_ref(p);
        out.push(r);
    }
    assert(ref_views(out@) =~= start + (if p@.len() == 0 {
        Seq::<DependencyRefView>::empty()
    } else {
        seq![piece_ref(p@)]
    }));
}

/// Reads the entries of a dependency string.
pub fn parse_dependencies(s: &str) -> (r: Vec<DependencyRef>)
    ensures
        ref_views(r@) == dependency_refs(s@),
{
    let n = s.unicode_len();
    let mut out: Vec<DependencyRef> = Vec::new();
    let mut cur = String::new();
    let mut i: usize = 0;
    while i < n
        invariant
            n == s@.len(),
            i <= n,
            pieces(s@.subrange(0, i as int)).len() >= 1,
            cur@ == pieces(s@.subrange(0, i as int)).last(),
            ref_views(out@) == refs_of_pieces(pieces(s@.subrange(0, i as int)).drop_last()),
        decreases n - i,
    {
        let c = s.get_char(i);
        let ghost prefix = s@.subrange(0, i as int);
        let ghost next = s@.subrange(0, i + 1);
        assert(next.drop_last() =~= prefix);
        assert(next.last() == c);
        let ghost ps = pieces(prefix);
        if c == '$' {
            push_piece(&mut out, cur);
            cur = String::new();
            assert(pieces(next) == ps.push(seq![]));
            assert(pieces(next).drop_last() =~= ps);
            assert(ps =~= ps.drop_last().push(ps.last()));
        } else {
            push_char(&mut cur, c);
            assert(pieces(next).drop_last() =~= ps.drop_last());
        }
        proof {
            lemma_pieces_nonempty(next);
        }
        i += 1;
    }
    let ghost ps = pieces(s@.subrange(0, n as int));
    assert(s@.subrange(0, n as int) =~= s@);
    assert(ps =~= ps.drop_last().push(ps.last()));
    push_piece(&mut out, cur);
    out
}

/// The lot ids among a list of entries, in order.
pub open spec fn lot_ids(refs: Seq<DependencyRefView>) -> Seq<u64>
    decreases refs.len(),
{
    if refs.len() == 0 {
        seq![]
    } else {
        lot_ids(refs.drop_last()) + match refs.last() {
            DependencyRefView::Lot(id) => seq![id],
            DependencyRefView::Unreadable(_) => seq![],
        }
    }
}

/// The ids whose lots the store must be asked for to resolve `refs`.
pub fn ids_to_fetch(refs: &Vec<DependencyRef>) -> (r: Vec<u64>)
    ensures
        r@ == lot_ids(ref_views(refs@)),
{
    let mut out: Vec<u64> = Vec::new();
    let n = refs.len();
    let mut i: usize = 0;
    while i < n
        invariant
            n == refs@.len(),
            i <= n,
            out@ == lot_ids(ref_views(refs@.subrange(0, i as int))),
        decreases n - i,
    {
        let ghost prefix = ref_views(refs@.subrange(0, i as int));
        let ghost next = ref_views(refs@.subrange(0, i + 1));
        assert(next.drop_last() =~= prefix);
        assert(next.last() == refs@[i as int]@);
        if let DependencyRef::Lot(id) = &refs[i] {
            out.push(*id);
        }
        assert(out@ =~= lot_ids(next));
        i += 1;
    }
    assert(refs@.subrange(0, n as int) =~= refs@);
    out
}

/// A lot as a dependency list shows it.
#[derive(Clone, Debug, PartialEq, Eq)]
pub struct LotSummary {
    pub id: u64,
    pub name: String,
}

/// What became of one entry of a dependency string.
#[derive(Clone, Debug, PartialEq, Eq)]
pub enum DependencyEntry {
    Resolved(LotSummary),
    Missing(u64),
    Unreadable(String),
}

/// The first summary with the given id, if any.
pub open spec fn find_summary(found: Seq<LotSummary>, id: u64) -> Option<LotSummary>
    decreases found.len(),
{
    if found.len() == 0 {
        None
    } else if found[0].id == id {
        Some(found[0])
    } else {
        find_summary(found.drop_first(), id)
    }
}

/// How an entry resolves against the lots the store returned.
pub open spec fn resolves_to(r: DependencyRefView, found: Seq<LotSummary>, e: DependencyEntry) -> bool {
    match r {
        DependencyRefView::Lot(id) => match find_summary(found, id) {
            Some(s) => e == DependencyEntry::Resolved(s),
            None => e == DependencyEntry::Missing(id),
        },
        DependencyRefView::Unreadable(t) => e matches DependencyEntry::Unreadable(u) && u@ == t,
    }
}

fn copy_summary(s: &LotSummary) -> (r: LotSummary)
    ensures
        r == *s,
{
    LotSummary { id: s.id, name: s.name.clone() }
}

fn find_lot(found: &Vec<LotSummary>, id: u64) -> (r: Option<LotSummary>)
    ensures
        r == find_summary(found@, id),
{
    let n = found.len();
    let mut i: usize = 0;
    assert(found@.subrange(0, n as int) =~= found@);
    while i < n
        invariant
            n == found@.len(),
            i <= n,
            find_summary(found@.subrange(i as int, n as int), id) == find_summary(found@, id),
        decreases n - i,
    {
        let ghost rest = found@.subrange(i as int, n as int);
        assert(rest.drop_first() =~= found@.subrange(i + 1, n as int));
        if found[i].id == id {
            return Some(copy_summary(&found[i]));
        }
        i += 1;
    }
    None
}

/// Resolves each entry against the lots the store returned for them: a
/// known lot is resolved, an unknown id is reported missing, and text that
/// is no id is reported as it stands.
pub fn resolve_dependencies(refs: Vec<DependencyRef>, found: &Vec<LotSummary>) -> (r: Vec<DependencyEntry>)
    ensures
        r@.len() == refs@.len(),
        forall|i: int| 0 <= i < r@.len() ==> resolves_to(#[trigger] refs@[i]@, found@, r@[i]),
{
    let mut out: Vec<DependencyEntry> = Vec::new();
    let n = refs.len();
    let mut i: usize = 0;
    while i < n
        invariant
            n == refs@.len(),
            i <= n,
            out@.len() == i,
            forall|j: int| 0 <= j < i ==> resolves_to(#[trigger] refs@[j]@, found@, out@[j]),
        decreases n - i,
    {
        let e = match &refs[i] {
            DependencyRef::Lot(id) => match find_lot(found, *id) {
                Some(s) => DependencyEntry::Resolved(s),
                None => DependencyEntry::Missing(*id),
            },
            DependencyRef::Unreadable(t) => DependencyEntry::Unreadable(t.clone()),
        };
        out.push(e);
        i += 1;
    }
    out
}

/// A lot that may depend on another, with its dependency string.
pub struct Candidate {
    pub summary: LotSummary,
    pub deps: String,
}

/// Whether a dependency string names the lot `id`.
pub open spec fn names_lot(deps: Seq<char>, id: u64) -> bool {
    dependency_refs(deps).contains(DependencyRefView::Lot(id))
}

fn refs_name_lot(refs: &Vec<DependencyRef>, id: u64) -> (r: bool)
    ensures
        r == ref_views(refs@).contains(DependencyRefView::Lot(id)),
{
    let n = refs.len();
    let mut i: usize = 0;
    while i < n
        invariant
            n == refs@.len(),
            i <= n,
            forall|j: int| 0 <= j < i ==> ref_views(refs@)[j] != DependencyRefView::Lot(id),
        decreases n - i,
    {
        if let DependencyRef::Lot(x) = &refs[i] {
            if *x == id {
                assert(ref_views(refs@)[i as int] == DependencyRefView::Lot(id));
                return true;
            }
        }
        i += 1;
    }
    false
}

/// The lots among the candidates whose dependency strings name `id`, in
/// the order given.
pub fn dependents_of(id: u64, candidates: Vec<Candidate>) -> (r: Vec<LotSummary>)
    ensures
        r@ == candidates@.filter(|c: Candidate| names_lot(c.deps@, id)).map_values(
            |c: Candidate| c.summary,
        ),
{
    let ghost keep = |c: Candidate| names_lot(c.deps@, id);
    let ghost pick = |c: Candidate| c.summary;
    let mut out: Vec<LotSummary> = Vec::new();
    let n = candidates.len();
    let mut i: usize = 0;
    while i < n
        invariant
            n == candidates@.len(),
            i <= n,
            keep == (|c: Candidate| names_lot(c.deps@, id)),
            pick == (|c: Candidate| c.summary),
            out@ == candidates@.subrange(0, i as int).filter(keep).map_values(pick),
        decreases n - i,
    {
        let c = &candidates[i];
        let refs = parse_dependencies(c.deps.as_str());
        let hit = refs_name_lot(&refs, id);
        let ghost prefix = candidates@.subrange(0, i as int);
        let ghost next = candidates@.subrange(0, i + 1);
        assert(next =~= prefix.push(candidates@[i as int]));
        proof {
            prefix.lemma_filter_push(candidates@[i as int], keep);
        }
        assert(keep(candidates@[i as int]) == hit);
        let ghost before = out@;
        if hit {
            out.push(copy_summary(&c.summary));
            assert(next.filter(keep) == prefix.filter(keep).push(candidates@[i as int]));
        } else {
            assert(next.filter(keep) == prefix.filter(keep));
        }
        assert(out@ =~= next.filter(keep).map_values(pick));
        i += 1;
    }
    assert(candidates@.subrange(0, n as int) =~= candidates@);
    out
}

} // verus!
