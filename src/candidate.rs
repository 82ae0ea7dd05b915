//! The six shapes a documentation path may denote, the candidates that a path
//! of a given length admits, and where each candidate's page lives.
use vstd::prelude::*;
use crate::text::{chars_of, owned, string_of};

verus! {

/// The kind of documentation entity a candidate stands for.
#[derive(Clone, Copy, Debug, PartialEq, Eq, Structural)]
pub enum StructureType {
    Module,
    Function,
    Struct,
    Trait,
    Method,
    TraitMethod,
}

/// One speculative reading of a path: a shape, the module segments that lead
/// to it (the crate's name first) and the entity's own name.
///
/// For `Module` the module segments are the whole path; for the other shapes
/// they are the path without its last segment, and for `Method` and
/// `TraitMethod` their last segment names the owning struct or trait.
pub struct CrateStructure {
    pub module: Vec<String>,
    pub name: String,
    pub structure_type: StructureType,
}

impl CrateStructure {
    /// The candidate has the segments that its shape needs.
    pub open spec fn wf(&self) -> bool {
        &&& self.module@.len() >= 1
        &&& (self.structure_type == StructureType::Method || self.structure_type
            == StructureType::TraitMethod) ==> self.module@.len() >= 2
    }
}

/// The segments of `rest` split at each `::` scanned from the left, where the
/// first segment starts with `cur`.
pub open spec fn split_from(rest: Seq<char>, cur: Seq<char>) -> Seq<Seq<char>>
    decreases rest.len(),
{
    if rest.len() == 0 {
        seq![cur]
    } else if rest.len() >= 2 && rest[0] == ':' && rest[1] == ':' {
        seq![cur] + split_from(rest.skip(2), Seq::empty())
    } else {
        split_from(rest.skip(1), cur.push(rest[0]))
    }
}

/// The segments of a path separated by `::`.
pub open spec fn path_segments(path: Seq<char>) -> Seq<Seq<char>> {
    split_from(path, Seq::empty())
}

proof fn lemma_split_from_nonempty(rest: Seq<char>, cur: Seq<char>)
    ensures
        split_from(rest, cur).len() >= 1,
    decreases rest.len(),
{
    if rest.len() == 0 {
    } else if rest.len() >= 2 && rest[0] == ':' && rest[1] == ':' {
        lemma_split_from_nonempty(rest.skip(2), Seq::empty());
    } else {
        lemma_split_from_nonempty(rest.skip(1), cur.push(rest[0]));
    }
}

/// Splits a path at each `::`, as in `serde::de::Deserialize`.
pub fn split_path(path: &str) -> (r: Vec<String>)
    ensures
        r.deep_view() == path_segments(path@),
        r@.len() >= 1,
{
    let cs = chars_of(path);
    let mut done: Vec<String> = Vec::new();
    let mut cur: Vec<char> = Vec::new();
    let mut i: usize = 0;
    assert(cs@.skip(0) == cs@);
    assert(done.deep_view() + split_from(cs@, cur@) == split_from(cs@, cur@));
    while i < cs.len()
        invariant
            i <= cs@.len(),
            done.deep_view() + split_from(cs@.skip(i as int), cur@) == path_segments(cs@),
        decreases cs@.len() - i,
    {
        let ghost rest = cs@.skip(i as int);
        if i + 1 < cs.len() && cs[i] == ':' && cs[i + 1] == ':' {
            assert(rest.skip(2) == cs@.skip(i as int + 2));
            let seg = string_of(&cur);
            let ghost before = done.deep_view();
            done.push(seg);
            assert(done.deep_view() == before.push(seg@));
            assert(done.deep_view() + split_from(cs@.skip(i as int + 2), Seq::empty())
                == before + split_from(rest, cur@));
            cur = Vec::new();
            i = i + 2;
        } else {
            assert(rest.skip(1) == cs@.skip(i as int + 1));
            cur.push(cs[i]);
            i = i + 1;
        }
    }
    assert(cs@.skip(cs@.len() as int).len() == 0);
    let seg = string_of(&cur);
    let ghost before = done.deep_view();
    done.push(seg);
    assert(done.deep_view() == before.push(seg@));
    proof {
        lemma_split_from_nonempty(cs@, Seq::empty());
    }
    done
}

/// The shapes that a path of `len` segments may denote, in priority order.
pub open spec fn plausible_shapes(len: nat) -> Seq<StructureType> {
    if len <= 1 {
        seq![StructureType::Module]
    } else if len == 2 {
        seq![StructureType::Module, StructureType::Function, StructureType::Struct, StructureType::Trait]
    } else {
        seq![
            StructureType::Module,
            StructureType::Function,
            StructureType::Struct,
            StructureType::Trait,
            StructureType::Method,
            StructureType::TraitMethod,
        ]
    }
}

/// The module segments that a candidate of `shape` takes from `segments`.
pub open spec fn module_of(segments: Seq<Seq<char>>, shape: StructureType) -> Seq<Seq<char>> {
    if shape == StructureType::Module {
        segments
    } else {
        segments.drop_last()
    }
}

/// The candidate at `i` is the `i`-th plausible shape read from `segments`.
pub open spec fn is_candidate(c: CrateStructure, segments: Seq<Seq<char>>, shape: StructureType) -> bool {
    &&& c.structure_type == shape
    &&& c.module.deep_view() == module_of(segments, shape)
    &&& c.name@ == segments.last()
}

/// The first `n` segments.
fn prefix(v: &Vec<String>, n: usize) -> (r: Vec<String>)
    requires
        n <= v@.len(),
    ensures
        r.deep_view() == v.deep_view().take(n as int),
{
    let mut r: Vec<String> = Vec::new();
    let mut i: usize = 0;
    while i < n
        invariant
            i <= n <= v@.len(),
            r.deep_view() == v.deep_view().take(i as int),
        decreases n - i,
    {
        let ghost before = r.deep_view();
        r.push(v[i].clone());
        assert(r.deep_view() == before.push(v[i as int]@));
        assert(v.deep_view().take(i as int + 1) == v.deep_view().take(i as int).push(v[i as int]@));
        i = i + 1;
    }
    r
}

fn candidate_of(segments: &Vec<String>, shape: StructureType) -> (r: CrateStructure)
    requires
        segments@.len() >= 1,
        shape != StructureType::Module ==> segments@.len() >= 2,
        (shape == StructureType::Method || shape == StructureType::TraitMethod) ==> segments@.len() >= 3,
    ensures
        is_candidate(r, segments.deep_view(), shape),
        r.wf(),
{
    let n = segments.len();
    let module = if shape == StructureType::Module {
        prefix(segments, n)
    } else {
        prefix(segments, n - 1)
    };
    assert(segments.deep_view().take(n as int) == segments.deep_view());
    assert(segments.deep_view().take(n - 1) == segments.deep_view().drop_last());
    let name = segments[n - 1].clone();
    assert(module.deep_view().len() == module@.len());
    assert(n >= 3 ==> module.deep_view().len() >= 2);
    CrateStructure { module, name, structure_type: shape }
}

/// Every candidate that a path of the given segments admits, in priority order:
/// one for a single segment, four owner-less ones for two, all six for more.
pub fn candidates(segments: &Vec<String>) -> (r: Vec<CrateStructure>)
    requires
        segments@.len() >= 1,
    ensures
        r@.len() == plausible_shapes(segments@.len()).len(),
        forall|i: int| 0 <= i < r@.len() ==> #[trigger] is_candidate(r@[i], segments.deep_view(), plausible_shapes(segments@.len())[i]),
        forall|i: int| 0 <= i < r@.len() ==> #[trigger] r@[i].wf(),
{
    let n = segments.len();
    let ghost shapes = plausible_shapes(n as nat);
    let mut r: Vec<CrateStructure> = Vec::new();
    r.push(candidate_of(segments, StructureType::Module));
    if n >= 2 {
        r.push(candidate_of(segments, StructureType::Function));
        r.push(candidate_of(segments, StructureType::Struct));
        r.push(candidate_of(segments, StructureType::Trait));
    }
    if n >= 3 {
        r.push(candidate_of(segments, StructureType::Method));
        r.push(candidate_of(segments, StructureType::TraitMethod));
    }
    r
}

/// For every path length the candidate set has exactly one member (one
/// segment), four (two segments) or six (three or more), and a shape that
/// names an owner is a candidate only from three segments on.
pub proof fn lemma_candidate_set_size(len: nat)
    requires
        len >= 1,
    ensures
        plausible_shapes(len).len() == (if len == 1 {
            1nat
        } else if len == 2 {
            4nat
        } else {
            6nat
        }),
        len < 3 ==> forall|i: int|
            0 <= i < plausible_shapes(len).len() ==> #[trigger] plausible_shapes(len)[i]
                != StructureType::Method && plausible_shapes(len)[i] != StructureType::TraitMethod,
{
}

/// `segments`, each followed by a slash.
pub open spec fn dir_path(segments: Seq<Seq<char>>) -> Seq<char>
    decreases segments.len(),
{
    if segments.len() == 0 {
        Seq::empty()
    } else {
        dir_path(segments.drop_last()) + segments.last() + seq!['/']
    }
}

/// Where a candidate's page lives below a documentation root.
pub open spec fn page_url_spec(origin: Seq<char>, c: CrateStructure) -> Seq<char> {
    let module = c.module.deep_view();
    let inner = module.skip(1);
    match c.structure_type {
        StructureType::Module => origin + dir_path(inner) + "index.html"@,
        StructureType::Function => origin + dir_path(inner) + "fn."@ + c.name@ + ".html"@,
        StructureType::Struct => origin + dir_path(inner) + "struct."@ + c.name@ + ".html"@,
        StructureType::Trait => origin + dir_path(inner) + "trait."@ + c.name@ + ".html"@,
        StructureType::Method => origin + dir_path(inner.drop_last()) + "struct."@ + module.last()
            + ".html"@,
        StructureType::TraitMethod => origin + dir_path(inner.drop_last()) + "trait."@
            + module.last() + ".html"@,
    }
}

fn push_dirs(out: &mut String, module: &Vec<String>, from: usize, to: usize)
    requires
        from <= to <= module@.len(),
    ensures
        final(out)@ == old(out)@ + dir_path(module.deep_view().subrange(from as int, to as int)),
{
    let mut i: usize = from;
    proof {
        reveal_strlit("/");
        assert(module.deep_view().subrange(from as int, from as int).len() == 0);
    }
    while i < to
        invariant
            from <= i <= to <= module@.len(),
            out@ == old(out)@ + dir_path(module.deep_view().subrange(from as int, i as int)),
        decreases to - i,
    {
        out.append(module[i].as_str());
        out.append("/");
        proof {
            reveal_strlit("/");
            let s = module.deep_view().subrange(from as int, i as int + 1);
            assert(s.drop_last() == module.deep_view().subrange(from as int, i as int));
            assert(s.last() == module[i as int]@);
        }
        i = i + 1;
    }
}

/// The address of a candidate's page below the documentation root `origin`.
pub fn page_url(origin: &str, c: &CrateStructure) -> (r: String)
    requires
        c.wf(),
    ensures
        r@ == page_url_spec(origin@, *c),
{
    let mut out = owned(origin);
    let n = c.module.len();
    let ghost module = c.module.deep_view();
    match c.structure_type {
        StructureType::Module => {
            push_dirs(&mut out, &c.module, 1, n);
            assert(module.subrange(1, n as int) == module.skip(1));
            out.append("index.html");
        },
        StructureType::Function => {
            push_dirs(&mut out, &c.module, 1, n);
            assert(module.subrange(1, n as int) == module.skip(1));
            out.append("fn.");
            out.append(c.name.as_str());
            out.append(".html");
        },
        StructureType::Struct => {
            push_dirs(&mut out, &c.module, 1, n);
            assert(module.subrange(1, n as int) == module.skip(1));
            out.append("struct.");
            out.append(c.name.as_str());
            out.append(".html");
        },
        StructureType::Trait => {
            push_dirs(&mut out, &c.module, 1, n);
            assert(module.subrange(1, n as int) == module.skip(1));
            out.append("trait.");
            out.append(c.name.as_str());
            out.append(".html");
        },
        StructureType::Method => {
            push_dirs(&mut out, &c.module, 1, n - 1);
            assert(module.subrange(1, n - 1) == module.skip(1).drop_last());
            out.append("struct.");
            out.append(c.module[n - 1].as_str());
            out.append(".html");
        },
        StructureType::TraitMethod => {
            push_dirs(&mut out, &c.module, 1, n - 1);
            assert(module.subrange(1, n - 1) == module.skip(1).drop_last());
            out.append("trait.");
            out.append(c.module[n - 1].as_str());
            out.append(".html");
        },
    }
    out
}

} // verus!
