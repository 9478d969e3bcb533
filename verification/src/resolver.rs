//! Symbol path resolver: the shortest valid reference between two
//! positions in a hierarchical module tree.

use vstd::prelude::*;
use crate::ident::PathView;
use crate::ident::RustIdent;
use crate::ident::RustIdentWithPath;
use crate::ident::RustPath;

verus! {

broadcast use vstd::seq::Seq::lemma_push_map_commute;

/// Length of the longest common leading run of segments of two paths.
pub open spec fn common_prefix_len(a: Seq<Seq<char>>, b: Seq<Seq<char>>) -> int
    decreases a.len(),
{
    if a.len() == 0 || b.len() == 0 || a[0] != b[0] {
        0
    } else {
        1 + common_prefix_len(a.drop_first(), b.drop_first())
    }
}

proof fn lemma_cpl_at(a: Seq<Seq<char>>, b: Seq<Seq<char>>, k: int)
    requires
        0 <= k <= a.len(),
        k <= b.len(),
        forall|j: int| 0 <= j < k ==> a[j] == b[j],
        k < a.len() && k < b.len() ==> a[k] != b[k],
    ensures
        common_prefix_len(a, b) == k,
    decreases k,
{
    if k == 0 {
    } else {
        assert(a[0] == b[0]);
        lemma_cpl_at(a.drop_first(), b.drop_first(), k - 1);
    }
}

/// The shortest reference from a module at `src` to the position `dst`:
/// an absolute destination is kept as it is; otherwise the common leading
/// segments are stripped, one parent-traversal segment is emitted for
/// every remaining segment of `src`, and the remaining segments of `dst`
/// follow.
pub open spec fn shortest_path_spec(src: PathView, dst: PathView) -> PathView {
    if dst.absolute {
        dst
    } else {
        let k = common_prefix_len(src.segments, dst.segments);
        PathView {
            absolute: false,
            segments: Seq::new((src.segments.len() - k) as nat, |i: int| "super"@)
                + dst.segments.skip(k),
        }
    }
}

/// Compute the shortest path from the module position `source` to the
/// destination position `dest`.
pub fn make_path_to_path(source: &RustPath, dest: &RustPath) -> (r: RustPath)
    requires
        !dest@.absolute ==> !source@.absolute,
    ensures
        r@ == shortest_path_spec(source@, dest@),
{
    if dest.is_absolute() {
        return dest.clone();
    }
    let smax = source.segments.len();
    let dmax = dest.segments.len();
    let mut k: usize = 0;
    while k < smax && k < dmax && source.segments[k] == dest.segments[k]
        invariant
            k <= smax,
            k <= dmax,
            smax == source@.segments.len(),
            dmax == dest@.segments.len(),
            forall|j: int| 0 <= j < k ==> source@.segments[j] == dest@.segments[j],
        decreases smax - k,
    {
        k += 1;
    }
    proof {
        lemma_cpl_at(source@.segments, dest@.segments, k as int);
    }
    let mut segments: Vec<RustIdent> = Vec::new();
    let mut i: usize = k;
    while i < smax
        invariant
            k <= i <= smax,
            segments@.map_values(|id: RustIdent| id@)
                == Seq::new((i - k) as nat, |j: int| "super"@),
        decreases smax - i,
    {
        segments.push(RustIdent::super_ident());
        proof {
            assert(segments@.map_values(|id: RustIdent| id@)
                =~= Seq::new((i + 1 - k) as nat, |j: int| "super"@));
        }
        i += 1;
    }
    let ghost supers = segments@.map_values(|id: RustIdent| id@);
    let mut j: usize = k;
    while j < dmax
        invariant
            k <= j <= dmax,
            dmax == dest@.segments.len(),
            dest@.segments == dest.segments@.map_values(|id: RustIdent| id@),
            segments@.map_values(|id: RustIdent| id@)
                == supers + dest@.segments.subrange(k as int, j as int),
        decreases dmax - j,
    {
        segments.push(dest.segments[j].clone());
        proof {
            assert(segments@.map_values(|id: RustIdent| id@)
                =~= supers + dest@.segments.subrange(k as int, j + 1 as int));
        }
        j += 1;
    }
    let r = RustPath { absolute: false, segments };
    proof {
        assert(dest@.segments.subrange(k as int, dmax as int) =~= dest@.segments.skip(k as int));
        assert(r@.segments =~= shortest_path_spec(source@, dest@).segments);
        assert(r@ =~= shortest_path_spec(source@, dest@));
    }
    r
}

/// Compute the shortest reference to a qualified identifier: the path is
/// rewritten, the identifier kept.
pub fn make_path(source: &RustPath, dest: &RustIdentWithPath) -> (r: RustIdentWithPath)
    requires
        !dest@.path.absolute ==> !source@.absolute,
    ensures
        r@.path == shortest_path_spec(source@, dest@.path),
        r@.ident == dest@.ident,
{
    make_path_to_path(source, &dest.path).with_ident(dest.ident.clone())
}

proof fn lemma_cpl_self(a: Seq<Seq<char>>)
    ensures
        common_prefix_len(a, a) == a.len(),
    decreases a.len(),
{
    if a.len() > 0 {
        lemma_cpl_self(a.drop_first());
    }
}

/// Resolver symmetry: the shortest path from a relative module position
/// to itself is the empty path. (An absolute destination is returned
/// unchanged, so the law is stated for relative positions.)
pub proof fn lemma_shortest_path_to_self_is_empty(p: PathView)
    requires
        !p.absolute,
    ensures
        shortest_path_spec(p, p).absolute == false,
        shortest_path_spec(p, p).segments == Seq::<Seq<char>>::empty(),
{
    lemma_cpl_self(p.segments);
    assert(shortest_path_spec(p, p).segments =~= Seq::<Seq<char>>::empty());
}

} // verus!
