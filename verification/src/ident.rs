//! Identifiers, module paths and path-qualified identifiers of the
//! generated language, together with their mathematical views.

use vstd::prelude::*;
use vstd::string::StringExecFns;

verus! {

broadcast use vstd::seq::Seq::lemma_push_map_commute, vstd::seq::Seq::lemma_map_take_succ;

/// Mathematical view of a module path: a flag telling whether the path is
/// absolute, and the ordered segment names.
pub struct PathView {
    pub absolute: bool,
    pub segments: Seq<Seq<char>>,
}

/// Mathematical view of an identifier qualified by a module path.
pub struct SymView {
    pub path: PathView,
    pub ident: Seq<char>,
}

/// A single identifier of the generated language.
#[derive(Debug)]
pub struct RustIdent {
    pub name: String,
}

impl View for RustIdent {
    type V = Seq<char>;

    open spec fn view(&self) -> Seq<char> {
        self.name@
    }
}

impl RustIdent {
    pub fn new(name: &str) -> (r: RustIdent)
        ensures
            r@ == name@,
    {
        RustIdent { name: String::from_str(name) }
    }

    /// The parent-traversal segment of the generated language.
    pub fn super_ident() -> (r: RustIdent)
        ensures
            r@ == "super"@,
    {
        RustIdent::new("super")
    }
}

impl Clone for RustIdent {
    fn clone(&self) -> (r: Self)
        ensures
            r@ == self@,
    {
        RustIdent { name: self.name.clone() }
    }
}

impl PartialEq for RustIdent {
    fn eq(&self, other: &Self) -> (r: bool) {
        self.name == other.name
    }
}

impl vstd::std_specs::cmp::PartialEqSpecImpl for RustIdent {
    open spec fn obeys_eq_spec() -> bool {
        true
    }

    open spec fn eq_spec(&self, other: &Self) -> bool {
        self@ == other@
    }
}

/// A module path: an ordered sequence of identifiers, absolute or
/// relative to the current position.
#[derive(Debug)]
pub struct RustPath {
    pub absolute: bool,
    pub segments: Vec<RustIdent>,
}

impl View for RustPath {
    type V = PathView;

    open spec fn view(&self) -> PathView {
        PathView {
            absolute: self.absolute,
            segments: self.segments@.map_values(|i: RustIdent| i@),
        }
    }
}

impl Clone for RustPath {
    fn clone(&self) -> (r: Self)
        ensures
            r@ == self@,
    {
        let mut segments: Vec<RustIdent> = Vec::new();
        let mut i: usize = 0;
        while i < self.segments.len()
            invariant
                i <= self.segments.len(),
                segments@.map_values(|id: RustIdent| id@)
                    == self.segments@.take(i as int).map_values(|id: RustIdent| id@),
            decreases self.segments.len() - i,
        {
            segments.push(self.segments[i].clone());
            proof {
                assert(self.segments@.take(i + 1 as int).drop_last()
                    =~= self.segments@.take(i as int));
                assert(segments@.map_values(|id: RustIdent| id@)
                    =~= self.segments@.take(i + 1 as int).map_values(|id: RustIdent| id@));
            }
            i += 1;
        }
        proof {
            assert(self.segments@.take(self.segments@.len() as int) =~= self.segments@);
        }
        let r = RustPath { absolute: self.absolute, segments };
        r
    }
}

impl RustPath {
    /// The empty relative path.
    pub fn empty() -> (r: RustPath)
        ensures
            r@.absolute == false,
            r@.segments == Seq::<Seq<char>>::empty(),
    {
        let r = RustPath { absolute: false, segments: Vec::new() };
        proof {
            assert(r@.segments =~= Seq::<Seq<char>>::empty());
        }
        r
    }

    pub fn is_absolute(&self) -> (r: bool)
        ensures
            r == self@.absolute,
    {
        self.absolute
    }

    pub fn is_empty(&self) -> (r: bool)
        ensures
            r == (self@.segments.len() == 0),
    {
        self.segments.len() == 0
    }

    /// A relative path of the same length whose every segment traverses to
    /// the parent module.
    pub fn to_reverse(&self) -> (r: RustPath)
        ensures
            r@.absolute == false,
            r@.segments == Seq::new(self@.segments.len(), |i: int| "super"@),
    {
        let mut segments: Vec<RustIdent> = Vec::new();
        let n = self.segments.len();
        let mut i: usize = 0;
        while i < n
            invariant
                i <= n,
                segments@.map_values(|id: RustIdent| id@)
                    == Seq::new(i as nat, |j: int| "super"@),
            decreases n - i,
        {
            segments.push(RustIdent::super_ident());
            proof {
                assert(segments@.map_values(|id: RustIdent| id@)
                    =~= Seq::new((i + 1) as nat, |j: int| "super"@));
            }
            i += 1;
        }
        let r = RustPath { absolute: false, segments };
        proof {
            assert(r@.segments =~= Seq::new(self@.segments.len(), |i: int| "super"@));
        }
        r
    }

    /// Append another relative path after this one.
    pub fn append(self, other: RustPath) -> (r: RustPath)
        ensures
            r@.absolute == self@.absolute,
            r@.segments == self@.segments + other@.segments,
    {
        let mut segments = self.segments;
        let ghost base = segments@.map_values(|id: RustIdent| id@);
        let mut i: usize = 0;
        while i < other.segments.len()
            invariant
                i <= other.segments.len(),
                segments@.map_values(|id: RustIdent| id@)
                    == base + other.segments@.take(i as int).map_values(|id: RustIdent| id@),
            decreases other.segments.len() - i,
        {
            segments.push(other.segments[i].clone());
            proof {
                assert(other.segments@.take(i + 1 as int).drop_last()
                    =~= other.segments@.take(i as int));
                assert(segments@.map_values(|id: RustIdent| id@)
                    =~= base + other.segments@.take(i + 1 as int).map_values(|id: RustIdent| id@));
            }
            i += 1;
        }
        proof {
            assert(other.segments@.take(other.segments@.len() as int) =~= other.segments@);
        }
        let r = RustPath { absolute: self.absolute, segments };
        r
    }

    /// Append one identifier as a final segment.
    pub fn append_ident(self, ident: RustIdent) -> (r: RustPath)
        ensures
            r@.absolute == self@.absolute,
            r@.segments == self@.segments.push(ident@),
    {
        let mut segments = self.segments;
        let ghost base = segments@.map_values(|id: RustIdent| id@);
        segments.push(ident);
        let r = RustPath { absolute: self.absolute, segments };
        proof {
            assert(r@.segments =~= base.push(ident@));
        }
        r
    }

    /// Qualify a path-carrying identifier by this path: the result keeps
    /// this path's segments, then the other's, then the other's identifier.
    pub fn append_with_ident(self, other: RustIdentWithPath) -> (r: RustIdentWithPath)
        ensures
            r@.path.absolute == self@.absolute,
            r@.path.segments == self@.segments + other@.path.segments,
            r@.ident == other@.ident,
    {
        RustIdentWithPath { path: self.append(other.path), ident: other.ident }
    }

    /// Attach a final identifier, making a qualified identifier.
    pub fn with_ident(self, ident: RustIdent) -> (r: RustIdentWithPath)
        ensures
            r@.path == self@,
            r@.ident == ident@,
    {
        RustIdentWithPath { path: self, ident }
    }
}

impl PartialEq for RustPath {
    fn eq(&self, other: &Self) -> (r: bool) {
        if self.absolute != other.absolute {
            return false;
        }
        if self.segments.len() != other.segments.len() {
            proof {
                assert(self@.segments.len() == self.segments@.len());
                assert(other@.segments.len() == other.segments@.len());
            }
            return false;
        }
        let n = self.segments.len();
        let mut i: usize = 0;
        while i < n
            invariant
                n == self.segments@.len() == other.segments@.len(),
                i <= n,
                forall|j: int| 0 <= j < i ==> self@.segments[j] == other@.segments[j],
            decreases n - i,
        {
            if !(self.segments[i] == other.segments[i]) {
                proof {
                    assert(self@.segments[i as int] == self.segments@[i as int]@);
                    assert(other@.segments[i as int] == other.segments@[i as int]@);
                }
                return false;
            }
            i += 1;
        }
        proof {
            assert(self@.segments =~= other@.segments);
            assert(self@ =~= other@);
        }
        true
    }
}

impl vstd::std_specs::cmp::PartialEqSpecImpl for RustPath {
    open spec fn obeys_eq_spec() -> bool {
        true
    }

    open spec fn eq_spec(&self, other: &Self) -> bool {
        self@ == other@
    }
}

/// An identifier qualified by a module path.
#[derive(Debug)]
pub struct RustIdentWithPath {
    pub path: RustPath,
    pub ident: RustIdent,
}

impl View for RustIdentWithPath {
    type V = SymView;

    open spec fn view(&self) -> SymView {
        SymView { path: self.path@, ident: self.ident@ }
    }
}

impl Clone for RustIdentWithPath {
    fn clone(&self) -> (r: Self)
        ensures
            r@ == self@,
    {
        let r = RustIdentWithPath { path: self.path.clone(), ident: self.ident.clone() };
        proof {
            assert(r@ =~= self@);
        }
        r
    }
}

impl PartialEq for RustIdentWithPath {
    fn eq(&self, other: &Self) -> (r: bool) {
        self.path == other.path && self.ident == other.ident
    }
}

impl vstd::std_specs::cmp::PartialEqSpecImpl for RustIdentWithPath {
    open spec fn obeys_eq_spec() -> bool {
        true
    }

    open spec fn eq_spec(&self, other: &Self) -> bool {
        self@ == other@
    }
}

impl RustIdentWithPath {
    /// A bare identifier with an empty relative path.
    pub fn new(name: &str) -> (r: RustIdentWithPath)
        ensures
            r@.path.absolute == false,
            r@.path.segments == Seq::<Seq<char>>::empty(),
            r@.ident == name@,
    {
        let r = RustIdentWithPath { path: RustPath::empty(), ident: RustIdent::new(name) };
        r
    }
}

/// The code text of a run of path segments, each segment followed by `::`.
pub open spec fn segs_code(segs: Seq<Seq<char>>) -> Seq<char>
    decreases segs.len(),
{
    if segs.len() == 0 {
        Seq::empty()
    } else {
        segs_code(segs.drop_last()) + segs.last() + "::"@
    }
}

/// The code text of a qualified identifier: `::` if absolute, then each
/// path segment followed by `::`, then the identifier.
pub open spec fn sym_code(s: SymView) -> Seq<char> {
    (if s.path.absolute {
        "::"@
    } else {
        Seq::<char>::empty()
    }) + segs_code(s.path.segments) + s.ident
}

impl RustIdentWithPath {
    /// Render this qualified identifier as code text.
    pub fn to_code(&self) -> (r: String)
        ensures
            r@ == sym_code(self@),
    {
        let mut r: String;
        if self.path.absolute {
            r = String::from_str("::");
        } else {
            r = String::new();
        }
        let ghost head = r@;
        let n = self.path.segments.len();
        let mut i: usize = 0;
        while i < n
            invariant
                i <= n,
                n == self.path.segments@.len(),
                r@ == head + segs_code(
                    self.path.segments@.take(i as int).map_values(|id: RustIdent| id@),
                ),
            decreases n - i,
        {
            let ghost segs = self.path.segments@.map_values(|id: RustIdent| id@);
            r.append(self.path.segments[i].name.as_str());
            r.append("::");
            proof {
                let t1 = self.path.segments@.take(i + 1 as int).map_values(|id: RustIdent| id@);
                let t0 = self.path.segments@.take(i as int).map_values(|id: RustIdent| id@);
                assert(t1.drop_last() =~= t0);
                assert(t1.last() == self.path.segments@[i as int]@);
                assert(r@ =~= head + segs_code(t1));
            }
            i += 1;
        }
        r.append(self.ident.name.as_str());
        proof {
            assert(self.path.segments@.take(n as int) =~= self.path.segments@);
            assert(r@ =~= sym_code(self@));
        }
        r
    }
}

} // verus!
