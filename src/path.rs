use vstd::prelude::*;
use crate::name::same_text;

verus! {

/// A filesystem path held as its sequence of components, from the root
/// down. Comparisons go component by component, never by raw text, so
/// `/a/bc` does not lie under `/a/b`.
#[derive(Debug)]
pub struct FsPath {
    pub parts: Vec<String>,
}

/// `prefix` names a directory that contains `path`, or `path` itself.
pub open spec fn is_prefix_of(prefix: Seq<Seq<char>>, path: Seq<Seq<char>>) -> bool {
    &&& prefix.len() <= path.len()
    &&& forall|j: int| 0 <= j < prefix.len() ==> #[trigger] prefix[j] == path[j]
}

/// A component that names an entry itself: not empty, not `.`, not `..`.
pub open spec fn is_plain_part(p: Seq<char>) -> bool {
    &&& p.len() > 0
    &&& p != "."@
    &&& p != ".."@
}

/// A resolved path: every component names an entry, so comparing
/// components compares places.
pub open spec fn is_resolved(path: Seq<Seq<char>>) -> bool {
    forall|i: int| 0 <= i < path.len() ==> #[trigger] is_plain_part(path[i])
}

/// The text of a path: each component after a slash.
pub open spec fn render(parts: Seq<Seq<char>>) -> Seq<char>
    decreases parts.len(),
{
    if parts.len() == 0 {
        Seq::empty()
    } else {
        render(parts.drop_last()) + "/"@ + parts.last()
    }
}

impl View for FsPath {
    type V = Seq<Seq<char>>;

    open spec fn view(&self) -> Seq<Seq<char>> {
        self.parts@.map_values(|p: String| p@)
    }
}

impl FsPath {
    /// A path from its components.
    pub fn new(parts: Vec<String>) -> (r: FsPath)
        ensures
            r.parts == parts,
    {
        FsPath { parts }
    }

    /// A copy of this path.
    pub fn clone_path(&self) -> (r: FsPath)
        ensures
            r@ == self@,
    {
        let mut parts: Vec<String> = Vec::new();
        let mut i: usize = 0;
        while i < self.parts.len()
            invariant
                i <= self.parts.len(),
                parts@.len() == i,
                forall|j: int| 0 <= j < i ==> #[trigger] parts@[j]@ == self.parts@[j]@,
            decreases self.parts.len() - i,
        {
            parts.push(self.parts[i].clone());
            i = i + 1;
        }
        let r = FsPath { parts };
        proof {
            assert(r@ =~= self@);
        }
        r
    }

    /// This path with one more component below it.
    pub fn join(&self, part: &str) -> (r: FsPath)
        ensures
            r@ == self@.push(part@),
    {
        let mut parts = self.clone_path().parts;
        parts.push(part.to_string());
        let r = FsPath { parts };
        proof {
            assert(r@ =~= self@.push(part@));
        }
        r
    }

    /// Whether `prefix` is this path or a directory above it.
    pub fn starts_with(&self, prefix: &FsPath) -> (r: bool)
        ensures
            r == is_prefix_of(prefix@, self@),
    {
        if prefix.parts.len() > self.parts.len() {
            return false;
        }
        let mut i: usize = 0;
        while i < prefix.parts.len()
            invariant
                i <= prefix.parts.len() <= self.parts.len(),
                forall|j: int| 0 <= j < i ==> #[trigger] prefix@[j] == self@[j],
            decreases prefix.parts.len() - i,
        {
            if prefix.parts[i] != self.parts[i] {
                assert(prefix@[i as int] != self@[i as int]);
                return false;
            }
            i = i + 1;
        }
        true
    }

    /// The path as text, for messages.
    pub fn display(&self) -> (r: String)
        ensures
            r@ == render(self@),
    {
        let mut r = String::new();
        let mut i: usize = 0;
        while i < self.parts.len()
            invariant
                i <= self.parts.len(),
                r@ == render(self@.subrange(0, i as int)),
            decreases self.parts.len() - i,
        {
            r.append("/");
            r.append(self.parts[i].as_str());
            proof {
                assert(self@.subrange(0, i + 1).drop_last() =~= self@.subrange(0, i as int));
            }
            i = i + 1;
        }
        proof {
            assert(self@.subrange(0, self.parts.len() as int) =~= self@);
        }
        r
    }

    /// Whether every component of this path names an entry.
    pub fn is_resolved(&self) -> (r: bool)
        ensures
            r == is_resolved(self@),
    {
        let mut i: usize = 0;
        while i < self.parts.len()
            invariant
                i <= self.parts.len(),
                forall|j: int| 0 <= j < i ==> #[trigger] is_plain_part(self@[j]),
            decreases self.parts.len() - i,
        {
            let part = self.parts[i].as_str();
            if part.unicode_len() == 0 || same_text(part, ".") || same_text(part, "..") {
                assert(!is_plain_part(self@[i as int]));
                return false;
            }
            i = i + 1;
        }
        true
    }

    /// Whether the two paths name the same place.
    pub fn same_as(&self, other: &FsPath) -> (r: bool)
        ensures
            r == (self@ == other@),
    {
        if self.parts.len() != other.parts.len() {
            return false;
        }
        let r = self.starts_with(other);
        proof {
            if r {
                assert(self@ =~= other@);
            }
        }
        r
    }
}

} // verus!
