//! Paths as sequences of components, and the changed files that the session is told of.

use vstd::prelude::*;
use crate::text::{chars_of, join, join_with, string_of, views};

verus! {

/// A changed file: the components of its path, and whether it is absolute.
pub struct ChangedPath {
    pub components: Vec<String>,
    pub absolute: bool,
}

/// A path written out as text: its components with `sep` between each two.
/// A root component that is itself a separator comes out doubled, which no
/// rule of the classifier depends on.
pub open spec fn path_text(components: Seq<String>, sep: char) -> Seq<char> {
    join_with(parts(components), sep)
}

impl ChangedPath {
    /// The path written out with `sep` between its components.
    pub fn text(&self, sep: char) -> (r: String)
        ensures
            r@ == path_text(self.components@, sep),
    {
        let chars = component_chars(&self.components, 0);
        assert(parts(self.components@).subrange(0, self.components@.len() as int) =~= parts(self.components@));
        string_of(&join(&chars, sep))
    }
}

/// The text of each path component.
pub open spec fn parts(v: Seq<String>) -> Seq<Seq<char>> {
    v.map_values(|x: String| x@)
}

pub open spec fn is_prefix(pre: Seq<Seq<char>>, path: Seq<Seq<char>>) -> bool {
    pre.len() <= path.len() && path.subrange(0, pre.len() as int) == pre
}

pub open spec fn is_suffix(tail: Seq<Seq<char>>, path: Seq<Seq<char>>) -> bool {
    tail.len() <= path.len() && path.subrange(path.len() - tail.len(), path.len() as int) == tail
}

/// `base` with components appended.
pub fn extended(base: &Vec<String>, names: &Vec<&str>) -> (r: Vec<String>)
    ensures
        parts(r@) == parts(base@) + names@.map_values(|x: &str| x@),
{
    let mut r: Vec<String> = Vec::new();
    let mut i: usize = 0;
    while i < base.len()
        invariant
            i <= base@.len(),
            parts(r@) == parts(base@.subrange(0, i as int)),
        decreases base@.len() - i,
    {
        let ghost before = r@;
        let item = base[i].clone();
        r.push(item);
        assert(r@ == before.push(base@[i as int]));
        assert(parts(r@) =~= parts(before).push(base@[i as int]@));
        assert(base@.subrange(0, i + 1) =~= base@.subrange(0, i as int).push(base@[i as int]));
        i = i + 1;
        assert(parts(r@) =~= parts(base@.subrange(0, i as int)));
    }
    assert(base@.subrange(0, base@.len() as int) =~= base@);
    let mut j: usize = 0;
    while j < names.len()
        invariant
            j <= names@.len(),
            parts(r@) == parts(base@) + names@.subrange(0, j as int).map_values(|x: &str| x@),
        decreases names@.len() - j,
    {
        let ghost before = r@;
        let item = names[j].to_owned();
        r.push(item);
        assert(parts(r@) =~= parts(before).push(names@[j as int]@));
        j = j + 1;
        assert(parts(r@) =~= parts(base@) + names@.subrange(0, j as int).map_values(|x: &str| x@));
    }
    assert(names@.subrange(0, names@.len() as int) =~= names@);
    r
}

/// `path` begins with the components of `pre`.
pub fn has_prefix(path: &Vec<String>, pre: &Vec<String>) -> (r: bool)
    ensures
        r == is_prefix(parts(pre@), parts(path@)),
{
    if pre.len() > path.len() {
        return false;
    }
    let mut i: usize = 0;
    while i < pre.len()
        invariant
            pre@.len() <= path@.len(),
            i <= pre@.len(),
            forall|t: int| 0 <= t < i ==> path@[t]@ == pre@[t]@,
        decreases pre@.len() - i,
    {
        if path[i] != pre[i] {
            assert(parts(path@).subrange(0, pre@.len() as int)[i as int] != parts(pre@)[i as int]);
            return false;
        }
        i = i + 1;
    }
    assert(parts(path@).subrange(0, pre@.len() as int) =~= parts(pre@));
    true
}

/// `path` ends with the components of `tail`.
pub fn has_suffix(path: &Vec<String>, tail: &Vec<String>) -> (r: bool)
    ensures
        r == is_suffix(parts(tail@), parts(path@)),
{
    if tail.len() > path.len() {
        return false;
    }
    let n: usize = path.len();
    let off: usize = path.len() - tail.len();
    let mut i: usize = 0;
    while i < tail.len()
        invariant
            n == path@.len(),
            off + tail@.len() == path@.len(),
            i <= tail@.len(),
            forall|t: int| 0 <= t < i ==> path@[off + t]@ == tail@[t]@,
        decreases tail@.len() - i,
    {
        if path[off + i] != tail[i] {
            assert(parts(path@).subrange(off as int, path@.len() as int)[i as int] != parts(tail@)[i as int]);
            return false;
        }
        i = i + 1;
    }
    assert(parts(path@).subrange(off as int, path@.len() as int) =~= parts(tail@));
    true
}

/// The characters of each component of `v` from index `from` on.
pub fn component_chars(v: &Vec<String>, from: usize) -> (r: Vec<Vec<char>>)
    requires
        from <= v@.len(),
    ensures
        views(r@) == parts(v@).subrange(from as int, v@.len() as int),
{
    let mut r: Vec<Vec<char>> = Vec::new();
    let mut i: usize = from;
    while i < v.len()
        invariant
            from <= i <= v@.len(),
            views(r@) == parts(v@).subrange(from as int, i as int),
        decreases v@.len() - i,
    {
        let ghost before = r@;
        let item = chars_of(v[i].as_str());
        r.push(item);
        assert(views(r@) =~= views(before).push(v@[i as int]@));
        i = i + 1;
        assert(views(r@) =~= parts(v@).subrange(from as int, i as int));
    }
    r
}

} // verus!
