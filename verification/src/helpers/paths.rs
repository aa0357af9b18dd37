//! Path components and the component-wise `Path::starts_with`, as used to find the filesystem
//! that covers a path.
use vstd::prelude::*;

use crate::text::{char_views, chars_eq, chars_of, split, split_exec};

verus! {

/// The pieces of a `'/'`-split path that name something: neither empty nor `"."`.
pub open spec fn named_pieces(segs: Seq<Seq<char>>) -> Seq<Seq<char>>
    decreases segs.len(),
{
    if segs.len() == 0 {
        Seq::empty()
    } else {
        let prev = named_pieces(segs.drop_last());
        let s = segs.last();
        if s.len() == 0 || s == "."@ {
            prev
        } else {
            prev.push(s)
        }
    }
}

/// The components of path `p` (as `Path::components` gives them on Unix): a root `"/"`
/// for an absolute path, a leading `"."` for a path that starts with one, then the named
/// pieces; repeated separators and inner `"."` pieces are dropped.
pub open spec fn components(p: Seq<char>) -> Seq<Seq<char>> {
    let segs = split(p, '/');
    if p.len() > 0 && p[0] == '/' {
        seq!["/"@] + named_pieces(segs)
    } else if segs[0] == "."@ {
        seq!["."@] + named_pieces(segs)
    } else {
        named_pieces(segs)
    }
}

/// `Path::new(p).starts_with(base)`: the components of `base` are a prefix of those of `p`.
pub open spec fn path_starts_with(p: Seq<char>, base: Seq<char>) -> bool {
    let a = components(p);
    let b = components(base);
    b.len() <= a.len() && a.take(b.len() as int) == b
}

/// The components of `p`.
pub fn components_exec(p: &Vec<char>) -> (r: Vec<Vec<char>>)
    ensures
        char_views(r@) == components(p@),
{
    let segs = split_exec(p, '/');
    let ghost sv = char_views(segs@);
    proof {
        crate::helpers::kernel::lemma_split_nonempty(p@, '/');
    }
    let dot = chars_of(".");
    let mut out: Vec<Vec<char>> = Vec::new();
    let absolute = p.len() > 0 && p[0] == '/';
    let leading_dot = chars_eq(&segs[0], &dot);
    assert(sv[0] == segs@[0]@);
    if absolute {
        out.push(chars_of("/"));
    } else if leading_dot {
        out.push(chars_of("."));
    }
    let ghost head = char_views(out@);
    let mut i: usize = 0;
    assert(sv.take(0) =~= Seq::<Seq<char>>::empty());
    assert(char_views(out@) =~= head + named_pieces(sv.take(0)));
    while i < segs.len()
        invariant
            i <= segs.len(),
            sv == char_views(segs@),
            dot@ == "."@,
            char_views(out@) == head + named_pieces(sv.take(i as int)),
        decreases segs.len() - i,
    {
        assert(sv.take(i + 1).drop_last() =~= sv.take(i as int));
        assert(sv.take(i + 1).last() == segs@[i as int]@);
        let keep = segs[i].len() > 0 && !chars_eq(&segs[i], &dot);
        if keep {
            let s = segs[i].clone();
            proof {
                assert(char_views(out@.push(s)) =~= char_views(out@).push(s@));
                assert(head + named_pieces(sv.take(i as int)).push(s@) =~= (head + named_pieces(
                    sv.take(i as int),
                )).push(s@));
            }
            out.push(s);
        }
        i = i + 1;
    }
    assert(sv.take(segs.len() as int) =~= sv);
    out
}

/// Whether path `p` starts with path `base`, component by component.
pub fn path_starts_with_exec(p: &Vec<char>, base: &Vec<char>) -> (r: bool)
    ensures
        r == path_starts_with(p@, base@),
{
    let a = components_exec(p);
    let b = components_exec(base);
    let ghost av = char_views(a@);
    let ghost bv = char_views(b@);
    if b.len() > a.len() {
        return false;
    }
    let mut i: usize = 0;
    while i < b.len()
        invariant
            i <= b.len() <= a.len(),
            av == char_views(a@),
            bv == char_views(b@),
            av == components(p@),
            bv == components(base@),
            forall|j: int| 0 <= j < i ==> av[j] == bv[j],
        decreases b.len() - i,
    {
        if !chars_eq(&a[i], &b[i]) {
            assert(av[i as int] == a@[i as int]@);
            assert(bv[i as int] == b@[i as int]@);
            assert(av.take(bv.len() as int)[i as int] != bv[i as int]);
            assert(av.take(bv.len() as int) != bv);
            return false;
        }
        i = i + 1;
    }
    assert(av.take(bv.len() as int) =~= bv);
    true
}

} // verus!
