//! Path handling over plain characters: splitting a path into its folder
//! segments (the nonempty runs between `/` separators) and taking a file
//! name apart into stem and extension at its last dot.

use vstd::prelude::*;
use vstd::string::StrSliceExecFns;

verus! {

/// The characters after the last `/` of `p` (the whole of `p` when it holds
/// no separator).
pub open spec fn tail_chunk(p: Seq<char>) -> Seq<char>
    decreases p.len(),
{
    if p.len() == 0 {
        Seq::empty()
    } else if p.last() == '/' {
        Seq::empty()
    } else {
        tail_chunk(p.drop_last()).push(p.last())
    }
}

/// The nonempty segments of `p` that are closed off by a `/`, in order.
pub open spec fn lead_segments(p: Seq<char>) -> Seq<Seq<char>>
    decreases p.len(),
{
    if p.len() == 0 {
        Seq::empty()
    } else if p.last() == '/' {
        if tail_chunk(p.drop_last()).len() > 0 {
            lead_segments(p.drop_last()).push(tail_chunk(p.drop_last()))
        } else {
            lead_segments(p.drop_last())
        }
    } else {
        lead_segments(p.drop_last())
    }
}

/// All segments of `p`: the nonempty runs of characters between `/`
/// separators. Leading, trailing and repeated separators contribute nothing.
pub open spec fn segments_of(p: Seq<char>) -> Seq<Seq<char>> {
    if tail_chunk(p).len() > 0 {
        lead_segments(p).push(tail_chunk(p))
    } else {
        lead_segments(p)
    }
}

/// Splits a path into its segments.
pub fn split_path(p: &str) -> (segs: Vec<String>)
    ensures
        segs.deep_view() == segments_of(p@),
{
    let n = p.unicode_len();
    let mut segs: Vec<String> = Vec::new();
    let mut start: usize = 0;
    let mut i: usize = 0;
    while i < n
        invariant
            start <= i <= n,
            n == p@.len(),
            tail_chunk(p@.take(i as int)) == p@.subrange(start as int, i as int),
            segs.deep_view() == lead_segments(p@.take(i as int)),
        decreases n - i,
    {
        let c = p.get_char(i);
        proof {
            assert(p@.take(i + 1).drop_last() =~= p@.take(i as int));
            assert(p@.take(i + 1).last() == p@[i as int]);
        }
        if c == '/' {
            if start < i {
                let ghost old_dv = segs.deep_view();
                let piece = p.substring_char(start, i).to_owned();
                segs.push(piece);
                proof {
                    assert(segs.deep_view() =~= old_dv.push(p@.subrange(
                        start as int,
                        i as int,
                    )));
                }
            }
            start = i + 1;
            proof {
                assert(tail_chunk(p@.take(i + 1)) == Seq::<char>::empty());
                assert(p@.subrange(i + 1, i + 1) =~= Seq::<char>::empty());
            }
        } else {
            proof {
                assert(tail_chunk(p@.take(i + 1)) == tail_chunk(p@.take(i as int)).push(
                    p@[i as int],
                ));
                assert(p@.subrange(start as int, i as int).push(p@[i as int]) =~= p@.subrange(
                    start as int,
                    i + 1,
                ));
            }
        }
        i += 1;
    }
    proof {
        assert(p@.take(n as int) =~= p@);
    }
    if start < n {
        let ghost old_dv = segs.deep_view();
        let piece = p.substring_char(start, n).to_owned();
        segs.push(piece);
        proof {
            assert(segs.deep_view() =~= old_dv.push(p@.subrange(start as int, n as int)));
        }
    }
    segs
}

/// The position of the last `.` in a file name, if any.
pub open spec fn spec_last_dot(name: Seq<char>) -> Option<int>
    decreases name.len(),
{
    if name.len() == 0 {
        None
    } else if name.last() == '.' {
        Some(name.len() - 1)
    } else {
        spec_last_dot(name.drop_last())
    }
}

/// The stem of a file name: the part before the last dot, except that a name
/// without a dot, or with its only dot in front, is its own stem.
pub open spec fn spec_stem_of_name(name: Seq<char>) -> Seq<char> {
    match spec_last_dot(name) {
        Some(d) => if d > 0 {
            name.take(d)
        } else {
            name
        },
        None => name,
    }
}

/// The extension of a file name: the part after the last dot, absent for a
/// name without a dot or with its only dot in front.
pub open spec fn spec_ext_of_name(name: Seq<char>) -> Option<Seq<char>> {
    match spec_last_dot(name) {
        Some(d) => if d > 0 {
            Some(name.skip(d + 1))
        } else {
            None
        },
        None => None,
    }
}

/// A found dot position lies inside the name, on a dot.
proof fn lemma_last_dot_in_range(name: Seq<char>)
    ensures
        spec_last_dot(name) matches Some(d) ==> 0 <= d < name.len() && name[d] == '.',
    decreases name.len(),
{
    if name.len() > 0 && name.last() != '.' {
        lemma_last_dot_in_range(name.drop_last());
    }
}

/// Finds the last `.` of a file name.
fn find_last_dot(name: &str) -> (r: Option<usize>)
    ensures
        match r {
            Some(d) => spec_last_dot(name@) == Some(d as int) && d < name@.len(),
            None => spec_last_dot(name@) is None,
        },
{
    let n = name.unicode_len();
    proof {
        assert(name@.take(n as int) =~= name@);
    }
    let mut j: usize = n;
    while j > 0
        invariant
            j <= n,
            n == name@.len(),
            spec_last_dot(name@) == spec_last_dot(name@.take(j as int)),
        decreases j,
    {
        proof {
            assert(name@.take(j as int).last() == name@[j - 1]);
            assert(name@.take(j as int).drop_last() =~= name@.take(j - 1));
        }
        if name.get_char(j - 1) == '.' {
            return Some(j - 1);
        }
        j -= 1;
    }
    None
}

/// The stem of a file name, as an owned string.
pub fn stem_of(name: &str) -> (r: String)
    ensures
        r@ == spec_stem_of_name(name@),
{
    match find_last_dot(name) {
        Some(d) => if d > 0 {
            let s = name.substring_char(0, d);
            s.to_owned()
        } else {
            name.to_owned()
        },
        None => name.to_owned(),
    }
}

/// The extension of a file name, as an owned string.
pub fn ext_of(name: &str) -> (r: Option<String>)
    ensures
        match r {
            Some(e) => spec_ext_of_name(name@) == Some(e@),
            None => spec_ext_of_name(name@) is None,
        },
{
    match find_last_dot(name) {
        Some(d) => if d > 0 {
            let n = name.unicode_len();
            let e = name.substring_char(d + 1, n);
            proof {
                assert(name@.subrange(d + 1, n as int) =~= name@.skip(d + 1));
            }
            Some(e.to_owned())
        } else {
            None
        },
        None => None,
    }
}

} // verus!
