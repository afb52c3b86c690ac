//! Unix paths as byte sequences: the final component and absolute resolution.

use vstd::prelude::*;

verus! {

/// The path separator `/`.
pub const SEP: u8 = 47;

/// The byte `.`.
pub const DOT: u8 = 46;

/// Index just past the last separator of `p`, or 0 when `p` holds none.
pub open spec fn segment_start(p: Seq<u8>) -> int
    decreases p.len(),
{
    if p.len() == 0 {
        0
    } else if p.last() == SEP {
        p.len() as int
    } else {
        segment_start(p.drop_last())
    }
}

/// The last component of `p`: trailing separators and `.` components are
/// skipped; a path that ends in `..`, names the root or is empty has none.
pub open spec fn file_name_of(p: Seq<u8>) -> Option<Seq<u8>>
    decreases p.len(),
{
    if p.len() == 0 {
        None
    } else if p.last() == SEP {
        file_name_of(p.drop_last())
    } else {
        let seg = p.subrange(segment_start(p), p.len() as int);
        if seg == seq![DOT] {
            file_name_of(p.drop_last())
        } else if seg == seq![DOT, DOT] {
            None
        } else {
            Some(seg)
        }
    }
}

/// `dir` followed by `name`, with one separator put between them unless `dir`
/// is empty or already ends in one.
pub open spec fn join(dir: Seq<u8>, name: Seq<u8>) -> Seq<u8> {
    if dir.len() == 0 || dir.last() == SEP {
        dir + name
    } else {
        dir + seq![SEP] + name
    }
}

/// The absolute form of `p` seen from the working directory `cwd`: an
/// absolute path stays as it is, a relative one is joined to `cwd`, and the
/// empty path has none.
pub open spec fn absolute_of(cwd: Seq<u8>, p: Seq<u8>) -> Option<Seq<u8>> {
    if p.len() == 0 {
        None
    } else if p[0] == SEP {
        Some(p)
    } else {
        Some(join(cwd, p))
    }
}

/// A path that starts at the root.
pub open spec fn is_absolute(p: Seq<u8>) -> bool {
    p.len() > 0 && p[0] == SEP
}

pub proof fn lemma_segment_start(p: Seq<u8>)
    ensures
        0 <= segment_start(p) <= p.len(),
        segment_start(p) == 0 || p[segment_start(p) - 1] == SEP,
        forall|k: int| segment_start(p) <= k < p.len() ==> p[k] != SEP,
    decreases p.len(),
{
    if p.len() > 0 && p.last() != SEP {
        let q = p.drop_last();
        lemma_segment_start(q);
        assert forall|k: int| segment_start(p) <= k < p.len() implies p[k] != SEP by {
            if k < q.len() {
                assert(p[k] == q[k]);
            }
        };
    }
}

/// A file name is never empty, no longer than its path, and holds no
/// separator.
pub proof fn lemma_file_name_plain(p: Seq<u8>)
    ensures
        file_name_of(p) matches Some(n) ==> 0 < n.len() <= p.len() && forall|k: int|
            0 <= k < n.len() ==> n[k] != SEP,
    decreases p.len(),
{
    if p.len() > 0 {
        if p.last() == SEP {
            lemma_file_name_plain(p.drop_last());
        } else {
            lemma_segment_start(p);
            let seg = p.subrange(segment_start(p), p.len() as int);
            if seg == seq![DOT] {
                lemma_file_name_plain(p.drop_last());
            }
        }
    }
}

/// The absolute path of a file name, seen from an absolute directory, is that
/// directory joined with the name.
pub proof fn lemma_absolute_of_name(cwd: Seq<u8>, p: Seq<u8>)
    requires
        file_name_of(p) is Some,
    ensures
        absolute_of(cwd, file_name_of(p)->Some_0) == Some(join(cwd, file_name_of(p)->Some_0)),
{
    lemma_file_name_plain(p);
}

/// Appends the bytes of `src` to `out`.
fn push_all(out: &mut Vec<u8>, src: &Vec<u8>)
    ensures
        final(out)@ == old(out)@ + src@,
{
    let mut i: usize = 0;
    while i < src.len()
        invariant
            i <= src@.len(),
            out@ == old(out)@ + src@.subrange(0, i as int),
        decreases src@.len() - i,
    {
        out.push(src[i]);
        i += 1;
        assert(out@ =~= old(out)@ + src@.subrange(0, i as int));
    }
    assert(src@.subrange(0, src@.len() as int) =~= src@);
}

/// The bytes of `p` from `start` up to `end`.
fn slice_of(p: &Vec<u8>, start: usize, end: usize) -> (r: Vec<u8>)
    requires
        start <= end <= p@.len(),
    ensures
        r@ == p@.subrange(start as int, end as int),
{
    let mut r: Vec<u8> = Vec::new();
    let mut i: usize = start;
    while i < end
        invariant
            start <= i <= end <= p@.len(),
            r@ == p@.subrange(start as int, i as int),
        decreases end - i,
    {
        r.push(p[i]);
        i += 1;
        assert(r@ =~= p@.subrange(start as int, i as int));
    }
    r
}

/// The last component of `p`, as `file_name_of` describes it.
pub fn file_name(p: &Vec<u8>) -> (r: Option<Vec<u8>>)
    ensures
        match r {
            Some(n) => file_name_of(p@) == Some(n@),
            None => file_name_of(p@) is None,
        },
{
    let mut end: usize = p.len();
    assert(p@.subrange(0, end as int) =~= p@);
    loop
        invariant
            end <= p@.len(),
            file_name_of(p@) == file_name_of(p@.subrange(0, end as int)),
        decreases end,
    {
        let ghost q = p@.subrange(0, end as int);
        if end == 0 {
            return None;
        }
        if p[end - 1] == SEP {
            assert(q.drop_last() =~= p@.subrange(0, end - 1));
            end -= 1;
        } else {
            let mut start: usize = end;
            while start > 0 && p[start - 1] != SEP
                invariant
                    start <= end,
                    end <= p@.len(),
                    q == p@.subrange(0, end as int),
                    segment_start(q) == segment_start(p@.subrange(0, start as int)),
                decreases start,
            {
                assert(p@.subrange(0, start as int).drop_last() =~= p@.subrange(0, start - 1));
                start -= 1;
            }
            assert(segment_start(q) == start);
            let seg = slice_of(p, start, end);
            assert(seg@ == q.subrange(segment_start(q), q.len() as int));
            if end - start == 1 && p[start] == DOT {
                assert(seg@ =~= seq![DOT]);
                assert(q.drop_last() =~= p@.subrange(0, end - 1));
                end -= 1;
            } else if end - start == 2 && p[start] == DOT && p[start + 1] == DOT {
                assert(seg@ =~= seq![DOT, DOT]);
                return None;
            } else {
                assert(seg@ != seq![DOT]) by {
                    if seg@ == seq![DOT] {
                        assert(seg@.len() == 1 && seg@[0] == DOT);
                    }
                };
                assert(seg@ != seq![DOT, DOT]) by {
                    if seg@ == seq![DOT, DOT] {
                        assert(seg@.len() == 2 && seg@[0] == DOT && seg@[1] == DOT);
                    }
                };
                return Some(seg);
            }
        }
    }
}

/// The absolute form of `p` seen from `cwd`, as `absolute_of` describes it.
pub fn absolute(cwd: &Vec<u8>, p: &Vec<u8>) -> (r: Option<Vec<u8>>)
    requires
        cwd@.len() + p@.len() < usize::MAX,
    ensures
        match r {
            Some(a) => absolute_of(cwd@, p@) == Some(a@),
            None => absolute_of(cwd@, p@) is None,
        },
{
    if p.len() == 0 {
        return None;
    }
    let mut out: Vec<u8> = Vec::new();
    if p[0] == SEP {
        push_all(&mut out, p);
        assert(out@ =~= p@);
    } else {
        push_all(&mut out, cwd);
        if cwd.len() > 0 && cwd[cwd.len() - 1] != SEP {
            out.push(SEP);
        }
        push_all(&mut out, p);
    }
    Some(out)
}

} // verus!
