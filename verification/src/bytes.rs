//! Byte-string building blocks: paths, shell commands and screen contents
//! all travel through this crate as plain bytes, the way the surrounding
//! platform hands them over.

use vstd::prelude::*;

verus! {

/// The needle occurs in the haystack starting exactly at position `i`.
pub open spec fn match_at(hay: Seq<u8>, needle: Seq<u8>, i: int) -> bool {
    &&& 0 <= i
    &&& i + needle.len() <= hay.len()
    &&& hay.subrange(i, i + needle.len()) == needle
}

/// The needle occurs somewhere in the haystack.
pub open spec fn contains_bytes(hay: Seq<u8>, needle: Seq<u8>) -> bool {
    exists|i: int| match_at(hay, needle, i)
}

/// Copy a byte vector; the copy holds exactly the same bytes.
pub fn clone_bytes(v: &Vec<u8>) -> (r: Vec<u8>)
    ensures
        r@ == v@,
{
    let mut r: Vec<u8> = Vec::new();
    let mut i: usize = 0;
    while i < v.len()
        invariant
            i <= v.len(),
            r@ == v@.take(i as int),
        decreases v.len() - i,
    {
        r.push(v[i]);
        proof {
            assert(v@.take(i + 1 as int) =~= v@.take(i as int).push(v@[i as int]));
        }
        i = i + 1;
    }
    proof {
        assert(v@.take(v@.len() as int) =~= v@);
    }
    r
}

/// Append every byte of `src` to `dst`, in order.
pub fn append_bytes(dst: &mut Vec<u8>, src: &[u8])
    ensures
        final(dst)@ == old(dst)@ + src@,
{
    let mut i: usize = 0;
    while i < src.len()
        invariant
            i <= src@.len(),
            dst@ == old(dst)@ + src@.take(i as int),
        decreases src.len() - i,
    {
        dst.push(src[i]);
        proof {
            assert(src@.take(i + 1 as int) =~= src@.take(i as int).push(src@[i as int]));
            assert(old(dst)@ + src@.take(i + 1 as int)
                =~= (old(dst)@ + src@.take(i as int)).push(src@[i as int]));
        }
        i = i + 1;
    }
    proof {
        assert(src@.take(src@.len() as int) =~= src@);
    }
}

/// Substring search over byte slices: it reports exactly whether the
/// needle occurs in the haystack.
pub fn contains_slice(hay: &[u8], needle: &[u8]) -> (r: bool)
    ensures
        r == contains_bytes(hay@, needle@),
{
    if needle.len() == 0 {
        proof {
            assert(hay@.subrange(0, 0) =~= needle@);
            assert(match_at(hay@, needle@, 0));
        }
        return true;
    }
    if needle.len() > hay.len() {
        proof {
            assert forall|i: int| !match_at(hay@, needle@, i) by {}
        }
        return false;
    }
    let hl: usize = hay.len();
    let nl: usize = needle.len();
    let last_start: usize = hl - nl;
    let mut i: usize = 0;
    while i <= last_start
        invariant
            hl == hay@.len(),
            nl == needle@.len(),
            1 <= nl <= hl,
            last_start == hl - nl,
            i <= last_start + 1,
            forall|m: int| 0 <= m < i ==> !match_at(hay@, needle@, m),
        decreases last_start + 1 - i,
    {
        let mut j: usize = 0;
        let mut mismatched: bool = false;
        while j < nl && !mismatched
            invariant
                hl == hay@.len(),
                nl == needle@.len(),
                1 <= nl,
                i + nl <= hl,
                j <= nl,
                !mismatched ==> forall|k: int| 0 <= k < j ==> hay@[i + k] == needle@[k],
                mismatched ==> !match_at(hay@, needle@, i as int),
            decreases nl - j + (if mismatched { 0int } else { 1int }),
        {
            if hay[i + j] != needle[j] {
                proof {
                    if match_at(hay@, needle@, i as int) {
                        assert(hay@.subrange(i as int, i + needle@.len())[j as int]
                            == hay@[i + j]);
                    }
                }
                mismatched = true;
            } else {
                j = j + 1;
            }
        }
        if !mismatched {
            proof {
                assert(hay@.subrange(i as int, i + needle@.len()) =~= needle@);
                assert(match_at(hay@, needle@, i as int));
            }
            return true;
        }
        i = i + 1;
    }
    proof {
        assert forall|m: int| !match_at(hay@, needle@, m) by {
            if m > last_start as int {
                assert(m + needle@.len() > hay@.len());
            }
        }
    }
    false
}

} // verus!
