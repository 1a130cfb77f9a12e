//! Byte-level containment search, used by the verifier stage to look for
//! the noise-suppression filter's identifier in the toolkit's filter
//! listing. The identifier is plain ASCII, so byte containment in the raw
//! captured output is exactly textual containment.

use vstd::prelude::*;

verus! {

/// `needle` occurs in `hay` starting at position `i`.
pub open spec fn matches_at(hay: Seq<u8>, needle: Seq<u8>, i: int) -> bool {
    &&& 0 <= i
    &&& i + needle.len() <= hay.len()
    &&& hay.subrange(i, i + needle.len() as int) == needle
}

/// `needle` occurs somewhere in `hay`.
pub open spec fn contains_bytes(hay: Seq<u8>, needle: Seq<u8>) -> bool {
    exists|i: int| matches_at(hay, needle, i)
}

fn match_here(hay: &[u8], needle: &[u8], i: usize) -> (r: bool)
    requires
        i + needle@.len() <= hay@.len(),
    ensures
        r == matches_at(hay@, needle@, i as int),
{
    let hay_len: usize = hay.len();
    let needle_len: usize = needle.len();
    let mut j: usize = 0;
    while j < needle_len
        invariant
            hay_len == hay@.len(),
            needle_len == needle@.len(),
            i + needle@.len() <= hay@.len(),
            j <= needle@.len(),
            forall|k: int| 0 <= k < j ==> hay@[i + k] == needle@[k],
        decreases needle@.len() - j,
    {
        if hay[i + j] != needle[j] {
            proof {
                assert(hay@.subrange(i as int, i + needle@.len())[j as int] != needle@[j as int]);
            }
            return false;
        }
        j += 1;
    }
    proof {
        assert(hay@.subrange(i as int, i + needle@.len()) =~= needle@);
    }
    true
}

/// Decides whether `needle` occurs in `hay` as a contiguous run of bytes.
pub fn contains_subslice(hay: &[u8], needle: &[u8]) -> (r: bool)
    ensures
        r == contains_bytes(hay@, needle@),
{
    if needle.len() > hay.len() {
        return false;
    }
    if needle.len() == 0 {
        proof {
            assert(hay@.subrange(0, 0) =~= needle@);
            assert(matches_at(hay@, needle@, 0));
        }
        return true;
    }
    let hay_len: usize = hay.len();
    let end: usize = hay_len - needle.len();
    let mut i: usize = 0;
    while i <= end
        invariant
            hay_len == hay@.len(),
            1 <= needle@.len() <= hay@.len(),
            end == hay@.len() - needle@.len(),
            i <= end + 1,
            forall|k: int| 0 <= k < i ==> !matches_at(hay@, needle@, k),
        decreases end + 1 - i,
    {
        if match_here(hay, needle, i) {
            return true;
        }
        i += 1;
    }
    proof {
        assert forall|k: int| !matches_at(hay@, needle@, k) by {
            if k > end {
                assert(!(k + needle@.len() <= hay@.len()));
            }
        }
    }
    false
}

/// The identifier under which the toolkit's pipeline exposes the
/// noise-suppression filter, as bytes.
pub open spec fn filter_token() -> Seq<u8> {
    seq!['a' as u8, 'r' as u8, 'n' as u8, 'n' as u8, 'd' as u8, 'n' as u8]
}

/// Decides whether a captured filter listing names the noise-suppression
/// filter.
pub fn filter_listed(output: &[u8]) -> (r: bool)
    ensures
        r == contains_bytes(output@, filter_token()),
{
    let mut needle: Vec<u8> = Vec::new();
    needle.push('a' as u8);
    needle.push('r' as u8);
    needle.push('n' as u8);
    needle.push('n' as u8);
    needle.push('d' as u8);
    needle.push('n' as u8);
    proof {
        assert(needle@ =~= filter_token());
    }
    contains_subslice(output, needle.as_slice())
}

/// The verifier's overall decision: the version command must have exited
/// successfully and the filter listing must name the noise-suppression
/// filter.
pub fn verification_ok(version_ok: bool, filters_output: &[u8]) -> (r: bool)
    ensures
        r == (version_ok && contains_bytes(filters_output@, filter_token())),
{
    version_ok && filter_listed(filters_output)
}

} // verus!
