//! Deterministic negotiation-role assignment.
//!
//! Every pair of peers needs exactly one polite side for perfect negotiation
//! to resolve offer collisions. The role is a pure function of the two peer
//! ids: the side whose id sorts lower under case-insensitive lexicographic
//! comparison is the polite one. Ids are compared by their UTF-8 bytes with
//! ASCII uppercase letters folded to lowercase.

use vstd::prelude::*;
use vstd::utf8::encode_utf8;

verus! {

/// ASCII case folding of one byte: uppercase letters map to lowercase, every
/// other byte is unchanged.
pub open spec fn spec_fold_byte(b: u8) -> u8 {
    if 65 <= b && b <= 90 {
        (b + 32) as u8
    } else {
        b
    }
}

/// Case folding of a whole byte sequence.
pub open spec fn spec_fold(s: Seq<u8>) -> Seq<u8> {
    s.map_values(|b: u8| spec_fold_byte(b))
}

/// Strict lexicographic order on byte sequences: a proper prefix sorts lower,
/// otherwise the first differing byte decides.
pub open spec fn spec_lex_lt(a: Seq<u8>, b: Seq<u8>) -> bool
    decreases a.len(),
{
    if b.len() == 0 {
        false
    } else if a.len() == 0 {
        true
    } else if a[0] != b[0] {
        a[0] < b[0]
    } else {
        spec_lex_lt(a.drop_first(), b.drop_first())
    }
}

/// This node (with id `our_id`) is the polite side of the pair exactly when
/// its id sorts lower than `peer_id` under case-insensitive comparison.
pub open spec fn spec_polite(our_id: Seq<char>, peer_id: Seq<char>) -> bool {
    spec_lex_lt(spec_fold(encode_utf8(our_id)), spec_fold(encode_utf8(peer_id)))
}

fn fold_byte(b: u8) -> (r: u8)
    ensures
        r == spec_fold_byte(b),
{
    if 65 <= b && b <= 90 {
        b + 32
    } else {
        b
    }
}

fn lex_lt_folded(a: &[u8], b: &[u8]) -> (r: bool)
    ensures
        r == spec_lex_lt(spec_fold(a@), spec_fold(b@)),
{
    let ghost fa = spec_fold(a@);
    let ghost fb = spec_fold(b@);
    proof {
        assert(fa.skip(0) =~= fa);
        assert(fb.skip(0) =~= fb);
    }
    let mut i: usize = 0;
    while i < a.len() && i < b.len()
        invariant
            i <= a@.len(),
            i <= b@.len(),
            fa == spec_fold(a@),
            fb == spec_fold(b@),
            fa.len() == a@.len(),
            fb.len() == b@.len(),
            spec_lex_lt(fa, fb) == spec_lex_lt(fa.skip(i as int), fb.skip(i as int)),
        decreases a@.len() - i,
    {
        let fai = fold_byte(a[i]);
        let fbi = fold_byte(b[i]);
        proof {
            assert(fa.skip(i as int)[0] == fa[i as int]);
            assert(fb.skip(i as int)[0] == fb[i as int]);
        }
        if fai != fbi {
            proof {
                assert(spec_lex_lt(fa.skip(i as int), fb.skip(i as int)) == (fai < fbi));
            }
            return fai < fbi;
        }
        proof {
            assert(fa.skip(i as int).drop_first() =~= fa.skip(i as int + 1));
            assert(fb.skip(i as int).drop_first() =~= fb.skip(i as int + 1));
        }
        i = i + 1;
    }
    proof {
        if i < b@.len() {
            assert(fa.skip(i as int).len() == 0);
            assert(fb.skip(i as int).len() > 0);
        } else {
            assert(fb.skip(i as int).len() == 0);
        }
    }
    i < b.len()
}

/// Computes this node's negotiation role toward `peer_id`: `true` means this
/// side is polite (yields on an offer collision).
pub fn polite(our_id: &str, peer_id: &str) -> (r: bool)
    ensures
        r == spec_polite(our_id@, peer_id@),
{
    lex_lt_folded(our_id.as_bytes(), peer_id.as_bytes())
}

proof fn lemma_lex_lt_asymmetric(a: Seq<u8>, b: Seq<u8>)
    requires
        a != b,
    ensures
        spec_lex_lt(a, b) != spec_lex_lt(b, a),
    decreases a.len(),
{
    if b.len() == 0 {
        if a.len() == 0 {
            assert(a =~= b);
        }
    } else if a.len() == 0 {
    } else if a[0] != b[0] {
    } else {
        if a.drop_first() == b.drop_first() {
            assert(a.drop_first().len() == b.drop_first().len());
            assert(a.len() == b.len());
            assert forall|k: int| 0 <= k < a.len() implies a[k] == b[k] by {
                if k > 0 {
                    assert(a[k] == a.drop_first()[k - 1]);
                    assert(b[k] == b.drop_first()[k - 1]);
                }
            }
            assert(a =~= b);
            assert(false);
        }
        lemma_lex_lt_asymmetric(a.drop_first(), b.drop_first());
    }
}

/// The role assignment is consistent across a pair: whenever the case-folded
/// forms of two ids differ, exactly one of the two sides is polite.
pub proof fn lemma_polite_antisymmetric(a: Seq<char>, b: Seq<char>)
    requires
        spec_fold(encode_utf8(a)) != spec_fold(encode_utf8(b)),
    ensures
        spec_polite(a, b) != spec_polite(b, a),
{
    lemma_lex_lt_asymmetric(spec_fold(encode_utf8(a)), spec_fold(encode_utf8(b)));
}

} // verus!
