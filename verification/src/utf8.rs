//! A verified UTF-8 validator.
//!
//! Both wire codecs carry text fields and must reject, without panicking,
//! any buffer whose text bytes are not valid UTF-8. This module decides
//! validity in verified code, proved against vstd's UTF-8 model: a byte
//! sequence passes exactly when it is a sequence of well-formed scalar
//! encodings, with no overlong forms and no surrogates.

use vstd::prelude::*;
use vstd::utf8::{
    codepoint_width_2, codepoint_width_3, codepoint_width_4, decode_first_codepoint,
    length_of_first_codepoint, length_of_first_scalar, pop_first_scalar, valid_first_scalar,
    valid_utf8,
};

verus! {

/// Checks one scalar's encoding at offset `i`: a leading byte of some
/// width, enough continuation bytes of the right shape, no overlong
/// encoding and no surrogate. Returns the scalar's width in bytes.
fn check_first_scalar(data: &[u8], i: usize) -> (r: Option<usize>)
    requires
        i < data@.len(),
    ensures
        r is Some ==> {
            let s = data@.skip(i as int);
            &&& valid_first_scalar(s)
            &&& r->0 == length_of_first_scalar(s)
            &&& i + r->0 <= data@.len()
        },
        r is None ==> !valid_first_scalar(data@.skip(i as int)),
{
    let ghost s = data@.skip(i as int);
    let n = data.len();
    let rem = n - i;
    let b0 = data[i];
    proof {
        assert(s[0] == data@[i as int]);
        assert(s.len() == n - i);
    }
    let width: usize;
    let cp: u32;
    if b0 <= 0x7f {
        width = 1;
        cp = (b0 & 0x7f) as u32;
    } else if 0xc0 <= b0 && b0 <= 0xdf {
        if rem < 2 {
            return Option::None;
        }
        let b1 = data[i + 1];
        proof {
            assert(s[1] == data@[i + 1]);
        }
        if !(0x80 <= b1 && b1 <= 0xbf) {
            return Option::None;
        }
        width = 2;
        cp = (((b0 & 0x1f) as u32) << 6u32) | ((b1 & 0x3f) as u32);
        proof {
            assert(cp == codepoint_width_2(b0, b1));
        }
    } else if 0xe0 <= b0 && b0 <= 0xef {
        if rem < 3 {
            return Option::None;
        }
        let b1 = data[i + 1];
        let b2 = data[i + 2];
        proof {
            assert(s[1] == data@[i + 1]);
            assert(s[2] == data@[i + 2]);
        }
        if !(0x80 <= b1 && b1 <= 0xbf) {
            return Option::None;
        }
        if !(0x80 <= b2 && b2 <= 0xbf) {
            return Option::None;
        }
        width = 3;
        cp = (((b0 & 0x0f) as u32) << 12u32) | (((b1 & 0x3f) as u32) << 6u32) | ((b2
            & 0x3f) as u32);
        proof {
            assert(cp == codepoint_width_3(b0, b1, b2));
        }
    } else if 0xf0 <= b0 && b0 <= 0xf7 {
        if rem < 4 {
            return Option::None;
        }
        let b1 = data[i + 1];
        let b2 = data[i + 2];
        let b3 = data[i + 3];
        proof {
            assert(s[1] == data@[i + 1]);
            assert(s[2] == data@[i + 2]);
            assert(s[3] == data@[i + 3]);
        }
        if !(0x80 <= b1 && b1 <= 0xbf) {
            return Option::None;
        }
        if !(0x80 <= b2 && b2 <= 0xbf) {
            return Option::None;
        }
        if !(0x80 <= b3 && b3 <= 0xbf) {
            return Option::None;
        }
        width = 4;
        cp = (((b0 & 0x07) as u32) << 18u32) | (((b1 & 0x3f) as u32) << 12u32) | (((b2
            & 0x3f) as u32) << 6u32) | ((b3 & 0x3f) as u32);
        proof {
            assert(cp == codepoint_width_4(b0, b1, b2, b3));
        }
    } else {
        // A continuation byte or one of the values no UTF-8 text contains.
        return Option::None;
    }
    proof {
        assert(cp == decode_first_codepoint(s));
        assert(width == length_of_first_codepoint(s));
    }
    if width == 2 && cp < 0x80 {
        return Option::None;
    }
    if width == 3 && cp < 0x800 {
        return Option::None;
    }
    if width == 4 && !(0x10000 <= cp && cp <= 0x10ffff) {
        return Option::None;
    }
    if 0xd800 <= cp && cp <= 0xdfff {
        return Option::None;
    }
    Some(width)
}

/// A verified UTF-8 validator: accepts a byte sequence exactly when it is a
/// valid UTF-8 encoding, scalar by scalar.
pub fn utf8_check(data: &[u8]) -> (r: bool)
    ensures
        r == valid_utf8(data@),
{
    let n = data.len();
    let mut i: usize = 0;
    proof {
        assert(data@.skip(0) =~= data@);
    }
    while i < n
        invariant
            i <= n,
            n == data@.len(),
            valid_utf8(data@) == valid_utf8(data@.skip(i as int)),
        decreases n - i,
    {
        let ghost s = data@.skip(i as int);
        match check_first_scalar(data, i) {
            Some(width) => {
                proof {
                    assert(pop_first_scalar(s) =~= data@.skip(i + width));
                }
                i = i + width;
            },
            Option::None => {
                proof {
                    assert(s.len() > 0);
                    assert(!valid_utf8(s));
                }
                return false;
            },
        }
    }
    proof {
        assert(data@.skip(n as int) =~= Seq::<u8>::empty());
    }
    true
}

} // verus!
