//! Encoding into the operating system's wide strings.

use vstd::prelude::*;

verus! {

broadcast use vstd::string::axiom_spec_iter;

/// The UTF-16 code units of one character: a single unit below `0x10000`,
/// a surrogate pair above.
pub open spec fn wide_char(c: char) -> Seq<u16> {
    if (c as u32) < 0x10000 {
        seq![(c as u32) as u16]
    } else {
        seq![
            ((0xD800 + ((c as u32) - 0x10000) / 0x400) as u16),
            ((0xDC00 + ((c as u32) - 0x10000) % 0x400) as u16),
        ]
    }
}

/// The UTF-16 code units of a string.
pub open spec fn wide(s: Seq<char>) -> Seq<u16>
    decreases s.len(),
{
    if s.len() == 0 {
        Seq::empty()
    } else {
        wide(s.drop_last()) + wide_char(s.last())
    }
}

/// Encodes a string the way the operating system's wide-string entry points
/// expect it: UTF-16 code units followed by one terminating nul.
pub fn to_os_string(s: &str) -> (r: Vec<u16>)
    ensures
        r@ == wide(s@).push(0u16),
{
    let mut out: Vec<u16> = Vec::new();
    for c in it: s.chars()
        invariant
            it.seq() == s@,
            out@ == wide(it.seq().take(it.index() as int)),
    {
        let ghost i = it.index() as int;
        proof {
            vstd::utf8::char_is_scalar(c);
        }
        let u = c as u32;
        if u < 0x10000 {
            out.push(u as u16);
        } else {
            let v = u - 0x10000;
            let hi = 0xD800 + v / 0x400;
            let lo = 0xDC00 + v % 0x400;
            proof {
                assert(v / 0x400 < 0x400) by (nonlinear_arith)
                    requires
                        v < 0x100000,
                ;
                assert(v % 0x400 < 0x400) by (nonlinear_arith);
            }
            out.push(hi as u16);
            out.push(lo as u16);
        }
        proof {
            assert(it.seq().take(i + 1).drop_last() =~= it.seq().take(i));
            assert(it.seq().take(i + 1).last() == c);
        }
    }
    proof {
        assert(s@.take(s@.len() as int) =~= s@);
    }
    out.push(0);
    out
}

} // verus!
