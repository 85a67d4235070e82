//! Numbers as reports and sensors hold them.

use vstd::prelude::*;

verus! {

/// `v` without what a 16-bit number cannot hold.
pub open spec fn word(v: int) -> int {
    if v > 32767 {
        32767
    } else if v < -32768 {
        -32768
    } else {
        v
    }
}

/// `v` without what a report's 8-bit number cannot hold.
pub open spec fn byte(v: int) -> int {
    if v > 127 {
        127
    } else if v < -128 {
        -128
    } else {
        v
    }
}

/// Quotient of `a` by `d`, without its fraction.
pub open spec fn whole(a: int, d: int) -> int {
    if a >= 0 {
        a / d
    } else {
        -((-a) / d)
    }
}

} // verus!
