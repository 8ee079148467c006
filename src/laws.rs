//! Laws of the width conversions, proved over the code-point model.
use vstd::prelude::*;

use crate::table::{fullwidth_code, halfwidth_code, standard_code};

verus! {

/// Narrowing and widening undo each other: whenever `c` has the halfwidth
/// form `h`, the fullwidth form of `h` is `c`.
pub proof fn lemma_halfwidth_round_trip(c: int, h: int)
    requires
        halfwidth_code(c) == Some(h),
    ensures
        fullwidth_code(h) == Some(c),
{
}

/// Widening and narrowing undo each other: whenever `c` has the fullwidth
/// form `w`, the halfwidth form of `w` is `c`.
pub proof fn lemma_fullwidth_round_trip(c: int, w: int)
    requires
        fullwidth_code(c) == Some(w),
    ensures
        halfwidth_code(w) == Some(c),
{
}

/// No character has both a halfwidth and a fullwidth form.
pub proof fn lemma_directions_disjoint(c: int)
    ensures
        !(halfwidth_code(c) is Some && fullwidth_code(c) is Some),
{
}

/// The standard-width form is the halfwidth form on the fullwidth rows of the
/// block, the fullwidth form on its halfwidth rows, and absent everywhere
/// else, even where one of the two directions alone has a result.
pub proof fn lemma_standard_dispatch(c: int)
    ensures
        0xff01 <= c <= 0xff60 || 0xffe0 <= c <= 0xffe6 ==> standard_code(c) == halfwidth_code(c),
        0xff61 <= c <= 0xffdc || 0xffe8 <= c <= 0xffee ==> standard_code(c) == fullwidth_code(c),
        !(0xff01 <= c <= 0xffdc || 0xffe0 <= c <= 0xffe6 || 0xffe8 <= c <= 0xffee)
            ==> standard_code(c) is None,
{
}

} // verus!
