use vstd::prelude::*;

use crate::brush::{after_text, pow_nat, BrushState, BrushVariant, Pointer, size_in_range};
use crate::color::{plum_spec, rgb_of, svg_color};
use crate::command::keyword;
use crate::text::byte_values;

verus! {

/// Text that is no keyword, no keyword color's name, and holds other than
/// exactly three 8-bit unsigned integers leaves the brush as it is.
pub proof fn lemma_unknown_text_is_ignored(s: BrushState, text: Seq<char>, p: Pointer)
    requires
        keyword(text) is None,
        svg_color(text) is None,
        byte_values(text).len() != 3,
    ensures
        after_text(s, text, p) == s,
{
}

proof fn lemma_pow_plus_two(b: nat, e: nat)
    ensures
        pow_nat(b, e + 2) == b * b * pow_nat(b, e),
{
    assert(pow_nat(b, e + 2) == b * pow_nat(b, e + 1));
    assert(pow_nat(b, e + 1) == b * pow_nat(b, e));
    assert(b * (b * pow_nat(b, e)) == b * b * pow_nat(b, e)) by (nonlinear_arith);
}

/// "ball", then "bigball" twice: a ball, its size times 3/2 twice (9/4), where
/// that stays in range.
pub proof fn lemma_ball_bigball_bigball(s: BrushState, p: Pointer)
    requires
        s.wf(),
        size_in_range(s.size.twos - 2, s.size.threes + 2),
    ensures
        ({
            let r = after_text(
                after_text(after_text(s, "ball"@, p), "bigball"@, p),
                "bigball"@,
                p,
            );
            &&& r.variant == BrushVariant::Ball
            &&& r.size.twos == s.size.twos - 2
            &&& r.size.threes == s.size.threes + 2
            &&& r.size.numer() * s.size.denom() * 4 == s.size.numer() * r.size.denom() * 9
            &&& r.color == s.color
            &&& r.segment == s.segment
        }),
{
    reveal_strlit("ball");
    reveal_strlit("bigball");
    reveal_strlit("v");
    reveal_strlit("h");
    reveal_strlit("fs");
    reveal_strlit("bs");
    reveal_strlit("big");
    reveal_strlit("small");
    reveal_strlit("smallball");
    reveal_strlit("line");
    let a = s.size.twos as int;
    let t = s.size.threes as nat;
    lemma_pow_plus_two(3, t);
    let r = after_text(after_text(after_text(s, "ball"@, p), "bigball"@, p), "bigball"@, p);
    let p3 = pow_nat(3, t);
    assert(pow_nat(2, 0) == 1);
    assert(r.size.twos == a - 2 && r.size.threes == t + 2);
    if a >= 2 {
        lemma_pow_plus_two(2, (a - 2) as nat);
        let q = pow_nat(2, (a - 2) as nat);
        assert(r.size.numer() == q * (9 * p3));
        assert(s.size.numer() == 4 * q * p3);
        assert(q * (9 * p3) * 1 * 4 == 4 * q * p3 * 1 * 9) by (nonlinear_arith);
    } else if a == 1 {
        assert(pow_nat(2, 1) == 2 * pow_nat(2, 0));
        assert(r.size.numer() == 9 * p3);
        assert(s.size.numer() == 2 * p3);
        assert(r.size.denom() == 2);
        assert(9 * p3 * 1 * 4 == 2 * p3 * 2 * 9) by (nonlinear_arith);
    } else {
        lemma_pow_plus_two(2, (-a) as nat);
        let q = pow_nat(2, (-a) as nat);
        assert(pow_nat(3, (t + 2) as nat) == 9 * p3);
        assert(r.size.numer() == pow_nat(2, 0) * pow_nat(3, (t + 2) as nat));
        assert(r.size.numer() == 9 * p3);
        assert(s.size.numer() == pow_nat(2, 0) * p3);
        assert(s.size.numer() == p3);
        assert(r.size.denom() == 4 * q);
        assert(9 * p3 * q * 4 == p3 * (4 * q) * 9) by (nonlinear_arith);
    }
}

/// "plum" paints in plum, whatever the color was.
pub proof fn lemma_plum(s: BrushState, p: Pointer)
    ensures
        after_text(s, "plum"@, p) == (BrushState { color: plum_spec(), ..s }),
{
    reveal_strlit("plum");
    reveal_strlit("v");
    reveal_strlit("h");
    reveal_strlit("fs");
    reveal_strlit("bs");
    reveal_strlit("big");
    reveal_strlit("small");
    reveal_strlit("bigball");
    reveal_strlit("smallball");
    reveal_strlit("line");
    reveal_strlit("ball");
    reveal_strlit("funline");
    reveal_strlit("funball");
}

/// The name of a keyword color, where it is no keyword, paints in that color.
pub proof fn lemma_named_color(s: BrushState, name: Seq<char>, p: Pointer, t: (u8, u8, u8))
    requires
        keyword(name) is None,
        svg_color(name) == Some(t),
    ensures
        after_text(s, name, p) == (BrushState { color: rgb_of(t), ..s }),
{
}

} // verus!
