//! Exact multiply-then-divide on wide operands.
//!
//! Rescaling an overlapping velocity profile needs `floor(m * a / s)` where
//! `a` and `s` can be far wider than 64 bits, so the product `m * a` may not
//! fit any machine integer. The function here computes the quotient exactly
//! by binary decomposition of `m`, reducing the running addend modulo `s` at
//! every step.

use vstd::prelude::*;

verus! {

use vstd::arithmetic::div_mod::lemma_fundamental_div_mod;
use vstd::arithmetic::div_mod::lemma_fundamental_div_mod_converse_div;

/// Computes `(m * a) / s`, rounded toward zero, without forming the full
/// product `m * a`.
pub(crate) fn mul_div_floor(m: u32, a: u128, s: u128) -> (r: u64)
    requires
        1 <= s,
        a <= s,
        s <= 0x8000_0000_0000_0000_0000_0000_0000_0000u128,
    ensures
        r as int == (m as int) * (a as int) / (s as int),
        r as int <= m as int,
{
    // The loop maintains q * s + rem + mm * (aq * s + ar) == m * a, where
    // (aq, ar) is the quotient/remainder form of the current addend
    // a * 2^(bits of m already consumed).
    let mut q: u64 = 0;
    let mut rem: u128 = 0;
    let mut mm: u64 = m as u64;
    let mut aq: u64 = if a == s { 1 } else { 0 };
    let mut ar: u128 = if a == s { 0 } else { a };

    proof {
        assert(q as int * s as int + rem as int + mm as int * (aq as int * s as int + ar as int)
            == m as int * a as int) by (nonlinear_arith)
            requires
                q == 0 && rem == 0,
                mm as int == m as int,
                a <= s,
                (a == s ==> aq == 1 && ar == 0) && (a != s ==> aq == 0 && ar as int == a as int),
        ;
    }

    while mm > 0
        invariant
            1 <= s,
            s <= 0x8000_0000_0000_0000_0000_0000_0000_0000u128,
            a <= s,
            (rem as int) < s as int,
            (ar as int) < s as int,
            q as int * s as int + rem as int + mm as int * (aq as int * s as int + ar as int)
                == m as int * a as int,
            q as int <= m as int,
            mm >= 1 ==> aq as int <= m as int,
        decreases mm,
    {
        let ghost q0: int = q as int;
        let ghost rem0: int = rem as int;
        let ghost mm0: int = mm as int;
        let ghost aq0: int = aq as int;
        let ghost ar0: int = ar as int;
        let ghost add0: int = aq0 * (s as int) + ar0;

        proof {
            lemma_fundamental_div_mod(mm0, 2);
        }

        if mm % 2 == 1 {
            rem = rem + ar;
            q = q + aq;
            if rem >= s {
                rem = rem - s;
                q = q + 1;
                proof {
                    assert(q as int * s as int + rem as int + (mm0 - 1) * add0
                        == m as int * a as int) by (nonlinear_arith)
                        requires
                            q as int == q0 + aq0 + 1,
                            rem as int == rem0 + ar0 - s as int,
                            add0 == aq0 * (s as int) + ar0,
                            q0 * (s as int) + rem0 + mm0 * add0 == m as int * a as int,
                    ;
                }
            } else {
                proof {
                    assert(q as int * s as int + rem as int + (mm0 - 1) * add0
                        == m as int * a as int) by (nonlinear_arith)
                        requires
                            q as int == q0 + aq0,
                            rem as int == rem0 + ar0,
                            add0 == aq0 * (s as int) + ar0,
                            q0 * (s as int) + rem0 + mm0 * add0 == m as int * a as int,
                    ;
                }
            }
            proof {
                assert(q as int <= m as int) by (nonlinear_arith)
                    requires
                        q as int * s as int + rem as int + (mm0 - 1) * add0
                            == m as int * a as int,
                        add0 == aq0 * (s as int) + ar0,
                        0 <= aq0 && 0 <= ar0,
                        0 <= rem as int,
                        mm0 - 1 >= 0,
                        1 <= s,
                        a <= s,
                        0 <= q as int,
                        0 <= m as int,
                ;
            }
        }

        proof {
            assert(q as int * s as int + rem as int + (mm0 - mm0 % 2) * add0
                == m as int * a as int);
        }

        mm = mm / 2;

        proof {
            assert(2 * (mm as int) == mm0 - mm0 % 2);
            assert(q as int * s as int + rem as int + (2 * (mm as int)) * add0
                == m as int * a as int);
        }

        if mm > 0 {
            aq = aq * 2;
            ar = ar * 2;
            if ar >= s {
                ar = ar - s;
                aq = aq + 1;
                proof {
                    assert(aq as int * s as int + ar as int == 2 * add0) by (nonlinear_arith)
                        requires
                            aq as int == 2 * aq0 + 1,
                            ar as int == 2 * ar0 - s as int,
                            add0 == aq0 * (s as int) + ar0,
                    ;
                }
            } else {
                proof {
                    assert(aq as int * s as int + ar as int == 2 * add0) by (nonlinear_arith)
                        requires
                            aq as int == 2 * aq0,
                            ar as int == 2 * ar0,
                            add0 == aq0 * (s as int) + ar0,
                    ;
                }
            }
            proof {
                assert(q as int * s as int + rem as int
                    + mm as int * (aq as int * s as int + ar as int)
                    == m as int * a as int) by (nonlinear_arith)
                    requires
                        aq as int * s as int + ar as int == 2 * add0,
                        q as int * s as int + rem as int + (2 * (mm as int)) * add0
                            == m as int * a as int,
                ;
                assert(aq as int <= m as int) by (nonlinear_arith)
                    requires
                        q as int * s as int + rem as int
                            + mm as int * (aq as int * s as int + ar as int)
                            == m as int * a as int,
                        0 <= q as int,
                        0 <= rem as int,
                        0 <= aq as int,
                        0 <= ar as int,
                        mm >= 1,
                        1 <= s,
                        a <= s,
                        0 <= m as int,
                ;
            }
        }
    }

    proof {
        assert(q as int * s as int + rem as int == m as int * a as int);
        lemma_fundamental_div_mod_converse_div(
            m as int * a as int,
            s as int,
            q as int,
            rem as int,
        );
    }
    q
}

} // verus!
