//! Rendering of scalars and vectors as decimal text.
//!
//! A scalar is reduced to lowest terms and printed as a terminating decimal
//! whenever its reduced denominator divides a power of ten, as `(integer
//! part).(fraction digits)` with no trailing zeros; an integer prints with no
//! point at all.  A value whose expansion does not terminate (or whose
//! numerator is too large to scale) prints as `numerator/denominator`.

use crate::scalar::{fits, frac_wf, Frac, Scalar};
use crate::vec::{vec3_wf, Vec3d};
use crate::vecn::Vecn;
use vstd::arithmetic::div_mod::{lemma_add_mod_noop, lemma_fundamental_div_mod,
    lemma_mod_self_0, lemma_mul_mod_noop_left, lemma_small_mod};
use vstd::prelude::*;
use vstd::string::StringExecFns;

verus! {

/// The character for one decimal digit.
pub open spec fn digit_char(d: int) -> char {
    if d == 0 {
        '0'
    } else if d == 1 {
        '1'
    } else if d == 2 {
        '2'
    } else if d == 3 {
        '3'
    } else if d == 4 {
        '4'
    } else if d == 5 {
        '5'
    } else if d == 6 {
        '6'
    } else if d == 7 {
        '7'
    } else if d == 8 {
        '8'
    } else {
        '9'
    }
}

/// The decimal digits of a nonnegative integer, most significant first.
pub open spec fn dec_rep(n: nat) -> Seq<char>
    decreases n,
{
    if n < 10 {
        seq![digit_char(n as int)]
    } else {
        dec_rep(n / 10) + seq![digit_char((n % 10) as int)]
    }
}

/// Exactly `k` trailing decimal digits of `m`, zero padded on the left.
pub open spec fn frac_digits(m: nat, k: nat) -> Seq<char>
    decreases k,
{
    if k == 0 {
        Seq::empty()
    } else {
        frac_digits(m / 10, (k - 1) as nat) + seq![digit_char((m % 10) as int)]
    }
}

/// The greatest common divisor, by Euclid's algorithm.
pub open spec fn gcd_rec(a: nat, b: nat) -> nat
    decreases b,
{
    if b == 0 {
        a
    } else {
        gcd_rec(b, a % b)
    }
}

/// The `k`-th power of ten.
pub open spec fn pow10(k: nat) -> nat
    decreases k,
{
    if k == 0 {
        1
    } else {
        10 * pow10((k - 1) as nat)
    }
}

/// The smallest scale `k` below nineteen, if any, such that the denominator
/// divides ten to the `k`; carries the power of ten alongside.
pub open spec fn scale_of(d: nat, k: nat, pw: nat) -> Option<(nat, nat)>
    decreases 19 - k,
{
    if k >= 19 {
        None
    } else if pw % d == 0 {
        Some((k, pw))
    } else {
        scale_of(d, k + 1, pw * 10)
    }
}

/// The decimal rendering of a fraction.
pub open spec fn scalar_decimal(f: Frac) -> Seq<char> {
    let sign: Seq<char> = if f.num < 0 {
        seq!['-']
    } else {
        Seq::empty()
    };
    let n0 = (if f.num < 0 {
        -f.num
    } else {
        f.num
    }) as nat;
    let d0 = f.den as nat;
    let g = gcd_rec(d0, n0);
    let n = n0 / g;
    let d = d0 / g;
    match scale_of(d, 0, 1) {
        Some(kpw) => {
            if n < 0x8000000000000000 {
                let scaled = n * (kpw.1 / d);
                if kpw.0 == 0 {
                    sign + dec_rep(scaled)
                } else {
                    sign + dec_rep(scaled / kpw.1) + seq!['.'] + frac_digits(scaled % kpw.1, kpw.0)
                }
            } else {
                sign + dec_rep(n) + seq!['/'] + dec_rep(d)
            }
        },
        None => sign + dec_rep(n) + seq!['/'] + dec_rep(d),
    }
}

/// The rendering of a sequence of coordinates, comma separated.
pub open spec fn join_decimals(s: Seq<Frac>) -> Seq<char>
    decreases s.len(),
{
    if s.len() == 0 {
        Seq::empty()
    } else if s.len() == 1 {
        scalar_decimal(s[0])
    } else {
        join_decimals(s.drop_last()) + seq![','] + scalar_decimal(s.last())
    }
}

proof fn lemma_pow10_pos(k: nat)
    ensures
        pow10(k) >= 1,
    decreases k,
{
    if k > 0 {
        lemma_pow10_pos((k - 1) as nat);
    }
}

proof fn lemma_pow10_mono(i: nat, j: nat)
    requires
        i <= j,
    ensures
        pow10(i) <= pow10(j),
    decreases j,
{
    if i < j {
        lemma_pow10_mono(i, (j - 1) as nat);
        lemma_pow10_pos((j - 1) as nat);
    }
}

proof fn lemma_pow10_18()
    ensures
        pow10(18) == 1_000_000_000_000_000_000,
{
    assert(pow10(0) == 1);
    assert(pow10(1) == 10);
    assert(pow10(2) == 100);
    assert(pow10(3) == 1000);
    assert(pow10(4) == 10000);
    assert(pow10(5) == 100000);
    assert(pow10(6) == 1000000);
    assert(pow10(7) == 10000000);
    assert(pow10(8) == 100000000);
    assert(pow10(9) == 1000000000);
    assert(pow10(10) == 10000000000);
    assert(pow10(11) == 100000000000);
    assert(pow10(12) == 1000000000000);
    assert(pow10(13) == 10000000000000);
    assert(pow10(14) == 100000000000000);
    assert(pow10(15) == 1000000000000000);
    assert(pow10(16) == 10000000000000000);
    assert(pow10(17) == 100000000000000000);
    assert(pow10(18) == 1000000000000000000);
}

/// Computes the greatest common divisor; the result divides both arguments.
fn gcd(a: u128, b: u128) -> (g: u128)
    requires
        a >= 1,
    ensures
        g == gcd_rec(a as nat, b as nat),
        1 <= g <= a,
        a as nat % g as nat == 0,
        b as nat % g as nat == 0,
    decreases b,
{
    if b == 0 {
        proof {
            lemma_mod_self_0(a as int);
        }
        a
    } else {
        let g = gcd(b, a % b);
        proof {
            let ai = a as int;
            let bi = b as int;
            let gi = g as int;
            lemma_fundamental_div_mod(ai, bi);
            lemma_mul_mod_noop_left(bi, ai / bi, gi);
            lemma_add_mod_noop(bi * (ai / bi), ai % bi, gi);
            assert((bi % gi) * (ai / bi) % gi == 0 * (ai / bi) % gi) by (nonlinear_arith)
                requires
                    bi % gi == 0;
            lemma_small_mod(0, g as nat);
            assert(ai % gi == 0);
            assert(ai == gi * (ai / gi)) by {
                lemma_fundamental_div_mod(ai, gi);
            }
            assert(gi <= ai) by (nonlinear_arith)
                requires
                    ai == gi * (ai / gi),
                    ai >= 1,
                    gi >= 1;
        }
        g
    }
}

fn push_digit(d: u128, out: &mut String)
    requires
        d < 10,
    ensures
        final(out)@ == old(out)@ + seq![digit_char(d as int)],
{
    proof {
        reveal_strlit("0");
        reveal_strlit("1");
        reveal_strlit("2");
        reveal_strlit("3");
        reveal_strlit("4");
        reveal_strlit("5");
        reveal_strlit("6");
        reveal_strlit("7");
        reveal_strlit("8");
        reveal_strlit("9");
    }
    if d == 0 {
        out.append("0");
    } else if d == 1 {
        out.append("1");
    } else if d == 2 {
        out.append("2");
    } else if d == 3 {
        out.append("3");
    } else if d == 4 {
        out.append("4");
    } else if d == 5 {
        out.append("5");
    } else if d == 6 {
        out.append("6");
    } else if d == 7 {
        out.append("7");
    } else if d == 8 {
        out.append("8");
    } else {
        out.append("9");
    }
    proof {
        assert(out@ =~= old(out)@ + seq![digit_char(d as int)]);
    }
}

fn push_dec(n: u128, out: &mut String)
    ensures
        final(out)@ == old(out)@ + dec_rep(n as nat),
    decreases n,
{
    if n >= 10 {
        push_dec(n / 10, out);
    }
    push_digit(n % 10, out);
    proof {
        assert(out@ =~= old(out)@ + dec_rep(n as nat));
    }
}

fn push_frac_digits(m: u128, k: u32, out: &mut String)
    ensures
        final(out)@ == old(out)@ + frac_digits(m as nat, k as nat),
    decreases k,
{
    if k > 0 {
        push_frac_digits(m / 10, k - 1, out);
        push_digit(m % 10, out);
    }
    proof {
        assert(out@ =~= old(out)@ + frac_digits(m as nat, k as nat));
    }
}

fn find_scale(d: u128, k: u32, pw: u128) -> (r: Option<(u32, u128)>)
    requires
        d >= 1,
        k <= 19,
        pw == pow10(k as nat),
    ensures
        r is None ==> scale_of(d as nat, k as nat, pw as nat) is None,
        r matches Some(kpw) ==> scale_of(d as nat, k as nat, pw as nat) == Some(
            (kpw.0 as nat, kpw.1 as nat),
        ) && kpw.0 <= 18 && kpw.1 == pow10(kpw.0 as nat),
    decreases 19 - k,
{
    if k >= 19 {
        None
    } else if pw % d == 0 {
        Some((k, pw))
    } else {
        proof {
            lemma_pow10_mono(k as nat, 18);
            lemma_pow10_18();
        }
        find_scale(d, k + 1, pw * 10)
    }
}

impl Scalar {
    /// The decimal rendering of this scalar's exact value.
    pub fn to_decimal_string(&self) -> (r: String)
        requires
            frac_wf(self@),
            fits(self@.num),
        ensures
            r@ == scalar_decimal(self@),
    {
        let num = self.num();
        let den = self.den();
        let mut out = String::new();
        if num < 0 {
            proof {
                reveal_strlit("-");
            }
            out.append("-");
            proof {
                assert(out@ =~= seq!['-']);
            }
        }
        let n0: u128 = if num < 0 {
            (-num) as u128
        } else {
            num as u128
        };
        let d0: u128 = den as u128;
        let g = gcd(d0, n0);
        let n = n0 / g;
        let d = d0 / g;
        proof {
            assert(d0 as int == g as int * (d0 as int / g as int)) by {
                lemma_fundamental_div_mod(d0 as int, g as int);
            }
            assert(d0 as int / g as int >= 1) by (nonlinear_arith)
                requires
                    d0 as int == g as int * (d0 as int / g as int),
                    d0 as int >= g as int,
                    g as int >= 1;
        }
        match find_scale(d, 0, 1) {
            Some((k, pw)) => {
                if n < 0x8000000000000000 {
                    proof {
                        let ni = n as int;
                        let di = d as int;
                        let pwi = pw as int;
                        lemma_pow10_pos(k as nat);
                        lemma_pow10_mono(k as nat, 18);
                        lemma_pow10_18();
                        assert(0 <= pwi / di <= pwi) by (nonlinear_arith)
                            requires
                                1 <= di,
                                1 <= pwi;
                        assert(ni * (pwi / di) < 0x8000000000000000
                            * 10_000_000_000_000_000_000) by (nonlinear_arith)
                            requires
                                0 <= ni < 0x8000000000000000,
                                0 <= pwi / di <= 10_000_000_000_000_000_000;
                    }
                    let scaled = n * (pw / d);
                    if k == 0 {
                        push_dec(scaled, &mut out);
                    } else {
                        push_dec(scaled / pw, &mut out);
                        proof {
                            reveal_strlit(".");
                        }
                        out.append(".");
                        push_frac_digits(scaled % pw, k, &mut out);
                    }
                } else {
                    push_dec(n, &mut out);
                    proof {
                        reveal_strlit("/");
                    }
                    out.append("/");
                    push_dec(d, &mut out);
                }
            },
            None => {
                push_dec(n, &mut out);
                proof {
                    reveal_strlit("/");
                }
                out.append("/");
                push_dec(d, &mut out);
                proof {
                    assert(out@ =~= scalar_decimal(self@));
                }
            },
        }
        proof {
            assert(out@ =~= scalar_decimal(self@));
        }
        out
    }
}

impl Vec3d {
    /// The rendering of this vector as `(x,y,z)`.
    pub fn to_display_string(&self) -> (r: String)
        requires
            vec3_wf(self@),
            fits(self@.x.num),
            fits(self@.y.num),
            fits(self@.z.num),
        ensures
            r@ == seq!['('] + scalar_decimal(self@.x) + seq![','] + scalar_decimal(self@.y)
                + seq![','] + scalar_decimal(self@.z) + seq![')'],
    {
        proof {
            reveal_strlit("(");
            reveal_strlit(",");
            reveal_strlit(")");
        }
        let mut out = String::from_str("(");
        let sx = self.0.to_decimal_string();
        out.append(sx.as_str());
        out.append(",");
        let sy = self.1.to_decimal_string();
        out.append(sy.as_str());
        out.append(",");
        let sz = self.2.to_decimal_string();
        out.append(sz.as_str());
        out.append(")");
        proof {
            assert(out@ =~= seq!['('] + scalar_decimal(self@.x) + seq![','] + scalar_decimal(
                self@.y,
            ) + seq![','] + scalar_decimal(self@.z) + seq![')']);
        }
        out
    }
}

impl Vecn {
    /// The rendering of this vector as its comma-separated coordinates in
    /// parentheses.
    pub fn to_display_string(&self) -> (r: String)
        requires
            forall|i: int| 0 <= i < self@.len() ==> frac_wf(#[trigger] self@[i]),
            forall|i: int| 0 <= i < self@.len() ==> fits((#[trigger] self@[i]).num),
        ensures
            r@ == seq!['('] + join_decimals(self@) + seq![')'],
    {
        proof {
            reveal_strlit("(");
            reveal_strlit(",");
            reveal_strlit(")");
        }
        let mut out = String::from_str("(");
        let n = self.dim();
        let mut i: usize = 0;
        while i < n
            invariant
                n == self@.len(),
                i <= n,
                forall|j: int| 0 <= j < n ==> frac_wf(#[trigger] self@[j]),
                forall|j: int| 0 <= j < n ==> fits((#[trigger] self@[j]).num),
                out@ == seq!['('] + join_decimals(self@.take(i as int)),
                "("@ == seq!['('],
                ","@ == seq![','],
                ")"@ == seq![')'],
            decreases n - i,
        {
            if i > 0 {
                out.append(",");
            }
            let s = self.coord(i);
            let cs = s.to_decimal_string();
            out.append(cs.as_str());
            proof {
                assert(self@.take(i as int + 1).drop_last() =~= self@.take(i as int));
                assert(self@.take(i as int + 1).last() == self@[i as int]);
                assert(out@ =~= seq!['('] + join_decimals(self@.take(i as int + 1)));
            }
            i = i + 1;
        }
        out.append(")");
        proof {
            assert(self@.take(n as int) =~= self@);
            assert(out@ =~= seq!['('] + join_decimals(self@) + seq![')']);
        }
        out
    }
}

} // verus!
