use vstd::prelude::*;

use crate::digits::{dec_digits, digit_char, lemma_dec_digits_ascii, u128_to_dec};
use crate::errors::ClientError;
use vstd::string::StrSliceExecFns;

verus! {

/// A character is an ASCII decimal digit.
pub open spec fn is_digit(c: char) -> bool {
    48 <= c as int && c as int <= 57
}

/// The numeric value of a digit character (0 for anything else, so the
/// function stays total).
pub open spec fn digit_val(c: char) -> nat {
    if is_digit(c) {
        (c as int - 48) as nat
    } else {
        0
    }
}

/// The value of a digit string read as a decimal numeral.
pub open spec fn digits_val(s: Seq<char>) -> nat
    decreases s.len(),
{
    if s.len() == 0 {
        0
    } else {
        digits_val(s.drop_last()) * 10 + digit_val(s.last())
    }
}

/// `s` is a well-formed non-negative decimal numeral whose (unique) dot
/// stands at index `k`; `k == s.len()` means there is no dot. The
/// integer part is never empty, and when a dot is present the
/// fractional part is not empty either.
pub open spec fn valid_decimal(s: Seq<char>, k: int) -> bool {
    &&& 0 <= k <= s.len()
    &&& (forall|i: int| 0 <= i < s.len() && i != k ==> is_digit(#[trigger] s[i]))
    &&& if k == s.len() {
        s.len() > 0
    } else {
        s[k] == '.' && 0 < k < s.len() - 1
    }
}

/// The digits of `s` with the dot at `k` removed.
pub open spec fn mantissa_digits(s: Seq<char>, k: int) -> Seq<char> {
    if k == s.len() {
        s
    } else {
        s.subrange(0, k) + s.subrange(k + 1, s.len() as int)
    }
}

/// How many digits of `s` follow the dot at `k`.
pub open spec fn scale_at(s: Seq<char>, k: int) -> nat {
    if k == s.len() {
        0
    } else {
        (s.len() - 1 - k) as nat
    }
}

/// `s` is a well-formed decimal numeral.
pub open spec fn dec_valid(s: Seq<char>) -> bool {
    exists|k: int| valid_decimal(s, k)
}

/// The dot position of a well-formed numeral.
pub open spec fn dec_k(s: Seq<char>) -> int {
    choose|k: int| valid_decimal(s, k)
}

/// The mantissa (digits with the dot removed) of a well-formed numeral.
pub open spec fn dec_m(s: Seq<char>) -> nat {
    digits_val(mantissa_digits(s, dec_k(s)))
}

/// The scale (count of fractional digits) of a well-formed numeral.
pub open spec fn dec_scale(s: Seq<char>) -> nat {
    scale_at(s, dec_k(s))
}

/// A numeral has at most one reading: the dot position is unique, since
/// every other position holds a digit and a digit is never a dot.
pub proof fn lemma_valid_decimal_unique(s: Seq<char>, k1: int, k2: int)
    requires
        valid_decimal(s, k1),
        valid_decimal(s, k2),
    ensures
        k1 == k2,
{
    if k1 != k2 {
        if k1 < s.len() {
            assert(is_digit(s[k1]));
            assert(s[k1] == '.');
        } else {
            assert(is_digit(s[k2]));
            assert(s[k2] == '.');
        }
    }
}

/// A digit string of zeros alone reads as zero.
proof fn lemma_digits_val_all_zeros(z: Seq<char>)
    requires
        forall|i: int| 0 <= i < z.len() ==> z[i] == '0',
    ensures
        digits_val(z) == 0,
    decreases z.len(),
{
    if z.len() > 0 {
        lemma_digits_val_all_zeros(z.drop_last());
    }
}

/// Leading zeros do not change the value a digit string reads as.
proof fn lemma_digits_val_leading_zeros(z: Seq<char>, s: Seq<char>)
    requires
        forall|i: int| 0 <= i < z.len() ==> z[i] == '0',
    ensures
        digits_val(z + s) == digits_val(s),
    decreases s.len(),
{
    if s.len() == 0 {
        assert(z + s =~= z);
        lemma_digits_val_all_zeros(z);
    } else {
        lemma_digits_val_leading_zeros(z, s.drop_last());
        assert((z + s).drop_last() =~= z + s.drop_last());
        assert((z + s).last() == s.last());
    }
}

/// A numeral rendered from a value reads back as that value.
pub proof fn lemma_digits_val_dec_digits(n: nat)
    ensures
        digits_val(dec_digits(n)) == n,
    decreases n,
{
    if n < 10 {
        let c = digit_char(n);
        assert(dec_digits(n) == seq![c]);
        assert(seq![c].drop_last() =~= Seq::<char>::empty());
        assert(digits_val(Seq::<char>::empty()) == 0);
        assert(seq![c].last() == c);
        assert(digits_val(seq![c]) == digits_val(seq![c].drop_last()) * 10 + digit_val(c));
        assert(digit_val(c) == n);
    } else {
        lemma_digits_val_dec_digits(n / 10);
        let ds = dec_digits(n / 10);
        let c = digit_char(n % 10);
        assert(dec_digits(n) == ds.push(c));
        assert(ds.push(c).drop_last() =~= ds);
        assert(ds.push(c).last() == c);
        assert(digits_val(ds.push(c)) == digits_val(ds) * 10 + digit_val(c));
        assert(digit_val(c) == n % 10);
    }
}

/// An exact non-negative decimal quantity `m / 10^s`: a mantissa and a
/// count of fractional digits. Fill prices and quantities arrive from
/// the exchange as decimal strings and are kept exact, never rounded.
#[derive(Clone, Copy, Debug, PartialEq, Eq, Structural)]
pub struct Decimal {
    pub m: u128,
    pub s: u64,
}

/// A run of `n` zero characters.
pub open spec fn zeros(n: nat) -> Seq<char> {
    Seq::new(n, |i: int| '0')
}

/// The text of a decimal: the mantissa's numeral with the dot inserted
/// `s` digits from the right, left-padded with zeros below one.
pub open spec fn render_spec(d: Decimal) -> Seq<char> {
    let ds = dec_digits(d.m as nat);
    if d.s == 0 {
        ds
    } else if ds.len() > d.s {
        ds.subrange(0, ds.len() - d.s) + seq!['.'] + ds.subrange(ds.len() - d.s, ds.len() as int)
    } else {
        seq!['0', '.'] + zeros((d.s - ds.len()) as nat) + ds
    }
}

/// The digits of the prefix of the mantissa that a left-to-right scan
/// has seen once it stands at position `i` (the dot at `k` excluded).
spec fn mantissa_prefix(s: Seq<char>, k: int, i: int) -> Seq<char> {
    if i <= k {
        s.subrange(0, i)
    } else {
        s.subrange(0, k) + s.subrange(k + 1, i)
    }
}

impl Decimal {
    /// Parse a non-negative decimal numeral (`digits`, optionally
    /// `digits.digits`). Returns the error the protocol gives a numeric
    /// string that does not parse, and likewise rejects a mantissa too
    /// large for exact arithmetic.
    pub fn parse(s: &str) -> (r: Result<Decimal, ClientError>)
        ensures
            match r {
                Ok(d) => dec_valid(s@) && dec_m(s@) <= u64::MAX && d.m == dec_m(s@) && d.s
                    == dec_scale(s@),
                Err(e) => e == ClientError::Parse && (dec_valid(s@) ==> dec_m(s@) > u64::MAX),
            },
    {
        let n = s.unicode_len();
        if n == 0 {
            return Err(ClientError::Parse);
        }
        // Find the first dot, if any.
        let mut k: usize = n;
        let mut i: usize = 0;
        while i < n
            invariant
                i <= n,
                n == s@.len(),
                k <= n,
                k == n ==> forall|j: int| 0 <= j < i ==> s@[j] != '.',
                k < n ==> k < i && s@[k as int] == '.' && (forall|j: int|
                    0 <= j < k ==> s@[j] != '.'),
            decreases n - i,
        {
            if k == n && s.get_char(i) == '.' {
                k = i;
            }
            i += 1;
        }
        if k < n && (k == 0 || k == n - 1) {
            proof {
                assert forall|k2: int| !valid_decimal(s@, k2) by {
                    if valid_decimal(s@, k2) {
                        if k2 != k {
                            assert(is_digit(s@[k as int]));
                        }
                    }
                }
            }
            return Err(ClientError::Parse);
        }
        // Scan every character, skipping the dot: validate digits and
        // accumulate the mantissa value.
        let mut acc: u128 = 0;
        let mut big: bool = false;
        let mut i: usize = 0;
        while i < n
            invariant
                i <= n,
                n == s@.len(),
                k <= n,
                k == n ==> forall|j: int| 0 <= j < n ==> s@[j] != '.',
                k < n ==> s@[k as int] == '.' && 0 < k < n - 1 && (forall|j: int|
                    0 <= j < k ==> s@[j] != '.'),
                forall|j: int| 0 <= j < i && j != k as int ==> is_digit(#[trigger] s@[j]),
                !big ==> acc == digits_val(mantissa_prefix(s@, k as int, i as int)) && acc
                    <= u64::MAX,
                big ==> digits_val(mantissa_prefix(s@, k as int, i as int)) > u64::MAX,
            decreases n - i,
        {
            if i != k {
                let c = s.get_char(i);
                let v = c as u32;
                if v < 48 || v > 57 {
                    proof {
                        assert forall|k2: int| !valid_decimal(s@, k2) by {
                            if valid_decimal(s@, k2) {
                                if k2 != i {
                                    assert(is_digit(s@[i as int]));
                                } else {
                                    // A dot at i would be the first dot or follow one.
                                    assert(s@[i as int] == '.');
                                    if k < n {
                                        assert(is_digit(s@[k as int]));
                                    }
                                }
                            }
                        }
                    }
                    return Err(ClientError::Parse);
                }
                let d = (v - 48) as u128;
                proof {
                    let pref = mantissa_prefix(s@, k as int, i as int);
                    let next = mantissa_prefix(s@, k as int, i + 1 as int);
                    assert(next =~= pref.push(s@[i as int]));
                    assert(next.drop_last() =~= pref);
                    assert(digits_val(next) == digits_val(pref) * 10 + digit_val(s@[i as int]));
                }
                if big {
                } else {
                    let na = acc * 10 + d;
                    if na > u64::MAX as u128 {
                        big = true;
                    } else {
                        acc = na;
                    }
                }
            } else {
                proof {
                    assert(mantissa_prefix(s@, k as int, i + 1 as int) =~= mantissa_prefix(
                        s@,
                        k as int,
                        i as int,
                    ));
                }
            }
            i += 1;
        }
        proof {
            assert(valid_decimal(s@, k as int));
            lemma_valid_decimal_unique(s@, dec_k(s@), k as int);
            assert(mantissa_prefix(s@, k as int, n as int) =~= mantissa_digits(s@, k as int));
        }
        if big {
            return Err(ClientError::Parse);
        }
        let scale: u64 = if k < n {
            (n - 1 - k) as u64
        } else {
            0u64
        };
        Ok(Decimal { m: acc, s: scale })
    }

    /// Render the decimal as text, for display: the mantissa's numeral
    /// with the dot inserted `s` digits from the right.
    pub fn render(&self) -> (r: String)
        ensures
            r@ == render_spec(*self),
    {
        let digits = u128_to_dec(self.m);
        proof {
            lemma_dec_digits_ascii(self.m as nat);
            assert(vstd::utf8::is_ascii_chars(digits@));
        }
        if self.s == 0 {
            return digits;
        }
        let len = digits.unicode_len();
        if (len as u64) > self.s {
            let cut = len - (self.s as usize);
            let head = digits.as_str().substring_ascii(0, cut);
            let mut r = head.to_owned();
            r.append(".");
            let tail = digits.as_str().substring_ascii(cut, len);
            r.append(tail);
            proof {
                reveal_strlit(".");
                assert("."@ =~= seq!['.']);
                assert(r@ =~= render_spec(*self));
            }
            r
        } else {
            let mut r = "0.".to_owned();
            proof {
                reveal_strlit("0.");
                assert(r@ =~= seq!['0', '.'] + zeros(0));
            }
            let ghost total: u64 = (self.s - (len as u64)) as u64;
            let mut pad: u64 = self.s - (len as u64);
            while pad > 0
                invariant
                    pad <= total,
                    r@ == seq!['0', '.'] + zeros((total - pad) as nat),
                decreases pad,
            {
                r.append("0");
                pad = pad - 1;
                proof {
                    reveal_strlit("0");
                    assert("0"@ =~= seq!['0']);
                    assert(zeros((total - pad) as nat) =~= zeros((total - pad - 1) as nat).push(
                        '0',
                    ));
                    assert(r@ =~= seq!['0', '.'] + zeros((total - pad) as nat));
                }
            }
            r.append(digits.as_str());
            proof {
                assert(r@ =~= render_spec(*self));
            }
            r
        }
    }

    /// A decimal stands for the value `m / 10^s`. Multiplying mantissas
    /// and adding scales multiplies the represented values exactly:
    /// cross-multiplied, `c.m * 10^a.s * 10^b.s == a.m * b.m * 10^c.s`,
    /// so a cost computed this way is the product of price and
    /// quantity, for arbitrary non-negative pairs.
    pub proof fn lemma_mul_represents_product(a: Decimal, b: Decimal, c: Decimal)
        requires
            c.m == a.m * b.m,
            c.s == a.s + b.s,
        ensures
            c.m * vstd::arithmetic::power::pow(10, a.s as nat) * vstd::arithmetic::power::pow(
                10,
                b.s as nat,
            ) == a.m * b.m * vstd::arithmetic::power::pow(10, c.s as nat),
    {
        vstd::arithmetic::power::lemma_pow_adds(10, a.s as nat, b.s as nat);
        let x = vstd::arithmetic::power::pow(10, a.s as nat);
        let y = vstd::arithmetic::power::pow(10, b.s as nat);
        assert(c.m * x * y == c.m * (x * y)) by (nonlinear_arith);
    }

    /// Rendering a decimal and parsing the text back gives the same
    /// mantissa and scale, whenever the mantissa fits the parser's
    /// bound: `render` and `parse` are inverse on what the exchange's
    /// numerals can carry.
    pub proof fn lemma_render_parse_round_trip(d: Decimal)
        requires
            d.m <= u64::MAX,
        ensures
            dec_valid(render_spec(d)),
            dec_m(render_spec(d)) == d.m,
            dec_scale(render_spec(d)) == d.s,
    {
        let t = render_spec(d);
        let ds = dec_digits(d.m as nat);
        lemma_dec_digits_ascii(d.m as nat);
        lemma_digits_val_dec_digits(d.m as nat);
        assert(ds.len() >= 1);
        if d.s == 0 {
            assert(valid_decimal(t, t.len() as int));
            lemma_valid_decimal_unique(t, dec_k(t), t.len() as int);
            assert(mantissa_digits(t, t.len() as int) == t);
        } else if ds.len() > d.s {
            let k = ds.len() - d.s;
            assert(t[k] == '.');
            assert forall|i: int| 0 <= i < t.len() && i != k implies is_digit(#[trigger] t[i]) by {
                if i < k {
                    assert(t[i] == ds[i]);
                } else {
                    assert(t[i] == ds[i - 1]);
                }
            }
            assert(valid_decimal(t, k));
            lemma_valid_decimal_unique(t, dec_k(t), k);
            assert(mantissa_digits(t, k) =~= ds);
        } else {
            let p = (d.s - ds.len()) as nat;
            assert(t[0] == '0');
            assert(t[1] == '.');
            assert forall|i: int| 0 <= i < t.len() && i != 1 implies is_digit(#[trigger] t[i]) by {
                if i == 0 {
                } else if i < 2 + p {
                    assert(t[i] == zeros(p)[i - 2]);
                } else {
                    assert(t[i] == ds[i - 2 - p]);
                }
            }
            assert(valid_decimal(t, 1));
            lemma_valid_decimal_unique(t, dec_k(t), 1);
            let z = seq!['0'] + zeros(p);
            assert(mantissa_digits(t, 1) =~= z + ds);
            lemma_digits_val_leading_zeros(z, ds);
        }
    }

    /// Multiply two exact decimals: mantissas multiply and scales add.
    /// `None` exactly when the result does not fit the representation.
    pub fn checked_mul(&self, other: &Decimal) -> (r: Option<Decimal>)
        ensures
            match r {
                Some(c) => c.m == self.m * other.m && c.s == self.s + other.s,
                None => self.m * other.m > u128::MAX || self.s + other.s > u64::MAX,
            },
    {
        match (self.m.checked_mul(other.m), self.s.checked_add(other.s)) {
            (Some(m), Some(sc)) => Some(Decimal { m, s: sc }),
            _ => None,
        }
    }
}

} // verus!
