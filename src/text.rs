//! Decimal rendering of integers and of fixed-point numbers.
use vstd::prelude::*;

verus! {

/// Relies on `String::push`: the character is appended at the end.
#[verifier::external_body]
pub(crate) fn push_char(s: &mut String, c: char)
    ensures
        final(s)@ == old(s)@.push(c),
{
    s.push(c)
}

/// The character of a decimal digit.
pub open spec fn digit_char(d: nat) -> char {
    if d == 0 {
        '0'
    } else if d == 1 {
        '1'
    } else if d == 2 {
        '2'
    } else if d == 3 {
        '3'
    } else if d == 4 {
        '4'
    } else if d == 5 {
        '5'
    } else if d == 6 {
        '6'
    } else if d == 7 {
        '7'
    } else if d == 8 {
        '8'
    } else {
        '9'
    }
}

/// The decimal digits of `n`, most significant first, without leading zeros.
pub open spec fn nat_text(n: nat) -> Seq<char>
    decreases n,
{
    if n < 10 {
        seq![digit_char(n)]
    } else {
        nat_text(n / 10).push(digit_char(n % 10))
    }
}

proof fn lemma_nat_text_len(n: nat)
    ensures
        nat_text(n).len() >= 1,
    decreases n,
{
    if n >= 10 {
        lemma_nat_text_len(n / 10);
    }
}

fn digit(d: u64) -> (c: char)
    requires
        d < 10,
    ensures
        c == digit_char(d as nat),
{
    if d == 0 {
        '0'
    } else if d == 1 {
        '1'
    } else if d == 2 {
        '2'
    } else if d == 3 {
        '3'
    } else if d == 4 {
        '4'
    } else if d == 5 {
        '5'
    } else if d == 6 {
        '6'
    } else if d == 7 {
        '7'
    } else if d == 8 {
        '8'
    } else {
        '9'
    }
}

/// Appends the decimal digits of `n` to `out`.
pub fn push_u64_text(out: &mut String, n: u64)
    ensures
        final(out)@ == old(out)@ + nat_text(n as nat),
    decreases n,
{
    if n >= 10 {
        push_u64_text(out, n / 10);
    }
    push_char(out, digit(n % 10));
    proof {
        if n >= 10 {
            assert(nat_text(n as nat) == nat_text((n / 10) as nat).push(digit_char((n % 10) as nat)));
        }
    }
}

/// The decimal text of `n`.
pub fn u64_text(n: u64) -> (r: String)
    ensures
        r@ == nat_text(n as nat),
{
    let mut out = String::new();
    push_u64_text(&mut out, n);
    proof {
        assert(out@ =~= nat_text(n as nat));
    }
    out
}

/// `n` copies of `'0'`.
pub open spec fn zeros(n: nat) -> Seq<char> {
    Seq::new(n, |i: int| '0')
}

/// The digits of a fixed-point number, padded with zeros on the left so
/// that at least one digit stands before the decimal point.
pub open spec fn padded_digits(digits: nat, scale: nat) -> Seq<char> {
    let t = nat_text(digits);
    if t.len() <= scale {
        zeros((scale + 1 - t.len()) as nat) + t
    } else {
        t
    }
}

/// The text of `digits / 10^scale`, with a minus sign when `negative`:
/// exactly `scale` digits after the point, and no point when `scale` is zero.
pub open spec fn decimal_text(negative: bool, digits: nat, scale: nat) -> Seq<char> {
    let p = padded_digits(digits, scale);
    let sign = if negative {
        seq!['-']
    } else {
        Seq::<char>::empty()
    };
    if scale == 0 {
        sign + p
    } else {
        sign + p.subrange(0, p.len() - scale) + seq!['.'] + p.subrange(p.len() - scale, p.len() as int)
    }
}

pub open spec fn is_digit(c: char) -> bool {
    '0' <= c <= '9'
}

pub open spec fn all_digits(s: Seq<char>) -> bool {
    forall|i: int| 0 <= i < s.len() ==> is_digit(#[trigger] s[i])
}

/// The number that a run of decimal digits stands for.
pub open spec fn digits_value(s: Seq<char>) -> nat
    decreases s.len(),
{
    if s.len() == 0 {
        0
    } else {
        digits_value(s.drop_last()) * 10 + ((s.last() as u32) - 48) as nat
    }
}

/// Whether the leading run of digits of `b` ends at `k`.
pub open spec fn int_end(b: Seq<char>, k: int) -> bool {
    0 <= k <= b.len() && all_digits(b.subrange(0, k)) && (k == b.len() || !is_digit(b[k]))
}

/// Where the leading run of digits of `b` ends.
pub open spec fn int_len(b: Seq<char>) -> int {
    choose|k: int| int_end(b, k)
}

/// The number a text stands for, when it is an optional `-`, one or more
/// digits, and optionally `.` with one or more digits, and the digits fit.
pub open spec fn parse_spec(t: Seq<char>) -> Option<Decimal> {
    let neg = t.len() > 0 && t[0] == '-';
    let b = if neg {
        t.drop_first()
    } else {
        t
    };
    let k = int_len(b);
    let frac = if k < b.len() {
        b.subrange(k + 1, b.len() as int)
    } else {
        Seq::empty()
    };
    let ok = k > 0 && (k == b.len() || (b[k] == '.' && frac.len() > 0 && all_digits(frac)));
    let v = digits_value(b.subrange(0, k) + frac);
    if ok && v <= u64::MAX && frac.len() <= u32::MAX {
        Some(Decimal { negative: neg, digits: v as u64, scale: frac.len() as u32 })
    } else {
        None
    }
}

proof fn lemma_int_len(b: Seq<char>, k: int)
    requires
        0 <= k <= b.len(),
        all_digits(b.subrange(0, k)),
        k == b.len() || !is_digit(b[k]),
    ensures
        int_len(b) == k,
{
    assert(int_end(b, k));
    let j = int_len(b);
    assert(int_end(b, j));
    if j < k {
        assert(b.subrange(0, k)[j] == b[j]);
    } else if k < j {
        assert(b.subrange(0, j)[k] == b[k]);
    }
}

/// Digits of `t` from `i` on, added to `value` (of the digits `ds` read so
/// far); stops at the first non-digit.
fn read_digits(t: &str, n: usize, i: usize, value: u64, overflow: bool, Ghost(ds): Ghost<Seq<char>>) -> (r: (
    usize,
    u64,
    bool,
))
    requires
        n == t@.len(),
        i <= n,
        !overflow ==> value == digits_value(ds),
        overflow ==> digits_value(ds) > u64::MAX,
    ensures
        i <= r.0 <= n,
        all_digits(t@.subrange(i as int, r.0 as int)),
        r.0 == n || !is_digit(t@[r.0 as int]),
        !r.2 ==> r.1 == digits_value(ds + t@.subrange(i as int, r.0 as int)),
        r.2 ==> digits_value(ds + t@.subrange(i as int, r.0 as int)) > u64::MAX,
{
    let mut j = i;
    let mut value = value;
    let mut overflow = overflow;
    while j < n
        invariant
            n == t@.len(),
            i <= j <= n,
            all_digits(t@.subrange(i as int, j as int)),
            !overflow ==> value == digits_value(ds + t@.subrange(i as int, j as int)),
            overflow ==> digits_value(ds + t@.subrange(i as int, j as int)) > u64::MAX,
        ensures
            j == n || !is_digit(t@[j as int]),
        decreases n - j,
    {
        let c = t.get_char(j);
        if !('0' <= c && c <= '9') {
            break;
        }
        let d = ((c as u32) - 48) as u64;
        let ghost before = ds + t@.subrange(i as int, j as int);
        let ghost after = ds + t@.subrange(i as int, j + 1);
        proof {
            assert(after.drop_last() =~= before);
            assert(after.last() == c);
            assert(digits_value(after) == digits_value(before) * 10 + d);
            assert(digits_value(after) >= digits_value(before)) by (nonlinear_arith)
                requires
                    digits_value(after) == digits_value(before) * 10 + d,
            ;
        }
        if !overflow {
            match value.checked_mul(10) {
                Some(m) => match m.checked_add(d) {
                    Some(v) => {
                        value = v;
                    },
                    None => {
                        overflow = true;
                    },
                },
                None => {
                    overflow = true;
                },
            }
        }
        j = j + 1;
        proof {
            assert forall|x: int| 0 <= x < j - i implies is_digit(#[trigger] t@.subrange(i as int, j as int)[x]) by {
                if x < j - 1 - i {
                    assert(t@.subrange(i as int, j - 1)[x] == t@.subrange(i as int, j as int)[x]);
                }
            }
        }
    }
    (j, value, overflow)
}

/// A fixed-point decimal number: `digits / 10^scale`, negated when `negative`.
///
/// Readings and coordinates are held in this form; its text is the shortest
/// decimal rendering of the number as it came from the data source.
#[derive(Clone, Copy, Debug, PartialEq, Eq)]
pub struct Decimal {
    pub negative: bool,
    pub digits: u64,
    pub scale: u32,
}

impl Decimal {
    pub open spec fn text_spec(self) -> Seq<char> {
        decimal_text(self.negative, self.digits as nat, self.scale as nat)
    }

    /// Reads the decimal text of a number: an optional `-`, digits, and
    /// optionally `.` and more digits. `None` when the text is not of that
    /// form or its digits do not fit.
    pub fn parse(text: &str) -> (r: Option<Decimal>)
        ensures
            r == parse_spec(text@),
    {
        let n = text.unicode_len();
        let neg = n > 0 && text.get_char(0) == '-';
        let start: usize = if neg {
            1
        } else {
            0
        };
        let ghost t = text@;
        let ghost b = if neg {
            t.drop_first()
        } else {
            t
        };
        let (i, value, overflow) = read_digits(text, n, start, 0, false, Ghost(Seq::empty()));
        let ghost k = i - start;
        proof {
            assert(b =~= t.subrange(start as int, n as int));
            assert(b.subrange(0, k) =~= t.subrange(start as int, i as int));
            assert(Seq::<char>::empty() + t.subrange(start as int, i as int) =~= b.subrange(0, k));
            if k < b.len() {
                assert(b[k] == t[i as int]);
            }
            lemma_int_len(b, k);
        }
        if i == start {
            return None;
        }
        if i == n {
            proof {
                assert(b.subrange(0, k) + Seq::<char>::empty() =~= b.subrange(0, k));
            }
            if overflow {
                return None;
            }
            return Some(Decimal { negative: neg, digits: value, scale: 0 });
        }
        if text.get_char(i) != '.' {
            return None;
        }
        let fstart = i + 1;
        let (j, value, overflow) = read_digits(text, n, fstart, value, overflow, Ghost(b.subrange(0, k)));
        let ghost frac = b.subrange(k + 1, b.len() as int);
        proof {
            assert(frac =~= t.subrange(fstart as int, n as int));
        }
        if j == fstart || j < n {
            proof {
                if j < n {
                    assert(frac[j - fstart] == t[j as int]);
                }
            }
            return None;
        }
        proof {
            assert(t.subrange(fstart as int, j as int) =~= frac);
        }
        let scale = j - fstart;
        if overflow || scale > 4294967295usize {
            return None;
        }
        Some(Decimal { negative: neg, digits: value, scale: scale as u32 })
    }

    /// A whole number.
    pub fn from_i64(v: i64) -> (r: Decimal)
        ensures
            r.negative == (v < 0),
            r.digits == (if v < 0 {
                -(v as int)
            } else {
                v as int
            }),
            r.scale == 0,
    {
        if v < 0 {
            let d: u64 = if v == i64::MIN {
                9223372036854775808u64
            } else {
                (-v) as u64
            };
            Decimal { negative: true, digits: d, scale: 0 }
        } else {
            Decimal { negative: false, digits: v as u64, scale: 0 }
        }
    }

    /// The decimal text of the number.
    pub fn text(&self) -> (r: String)
        ensures
            r@ == self.text_spec(),
    {
        let t = u64_text(self.digits);
        let tl = t.unicode_len();
        let scale = self.scale as usize;
        proof {
            lemma_nat_text_len(self.digits as nat);
        }
        // the digits, padded on the left
        let mut p = String::new();
        if tl <= scale {
            let pad = scale - tl + 1;
            let mut k: usize = 0;
            while k < pad
                invariant
                    pad == scale + 1 - tl,
                    k <= pad,
                    p@ == zeros(k as nat),
                decreases pad - k,
            {
                push_char(&mut p, '0');
                k = k + 1;
                proof {
                    assert(p@ =~= zeros(k as nat));
                }
            }
        }
        p.append(t.as_str());
        let ghost pd = padded_digits(self.digits as nat, self.scale as nat);
        assert(p@ =~= pd);
        let pl = p.unicode_len();
        let mut out = String::new();
        if self.negative {
            push_char(&mut out, '-');
        }
        let ghost sign = out@;
        let point = pl - scale;
        let mut i: usize = 0;
        while i < pl
            invariant
                pl == p@.len(),
                p@ == pd,
                pl >= scale + 1,
                point == pl - scale,
                i <= pl,
                out@ == sign + (if i <= point || scale == 0 {
                    pd.subrange(0, i as int)
                } else {
                    pd.subrange(0, point as int) + seq!['.'] + pd.subrange(point as int, i as int)
                }),
            decreases pl - i,
        {
            if i == point && scale > 0 {
                push_char(&mut out, '.');
            }
            let c = p.as_str().get_char(i);
            push_char(&mut out, c);
            i = i + 1;
            proof {
                if i <= point || scale == 0 {
                    assert(pd.subrange(0, i as int) =~= pd.subrange(0, i - 1).push(c));
                } else if i - 1 == point {
                    assert(pd.subrange(point as int, i as int) =~= seq![c]);
                } else {
                    assert(pd.subrange(point as int, i as int) =~= pd.subrange(
                        point as int,
                        i - 1,
                    ).push(c));
                }
            }
        }
        proof {
            let sg = if self.negative {
                seq!['-']
            } else {
                Seq::<char>::empty()
            };
            assert(sign == sg);
            assert(pd.subrange(0, pl as int) =~= pd);
            if scale > 0 {
                assert(out@ =~= self.text_spec());
            } else {
                assert(out@ =~= self.text_spec());
            }
        }
        out
    }
}

proof fn lemma_digit_char(d: nat)
    requires
        d < 10,
    ensures
        is_digit(digit_char(d)),
        ((digit_char(d) as u32) - 48) as nat == d,
{
}

proof fn lemma_nat_text_digits(n: nat)
    ensures
        all_digits(nat_text(n)),
        digits_value(nat_text(n)) == n,
    decreases n,
{
    lemma_digit_char(n % 10);
    if n < 10 {
        let t = nat_text(n);
        assert(n % 10 == n);
        assert(t.drop_last() =~= Seq::<char>::empty());
        assert(digits_value(t.drop_last()) == 0);
        assert(t.last() == digit_char(n));
        assert(digits_value(t) == digits_value(t.drop_last()) * 10 + ((t.last() as u32) - 48) as nat);
    } else {
        lemma_nat_text_digits(n / 10);
        let t = nat_text(n);
        assert(t.drop_last() =~= nat_text(n / 10));
        assert(t.last() == digit_char(n % 10));
        assert(digits_value(t) == digits_value(t.drop_last()) * 10 + ((t.last() as u32) - 48) as nat);
        assert((n / 10) * 10 + n % 10 == n);
        assert forall|i: int| 0 <= i < t.len() implies is_digit(#[trigger] t[i]) by {
            if i < t.len() - 1 {
                assert(t[i] == nat_text(n / 10)[i]);
            }
        }
    }
}

proof fn lemma_zeros_value(k: nat, t: Seq<char>)
    ensures
        digits_value(zeros(k) + t) == digits_value(t),
    decreases t.len(), k,
{
    if t.len() == 0 {
        assert(zeros(k) + t =~= zeros(k));
        if k > 0 {
            assert(zeros(k).drop_last() =~= zeros((k - 1) as nat));
            lemma_zeros_value((k - 1) as nat, t);
            assert(zeros((k - 1) as nat) + t =~= zeros((k - 1) as nat));
        }
    } else {
        assert((zeros(k) + t).drop_last() =~= zeros(k) + t.drop_last());
        lemma_zeros_value(k, t.drop_last());
    }
}

/// Reading the text of a number gives the number back.
pub proof fn lemma_text_parses_back(d: Decimal)
    ensures
        parse_spec(d.text_spec()) == Some(d),
{
    let s = d.scale as nat;
    let t = nat_text(d.digits as nat);
    lemma_nat_text_len(d.digits as nat);
    lemma_nat_text_digits(d.digits as nat);
    let p = padded_digits(d.digits as nat, s);
    assert(all_digits(p) && digits_value(p) == d.digits) by {
        if t.len() <= s {
            let z = zeros((s + 1 - t.len()) as nat);
            lemma_zeros_value((s + 1 - t.len()) as nat, t);
            assert forall|i: int| 0 <= i < p.len() implies is_digit(#[trigger] p[i]) by {
                if i >= z.len() {
                    assert(p[i] == t[i - z.len()]);
                }
            }
        }
    }
    assert(p.len() >= s + 1);
    let text = d.text_spec();
    let sign = if d.negative {
        seq!['-']
    } else {
        Seq::<char>::empty()
    };
    let k = p.len() - s;
    let b = if s == 0 {
        p
    } else {
        p.subrange(0, k) + seq!['.'] + p.subrange(k, p.len() as int)
    };
    assert(text =~= sign + b);
    assert(is_digit(p[0]));
    assert(b[0] == p[0]);
    let neg = text.len() > 0 && text[0] == '-';
    assert(neg == d.negative);
    let b2 = if neg {
        text.drop_first()
    } else {
        text
    };
    assert(b2 =~= b);
    assert(all_digits(b.subrange(0, k))) by {
        assert forall|i: int| 0 <= i < k implies is_digit(#[trigger] b.subrange(0, k)[i]) by {
            assert(b.subrange(0, k)[i] == p[i]);
        }
    }
    if s == 0 {
        assert(b.subrange(0, k) =~= p);
        lemma_int_len(b, k);
        assert(p + Seq::<char>::empty() =~= p);
    } else {
        assert(b[k] == '.');
        lemma_int_len(b, k);
        let frac = b.subrange(k + 1, b.len() as int);
        assert(frac =~= p.subrange(k, p.len() as int));
        assert(all_digits(frac)) by {
            assert forall|i: int| 0 <= i < frac.len() implies is_digit(#[trigger] frac[i]) by {
                assert(frac[i] == p[k + i]);
            }
        }
        assert(b.subrange(0, k) + frac =~= p);
    }
}

} // verus!
