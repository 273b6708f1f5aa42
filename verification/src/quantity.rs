//! Ingredient quantities as exact decimal numbers: a numeral is read as its
//! sign, its digits and the count of its fraction digits, amounts are added exactly
//! with any number of digits, and totals are written back as the shortest
//! decimal numeral.
use vstd::prelude::*;
use crate::text::{chars_of, decimal, digit_char, digit_value, is_digit, push_char};

verus! {

/// Every character of `s` is a decimal digit.
pub open spec fn all_digits(s: Seq<char>) -> bool {
    forall|i: int| 0 <= i < s.len() ==> is_digit(#[trigger] s[i])
}

/// The number that the digit string `s` denotes.
pub open spec fn digits_value(s: Seq<char>) -> nat
    decreases s.len(),
{
    if s.len() == 0 {
        0
    } else {
        digits_value(s.drop_last()) * 10 + digit_value(s.last()) as nat
    }
}

/// Ten to the power `k`.
pub open spec fn pow10(k: nat) -> nat
    decreases k,
{
    if k == 0 {
        1
    } else {
        10 * pow10((k - 1) as nat)
    }
}

/// The index of the first `.` in `s`, or its length where there is none.
pub open spec fn dot_position(s: Seq<char>) -> int
    decreases s.len(),
{
    if s.len() == 0 {
        0
    } else if s[0] == '.' {
        0
    } else {
        1 + dot_position(s.drop_first())
    }
}

/// The characters before the first `.` of `s`.
pub open spec fn whole_part(s: Seq<char>) -> Seq<char> {
    s.take(dot_position(s))
}

/// The characters after the first `.` of `s` (none where there is no `.`).
pub open spec fn fraction_part(s: Seq<char>) -> Seq<char> {
    if dot_position(s) < s.len() {
        s.skip(dot_position(s) + 1)
    } else {
        Seq::empty()
    }
}

/// The number `n / 10^scale`, negated where `negative` holds.
pub struct Amount {
    pub negative: bool,
    pub n: nat,
    pub scale: nat,
}

/// Nothing.
pub open spec fn amount_zero() -> Amount {
    Amount { negative: false, n: 0, scale: 0 }
}

/// Zero is never written as negative.
pub open spec fn canonical(a: Amount) -> bool {
    a.negative ==> a.n > 0
}

/// The amount as a signed count of `10^-s` units, for `s` at least its scale.
pub open spec fn scaled(a: Amount, s: nat) -> int {
    let m: int = (a.n * pow10((s - a.scale) as nat)) as int;
    if a.negative {
        -m
    } else {
        m
    }
}

/// The exact sum of two amounts, with the larger of their scales.
pub open spec fn add_amounts(a: Amount, b: Amount) -> Amount {
    let s = if a.scale >= b.scale {
        a.scale
    } else {
        b.scale
    };
    let v = scaled(a, s) + scaled(b, s);
    Amount {
        negative: v < 0,
        n: (if v < 0 {
            -v
        } else {
            v
        }) as nat,
        scale: s,
    }
}

/// `s` without one leading sign.
pub open spec fn unsigned_part(s: Seq<char>) -> Seq<char> {
    if s.len() > 0 && (s[0] == '+' || s[0] == '-') {
        s.drop_first()
    } else {
        s
    }
}

/// Whether `s` starts with a minus sign.
pub open spec fn minus_sign(s: Seq<char>) -> bool {
    s.len() > 0 && s[0] == '-'
}

/// The value of a quantity numeral: an optional sign, digits, optionally a
/// `.` and more digits, at least one digit in all (`"500"`, `"0.5"`,
/// `".25"`, `"3."`, `"-1.2345"`), of any length. Any other text (an
/// exponent, `inf`, `NaN`, a unit) has no value here.
pub open spec fn quantity_value(s: Seq<char>) -> Option<Amount> {
    let b = unsigned_part(s);
    let w = whole_part(b);
    let f = fraction_part(b);
    if all_digits(w) && all_digits(f) && w.len() + f.len() > 0 {
        let n = digits_value(w + f);
        Some(Amount { negative: minus_sign(s) && n > 0, n, scale: f.len() })
    } else {
        None
    }
}

/// The amount that a quantity counts for: its value, or one whole unit
/// where the text has none.
pub open spec fn quantity_or_one(s: Seq<char>) -> Amount {
    match quantity_value(s) {
        Some(a) => a,
        None => Amount { negative: false, n: 1, scale: 0 },
    }
}

/// The same number with no trailing zero in its fraction.
pub open spec fn normalize(a: Amount) -> Amount
    decreases a.scale,
{
    if a.scale > 0 && a.n % 10 == 0 {
        normalize(Amount { negative: a.negative, n: a.n / 10, scale: (a.scale - 1) as nat })
    } else {
        a
    }
}

/// The `k` last decimal digits of `x`, with leading zeros.
pub open spec fn padded(x: nat, k: nat) -> Seq<char>
    decreases k,
{
    if k == 0 {
        Seq::empty()
    } else {
        padded(x / 10, (k - 1) as nat).push(digit_char((x % 10) as int))
    }
}

/// The numeral of `n / 10^scale` with exactly `scale` fraction digits (none
/// and no `.` where `scale` is zero).
pub open spec fn magnitude_text(n: nat, scale: nat) -> Seq<char> {
    if scale == 0 {
        decimal(n)
    } else {
        decimal(n / pow10(scale)) + seq!['.'] + padded(n % pow10(scale), scale)
    }
}

/// The shortest decimal numeral of an amount: a minus sign where it is
/// negative, the whole part, then, where the number is not whole, `.` and
/// the fraction without trailing zeros (`1.500` is `"1.5"`, `1600` is
/// `"1600"`, `-0.25` is `"-0.25"`).
pub open spec fn format_amount(a: Amount) -> Seq<char> {
    let m = normalize(a);
    if m.negative {
        seq!['-'] + magnitude_text(m.n, m.scale)
    } else {
        magnitude_text(m.n, m.scale)
    }
}

/// Adding to nothing gives the amount itself.
pub proof fn lemma_add_zero(a: Amount)
    requires
        canonical(a),
    ensures
        add_amounts(amount_zero(), a) == a,
{
    let z = amount_zero();
    let s = if z.scale >= a.scale {
        z.scale
    } else {
        a.scale
    };
    assert(s == a.scale);
    assert(((s - a.scale) as nat) == 0);
    assert(pow10(0) == 1);
    assert(z.n * pow10((s - z.scale) as nat) == 0);
    assert(a.n * pow10((s - a.scale) as nat) == a.n);
}

proof fn lemma_pow10_positive(k: nat)
    ensures
        pow10(k) >= 1,
    decreases k,
{
    if k > 0 {
        lemma_pow10_positive((k - 1) as nat);
    }
}

proof fn lemma_digits_value_bound(s: Seq<char>)
    requires
        all_digits(s),
    ensures
        digits_value(s) < pow10(s.len()),
    decreases s.len(),
{
    if s.len() > 0 {
        assert(is_digit(s[s.len() - 1]));
        assert(all_digits(s.drop_last()));
        lemma_digits_value_bound(s.drop_last());
    }
}

/// The value of a concatenation of digit strings.
proof fn lemma_digits_value_concat(x: Seq<char>, y: Seq<char>)
    ensures
        digits_value(x + y) == digits_value(x) * pow10(y.len()) + digits_value(y),
    decreases y.len(),
{
    if y.len() == 0 {
        assert(x + y =~= x);
        assert(pow10(0) == 1);
        assert(digits_value(y) == 0);
    } else {
        let y1 = y.drop_last();
        lemma_digits_value_concat(x, y1);
        let xy = x + y;
        assert(xy.drop_last() =~= x + y1);
        assert(xy.last() == y.last());
        assert(digits_value(xy) == digits_value(x + y1) * 10 + digit_value(y.last()) as nat);
        assert(digits_value(y) == digits_value(y1) * 10 + digit_value(y.last()) as nat);
        assert(pow10(y.len()) == 10 * pow10(y1.len()));
        let a = digits_value(x);
        let p = pow10(y1.len());
        let r = digits_value(y1);
        let d = digit_value(y.last()) as nat;
        assert((a * p + r) * 10 + d == a * (10 * p) + (r * 10 + d)) by (nonlinear_arith);
    }
}

/// The value of a one-character digit string.
proof fn lemma_single_digit(c: char)
    ensures
        digits_value(seq![c]) == digit_value(c) as nat,
{
    let s = seq![c];
    assert(s.drop_last() =~= Seq::<char>::empty());
    assert(digits_value(Seq::<char>::empty()) == 0);
    assert(s.last() == c);
}

proof fn lemma_zeros_value(z: Seq<char>)
    requires
        forall|i: int| 0 <= i < z.len() ==> #[trigger] z[i] == '0',
    ensures
        digits_value(z) == 0,
    decreases z.len(),
{
    if z.len() > 0 {
        lemma_zeros_value(z.drop_last());
    }
}

proof fn lemma_digit_char_value(c: char)
    requires
        is_digit(c),
    ensures
        digit_char(digit_value(c)) == c,
        0 <= digit_value(c) < 10,
{
}

/// A digit string of length `k` is the `k`-digit numeral of its value.
proof fn lemma_padded(s: Seq<char>)
    requires
        all_digits(s),
    ensures
        s == padded(digits_value(s), s.len()),
    decreases s.len(),
{
    if s.len() > 0 {
        let t = s.drop_last();
        assert(all_digits(t));
        lemma_padded(t);
        assert(is_digit(s.last()));
        lemma_digit_char_value(s.last());
        let v = digits_value(s);
        assert(v / 10 == digits_value(t));
        assert(v % 10 == digit_value(s.last()));
        assert(s =~= t.push(s.last()));
    }
}

/// A digit string without a leading zero (or the single `0`) is the
/// decimal numeral of its value.
proof fn lemma_decimal_of_digits(s: Seq<char>)
    requires
        all_digits(s),
        s.len() >= 1,
        s[0] != '0' || s.len() == 1,
    ensures
        s == decimal(digits_value(s)),
    decreases s.len(),
{
    lemma_digit_char_value(s.last());
    if s.len() == 1 {
        assert(s =~= seq![s[0]]);
        lemma_single_digit(s[0]);
        assert(digits_value(s) == digit_value(s[0]));
        assert(decimal(digits_value(s)) =~= seq![s[0]]);
        assert(s =~= seq![s[0]]);
    } else {
        let t = s.drop_last();
        assert(all_digits(t));
        assert(t[0] == s[0]);
        lemma_decimal_of_digits(t);
        lemma_digits_value_concat(seq![t[0]], t.drop_first());
        assert(seq![t[0]] + t.drop_first() =~= t);
        lemma_pow10_positive(t.drop_first().len());
        lemma_single_digit(t[0]);
        assert(digits_value(seq![t[0]]) == digit_value(t[0]));
        assert(digit_value(t[0]) >= 1);
        assert(digits_value(t) >= 1) by (nonlinear_arith)
            requires
                digits_value(t) == digit_value(t[0]) as nat * pow10(t.drop_first().len())
                    + digits_value(t.drop_first()),
                digit_value(t[0]) >= 1,
                pow10(t.drop_first().len()) >= 1,
        ;
        let v = digits_value(s);
        assert(v >= 10);
        assert(v / 10 == digits_value(t));
        assert(v % 10 == digit_value(s.last()));
        assert(s =~= t.push(s.last()));
    }
}

proof fn lemma_dot_position(s: Seq<char>, k: int)
    requires
        0 <= k <= s.len(),
        forall|i: int| 0 <= i < k ==> s[i] != '.',
        k < s.len() ==> s[k] == '.',
    ensures
        dot_position(s) == k,
    decreases k,
{
    if k > 0 {
        lemma_dot_position(s.drop_first(), k - 1);
    }
}

/// A digit string with a digit other than `0` has a positive value.
proof fn lemma_nonzero_digit(s: Seq<char>, i: int)
    requires
        all_digits(s),
        0 <= i < s.len(),
        s[i] != '0',
    ensures
        digits_value(s) > 0,
    decreases s.len(),
{
    let t = s.drop_last();
    assert(digits_value(s) == digits_value(t) * 10 + digit_value(s.last()) as nat);
    if i < s.len() - 1 {
        assert(all_digits(t));
        assert(t[i] == s[i]);
        lemma_nonzero_digit(t, i);
    } else {
        assert(is_digit(s.last()));
    }
}

/// A signed decimal number held as digit characters, the last `scale` of
/// which are its fraction; zero is never negative.
pub struct Decimal {
    negative: bool,
    digits: Vec<char>,
    scale: usize,
}

impl Decimal {
    #[verifier::type_invariant]
    spec fn well_formed(self) -> bool {
        &&& all_digits(self.digits@)
        &&& self.digits@.len() >= 1
        &&& self.scale <= self.digits@.len()
        &&& self.negative ==> digits_value(self.digits@) > 0
    }
}

impl View for Decimal {
    type V = Amount;

    closed spec fn view(&self) -> Amount {
        Amount { negative: self.negative, n: digits_value(self.digits@), scale: self.scale as nat }
    }
}

/// Whether a digit string has the value zero.
fn is_zero_digits(v: &Vec<char>) -> (r: bool)
    requires
        all_digits(v@),
    ensures
        r == (digits_value(v@) == 0),
{
    let mut i: usize = 0;
    while i < v.len()
        invariant
            i <= v@.len(),
            all_digits(v@),
            forall|m: int| 0 <= m < i ==> #[trigger] v@[m] == '0',
        decreases v.len() - i,
    {
        if v[i] != '0' {
            proof {
                lemma_nonzero_digit(v@, i as int);
            }
            return false;
        }
        i = i + 1;
    }
    proof {
        lemma_zeros_value(v@);
    }
    true
}

/// Whether the characters `cs[from..to]` are all digits.
fn digits_in(cs: &Vec<char>, from: usize, to: usize) -> (r: bool)
    requires
        from <= to <= cs@.len(),
    ensures
        r == all_digits(cs@.subrange(from as int, to as int)),
{
    let mut i = from;
    while i < to
        invariant
            from <= i <= to <= cs@.len(),
            all_digits(cs@.subrange(from as int, i as int)),
        decreases to - i,
    {
        if !('0' <= cs[i] && cs[i] <= '9') {
            assert(!is_digit(cs@.subrange(from as int, to as int)[i - from]));
            return false;
        }
        assert(cs@.subrange(from as int, i + 1) =~= cs@.subrange(from as int, i as int).push(
            cs@[i as int],
        ));
        i = i + 1;
    }
    true
}

/// Reads a quantity numeral (see `quantity_value`).
pub fn parse_quantity(s: &str) -> (r: Option<Decimal>)
    ensures
        r is Some <==> quantity_value(s@) is Some,
        r matches Some(d) ==> d@ == quantity_value(s@)->0,
{
    let cs = chars_of(s);
    let n = cs.len();
    let signed = n > 0 && (cs[0] == '+' || cs[0] == '-');
    let minus = n > 0 && cs[0] == '-';
    let start: usize = if signed {
        1
    } else {
        0
    };
    let ghost b = unsigned_part(s@);
    assert(b =~= cs@.subrange(start as int, n as int));
    let mut k: usize = start;
    while k < n && cs[k] != '.'
        invariant
            start <= k <= n == cs@.len(),
            forall|i: int| start <= i < k ==> cs@[i] != '.',
        decreases n - k,
    {
        k = k + 1;
    }
    proof {
        lemma_dot_position(b, k - start);
        assert(whole_part(b) =~= cs@.subrange(start as int, k as int));
    }
    let frac_from: usize = if k < n {
        k + 1
    } else {
        n
    };
    assert(fraction_part(b) =~= cs@.subrange(frac_from as int, n as int));
    if !digits_in(&cs, start, k) || !digits_in(&cs, frac_from, n) || (k == start && frac_from
        == n) {
        return None;
    }
    let mut digits: Vec<char> = Vec::new();
    let mut i = start;
    while i < k
        invariant
            start <= i <= k <= n == cs@.len(),
            digits@ == cs@.subrange(start as int, i as int),
        decreases k - i,
    {
        digits.push(cs[i]);
        assert(cs@.subrange(start as int, i + 1) =~= cs@.subrange(start as int, i as int).push(
            cs@[i as int],
        ));
        i = i + 1;
    }
    let mut j = frac_from;
    while j < n
        invariant
            frac_from <= j <= n == cs@.len(),
            k <= frac_from,
            digits@ == cs@.subrange(start as int, k as int) + cs@.subrange(
                frac_from as int,
                j as int,
            ),
        decreases n - j,
    {
        digits.push(cs[j]);
        assert(cs@.subrange(frac_from as int, j + 1) =~= cs@.subrange(
            frac_from as int,
            j as int,
        ).push(cs@[j as int]));
        j = j + 1;
    }
    let ghost w = cs@.subrange(start as int, k as int);
    let ghost f = cs@.subrange(frac_from as int, n as int);
    assert(digits@ =~= w + f);
    assert(all_digits(digits@)) by {
        assert forall|i: int| 0 <= i < digits@.len() implies is_digit(#[trigger] digits@[i]) by {
            if i < w.len() {
                assert(digits@[i] == w[i]);
            } else {
                assert(digits@[i] == f[i - w.len()]);
            }
        }
    }
    let zero = is_zero_digits(&digits);
    Some(Decimal { negative: minus && !zero, digits, scale: n - frac_from })
}

/// The amount a quantity counts for (see `quantity_or_one`).
pub fn quantity_amount(s: &str) -> (r: Decimal)
    ensures
        r@ == quantity_or_one(s@),
{
    match parse_quantity(s) {
        Some(d) => d,
        None => {
            let r = Decimal { negative: false, digits: vec!['1'], scale: 0 };
            proof {
                assert(r.digits@ =~= seq!['1']);
                lemma_single_digit('1');
            }
            r
        },
    }
}

/// `v` followed by `k` zeros.
fn append_zeros(v: &Vec<char>, k: usize) -> (r: Vec<char>)
    requires
        all_digits(v@),
    ensures
        all_digits(r@),
        r@.len() == v@.len() + k,
        digits_value(r@) == digits_value(v@) * pow10(k as nat),
{
    let mut r: Vec<char> = Vec::new();
    let mut j: usize = 0;
    while j < v.len()
        invariant
            j <= v@.len(),
            r@ == v@.take(j as int),
        decreases v.len() - j,
    {
        r.push(v[j]);
        assert(v@.take(j + 1) =~= v@.take(j as int).push(v@[j as int]));
        j = j + 1;
    }
    assert(r@ =~= v@);
    assert(pow10(0) == 1);
    let mut i: usize = 0;
    while i < k
        invariant
            i <= k,
            all_digits(r@),
            r@.len() == v@.len() + i,
            digits_value(r@) == digits_value(v@) * pow10(i as nat),
        decreases k - i,
    {
        let ghost before = r@;
        r.push('0');
        proof {
            assert(r@.drop_last() =~= before);
            assert(r@.last() == '0');
            assert(digits_value(r@) == digits_value(before) * 10);
            assert(pow10((i + 1) as nat) == 10 * pow10(i as nat));
            let dv = digits_value(v@);
            let p = pow10(i as nat);
            assert(dv * p * 10 == dv * (10 * p)) by (nonlinear_arith);
            assert forall|m: int| 0 <= m < r@.len() implies is_digit(#[trigger] r@[m]) by {
                if m < before.len() {
                    assert(r@[m] == before[m]);
                }
            }
        }
        i = i + 1;
    }
    r
}

/// `k` zeros followed by `v`.
fn prepend_zeros(v: &Vec<char>, k: usize) -> (r: Vec<char>)
    requires
        all_digits(v@),
    ensures
        all_digits(r@),
        r@.len() == v@.len() + k,
        digits_value(r@) == digits_value(v@),
{
    let mut r: Vec<char> = Vec::new();
    let mut i: usize = 0;
    while i < k
        invariant
            i <= k,
            r@.len() == i,
            forall|m: int| 0 <= m < r@.len() ==> #[trigger] r@[m] == '0',
        decreases k - i,
    {
        r.push('0');
        i = i + 1;
    }
    let ghost z = r@;
    let mut j: usize = 0;
    while j < v.len()
        invariant
            j <= v@.len(),
            r@ == z + v@.take(j as int),
        decreases v.len() - j,
    {
        r.push(v[j]);
        assert(v@.take(j + 1) =~= v@.take(j as int).push(v@[j as int]));
        j = j + 1;
    }
    proof {
        assert(v@.take(v@.len() as int) =~= v@);
        lemma_zeros_value(z);
        lemma_digits_value_concat(z, v@);
        assert forall|m: int| 0 <= m < r@.len() implies is_digit(#[trigger] r@[m]) by {
            if m >= z.len() {
                assert(r@[m] == v@[m - z.len()]);
            }
        }
    }
    r
}

proof fn lemma_prepend_digit(c: char, t: Seq<char>)
    ensures
        digits_value(seq![c] + t) == digit_value(c) as nat * pow10(t.len()) + digits_value(t),
{
    lemma_digits_value_concat(seq![c], t);
    lemma_single_digit(c);
}

/// The sum of two digit strings of one length.
fn add_digits(a: &Vec<char>, b: &Vec<char>) -> (r: Vec<char>)
    requires
        a@.len() == b@.len(),
        all_digits(a@),
        all_digits(b@),
    ensures
        all_digits(r@),
        r@.len() >= a@.len(),
        digits_value(r@) == digits_value(a@) + digits_value(b@),
{
    let len = a.len();
    let mut r: Vec<char> = Vec::new();
    let mut carry: u32 = 0;
    let mut i: usize = len;
    proof {
        assert(a@.skip(len as int) =~= Seq::<char>::empty());
        assert(b@.skip(len as int) =~= Seq::<char>::empty());
    }
    while i > 0
        invariant
            i <= len == a@.len() == b@.len(),
            all_digits(a@),
            all_digits(b@),
            all_digits(r@),
            carry <= 1,
            r@.len() == len - i,
            digits_value(a@.skip(i as int)) + digits_value(b@.skip(i as int)) == carry * pow10(
                (len - i) as nat,
            ) + digits_value(r@),
        decreases i,
    {
        let ca = a[i - 1];
        let cb = b[i - 1];
        assert(is_digit(a@[i - 1]) && is_digit(b@[i - 1]));
        let da = (ca as u32) - ('0' as u32);
        let db = (cb as u32) - ('0' as u32);
        let sum = da + db + carry;
        let d = sum % 10;
        let c = digit_of(d);
        let ghost old_r = r@;
        let ghost p = pow10((len - i) as nat);
        r.insert(0, c);
        proof {
            assert(r@ =~= seq![c] + old_r);
            lemma_prepend_digit(c, old_r);
            assert(a@.skip(i - 1) =~= seq![ca] + a@.skip(i as int));
            assert(b@.skip(i - 1) =~= seq![cb] + b@.skip(i as int));
            lemma_prepend_digit(ca, a@.skip(i as int));
            lemma_prepend_digit(cb, b@.skip(i as int));
            assert(digit_value(ca) == da);
            assert(digit_value(cb) == db);
            assert(pow10((len - (i - 1)) as nat) == 10 * p);
            assert(da * p + digits_value(a@.skip(i as int)) + db * p + digits_value(
                b@.skip(i as int),
            ) == (sum / 10) * (10 * p) + d * p + digits_value(old_r)) by (nonlinear_arith)
                requires
                    digits_value(a@.skip(i as int)) + digits_value(b@.skip(i as int)) == carry
                        * p + digits_value(old_r),
                    sum == da + db + carry,
                    d == sum % 10,
            ;
            assert forall|m: int| 0 <= m < r@.len() implies is_digit(#[trigger] r@[m]) by {
                if m > 0 {
                    assert(r@[m] == old_r[m - 1]);
                }
            }
        }
        carry = sum / 10;
        i = i - 1;
    }
    assert(a@.skip(0) =~= a@);
    assert(b@.skip(0) =~= b@);
    if carry == 1 {
        let ghost old_r = r@;
        r.insert(0, '1');
        proof {
            assert(r@ =~= seq!['1'] + old_r);
            lemma_prepend_digit('1', old_r);
            assert forall|m: int| 0 <= m < r@.len() implies is_digit(#[trigger] r@[m]) by {
                if m > 0 {
                    assert(r@[m] == old_r[m - 1]);
                }
            }
        }
    }
    r
}

/// The difference of two digit strings of one length, as digits of that
/// length and the borrow out of the leading digit: `a + borrow * 10^len`
/// is `b + r`.
fn sub_digits(a: &Vec<char>, b: &Vec<char>) -> (res: (Vec<char>, u32))
    requires
        a@.len() == b@.len(),
        all_digits(a@),
        all_digits(b@),
    ensures
        all_digits(res.0@),
        res.0@.len() == a@.len(),
        res.1 <= 1,
        digits_value(a@) + res.1 * pow10(a@.len()) == digits_value(b@) + digits_value(res.0@),
{
    let len = a.len();
    let mut r: Vec<char> = Vec::new();
    let mut borrow: u32 = 0;
    let mut i: usize = len;
    proof {
        assert(a@.skip(len as int) =~= Seq::<char>::empty());
        assert(b@.skip(len as int) =~= Seq::<char>::empty());
        assert(pow10(0) == 1);
    }
    while i > 0
        invariant
            i <= len == a@.len() == b@.len(),
            all_digits(a@),
            all_digits(b@),
            all_digits(r@),
            borrow <= 1,
            r@.len() == len - i,
            digits_value(a@.skip(i as int)) + borrow * pow10((len - i) as nat) == digits_value(
                b@.skip(i as int),
            ) + digits_value(r@),
        decreases i,
    {
        let ca = a[i - 1];
        let cb = b[i - 1];
        assert(is_digit(a@[i - 1]) && is_digit(b@[i - 1]));
        let da = (ca as u32) - ('0' as u32);
        let db = (cb as u32) - ('0' as u32);
        let (d, next) = if da >= db + borrow {
            (da - db - borrow, 0u32)
        } else {
            (da + 10 - db - borrow, 1u32)
        };
        let c = digit_of(d);
        let ghost old_r = r@;
        let ghost p = pow10((len - i) as nat);
        r.insert(0, c);
        proof {
            assert(r@ =~= seq![c] + old_r);
            lemma_prepend_digit(c, old_r);
            assert(a@.skip(i - 1) =~= seq![ca] + a@.skip(i as int));
            assert(b@.skip(i - 1) =~= seq![cb] + b@.skip(i as int));
            lemma_prepend_digit(ca, a@.skip(i as int));
            lemma_prepend_digit(cb, b@.skip(i as int));
            assert(digit_value(ca) == da);
            assert(digit_value(cb) == db);
            assert(pow10((len - (i - 1)) as nat) == 10 * p);
            assert(da * p + digits_value(a@.skip(i as int)) + next * (10 * p) == db * p
                + digits_value(b@.skip(i as int)) + d * p + digits_value(old_r))
                by (nonlinear_arith)
                requires
                    digits_value(a@.skip(i as int)) + borrow * p == digits_value(
                        b@.skip(i as int),
                    ) + digits_value(old_r),
                    da + 10 * next == db + borrow + d,
            ;
            assert forall|m: int| 0 <= m < r@.len() implies is_digit(#[trigger] r@[m]) by {
                if m > 0 {
                    assert(r@[m] == old_r[m - 1]);
                }
            }
        }
        borrow = next;
        i = i - 1;
    }
    assert(a@.skip(0) =~= a@);
    assert(b@.skip(0) =~= b@);
    (r, borrow)
}

fn digit_of(d: u32) -> (c: char)
    requires
        d < 10,
    ensures
        c == digit_char(d as int),
        is_digit(c),
        digit_value(c) == d,
{
    if d == 0 {
        '0'
    } else if d == 1 {
        '1'
    } else if d == 2 {
        '2'
    } else if d == 3 {
        '3'
    } else if d == 4 {
        '4'
    } else if d == 5 {
        '5'
    } else if d == 6 {
        '6'
    } else if d == 7 {
        '7'
    } else if d == 8 {
        '8'
    } else {
        '9'
    }
}

impl Decimal {
    /// The exact sum of two amounts (see `add_amounts`).
    pub fn add(&self, other: &Decimal) -> (r: Decimal)
        ensures
            r@ == add_amounts(self@, other@),
    {
        proof {
            use_type_invariant(self);
            use_type_invariant(other);
        }
        let s = if self.scale >= other.scale {
            self.scale
        } else {
            other.scale
        };
        let a = append_zeros(&self.digits, s - self.scale);
        let b = append_zeros(&other.digits, s - other.scale);
        let la = a.len();
        let lb = b.len();
        let (a2, b2) = if la >= lb {
            (a, prepend_zeros(&b, la - lb))
        } else {
            (prepend_zeros(&a, lb - la), b)
        };
        let ghost x = digits_value(a2@) as int;
        let ghost y = digits_value(b2@) as int;
        proof {
            lemma_pow10_positive((s - self.scale) as nat);
            lemma_pow10_positive((s - other.scale) as nat);
            let pa = pow10((s - self.scale) as nat);
            let pb = pow10((s - other.scale) as nat);
            let na = digits_value(self.digits@);
            let nb = digits_value(other.digits@);
            assert(self.negative ==> x > 0) by (nonlinear_arith)
                requires
                    x == na * pa,
                    self.negative ==> na > 0,
                    pa >= 1,
            ;
            assert(other.negative ==> y > 0) by (nonlinear_arith)
                requires
                    y == nb * pb,
                    other.negative ==> nb > 0,
                    pb >= 1,
            ;
            assert(scaled(self@, s as nat) == if self.negative {
                -x
            } else {
                x
            });
            assert(scaled(other@, s as nat) == if other.negative {
                -y
            } else {
                y
            });
        }
        let ghost v = scaled(self@, s as nat) + scaled(other@, s as nat);
        assert(add_amounts(self@, other@) == Amount {
            negative: v < 0,
            n: (if v < 0 {
                -v
            } else {
                v
            }) as nat,
            scale: s as nat,
        });
        if self.negative == other.negative {
            let digits = add_digits(&a2, &b2);
            assert(digits_value(digits@) == x + y);
            Decimal { negative: self.negative, digits, scale: s }
        } else {
            let (d, borrow) = sub_digits(&a2, &b2);
            let ghost big = pow10(a2@.len());
            proof {
                lemma_digits_value_bound(d@);
            }
            assert(x + borrow * big == y + digits_value(d@));
            assert(digits_value(d@) < big);
            if borrow == 0 {
                assert(borrow * big == 0);
                assert(digits_value(d@) == x - y);
                let zero = is_zero_digits(&d);
                Decimal { negative: self.negative && !zero, digits: d, scale: s }
            } else {
                assert(borrow == 1);
                assert(borrow * big == big);
                assert(x < y);
                let (e, borrow2) = sub_digits(&b2, &a2);
                proof {
                    lemma_digits_value_bound(e@);
                }
                assert(y + borrow2 * big == x + digits_value(e@));
                assert(digits_value(e@) < big);
                assert(borrow2 == 0) by {
                    if borrow2 == 1 {
                        assert(borrow2 * big == big);
                    }
                }
                assert(borrow2 * big == 0);
                assert(digits_value(e@) == y - x);
                Decimal { negative: other.negative, digits: e, scale: s }
            }
        }
    }

    /// The digits and scale of the amount with no trailing fraction zero.
    fn trimmed(&self) -> (res: (Vec<char>, usize))
        ensures
            all_digits(res.0@),
            1 <= res.0@.len(),
            res.1 <= res.0@.len(),
            (Amount { negative: self.negative, n: digits_value(res.0@), scale: res.1 as nat })
                == normalize(self@),
    {
        proof {
            use_type_invariant(self);
        }
        let mut v = self.digits.clone();
        let mut scale = self.scale;
        while scale > 0 && v[v.len() - 1] == '0'
            invariant
                all_digits(v@),
                1 <= v@.len(),
                scale <= v@.len(),
                normalize((Amount { negative: self.negative, n: digits_value(v@), scale: scale as nat }))
                    == normalize(self@),
            decreases scale,
        {
            let ghost before = v@;
            let ghost sc = scale as nat;
            v.pop();
            proof {
                assert(v@ =~= before.drop_last());
                assert(before.last() == '0');
                assert(digits_value(before) == digits_value(v@) * 10);
                assert(digits_value(before) % 10 == 0);
                assert(digits_value(before) / 10 == digits_value(v@));
                assert(normalize(Amount { negative: self.negative, n: digits_value(before), scale: sc })
                    == normalize(
                    Amount { negative: self.negative, n: digits_value(v@), scale: (sc - 1) as nat },
                ));
            }
            if v.len() == 0 {
                v.push('0');
                proof {
                    assert(v@ =~= seq!['0']);
                    lemma_single_digit('0');
                    assert(digits_value(before.drop_last()) == 0);
                }
            }
            scale = scale - 1;
        }
        proof {
            let m = Amount { negative: self.negative, n: digits_value(v@), scale: scale as nat };
            if scale > 0 {
                let l = v@.last();
                assert(l != '0');
                assert(is_digit(l));
                assert(digits_value(v@) % 10 == digit_value(l));
            }
            assert(normalize(m) == m);
        }
        (v, scale)
    }

    /// The shortest decimal numeral of the amount (see `format_amount`).
    pub fn to_text(&self) -> (r: String)
        ensures
            r@ == format_amount(self@),
    {
        let (v, scale) = self.trimmed();
        let mut r = String::new();
        if self.negative {
            push_char(&mut r, '-');
        }
        push_magnitude(&mut r, v, scale);
        proof {
            if self.negative {
                assert(r@ =~= seq!['-'] + magnitude_text(digits_value(v@), scale as nat));
            } else {
                assert(r@ =~= magnitude_text(digits_value(v@), scale as nat));
            }
        }
        r
    }
}

/// A digit string read as `zeros + tail + frac`, with `tail` starting with
/// a non-zero digit or being a single digit: `tail` is the numeral of the
/// whole part and `frac` the padded fraction.
proof fn lemma_numeral_parts(v: Seq<char>, k: int, whole_len: int)
    requires
        all_digits(v),
        0 <= k < whole_len <= v.len(),
        forall|m: int| 0 <= m < k ==> #[trigger] v[m] == '0',
        k + 1 == whole_len || v[k] != '0',
    ensures
        v.subrange(k, whole_len) == decimal(
            digits_value(v) / pow10((v.len() - whole_len) as nat),
        ),
        v.subrange(whole_len, v.len() as int) == padded(
            digits_value(v) % pow10((v.len() - whole_len) as nat),
            (v.len() - whole_len) as nat,
        ),
{
    let scale = (v.len() - whole_len) as nat;
    let whole = v.subrange(0, whole_len);
    let tail = v.subrange(k, whole_len);
    let frac = v.subrange(whole_len, v.len() as int);
    assert(all_digits(tail));
    assert(all_digits(whole));
    assert(all_digits(frac));
    assert(tail[0] == v[k]);
    lemma_decimal_of_digits(tail);
    let zs = v.subrange(0, k);
    assert(whole =~= zs + tail);
    lemma_zeros_value(zs);
    lemma_digits_value_concat(zs, tail);
    assert(v =~= whole + frac);
    lemma_digits_value_concat(whole, frac);
    lemma_digits_value_bound(frac);
    lemma_pow10_positive(scale);
    assert(frac.len() == scale);
    vstd::arithmetic::div_mod::lemma_fundamental_div_mod_converse(
        digits_value(v) as int,
        pow10(scale) as int,
        digits_value(whole) as int,
        digits_value(frac) as int,
    );
    lemma_padded(frac);
}

/// Writes the numeral of a digit string whose last `scale` digits are the
/// fraction (see `magnitude_text`).
fn push_magnitude(r: &mut String, v: Vec<char>, scale: usize)
    requires
        all_digits(v@),
        1 <= v@.len(),
        scale <= v@.len(),
    ensures
        final(r)@ == old(r)@ + magnitude_text(digits_value(v@), scale as nat),
{
    let ghost start = r@;
    let ghost n = digits_value(v@);
    // make room for a whole part
    let v = if v.len() == scale {
        prepend_zeros(&v, 1)
    } else {
        v
    };
    let whole_len = v.len() - scale;
    // skip leading zeros of the whole part, keeping its last digit
    let mut k: usize = 0;
    while k + 1 < whole_len && v[k] == '0'
        invariant
            k < whole_len <= v@.len(),
            forall|m: int| 0 <= m < k ==> #[trigger] v@[m] == '0',
        decreases whole_len - k,
    {
        k = k + 1;
    }
    let mut i = k;
    while i < whole_len
        invariant
            k <= i <= whole_len <= v@.len(),
            r@ == start + v@.subrange(k as int, i as int),
        decreases whole_len - i,
    {
        push_char(r, v[i]);
        assert(v@.subrange(k as int, i + 1) =~= v@.subrange(k as int, i as int).push(
            v@[i as int],
        ));
        i = i + 1;
    }
    let ghost whole = v@.subrange(0, whole_len as int);
    let ghost tail = v@.subrange(k as int, whole_len as int);
    let ghost frac = v@.subrange(whole_len as int, v@.len() as int);
    proof {
        lemma_numeral_parts(v@, k as int, whole_len as int);
        assert(digits_value(v@) == n);
        assert((v@.len() - whole_len) as nat == scale as nat);
    }
    if scale > 0 {
        push_char(r, '.');
        let mut j = whole_len;
        while j < v.len()
            invariant
                whole_len <= j <= v@.len(),
                r@ == start + tail + seq!['.'] + v@.subrange(whole_len as int, j as int),
            decreases v.len() - j,
        {
            push_char(r, v[j]);
            assert(v@.subrange(whole_len as int, j + 1) =~= v@.subrange(
                whole_len as int,
                j as int,
            ).push(v@[j as int]));
            j = j + 1;
        }
        assert(v@.subrange(whole_len as int, v@.len() as int) =~= frac);
        assert(r@ =~= start + (decimal(n / pow10(scale as nat)) + seq!['.'] + padded(
            n % pow10(scale as nat),
            scale as nat,
        )));
    } else {
        assert(pow10(0) == 1);
        assert(n / 1 == n);
        assert(tail == decimal(n));
        assert(r@ =~= start + decimal(n));
    }
}

} // verus!
