//! Text helpers: strings as sequences of characters, decimal numerals and the
//! lexicographic order of strings.
use vstd::prelude::*;

verus! {

/// Calls `String::push`. Trusted: the character is appended.
#[verifier::external_body]
pub(crate) fn push_char(s: &mut String, c: char)
    ensures
        final(s)@ == old(s)@.push(c),
{
    s.push(c);
}

/// The characters of `s`, in order.
pub fn chars_of(s: &str) -> (r: Vec<char>)
    ensures
        r@ == s@,
{
    let n = s.unicode_len();
    let mut r: Vec<char> = Vec::new();
    let mut i: usize = 0;
    while i < n
        invariant
            n == s@.len(),
            i <= n,
            r@ == s@.take(i as int),
        decreases n - i,
    {
        let c = s.get_char(i);
        r.push(c);
        assert(s@.take(i as int).push(c) =~= s@.take(i + 1));
        i = i + 1;
    }
    assert(s@.take(n as int) =~= s@);
    r
}

/// The string made of the characters `cs[from..to]`.
pub fn string_of(cs: &Vec<char>, from: usize, to: usize) -> (r: String)
    requires
        from <= to <= cs@.len(),
    ensures
        r@ == cs@.subrange(from as int, to as int),
{
    let mut r = String::new();
    let mut i = from;
    while i < to
        invariant
            from <= i <= to,
            to <= cs@.len(),
            r@ == cs@.subrange(from as int, i as int),
        decreases to - i,
    {
        push_char(&mut r, cs[i]);
        assert(cs@.subrange(from as int, i as int).push(cs@[i as int]) =~= cs@.subrange(
            from as int,
            i + 1,
        ));
        i = i + 1;
    }
    r
}

/// The digit character for `d < 10`.
pub open spec fn digit_char(d: int) -> char {
    if d == 0 {
        '0'
    } else if d == 1 {
        '1'
    } else if d == 2 {
        '2'
    } else if d == 3 {
        '3'
    } else if d == 4 {
        '4'
    } else if d == 5 {
        '5'
    } else if d == 6 {
        '6'
    } else if d == 7 {
        '7'
    } else if d == 8 {
        '8'
    } else {
        '9'
    }
}

/// Whether `c` is one of `0`..`9`.
pub open spec fn is_digit(c: char) -> bool {
    '0' <= c <= '9'
}

/// The value of the digit character `c`.
pub open spec fn digit_value(c: char) -> int {
    c as int - '0' as int
}

/// The decimal numeral of `n`, without leading zeros.
pub open spec fn decimal(n: nat) -> Seq<char>
    decreases n,
{
    if n < 10 {
        seq![digit_char(n as int)]
    } else {
        decimal(n / 10).push(digit_char((n % 10) as int))
    }
}

pub(crate) fn digit_to_char(d: u64) -> (c: char)
    requires
        d < 10,
    ensures
        c == digit_char(d as int),
{
    if d == 0 {
        '0'
    } else if d == 1 {
        '1'
    } else if d == 2 {
        '2'
    } else if d == 3 {
        '3'
    } else if d == 4 {
        '4'
    } else if d == 5 {
        '5'
    } else if d == 6 {
        '6'
    } else if d == 7 {
        '7'
    } else if d == 8 {
        '8'
    } else {
        '9'
    }
}

/// Appends the decimal numeral of `n` to `s`.
pub fn push_decimal(s: &mut String, n: u64)
    ensures
        final(s)@ == old(s)@ + decimal(n as nat),
    decreases n,
{
    if n < 10 {
        push_char(s, digit_to_char(n));
        assert(old(s)@.push(digit_char(n as int)) =~= old(s)@ + decimal(n as nat));
    } else {
        push_decimal(s, n / 10);
        push_char(s, digit_to_char(n % 10));
        assert(old(s)@ + decimal((n / 10) as nat) + seq![digit_char((n % 10) as int)] =~= old(s)@
            + decimal(n as nat));
    }
}

/// `a` comes strictly before `b` in the lexicographic order of characters
/// (the order of Rust's `str` comparison).
pub open spec fn seq_less(a: Seq<char>, b: Seq<char>) -> bool
    decreases a.len(),
{
    if b.len() == 0 {
        false
    } else if a.len() == 0 {
        true
    } else if a[0] < b[0] {
        true
    } else if a[0] == b[0] {
        seq_less(a.drop_first(), b.drop_first())
    } else {
        false
    }
}

proof fn lemma_seq_less_skip(a: Seq<char>, b: Seq<char>, i: int)
    requires
        0 <= i < a.len(),
        i < b.len(),
        a.take(i) == b.take(i),
    ensures
        seq_less(a.skip(i), b.skip(i)) == if a[i] < b[i] {
            true
        } else if a[i] == b[i] {
            seq_less(a.skip(i + 1), b.skip(i + 1))
        } else {
            false
        },
{
    assert(a.skip(i)[0] == a[i]);
    assert(b.skip(i)[0] == b[i]);
    assert(a.skip(i).drop_first() =~= a.skip(i + 1));
    assert(b.skip(i).drop_first() =~= b.skip(i + 1));
}

proof fn lemma_seq_less_prefix(a: Seq<char>, b: Seq<char>, i: int)
    requires
        0 <= i <= a.len(),
        i <= b.len(),
        a.take(i) == b.take(i),
    ensures
        seq_less(a, b) == seq_less(a.skip(i), b.skip(i)),
    decreases i,
{
    if i > 0 {
        assert(a.drop_first().take(i - 1) =~= a.take(i).drop_first());
        assert(b.drop_first().take(i - 1) =~= b.take(i).drop_first());
        assert(a[0] == a.take(i)[0]);
        assert(b[0] == b.take(i)[0]);
        lemma_seq_less_prefix(a.drop_first(), b.drop_first(), i - 1);
        assert(a.drop_first().skip(i - 1) =~= a.skip(i));
        assert(b.drop_first().skip(i - 1) =~= b.skip(i));
    } else {
        assert(a.skip(0) =~= a);
        assert(b.skip(0) =~= b);
    }
}

/// Whether `a` comes strictly before `b`, character by character.
pub fn chars_less(a: &Vec<char>, b: &Vec<char>) -> (r: bool)
    ensures
        r == seq_less(a@, b@),
{
    let mut i: usize = 0;
    while i < a.len() && i < b.len()
        invariant
            i <= a@.len(),
            i <= b@.len(),
            a@.take(i as int) == b@.take(i as int),
        decreases a.len() - i,
    {
        proof {
            lemma_seq_less_prefix(a@, b@, i as int);
            lemma_seq_less_skip(a@, b@, i as int);
        }
        if a[i] < b[i] {
            return true;
        } else if a[i] != b[i] {
            return false;
        }
        assert(a@.take(i + 1) =~= a@.take(i as int).push(a@[i as int]));
        assert(b@.take(i + 1) =~= b@.take(i as int).push(b@[i as int]));
        i = i + 1;
    }
    proof {
        lemma_seq_less_prefix(a@, b@, i as int);
    }
    i < b.len()
}

/// `pat` occurs in `s` at index `i`.
pub open spec fn matches_at(s: Seq<char>, pat: Seq<char>, i: int) -> bool {
    0 <= i && i + pat.len() <= s.len() && s.subrange(i, i + pat.len()) == pat
}

/// The index of the first occurrence of `pat` in `s`, or -1 (Rust's `str::find`
/// counted in characters).
#[verifier::opaque]
pub open spec fn first_match(s: Seq<char>, pat: Seq<char>) -> int {
    if exists|i: int| matches_at(s, pat, i) {
        choose|i: int|
            matches_at(s, pat, i) && forall|j: int| 0 <= j < i ==> !matches_at(s, pat, j)
    } else {
        -1
    }
}

/// The index of the last occurrence of `c` in `s`, or -1 (Rust's `str::rfind`
/// of a character, counted in characters).
#[verifier::opaque]
pub open spec fn last_index_of(s: Seq<char>, c: char) -> int {
    if exists|i: int| 0 <= i < s.len() && s[i] == c {
        choose|i: int|
            0 <= i < s.len() && s[i] == c && forall|j: int| i < j < s.len() ==> s[j] != c
    } else {
        -1
    }
}

/// The first occurrence of `pat` is at `i` when it occurs there and
/// nowhere before.
pub proof fn lemma_first_match_at(s: Seq<char>, pat: Seq<char>, i: int)
    requires
        matches_at(s, pat, i),
        forall|j: int| 0 <= j < i ==> !matches_at(s, pat, j),
    ensures
        first_match(s, pat) == i,
{
    reveal(first_match);
    assert(matches_at(s, pat, i) && forall|j: int| 0 <= j < i ==> !matches_at(s, pat, j));
    let c = choose|c: int|
        matches_at(s, pat, c) && forall|j: int| 0 <= j < c ==> !matches_at(s, pat, j);
    if c < i {
        assert(!matches_at(s, pat, c));
    } else if c > i {
        assert(!matches_at(s, pat, i));
    }
}

/// The last occurrence of `c` is at `i` when it occurs there and nowhere
/// after.
pub proof fn lemma_last_index_at(s: Seq<char>, c: char, i: int)
    requires
        0 <= i < s.len(),
        s[i] == c,
        forall|j: int| i < j < s.len() ==> s[j] != c,
    ensures
        last_index_of(s, c) == i,
{
    reveal(last_index_of);
    let x = choose|x: int|
        0 <= x < s.len() && s[x] == c && forall|j: int| x < j < s.len() ==> s[j] != c;
    if x < i {
        assert(s[i] != c);
    } else if x > i {
        assert(s[x] != c);
    }
}

/// `pat` does not occur in `s` when it matches nowhere.
pub proof fn lemma_first_match_none(s: Seq<char>, pat: Seq<char>)
    requires
        forall|j: int| !matches_at(s, pat, j),
    ensures
        first_match(s, pat) == -1,
{
    reveal(first_match);
}

proof fn lemma_earliest_match(s: Seq<char>, pat: Seq<char>, i: int)
    requires
        matches_at(s, pat, i),
    ensures
        exists|m: int| matches_at(s, pat, m) && forall|j: int| 0 <= j < m ==> !matches_at(s, pat, j),
    decreases i,
{
    if exists|j: int| 0 <= j < i && matches_at(s, pat, j) {
        let j = choose|j: int| 0 <= j < i && matches_at(s, pat, j);
        lemma_earliest_match(s, pat, j);
    } else {
        assert(matches_at(s, pat, i) && forall|j: int| 0 <= j < i ==> !matches_at(s, pat, j));
    }
}

proof fn lemma_latest_index(s: Seq<char>, c: char, i: int)
    requires
        0 <= i < s.len(),
        s[i] == c,
    ensures
        exists|x: int| 0 <= x < s.len() && s[x] == c && forall|j: int| x < j < s.len() ==> s[j] != c,
    decreases s.len() - i,
{
    if exists|j: int| i < j < s.len() && s[j] == c {
        let j = choose|j: int| i < j < s.len() && s[j] == c;
        lemma_latest_index(s, c, j);
    } else {
        assert(0 <= i < s.len() && s[i] == c && forall|j: int| i < j < s.len() ==> s[j] != c);
    }
}

/// The first and last occurrences found are occurrences.
pub proof fn lemma_occurrences_found(s: Seq<char>, pat: Seq<char>, c: char)
    ensures
        first_match(s, pat) >= 0 ==> matches_at(s, pat, first_match(s, pat)),
        last_index_of(s, c) >= 0 ==> 0 <= last_index_of(s, c) < s.len() && s[last_index_of(s, c)]
            == c,
{
    reveal(first_match);
    reveal(last_index_of);
    if exists|i: int| matches_at(s, pat, i) {
        let i = choose|i: int| matches_at(s, pat, i);
        lemma_earliest_match(s, pat, i);
    }
    if exists|i: int| 0 <= i < s.len() && s[i] == c {
        let i = choose|i: int| 0 <= i < s.len() && s[i] == c;
        lemma_latest_index(s, c, i);
    }
}

/// Whether `cs[i..]` starts with `pat`.
fn matches_at_exec(cs: &Vec<char>, pat: &Vec<char>, i: usize) -> (r: bool)
    requires
        i + pat@.len() <= cs@.len(),
    ensures
        r == matches_at(cs@, pat@, i as int),
{
    let n = cs.len();
    let mut k: usize = 0;
    while k < pat.len()
        invariant
            k <= pat@.len(),
            n == cs@.len(),
            i + pat@.len() <= cs@.len(),
            forall|m: int| 0 <= m < k ==> cs@[i + m] == pat@[m],
        decreases pat.len() - k,
    {
        if cs[i + k] != pat[k] {
            assert(cs@.subrange(i as int, i + pat@.len())[k as int] != pat@[k as int]);
            return false;
        }
        k = k + 1;
    }
    assert(cs@.subrange(i as int, i + pat@.len()) =~= pat@);
    true
}

/// The index of the first occurrence of `pat` in `cs`, if any.
pub fn find_first(cs: &Vec<char>, pat: &Vec<char>) -> (r: Option<usize>)
    ensures
        r matches Some(i) ==> first_match(cs@, pat@) == i,
        r matches Some(i) ==> i + pat@.len() <= cs@.len(),
        r is None ==> first_match(cs@, pat@) == -1,
{
    reveal(first_match);
    if pat.len() > cs.len() {
        assert(!exists|i: int| matches_at(cs@, pat@, i));
        return None;
    }
    if pat.len() == 0 {
        assert(matches_at(cs@, pat@, 0)) by {
            assert(cs@.subrange(0, 0) =~= pat@);
        }
        proof {
            let w = choose|w: int|
                matches_at(cs@, pat@, w) && forall|j: int| 0 <= j < w ==> !matches_at(cs@, pat@, j);
            assert(matches_at(cs@, pat@, w));
        }
        return Some(0);
    }
    let n = cs.len();
    let last = n - pat.len();
    let mut i: usize = 0;
    while i <= last
        invariant
            last + pat@.len() == cs@.len() == n,
            pat@.len() >= 1,
            i <= last + 1,
            forall|j: int| 0 <= j < i ==> !matches_at(cs@, pat@, j),
        decreases last + 1 - i,
    {
        if matches_at_exec(cs, pat, i) {
            assert(first_match(cs@, pat@) == i) by {
                reveal(first_match);
                assert(matches_at(cs@, pat@, i as int));
                let w = choose|w: int|
                    matches_at(cs@, pat@, w) && forall|j: int|
                        0 <= j < w ==> !matches_at(cs@, pat@, j);
                assert(matches_at(cs@, pat@, w));
                assert(!(w < i));
                assert(!(w > i));
            }
            return Some(i);
        }
        i = i + 1;
    }
    assert(!exists|j: int| matches_at(cs@, pat@, j));
    None
}

/// The index of the last occurrence of `c` in `cs`, if any.
pub fn find_last(cs: &Vec<char>, c: char) -> (r: Option<usize>)
    ensures
        r matches Some(i) ==> last_index_of(cs@, c) == i,
        r matches Some(i) ==> i < cs@.len(),
        r is None ==> last_index_of(cs@, c) == -1,
{
    reveal(last_index_of);
    let mut i: usize = cs.len();
    while i > 0
        invariant
            i <= cs@.len(),
            forall|j: int| i <= j < cs@.len() ==> cs@[j] != c,
        decreases i,
    {
        if cs[i - 1] == c {
            assert(last_index_of(cs@, c) == i - 1) by {
                reveal(last_index_of);
                assert(cs@[i - 1] == c);
                let w = choose|w: int|
                    0 <= w < cs@.len() && cs@[w] == c && forall|j: int|
                        w < j < cs@.len() ==> cs@[j] != c;
                assert(0 <= w < cs@.len() && cs@[w] == c);
                assert(!(w < i - 1));
                assert(!(w > i - 1));
            }
            return Some(i - 1);
        }
        i = i - 1;
    }
    None
}

/// Whether `c` is white space (Unicode `White_Space`, as `char::is_whitespace`).
pub open spec fn is_white_space(c: char) -> bool {
    ||| '\u{9}' <= c <= '\u{d}'
    ||| c == ' '
    ||| c == '\u{85}'
    ||| c == '\u{a0}'
    ||| c == '\u{1680}'
    ||| '\u{2000}' <= c <= '\u{200a}'
    ||| c == '\u{2028}'
    ||| c == '\u{2029}'
    ||| c == '\u{202f}'
    ||| c == '\u{205f}'
    ||| c == '\u{3000}'
}

/// Whether `c` is white space (Unicode `White_Space`).
pub fn white_space(c: char) -> (r: bool)
    ensures
        r == is_white_space(c),
{
    ('\u{9}' <= c && c <= '\u{d}') || c == ' ' || c == '\u{85}' || c == '\u{a0}' || c
        == '\u{1680}' || ('\u{2000}' <= c && c <= '\u{200a}') || c == '\u{2028}' || c
        == '\u{2029}' || c == '\u{202f}' || c == '\u{205f}' || c == '\u{3000}'
}

/// `s` without its leading white space.
pub open spec fn trim_start_view(s: Seq<char>) -> Seq<char>
    decreases s.len(),
{
    if s.len() > 0 && is_white_space(s[0]) {
        trim_start_view(s.drop_first())
    } else {
        s
    }
}

/// `s` without its trailing white space.
pub open spec fn trim_end_view(s: Seq<char>) -> Seq<char>
    decreases s.len(),
{
    if s.len() > 0 && is_white_space(s.last()) {
        trim_end_view(s.drop_last())
    } else {
        s
    }
}

/// `s` without leading and trailing white space (Rust's `str::trim`).
pub open spec fn trim_view(s: Seq<char>) -> Seq<char> {
    trim_end_view(trim_start_view(s))
}

proof fn lemma_trim_start(s: Seq<char>, a: int)
    requires
        0 <= a <= s.len(),
        forall|j: int| 0 <= j < a ==> is_white_space(#[trigger] s[j]),
        a < s.len() ==> !is_white_space(s[a]),
    ensures
        trim_start_view(s) == s.skip(a),
    decreases a,
{
    if a > 0 {
        assert forall|j: int| 0 <= j < a - 1 implies is_white_space(#[trigger] s.drop_first()[j]) by {
            assert(s.drop_first()[j] == s[j + 1]);
        }
        lemma_trim_start(s.drop_first(), a - 1);
        assert(s.drop_first().skip(a - 1) =~= s.skip(a));
    } else {
        assert(s.skip(0) =~= s);
    }
}

proof fn lemma_trim_end(s: Seq<char>, b: int)
    requires
        0 <= b <= s.len(),
        forall|j: int| b <= j < s.len() ==> is_white_space(#[trigger] s[j]),
        b > 0 ==> !is_white_space(s[b - 1]),
    ensures
        trim_end_view(s) == s.take(b),
    decreases s.len() - b,
{
    if b < s.len() {
        assert forall|j: int| b <= j < s.len() - 1 implies is_white_space(#[trigger] s.drop_last()[j]) by {
            assert(s.drop_last()[j] == s[j]);
        }
        lemma_trim_end(s.drop_last(), b);
        assert(s.drop_last().take(b) =~= s.take(b));
    } else {
        assert(s.take(b) =~= s);
    }
}

/// The characters `cs[from..to]` without leading and trailing white space.
pub fn trim_range(cs: &Vec<char>, from: usize, to: usize) -> (r: String)
    requires
        from <= to <= cs@.len(),
    ensures
        r@ == trim_view(cs@.subrange(from as int, to as int)),
{
    let ghost s = cs@.subrange(from as int, to as int);
    let mut a = from;
    while a < to && white_space(cs[a])
        invariant
            from <= a <= to <= cs@.len(),
            s == cs@.subrange(from as int, to as int),
            forall|j: int| 0 <= j < a - from ==> is_white_space(#[trigger] s[j]),
        decreases to - a,
    {
        a = a + 1;
    }
    proof {
        lemma_trim_start(s, a - from);
    }
    let ghost t = s.skip(a - from);
    let mut b = to;
    while b > a && white_space(cs[b - 1])
        invariant
            from <= a <= b <= to <= cs@.len(),
            s == cs@.subrange(from as int, to as int),
            t == s.skip(a - from),
            forall|j: int| b - a <= j < t.len() ==> is_white_space(#[trigger] t[j]),
        decreases b - a,
    {
        assert(t[b - 1 - a] == cs@[b - 1]);
        b = b - 1;
    }
    proof {
        if b > a {
            assert(t[b - 1 - a] == cs@[b - 1]);
        }
        lemma_trim_end(t, b - a);
        assert(t.take(b - a) =~= cs@.subrange(a as int, b as int));
    }
    string_of(cs, a, b)
}

/// The order of texts is transitive.
pub proof fn lemma_seq_less_transitive(a: Seq<char>, b: Seq<char>, c: Seq<char>)
    requires
        seq_less(a, b),
        seq_less(b, c),
    ensures
        seq_less(a, c),
    decreases a.len(),
{
    if a.len() > 0 && b.len() > 0 && c.len() > 0 {
        if a[0] == b[0] && b[0] == c[0] {
            lemma_seq_less_transitive(a.drop_first(), b.drop_first(), c.drop_first());
        }
    }
}

/// Of two different texts, one comes before the other.
pub proof fn lemma_seq_less_total(a: Seq<char>, b: Seq<char>)
    ensures
        a != b ==> (seq_less(a, b) || seq_less(b, a)),
        !(seq_less(a, b) && seq_less(b, a)),
    decreases a.len(),
{
    if a.len() > 0 && b.len() > 0 {
        lemma_seq_less_total(a.drop_first(), b.drop_first());
        if a[0] == b[0] && a != b {
            assert(a.drop_first() != b.drop_first()) by {
                if a.drop_first() == b.drop_first() {
                    assert(a =~= seq![a[0]] + a.drop_first());
                    assert(b =~= seq![b[0]] + b.drop_first());
                }
            }
        }
    } else if a.len() == 0 && b.len() == 0 {
        assert(a =~= b);
    }
}

/// Whether two strings hold the same characters.
pub fn same_text(a: &str, b: &str) -> (r: bool)
    ensures
        r == (a@ == b@),
{
    let x = chars_of(a);
    let y = chars_of(b);
    if x.len() != y.len() {
        return false;
    }
    let mut i: usize = 0;
    while i < x.len()
        invariant
            i <= x@.len() == y@.len(),
            x@ == a@,
            y@ == b@,
            forall|j: int| 0 <= j < i ==> x@[j] == y@[j],
        decreases x.len() - i,
    {
        if x[i] != y[i] {
            assert(a@[i as int] != b@[i as int]);
            return false;
        }
        i = i + 1;
    }
    assert(x@ =~= y@);
    true
}

} // verus!
