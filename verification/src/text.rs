//! Character-level text helpers: decimal rendering and reading of integers,
//! splitting, searching, and the byte geometry of UTF-8 that string slicing
//! depends on.
use vstd::prelude::*;
use vstd::string::StrSliceExecFns;
use vstd::string::StringExecFns;

verus! {

// ---------------------------------------------------------------------
// Specifications
// ---------------------------------------------------------------------
/// The ASCII digit for `d` (`d < 10`).
pub open spec fn digit_char(d: nat) -> char {
    (48 + d) as char
}

/// The decimal rendering of a natural number, without leading zeros.
pub open spec fn decimal(n: nat) -> Seq<char>
    decreases n,
{
    if n < 10 {
        seq![digit_char(n)]
    } else {
        decimal(n / 10).push(digit_char(n % 10))
    }
}

/// The decimal rendering of an integer: a minus sign before negative values.
pub open spec fn int_decimal(n: int) -> Seq<char> {
    if n < 0 {
        seq!['-'] + decimal((-n) as nat)
    } else {
        decimal(n as nat)
    }
}

/// Whether `c` is an ASCII digit.
pub open spec fn is_digit(c: char) -> bool {
    '0' <= c && c <= '9'
}

/// Whether every character of `s` is an ASCII digit.
pub open spec fn all_digits(s: Seq<char>) -> bool {
    forall|i: int| 0 <= i < s.len() ==> is_digit(#[trigger] s[i])
}

/// The value of a run of decimal digits (most significant first).
pub open spec fn digits_value(s: Seq<char>) -> nat
    decreases s.len(),
{
    if s.len() == 0 {
        0
    } else {
        digits_value(s.drop_last()) * 10 + ((s.last() as u32) - 48) as nat
    }
}

/// What reading `s` as an `i32` gives: an optional `+` or `-`, then one or
/// more ASCII digits, with a value that fits in an `i32`.
pub open spec fn parse_i32(s: Seq<char>) -> Option<i32> {
    if s.len() == 0 {
        None
    } else {
        let signed = s[0] == '+' || s[0] == '-';
        let ds = if signed {
            s.drop_first()
        } else {
            s
        };
        let v: int = if s[0] == '-' {
            -digits_value(ds)
        } else {
            digits_value(ds) as int
        };
        if ds.len() == 0 || !all_digits(ds) || v < i32::MIN || v > i32::MAX {
            None
        } else {
            Some(v as i32)
        }
    }
}

/// The pieces of `s` between occurrences of `c`, in order (always at least one).
pub open spec fn split_char(s: Seq<char>, c: char) -> Seq<Seq<char>>
    decreases s.len(),
{
    if s.len() == 0 {
        seq![Seq::<char>::empty()]
    } else {
        let init = split_char(s.drop_last(), c);
        if s.last() == c {
            init.push(Seq::<char>::empty())
        } else {
            init.update(init.len() - 1, init.last().push(s.last()))
        }
    }
}

/// The first position at or after `i` where `pat` occurs in `s`.
pub open spec fn find_from(s: Seq<char>, pat: Seq<char>, i: int) -> Option<int>
    decreases s.len() + 1 - i,
{
    if i < 0 || i + pat.len() > s.len() {
        None
    } else if s.subrange(i, i + pat.len()) == pat {
        Some(i)
    } else {
        find_from(s, pat, i + 1)
    }
}

/// The first position where `pat` occurs in `s`.
pub open spec fn find(s: Seq<char>, pat: Seq<char>) -> Option<int> {
    find_from(s, pat, 0)
}

/// How many bytes UTF-8 uses for `c`.
pub open spec fn utf8_width(c: char) -> nat {
    if (c as u32) < 0x80 {
        1
    } else if (c as u32) < 0x800 {
        2
    } else if (c as u32) < 0x10000 {
        3
    } else {
        4
    }
}

/// How many bytes UTF-8 uses for `s`.
pub open spec fn utf8_len(s: Seq<char>) -> nat
    decreases s.len(),
{
    if s.len() == 0 {
        0
    } else {
        utf8_width(s[0]) + utf8_len(s.drop_first())
    }
}

/// The one-byte character that starts at byte `b` of `s`, when the byte range
/// `b..b + 1` is a whole character of `s`.
pub open spec fn one_byte_char_at(s: Seq<char>, b: int) -> Option<char>
    decreases s.len(),
{
    if s.len() == 0 || b < 0 {
        None
    } else if b == 0 {
        if utf8_width(s[0]) == 1 {
            Some(s[0])
        } else {
            None
        }
    } else if b < utf8_width(s[0]) {
        None
    } else {
        one_byte_char_at(s.drop_first(), b - utf8_width(s[0]))
    }
}

/// Whether byte 1 of `s` starts a character, so that `s[1..]` is a slice.
pub open spec fn drops_first_byte(s: Seq<char>) -> bool {
    s.len() > 0 && utf8_width(s[0]) == 1
}

// ---------------------------------------------------------------------
// Lemmas
// ---------------------------------------------------------------------
/// A decimal rendering is a nonempty run of digits, with no leading zero,
/// whose value is the number rendered.
pub proof fn lemma_decimal_digits(n: nat)
    ensures
        decimal(n).len() > 0,
        all_digits(decimal(n)),
        digits_value(decimal(n)) == n,
        n > 0 ==> decimal(n)[0] != '0',
    decreases n,
{
    assert((digit_char(n % 10) as u32) == 48 + n % 10);
    if n >= 10 {
        lemma_decimal_digits(n / 10);
        let d = decimal(n / 10);
        assert(decimal(n).drop_last() =~= d);
        assert(decimal(n)[0] == d[0]);
        assert(digits_value(decimal(n)) == digits_value(d) * 10 + n % 10);
        assert((n / 10) * 10 + n % 10 == n);
    } else {
        assert(decimal(n).drop_last() =~= Seq::<char>::empty());
        assert(digits_value(Seq::<char>::empty()) == 0);
        assert(decimal(n).last() == digit_char(n));
        assert(n % 10 == n);
        assert(digits_value(decimal(n)) == 0 * 10 + ((digit_char(n) as u32) - 48) as nat);
    }
}

/// Reading back what `int_decimal` wrote gives the same `i32`.
pub proof fn lemma_parse_int_decimal(n: i32)
    ensures
        parse_i32(int_decimal(n as int)) == Some(n),
{
    let s = int_decimal(n as int);
    if n < 0 {
        lemma_decimal_digits((-n) as nat);
        let d = decimal((-n) as nat);
        assert(s.drop_first() =~= d);
        assert(s[0] == '-');
    } else {
        lemma_decimal_digits(n as nat);
        assert(is_digit(s[0]));
    }
}

/// Splitting always gives at least one piece.
pub proof fn lemma_split_char_nonempty(s: Seq<char>, c: char)
    ensures
        split_char(s, c).len() >= 1,
    decreases s.len(),
{
    if s.len() > 0 {
        lemma_split_char_nonempty(s.drop_last(), c);
    }
}


/// One more digit multiplies the value by ten and adds the digit.
proof fn lemma_digits_value_step(s: Seq<char>, k: int)
    requires
        0 <= k < s.len(),
    ensures
        digits_value(s.take(k + 1)) == digits_value(s.take(k)) * 10 + ((s[k] as u32) - 48) as nat,
{
    assert(s.take(k + 1).drop_last() =~= s.take(k));
}

/// A prefix of a run of digits has no greater value than the run.
proof fn lemma_digits_value_monotone(s: Seq<char>, k: int)
    requires
        0 <= k <= s.len(),
        all_digits(s),
    ensures
        digits_value(s.take(k)) <= digits_value(s),
    decreases s.len() - k,
{
    if k < s.len() {
        lemma_digits_value_step(s, k);
        lemma_digits_value_monotone(s, k + 1);
    } else {
        assert(s.take(k) =~= s);
    }
}


/// Counting bytes from the start of `s` past its first `k` characters lands
/// where counting from character `k` starts.
pub proof fn lemma_one_byte_shift(s: Seq<char>, k: int, d: int)
    requires
        0 <= k <= s.len(),
        d >= 0,
    ensures
        one_byte_char_at(s, utf8_len(s.take(k)) + d) == one_byte_char_at(s.skip(k), d),
    decreases k,
{
    if k == 0 {
        assert(s.take(0) =~= Seq::<char>::empty());
        assert(s.skip(0) =~= s);
    } else {
        let t = s.drop_first();
        assert(s.take(k).drop_first() =~= t.take(k - 1));
        assert(s.take(k)[0] == s[0]);
        lemma_one_byte_shift(t, k - 1, d);
        assert(t.skip(k - 1) =~= s.skip(k));
    }
}

/// A match found from `i` lies at or after `i`, inside `s`, and is `pat`.
pub proof fn lemma_find_from_bound(s: Seq<char>, pat: Seq<char>, i: int)
    ensures
        find_from(s, pat, i) matches Some(k) ==> i <= k && 0 <= k && k + pat.len() <= s.len()
            && s.subrange(k, k + pat.len()) == pat,
    decreases s.len() + 1 - i,
{
    if !(i < 0 || i + pat.len() > s.len()) && s.subrange(i, i + pat.len()) != pat {
        lemma_find_from_bound(s, pat, i + 1);
    }
}

/// A match found lies inside `s` and is `pat`.
pub proof fn lemma_find_bound(s: Seq<char>, pat: Seq<char>)
    ensures
        find(s, pat) matches Some(k) ==> 0 <= k && k + pat.len() <= s.len() && s.subrange(
            k,
            k + pat.len(),
        ) == pat,
{
    lemma_find_from_bound(s, pat, 0);
}

// ---------------------------------------------------------------------
// Executable functions
// ---------------------------------------------------------------------
/// The characters of `s`, one by one.
pub fn chars_of(s: &str) -> (v: Vec<char>)
    ensures
        v@ == s@,
{
    let n = s.unicode_len();
    let mut v: Vec<char> = Vec::new();
    let mut i: usize = 0;
    while i < n
        invariant
            n == s@.len(),
            i <= n,
            v@ == s@.take(i as int),
        decreases n - i,
    {
        v.push(s.get_char(i));
        i = i + 1;
    }
    v
}

/// Appends `c` to the end of `s` (`String::push`).
#[verifier::external_body]
fn push_char(s: &mut String, c: char)
    ensures
        final(s)@ == old(s)@.push(c),
{
    s.push(c);
}

/// The string whose characters are those of `v`.
pub fn string_of(v: &Vec<char>) -> (s: String)
    ensures
        s@ == v@,
{
    let mut s = String::new();
    let mut i: usize = 0;
    while i < v.len()
        invariant
            i <= v.len(),
            s@ == v@.take(i as int),
        decreases v.len() - i,
    {
        push_char(&mut s, v[i]);
        proof {
            assert(v@.take(i as int).push(v@[i as int]) =~= v@.take(i + 1));
        }
        i = i + 1;
    }
    proof {
        assert(v@.take(v.len() as int) =~= v@);
    }
    s
}

/// `a` followed by `b`.
pub fn cat(a: String, b: &str) -> (r: String)
    ensures
        r@ == a@ + b@,
{
    let mut a = a;
    a.append(b);
    a
}

/// Appends the decimal rendering of `n`.
fn push_decimal(out: &mut Vec<char>, n: u64)
    ensures
        final(out)@ == old(out)@ + decimal(n as nat),
    decreases n,
{
    if n >= 10 {
        push_decimal(out, n / 10);
    }
    let d: u64 = n % 10;
    let c: char = ((48u8 + d as u8) as char);
    proof {
        assert(48u8 + d as u8 == 48 + (n % 10));
        assert(c == digit_char((n % 10) as nat));
    }
    out.push(c);
    proof {
        if n >= 10 {
            assert(decimal(n as nat) == decimal((n / 10) as nat).push(digit_char((n % 10) as nat)));
        }
    }
}

/// The decimal rendering of `n`.
pub fn decimal_string(n: u64) -> (s: String)
    ensures
        s@ == decimal(n as nat),
{
    let mut v: Vec<char> = Vec::new();
    push_decimal(&mut v, n);
    proof {
        assert(v@ =~= decimal(n as nat));
    }
    string_of(&v)
}

/// The decimal rendering of `n`, with a minus sign when negative.
pub fn int_decimal_string(n: i64) -> (s: String)
    ensures
        s@ == int_decimal(n as int),
{
    let mut v: Vec<char> = Vec::new();
    if n < 0 {
        v.push('-');
        let m: u64 = if n == i64::MIN {
            9223372036854775808u64
        } else {
            (-n) as u64
        };
        push_decimal(&mut v, m);
        proof {
            assert(v@ =~= seq!['-'] + decimal((-n) as nat));
        }
    } else {
        push_decimal(&mut v, n as u64);
        proof {
            assert(v@ =~= decimal(n as nat));
        }
    }
    string_of(&v)
}


/// Reads `s` as an `i32`, as `str::parse::<i32>` does; `None` where it fails.
pub fn parse_i32_str(s: &str) -> (r: Option<i32>)
    ensures
        r == parse_i32(s@),
{
    let v = chars_of(s);
    let n = v.len();
    if n == 0 {
        return None;
    }
    let neg = v[0] == '-';
    let start: usize = if v[0] == '+' || v[0] == '-' {
        1
    } else {
        0
    };
    let ghost ds = v@.subrange(start as int, n as int);
    proof {
        if start == 1 {
            assert(ds =~= v@.drop_first());
        } else {
            assert(ds =~= v@);
        }
    }
    if start == n {
        return None;
    }
    let mut acc: u64 = 0;
    let mut i: usize = start;
    while i < n
        invariant
            start <= i <= n,
            n == v@.len(),
            v@ == s@,
            start < n,
            ds == (if v@[0] == '+' || v@[0] == '-' { v@.drop_first() } else { v@ }),
            ds == v@.subrange(start as int, n as int),
            acc == digits_value(ds.take(i - start)),
            all_digits(ds.take(i - start)),
            acc <= 2147483648,
        decreases n - i,
    {
        let c = v[i];
        if !('0' <= c && c <= '9') {
            proof {
                assert(!is_digit(ds[i - start]));
            }
            return None;
        }
        proof {
            lemma_digits_value_step(ds, i - start);
            assert(ds.take(i - start + 1) =~= ds.take(i - start).push(c));
        }
        acc = acc * 10 + ((c as u32) - 48) as u64;
        if acc > 2147483648 {
            proof {
                if all_digits(ds) {
                    lemma_digits_value_monotone(ds, i - start + 1);
                }
            }
            return None;
        }
        i = i + 1;
    }
    proof {
        assert(ds.take(n - start) =~= ds);
    }
    if neg {
        let r: i64 = -(acc as i64);
        Some(r as i32)
    } else if acc <= 2147483647 {
        Some(acc as i32)
    } else {
        None
    }
}


/// The views of a list of character vectors.
pub open spec fn views(v: Seq<Vec<char>>) -> Seq<Seq<char>> {
    v.map_values(|p: Vec<char>| p@)
}

/// The pieces of `s` between occurrences of `c` (as `str::split` with a
/// one-character pattern).
pub fn split_on_char(s: &Vec<char>, c: char) -> (r: Vec<Vec<char>>)
    ensures
        views(r@) == split_char(s@, c),
{
    let mut pieces: Vec<Vec<char>> = Vec::new();
    let mut cur: Vec<char> = Vec::new();
    let mut i: usize = 0;
    proof {
        assert(s@.take(0) =~= Seq::<char>::empty());
        assert(views(pieces@).push(cur@) =~= split_char(Seq::<char>::empty(), c));
    }
    while i < s.len()
        invariant
            i <= s.len(),
            views(pieces@).push(cur@) == split_char(s@.take(i as int), c),
        decreases s.len() - i,
    {
        let x = s[i];
        let ghost t = s@.take(i + 1);
        proof {
            assert(t.drop_last() =~= s@.take(i as int));
            assert(t.last() == x);
        }
        if x == c {
            let done = cur;
            pieces.push(done);
            cur = Vec::new();
            proof {
                assert(views(pieces@).push(cur@) =~= split_char(t, c));
            }
        } else {
            cur.push(x);
            proof {
                assert(views(pieces@).push(cur@) =~= split_char(t, c));
            }
        }
        i = i + 1;
    }
    pieces.push(cur);
    proof {
        assert(s@.take(s.len() as int) =~= s@);
        assert(views(pieces@) =~= split_char(s@, c));
    }
    pieces
}

/// The first position where `pat` occurs in `s`.
pub fn find_in(s: &Vec<char>, pat: &Vec<char>) -> (r: Option<usize>)
    ensures
        match r {
            Some(i) => find(s@, pat@) == Some(i as int),
            None => find(s@, pat@) is None,
        },
{
    if pat.len() > s.len() {
        return None;
    }
    let last = s.len() - pat.len();
    let mut i: usize = 0;
    while i <= last
        invariant
            last == s.len() - pat.len(),
            pat.len() <= s.len(),
            i <= last + 1,
            find(s@, pat@) == find_from(s@, pat@, i as int),
        decreases last + 1 - i,
    {
        let mut j: usize = 0;
        let mut same = true;
        while j < pat.len()
            invariant
                j <= pat.len(),
                i <= last,
                last == s.len() - pat.len(),
                same <==> (forall|k: int| 0 <= k < j ==> s@[i + k] == pat@[k]),
            decreases pat.len() - j,
        {
            if s[i + j] != pat[j] {
                same = false;
            }
            j = j + 1;
        }
        proof {
            if same {
                assert(s@.subrange(i as int, i + pat.len()) =~= pat@);
            } else {
                let k = choose|k: int| 0 <= k < pat.len() && s@[i + k] != pat@[k];
                assert(s@.subrange(i as int, i + pat.len())[k] != pat@[k]);
            }
        }
        if same {
            return Some(i);
        }
        i = i + 1;
    }
    None
}

/// How many bytes UTF-8 uses for `c` (`char::len_utf8`).
pub fn utf8_width_of(c: char) -> (w: usize)
    ensures
        w == utf8_width(c),
{
    let u = c as u32;
    if u < 0x80 {
        1
    } else if u < 0x800 {
        2
    } else if u < 0x10000 {
        3
    } else {
        4
    }
}

/// The one-byte character at byte `d` past the start of character `k` of `s`.
pub fn one_byte_char_after(s: &Vec<char>, k: usize, d: usize) -> (r: Option<char>)
    requires
        k <= s.len(),
    ensures
        r == one_byte_char_at(s@.skip(k as int), d as int),
{
    let mut i: usize = k;
    let mut b: usize = d;
    while i < s.len()
        invariant
            k <= i <= s.len(),
            one_byte_char_at(s@.skip(k as int), d as int) == one_byte_char_at(s@.skip(i as int), b as int),
        decreases s.len() - i,
    {
        let w = utf8_width_of(s[i]);
        proof {
            assert(s@.skip(i as int)[0] == s@[i as int]);
            assert(s@.skip(i as int).drop_first() =~= s@.skip(i + 1));
        }
        if b == 0 {
            if w == 1 {
                return Some(s[i]);
            } else {
                return None;
            }
        } else if b < w {
            return None;
        }
        b = b - w;
        i = i + 1;
    }
    None
}

/// Whether `s[1..]` is a slice of `s`: `s` is not empty and its first
/// character takes one byte.
pub fn drops_first_byte_exec(s: &Vec<char>) -> (r: bool)
    ensures
        r == drops_first_byte(s@),
{
    s.len() > 0 && utf8_width_of(s[0]) == 1
}

} // verus!
