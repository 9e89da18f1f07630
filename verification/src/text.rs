//! Character-level text helpers: ASCII case folding, literal comparison,
//! the order of `str`, decimal parsing in the manner of `str::parse`, and
//! decimal rendering.

use vstd::prelude::*;
use vstd::string::StrSliceExecFns;

verus! {

/// ASCII lowercase of a character (other characters are unchanged).
pub open spec fn ascii_lower(c: char) -> char {
    if 'A' <= c && c <= 'Z' {
        ((c as u32) + 32) as char
    } else {
        c
    }
}

/// `s` starts with `prefix` when ASCII letters of `s` are compared lowercased.
pub open spec fn starts_with_lower(s: Seq<char>, prefix: Seq<char>) -> bool {
    prefix.len() <= s.len() && forall|i: int| 0 <= i < prefix.len() ==> ascii_lower(s[i]) == prefix[i]
}

/// `needle` occurs in `s` at position `at`, ASCII letters of `s` lowercased.
pub open spec fn occurs_lower_at(s: Seq<char>, needle: Seq<char>, at: int) -> bool {
    0 <= at && at + needle.len() <= s.len() && forall|i: int|
        0 <= i < needle.len() ==> ascii_lower(s[at + i]) == needle[i]
}

/// `needle` occurs somewhere in `s`, ASCII letters of `s` lowercased.
pub open spec fn contains_lower(s: Seq<char>, needle: Seq<char>) -> bool {
    exists|at: int| occurs_lower_at(s, needle, at)
}

/// Whether `c`, lowercased, equals `t`.
fn lower_char_is(c: char, t: char) -> (res: bool)
    ensures
        res == (ascii_lower(c) == t),
{
    if c >= 'A' && c <= 'Z' {
        let lowered = (c as u32) + 32;
        proof {
            assert(ascii_lower(c) as u32 == lowered);
        }
        lowered == t as u32
    } else {
        c == t
    }
}

/// `s` and `lit` hold the same characters.
pub fn eq_text(s: &str, lit: &str) -> (res: bool)
    ensures
        res == (s@ == lit@),
{
    let n = s.unicode_len();
    let m = lit.unicode_len();
    if n != m {
        return false;
    }
    for i in 0..n
        invariant
            n == s@.len(),
            m == lit@.len(),
            n == m,
            forall|k: int| 0 <= k < i ==> s@[k] == lit@[k],
    {
        if s.get_char(i) != lit.get_char(i) {
            return false;
        }
    }
    assert(s@ =~= lit@);
    true
}

/// `s` starts with the lowercase text `prefix`, ignoring ASCII case in `s`.
pub fn starts_with_ignore_case(s: &str, prefix: &str) -> (res: bool)
    ensures
        res == starts_with_lower(s@, prefix@),
{
    let n = s.unicode_len();
    let m = prefix.unicode_len();
    if m > n {
        return false;
    }
    for i in 0..m
        invariant
            n == s@.len(),
            m == prefix@.len(),
            m <= n,
            forall|k: int| 0 <= k < i ==> ascii_lower(s@[k]) == prefix@[k],
    {
        if !lower_char_is(s.get_char(i), prefix.get_char(i)) {
            return false;
        }
    }
    true
}

/// `needle` (lowercase) occurs in `s`, ignoring ASCII case in `s`.
pub fn contains_ignore_case(s: &str, needle: &str) -> (res: bool)
    ensures
        res == contains_lower(s@, needle@),
{
    let n = s.unicode_len();
    let m = needle.unicode_len();
    if m > n {
        assert forall|at: int| !occurs_lower_at(s@, needle@, at) by {}
        return false;
    }
    let last = n - m;
    let mut at: usize = 0;
    while at <= last
        invariant
            n == s@.len(),
            m == needle@.len(),
            m <= n,
            last == n - m,
            forall|a: int| 0 <= a < at ==> !occurs_lower_at(s@, needle@, a),
        decreases last + 1 - at,
    {
        let mut i: usize = 0;
        let mut ok = true;
        while i < m
            invariant
                n == s@.len(),
                m == needle@.len(),
                at + m <= n,
                i <= m,
                ok ==> forall|k: int| 0 <= k < i ==> ascii_lower(s@[at + k]) == needle@[k],
                !ok ==> !occurs_lower_at(s@, needle@, at as int),
            decreases m - i,
        {
            if !lower_char_is(s.get_char(at + i), needle.get_char(i)) {
                ok = false;
            }
            i = i + 1;
        }
        if ok {
            assert(occurs_lower_at(s@, needle@, at as int));
            return true;
        }
        at = at + 1;
    }
    assert forall|a: int| !occurs_lower_at(s@, needle@, a) by {}
    false
}

/// `s` is one or more ASCII decimal digits.
pub open spec fn is_decimal(s: Seq<char>) -> bool {
    s.len() > 0 && forall|i: int| 0 <= i < s.len() ==> '0' <= s[i] && s[i] <= '9'
}

/// The value of a string of decimal digits.
pub open spec fn decimal_value(s: Seq<char>) -> nat
    decreases s.len(),
{
    if s.len() == 0 {
        0
    } else {
        decimal_value(s.drop_last()) * 10 + ((s.last() as int) - ('0' as int)) as nat
    }
}

/// The value of the digits `s` if they are decimal and at most `limit`.
pub open spec fn decimal_within(s: Seq<char>, limit: nat) -> Option<nat> {
    if is_decimal(s) && decimal_value(s) <= limit {
        Some(decimal_value(s))
    } else {
        None
    }
}

/// What `str::parse` gives for an unsigned integer type whose largest value
/// is `limit`: an optional `+` followed by decimal digits, in range.
pub open spec fn parse_unsigned_spec(s: Seq<char>, limit: nat) -> Option<nat> {
    if s.len() > 0 && s[0] == '+' {
        decimal_within(s.drop_first(), limit)
    } else {
        decimal_within(s, limit)
    }
}

/// What `str::parse::<i32>` gives: an optional sign followed by decimal
/// digits, in the range of `i32`.
pub open spec fn parse_i32_spec(s: Seq<char>) -> Option<int> {
    if s.len() > 0 && s[0] == '-' {
        match decimal_within(s.drop_first(), 0x8000_0000) {
            Some(v) => Some(-v),
            None => None,
        }
    } else {
        match parse_unsigned_spec(s, 0x7fff_ffff) {
            Some(v) => Some(v as int),
            None => None,
        }
    }
}

proof fn lemma_decimal_grows(s: Seq<char>, k: int)
    requires
        0 <= k <= s.len(),
        forall|i: int| 0 <= i < s.len() ==> '0' <= s[i] && s[i] <= '9',
    ensures
        decimal_value(s.take(k)) <= decimal_value(s),
    decreases s.len() - k,
{
    if k < s.len() {
        lemma_decimal_grows(s, k + 1);
        assert(s.take(k + 1).drop_last() =~= s.take(k));
    } else {
        assert(s.take(k) =~= s);
    }
}

/// Parses the characters of `s` from `start` on as decimal digits with a
/// value of at most `limit`.
fn parse_digits_from(s: &str, start: usize, limit: u64) -> (res: Option<u64>)
    requires
        start <= s@.len(),
    ensures
        res matches Some(v) ==> decimal_within(s@.subrange(start as int, s@.len() as int), limit as nat) == Some(v as nat),
        res is None ==> decimal_within(s@.subrange(start as int, s@.len() as int), limit as nat) is None,
{
    let n = s.unicode_len();
    let ghost body = s@.subrange(start as int, n as int);
    if start >= n {
        return None;
    }
    let mut acc: u64 = 0;
    let mut i = start;
    while i < n
        invariant
            n == s@.len(),
            start <= i <= n,
            body == s@.subrange(start as int, n as int),
            forall|k: int| 0 <= k < i - start ==> '0' <= body[k] && body[k] <= '9',
            acc as nat == decimal_value(body.take(i - start)),
            acc <= limit,
        decreases n - i,
    {
        let c = s.get_char(i);
        proof {
            assert(body[i - start] == c);
        }
        if c < '0' || c > '9' {
            return None;
        }
        let d = (c as u32 - '0' as u32) as u64;
        proof {
            assert(body.take(i - start + 1).drop_last() =~= body.take(i - start));
            assert(body.take(i - start + 1).last() == c);
        }
        if d > limit || acc > (limit - d) / 10 {
            proof {
                assert(decimal_value(body.take(i - start + 1)) > limit) by (nonlinear_arith)
                    requires
                        d > limit || acc > (limit - d) / 10,
                        d <= 9,
                        decimal_value(body.take(i - start + 1)) == acc * 10 + d,
                ;
                if is_decimal(body) {
                    lemma_decimal_grows(body, i - start + 1);
                }
            }
            return None;
        }
        proof {
            assert(acc * 10 + d <= limit) by (nonlinear_arith)
                requires
                    d <= limit,
                    acc <= (limit - d) / 10,
            ;
        }
        acc = acc * 10 + d;
        i = i + 1;
    }
    proof {
        assert(body.take(n - start) =~= body);
    }
    Some(acc)
}

/// `str::parse` for an unsigned type whose largest value is `limit`.
pub fn parse_unsigned(s: &str, limit: u64) -> (res: Option<u64>)
    ensures
        res matches Some(v) ==> parse_unsigned_spec(s@, limit as nat) == Some(v as nat),
        res is None ==> parse_unsigned_spec(s@, limit as nat) is None,
{
    let n = s.unicode_len();
    if n > 0 && s.get_char(0) == '+' {
        proof {
            assert(s@.drop_first() =~= s@.subrange(1, n as int));
        }
        parse_digits_from(s, 1, limit)
    } else {
        proof {
            assert(s@ =~= s@.subrange(0, n as int));
        }
        parse_digits_from(s, 0, limit)
    }
}

/// `str::parse::<u32>`.
pub fn parse_u32(s: &str) -> (res: Option<u32>)
    ensures
        res matches Some(v) ==> parse_unsigned_spec(s@, u32::MAX as nat) == Some(v as nat),
        res is None ==> parse_unsigned_spec(s@, u32::MAX as nat) is None,
{
    match parse_unsigned(s, u32::MAX as u64) {
        Some(v) => Some(v as u32),
        None => None,
    }
}

/// `str::parse::<usize>`.
pub fn parse_usize(s: &str) -> (res: Option<usize>)
    ensures
        res matches Some(v) ==> parse_unsigned_spec(s@, usize::MAX as nat) == Some(v as nat),
        res is None ==> parse_unsigned_spec(s@, usize::MAX as nat) is None,
{
    match parse_unsigned(s, usize::MAX as u64) {
        Some(v) => Some(v as usize),
        None => None,
    }
}

/// `str::parse::<i32>`.
pub fn parse_i32(s: &str) -> (res: Option<i32>)
    ensures
        res matches Some(v) ==> parse_i32_spec(s@) == Some(v as int),
        res is None ==> parse_i32_spec(s@) is None,
{
    let n = s.unicode_len();
    if n > 0 && s.get_char(0) == '-' {
        proof {
            assert(s@.drop_first() =~= s@.subrange(1, n as int));
        }
        match parse_digits_from(s, 1, 0x8000_0000) {
            Some(v) => {
                let neg: i64 = 0i64 - (v as i64);
                Some(neg as i32)
            },
            None => None,
        }
    } else {
        match parse_unsigned(s, 0x7fff_ffff) {
            Some(v) => Some(v as i32),
            None => None,
        }
    }
}

/// The decimal digits of `v`, most significant first, without leading zeros
/// (a single `0` for zero).
pub open spec fn decimal_digits(v: nat) -> Seq<u8>
    decreases v,
{
    if v < 10 {
        seq![(v + 48) as u8]
    } else {
        decimal_digits(v / 10).push(((v % 10) + 48) as u8)
    }
}

/// Appends the decimal digits of `v` to `out`.
pub fn push_decimal(out: &mut Vec<u8>, v: u32)
    ensures
        final(out)@ == old(out)@ + decimal_digits(v as nat),
    decreases v,
{
    if v < 10 {
        out.push((v as u8) + 48);
        assert(decimal_digits(v as nat) =~= seq![(v + 48) as u8]);
    } else {
        push_decimal(out, v / 10);
        out.push(((v % 10) as u8) + 48);
        assert(decimal_digits(v as nat) =~= decimal_digits((v / 10) as nat).push(
            ((v % 10) + 48) as u8,
        ));
    }
}

/// `a` comes before `b` in the order of `str`: character by character by
/// code point (which is the byte order of their UTF-8 encodings), a proper
/// prefix first.
pub open spec fn text_lt(a: Seq<char>, b: Seq<char>) -> bool
    decreases a.len(),
{
    if b.len() == 0 {
        false
    } else if a.len() == 0 {
        true
    } else if a[0] != b[0] {
        (a[0] as int) < (b[0] as int)
    } else {
        text_lt(a.drop_first(), b.drop_first())
    }
}

/// No text comes before itself.
pub proof fn lemma_text_lt_irreflexive(a: Seq<char>)
    ensures
        !text_lt(a, a),
    decreases a.len(),
{
    if a.len() > 0 {
        lemma_text_lt_irreflexive(a.drop_first());
    }
}

/// The order of texts is transitive.
pub proof fn lemma_text_lt_transitive(a: Seq<char>, b: Seq<char>, c: Seq<char>)
    requires
        text_lt(a, b),
        text_lt(b, c),
    ensures
        text_lt(a, c),
    decreases a.len(),
{
    if a.len() > 0 && a[0] == b[0] && b[0] == c[0] {
        lemma_text_lt_transitive(a.drop_first(), b.drop_first(), c.drop_first());
    }
}

/// Of two different texts, one comes before the other.
pub proof fn lemma_text_lt_total(a: Seq<char>, b: Seq<char>)
    ensures
        a != b ==> text_lt(a, b) || text_lt(b, a),
    decreases a.len(),
{
    if a.len() > 0 && b.len() > 0 && a[0] == b[0] {
        lemma_text_lt_total(a.drop_first(), b.drop_first());
        if a.drop_first() == b.drop_first() {
            assert(a =~= seq![a[0]] + a.drop_first());
            assert(b =~= seq![b[0]] + b.drop_first());
        }
    } else if a.len() == 0 && b.len() == 0 {
        assert(a =~= b);
    } else if a.len() > 0 && b.len() > 0 {
        assert(a[0] != b[0]);
        assert((a[0] as int) != (b[0] as int));
    }
}

/// Whether `a` comes before `b` in the order of `str`.
pub fn text_less(a: &str, b: &str) -> (res: bool)
    ensures
        res == text_lt(a@, b@),
{
    let la = a.unicode_len();
    let lb = b.unicode_len();
    let mut i: usize = 0;
    assert(a@.skip(0) =~= a@);
    assert(b@.skip(0) =~= b@);
    while i < la && i < lb
        invariant
            la == a@.len(),
            lb == b@.len(),
            i <= la,
            i <= lb,
            text_lt(a@, b@) == text_lt(a@.skip(i as int), b@.skip(i as int)),
        decreases la - i,
    {
        let ca = a.get_char(i);
        let cb = b.get_char(i);
        if ca != cb {
            return ca < cb;
        }
        assert(a@.skip(i as int).drop_first() =~= a@.skip(i + 1));
        assert(b@.skip(i as int).drop_first() =~= b@.skip(i + 1));
        i = i + 1;
    }
    i < lb
}

} // verus!
