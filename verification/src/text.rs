//! Character-level helpers shared by the modifier language and the import rules.
use vstd::prelude::*;

verus! {

/// Copies the characters of a string slice into a vector.
pub fn chars_of(s: &str) -> (v: Vec<char>)
    ensures
        v@ == s@,
{
    let mut v: Vec<char> = Vec::new();
    for c in it: s.chars()
        invariant
            v@ == it.seq().take(it.index() as int),
            it.seq() == s@,
    {
        v.push(c);
    }
    v
}

/// Appends one character to a string (`String::push`).
#[verifier::external_body]
pub(crate) fn push_char(s: &mut String, c: char)
    ensures
        final(s)@ == old(s)@.push(c),
{
    s.push(c);
}

/// Builds a string from the characters `v[lo..hi]`.
pub fn string_of_range(v: &Vec<char>, lo: usize, hi: usize) -> (s: String)
    requires
        lo <= hi <= v.len(),
    ensures
        s@ == v@.subrange(lo as int, hi as int),
{
    let mut s = String::new();
    let mut k = lo;
    while k < hi
        invariant
            lo <= k <= hi <= v.len(),
            s@ == v@.subrange(lo as int, k as int),
        decreases hi - k,
    {
        push_char(&mut s, v[k]);
        k += 1;
        assert(s@ =~= v@.subrange(lo as int, k as int));
    }
    s
}

/// Builds a string holding all the characters of `v`.
pub fn string_of_chars(v: &Vec<char>) -> (s: String)
    ensures
        s@ == v@,
{
    let s = string_of_range(v, 0, v.len());
    assert(v@.subrange(0, v@.len() as int) =~= v@);
    s
}

/// Appends `t` to `s`.
pub fn append_string(s: &mut String, t: &String)
    ensures
        final(s)@ == old(s)@ + t@,
{
    s.append(t.as_str());
}

pub open spec fn lower_char(c: char) -> char {
    if 'A' <= c <= 'Z' {
        ((c as u32) + 32) as char
    } else {
        c
    }
}

pub open spec fn upper_char(c: char) -> char {
    if 'a' <= c <= 'z' {
        ((c as u32) - 32) as char
    } else {
        c
    }
}

/// ASCII lowercase of a character sequence (non-ASCII letters are kept).
pub open spec fn ascii_lower(s: Seq<char>) -> Seq<char> {
    s.map_values(|c: char| lower_char(c))
}

/// ASCII uppercase of a character sequence (non-ASCII letters are kept).
pub open spec fn ascii_upper(s: Seq<char>) -> Seq<char> {
    s.map_values(|c: char| upper_char(c))
}

pub fn to_lower_char(c: char) -> (r: char)
    ensures
        r == lower_char(c),
{
    if 'A' <= c && c <= 'Z' {
        let u = (c as u8) + 32;
        u as char
    } else {
        c
    }
}

pub fn to_upper_char(c: char) -> (r: char)
    ensures
        r == upper_char(c),
{
    if 'a' <= c && c <= 'z' {
        let u = (c as u8) - 32;
        u as char
    } else {
        c
    }
}

/// The character of a decimal digit.
pub open spec fn digit_char(d: int) -> char {
    ((d + 48) as u32) as char
}

/// Decimal notation of a natural number, without leading zeros.
pub open spec fn nat_decimal(n: nat) -> Seq<char>
    decreases n,
{
    if n < 10 {
        seq![digit_char(n as int)]
    } else {
        nat_decimal(n / 10) + seq![digit_char((n % 10) as int)]
    }
}

/// Decimal notation of an integer, with a leading '-' when negative.
pub open spec fn int_decimal(n: int) -> Seq<char> {
    if n < 0 {
        seq!['-'] + nat_decimal((-n) as nat)
    } else {
        nat_decimal(n as nat)
    }
}

fn push_nat_decimal(out: &mut String, n: u64)
    ensures
        final(out)@ == old(out)@ + nat_decimal(n as nat),
    decreases n,
{
    if n < 10 {
        let c = ((n as u8) + 48) as char;
        push_char(out, c);
        assert(final(out)@ =~= old(out)@ + nat_decimal(n as nat));
    } else {
        push_nat_decimal(out, n / 10);
        let c = (((n % 10) as u8) + 48) as char;
        push_char(out, c);
        assert(final(out)@ =~= old(out)@ + nat_decimal(n as nat));
    }
}

/// Decimal notation of an unsigned 64-bit integer (`u64::to_string`).
pub fn u64_to_string(n: u64) -> (s: String)
    ensures
        s@ == nat_decimal(n as nat),
{
    let mut s = String::new();
    push_nat_decimal(&mut s, n);
    assert(s@ =~= nat_decimal(n as nat));
    s
}

/// Decimal notation of a 64-bit integer (`i64::to_string`).
pub fn i64_to_string(n: i64) -> (s: String)
    ensures
        s@ == int_decimal(n as int),
{
    let mut s = String::new();
    if n < 0 {
        push_char(&mut s, '-');
        let m: u64 = if n == i64::MIN {
            9223372036854775808u64
        } else {
            (-n) as u64
        };
        push_nat_decimal(&mut s, m);
    } else {
        push_nat_decimal(&mut s, n as u64);
    }
    assert(s@ =~= int_decimal(n as int));
    s
}

/// What `{:?}` writes for a string: the text in double quotes, with the characters that Rust
/// escapes in debug output escaped.
pub uninterp spec fn debug_quoted(s: Seq<char>) -> Seq<char>;

/// The `{:?}` rendering of a string (`<str as Debug>::fmt`). The contract names the result; it
/// does not spell out Rust's escaping rules, which depend on Unicode tables.
#[verifier::external_body]
pub(crate) fn debug_string(s: &String) -> (r: String)
    ensures
        r@ == debug_quoted(s@),
{
    format!("{:?}", s)
}


pub open spec fn is_ascii_digit(c: char) -> bool {
    '0' <= c <= '9'
}

pub open spec fn all_ascii_digits(w: Seq<char>) -> bool {
    forall|k: int| 0 <= k < w.len() ==> is_ascii_digit(#[trigger] w[k])
}

/// The value of a run of decimal digits.
pub open spec fn decimal_value(w: Seq<char>) -> int
    decreases w.len(),
{
    if w.len() == 0 {
        0
    } else {
        10 * decimal_value(w.drop_last()) + (w.last() as int - 48)
    }
}

/// The integer a text spells as `str::parse::<i64>` reads it, before the range check: an
/// optional `+` or `-`, then one or more ASCII digits and nothing else.
pub open spec fn integer_text_value(s: Seq<char>) -> Option<int> {
    let signed = s.len() > 0 && (s[0] == '-' || s[0] == '+');
    let digits = if signed {
        s.skip(1)
    } else {
        s
    };
    if digits.len() > 0 && all_ascii_digits(digits) {
        Option::Some(
            if s[0] == '-' {
                -decimal_value(digits)
            } else {
                decimal_value(digits)
            },
        )
    } else {
        Option::None
    }
}

/// What `str::parse::<i64>` gives: the value of the text, where it is one and fits in an `i64`.
pub open spec fn spec_parse_i64(s: Seq<char>) -> Option<i64> {
    match integer_text_value(s) {
        Option::Some(v) => if i64::MIN <= v <= i64::MAX {
            Option::Some(v as i64)
        } else {
            Option::None
        },
        Option::None => Option::None,
    }
}

proof fn lemma_decimal_prefix(w: Seq<char>, k: int)
    requires
        all_ascii_digits(w),
        0 <= k <= w.len(),
    ensures
        0 <= decimal_value(w.take(k)) <= decimal_value(w),
    decreases w.len(),
{
    if k < w.len() {
        lemma_decimal_prefix(w.drop_last(), k);
        assert(w.drop_last().take(k) =~= w.take(k));
    } else {
        assert(w.take(k) =~= w);
        if w.len() > 0 {
            lemma_decimal_prefix(w.drop_last(), k - 1);
        }
    }
}

/// Reads a decimal integer as `str::parse::<i64>` does.
pub fn parse_i64(text: &str) -> (r: Option<i64>)
    ensures
        r == spec_parse_i64(text@),
{
    let s = chars_of(text);
    let n = s.len();
    if n == 0 {
        return Option::None;
    }
    let signed = s[0] == '-' || s[0] == '+';
    let neg = s[0] == '-';
    let start: usize = if signed {
        1
    } else {
        0
    };
    let ghost digits = s@.skip(start as int);
    proof {
        assert(digits =~= if text@[0] == '-' || text@[0] == '+' {
            text@.skip(1)
        } else {
            text@
        });
    }
    if start == n {
        return Option::None;
    }
    let mut v: u64 = 0;
    let mut k = start;
    proof {
        assert(digits.take(0) =~= Seq::<char>::empty());
    }
    while k < n
        invariant
            start <= k <= n,
            n == s@.len(),
            n > 0,
            s@ == text@,
            start == (if s@[0] == '-' || s@[0] == '+' {
                1int
            } else {
                0int
            }),
            digits == s@.skip(start as int),
            digits == (if text@[0] == '-' || text@[0] == '+' {
                text@.skip(1)
            } else {
                text@
            }),
            forall|m: int| start <= m < k ==> is_ascii_digit(#[trigger] s@[m]),
            v as int == decimal_value(digits.take(k - start)),
        decreases n - k,
    {
        let c = s[k];
        if !('0' <= c && c <= '9') {
            proof {
                assert(digits[k - start] == c);
                assert(!all_ascii_digits(digits));
            }
            return Option::None;
        }
        let d = (c as u8 - 48) as u64;
        assert(d as int == c as int - 48);
        proof {
            assert(digits.take(k - start + 1).drop_last() =~= digits.take(k - start));
            assert(digits.take(k - start + 1).last() == c);
        }
        if v > 1844674407370955161u64 || (v == 1844674407370955161u64 && d > 5) {
            proof {
                assert(decimal_value(digits.take(k - start + 1)) == 10 * v + d);
                assert(10 * v + d > 18446744073709551615);
                if all_ascii_digits(digits) {
                    lemma_decimal_prefix(digits, k - start + 1);
                    assert(decimal_value(digits) > 9223372036854775808);
                }
                assert(text@ == s@);
            }
            return Option::None;
        }
        v = v * 10 + d;
        k += 1;
    }
    proof {
        assert(digits.take(n - start) =~= digits);
        assert(all_ascii_digits(digits));
        assert(integer_text_value(text@) == Option::Some(if neg { -(v as int) } else { v as int }));
    }
    if neg {
        if v <= 9223372036854775808u64 {
            if v == 9223372036854775808u64 {
                Option::Some(i64::MIN)
            } else {
                Option::Some(-(v as i64))
            }
        } else {
            Option::None
        }
    } else if v <= 9223372036854775807u64 {
        Option::Some(v as i64)
    } else {
        Option::None
    }
}


/// The characters with Unicode's White_Space property, those `char::is_whitespace` accepts.
pub open spec fn is_white(c: char) -> bool {
    let u = c as u32;
    ||| 9 <= u <= 13
    ||| u == 32
    ||| u == 0x85
    ||| u == 0xA0
    ||| u == 0x1680
    ||| 0x2000 <= u <= 0x200A
    ||| u == 0x2028
    ||| u == 0x2029
    ||| u == 0x202F
    ||| u == 0x205F
    ||| u == 0x3000
}

pub fn is_white_char(c: char) -> (r: bool)
    ensures
        r == is_white(c),
{
    let u = c as u32;
    (9 <= u && u <= 13) || u == 32 || u == 0x85 || u == 0xA0 || u == 0x1680 || (0x2000 <= u && u
        <= 0x200A) || u == 0x2028 || u == 0x2029 || u == 0x202F || u == 0x205F || u == 0x3000
}

/// `s` without its leading white space.
pub open spec fn trim_front(s: Seq<char>) -> Seq<char>
    decreases s.len(),
{
    if s.len() > 0 && is_white(s[0]) {
        trim_front(s.skip(1))
    } else {
        s
    }
}

/// `s` without its trailing white space.
pub open spec fn trim_back(s: Seq<char>) -> Seq<char>
    decreases s.len(),
{
    if s.len() > 0 && is_white(s.last()) {
        trim_back(s.drop_last())
    } else {
        s
    }
}

/// `s` without leading and trailing white space (`str::trim`).
pub open spec fn trimmed(s: Seq<char>) -> Seq<char> {
    trim_back(trim_front(s))
}

proof fn lemma_trim_front_at(s: Seq<char>, i: int)
    requires
        0 <= i <= s.len(),
        forall|k: int| 0 <= k < i ==> is_white(#[trigger] s[k]),
    ensures
        trim_front(s) == trim_front(s.skip(i)),
    decreases i,
{
    if i > 0 {
        assert(s.skip(1).skip(i - 1) =~= s.skip(i));
        assert forall|k: int| 0 <= k < i - 1 implies is_white(#[trigger] s.skip(1)[k]) by {
            assert(s.skip(1)[k] == s[k + 1]);
        }
        lemma_trim_front_at(s.skip(1), i - 1);
    } else {
        assert(s.skip(0) =~= s);
    }
}

proof fn lemma_trim_back_at(s: Seq<char>, j: int)
    requires
        0 <= j <= s.len(),
        forall|k: int| j <= k < s.len() ==> is_white(#[trigger] s[k]),
    ensures
        trim_back(s) == trim_back(s.take(j)),
    decreases s.len() - j,
{
    if j < s.len() {
        assert(s.drop_last().take(j) =~= s.take(j));
        lemma_trim_back_at(s.drop_last(), j);
    } else {
        assert(s.take(j) =~= s);
    }
}

/// The text of `v[lo..hi]` without leading and trailing white space.
pub fn trimmed_range(v: &Vec<char>, lo: usize, hi: usize) -> (r: String)
    requires
        lo <= hi <= v.len(),
    ensures
        r@ == trimmed(v@.subrange(lo as int, hi as int)),
{
    let ghost w = v@.subrange(lo as int, hi as int);
    let mut a = lo;
    while a < hi && is_white_char(v[a])
        invariant
            lo <= a <= hi <= v.len(),
            w == v@.subrange(lo as int, hi as int),
            forall|k: int| lo <= k < a ==> is_white(#[trigger] v@[k]),
        decreases hi - a,
    {
        a += 1;
    }
    proof {
        assert forall|k: int| 0 <= k < a - lo implies is_white(#[trigger] w[k]) by {
            assert(w[k] == v@[lo + k]);
        }
        lemma_trim_front_at(w, a - lo);
        assert(w.skip(a - lo) =~= v@.subrange(a as int, hi as int));
        if a < hi {
            assert(trim_front(v@.subrange(a as int, hi as int)) == v@.subrange(a as int, hi as int));
        } else {
            assert(v@.subrange(a as int, hi as int) =~= Seq::<char>::empty());
        }
    }
    let ghost u = v@.subrange(a as int, hi as int);
    let mut b = hi;
    while b > a && is_white_char(v[b - 1])
        invariant
            lo <= a <= b <= hi <= v.len(),
            u == v@.subrange(a as int, hi as int),
            forall|k: int| b <= k < hi ==> is_white(#[trigger] v@[k]),
        decreases b - a,
    {
        b -= 1;
    }
    proof {
        assert forall|k: int| b - a <= k < u.len() implies is_white(#[trigger] u[k]) by {
            assert(u[k] == v@[a + k]);
        }
        lemma_trim_back_at(u, b - a);
        assert(u.take(b - a) =~= v@.subrange(a as int, b as int));
        if b > a {
            assert(trim_back(v@.subrange(a as int, b as int)) == v@.subrange(a as int, b as int));
        } else {
            assert(v@.subrange(a as int, b as int) =~= Seq::<char>::empty());
        }
    }
    string_of_range(v, a, b)
}

/// The pieces of `s` between the separators `sep`, as `str::split` gives them: empty pieces
/// included, and one empty piece for an empty text.
pub open spec fn split_on(s: Seq<char>, sep: char) -> Seq<Seq<char>>
    decreases s.len(),
{
    if s.len() == 0 {
        seq![seq![]]
    } else {
        let rest = split_on(s.drop_last(), sep);
        if s.last() == sep {
            rest.push(seq![])
        } else {
            rest.update(rest.len() - 1, rest.last().push(s.last()))
        }
    }
}

pub proof fn lemma_split_nonempty(s: Seq<char>, sep: char)
    ensures
        split_on(s, sep).len() >= 1,
    decreases s.len(),
{
    if s.len() > 0 {
        lemma_split_nonempty(s.drop_last(), sep);
    }
}

/// The pieces of `v` between the separators `sep`, each without leading and trailing white
/// space.
pub fn split_trimmed(v: &Vec<char>, sep: char) -> (r: Vec<String>)
    ensures
        r.deep_view() == split_on(v@, sep).map_values(|p: Seq<char>| trimmed(p)),
{
    let mut out: Vec<String> = Vec::new();
    let mut piece_start: usize = 0;
    let mut k: usize = 0;
    proof {
        assert(v@.take(0) =~= Seq::<char>::empty());
        assert(v@.subrange(0, 0) =~= Seq::<char>::empty());
    }
    while k < v.len()
        invariant
            piece_start <= k <= v.len(),
            split_on(v@.take(k as int), sep).len() >= 1,
            split_on(v@.take(k as int), sep).last() == v@.subrange(piece_start as int, k as int),
            out.deep_view() == split_on(v@.take(k as int), sep).drop_last().map_values(
                |p: Seq<char>| trimmed(p),
            ),
        decreases v.len() - k,
    {
        let ghost prev = split_on(v@.take(k as int), sep);
        proof {
            assert(v@.take(k + 1).drop_last() =~= v@.take(k as int));
            assert(v@.take(k + 1).last() == v@[k as int]);
        }
        if v[k] == sep {
            let piece = trimmed_range(v, piece_start, k);
            let ghost before = out.deep_view();
            out.push(piece);
            proof {
                let now = split_on(v@.take(k + 1), sep);
                assert(now == prev.push(seq![]));
                assert(now.drop_last() =~= prev);
                assert(prev =~= prev.drop_last().push(prev.last()));
                assert(out.deep_view() =~= before.push(trimmed(prev.last())));
                assert(now.drop_last().map_values(|p: Seq<char>| trimmed(p)) =~= prev.drop_last().map_values(
                    |p: Seq<char>| trimmed(p),
                ).push(trimmed(prev.last())));
                assert(v@.subrange(k + 1, k + 1) =~= Seq::<char>::empty());
            }
            piece_start = k + 1;
        } else {
            proof {
                let now = split_on(v@.take(k + 1), sep);
                assert(now == prev.update(prev.len() - 1, prev.last().push(v@[k as int])));
                assert(now.drop_last() =~= prev.drop_last());
                assert(v@.subrange(piece_start as int, k + 1) =~= v@.subrange(piece_start as int, k as int).push(v@[k as int]));
            }
        }
        k += 1;
    }
    let last = trimmed_range(v, piece_start, k);
    let ghost before = out.deep_view();
    out.push(last);
    proof {
        let all = split_on(v@, sep);
        assert(v@.take(k as int) =~= v@);
        assert(all =~= all.drop_last().push(all.last()));
        assert(out.deep_view() =~= before.push(trimmed(all.last())));
        assert(all.map_values(|p: Seq<char>| trimmed(p)) =~= all.drop_last().map_values(
            |p: Seq<char>| trimmed(p),
        ).push(trimmed(all.last())));
        assert(out.deep_view() =~= all.map_values(|p: Seq<char>| trimmed(p)));
    }
    out
}


/// The pieces of `v` between the separators `sep` (`str::split`).
pub fn split_pieces(v: &Vec<char>, sep: char) -> (r: Vec<String>)
    ensures
        r.deep_view() == split_on(v@, sep),
{
    let mut out: Vec<String> = Vec::new();
    let mut piece_start: usize = 0;
    let mut k: usize = 0;
    proof {
        assert(v@.take(0) =~= Seq::<char>::empty());
        assert(v@.subrange(0, 0) =~= Seq::<char>::empty());
    }
    while k < v.len()
        invariant
            piece_start <= k <= v.len(),
            split_on(v@.take(k as int), sep).len() >= 1,
            split_on(v@.take(k as int), sep).last() == v@.subrange(piece_start as int, k as int),
            out.deep_view() == split_on(v@.take(k as int), sep).drop_last(),
        decreases v.len() - k,
    {
        let ghost prev = split_on(v@.take(k as int), sep);
        proof {
            assert(v@.take(k + 1).drop_last() =~= v@.take(k as int));
            assert(v@.take(k + 1).last() == v@[k as int]);
        }
        if v[k] == sep {
            let piece = string_of_range(v, piece_start, k);
            let ghost before = out.deep_view();
            out.push(piece);
            proof {
                let now = split_on(v@.take(k + 1), sep);
                assert(now == prev.push(seq![]));
                assert(now.drop_last() =~= prev);
                assert(prev =~= prev.drop_last().push(prev.last()));
                assert(out.deep_view() =~= before.push(prev.last()));
                assert(now.drop_last() =~= prev.drop_last().push(prev.last()));
                assert(v@.subrange(k + 1, k + 1) =~= Seq::<char>::empty());
            }
            piece_start = k + 1;
        } else {
            proof {
                let now = split_on(v@.take(k + 1), sep);
                assert(now == prev.update(prev.len() - 1, prev.last().push(v@[k as int])));
                assert(now.drop_last() =~= prev.drop_last());
                assert(v@.subrange(piece_start as int, k + 1) =~= v@.subrange(piece_start as int, k as int).push(v@[k as int]));
            }
        }
        k += 1;
    }
    let last = string_of_range(v, piece_start, k);
    let ghost before = out.deep_view();
    out.push(last);
    proof {
        let all = split_on(v@, sep);
        assert(v@.take(k as int) =~= v@);
        assert(all =~= all.drop_last().push(all.last()));
        assert(out.deep_view() =~= before.push(all.last()));
        assert(all =~= all.drop_last().push(all.last()));
        assert(out.deep_view() =~= all);
    }
    out
}


/// A copy of an optional string.
pub fn clone_opt_string(s: &Option<String>) -> (r: Option<String>)
    ensures
        r == *s,
{
    match s {
        Option::Some(x) => Option::Some(x.clone()),
        Option::None => Option::None,
    }
}


/// Whether a string holds exactly the given text.
pub fn text_is(s: &String, lit: &str) -> (r: bool)
    ensures
        r == (s@ == lit@),
{
    let t = String::from_str(lit);
    *s == t
}


proof fn lemma_nat_decimal_reads(n: nat)
    ensures
        nat_decimal(n).len() > 0,
        all_ascii_digits(nat_decimal(n)),
        decimal_value(nat_decimal(n)) == n,
    decreases n,
{
    if n < 10 {
        let c = digit_char(n as int);
        assert(c as int == n + 48);
        assert(nat_decimal(n) == seq![c]);
        assert(seq![c].drop_last() =~= Seq::<char>::empty());
        assert(decimal_value(Seq::<char>::empty()) == 0);
        assert(decimal_value(seq![c]) == 10 * decimal_value(seq![c].drop_last()) + (c as int - 48));
    } else {
        lemma_nat_decimal_reads(n / 10);
        let w = nat_decimal(n);
        let c = digit_char((n % 10) as int);
        assert(c as int == n % 10 + 48);
        assert(w == nat_decimal(n / 10) + seq![c]);
        assert(w.drop_last() =~= nat_decimal(n / 10));
        assert(w.last() == c);
        assert(decimal_value(w) == 10 * (n / 10) + n % 10);
        assert(10 * (n / 10) + n % 10 == n);
    }
}

/// Reading back the decimal notation of a 64-bit integer gives the integer.
pub proof fn lemma_parse_i64_of_decimal(n: i64)
    ensures
        spec_parse_i64(int_decimal(n as int)) == Option::Some(n),
{
    if n < 0 {
        let m = (-(n as int)) as nat;
        lemma_nat_decimal_reads(m);
        let s = int_decimal(n as int);
        assert(s == seq!['-'] + nat_decimal(m));
        assert(s.skip(1) =~= nat_decimal(m));
        assert(s[0] == '-');
    } else {
        lemma_nat_decimal_reads(n as nat);
        let s = int_decimal(n as int);
        let d = nat_decimal(n as nat);
        assert(s == d);
        assert(is_ascii_digit(d[0]));
    }
}

} // verus!
