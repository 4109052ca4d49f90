//! Text encodings shared by the request builders: decimal numbers, JSON
//! strings and lowercase hexadecimal.

use vstd::prelude::*;
use vstd::string::StringExecFns;

verus! {

/// The ASCII digit for a value below ten.
pub open spec fn digit_char(d: nat) -> char {
    (48 + d) as char
}

/// Decimal notation of a natural number, without leading zeros.
pub open spec fn decimal(n: nat) -> Seq<char>
    decreases n,
{
    if n < 10 {
        seq![digit_char(n)]
    } else {
        decimal(n / 10).push(digit_char(n % 10))
    }
}

/// Decimal notation of an integer, with a leading `-` when negative.
pub open spec fn signed_decimal(i: int) -> Seq<char> {
    if i < 0 {
        seq!['-'] + decimal((-i) as nat)
    } else {
        decimal(i as nat)
    }
}

/// `String::push` of std. Claimed, as its documentation says: the character
/// is appended to the end of the string.
pub assume_specification[ String::push ](s: &mut String, ch: char)
    ensures
        final(s)@ == old(s)@.push(ch),
;

fn digit(d: u64) -> (c: char)
    requires
        d < 10,
    ensures
        c == digit_char(d as nat),
{
    let b: u8 = 48u8 + (d as u8);
    b as char
}

/// Appends the decimal notation of `n` to `out`.
pub fn push_decimal(out: &mut String, n: u64)
    ensures
        final(out)@ == old(out)@ + decimal(n as nat),
    decreases n,
{
    if n >= 10 {
        push_decimal(out, n / 10);
    }
    let c = digit(n % 10);
    out.push(c);
    proof {
        assert(decimal(n as nat) == if n < 10 { seq![digit_char(n as nat)] } else {
            decimal((n / 10) as nat).push(digit_char((n % 10) as nat))
        });
    }
}


/// Appends the decimal notation of `i` to `out`, with a leading `-` when negative.
pub fn push_signed_decimal(out: &mut String, i: i64)
    ensures
        final(out)@ == old(out)@ + signed_decimal(i as int),
{
    if i < 0 {
        out.push('-');
        let magnitude: u64 = ((-(i + 1)) as u64) + 1;
        push_decimal(out, magnitude);
        assert(final(out)@ =~= old(out)@ + signed_decimal(i as int));
    } else {
        push_decimal(out, i as u64);
    }
}

/// The decimal notation of `n` as a new string.
pub fn decimal_string(n: u64) -> (s: String)
    ensures
        s@ == decimal(n as nat),
{
    let mut s = String::new();
    push_decimal(&mut s, n);
    assert(s@ =~= decimal(n as nat));
    s
}

/// The lowercase hexadecimal digit for a value below sixteen.
pub open spec fn hex_digit(d: nat) -> char {
    if d < 10 {
        (48 + d) as char
    } else {
        (87 + d) as char
    }
}

/// Lowercase hexadecimal notation of bytes: two digits per byte, high half first.
pub open spec fn hex_lower(bytes: Seq<u8>) -> Seq<char> {
    Seq::new(
        2 * bytes.len(),
        |i: int|
            if i % 2 == 0 {
                hex_digit((bytes[i / 2] / 16) as nat)
            } else {
                hex_digit((bytes[i / 2] % 16) as nat)
            },
    )
}

/// A character of lowercase hexadecimal notation.
pub open spec fn is_lower_hex_char(c: char) -> bool {
    ('0' <= c && c <= '9') || ('a' <= c && c <= 'f')
}

/// How JSON writes one character inside a string literal: quote, backslash
/// and control characters are escaped, everything else stands as it is.
pub open spec fn json_escape_char(c: char) -> Seq<char> {
    if c == '"' {
        seq!['\\', '"']
    } else if c == '\\' {
        seq!['\\', '\\']
    } else if c == '\u{8}' {
        seq!['\\', 'b']
    } else if c == '\u{c}' {
        seq!['\\', 'f']
    } else if c == '\n' {
        seq!['\\', 'n']
    } else if c == '\r' {
        seq!['\\', 'r']
    } else if c == '\t' {
        seq!['\\', 't']
    } else if (c as u32) < 0x20 {
        seq!['\\', 'u', '0', '0', hex_digit((c as u32 / 16) as nat), hex_digit((c as u32 % 16) as nat)]
    } else {
        seq![c]
    }
}

/// The escaped body of a JSON string literal.
pub open spec fn json_escape(s: Seq<char>) -> Seq<char>
    decreases s.len(),
{
    if s.len() == 0 {
        seq![]
    } else {
        json_escape(s.drop_last()) + json_escape_char(s.last())
    }
}

/// A JSON string literal: the escaped text between double quotes.
pub open spec fn json_string(s: Seq<char>) -> Seq<char> {
    seq!['"'] + json_escape(s) + seq!['"']
}

fn hex_digit_char(d: u32) -> (c: char)
    requires
        d < 16,
    ensures
        c == hex_digit(d as nat),
{
    if d < 10 {
        let b: u8 = 48u8 + (d as u8);
        b as char
    } else {
        let b: u8 = 87u8 + (d as u8);
        b as char
    }
}

fn push_escaped_char(out: &mut String, c: char)
    ensures
        final(out)@ == old(out)@ + json_escape_char(c),
{
    if c == '"' {
        out.push('\\');
        out.push('"');
    } else if c == '\\' {
        out.push('\\');
        out.push('\\');
    } else if c == '\u{8}' {
        out.push('\\');
        out.push('b');
    } else if c == '\u{c}' {
        out.push('\\');
        out.push('f');
    } else if c == '\n' {
        out.push('\\');
        out.push('n');
    } else if c == '\r' {
        out.push('\\');
        out.push('r');
    } else if c == '\t' {
        out.push('\\');
        out.push('t');
    } else if (c as u32) < 0x20 {
        let code: u32 = c as u32;
        out.push('\\');
        out.push('u');
        out.push('0');
        out.push('0');
        out.push(hex_digit_char(code / 16));
        out.push(hex_digit_char(code % 16));
    } else {
        out.push(c);
    }
    assert(final(out)@ =~= old(out)@ + json_escape_char(c));
}

/// The characters of `s`, in order.
pub fn chars_of(s: &str) -> (v: Vec<char>)
    ensures
        v@ == s@,
{
    let mut v: Vec<char> = Vec::new();
    for c in it: s.chars()
        invariant
            it.seq() == s@,
            v@ == it.seq().take(it.index() as int),
    {
        v.push(c);
    }
    v
}

/// Appends the JSON string literal for `s` to `out`.
pub fn push_json_string(out: &mut String, s: &str)
    ensures
        final(out)@ == old(out)@ + json_string(s@),
{
    let chars = chars_of(s);
    let ghost start = out@;
    out.push('"');
    let mut i: usize = 0;
    while i < chars.len()
        invariant
            i <= chars@.len(),
            chars@ == s@,
            out@ == start + seq!['"'] + json_escape(chars@.take(i as int)),
        decreases chars@.len() - i,
    {
        push_escaped_char(out, chars[i]);
        assert(chars@.take(i + 1).drop_last() =~= chars@.take(i as int));
        i = i + 1;
    }
    assert(chars@.take(i as int) =~= chars@);
    out.push('"');
    assert(out@ =~= start + json_string(s@));
}


/// Whether two strings hold the same characters.
pub fn str_eq(a: &str, b: &str) -> (eq: bool)
    ensures
        eq == (a@ == b@),
{
    let x = chars_of(a);
    let y = chars_of(b);
    if x.len() != y.len() {
        return false;
    }
    let mut i: usize = 0;
    while i < x.len()
        invariant
            x@ == a@,
            y@ == b@,
            x@.len() == y@.len(),
            i <= x@.len(),
            forall|j: int| 0 <= j < i ==> x@[j] == y@[j],
        decreases x@.len() - i,
    {
        if x[i] != y[i] {
            return false;
        }
        i = i + 1;
    }
    assert(x@ =~= y@);
    true
}

/// An ASCII decimal digit.
pub open spec fn is_digit(c: char) -> bool {
    '0' <= c && c <= '9'
}

/// Every character is an ASCII decimal digit.
pub open spec fn all_digits(s: Seq<char>) -> bool {
    forall|i: int| 0 <= i < s.len() ==> is_digit(#[trigger] s[i])
}

/// The value of a run of decimal digits (zero for the empty run).
pub open spec fn digits_value(s: Seq<char>) -> nat
    decreases s.len(),
{
    if s.len() == 0 {
        0
    } else {
        digits_value(s.drop_last()) * 10 + ((s.last() as int - 48) as nat)
    }
}

/// What parsing text as a 64-bit signed integer gives: an optional `+` or
/// `-`, then one or more ASCII digits, and a value that fits; else nothing.
pub open spec fn parse_i64_spec(s: Seq<char>) -> Option<i64> {
    let negative = s.len() > 0 && s[0] == '-';
    let body = if s.len() > 0 && (s[0] == '-' || s[0] == '+') {
        s.drop_first()
    } else {
        s
    };
    if body.len() == 0 || !all_digits(body) {
        None
    } else {
        let v: int = if negative {
            -(digits_value(body) as int)
        } else {
            digits_value(body) as int
        };
        if i64::MIN <= v && v <= i64::MAX {
            Some(v as i64)
        } else {
            None
        }
    }
}

proof fn lemma_digits_value_prefix(s: Seq<char>, k: int)
    requires
        0 <= k <= s.len(),
        all_digits(s),
    ensures
        digits_value(s.take(k)) <= digits_value(s),
    decreases s.len() - k,
{
    if k < s.len() {
        lemma_digits_value_prefix(s, k + 1);
        assert(s.take(k + 1).drop_last() =~= s.take(k));
        assert(is_digit(s[k]));
    } else {
        assert(s.take(k) =~= s);
    }
}

/// Parses text as a 64-bit signed integer, as `str::parse::<i64>` does.
pub fn parse_i64(s: &str) -> (r: Option<i64>)
    ensures
        r == parse_i64_spec(s@),
{
    let chars = chars_of(s);
    let n = chars.len();
    let negative = n > 0 && chars[0] == '-';
    let start: usize = if n > 0 && (chars[0] == '-' || chars[0] == '+') { 1 } else { 0 };
    let ghost body = if s@.len() > 0 && (s@[0] == '-' || s@[0] == '+') {
        s@.drop_first()
    } else {
        s@
    };
    assert(body =~= chars@.subrange(start as int, n as int));
    if start == n {
        return None;
    }
    let limit: u64 = if negative { 9223372036854775808u64 } else { 9223372036854775807u64 };
    let mut acc: u64 = 0;
    let mut i: usize = start;
    while i < n
        invariant
            chars@ == s@,
            n == chars@.len(),
            start <= i <= n,
            body == chars@.subrange(start as int, n as int),
            body == (if s@.len() > 0 && (s@[0] == '-' || s@[0] == '+') {
                s@.drop_first()
            } else {
                s@
            }),
            negative == (s@.len() > 0 && s@[0] == '-'),
            body.len() > 0,
            acc as nat == digits_value(body.take(i - start)),
            all_digits(body.take(i - start)),
            acc <= limit,
            limit == if negative { 9223372036854775808u64 } else { 9223372036854775807u64 },
        decreases n - i,
    {
        let c = chars[i];
        assert(body[i - start] == c);
        if !('0' <= c && c <= '9') {
            assert(!all_digits(body));
            return None;
        }
        let d: u64 = ((c as u32) - 48) as u64;
        assert(body.take(i + 1 - start).drop_last() =~= body.take(i - start));
        if acc > (limit - d) / 10 {
            proof {
                assert(digits_value(body.take(i + 1 - start)) > limit);
                if all_digits(body) {
                    lemma_digits_value_prefix(body, i + 1 - start);
                }
            }
            return None;
        }
        acc = acc * 10 + d;
        i = i + 1;
    }
    assert(body.take(n - start) =~= body);
    if negative {
        if acc == 9223372036854775808u64 {
            Some(i64::MIN)
        } else {
            Some(-(acc as i64))
        }
    } else {
        Some(acc as i64)
    }
}

/// One JSON object member: the key as a JSON string, a colon, the value's JSON text.
pub open spec fn json_member(key: Seq<char>, value: Seq<char>) -> Seq<char> {
    json_string(key) + seq![':'] + value
}

/// JSON object members, separated by commas.
pub open spec fn json_members(members: Seq<(Seq<char>, Seq<char>)>) -> Seq<char>
    decreases members.len(),
{
    if members.len() == 0 {
        seq![]
    } else if members.len() == 1 {
        json_member(members[0].0, members[0].1)
    } else {
        json_members(members.drop_last()) + seq![','] + json_member(
            members.last().0,
            members.last().1,
        )
    }
}

/// A compact JSON object with the given members, in the given order.
pub open spec fn json_object(members: Seq<(Seq<char>, Seq<char>)>) -> Seq<char> {
    seq!['{'] + json_members(members) + seq!['}']
}

/// A compact JSON array of the given element texts, in the given order.
pub open spec fn json_elements(elements: Seq<Seq<char>>) -> Seq<char>
    decreases elements.len(),
{
    if elements.len() == 0 {
        seq![]
    } else if elements.len() == 1 {
        elements[0]
    } else {
        json_elements(elements.drop_last()) + seq![','] + elements.last()
    }
}

/// JSON `true` or `false`.
pub open spec fn json_bool(b: bool) -> Seq<char> {
    if b {
        seq!['t', 'r', 'u', 'e']
    } else {
        seq!['f', 'a', 'l', 's', 'e']
    }
}

/// Writes a compact JSON object from `(key, value JSON text)` members.
pub fn json_object_text(members: &Vec<(String, String)>) -> (s: String)
    ensures
        s@ == json_object(members.deep_view()),
{
    let ghost ms = members.deep_view();
    let mut s = String::new();
    s.push('{');
    let mut i: usize = 0;
    while i < members.len()
        invariant
            i <= members@.len(),
            ms == members.deep_view(),
            s@ == seq!['{'] + json_members(ms.take(i as int)),
        decreases members@.len() - i,
    {
        if i > 0 {
            s.push(',');
        }
        push_json_string(&mut s, members[i].0.as_str());
        s.push(':');
        s.append(members[i].1.as_str());
        assert(ms.take(i + 1).drop_last() =~= ms.take(i as int));
        assert(ms[i as int] == (members@[i as int].0@, members@[i as int].1@));
        assert(s@ =~= seq!['{'] + json_members(ms.take(i + 1)));
        i = i + 1;
    }
    s.push('}');
    assert(ms.take(i as int) =~= ms);
    assert(s@ =~= json_object(ms));
    s
}

/// Writes JSON `true` or `false`.
pub fn json_bool_text(b: bool) -> (s: String)
    ensures
        s@ == json_bool(b),
{
    let mut s = String::new();
    if b {
        s.push('t');
        s.push('r');
        s.push('u');
        s.push('e');
    } else {
        s.push('f');
        s.push('a');
        s.push('l');
        s.push('s');
        s.push('e');
    }
    assert(s@ =~= json_bool(b));
    s
}

/// Writes a JSON string literal.
pub fn json_string_text(v: &str) -> (s: String)
    ensures
        s@ == json_string(v@),
{
    let mut s = String::new();
    push_json_string(&mut s, v);
    assert(s@ =~= json_string(v@));
    s
}

/// Writes the decimal notation of a signed number.
pub fn signed_decimal_string(i: i64) -> (s: String)
    ensures
        s@ == signed_decimal(i as int),
{
    let mut s = String::new();
    push_signed_decimal(&mut s, i);
    assert(s@ =~= signed_decimal(i as int));
    s
}

/// Strict lexicographic order of texts by character code, the order of std's
/// `Ord` for strings.
pub open spec fn text_lt(a: Seq<char>, b: Seq<char>) -> bool
    decreases a.len(),
{
    if a.len() == 0 {
        b.len() > 0
    } else if b.len() == 0 {
        false
    } else if a[0] != b[0] {
        a[0] < b[0]
    } else {
        text_lt(a.drop_first(), b.drop_first())
    }
}

/// No text comes before itself.
pub proof fn lemma_text_lt_irreflexive(a: Seq<char>)
    ensures
        !text_lt(a, a),
    decreases a.len(),
{
    if a.len() > 0 {
        lemma_text_lt_irreflexive(a.drop_first());
    }
}

/// The lexicographic order is transitive.
pub proof fn lemma_text_lt_transitive(a: Seq<char>, b: Seq<char>, c: Seq<char>)
    requires
        text_lt(a, b),
        text_lt(b, c),
    ensures
        text_lt(a, c),
    decreases a.len(),
{
    if a.len() > 0 && b.len() > 0 && c.len() > 0 && a[0] == b[0] && b[0] == c[0] {
        lemma_text_lt_transitive(a.drop_first(), b.drop_first(), c.drop_first());
    }
}

/// Every key comes strictly before the keys after it: the keys are sorted
/// and none of them repeats.
pub open spec fn keys_ascending(q: Seq<(Seq<char>, Seq<char>)>) -> bool {
    forall|i: int, j: int| 0 <= i < j < q.len() ==> text_lt(#[trigger] q[i].0, #[trigger] q[j].0)
}

/// Every key comes strictly before `bound`.
pub open spec fn keys_below(q: Seq<(Seq<char>, Seq<char>)>, bound: Seq<char>) -> bool {
    forall|i: int| 0 <= i < q.len() ==> text_lt(#[trigger] q[i].0, bound)
}

/// At most one pair, with the key `key`.
pub open spec fn at_most_one_with_key(p: Seq<(Seq<char>, Seq<char>)>, key: Seq<char>) -> bool {
    p.len() <= 1 && (p.len() == 1 ==> p[0].0 == key)
}

/// Appending at most one pair whose key comes after every key so far keeps
/// the keys ascending, and below any key after it.
pub proof fn lemma_keys_ascending_append(
    q: Seq<(Seq<char>, Seq<char>)>,
    p: Seq<(Seq<char>, Seq<char>)>,
    key: Seq<char>,
    next: Seq<char>,
)
    requires
        keys_ascending(q),
        keys_below(q, key),
        at_most_one_with_key(p, key),
        text_lt(key, next),
    ensures
        keys_ascending(q + p),
        keys_below(q + p, next),
{
    let r = q + p;
    assert forall|i: int, j: int| 0 <= i < j < r.len() implies text_lt(#[trigger] r[i].0, #[trigger] r[j].0) by {
        if j >= q.len() {
            assert(r[j] == p[0]);
        }
    }
    assert forall|i: int| 0 <= i < r.len() implies text_lt(#[trigger] r[i].0, next) by {
        if i < q.len() {
            lemma_text_lt_transitive(q[i].0, key, next);
        } else {
            assert(r[i] == p[0]);
        }
    }
}

/// Appending at most one pair whose key comes after every key so far keeps
/// the keys ascending.
pub proof fn lemma_keys_ascending_append_last(
    q: Seq<(Seq<char>, Seq<char>)>,
    p: Seq<(Seq<char>, Seq<char>)>,
    key: Seq<char>,
)
    requires
        keys_ascending(q),
        keys_below(q, key),
        at_most_one_with_key(p, key),
    ensures
        keys_ascending(q + p),
{
    let r = q + p;
    assert forall|i: int, j: int| 0 <= i < j < r.len() implies text_lt(#[trigger] r[i].0, #[trigger] r[j].0) by {
        if j >= q.len() {
            assert(r[j] == p[0]);
        }
    }
}

/// Ascending keys are distinct: no key occurs twice.
pub proof fn lemma_ascending_keys_distinct(q: Seq<(Seq<char>, Seq<char>)>, i: int, j: int)
    requires
        keys_ascending(q),
        0 <= i < q.len(),
        0 <= j < q.len(),
        i != j,
    ensures
        q[i].0 != q[j].0,
{
    if i < j {
        assert(text_lt(q[i].0, q[j].0));
        lemma_text_lt_irreflexive(q[i].0);
    } else {
        assert(text_lt(q[j].0, q[i].0));
        lemma_text_lt_irreflexive(q[j].0);
    }
}

/// The value of a lowercase hexadecimal digit (zero for any other character).
pub open spec fn hex_value(c: char) -> nat {
    if '0' <= c && c <= '9' {
        (c as int - 48) as nat
    } else if 'a' <= c && c <= 'f' {
        (c as int - 87) as nat
    } else {
        0
    }
}

/// Reads the body of a JSON string literal back into its text: a backslash
/// and `u` take four hex digits, a backslash and `b`, `f`, `n`, `r`, `t` stand
/// for their control character, a backslash and any other character for that
/// character.
pub open spec fn json_unescape(t: Seq<char>) -> Seq<char>
    decreases t.len(),
{
    if t.len() == 0 {
        seq![]
    } else if t[0] == '\\' && t.len() >= 2 {
        let e = t[1];
        if e == 'u' && t.len() >= 6 {
            seq![((hex_value(t[4]) * 16 + hex_value(t[5])) as char)] + json_unescape(t.subrange(6, t.len() as int))
        } else {
            let c = if e == 'b' {
                '\u{8}'
            } else if e == 'f' {
                '\u{c}'
            } else if e == 'n' {
                '\n'
            } else if e == 'r' {
                '\r'
            } else if e == 't' {
                '\t'
            } else {
                e
            };
            seq![c] + json_unescape(t.subrange(2, t.len() as int))
        }
    } else {
        seq![t[0]] + json_unescape(t.subrange(1, t.len() as int))
    }
}

/// Escaping works character by character.
pub proof fn lemma_json_escape_concat(a: Seq<char>, b: Seq<char>)
    ensures
        json_escape(a + b) == json_escape(a) + json_escape(b),
    decreases b.len(),
{
    if b.len() == 0 {
        assert(a + b =~= a);
        assert(json_escape(b) =~= Seq::<char>::empty());
        assert(json_escape(a) + json_escape(b) =~= json_escape(a));
    } else {
        lemma_json_escape_concat(a, b.drop_last());
        assert((a + b).drop_last() =~= a + b.drop_last());
        assert((a + b).last() == b.last());
        assert(json_escape(a + b) =~= json_escape(a) + json_escape(b));
    }
}

proof fn lemma_hex_value_of_digit(n: nat)
    requires
        n < 16,
    ensures
        hex_value(hex_digit(n)) == n,
{
}

/// Reading back the escape of one character gives that character.
pub proof fn lemma_json_unescape_char(c: char, rest: Seq<char>)
    ensures
        json_unescape(json_escape_char(c) + rest) == seq![c] + json_unescape(rest),
{
    let t = json_escape_char(c) + rest;
    let k = json_escape_char(c).len() as int;
    assert(t.subrange(k, t.len() as int) =~= rest);
    if c == '"' || c == '\\' || c == '\u{8}' || c == '\u{c}' || c == '\n' || c == '\r' || c == '\t' {
        assert(t[0] == '\\');
        assert(json_unescape(t) =~= seq![c] + json_unescape(rest));
    } else if (c as u32) < 0x20 {
        let v = c as u32;
        lemma_hex_value_of_digit((v / 16) as nat);
        lemma_hex_value_of_digit((v % 16) as nat);
        assert(t[4] == hex_digit((v / 16) as nat));
        assert(t[5] == hex_digit((v % 16) as nat));
        assert(hex_value(t[4]) * 16 + hex_value(t[5]) == v);
        assert(((hex_value(t[4]) * 16 + hex_value(t[5])) as char) == c);
        assert(json_unescape(t) =~= seq![c] + json_unescape(rest));
    } else {
        assert(t[0] == c);
        assert(json_unescape(t) =~= seq![c] + json_unescape(rest));
    }
}

/// Reading back an escaped text gives the text.
pub proof fn lemma_json_unescape_escape(s: Seq<char>)
    ensures
        json_unescape(json_escape(s)) == s,
    decreases s.len(),
{
    if s.len() == 0 {
        assert(json_escape(s) =~= Seq::<char>::empty());
    } else {
        let rest = s.drop_first();
        lemma_json_escape_concat(seq![s[0]], rest);
        assert(seq![s[0]] + rest =~= s);
        assert(seq![s[0]].drop_last() =~= Seq::<char>::empty());
        assert(seq![s[0]].last() == s[0]);
        assert(json_escape(Seq::<char>::empty()) =~= Seq::<char>::empty());
        assert(json_escape(seq![s[0]]) == json_escape(seq![s[0]].drop_last()) + json_escape_char(s[0]));
        assert(json_escape(seq![s[0]]) =~= json_escape_char(s[0]));
        lemma_json_unescape_char(s[0], json_escape(rest));
        lemma_json_unescape_escape(rest);
        assert(seq![s[0]] + rest =~= s);
    }
}

/// A JSON string literal holds its text exactly: two texts with the same
/// literal are the same text.
pub proof fn lemma_json_string_exact(a: Seq<char>, b: Seq<char>)
    requires
        json_string(a) == json_string(b),
    ensures
        a == b,
{
    let ea = json_escape(a);
    let eb = json_escape(b);
    assert(json_string(a).subrange(1, json_string(a).len() - 1) =~= ea);
    assert(json_string(b).subrange(1, json_string(b).len() - 1) =~= eb);
    lemma_json_unescape_escape(a);
    lemma_json_unescape_escape(b);
}

proof fn lemma_decimal_digits(n: nat)
    ensures
        decimal(n).len() > 0,
        all_digits(decimal(n)),
        digits_value(decimal(n)) == n,
    decreases n,
{
    if n >= 10 {
        lemma_decimal_digits(n / 10);
        let s = decimal(n);
        assert(s.drop_last() =~= decimal(n / 10));
        assert(s.last() == digit_char(n % 10));
        assert(digit_char(n % 10) as int == 48 + n % 10);
        assert(digits_value(s) == digits_value(decimal(n / 10)) * 10 + n % 10);
        assert((n / 10) * 10 + n % 10 == n);
        assert forall|i: int| 0 <= i < s.len() implies is_digit(#[trigger] s[i]) by {
            if i < s.len() - 1 {
                assert(s[i] == decimal(n / 10)[i]);
            }
        }
    } else {
        assert(decimal(n).drop_last() =~= Seq::<char>::empty());
        assert(digit_char(n) as int == 48 + n);
        assert(decimal(n).last() == digit_char(n));
        assert(digits_value(decimal(n).drop_last()) == 0);
        assert(digits_value(decimal(n)) == n);
    }
}

/// Parsing reads back the decimal notation of every 64-bit signed integer.
pub proof fn lemma_parse_i64_reads_signed_decimal(i: i64)
    ensures
        parse_i64_spec(signed_decimal(i as int)) == Some(i),
{
    let s = signed_decimal(i as int);
    if i < 0 {
        let m = (-(i as int)) as nat;
        lemma_decimal_digits(m);
        assert(s.drop_first() =~= decimal(m));
        assert(s[0] == '-');
    } else {
        lemma_decimal_digits(i as nat);
        assert(is_digit(s[0]));
    }
}

/// The entries that a table of fields gives, in table order: one `(key,
/// value)` entry for each field whose value is present, none for the others.
pub open spec fn entries_of(fields: Seq<(Seq<char>, Option<Seq<char>>)>) -> Seq<(Seq<char>, Seq<char>)>
    decreases fields.len(),
{
    if fields.len() == 0 {
        seq![]
    } else {
        entries_of(fields.drop_last()) + match fields.last().1 {
            Some(v) => seq![(fields.last().0, v)],
            None => seq![],
        }
    }
}

/// The value of the last entry with the given key, if any entry has it.
pub open spec fn value_under(entries: Seq<(Seq<char>, Seq<char>)>, key: Seq<char>) -> Option<Seq<char>>
    decreases entries.len(),
{
    if entries.len() == 0 {
        None
    } else if entries.last().0 == key {
        Some(entries.last().1)
    } else {
        value_under(entries.drop_last(), key)
    }
}

/// No entry has the key exactly when looking it up finds nothing.
pub proof fn lemma_value_under_none(entries: Seq<(Seq<char>, Seq<char>)>, key: Seq<char>)
    ensures
        value_under(entries, key) is None <==> forall|i: int| 0 <= i < entries.len() ==> #[trigger] entries[i].0 != key,
    decreases entries.len(),
{
    if entries.len() > 0 {
        let init = entries.drop_last();
        lemma_value_under_none(init, key);
        if value_under(entries, key) is None {
            assert forall|i: int| 0 <= i < entries.len() implies #[trigger] entries[i].0 != key by {
                if i < entries.len() - 1 {
                    assert(entries[i] == init[i]);
                }
            }
        } else if entries.last().0 != key {
            let j = choose|j: int| 0 <= j < init.len() && #[trigger] init[j].0 == key;
            assert(entries[j] == init[j]);
        }
    }
}

/// The keys of a table of fields are strictly ascending.
pub open spec fn table_keys_ascending(fields: Seq<(Seq<char>, Option<Seq<char>>)>) -> bool {
    forall|i: int, j: int| 0 <= i < j < fields.len() ==> text_lt(#[trigger] fields[i].0, #[trigger] fields[j].0)
}

/// Keys that ascend from each to the next ascend throughout.
pub proof fn lemma_table_keys_ascending(fields: Seq<(Seq<char>, Option<Seq<char>>)>)
    requires
        forall|i: int| 0 <= i < fields.len() - 1 ==> text_lt(#[trigger] fields[i].0, fields[i + 1].0),
    ensures
        table_keys_ascending(fields),
    decreases fields.len(),
{
    if fields.len() > 1 {
        let init = fields.drop_last();
        assert forall|i: int| 0 <= i < init.len() - 1 implies text_lt(#[trigger] init[i].0, init[i + 1].0) by {
            assert(init[i] == fields[i] && init[i + 1] == fields[i + 1]);
        }
        lemma_table_keys_ascending(init);
        let n = fields.len() - 1;
        assert forall|i: int, j: int| 0 <= i < j < fields.len() implies text_lt(
            #[trigger] fields[i].0,
            #[trigger] fields[j].0,
        ) by {
            if j < n {
                assert(init[i] == fields[i] && init[j] == fields[j]);
            } else if i < n - 1 {
                assert(init[i] == fields[i] && init[n - 1] == fields[n - 1]);
                assert(text_lt(fields[n - 1].0, fields[n].0));
                lemma_text_lt_transitive(fields[i].0, fields[n - 1].0, fields[n].0);
            }
        }
    }
}

proof fn lemma_absent_key(fields: Seq<(Seq<char>, Option<Seq<char>>)>, key: Seq<char>)
    requires
        forall|i: int| 0 <= i < fields.len() ==> #[trigger] fields[i].0 != key,
    ensures
        value_under(entries_of(fields), key) is None,
    decreases fields.len(),
{
    if fields.len() > 0 {
        let init = fields.drop_last();
        assert forall|i: int| 0 <= i < init.len() implies #[trigger] init[i].0 != key by {
            assert(init[i] == fields[i]);
        }
        lemma_absent_key(init, key);
        let e = entries_of(fields);
        let prefix = entries_of(init);
        if fields.last().1 is Some {
            assert(e.drop_last() =~= prefix);
        } else {
            assert(e =~= prefix);
        }
    }
}

/// In the entries of a table with ascending keys, the value under each key
/// is that key's field: present exactly when the field is.
pub proof fn lemma_entries_value(fields: Seq<(Seq<char>, Option<Seq<char>>)>, i: int)
    requires
        table_keys_ascending(fields),
        0 <= i < fields.len(),
    ensures
        value_under(entries_of(fields), fields[i].0) == fields[i].1,
    decreases fields.len(),
{
    let n = fields.len() - 1;
    let init = fields.drop_last();
    let key = fields[i].0;
    let e = entries_of(fields);
    let prefix = entries_of(init);
    assert(table_keys_ascending(init)) by {
        assert forall|a: int, b: int| 0 <= a < b < init.len() implies text_lt(#[trigger] init[a].0, #[trigger] init[b].0) by {
            assert(init[a] == fields[a] && init[b] == fields[b]);
        }
    }
    if i == n {
        assert forall|j: int| 0 <= j < init.len() implies #[trigger] init[j].0 != key by {
            assert(init[j] == fields[j]);
            assert(text_lt(fields[j].0, fields[n].0));
            lemma_text_lt_irreflexive(key);
        }
        lemma_absent_key(init, key);
        if fields.last().1 is Some {
            assert(e.last() == (key, fields.last().1->Some_0));
        } else {
            assert(e =~= prefix);
        }
    } else {
        lemma_entries_value(init, i);
        assert(init[i] == fields[i]);
        assert(text_lt(fields[i].0, fields[n].0));
        lemma_text_lt_irreflexive(key);
        if fields.last().1 is Some {
            assert(e.drop_last() =~= prefix);
            assert(e.last().0 == fields[n].0);
        } else {
            assert(e =~= prefix);
        }
    }
}


/// Adding a field at the end of a table adds its entry, when the field is
/// set, after the entries of the others.
pub proof fn lemma_entries_of_push(fields: Seq<(Seq<char>, Option<Seq<char>>)>, field: (Seq<char>, Option<Seq<char>>))
    ensures
        entries_of(fields.push(field)) == entries_of(fields) + match field.1 {
            Some(v) => seq![(field.0, v)],
            None => Seq::<(Seq<char>, Seq<char>)>::empty(),
        },
{
    assert(fields.push(field).drop_last() =~= fields);
}

/// Each entry of a table comes from one of its fields that is set, with the
/// field's key and value.
pub proof fn lemma_entries_keys(fields: Seq<(Seq<char>, Option<Seq<char>>)>)
    ensures
        forall|i: int|
            0 <= i < entries_of(fields).len() ==> fields.contains(
                ((#[trigger] entries_of(fields)[i]).0, Some(entries_of(fields)[i].1)),
            ),
    decreases fields.len(),
{
    if fields.len() > 0 {
        let init = fields.drop_last();
        lemma_entries_keys(init);
        let e = entries_of(fields);
        let prefix = entries_of(init);
        assert forall|i: int| 0 <= i < e.len() implies fields.contains(((#[trigger] e[i]).0, Some(e[i].1))) by {
            if i < prefix.len() {
                assert(e[i] == prefix[i]);
                let j = choose|j: int| 0 <= j < init.len() && init[j] == (prefix[i].0, Some(prefix[i].1));
                assert(fields[j] == init[j]);
            } else {
                assert(fields[fields.len() - 1] == (e[i].0, Some(e[i].1)));
            }
        }
    }
}

} // verus!
