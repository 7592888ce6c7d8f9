//! Small verified building blocks for strings: character access, equality,
//! and decimal formatting. Rendered artifacts elsewhere in the crate are
//! specified down to the character over these helpers.

use vstd::prelude::*;
use vstd::string::StringExecFns;

verus! {

/// Relies on std's `String::push`: appends exactly the given character.
#[verifier::external_body]
pub fn push_char(s: &mut String, c: char)
    ensures
        final(s)@ == old(s)@.push(c),
{
    s.push(c)
}

/// Collect the characters of a string slice into a vector.
pub fn str_chars(s: &str) -> (v: Vec<char>)
    ensures
        v@ == s@,
{
    let mut v: Vec<char> = Vec::new();
    for c in it: s.chars()
        invariant
            it.seq() == s@,
            v@ == it.seq().subrange(0, it.index() as int),
    {
        v.push(c);
    }
    proof {
        assert(v@ =~= s@);
    }
    v
}

/// Rebuild a string from a vector of characters.
pub fn chars_to_string(v: &Vec<char>) -> (s: String)
    ensures
        s@ == v@,
{
    let mut s = String::new();
    let mut i: usize = 0;
    while i < v.len()
        invariant
            i <= v.len(),
            s@ == v@.subrange(0, i as int),
        decreases v.len() - i,
    {
        push_char(&mut s, v[i]);
        proof {
            assert(s@ =~= v@.subrange(0, i + 1 as int));
        }
        i = i + 1;
    }
    proof {
        assert(s@ =~= v@);
    }
    s
}

/// Character-wise string equality.
pub fn str_eq(a: &str, b: &str) -> (r: bool)
    ensures
        r == (a@ == b@),
{
    let av = str_chars(a);
    let bv = str_chars(b);
    if av.len() != bv.len() {
        proof {
            assert(a@.len() != b@.len());
        }
        return false;
    }
    let mut i: usize = 0;
    while i < av.len()
        invariant
            i <= av.len(),
            av.len() == bv.len(),
            av@ == a@,
            bv@ == b@,
            forall|j: int| 0 <= j < i ==> av@[j] == bv@[j],
        decreases av.len() - i,
    {
        if av[i] != bv[i] {
            return false;
        }
        i = i + 1;
    }
    proof {
        assert(a@ =~= b@);
    }
    true
}

/// The decimal digit character for a value below ten.
pub open spec fn digit_char(d: nat) -> char {
    if d == 0 {
        '0'
    } else if d == 1 {
        '1'
    } else if d == 2 {
        '2'
    } else if d == 3 {
        '3'
    } else if d == 4 {
        '4'
    } else if d == 5 {
        '5'
    } else if d == 6 {
        '6'
    } else if d == 7 {
        '7'
    } else if d == 8 {
        '8'
    } else {
        '9'
    }
}

/// The usual base-ten rendering of a natural number, most significant digit
/// first, with no leading zeroes (zero itself renders as "0").
pub open spec fn spec_digits(n: nat) -> Seq<char>
    decreases n,
{
    if n < 10 {
        seq![digit_char(n)]
    } else {
        spec_digits(n / 10).push(digit_char(n % 10))
    }
}

/// Render an unsigned integer in decimal.
pub fn fmt_u64(n: u64) -> (r: String)
    ensures
        r@ == spec_digits(n as nat),
    decreases n,
{
    if n < 10 {
        let mut r = String::new();
        push_char(&mut r, digit_char_of(n));
        proof {
            assert(r@ =~= spec_digits(n as nat));
        }
        r
    } else {
        let mut r = fmt_u64(n / 10);
        push_char(&mut r, digit_char_of(n % 10));
        r
    }
}

/// Render a `usize` in decimal.
pub fn fmt_usize(n: usize) -> (r: String)
    ensures
        r@ == spec_digits(n as nat),
{
    fmt_u64(n as u64)
}

/// A ratio in hundredths rendered with two decimals: 83 becomes "0.83",
/// 100 becomes "1.00".
pub open spec fn spec_hundredths(h: nat) -> Seq<char> {
    (spec_digits(h / 100) + "."@).push(digit_char((h % 100) / 10)).push(digit_char(h % 10))
}

/// Render a hundredths-scaled ratio with two decimal places.
pub fn fmt_hundredths(h: u32) -> (r: String)
    ensures
        r@ == spec_hundredths(h as nat),
{
    let mut r = fmt_u64((h / 100) as u64);
    r.append(".");
    push_char(&mut r, digit_char_of(((h % 100) / 10) as u64));
    push_char(&mut r, digit_char_of((h % 10) as u64));
    r
}

/// The decimal digit character of a value below ten.
pub fn digit_char_of(d: u64) -> (c: char)
    requires
        d < 10,
    ensures
        c == digit_char(d as nat),
{
    if d == 0 {
        '0'
    } else if d == 1 {
        '1'
    } else if d == 2 {
        '2'
    } else if d == 3 {
        '3'
    } else if d == 4 {
        '4'
    } else if d == 5 {
        '5'
    } else if d == 6 {
        '6'
    } else if d == 7 {
        '7'
    } else if d == 8 {
        '8'
    } else {
        '9'
    }
}

/// Signed decimal rendering.
pub open spec fn spec_int_digits(i: int) -> Seq<char> {
    if i < 0 {
        "-"@ + spec_digits((-i) as nat)
    } else {
        spec_digits(i as nat)
    }
}

/// Render a signed integer in decimal.
pub fn fmt_i64(n: i64) -> (r: String)
    ensures
        r@ == spec_int_digits(n as int),
{
    if n < 0 {
        let mag: u64 = if n == i64::MIN {
            9223372036854775808u64
        } else {
            (-n) as u64
        };
        let mut r: String = "-".to_owned();
        r.append(fmt_u64(mag).as_str());
        r
    } else {
        let r = fmt_u64(n as u64);
        proof {
            assert(r@ =~= spec_int_digits(n as int));
        }
        r
    }
}

/// The items joined by a separator, first `n` items.
pub open spec fn join_upto(items: Seq<Seq<char>>, sep: Seq<char>, n: nat) -> Seq<char>
    decreases n,
{
    if n == 0 {
        Seq::<char>::empty()
    } else if n == 1 {
        items[0]
    } else {
        join_upto(items, sep, (n - 1) as nat) + sep + items[n - 1]
    }
}

/// Join strings with a separator.
pub fn join_strings(v: &Vec<String>, sep: &str) -> (r: String)
    ensures
        r@ == join_upto(v.deep_view(), sep@, v@.len() as nat),
{
    let mut r = String::new();
    let mut i: usize = 0;
    while i < v.len()
        invariant
            i <= v@.len(),
            r@ == join_upto(v.deep_view(), sep@, i as nat),
        decreases v@.len() - i,
    {
        if i > 0 {
            r.append(sep);
        } else {
            proof {
                assert(r@ =~= Seq::<char>::empty());
            }
        }
        r.append(v[i].as_str());
        proof {
            if i == 0 {
                assert(r@ =~= join_upto(v.deep_view(), sep@, 1));
            }
        }
        i = i + 1;
    }
    r
}

/// The number of occurrences of a character among the first `n`.
pub open spec fn count_char_upto(s: Seq<char>, c: char, n: nat) -> nat
    decreases n,
{
    if n == 0 {
        0
    } else {
        count_char_upto(s, c, (n - 1) as nat) + if s[n - 1] == c {
            1nat
        } else {
            0nat
        }
    }
}

pub open spec fn spec_count_char(s: Seq<char>, c: char) -> nat {
    count_char_upto(s, c, s.len())
}

/// A sequence holding the character at some position counts it at least
/// once.
pub proof fn lemma_count_char_positive(s: Seq<char>, c: char, i: int, n: nat)
    requires
        0 <= i < n <= s.len(),
        s[i] == c,
    ensures
        count_char_upto(s, c, n) >= 1,
    decreases n,
{
    if i < n - 1 {
        lemma_count_char_positive(s, c, i, (n - 1) as nat);
    }
}

/// Count occurrences of a character in a string.
pub fn count_char(s: &str, c: char) -> (r: usize)
    ensures
        r == spec_count_char(s@, c),
{
    let chars = str_chars(s);
    let mut count: usize = 0;
    let mut i: usize = 0;
    while i < chars.len()
        invariant
            i <= chars.len(),
            chars@ == s@,
            count == count_char_upto(s@, c, i as nat),
            count <= i,
        decreases chars.len() - i,
    {
        if chars[i] == c {
            count = count + 1;
        }
        i = i + 1;
    }
    count
}

/// The Unicode `White_Space` code points, the set `str::trim` strips.
pub open spec fn is_whitespace_char(c: char) -> bool {
    let u = c as u32;
    (0x09 <= u && u <= 0x0D) || u == 0x20 || u == 0x85 || u == 0xA0 || u == 0x1680 || (0x2000 <= u
        && u <= 0x200A) || u == 0x2028 || u == 0x2029 || u == 0x202F || u == 0x205F || u == 0x3000
}

pub fn is_whitespace(c: char) -> (r: bool)
    ensures
        r == is_whitespace_char(c),
{
    let u = c as u32;
    (0x09 <= u && u <= 0x0D) || u == 0x20 || u == 0x85 || u == 0xA0 || u == 0x1680 || (0x2000 <= u
        && u <= 0x200A) || u == 0x2028 || u == 0x2029 || u == 0x202F || u == 0x205F || u == 0x3000
}

/// A string is blank when every character is whitespace; trimming such a
/// string leaves it empty.
pub open spec fn spec_is_blank(s: Seq<char>) -> bool {
    forall|i: int| 0 <= i < s.len() ==> is_whitespace_char(#[trigger] s[i])
}

pub fn is_blank(s: &str) -> (r: bool)
    ensures
        r == spec_is_blank(s@),
{
    let chars = str_chars(s);
    let mut i: usize = 0;
    while i < chars.len()
        invariant
            i <= chars.len(),
            chars@ == s@,
            forall|j: int| 0 <= j < i ==> is_whitespace_char(#[trigger] s@[j]),
        decreases chars.len() - i,
    {
        if !is_whitespace(chars[i]) {
            return false;
        }
        i = i + 1;
    }
    true
}

/// ASCII lowercasing of one character; other characters pass through.
pub open spec fn ascii_lower_char(c: char) -> char {
    let u = c as u32;
    if 0x41 <= u && u <= 0x5A {
        ((u + 0x20) as u8) as char
    } else {
        c
    }
}

pub fn ascii_lower(c: char) -> (r: char)
    ensures
        r == ascii_lower_char(c),
{
    let u = c as u32;
    if 0x41 <= u && u <= 0x5A {
        ((u + 0x20) as u8) as char
    } else {
        c
    }
}

/// Lowercase the ASCII letters of a string, mapped character by character.
pub open spec fn ascii_lowered(s: Seq<char>) -> Seq<char> {
    s.map_values(|c: char| ascii_lower_char(c))
}

pub fn to_ascii_lowercase(s: &str) -> (r: String)
    ensures
        r@ == ascii_lowered(s@),
{
    let chars = str_chars(s);
    let mut out = String::new();
    let mut i: usize = 0;
    while i < chars.len()
        invariant
            i <= chars.len(),
            chars@ == s@,
            out@ == ascii_lowered(s@).subrange(0, i as int),
        decreases chars.len() - i,
    {
        push_char(&mut out, ascii_lower(chars[i]));
        proof {
            assert(out@ =~= ascii_lowered(s@).subrange(0, i + 1 as int));
        }
        i = i + 1;
    }
    proof {
        assert(out@ =~= ascii_lowered(s@));
    }
    out
}

/// Clone a vector of strings, preserving every element.
pub fn clone_string_vec(v: &Vec<String>) -> (r: Vec<String>)
    ensures
        r@ == v@,
{
    let mut out: Vec<String> = Vec::new();
    let mut i: usize = 0;
    while i < v.len()
        invariant
            i <= v@.len(),
            out@ == v@.subrange(0, i as int),
        decreases v@.len() - i,
    {
        out.push(v[i].clone());
        proof {
            assert(out@ =~= v@.subrange(0, i + 1 as int));
        }
        i = i + 1;
    }
    proof {
        assert(out@ =~= v@);
    }
    out
}

/// Clone a byte vector.
pub fn clone_bytes(v: &Vec<u8>) -> (r: Vec<u8>)
    ensures
        r@ == v@,
{
    let mut out: Vec<u8> = Vec::new();
    let mut i: usize = 0;
    while i < v.len()
        invariant
            i <= v@.len(),
            out@ == v@.subrange(0, i as int),
        decreases v@.len() - i,
    {
        out.push(v[i]);
        proof {
            assert(out@ =~= v@.subrange(0, i + 1 as int));
        }
        i = i + 1;
    }
    proof {
        assert(out@ =~= v@);
    }
    out
}

/// Clone an optional string.
pub fn clone_opt_string(v: &Option<String>) -> (r: Option<String>)
    ensures
        r == *v,
{
    match v {
        Option::Some(s) => Option::Some(s.clone()),
        Option::None => Option::None,
    }
}


/// Lowercase hexadecimal digit for a value below sixteen.
pub open spec fn hex_digit(d: nat) -> char {
    if d < 10 {
        digit_char(d)
    } else if d == 10 {
        'a'
    } else if d == 11 {
        'b'
    } else if d == 12 {
        'c'
    } else if d == 13 {
        'd'
    } else if d == 14 {
        'e'
    } else {
        'f'
    }
}

fn hex_digit_of(d: u32) -> (c: char)
    requires
        d < 16,
    ensures
        c == hex_digit(d as nat),
{
    if d < 10 {
        digit_char_of(d as u64)
    } else if d == 10 {
        'a'
    } else if d == 11 {
        'b'
    } else if d == 12 {
        'c'
    } else if d == 13 {
        'd'
    } else if d == 14 {
        'e'
    } else {
        'f'
    }
}

/// JSON string escaping of one character: quotes and backslashes escaped,
/// the named control characters short-escaped, other control characters as
/// `\u00XX`, everything else verbatim.
pub open spec fn json_escape_char(c: char) -> Seq<char> {
    if c == '"' {
        seq!['\\', '"']
    } else if c == '\\' {
        seq!['\\', '\\']
    } else if c == '\u{8}' {
        seq!['\\', 'b']
    } else if c == '\t' {
        seq!['\\', 't']
    } else if c == '\n' {
        seq!['\\', 'n']
    } else if c == '\u{c}' {
        seq!['\\', 'f']
    } else if c == '\r' {
        seq!['\\', 'r']
    } else if (c as u32) < 0x20 {
        seq!['\\', 'u', '0', '0', hex_digit(((c as u32) / 16) as nat), hex_digit(
            ((c as u32) % 16) as nat,
        )]
    } else {
        seq![c]
    }
}

pub open spec fn json_escaped_upto(s: Seq<char>, n: nat) -> Seq<char>
    decreases n,
{
    if n == 0 {
        Seq::<char>::empty()
    } else {
        json_escaped_upto(s, (n - 1) as nat) + json_escape_char(s[n - 1])
    }
}

pub open spec fn json_escaped(s: Seq<char>) -> Seq<char> {
    json_escaped_upto(s, s.len())
}

/// Escape a string for embedding in a JSON string literal.
pub fn escape_json(text: &str) -> (r: String)
    ensures
        r@ == json_escaped(text@),
{
    let chars = str_chars(text);
    let mut out = String::new();
    let mut i: usize = 0;
    while i < chars.len()
        invariant
            i <= chars.len(),
            chars@ == text@,
            out@ == json_escaped_upto(text@, i as nat),
        decreases chars.len() - i,
    {
        let c = chars[i];
        if c == '"' {
            push_char(&mut out, '\\');
            push_char(&mut out, '"');
        } else if c == '\\' {
            push_char(&mut out, '\\');
            push_char(&mut out, '\\');
        } else if c == '\u{8}' {
            push_char(&mut out, '\\');
            push_char(&mut out, 'b');
        } else if c == '\t' {
            push_char(&mut out, '\\');
            push_char(&mut out, 't');
        } else if c == '\n' {
            push_char(&mut out, '\\');
            push_char(&mut out, 'n');
        } else if c == '\u{c}' {
            push_char(&mut out, '\\');
            push_char(&mut out, 'f');
        } else if c == '\r' {
            push_char(&mut out, '\\');
            push_char(&mut out, 'r');
        } else if (c as u32) < 0x20 {
            push_char(&mut out, '\\');
            push_char(&mut out, 'u');
            push_char(&mut out, '0');
            push_char(&mut out, '0');
            push_char(&mut out, hex_digit_of((c as u32) / 16));
            push_char(&mut out, hex_digit_of((c as u32) % 16));
        } else {
            push_char(&mut out, c);
        }
        proof {
            assert(out@ =~= json_escaped_upto(text@, (i + 1) as nat));
        }
        i = i + 1;
    }
    out
}

/// A JSON string literal: the escaped text in double quotes.
pub open spec fn json_string(s: Seq<char>) -> Seq<char> {
    seq!['"'] + json_escaped(s) + seq!['"']
}

/// Render a JSON string literal.
pub fn fmt_json_string(text: &str) -> (r: String)
    ensures
        r@ == json_string(text@),
{
    let mut out = String::new();
    push_char(&mut out, '"');
    out.append(escape_json(text).as_str());
    push_char(&mut out, '"');
    proof {
        assert(out@ =~= json_string(text@));
    }
    out
}

/// Decimal rendering zero-padded to at least the given width (up to four).
pub open spec fn spec_padded(n: nat, width: nat) -> Seq<char> {
    let d = spec_digits(n);
    if d.len() >= width {
        d
    } else if d.len() + 1 == width {
        seq!['0'] + d
    } else if d.len() + 2 == width {
        seq!['0', '0'] + d
    } else {
        seq!['0', '0', '0'] + d
    }
}

/// Render zero-padded to two digits.
pub fn fmt_pad2(n: u64) -> (r: String)
    ensures
        r@ == spec_padded(n as nat, 2),
{
    let digits = fmt_u64(n);
    if n < 10 {
        proof {
            lemma_digits_len(n as nat);
        }
        let mut out: String = "0".to_owned();
        out.append(digits.as_str());
        proof {
            reveal_strlit("0");
            assert(out@ =~= spec_padded(n as nat, 2));
        }
        out
    } else {
        proof {
            lemma_digits_len(n as nat);
        }
        digits
    }
}

/// Render zero-padded to four digits.
pub fn fmt_pad4(n: u64) -> (r: String)
    ensures
        r@ == spec_padded(n as nat, 4),
{
    let digits = fmt_u64(n);
    proof {
        lemma_digits_len(n as nat);
    }
    if n < 10 {
        let mut out: String = "000".to_owned();
        out.append(digits.as_str());
        proof {
            reveal_strlit("000");
            assert(out@ =~= spec_padded(n as nat, 4));
        }
        out
    } else if n < 100 {
        let mut out: String = "00".to_owned();
        out.append(digits.as_str());
        proof {
            reveal_strlit("00");
            assert(out@ =~= spec_padded(n as nat, 4));
        }
        out
    } else if n < 1000 {
        let mut out: String = "0".to_owned();
        out.append(digits.as_str());
        proof {
            reveal_strlit("0");
            assert(out@ =~= spec_padded(n as nat, 4));
        }
        out
    } else {
        digits
    }
}

/// Decimal length facts: one digit below ten, and so on upward.
pub proof fn lemma_digits_len(n: nat)
    ensures
        n < 10 ==> spec_digits(n).len() == 1,
        10 <= n < 100 ==> spec_digits(n).len() == 2,
        100 <= n < 1000 ==> spec_digits(n).len() == 3,
        n >= 1000 ==> spec_digits(n).len() >= 4,
    decreases n,
{
    if n >= 10 {
        lemma_digits_len(n / 10);
    }
}

/// The string starts with the given prefix.
pub open spec fn spec_starts_with(s: Seq<char>, p: Seq<char>) -> bool {
    p.len() <= s.len() && s.subrange(0, p.len() as int) == p
}

pub fn starts_with(s: &str, p: &str) -> (r: bool)
    ensures
        r == spec_starts_with(s@, p@),
{
    let sc = str_chars(s);
    let pc = str_chars(p);
    if pc.len() > sc.len() {
        return false;
    }
    let mut i: usize = 0;
    while i < pc.len()
        invariant
            pc@.len() <= sc@.len(),
            i <= pc@.len(),
            sc@ == s@,
            pc@ == p@,
            forall|j: int| 0 <= j < i ==> s@[j] == p@[j],
        decreases pc.len() - i,
    {
        if sc[i] != pc[i] {
            proof {
                assert(s@.subrange(0, p@.len() as int) != p@) by {
                    if s@.subrange(0, p@.len() as int) == p@ {
                        assert(s@.subrange(0, p@.len() as int)[i as int] == p@[i as int]);
                    }
                }
            }
            return false;
        }
        i = i + 1;
    }
    proof {
        assert(s@.subrange(0, p@.len() as int) =~= p@);
    }
    true
}


/// The end of the string with trailing whitespace stripped.
pub open spec fn rstrip_end(s: Seq<char>) -> int
    decreases s.len(),
{
    if s.len() == 0 {
        0
    } else if is_whitespace_char(s.last()) {
        rstrip_end(s.drop_last())
    } else {
        s.len() as int
    }
}

proof fn lemma_rstrip_prefix(s: Seq<char>, b: int)
    requires
        0 <= b <= s.len(),
        forall|j: int| b <= j < s.len() ==> is_whitespace_char(#[trigger] s[j]),
        b == 0 || !is_whitespace_char(s[b - 1]),
    ensures
        rstrip_end(s) == b,
    decreases s.len(),
{
    if s.len() > 0 {
        if b < s.len() {
            assert(is_whitespace_char(s.last()));
            lemma_rstrip_prefix(s.drop_last(), b);
        }
    }
}

/// The string with leading and trailing whitespace removed.
pub open spec fn spec_trim(s: Seq<char>) -> Seq<char> {
    let b = rstrip_end(s);
    let a = crate::redact::ws_end(s, 0);
    if a <= b {
        s.subrange(a, b)
    } else {
        Seq::<char>::empty()
    }
}

/// Strip leading and trailing whitespace.
pub fn trim(s: &str) -> (r: String)
    ensures
        r@ == spec_trim(s@),
{
    let chars = str_chars(s);
    let mut b: usize = chars.len();
    while b > 0 && is_whitespace(chars[b - 1])
        invariant
            b <= chars@.len(),
            chars@ == s@,
            forall|j: int| b <= j < s@.len() ==> is_whitespace_char(#[trigger] s@[j]),
        decreases b,
    {
        b = b - 1;
    }
    proof {
        lemma_rstrip_prefix(s@, b as int);
    }
    let mut a: usize = 0;
    while a < chars.len() && is_whitespace(chars[a])
        invariant
            a <= chars@.len(),
            chars@ == s@,
            forall|j: int| 0 <= j < a ==> is_whitespace_char(#[trigger] s@[j]),
        decreases chars@.len() - a,
    {
        a = a + 1;
    }
    proof {
        crate::redact::lemma_ws_end_prefix(s@, 0, a as int);
    }
    if a >= b {
        proof {
            if a as int <= rstrip_end(s@) {
                assert(s@.subrange(a as int, rstrip_end(s@)) =~= Seq::<char>::empty());
            }
        }
        return String::new();
    }
    let mut out = String::new();
    let mut k: usize = a;
    while k < b
        invariant
            a <= k <= b <= chars@.len(),
            chars@ == s@,
            out@ == s@.subrange(a as int, k as int),
        decreases b - k,
    {
        push_char(&mut out, chars[k]);
        proof {
            assert(out@ =~= s@.subrange(a as int, k + 1 as int));
        }
        k = k + 1;
    }
    out
}

} // verus!
