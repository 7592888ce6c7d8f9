//! Redaction of secret-shaped substrings from free text before it reaches
//! a log file.
//!
//! Four pattern classes are scrubbed, in order: `api_key`-style
//! assignments, `secret` assignments, `bearer` credentials, and `sk-`
//! tokens. Matching is ASCII-case-insensitive for the keyword classes; the
//! introducing literal is preserved and the value is replaced by
//! `[REDACTED]`. Each pass scans left to right and never overlaps matches.

use vstd::prelude::*;
use vstd::string::StringExecFns;

use crate::strutil::{
    ascii_lower_char, ascii_lower, chars_to_string, is_whitespace, is_whitespace_char, str_chars,
};

verus! {

/// The value characters of an assignment-style secret.
pub open spec fn is_value_char(c: char) -> bool {
    let u = c as u32;
    (0x30 <= u && u <= 0x39) || (0x41 <= u && u <= 0x5A) || (0x61 <= u && u <= 0x7A) || c == '-'
        || c == '_' || c == '.' || c == '+' || c == '/'
}

fn value_char(c: char) -> (r: bool)
    ensures
        r == is_value_char(c),
{
    let u = c as u32;
    (0x30 <= u && u <= 0x39) || (0x41 <= u && u <= 0x5A) || (0x61 <= u && u <= 0x7A) || c == '-'
        || c == '_' || c == '.' || c == '+' || c == '/'
}

/// The value characters of a bearer credential (`=` is also allowed).
pub open spec fn is_bearer_char(c: char) -> bool {
    is_value_char(c) || c == '='
}

fn bearer_char(c: char) -> (r: bool)
    ensures
        r == is_bearer_char(c),
{
    value_char(c) || c == '='
}

/// ASCII letters and digits, the body of an `sk-` token.
pub open spec fn is_sk_char(c: char) -> bool {
    let u = c as u32;
    (0x30 <= u && u <= 0x39) || (0x41 <= u && u <= 0x5A) || (0x61 <= u && u <= 0x7A)
}

fn sk_char(c: char) -> (r: bool)
    ensures
        r == is_sk_char(c),
{
    let u = c as u32;
    (0x30 <= u && u <= 0x39) || (0x41 <= u && u <= 0x5A) || (0x61 <= u && u <= 0x7A)
}

/// The first position at or after `i` whose character fails `f`-style
/// scanning; specialized per class below.
pub open spec fn ws_end(s: Seq<char>, i: int) -> int
    decreases s.len() - i when 0 <= i <= s.len()
{
    if i >= s.len() {
        i
    } else if is_whitespace_char(s[i]) {
        ws_end(s, i + 1)
    } else {
        i
    }
}

pub open spec fn value_end(s: Seq<char>, i: int) -> int
    decreases s.len() - i when 0 <= i <= s.len()
{
    if i >= s.len() {
        i
    } else if is_value_char(s[i]) {
        value_end(s, i + 1)
    } else {
        i
    }
}

pub open spec fn bearer_end(s: Seq<char>, i: int) -> int
    decreases s.len() - i when 0 <= i <= s.len()
{
    if i >= s.len() {
        i
    } else if is_bearer_char(s[i]) {
        bearer_end(s, i + 1)
    } else {
        i
    }
}

pub open spec fn sk_end(s: Seq<char>, i: int) -> int
    decreases s.len() - i when 0 <= i <= s.len()
{
    if i >= s.len() {
        i
    } else if is_sk_char(s[i]) {
        sk_end(s, i + 1)
    } else {
        i
    }
}

/// Whitespace scanning lands exactly at the first non-whitespace position.
pub proof fn lemma_ws_end_prefix(s: Seq<char>, i: int, t: int)
    requires
        0 <= i <= t <= s.len(),
        forall|j: int| i <= j < t ==> is_whitespace_char(#[trigger] s[j]),
        t == s.len() || !is_whitespace_char(s[t]),
    ensures
        ws_end(s, i) == t,
    decreases t - i,
{
    if i < t {
        lemma_ws_end_prefix(s, i + 1, t);
    }
}

/// The scan results stay within the string.
pub proof fn lemma_scan_in_bounds(s: Seq<char>, i: int)
    requires
        0 <= i <= s.len(),
    ensures
        i <= ws_end(s, i) <= s.len(),
    decreases s.len() - i,
{
    if i < s.len() {
        lemma_scan_in_bounds(s, i + 1);
    }
}

/// The keyword `kw` (ASCII letters, given lowercase) appears
/// case-insensitively at position `i`.
pub open spec fn kw_at(s: Seq<char>, i: int, kw: Seq<char>) -> bool {
    &&& 0 <= i
    &&& i + kw.len() <= s.len()
    &&& forall|k: int| 0 <= k < kw.len() ==> ascii_lower_char(#[trigger] s[i + k]) == kw[k]
}

/// An `api_key`-style match at `i`: `api`, optional `_` or `-`, `key`,
/// optional whitespace, `:` or `=`, optional whitespace, then at least one
/// value character. The result is the end of the kept introducer and the
/// end of the value.
pub open spec fn api_key_match(s: Seq<char>, i: int) -> Option<(int, int)> {
    if kw_at(s, i, "api"@) {
        let after_api = i + 3;
        let key_start = if after_api < s.len() && (s[after_api] == '_' || s[after_api] == '-') {
            after_api + 1
        } else {
            after_api
        };
        if kw_at(s, key_start, "key"@) {
            sep_match(s, key_start + 3)
        } else {
            Option::None
        }
    } else {
        Option::None
    }
}

/// After the keyword: optional whitespace, one of `:` `=`, optional
/// whitespace, then at least one value character. Returns the end of the
/// kept introducer (everything through the separator whitespace) and the
/// end of the value.
pub open spec fn sep_match(s: Seq<char>, j: int) -> Option<(int, int)> {
    if 0 <= j <= s.len() {
        let p = ws_end(s, j);
        if p < s.len() && (s[p] == ':' || s[p] == '=') {
            let q = ws_end(s, p + 1);
            let e = value_end(s, q);
            if e > q {
                Option::Some((q, e))
            } else {
                Option::None
            }
        } else {
            Option::None
        }
    } else {
        Option::None
    }
}

/// A `secret`-style match at `i`.
pub open spec fn secret_match(s: Seq<char>, i: int) -> Option<(int, int)> {
    if kw_at(s, i, "secret"@) {
        sep_match(s, i + 6)
    } else {
        Option::None
    }
}

/// A `bearer` match at `i`: the keyword, at least one whitespace
/// character, then at least one credential character.
pub open spec fn bearer_match(s: Seq<char>, i: int) -> Option<(int, int)> {
    if kw_at(s, i, "bearer"@) {
        let p = ws_end(s, i + 6);
        if p > i + 6 {
            let e = bearer_end(s, p);
            if e > p {
                Option::Some((p, e))
            } else {
                Option::None
            }
        } else {
            Option::None
        }
    } else {
        Option::None
    }
}

/// An `sk-` token match at `i`: the literal `sk-` followed by at least 16
/// letters or digits. The kept introducer is `sk-` itself.
pub open spec fn sk_match(s: Seq<char>, i: int) -> Option<(int, int)> {
    if 0 <= i && i + 3 <= s.len() && s[i] == 's' && s[i + 1] == 'k' && s[i + 2] == '-' {
        let e = sk_end(s, i + 3);
        if e - (i + 3) >= 16 {
            Option::Some((i + 3, e))
        } else {
            Option::None
        }
    } else {
        Option::None
    }
}

/// Which pattern class a pass scrubs.
#[derive(Debug, Clone, Copy, PartialEq, Eq, Structural)]
pub enum RedactionClass {
    ApiKey,
    Secret,
    Bearer,
    SkToken,
}

pub open spec fn class_match(c: RedactionClass, s: Seq<char>, i: int) -> Option<(int, int)> {
    match c {
        RedactionClass::ApiKey => api_key_match(s, i),
        RedactionClass::Secret => secret_match(s, i),
        RedactionClass::Bearer => bearer_match(s, i),
        RedactionClass::SkToken => sk_match(s, i),
    }
}

/// One left-to-right pass: at each position, either scrub a match (keeping
/// the introducer, replacing the value with `[REDACTED]`, resuming after
/// it) or copy the character.
pub open spec fn pass_from(c: RedactionClass, s: Seq<char>, i: int) -> Seq<char>
    decreases s.len() - i when 0 <= i <= s.len()
{
    if i >= s.len() {
        Seq::<char>::empty()
    } else {
        match class_match(c, s, i) {
            Option::Some((keep_end, value_end_)) => if i < keep_end && keep_end <= value_end_
                && value_end_ <= s.len() {
                s.subrange(i, keep_end) + "[REDACTED]"@ + pass_from(c, s, value_end_)
            } else {
                seq![s[i]] + pass_from(c, s, i + 1)
            },
            Option::None => seq![s[i]] + pass_from(c, s, i + 1),
        }
    }
}

/// Whether the pass finds anything at all.
pub open spec fn pass_matched(c: RedactionClass, s: Seq<char>, i: int) -> bool
    decreases s.len() - i when 0 <= i <= s.len()
{
    if i >= s.len() {
        false
    } else {
        match class_match(c, s, i) {
            Option::Some((keep_end, value_end_)) => if i < keep_end && keep_end <= value_end_
                && value_end_ <= s.len() {
                true
            } else {
                pass_matched(c, s, i + 1)
            },
            Option::None => pass_matched(c, s, i + 1),
        }
    }
}

/// The fully sanitized text: the four passes applied in order.
pub open spec fn spec_sanitized(s: Seq<char>) -> Seq<char> {
    let a = pass_from(RedactionClass::ApiKey, s, 0);
    let b = pass_from(RedactionClass::Secret, a, 0);
    let c = pass_from(RedactionClass::Bearer, b, 0);
    pass_from(RedactionClass::SkToken, c, 0)
}

/// The flags the four passes report for a text.
pub open spec fn spec_sanitize_flags(s: Seq<char>) -> RedactionFlags {
    let a = pass_from(RedactionClass::ApiKey, s, 0);
    let b = pass_from(RedactionClass::Secret, a, 0);
    let c = pass_from(RedactionClass::Bearer, b, 0);
    RedactionFlags {
        api_key: pass_matched(RedactionClass::ApiKey, s, 0),
        secret: pass_matched(RedactionClass::Secret, a, 0),
        bearer: pass_matched(RedactionClass::Bearer, b, 0),
        sk_token: pass_matched(RedactionClass::SkToken, c, 0),
    }
}

/// Flag union.
pub open spec fn or_flags(a: RedactionFlags, b: RedactionFlags) -> RedactionFlags {
    RedactionFlags {
        api_key: a.api_key || b.api_key,
        secret: a.secret || b.secret,
        bearer: a.bearer || b.bearer,
        sk_token: a.sk_token || b.sk_token,
    }
}

/// Which classes fired on the text, pass by pass.
#[derive(Debug, Clone, Copy, PartialEq, Eq, Structural)]
pub struct RedactionFlags {
    pub api_key: bool,
    pub secret: bool,
    pub bearer: bool,
    pub sk_token: bool,
}

impl RedactionFlags {
    pub fn none() -> (r: Self)
        ensures
            !r.api_key && !r.secret && !r.bearer && !r.sk_token,
    {
        RedactionFlags { api_key: false, secret: false, bearer: false, sk_token: false }
    }

    /// Accumulate the classes seen by another sanitization.
    pub fn merge(&mut self, other: RedactionFlags)
        ensures
            final(self).api_key == (old(self).api_key || other.api_key),
            final(self).secret == (old(self).secret || other.secret),
            final(self).bearer == (old(self).bearer || other.bearer),
            final(self).sk_token == (old(self).sk_token || other.sk_token),
    {
        self.api_key = self.api_key || other.api_key;
        self.secret = self.secret || other.secret;
        self.bearer = self.bearer || other.bearer;
        self.sk_token = self.sk_token || other.sk_token;
    }

    pub fn any(&self) -> (r: bool)
        ensures
            r == (self.api_key || self.secret || self.bearer || self.sk_token),
    {
        self.api_key || self.secret || self.bearer || self.sk_token
    }
}

fn keyword_at(chars: &Vec<char>, i: usize, kw: &Vec<char>) -> (r: bool)
    requires
        i <= chars@.len(),
    ensures
        r == kw_at(chars@, i as int, kw@),
{
    if chars.len() - i < kw.len() {
        return false;
    }
    let mut k: usize = 0;
    while k < kw.len()
        invariant
            chars@.len() <= usize::MAX,
            i + kw@.len() <= chars@.len(),
            k <= kw@.len(),
            forall|t: int| 0 <= t < k ==> ascii_lower_char(#[trigger] chars@[i + t]) == kw@[t],
        decreases kw@.len() - k,
    {
        if ascii_lower(chars[i + k]) != kw[k] {
            return false;
        }
        k = k + 1;
    }
    true
}

fn scan_ws(chars: &Vec<char>, i: usize) -> (r: usize)
    requires
        i <= chars@.len(),
    ensures
        r == ws_end(chars@, i as int),
        i <= r <= chars@.len(),
    decreases chars@.len() - i,
{
    if i < chars.len() && is_whitespace(chars[i]) {
        scan_ws(chars, i + 1)
    } else {
        i
    }
}

fn scan_value(chars: &Vec<char>, i: usize) -> (r: usize)
    requires
        i <= chars@.len(),
    ensures
        r == value_end(chars@, i as int),
        i <= r <= chars@.len(),
    decreases chars@.len() - i,
{
    if i < chars.len() && value_char(chars[i]) {
        scan_value(chars, i + 1)
    } else {
        i
    }
}

fn scan_bearer(chars: &Vec<char>, i: usize) -> (r: usize)
    requires
        i <= chars@.len(),
    ensures
        r == bearer_end(chars@, i as int),
        i <= r <= chars@.len(),
    decreases chars@.len() - i,
{
    if i < chars.len() && bearer_char(chars[i]) {
        scan_bearer(chars, i + 1)
    } else {
        i
    }
}

fn scan_sk(chars: &Vec<char>, i: usize) -> (r: usize)
    requires
        i <= chars@.len(),
    ensures
        r == sk_end(chars@, i as int),
        i <= r <= chars@.len(),
    decreases chars@.len() - i,
{
    if i < chars.len() && sk_char(chars[i]) {
        scan_sk(chars, i + 1)
    } else {
        i
    }
}

fn match_sep(chars: &Vec<char>, j: usize) -> (r: Option<(usize, usize)>)
    requires
        j <= chars@.len(),
    ensures
        (r is Some <==> sep_match(chars@, j as int) is Some),
        r is Some ==> ((r->0).0 as int, (r->0).1 as int) == sep_match(chars@, j as int)->0,
        r is Some ==> j <= (r->0).0 <= (r->0).1 <= chars@.len(),
{
    let p = scan_ws(chars, j);
    if p < chars.len() && (chars[p] == ':' || chars[p] == '=') {
        let q = scan_ws(chars, p + 1);
        let e = scan_value(chars, q);
        if e > q {
            Option::Some((q, e))
        } else {
            Option::None
        }
    } else {
        Option::None
    }
}

fn match_class(c: RedactionClass, chars: &Vec<char>, i: usize, kw_api: &Vec<char>, kw_key: &Vec<
    char,
>, kw_secret: &Vec<char>, kw_bearer: &Vec<char>) -> (r: Option<(usize, usize)>)
    requires
        i < chars@.len(),
        kw_api@ == "api"@,
        kw_key@ == "key"@,
        kw_secret@ == "secret"@,
        kw_bearer@ == "bearer"@,
    ensures
        (r is Some <==> class_match(c, chars@, i as int) is Some),
        r is Some ==> ((r->0).0 as int, (r->0).1 as int) == class_match(c, chars@, i as int)->0,
        r is Some ==> (r->0).0 <= (r->0).1 <= chars@.len(),
{
    proof {
        reveal_strlit("api");
        reveal_strlit("key");
        reveal_strlit("secret");
        reveal_strlit("bearer");
    }
    let total = chars.len();
    proof {
        assert(chars@.len() <= usize::MAX);
    }
    match c {
        RedactionClass::ApiKey => {
            if keyword_at(chars, i, kw_api) {
                let after_api = i + 3;
                let key_start = if after_api < chars.len() && (chars[after_api] == '_'
                    || chars[after_api] == '-') {
                    after_api + 1
                } else {
                    after_api
                };
                if key_start <= chars.len() && keyword_at(chars, key_start, kw_key) {
                    match_sep(chars, key_start + 3)
                } else {
                    Option::None
                }
            } else {
                Option::None
            }
        },
        RedactionClass::Secret => {
            if keyword_at(chars, i, kw_secret) {
                match_sep(chars, i + 6)
            } else {
                Option::None
            }
        },
        RedactionClass::Bearer => {
            if keyword_at(chars, i, kw_bearer) {
                let p = scan_ws(chars, i + 6);
                if p > i + 6 {
                    let e = scan_bearer(chars, p);
                    if e > p {
                        Option::Some((p, e))
                    } else {
                        Option::None
                    }
                } else {
                    Option::None
                }
            } else {
                Option::None
            }
        },
        RedactionClass::SkToken => {
            if total - i >= 3 && chars[i] == 's' && chars[i + 1] == 'k' && chars[i + 2]
                == '-' {
                let e = scan_sk(chars, i + 3);
                if e - (i + 3) >= 16 {
                    Option::Some((i + 3, e))
                } else {
                    Option::None
                }
            } else {
                Option::None
            }
        },
    }
}

fn run_pass(c: RedactionClass, text: &Vec<char>) -> (r: (Vec<char>, bool))
    ensures
        r.0@ == pass_from(c, text@, 0),
        r.1 == pass_matched(c, text@, 0),
{
    let kw_api = str_chars("api");
    let kw_key = str_chars("key");
    let kw_secret = str_chars("secret");
    let kw_bearer = str_chars("bearer");
    let mut out: Vec<char> = Vec::new();
    let mut matched = false;
    let mut i: usize = 0;
    while i < text.len()
        invariant
            i <= text@.len(),
            kw_api@ == "api"@,
            kw_key@ == "key"@,
            kw_secret@ == "secret"@,
            kw_bearer@ == "bearer"@,
            out@ + pass_from(c, text@, i as int) == pass_from(c, text@, 0),
            matched || pass_matched(c, text@, 0) == pass_matched(c, text@, i as int),
            matched ==> pass_matched(c, text@, 0),
        decreases text@.len() - i,
    {
        let m = match_class(c, text, i, &kw_api, &kw_key, &kw_secret, &kw_bearer);
        match m {
            Option::Some((keep_end, value_end_)) => {
                if i < keep_end {
                    let ghost pre = out@;
                    let mut k: usize = i;
                    while k < keep_end
                        invariant
                            i <= k <= keep_end,
                            keep_end <= text@.len(),
                            out@ == pre + text@.subrange(i as int, k as int),
                        decreases keep_end - k,
                    {
                        out.push(text[k]);
                        proof {
                            assert(out@ =~= pre + text@.subrange(i as int, k + 1 as int));
                        }
                        k = k + 1;
                    }
                    let red = str_chars("[REDACTED]");
                    let mut t: usize = 0;
                    let ghost pre2 = out@;
                    while t < red.len()
                        invariant
                            t <= red@.len(),
                            out@ == pre2 + red@.subrange(0, t as int),
                        decreases red@.len() - t,
                    {
                        out.push(red[t]);
                        proof {
                            assert(out@ =~= pre2 + red@.subrange(0, t + 1 as int));
                        }
                        t = t + 1;
                    }
                    matched = true;
                    proof {
                        assert(red@.subrange(0, red@.len() as int) =~= red@);
                        assert(out@ =~= pre + (text@.subrange(i as int, keep_end as int)
                            + "[REDACTED]"@));
                        assert(out@ + pass_from(c, text@, value_end_ as int) =~= pre + (
                        text@.subrange(i as int, keep_end as int) + "[REDACTED]"@ + pass_from(
                            c,
                            text@,
                            value_end_ as int,
                        )));
                    }
                    i = value_end_;
                } else {
                    out.push(text[i]);
                    proof {
                        assert(out@ + pass_from(c, text@, i + 1 as int) =~= (out@.drop_last()
                            + (seq![text@[i as int]] + pass_from(c, text@, i + 1 as int))));
                    }
                    i = i + 1;
                }
            },
            Option::None => {
                let ghost pre = out@;
                out.push(text[i]);
                proof {
                    assert(out@ + pass_from(c, text@, i + 1 as int) =~= (pre + (seq![
                        text@[i as int]
                    ] + pass_from(c, text@, i + 1 as int))));
                }
                i = i + 1;
            },
        }
    }
    (out, matched)
}

/// Scrub the four secret-shaped pattern classes from a text, reporting
/// which classes fired.
pub fn sanitize_text(input: &str) -> (r: (String, RedactionFlags))
    ensures
        r.0@ == spec_sanitized(input@),
        r.1 == spec_sanitize_flags(input@),
{
    let chars = str_chars(input);
    let (a, f_api) = run_pass(RedactionClass::ApiKey, &chars);
    let (b, f_secret) = run_pass(RedactionClass::Secret, &a);
    let (cc, f_bearer) = run_pass(RedactionClass::Bearer, &b);
    let (d, f_sk) = run_pass(RedactionClass::SkToken, &cc);
    let flags = RedactionFlags {
        api_key: f_api,
        secret: f_secret,
        bearer: f_bearer,
        sk_token: f_sk,
    };
    (chars_to_string(&d), flags)
}

} // verus!
