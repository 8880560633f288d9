//! Log levels and the masking of secrets in log lines.
//!
//! A secret is the value that follows a sensitive field name and its `:` or `=`
//! separator. Field names are matched without regard to case (ASCII letters, and the
//! Kelvin sign as `k`), character by character; a value is a quoted string, or runs to
//! the next delimiter.
use vstd::prelude::*;
use crate::text::{ascii_lower, ascii_lower_char, chars_of, is_ws, is_ws_char, owned, str_eq, text_of};

verus! {

broadcast use vstd::std_specs::vec::group_vec_axioms;

/// Log verbosity, from least to most verbose.
#[derive(Clone, Copy, PartialEq, Eq, PartialOrd, Ord, Debug, Structural)]
pub enum LogLevel {
    Error,
    Warn,
    Info,
    Debug,
}

pub open spec fn log_level_for(name: Seq<char>) -> LogLevel {
    let n = crate::text::ascii_lower_seq(name);
    if n == "error"@ {
        LogLevel::Error
    } else if n == "warn"@ {
        LogLevel::Warn
    } else if n == "debug"@ {
        LogLevel::Debug
    } else {
        LogLevel::Info
    }
}

/// The level a configured name selects, ignoring ASCII case; anything else is `Info`.
pub fn log_level_from_name(name: &str) -> (r: LogLevel)
    ensures
        r == log_level_for(name@),
{
    let lower = crate::text::to_ascii_lower(name);
    if str_eq(lower.as_str(), "error") {
        LogLevel::Error
    } else if str_eq(lower.as_str(), "warn") {
        LogLevel::Warn
    } else if str_eq(lower.as_str(), "debug") {
        LogLevel::Debug
    } else {
        LogLevel::Info
    }
}

/// The field names whose values are always masked.
pub open spec fn builtin_patterns() -> Seq<Seq<char>> {
    seq![
        "api_key"@,
        "secret"@,
        "passphrase"@,
        "password"@,
        "apikey"@,
        "api_secret"@,
        "token"@,
        "jwt"@,
        "bearer"@,
        "authorization"@,
        "private_key"@,
        "access_key"@,
        "signing_key"@,
        "credential"@,
    ]
}

/// A character as field names are compared: ASCII letters in lower case, and the Kelvin
/// sign, whose lower case is the letter `k`. No other character lower-cases to an ASCII
/// letter on its own.
pub open spec fn fold_char(c: char) -> char {
    if c == '\u{212A}' {
        'k'
    } else {
        ascii_lower(c)
    }
}

/// A text with each character folded.
pub open spec fn fold_seq(s: Seq<char>) -> Seq<char> {
    s.map_values(|c: char| fold_char(c))
}

fn fold_char_exec(c: char) -> (r: char)
    ensures
        r == fold_char(c),
{
    if c == '\u{212A}' {
        'k'
    } else {
        ascii_lower_char(c)
    }
}

/// `p` occurs at `i` of `t` once `t` is folded.
pub open spec fn matches_at(t: Seq<char>, p: Seq<char>, i: int) -> bool {
    &&& 0 <= i
    &&& i + p.len() <= t.len()
    &&& forall|k: int| 0 <= k < p.len() ==> fold_char(#[trigger] t[i + k]) == p[k]
}

/// The first position from `s` on where `p` occurs.
pub open spec fn first_match_from(t: Seq<char>, p: Seq<char>, s: int) -> Option<int>
    decreases t.len() - s,
{
    if s < 0 || s + p.len() > t.len() {
        None
    } else if matches_at(t, p, s) {
        Some(s)
    } else {
        first_match_from(t, p, s + 1)
    }
}

/// The first position from `s` on whose character satisfies `f`.
pub open spec fn first_char_from(t: Seq<char>, s: int, f: spec_fn(char) -> bool) -> Option<int>
    decreases t.len() - s,
{
    if s < 0 || s >= t.len() {
        None
    } else if f(t[s]) {
        Some(s)
    } else {
        first_char_from(t, s + 1, f)
    }
}

pub open spec fn is_separator(c: char) -> bool {
    c == ':' || c == '='
}

/// Where an authorization value ends.
pub open spec fn ends_authorization(c: char) -> bool {
    c == '\n' || c == ',' || c == '}' || c == ']' || c == ')'
}

/// Where an unquoted value ends.
pub open spec fn ends_value(c: char) -> bool {
    c == ',' || c == ' ' || c == '\n' || c == '}' || c == ']' || c == ')'
}

/// Number of whitespace characters from `s` on.
pub open spec fn ws_run_from(t: Seq<char>, s: int) -> nat
    decreases t.len() - s,
{
    if 0 <= s < t.len() && is_ws(t[s]) {
        1 + ws_run_from(t, s + 1)
    } else {
        0
    }
}

/// Length of the secret value at the start of `rest`: up to an authorization delimiter
/// for the authorization field; a whole quoted string, quotes included (the rest of the
/// text when it is not closed); else up to the next value delimiter.
pub open spec fn value_len(rest: Seq<char>, authorization: bool) -> int {
    if authorization {
        match first_char_from(rest, 0, authorization_end_pred()) {
            Some(i) => i,
            None => rest.len() as int,
        }
    } else if rest.len() > 0 && rest[0] == '"' {
        match first_char_from(rest, 1, quote_pred()) {
            Some(i) => i + 1,
            None => rest.len() as int,
        }
    } else {
        match first_char_from(rest, 0, value_end_pred()) {
            Some(i) => i,
            None => rest.len() as int,
        }
    }
}

pub open spec fn separator_pred() -> spec_fn(char) -> bool {
    |c: char| is_separator(c)
}

pub open spec fn authorization_end_pred() -> spec_fn(char) -> bool {
    |c: char| ends_authorization(c)
}

pub open spec fn quote_pred() -> spec_fn(char) -> bool {
    |c: char| c == '"'
}

pub open spec fn value_end_pred() -> spec_fn(char) -> bool {
    |c: char| ends_value(c)
}

pub open spec fn mask_seq() -> Seq<char> {
    seq!['*', '*', '*']
}

/// One search for field name `p` from position `s`: `None` when the search stops,
/// else the text after it and the position where the next search starts. A match
/// without a separator after it is skipped; otherwise the value after the separator
/// and any whitespace is replaced by `***`.
pub open spec fn mask_step(t: Seq<char>, p: Seq<char>, s: int) -> Option<(Seq<char>, int)> {
    if s >= t.len() {
        None
    } else {
        match first_match_from(t, p, s) {
            None => None,
            Some(pos) => match first_char_from(t, pos, separator_pred()) {
                None => Some((t, pos + p.len())),
                Some(q) => {
                    let vs = q + 1 + ws_run_from(t, q + 1);
                    let end = value_len(t.subrange(vs, t.len() as int), p == "authorization"@);
                    Some((t.subrange(0, vs) + mask_seq() + t.subrange(vs + end, t.len() as int), vs + 3))
                },
            },
        }
    }
}

/// How much text is left to search from `s`.
pub open spec fn gap(t: Seq<char>, s: int) -> nat {
    if s < t.len() {
        (t.len() - s) as nat
    } else {
        0
    }
}

/// Masks every value of field `p` in `t`, searching from `s`.
pub open spec fn mask_pattern(t: Seq<char>, p: Seq<char>, s: int) -> Seq<char>
    decreases gap(t, s),
{
    match mask_step(t, p, s) {
        None => t,
        Some((t2, s2)) => if gap(t2, s2) < gap(t, s) {
            mask_pattern(t2, p, s2)
        } else {
            t
        },
    }
}

/// The text with the values of all field names masked, one field name after another.
pub open spec fn sanitize_with(t: Seq<char>, patterns: Seq<Seq<char>>) -> Seq<char>
    decreases patterns.len(),
{
    if patterns.len() == 0 {
        t
    } else {
        mask_pattern(sanitize_with(t, patterns.drop_last()), patterns.last(), 0)
    }
}

pub open spec fn chars_of_patterns(ps: Seq<String>) -> Seq<Seq<char>> {
    ps.map_values(|s: String| s@)
}

proof fn lemma_first_char_bounds(t: Seq<char>, s: int, f: spec_fn(char) -> bool)
    requires
        s >= 0,
    ensures
        first_char_from(t, s, f) matches Some(i) ==> s <= i < t.len() && f(t[i]) && forall|k: int|
            s <= k < i ==> !f(#[trigger] t[k]),
        first_char_from(t, s, f) is None ==> forall|k: int| s <= k < t.len() && 0 <= k ==> !f(#[trigger] t[k]),
    decreases t.len() - s,
{
    if s < 0 || s >= t.len() {
    } else if f(t[s]) {
    } else {
        lemma_first_char_bounds(t, s + 1, f);
    }
}

proof fn lemma_first_match_bounds(t: Seq<char>, p: Seq<char>, s: int)
    requires
        s >= 0,
    ensures
        first_match_from(t, p, s) matches Some(i) ==> s <= i && i + p.len() <= t.len() && matches_at(t, p, i),
        first_match_from(t, p, s) is None ==> forall|k: int| s <= k ==> !matches_at(t, p, k),
    decreases t.len() - s,
{
    if s + p.len() > t.len() {
    } else if matches_at(t, p, s) {
    } else {
        lemma_first_match_bounds(t, p, s + 1);
    }
}

proof fn lemma_ws_run_bound(t: Seq<char>, s: int)
    requires
        0 <= s <= t.len(),
    ensures
        s + ws_run_from(t, s) <= t.len(),
    decreases t.len() - s,
{
    if s < t.len() && is_ws(t[s]) {
        lemma_ws_run_bound(t, s + 1);
    }
}

proof fn lemma_value_len_bound(rest: Seq<char>, authorization: bool)
    ensures
        0 <= value_len(rest, authorization) <= rest.len(),
{
    lemma_first_char_bounds(rest, 0, authorization_end_pred());
    lemma_first_char_bounds(rest, 1, quote_pred());
    lemma_first_char_bounds(rest, 0, value_end_pred());
}

/// Each step of a non-empty field name leaves less text to search.
proof fn lemma_mask_step_progress(t: Seq<char>, p: Seq<char>, s: int)
    requires
        p.len() >= 1,
        s >= 0,
    ensures
        mask_step(t, p, s) matches Some((t2, s2)) ==> gap(t2, s2) < gap(t, s) && s2 >= 0,
{
    if s < t.len() {
        lemma_first_match_bounds(t, p, s);
        if let Some(pos) = first_match_from(t, p, s) {
            lemma_first_char_bounds(t, pos, separator_pred());
            if let Some(q) = first_char_from(t, pos, separator_pred()) {
                lemma_ws_run_bound(t, q + 1);
                let vs = q + 1 + ws_run_from(t, q + 1);
                let rest = t.subrange(vs, t.len() as int);
                lemma_value_len_bound(rest, p == "authorization"@);
            }
        }
    }
}

fn matches_at_exec(t: &Vec<char>, p: &Vec<char>, i: usize) -> (r: bool)
    requires
        i + p@.len() <= t@.len(),
    ensures
        r == matches_at(t@, p@, i as int),
{
    let tl = t.len();
    let mut k: usize = 0;
    while k < p.len()
        invariant
            tl == t@.len(),
            i + p@.len() <= t@.len(),
            k <= p@.len(),
            forall|j: int| 0 <= j < k ==> fold_char(#[trigger] t@[i + j]) == p@[j],
        decreases p@.len() - k,
    {
        if fold_char_exec(t[i + k]) != p[k] {
            return false;
        }
        k += 1;
    }
    true
}

fn first_match_from_exec(t: &Vec<char>, p: &Vec<char>, s: usize) -> (r: Option<usize>)
    requires
        p@.len() >= 1,
    ensures
        match r {
            Some(i) => first_match_from(t@, p@, s as int) == Some(i as int),
            None => first_match_from(t@, p@, s as int) is None,
        },
{
    if p.len() > t.len() {
        return None;
    }
    let last = t.len() - p.len();
    if s > last {
        return None;
    }
    let mut i = s;
    while i <= last
        invariant
            last + p@.len() == t@.len(),
            t@.len() <= usize::MAX,
            p@.len() >= 1,
            s <= i,
            i <= last + 1,
            first_match_from(t@, p@, s as int) == first_match_from(t@, p@, i as int),
        decreases last + 1 - i,
    {
        if matches_at_exec(t, p, i) {
            return Some(i);
        }
        i += 1;
    }
    None
}

fn is_separator_exec(c: char) -> (r: bool)
    ensures
        r == is_separator(c),
{
    c == ':' || c == '='
}

fn first_separator_from(t: &Vec<char>, s: usize) -> (r: Option<usize>)
    ensures
        match r {
            Some(i) => first_char_from(t@, s as int, separator_pred()) == Some(i as int),
            None => first_char_from(t@, s as int, separator_pred()) is None,
        },
{
    let ghost f = separator_pred();
    let mut i = s;
    while i < t.len()
        invariant
            s <= i,
            f == separator_pred(),
            first_char_from(t@, s as int, f) == first_char_from(t@, i as int, f),
        decreases t@.len() - i,
    {
        if is_separator_exec(t[i]) {
            assert(f(t@[i as int]));
            return Some(i);
        }
        i += 1;
    }
    None
}

fn ws_run_exec(t: &Vec<char>, s: usize) -> (r: usize)
    requires
        s <= t@.len(),
    ensures
        r == ws_run_from(t@, s as int),
        s + r <= t@.len(),
{
    let mut i = s;
    while i < t.len() && is_ws_char(t[i])
        invariant
            s <= i <= t@.len(),
            ws_run_from(t@, s as int) == (i - s) + ws_run_from(t@, i as int),
        decreases t@.len() - i,
    {
        i += 1;
    }
    i - s
}

/// An unquoted value runs up to the first `,`, ` `, newline, `}`, `]` or `)`, or to the
/// end when there is none.
proof fn lemma_value_len_plain(rest: Seq<char>)
    ensures
        0 <= value_len(rest, false) <= rest.len(),
        !(rest.len() > 0 && rest[0] == '"') ==> {
            &&& forall|j: int|
                0 <= j < value_len(rest, false) ==> {
                    let c = #[trigger] rest[j];
                    c != ',' && c != ' ' && c != '\n' && c != '}' && c != ']' && c != ')'
                }
            &&& value_len(rest, false) < rest.len() ==> {
                let c = rest[value_len(rest, false)];
                c == ',' || c == ' ' || c == '\n' || c == '}' || c == ']' || c == ')'
            }
        },
{
    lemma_first_char_bounds(rest, 0, value_end_pred());
    lemma_first_char_bounds(rest, 1, quote_pred());
    if !(rest.len() > 0 && rest[0] == '"') {
        assert forall|j: int| 0 <= j < value_len(rest, false) implies !ends_value(#[trigger] rest[j]) by {
            assert(!value_end_pred()(rest[j]));
        }
        if value_len(rest, false) < rest.len() {
            assert(value_end_pred()(rest[value_len(rest, false)]));
        }
    }
}

/// Length of the secret value that starts at `vs`.
fn value_len_exec(t: &Vec<char>, vs: usize, authorization: bool) -> (r: usize)
    requires
        vs <= t@.len(),
    ensures
        r as int == value_len(t@.subrange(vs as int, t@.len() as int), authorization),
        vs + r <= t@.len(),
        !authorization && !(vs < t@.len() && t@[vs as int] == '"') ==> {
            &&& forall|j: int|
                vs <= j < vs + r ==> {
                    let c = #[trigger] t@[j];
                    c != ',' && c != ' ' && c != '\n' && c != '}' && c != ']' && c != ')'
                }
            &&& vs + r < t@.len() ==> {
                let c = t@[vs + r];
                c == ',' || c == ' ' || c == '\n' || c == '}' || c == ']' || c == ')'
            }
        },
{
    let r = value_len_count(t, vs, authorization);
    proof {
        let rest = t@.subrange(vs as int, t@.len() as int);
        lemma_value_len_plain(rest);
        lemma_value_len_bound(rest, authorization);
        assert forall|j: int| vs <= j < t@.len() implies #[trigger] t@[j] == rest[j - vs] by {}
    }
    r
}

fn value_len_count(t: &Vec<char>, vs: usize, authorization: bool) -> (r: usize)
    requires
        vs <= t@.len(),
    ensures
        r as int == value_len(t@.subrange(vs as int, t@.len() as int), authorization),
{
    let ghost rest = t@.subrange(vs as int, t@.len() as int);
    let n = t.len();
    if authorization {
        let ghost f = authorization_end_pred();
        let mut i = vs;
        while i < n
            invariant
                n == t@.len(),
                vs <= i <= n,
                rest == t@.subrange(vs as int, n as int),
                f == authorization_end_pred(),
                authorization,
                first_char_from(rest, 0, f) == first_char_from(rest, i - vs, f),
            decreases n - i,
        {
            let c = t[i];
            assert(rest[i - vs] == c);
            if c == '\n' || c == ',' || c == '}' || c == ']' || c == ')' {
                assert(f(c));
                assert(first_char_from(rest, (i - vs) as int, f) == Some((i - vs) as int));
                return i - vs;
            }
            i += 1;
        }
        n - vs
    } else if vs < n && t[vs] == '"' {
        let ghost f = quote_pred();
        assert(rest[0] == t@[vs as int]);
        let mut i = vs + 1;
        while i < n
            invariant
                n == t@.len(),
                vs + 1 <= i <= n,
                rest == t@.subrange(vs as int, n as int),
                f == quote_pred(),
                !authorization,
                rest.len() > 0 && rest[0] == '"',
                first_char_from(rest, 1, f) == first_char_from(rest, i - vs, f),
            decreases n - i,
        {
            let c = t[i];
            assert(rest[i - vs] == c);
            if c == '"' {
                assert(f(c));
                assert(first_char_from(rest, (i - vs) as int, f) == Some((i - vs) as int));
                return i - vs + 1;
            }
            i += 1;
        }
        n - vs
    } else {
        let ghost f = value_end_pred();
        if vs < n {
            assert(rest[0] == t@[vs as int]);
        }
        let mut i = vs;
        while i < n
            invariant
                n == t@.len(),
                vs <= i <= n,
                rest == t@.subrange(vs as int, n as int),
                f == value_end_pred(),
                !authorization,
                !(rest.len() > 0 && rest[0] == '"'),
                first_char_from(rest, 0, f) == first_char_from(rest, i - vs, f),
            decreases n - i,
        {
            let c = t[i];
            assert(rest[i - vs] == c);
            if c == ',' || c == ' ' || c == '\n' || c == '}' || c == ']' || c == ')' {
                assert(f(c));
                assert(first_char_from(rest, (i - vs) as int, f) == Some((i - vs) as int));
                return i - vs;
            }
            i += 1;
        }
        n - vs
    }
}

/// `t[..a] + "***" + t[b..]`.
fn splice_mask(t: &Vec<char>, a: usize, b: usize) -> (r: Vec<char>)
    requires
        a <= b <= t@.len(),
    ensures
        r@ == t@.subrange(0, a as int) + mask_seq() + t@.subrange(b as int, t@.len() as int),
{
    let mut out: Vec<char> = Vec::new();
    let mut i: usize = 0;
    while i < a
        invariant
            a <= b <= t@.len(),
            i <= a,
            out@ == t@.subrange(0, i as int),
        decreases a - i,
    {
        out.push(t[i]);
        assert(out@ =~= t@.subrange(0, i + 1));
        i += 1;
    }
    out.push('*');
    out.push('*');
    out.push('*');
    let ghost head = out@;
    assert(head =~= t@.subrange(0, a as int) + mask_seq());
    let mut j = b;
    while j < t.len()
        invariant
            b <= j <= t@.len(),
            out@ == head + t@.subrange(b as int, j as int),
        decreases t@.len() - j,
    {
        out.push(t[j]);
        assert(out@ =~= head + t@.subrange(b as int, j + 1));
        j += 1;
    }
    out
}

/// Masks the values of one field name, searching from the start.
fn mask_pattern_exec(text: Vec<char>, p: &Vec<char>, authorization: bool) -> (r: Vec<char>)
    requires
        p@.len() >= 1,
        authorization == (p@ == "authorization"@),
    ensures
        r@ == mask_pattern(text@, p@, 0),
{
    let mut t = text;
    let mut s: usize = 0;
    loop
        invariant
            p@.len() >= 1,
            authorization == (p@ == "authorization"@),
            mask_pattern(t@, p@, s as int) == mask_pattern(text@, p@, 0),
        decreases gap(t@, s as int),
    {
        proof {
            lemma_mask_step_progress(t@, p@, s as int);
        }
        if s >= t.len() {
            return t;
        }
        let found = first_match_from_exec(&t, p, s);
        match found {
            None => {
                return t;
            },
            Some(pos) => {
                proof {
                    lemma_first_match_bounds(t@, p@, s as int);
                }
                match first_separator_from(&t, pos) {
                    None => {
                        s = pos + p.len();
                    },
                    Some(q) => {
                        proof {
                            lemma_first_char_bounds(t@, pos as int, separator_pred());
                        }
                        let after = q + 1;
                        let w = ws_run_exec(&t, after);
                        let vs = after + w;
                        let end = value_len_exec(&t, vs, authorization);
                        proof {
                            lemma_value_len_bound(t@.subrange(vs as int, t@.len() as int), authorization);
                        }
                        let next = splice_mask(&t, vs, vs + end);
                        assert(vs + 3 <= next@.len());
                        let _next_len = next.len();
                        t = next;
                        s = vs + 3;
                    },
                }
            },
        }
    }
}

/// Masks the values of every field name in `patterns`, one after another.
pub fn sanitize_secrets_with(input: &str, patterns: &Vec<String>) -> (r: String)
    requires
        forall|i: int| 0 <= i < patterns@.len() ==> (#[trigger] patterns@[i])@.len() >= 1,
    ensures
        r@ == sanitize_with(input@, chars_of_patterns(patterns@)),
{
    let mut t = chars_of(input);
    let mut i: usize = 0;
    while i < patterns.len()
        invariant
            i <= patterns@.len(),
            forall|j: int| 0 <= j < patterns@.len() ==> (#[trigger] patterns@[j])@.len() >= 1,
            t@ == sanitize_with(input@, chars_of_patterns(patterns@.subrange(0, i as int))),
        decreases patterns@.len() - i,
    {
        let p = chars_of(patterns[i].as_str());
        let authorization = str_eq(patterns[i].as_str(), "authorization");
        proof {
            let ps = chars_of_patterns(patterns@.subrange(0, i + 1));
            assert(ps.drop_last() =~= chars_of_patterns(patterns@.subrange(0, i as int)));
            assert(ps.last() == patterns@[i as int]@);
        }
        t = mask_pattern_exec(t, &p, authorization);
        i += 1;
    }
    assert(patterns@.subrange(0, patterns@.len() as int) =~= patterns@);
    text_of(&t)
}

/// The built-in field names, in the order they are applied.
pub fn builtin_pattern_list() -> (r: Vec<String>)
    ensures
        chars_of_patterns(r@) == builtin_patterns(),
        forall|i: int| 0 <= i < r@.len() ==> (#[trigger] r@[i])@.len() >= 1,
{
    let mut v: Vec<String> = Vec::new();
    v.push(owned("api_key"));
    v.push(owned("secret"));
    v.push(owned("passphrase"));
    v.push(owned("password"));
    v.push(owned("apikey"));
    v.push(owned("api_secret"));
    v.push(owned("token"));
    v.push(owned("jwt"));
    v.push(owned("bearer"));
    v.push(owned("authorization"));
    v.push(owned("private_key"));
    v.push(owned("access_key"));
    v.push(owned("signing_key"));
    v.push(owned("credential"));
    proof {
        reveal_strlit("api_key");
        reveal_strlit("secret");
        reveal_strlit("passphrase");
        reveal_strlit("password");
        reveal_strlit("apikey");
        reveal_strlit("api_secret");
        reveal_strlit("token");
        reveal_strlit("jwt");
        reveal_strlit("bearer");
        reveal_strlit("authorization");
        reveal_strlit("private_key");
        reveal_strlit("access_key");
        reveal_strlit("signing_key");
        reveal_strlit("credential");
    }
    assert(chars_of_patterns(v@) =~= builtin_patterns());
    v
}

/// Masks the values of the built-in field names in `input`.
pub fn sanitize_secrets(input: &str) -> (r: String)
    ensures
        r@ == sanitize_with(input@, builtin_patterns()),
{
    let patterns = builtin_pattern_list();
    sanitize_secrets_with(input, &patterns)
}

proof fn lemma_no_match_from(t: Seq<char>, p: Seq<char>, s: int)
    requires
        s >= 0,
        forall|k: int| !matches_at(t, p, k),
    ensures
        first_match_from(t, p, s) is None,
    decreases t.len() - s,
{
    if s + p.len() <= t.len() {
        assert(!matches_at(t, p, s));
        lemma_no_match_from(t, p, s + 1);
    }
}

/// Text in which none of the field names occurs (ignoring case) comes back
/// unchanged.
pub proof fn lemma_sanitize_keeps_text_without_field_names(t: Seq<char>, patterns: Seq<Seq<char>>)
    requires
        forall|j: int, k: int| 0 <= j < patterns.len() ==> !#[trigger] matches_at(t, patterns[j], k),
    ensures
        sanitize_with(t, patterns) == t,
    decreases patterns.len(),
{
    if patterns.len() > 0 {
        let init = patterns.drop_last();
        assert forall|j: int, k: int| 0 <= j < init.len() implies !#[trigger] matches_at(t, init[j], k) by {
            assert(init[j] == patterns[j]);
        }
        lemma_sanitize_keeps_text_without_field_names(t, init);
        let p = patterns.last();
        assert forall|k: int| !matches_at(t, p, k) by {
            assert(p == patterns[patterns.len() - 1]);
        }
        lemma_no_match_from(t, p, 0);
    }
}


/// Every occurrence of field name `p` in `t` from `s` on has no separator after it.
pub open spec fn no_separator_after_matches(t: Seq<char>, p: Seq<char>) -> bool {
    forall|i: int, k: int| #[trigger] matches_at(t, p, i) && i <= k < t.len() ==> !is_separator(#[trigger] t[k])
}

proof fn lemma_mask_pattern_keeps(t: Seq<char>, p: Seq<char>, s: int)
    requires
        p.len() >= 1,
        s >= 0,
        no_separator_after_matches(t, p),
    ensures
        mask_pattern(t, p, s) == t,
    decreases gap(t, s),
{
    lemma_mask_step_progress(t, p, s);
    if s < t.len() {
        lemma_first_match_bounds(t, p, s);
        if let Some(pos) = first_match_from(t, p, s) {
            lemma_first_char_bounds(t, pos, separator_pred());
            if let Some(q) = first_char_from(t, pos, separator_pred()) {
                assert(is_separator(t[q]));
                assert(false);
            }
            lemma_mask_pattern_keeps(t, p, pos + p.len());
        }
    }
}

/// Text in which no occurrence of a field name (ignoring case) is followed, then
/// or later, by `:` or `=` comes back unchanged.
pub proof fn lemma_sanitize_keeps_text_without_separated_field_names(t: Seq<char>, patterns: Seq<Seq<char>>)
    requires
        forall|j: int| 0 <= j < patterns.len() ==> (#[trigger] patterns[j]).len() >= 1,
        forall|j: int| 0 <= j < patterns.len() ==> no_separator_after_matches(t, #[trigger] patterns[j]),
    ensures
        sanitize_with(t, patterns) == t,
    decreases patterns.len(),
{
    if patterns.len() > 0 {
        let init = patterns.drop_last();
        assert forall|j: int| 0 <= j < init.len() implies (#[trigger] init[j]).len() >= 1 && no_separator_after_matches(t, init[j]) by {
            assert(init[j] == patterns[j]);
        }
        lemma_sanitize_keeps_text_without_separated_field_names(t, init);
        let p = patterns.last();
        assert(p == patterns[patterns.len() - 1]);
        lemma_mask_pattern_keeps(t, p, 0);
    }
}


/// A character a field name is made of: a lower-case ASCII letter or `_`.
pub open spec fn field_name_char(c: char) -> bool {
    ('a' <= c && c <= 'z') || c == '_'
}

/// A non-empty field name of lower-case ASCII letters and `_`.
pub open spec fn field_name_like(p: Seq<char>) -> bool {
    p.len() >= 1 && forall|i: int| 0 <= i < p.len() ==> field_name_char(#[trigger] p[i])
}

/// A value that is masked whole.
pub open spec fn plain_value(w: Seq<char>) -> bool {
    w.len() >= 1 && forall|i: int| 0 <= i < w.len() ==> value_char(#[trigger] w[i])
}

/// A character of a value that is masked whole: anything but a separator (`:`, `=`),
/// whitespace, a delimiter (`,`, `}`, `]`, `)`) or a quote.
pub open spec fn value_char(c: char) -> bool {
    &&& c != ':' && c != '=' && c != ',' && c != ' ' && c != '\n' && c != '}' && c != ']' && c != ')' && c != '"'
    &&& !is_ws(c)
}

/// The separators the masking law speaks of: `=` and `: `.
pub open spec fn plain_separator(sep: Seq<char>) -> bool {
    sep == seq!['='] || sep == seq![':', ' ']
}

proof fn lemma_builtin_field_names()
    ensures
        forall|j: int| 0 <= j < builtin_patterns().len() ==> field_name_like(#[trigger] builtin_patterns()[j]),
{
    reveal_strlit("api_key");
    reveal_strlit("secret");
    reveal_strlit("passphrase");
    reveal_strlit("password");
    reveal_strlit("apikey");
    reveal_strlit("api_secret");
    reveal_strlit("token");
    reveal_strlit("jwt");
    reveal_strlit("bearer");
    reveal_strlit("authorization");
    reveal_strlit("private_key");
    reveal_strlit("access_key");
    reveal_strlit("signing_key");
    reveal_strlit("credential");
}

proof fn lemma_first_match_min(t: Seq<char>, p: Seq<char>, s: int, i: int)
    requires
        0 <= s <= i,
        matches_at(t, p, i),
    ensures
        first_match_from(t, p, s) matches Some(pos) && s <= pos <= i && matches_at(t, p, pos),
    decreases i - s,
{
    if !matches_at(t, p, s) {
        lemma_first_match_min(t, p, s + 1, i);
    }
}

/// In `K + sep + w`, a field name occurs within `K` or within `w`, never across the
/// separator.
proof fn lemma_match_location(key: Seq<char>, sep: Seq<char>, w: Seq<char>, p: Seq<char>, i: int)
    requires
        field_name_like(p),
        plain_separator(sep),
        matches_at(key + sep + w, p, i),
    ensures
        i + p.len() <= key.len() || i >= key.len() + sep.len(),
{
    let u = key + sep + w;
    let n = key.len() as int;
    let m = sep.len() as int;
    if i < n + m && i + p.len() > n {
        let j = if i >= n { i } else { n };
        let k = j - i;
        assert(fold_char(u[i + k]) == p[k]);
        assert(u[j] == sep[j - n]);
        assert(field_name_char(p[k]));
    }
}

proof fn lemma_ws_run_one(u: Seq<char>, x: int)
    requires
        0 <= x < u.len(),
        !is_ws(u[x]),
    ensures
        ws_run_from(u, x) == 0,
{
}

/// One field name over `K + sep + w`: when it occurs in `K`, the value `w` becomes
/// `***`; otherwise the text is unchanged.
proof fn lemma_mask_one_field(key: Seq<char>, sep: Seq<char>, w: Seq<char>, p: Seq<char>)
    requires
        field_name_like(p),
        plain_separator(sep),
        plain_value(w),
        forall|i: int| 0 <= i < key.len() ==> field_name_char(#[trigger] fold_char(key[i])),
    ensures
        (exists|i: int| 0 <= i && i + p.len() <= key.len() && #[trigger] matches_at(key + sep + w, p, i)) ==> mask_pattern(
            key + sep + w,
            p,
            0,
        ) == key + sep + mask_seq(),
        !(exists|i: int| 0 <= i && i + p.len() <= key.len() && #[trigger] matches_at(key + sep + w, p, i)) ==> mask_pattern(
            key + sep + w,
            p,
            0,
        ) == key + sep + w,
{
    let u = key + sep + w;
    let n = key.len() as int;
    let m = sep.len() as int;
    assert forall|x: int| 0 <= x < n implies !is_separator(#[trigger] u[x]) && !is_ws(u[x]) by {
        assert(u[x] == key[x]);
        assert(field_name_char(fold_char(key[x])));
    }
    assert forall|x: int| n + m <= x < u.len() implies !is_separator(#[trigger] u[x]) && !is_ws(u[x])
        && !ends_value(u[x]) && !ends_authorization(u[x]) && u[x] != '"' by {
        assert(u[x] == w[x - n - m]);
    }
    if exists|i: int| 0 <= i && i + p.len() <= key.len() && #[trigger] matches_at(u, p, i) {
        let i0 = choose|i: int| 0 <= i && i + p.len() <= key.len() && #[trigger] matches_at(u, p, i);
        lemma_first_match_min(u, p, 0, i0);
        let pos = first_match_from(u, p, 0).unwrap();
        lemma_match_location(key, sep, w, p, pos);
        assert(pos + p.len() <= n);
        lemma_first_char_bounds(u, pos, separator_pred());
        assert(u[n] == sep[0]);
        assert(is_separator(u[n]));
        let q = first_char_from(u, pos, separator_pred()).unwrap();
        assert(q == n) by {
            if q < n {
                assert(!is_separator(u[q]));
            }
        }
        if sep == seq!['='] {
            assert(u[n + 1] == w[0]);
            lemma_ws_run_one(u, n + 1);
        } else {
            assert(u[n + 1] == ' ');
            assert(is_ws(u[n + 1]));
            assert(u[n + 2] == w[0]);
            lemma_ws_run_one(u, n + 2);
            assert(ws_run_from(u, n + 1) == 1);
        }
        let vs = n + m;
        assert(vs == q + 1 + ws_run_from(u, q + 1));
        let rest = u.subrange(vs, u.len() as int);
        assert(rest =~= w);
        lemma_first_char_bounds(rest, 0, authorization_end_pred());
        lemma_first_char_bounds(rest, 1, quote_pred());
        lemma_first_char_bounds(rest, 0, value_end_pred());
        if let Some(z) = first_char_from(rest, 0, authorization_end_pred()) {
            assert(rest[z] == u[vs + z]);
        }
        if let Some(z) = first_char_from(rest, 0, value_end_pred()) {
            assert(rest[z] == u[vs + z]);
        }
        assert(rest[0] == u[vs]);
        assert(value_len(rest, p == "authorization"@) == w.len());
        let t2 = u.subrange(0, vs) + mask_seq() + u.subrange(vs + w.len(), u.len() as int);
        assert(t2 =~= key + sep + mask_seq());
        assert(mask_step(u, p, 0) == Some((t2, vs + 3)));
        assert(gap(t2, vs + 3) == 0);
        assert(mask_step(t2, p, vs + 3).is_none());
        assert(mask_pattern(t2, p, vs + 3) == t2);
    } else {
        assert forall|i: int, k: int| #[trigger] matches_at(u, p, i) && i <= k < u.len() implies !is_separator(
            #[trigger] u[k],
        ) by {
            lemma_match_location(key, sep, w, p, i);
        }
        lemma_mask_pattern_keeps(u, p, 0);
    }
}

proof fn lemma_mask_fields(key: Seq<char>, sep: Seq<char>, v: Seq<char>, patterns: Seq<Seq<char>>)
    requires
        forall|j: int| 0 <= j < patterns.len() ==> field_name_like(#[trigger] patterns[j]),
        plain_separator(sep),
        plain_value(v),
        forall|i: int| 0 <= i < key.len() ==> field_name_char(#[trigger] fold_char(key[i])),
    ensures
        sanitize_with(key + sep + v, patterns) == key + sep + v || sanitize_with(key + sep + v, patterns) == key + sep
            + mask_seq(),
        patterns.contains(fold_seq(key)) ==> sanitize_with(key + sep + v, patterns) == key + sep + mask_seq(),
    decreases patterns.len(),
{
    if patterns.len() > 0 {
        let init = patterns.drop_last();
        let p = patterns.last();
        assert(p == patterns[patterns.len() - 1]);
        assert forall|j: int| 0 <= j < init.len() implies field_name_like(#[trigger] init[j]) by {
            assert(init[j] == patterns[j]);
        }
        lemma_mask_fields(key, sep, v, init);
        let prev = sanitize_with(key + sep + v, init);
        let w = if prev == key + sep + v { v } else { mask_seq() };
        assert(prev == key + sep + w);
        assert(plain_value(mask_seq()));
        lemma_mask_one_field(key, sep, w, p);
        let k = fold_seq(key);
        if p == k {
            assert(matches_at(key + sep + w, p, 0)) by {
                assert forall|x: int| 0 <= x < p.len() implies fold_char(#[trigger] (key + sep + w)[0 + x]) == p[x] by {
                    assert((key + sep + w)[x] == key[x]);
                }
            }
        }
        if patterns.contains(k) && !init.contains(k) {
            let j = choose|j: int| 0 <= j < patterns.len() && patterns[j] == k;
            if j < init.len() {
                assert(init[j] == k);
            }
            assert(p == k);
        }
        if patterns.contains(k) && init.contains(k) {
            assert(prev == key + sep + mask_seq());
        }
    }
}

/// A built-in field name, written in any case and followed by `=` or `: ` and an
/// unquoted value, keeps its name and separator as written and has its whole value
/// replaced by `***`: the value runs to the end, since it holds none of the delimiters
/// `,`, ` `, newline, `}`, `]`, `)` (nor whitespace, `:`, `=` or `"`); any other
/// character, `-` and `.` among them, is part of the secret.
pub proof fn lemma_sanitize_masks_builtin_field(key: Seq<char>, sep: Seq<char>, v: Seq<char>)
    requires
        builtin_patterns().contains(fold_seq(key)),
        plain_separator(sep),
        v.len() >= 1,
        forall|i: int|
            0 <= i < v.len() ==> (#[trigger] v[i] != ',' && v[i] != ' ' && v[i] != '\n' && v[i] != '}' && v[i]
                != ']' && v[i] != ')' && v[i] != '"' && v[i] != ':' && v[i] != '=' && !is_ws(v[i])),
    ensures
        sanitize_with(key + sep + v, builtin_patterns()) == key + sep + mask_seq(),
        sanitize_with(key + sep + v, builtin_patterns()) == key + sep + "***"@,
{
    reveal_strlit("***");
    lemma_builtin_field_names();
    let k = fold_seq(key);
    let j = choose|j: int| 0 <= j < builtin_patterns().len() && builtin_patterns()[j] == k;
    assert(field_name_like(builtin_patterns()[j]));
    assert forall|i: int| 0 <= i < key.len() implies field_name_char(#[trigger] fold_char(key[i])) by {
        assert(k[i] == fold_char(key[i]));
    }
    assert(plain_value(v));
    lemma_mask_fields(key, sep, v, builtin_patterns());
}

} // verus!
