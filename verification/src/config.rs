//! What the dashboard needs to know before it starts, and the text it is
//! read from: lines of `key = value`.

use crate::text::push_char;
use vstd::prelude::*;
use vstd::string::StrSliceExecFns;
use vstd::string::StringExecFns;

verus! {

/// The organisation whose runners are managed, and the token that
/// authorises the requests.
#[derive(Debug, Clone)]
pub struct Config {
    pub organization: String,
    pub token: String,
}

/// What is compared of a configuration.
pub struct ConfigView {
    pub organization: Seq<char>,
    pub token: Seq<char>,
}

impl View for Config {
    type V = ConfigView;

    open spec fn view(&self) -> ConfigView {
        ConfigView { organization: self.organization@, token: self.token@ }
    }
}

/// Whether `char::is_whitespace` holds of `c`: whether the character has
/// the Unicode property White_Space.
pub uninterp spec fn is_space(c: char) -> bool;

/// Calls `char::is_whitespace`.
#[verifier::external_body]
fn is_whitespace(c: char) -> (space: bool)
    ensures
        space == is_space(c),
{
    c.is_whitespace()
}

/// The position of the first `c` in `s`; the length of `s` where it holds
/// none.
pub open spec fn position(s: Seq<char>, c: char) -> int
    decreases s.len(),
{
    if s.len() == 0 || s[0] == c {
        0
    } else {
        1 + position(s.drop_first(), c)
    }
}

/// The lines of a text: the runs between line feeds. A text with `n` line
/// feeds has `n + 1` lines, empty ones included.
pub open spec fn lines(s: Seq<char>) -> Seq<Seq<char>>
    decreases s.len(),
{
    let p = position(s, '\n');
    if 0 <= p < s.len() {
        seq![s.take(p)] + lines(s.skip(p + 1))
    } else {
        seq![s]
    }
}

/// A text without the white space at its start.
pub open spec fn trim_start(s: Seq<char>) -> Seq<char>
    decreases s.len(),
{
    if s.len() > 0 && is_space(s[0]) {
        trim_start(s.drop_first())
    } else {
        s
    }
}

/// A text without the white space at its end.
pub open spec fn trim_end(s: Seq<char>) -> Seq<char>
    decreases s.len(),
{
    if s.len() > 0 && is_space(s.last()) {
        trim_end(s.drop_last())
    } else {
        s
    }
}

/// A text without the white space at its start and at its end.
pub open spec fn trimmed(s: Seq<char>) -> Seq<char> {
    trim_end(trim_start(s))
}

/// The key and the value that a line sets: what stands before and behind
/// its first `=`, both trimmed. A line without `=` sets nothing.
pub open spec fn setting(line: Seq<char>) -> Option<(Seq<char>, Seq<char>)> {
    let p = position(line, '=');
    if 0 <= p < line.len() {
        Some((trimmed(line.take(p)), trimmed(line.skip(p + 1))))
    } else {
        None
    }
}

/// The value that the last of `lines` to set `key` gives it.
pub open spec fn last_value(lines: Seq<Seq<char>>, key: Seq<char>) -> Option<Seq<char>>
    decreases lines.len(),
{
    if lines.len() == 0 {
        None
    } else {
        match setting(lines.last()) {
            Some((k, v)) => if k == key {
                Some(v)
            } else {
                last_value(lines.drop_last(), key)
            },
            None => last_value(lines.drop_last(), key),
        }
    }
}

/// The configuration that a text gives: the last values that its lines set
/// for `organization` and for `token`. A text that leaves one of them unset
/// gives none.
pub open spec fn parsed(contents: Seq<char>) -> Option<ConfigView> {
    match (last_value(lines(contents), "organization"@), last_value(lines(contents), "token"@)) {
        (Some(organization), Some(token)) => Some(ConfigView { organization, token }),
        _ => None,
    }
}

proof fn lemma_position_bounds(s: Seq<char>, c: char)
    ensures
        0 <= position(s, c) <= s.len(),
        forall|k: int| 0 <= k < position(s, c) ==> s[k] != c,
        position(s, c) < s.len() ==> s[position(s, c)] == c,
    decreases s.len(),
{
    if s.len() > 0 && s[0] != c {
        lemma_position_bounds(s.drop_first(), c);
        assert forall|k: int| 0 <= k < position(s, c) implies s[k] != c by {
            if k > 0 {
                assert(s.drop_first()[k - 1] == s[k]);
            }
        }
    }
}

proof fn lemma_position_is_first(s: Seq<char>, c: char, p: int)
    requires
        0 <= p <= s.len(),
        forall|k: int| 0 <= k < p ==> s[k] != c,
        p < s.len() ==> s[p] == c,
    ensures
        position(s, c) == p,
    decreases s.len(),
{
    if s.len() > 0 && s[0] != c {
        assert forall|k: int| 0 <= k < p - 1 implies s.drop_first()[k] != c by {
            assert(s.drop_first()[k] == s[k + 1]);
        }
        lemma_position_is_first(s.drop_first(), c, p - 1);
    }
}

/// The characters of a text.
fn chars_of(s: &str) -> (chars: Vec<char>)
    ensures
        chars@ == s@,
{
    let n = s.unicode_len();
    let mut chars: Vec<char> = Vec::new();
    let mut i: usize = 0;
    while i < n
        invariant
            n == s@.len(),
            i <= n,
            chars@ == s@.take(i as int),
        decreases n - i,
    {
        chars.push(s.get_char(i));
        assert(chars@ =~= s@.take(i + 1));
        i = i + 1;
    }
    assert(s@.take(n as int) =~= s@);
    chars
}

/// The position of the first `c` in `s` from `from` on; the length of `s`
/// where none follows.
fn find(s: &Vec<char>, from: usize, c: char) -> (p: usize)
    requires
        from <= s.len(),
    ensures
        from <= p <= s.len(),
        p == from + position(s@.skip(from as int), c),
{
    let mut p = from;
    while p < s.len() && s[p] != c
        invariant
            from <= p <= s.len(),
            forall|k: int| from <= k < p ==> s@[k] != c,
        decreases s.len() - p,
    {
        p = p + 1;
    }
    proof {
        lemma_position_is_first(s@.skip(from as int), c, p - from);
    }
    p
}

/// The part of `s` from `from` up to `to`, trimmed, as a string.
fn trimmed_part(s: &Vec<char>, from: usize, to: usize) -> (part: String)
    requires
        from <= to <= s.len(),
    ensures
        part@ == trimmed(s@.subrange(from as int, to as int)),
{
    let ghost whole = s@.subrange(from as int, to as int);
    let mut a = from;
    while a < to && is_whitespace(s[a])
        invariant
            from <= a <= to <= s.len(),
            trim_start(whole) == trim_start(s@.subrange(a as int, to as int)),
            whole == s@.subrange(from as int, to as int),
        decreases to - a,
    {
        assert(s@.subrange(a as int, to as int).drop_first() =~= s@.subrange(a + 1, to as int));
        a = a + 1;
    }
    let ghost rest = s@.subrange(a as int, to as int);
    assert(trim_start(whole) == rest);
    let mut b = to;
    while b > a && is_whitespace(s[b - 1])
        invariant
            a <= b <= to <= s.len(),
            trim_end(rest) == trim_end(s@.subrange(a as int, b as int)),
            rest == s@.subrange(a as int, to as int),
        decreases b - a,
    {
        assert(s@.subrange(a as int, b as int).drop_last() =~= s@.subrange(a as int, b - 1));
        b = b - 1;
    }
    assert(trim_end(rest) == s@.subrange(a as int, b as int));
    let mut part = String::new();
    let mut i = a;
    while i < b
        invariant
            a <= i <= b <= s.len(),
            part@ == s@.subrange(a as int, i as int),
        decreases b - i,
    {
        push_char(&mut part, s[i]);
        assert(part@ =~= s@.subrange(a as int, i + 1));
        i = i + 1;
    }
    part
}

/// The organisation and the token that the text of a configuration file
/// gives. Each line sets the key before its first `=` to the value behind
/// it, both without the white space around them; a line without `=` sets
/// nothing, and a later line overrides an earlier one. Without a line for
/// `organization` or without one for `token` there is no configuration.
pub fn parse_dot_env(contents: &str) -> (config: Option<Config>)
    ensures
        match config {
            Some(c) => parsed(contents@) == Some(c@),
            None => parsed(contents@).is_none(),
        },
{
    let chars = chars_of(contents);
    let mut organization: Option<String> = None;
    let mut token: Option<String> = None;
    let mut start: usize = 0;
    let mut done = false;
    let ghost mut seen: Seq<Seq<char>> = Seq::empty();
    proof {
        assert(chars@.skip(0) =~= chars@);
        assert(seen + lines(chars@) =~= lines(chars@));
        reveal_strlit("organization");
        reveal_strlit("token");
        assert("organization"@.len() != "token"@.len());
    }
    while !done
        invariant
            start <= chars.len(),
            chars@ == contents@,
            !done ==> lines(chars@) == seen + lines(chars@.skip(start as int)),
            done ==> lines(chars@) == seen,
            crate::runners::opt_text(organization) == last_value(seen, "organization"@),
            crate::runners::opt_text(token) == last_value(seen, "token"@),
            "organization"@ != "token"@,
        decreases chars.len() - start + (if done { 0int } else { 1int }),
    {
        let end = find(&chars, start, '\n');
        let ghost rest = chars@.skip(start as int);
        let ghost line = chars@.subrange(start as int, end as int);
        proof {
            lemma_position_bounds(rest, '\n');
            assert(rest.take(end - start) =~= line);
        }
        let eq = find(&chars, start, '=');
        proof {
            lemma_position_bounds(rest, '=');
            if eq < end {
                assert forall|k: int| 0 <= k < eq - start implies line[k] != '=' by {
                    assert(line[k] == rest[k]);
                }
                assert(line[eq - start] == rest[eq - start]);
                lemma_position_is_first(line, '=', eq - start);
                assert(line.take(eq - start) =~= chars@.subrange(start as int, eq as int));
                assert(line.skip(eq - start + 1) =~= chars@.subrange(eq + 1, end as int));
            } else {
                assert forall|k: int| 0 <= k < line.len() implies line[k] != '=' by {
                    assert(line[k] == rest[k]);
                }
                lemma_position_is_first(line, '=', line.len() as int);
            }
        }
        if eq < end {
            let key = trimmed_part(&chars, start, eq);
            let value = trimmed_part(&chars, eq + 1, end);
            if crate::text::same_text(key.as_str(), "organization") {
                organization = Some(value);
            } else if crate::text::same_text(key.as_str(), "token") {
                token = Some(value);
            }
        }
        proof {
            assert(seen.push(line).drop_last() =~= seen);
            if end < chars.len() {
                assert(rest.skip(end - start + 1) =~= chars@.skip(end + 1));
                assert(seen + (seq![line] + lines(chars@.skip(end + 1))) =~= seen.push(line) + lines(
                    chars@.skip(end + 1),
                ));
            } else {
                assert(line =~= rest);
                assert(seen + seq![rest] =~= seen.push(line));
            }
            seen = seen.push(line);
        }
        if end < chars.len() {
            start = end + 1;
        } else {
            done = true;
        }
    }
    match (organization, token) {
        (Some(organization), Some(token)) => Some(Config { organization, token }),
        _ => None,
    }
}

/// The base address of the organisation's part of the remote interface.
pub open spec fn base_address(organization: Seq<char>) -> Seq<char> {
    "https://api.github.com/orgs/"@ + organization + "/"@
}

/// The authorisation that a token gives.
pub open spec fn bearer(token: Seq<char>) -> Seq<char> {
    "Bearer "@ + token
}

impl Config {
    /// The base address of all requests.
    pub fn api_base(&self) -> (base: String)
        ensures
            base@ == base_address(self.organization@),
    {
        let mut base = String::from_str("https://api.github.com/orgs/");
        base.append(self.organization.as_str());
        base.append("/");
        base
    }

    /// The value of the authorisation header of all requests.
    pub fn authorization(&self) -> (value: String)
        ensures
            value@ == bearer(self.token@),
    {
        let mut value = String::from_str("Bearer ");
        value.append(self.token.as_str());
        value
    }
}

} // verus!
