//! Login decisions: reading a login override given as `persona:password`
//! or as a bare access token.
use vstd::prelude::*;

verus! {

#[verifier::external_type_specification]
#[verifier::external_body]
pub struct ExRegex(regex::Regex);

/// Whether `regex::Regex::new` accepts a pattern.
pub uninterp spec fn regex_accepts(pattern: Seq<char>) -> bool;

/// The capture groups that `regex::Regex::captures` reports for a pattern
/// and a text: `None` where there is no match, else one entry per group,
/// `None` for a group that took no part in the match.
pub uninterp spec fn regex_capture_groups(pattern: Seq<char>, text: Seq<char>) -> Option<Seq<Option<Seq<char>>>>;

/// A compiled regular expression together with the pattern it was built from.
pub struct CompiledPattern {
    source: String,
    re: regex::Regex,
}

impl View for CompiledPattern {
    type V = Seq<char>;

    closed spec fn view(&self) -> Seq<char> {
        self.source@
    }
}

/// The text of each capture group.
pub open spec fn groups_view(groups: Option<Vec<Option<String>>>) -> Option<Seq<Option<Seq<char>>>> {
    match groups {
        Some(v) => Some(v@.map_values(|g: Option<String>| match g {
            Some(s) => Some(s@),
            None => None,
        })),
        None => None,
    }
}

/// The index of the last occurrence of `c` in `s`, or -1 where there is none.
pub open spec fn last_index_of(s: Seq<char>, c: char) -> int
    decreases s.len(),
{
    if s.len() == 0 {
        -1
    } else if s.last() == c {
        s.len() - 1
    } else {
        last_index_of(s.drop_last(), c)
    }
}

/// The capture groups of `^(.*):(.*)$` on `text`, as the regex syntax
/// documents them: `.` is any character but a newline, `^` and `$` are the
/// ends of the text and `*` is greedy, so a text without newline that holds
/// a colon matches whole, group 1 ending at its last colon; any other text
/// does not match.
pub open spec fn manual_login_captures(text: Seq<char>) -> Option<Seq<Option<Seq<char>>>> {
    if !text.contains('\n') && text.contains(':') {
        let k = last_index_of(text, ':');
        Some(seq![Some(text), Some(text.take(k)), Some(text.skip(k + 1))])
    } else {
        None
    }
}

/// Calls `regex::Regex::new`; `Some` exactly where the pattern is accepted,
/// and then carrying that pattern. The manual-login pattern is valid and
/// small, so it is accepted.
#[verifier::external_body]
fn compile_pattern(pattern: &str) -> (r: Option<CompiledPattern>)
    ensures
        r is Some <==> regex_accepts(pattern@),
        r matches Some(c) ==> c@ == pattern@,
        pattern@ == "^(.*):(.*)$"@ ==> r is Some,
{
    match regex::Regex::new(pattern) {
        Ok(re) => Some(CompiledPattern { source: pattern.to_string(), re }),
        Err(_) => None,
    }
}

/// Calls `regex::Regex::captures` and copies out the text of each group; the
/// result is the name `regex_capture_groups` of the pattern and the text, and
/// for the manual-login pattern it is `manual_login_captures` of the text.
#[verifier::external_body]
fn capture_groups(p: &CompiledPattern, text: &str) -> (r: Option<Vec<Option<String>>>)
    ensures
        groups_view(r) == regex_capture_groups(p@, text@),
        p@ == "^(.*):(.*)$"@ ==> groups_view(r) == manual_login_captures(text@),
{
    match p.re.captures(text) {
        Some(caps) => {
            let mut groups = Vec::new();
            for g in caps.iter() {
                groups.push(g.map(|m| m.as_str().to_string()));
            }
            Some(groups)
        },
        None => None,
    }
}

/// The pattern of a manual login, `persona:password`.
pub open spec fn manual_login_pattern() -> Seq<char> {
    "^(.*):(.*)$"@
}

/// How a login override is to be used.
#[derive(Debug)]
pub enum LoginOverride {
    /// Log in with a persona name and a password.
    Credentials { persona: String, password: String },
    /// Use the override as an access token.
    AccessToken(String),
}

/// Whether a capture result can be read: no match, or a match in which
/// groups 1 and 2 took part.
pub open spec fn captures_usable(groups: Option<Seq<Option<Seq<char>>>>) -> bool {
    match groups {
        Some(g) => g.len() >= 3 && g[1] is Some && g[2] is Some,
        None => true,
    }
}

/// The use of an override `text` whose manual-login captures are `groups`:
/// the two groups as persona and password where it matched, else the whole
/// text as an access token.
pub open spec fn spec_login_override(text: Seq<char>, groups: Option<Seq<Option<Seq<char>>>>, r: LoginOverride) -> bool {
    match groups {
        Some(g) => r matches LoginOverride::Credentials { persona, password } && persona@
            == g[1]->0 && password@ == g[2]->0,
        None => r matches LoginOverride::AccessToken(t) && t@ == text,
    }
}

/// Reads a login override from its manual-login captures.
pub fn login_override_from_captures(text: &str, captures: Option<Vec<Option<String>>>) -> (r: LoginOverride)
    requires
        captures_usable(groups_view(captures)),
    ensures
        spec_login_override(text@, groups_view(captures), r),
{
    match captures {
        Some(groups) => {
            assert(groups_view(Some(groups)).unwrap()[1] == match groups@[1] {
                Some(s) => Some(s@),
                None => None::<Seq<char>>,
            });
            assert(groups_view(Some(groups)).unwrap()[2] == match groups@[2] {
                Some(s) => Some(s@),
                None => None::<Seq<char>>,
            });
            let persona = match &groups[1] {
                Some(s) => s.clone(),
                None => String::new(),
            };
            let password = match &groups[2] {
                Some(s) => s.clone(),
                None => String::new(),
            };
            LoginOverride::Credentials { persona, password }
        },
        None => LoginOverride::AccessToken(text.to_owned()),
    }
}

/// Reads a login override: `persona:password` (split at the last colon, as
/// the manual-login pattern matches) gives credentials, anything else is an
/// access token. `None` where the pattern is refused by the regex engine or
/// a match lacks one of its two groups.
pub fn parse_login_override(text: &str) -> (r: Option<LoginOverride>)
    ensures
        !text@.contains('\n') && text@.contains(':') ==> (r matches Some(
            LoginOverride::Credentials { persona, password },
        ) && persona@ + seq![':'] + password@ == text@ && !password@.contains(':')),
        !(!text@.contains('\n') && text@.contains(':')) ==> (r matches Some(
            LoginOverride::AccessToken(t),
        ) && t@ == text@),
        r is None <==> !regex_accepts(manual_login_pattern()) || !captures_usable(
            regex_capture_groups(manual_login_pattern(), text@),
        ),
        r matches Some(o) ==> spec_login_override(
            text@,
            regex_capture_groups(manual_login_pattern(), text@),
            o,
        ),
{
    let pattern = compile_pattern("^(.*):(.*)$");
    proof {
        lemma_split_at_last_colon(text@);
    }
    match pattern {
        None => None,
        Some(p) => {
            let captures = capture_groups(&p, text);
            let usable = match &captures {
                None => true,
                Some(g) => g.len() >= 3 && g[1].is_some() && g[2].is_some(),
            };
            if usable {
                Some(login_override_from_captures(text, captures))
            } else {
                None
            }
        },
    }
}

proof fn lemma_last_index_of(s: Seq<char>, c: char)
    ensures
        -1 <= last_index_of(s, c) < s.len(),
        last_index_of(s, c) >= 0 ==> s[last_index_of(s, c)] == c,
        s.contains(c) ==> last_index_of(s, c) >= 0,
        forall|j: int| last_index_of(s, c) < j < s.len() ==> s[j] != c,
    decreases s.len(),
{
    if s.len() > 0 && s.last() != c {
        let t = s.drop_last();
        lemma_last_index_of(t, c);
        if s.contains(c) {
            let w = choose|w: int| 0 <= w < s.len() && s[w] == c;
            assert(t[w] == c);
        }
        assert forall|j: int| last_index_of(s, c) < j < s.len() implies s[j] != c by {
            if j < t.len() {
                assert(t[j] == s[j]);
            }
        }
    }
}

/// Cutting a text that holds a colon at its last colon: the part before,
/// a colon and the part after give the text back, and the part after holds
/// no colon.
pub proof fn lemma_split_at_last_colon(text: Seq<char>)
    ensures
        text.contains(':') ==> ({
            let k = last_index_of(text, ':');
            &&& 0 <= k < text.len()
            &&& text.take(k) + seq![':'] + text.skip(k + 1) == text
            &&& !text.skip(k + 1).contains(':')
        }),
{
    lemma_last_index_of(text, ':');
    if text.contains(':') {
        let k = last_index_of(text, ':');
        assert(text.take(k) + seq![':'] + text.skip(k + 1) =~= text);
        if text.skip(k + 1).contains(':') {
            let rest = text.skip(k + 1);
            let w = choose|w: int| 0 <= w < rest.len() && #[trigger] rest[w] == ':';
            assert(text[k + 1 + w] == ':');
        }
    }
}

/// Whether the login flow has to run: when no account is logged in, or
/// when an override was given.
pub fn needs_login(logged_in: bool, has_override: bool) -> (r: bool)
    ensures
        r == (!logged_in || has_override),
{
    !logged_in || has_override
}

/// The stored access token, or an empty string where there is none.
pub fn auth_token_or_empty(token: Option<String>) -> (r: String)
    ensures
        r@ == match token {
            Some(t) => t@,
            None => Seq::<char>::empty(),
        },
{
    match token {
        Some(t) => t,
        None => String::new(),
    }
}

} // verus!
