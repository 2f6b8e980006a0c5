use vstd::prelude::*;
use vstd::string::*;
use crate::error::ApiError;

verus! {

/// The escape of one character: `&`, `<`, `"` and `'` become entities, the
/// rest stay. `>` stays because markdown reads it as a quote.
pub open spec fn escape_char(c: char) -> Seq<char> {
    if c == '&' {
        seq!['&', 'a', 'm', 'p', ';']
    } else if c == '<' {
        seq!['&', 'l', 't', ';']
    } else if c == '"' {
        seq!['&', 'q', 'u', 'o', 't', ';']
    } else if c == '\'' {
        seq!['&', '#', 'x', '2', '7', ';']
    } else {
        seq![c]
    }
}

/// The text with every character escaped.
pub open spec fn sanitized(s: Seq<char>) -> Seq<char>
    decreases s.len(),
{
    if s.len() == 0 {
        Seq::<char>::empty()
    } else {
        sanitized(s.drop_last()) + escape_char(s.last())
    }
}

/// The entity that replaces a special character.
fn entity_for(c: char) -> (r: Option<&'static str>)
    ensures
        match r {
            Some(e) => e@ == escape_char(c) && (c == '&' || c == '<' || c == '"' || c == '\''),
            None => !(c == '&' || c == '<' || c == '"' || c == '\''),
        },
{
    proof {
        reveal_strlit("&amp;");
        reveal_strlit("&lt;");
        reveal_strlit("&quot;");
        reveal_strlit("&#x27;");
    }
    if c == '&' {
        Some("&amp;")
    } else if c == '<' {
        Some("&lt;")
    } else if c == '"' {
        Some("&quot;")
    } else if c == '\'' {
        Some("&#x27;")
    } else {
        None
    }
}

/// Replaces the characters of HTML that allow script injection in text taken
/// from API parameters.
pub fn sanitize_html(text: &str) -> (r: String)
    ensures
        r@ == sanitized(text@),
{
    let n = text.unicode_len();
    let mut out = String::new();
    let mut run_start: usize = 0;
    let mut i: usize = 0;
    while i < n
        invariant
            n == text@.len(),
            run_start <= i <= n,
            out@ + text@.subrange(run_start as int, i as int) == sanitized(text@.subrange(0, i as int)),
        decreases n - i,
    {
        let c = text.get_char(i);
        proof {
            let p = text@.subrange(0, i + 1 as int);
            assert(p.drop_last() =~= text@.subrange(0, i as int));
            assert(p.last() == c);
        }
        match entity_for(c) {
            Some(e) => {
                let run = text.substring_char(run_start, i);
                out.append(run);
                out.append(e);
                run_start = i + 1;
                proof {
                    assert(text@.subrange(run_start as int, i + 1 as int) =~= Seq::<char>::empty());
                    assert(out@ + text@.subrange(run_start as int, i + 1 as int) =~= out@);
                }
            },
            None => {
                proof {
                    assert(text@.subrange(run_start as int, i + 1 as int) =~= text@.subrange(
                        run_start as int,
                        i as int,
                    ).push(c));
                    assert(escape_char(c) =~= seq![c]);
                }
            },
        }
        i = i + 1;
    }
    let tail = text.substring_char(run_start, n);
    out.append(tail);
    assert(text@.subrange(0, n as int) =~= text@);
    out
}

#[verifier::external_type_specification]
#[verifier::external_body]
pub struct ExRegexSet(regex::RegexSet);

#[verifier::external_type_specification]
#[verifier::external_body]
pub struct ExRegexError(regex::Error);

/// Whether `regex::RegexSet::new` accepts these patterns.
pub uninterp spec fn regex_set_valid(patterns: Seq<Seq<char>>) -> bool;

/// Whether a `regex::RegexSet` built from these patterns matches the text
/// (`RegexSet::is_match`).
pub uninterp spec fn regex_set_matches(patterns: Seq<Seq<char>>, text: Seq<char>) -> bool;

/// The patterns as sequences of characters.
pub open spec fn pattern_view(patterns: Seq<String>) -> Seq<Seq<char>> {
    patterns.map_values(|s: String| s@)
}

/// Relies on `regex::RegexSet::new`: whether it compiles depends on the
/// patterns alone.
#[verifier::external_body]
fn compile_regex_set(patterns: &Vec<String>) -> (r: Result<regex::RegexSet, regex::Error>)
    ensures
        r is Ok <==> regex_set_valid(pattern_view(patterns@)),
        patterns@.len() == 0 ==> r is Ok,
{
    regex::RegexSet::new(patterns)
}

/// URL patterns that text may not link to, compiled once.
pub struct UrlBlocklist {
    patterns: Vec<String>,
    set: regex::RegexSet,
}

/// Relies on `regex::RegexSet::is_match`, on a set that `UrlBlocklist::new`
/// compiled from exactly the patterns it keeps beside it (both fields are
/// private and set nowhere else). An empty set matches nothing.
#[verifier::external_body]
fn blocklist_is_match(blocklist: &UrlBlocklist, text: &str) -> (r: bool)
    ensures
        r == regex_set_matches(blocklist.patterns_spec(), text@),
        blocklist.patterns_spec().len() == 0 ==> !r,
{
    blocklist.set.is_match(text)
}

impl UrlBlocklist {
    /// The patterns of the blocklist.
    pub closed spec fn patterns_spec(&self) -> Seq<Seq<char>> {
        pattern_view(self.patterns@)
    }

    /// Compiles the patterns; fails where one is not a valid regular
    /// expression.
    pub fn new(patterns: Vec<String>) -> (r: Result<UrlBlocklist, ApiError>)
        ensures
            r is Ok <==> regex_set_valid(pattern_view(patterns@)),
            patterns@.len() == 0 ==> r is Ok,
            r matches Ok(b) ==> b.patterns_spec() == pattern_view(patterns@),
            r matches Err(e) ==> e == ApiError::InvalidRegex,
    {
        match compile_regex_set(&patterns) {
            Ok(set) => Ok(UrlBlocklist { patterns, set }),
            Err(_) => Err(ApiError::InvalidRegex),
        }
    }

    /// The number of patterns.
    pub fn len(&self) -> (r: usize)
        ensures
            r == self.patterns_spec().len(),
    {
        self.patterns.len()
    }
}

/// Fails where the text matches a pattern of the blocklist.
pub fn markdown_check_for_blocked_urls(text: &str, blocklist: &UrlBlocklist) -> (r: Result<(), ApiError>)
    ensures
        r == if regex_set_matches(blocklist.patterns_spec(), text@) {
            Err(ApiError::BlockedUrl)
        } else {
            Ok::<(), ApiError>(())
        },
{
    if blocklist_is_match(blocklist, text) {
        Err(ApiError::BlockedUrl)
    } else {
        Ok(())
    }
}

} // verus!
