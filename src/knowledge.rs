use vstd::prelude::*;

use crate::model::{copy_opt_string, copy_string};

verus! {

/// What an operator or an agent can do about a recognised failure.
#[derive(Debug, Clone)]
pub struct Suggestion {
    pub message: String,
    pub action_type: String,
    pub command_hint: Option<String>,
    pub script_path: Option<String>,
}

/// A known failure signature: a regular expression over a probe's stderr.
#[derive(Debug, Clone)]
pub struct Pattern {
    pub id: String,
    pub pattern: String,
    pub description: String,
    pub suggestion: Suggestion,
}

/// Whether `pattern` is a regular expression that the regex crate accepts.
pub uninterp spec fn regex_accepts(pattern: Seq<char>) -> bool;

/// Whether the regular expression `pattern` matches somewhere in `text`.
pub uninterp spec fn regex_finds(pattern: Seq<char>, text: Seq<char>) -> bool;

/// Whether the pattern text `pattern` compiles and matches somewhere in `text`.
pub open spec fn hits(pattern: Seq<char>, text: Seq<char>) -> bool {
    regex_accepts(pattern) && regex_finds(pattern, text)
}

/// Relies on regex::Regex::new, whose result is used at once by
/// regex::Regex::is_match: `None` where the pattern does not compile, else
/// whether it matches somewhere in the text.
#[verifier::external_body]
fn regex_search(pattern: &str, text: &str) -> (r: Option<bool>)
    ensures
        r is Some <==> regex_accepts(pattern@),
        r matches Some(b) ==> b == regex_finds(pattern@, text@),
{
    regex::Regex::new(pattern).ok().map(|re| re.is_match(text))
}

/// A copy of a suggestion that Verus knows to be equal to it.
pub fn copy_suggestion(s: &Suggestion) -> (r: Suggestion)
    ensures
        r == *s,
{
    Suggestion {
        message: copy_string(&s.message),
        action_type: copy_string(&s.action_type),
        command_hint: copy_opt_string(&s.command_hint),
        script_path: copy_opt_string(&s.script_path),
    }
}

/// The suggestion of the first pattern, in list order, for which `hit` holds.
pub open spec fn first_hit(patterns: Seq<Pattern>, hit: spec_fn(int) -> bool) -> Option<Suggestion>
    decreases patterns.len(),
{
    first_hit_from(patterns, hit, 0)
}

/// The suggestion of the first pattern at or after `start` for which `hit` holds.
pub open spec fn first_hit_from(patterns: Seq<Pattern>, hit: spec_fn(int) -> bool, start: int) -> Option<
    Suggestion,
>
    decreases patterns.len() - start,
{
    if start < 0 || start >= patterns.len() {
        None
    } else if hit(start) {
        Some(patterns[start].suggestion)
    } else {
        first_hit_from(patterns, hit, start + 1)
    }
}

/// The suggestion for a probe's stderr: that of the first pattern, in list
/// order, that compiles and matches; a pattern that does not compile is passed
/// over.
pub open spec fn suggestion_for(patterns: Seq<Pattern>, stderr: Seq<char>) -> Option<Suggestion> {
    first_hit(patterns, |i: int| hits(patterns[i].pattern@, stderr))
}

/// Picks the suggestion of the first pattern whose flag in `matched` is set.
pub fn first_flagged(patterns: &Vec<Pattern>, matched: &Vec<bool>) -> (r: Option<Suggestion>)
    requires
        matched@.len() == patterns@.len(),
    ensures
        r == first_hit(patterns@, |i: int| matched@[i]),
{
    let ghost hit = |i: int| matched@[i];
    let mut i: usize = 0;
    while i < patterns.len()
        invariant
            i <= patterns@.len() == matched@.len(),
            hit == (|i: int| matched@[i]),
            first_hit_from(patterns@, hit, 0) == first_hit_from(patterns@, hit, i as int),
        decreases patterns@.len() - i,
    {
        if matched[i] {
            return Some(copy_suggestion(&patterns[i].suggestion));
        }
        i = i + 1;
    }
    None
}

/// Two flag functions that agree on every pattern pick the same suggestion.
proof fn lemma_first_hit_agree(patterns: Seq<Pattern>, f: spec_fn(int) -> bool, g: spec_fn(int) -> bool, start: int)
    requires
        0 <= start,
        forall|i: int| 0 <= i < patterns.len() ==> #[trigger] f(i) == g(i),
    ensures
        first_hit_from(patterns, f, start) == first_hit_from(patterns, g, start),
    decreases patterns.len() - start,
{
    if start < patterns.len() {
        lemma_first_hit_agree(patterns, f, g, start + 1);
    }
}

/// The suggestion for a failed probe's stderr: that of the first pattern, in
/// list order, that compiles and matches it, or `None`.
pub fn match_error_pattern(stderr: &str, patterns: &Vec<Pattern>) -> (r: Option<Suggestion>)
    ensures
        r == suggestion_for(patterns@, stderr@),
{
    let mut matched: Vec<bool> = Vec::new();
    let mut i: usize = 0;
    while i < patterns.len()
        invariant
            i <= patterns@.len(),
            matched@.len() == i,
            forall|j: int| 0 <= j < i ==> #[trigger] matched@[j] == hits(patterns@[j].pattern@, stderr@),
        decreases patterns@.len() - i,
    {
        let found = match regex_search(patterns[i].pattern.as_str(), stderr) {
            Some(b) => b,
            None => false,
        };
        matched.push(found);
        i = i + 1;
    }
    proof {
        lemma_first_hit_agree(
            patterns@,
            |i: int| matched@[i],
            |i: int| hits(patterns@[i].pattern@, stderr@),
            0,
        );
    }
    first_flagged(patterns, &matched)
}

} // verus!
