//! Matching of reply text against the patterns of the command set.

use vstd::prelude::*;
use vstd::string::*;
use super::err::{ReaderError, ReaderErrorView};

verus! {

/// Whether `pattern` is a regular expression that the `regex` crate
/// compiles.
pub uninterp spec fn regex_compiles(pattern: Seq<char>) -> bool;

/// The part of `text` that the first match of the regular expression
/// `pattern` covers, if the expression matches anywhere in `text`.
pub uninterp spec fn regex_find(pattern: Seq<char>, text: Seq<char>) -> Option<Seq<char>>;

/// Compiles `pattern` with `regex::Regex::new` and searches `text` with
/// `regex::Regex::find`. The result is `None` exactly where the pattern
/// does not compile, which is what `regex_compiles` names; else it is the
/// matched part of the text, if there is a match, which is what
/// `regex_find` names.
#[verifier::external_body]
fn search(pattern: &str, text: &str) -> (r: Option<Option<String>>)
    ensures
        match r {
            None => !regex_compiles(pattern@),
            Some(None) => regex_compiles(pattern@) && regex_find(pattern@, text@).is_none(),
            Some(Some(m)) => regex_compiles(pattern@) && regex_find(pattern@, text@) == Some(m@),
        },
{
    match regex::Regex::new(pattern) {
        Ok(re) => Some(re.find(text).map(|m| String::from(m.as_str()))),
        Err(_) => None,
    }
}

/// The result of one reader operation, with its texts as character sequences.
pub type Outcome = Result<Seq<char>, ReaderErrorView>;

/// The texts of `patterns`.
pub open spec fn texts_of(patterns: Seq<&str>) -> Seq<Seq<char>> {
    patterns.map_values(|p: &str| p@)
}

/// What checking `reply` against `patterns` gives. The patterns are tried
/// in order, and the first that matches decides: the result is the part of
/// the reply that it matched. A pattern that is not a regular expression
/// stops the check when its turn comes. Where no pattern matches, the reply
/// is refused, and the error carries it whole.
pub open spec fn accept(reply: Seq<char>, patterns: Seq<Seq<char>>) -> Outcome
    decreases patterns.len(),
{
    if patterns.len() == 0 {
        Err(ReaderErrorView::NoMatchingTargets(reply))
    } else if !regex_compiles(patterns[0]) {
        Err(ReaderErrorView::InvalidRegex(patterns[0]))
    } else {
        match regex_find(patterns[0], reply) {
            Some(m) => Ok(m),
            None => accept(reply, patterns.drop_first()),
        }
    }
}

/// Patterns that all compile never give the error of one that does not:
/// the reply is accepted, or refused as a reply.
pub proof fn lemma_accept_of_valid_patterns(reply: Seq<char>, patterns: Seq<Seq<char>>)
    requires
        forall|i: int| 0 <= i < patterns.len() ==> regex_compiles(#[trigger] patterns[i]),
    ensures
        accept(reply, patterns) is Ok || accept(reply, patterns) == Err::<
            Seq<char>,
            ReaderErrorView,
        >(ReaderErrorView::NoMatchingTargets(reply)),
    decreases patterns.len(),
{
    if patterns.len() > 0 {
        let rest = patterns.drop_first();
        assert(regex_compiles(patterns[0]));
        assert forall|i: int| 0 <= i < rest.len() implies regex_compiles(#[trigger] rest[i]) by {
            assert(rest[i] == patterns[i + 1]);
        }
        lemma_accept_of_valid_patterns(reply, rest);
    }
}

/// A reply in which none of the patterns matches is refused, and the error
/// carries exactly the reply.
pub proof fn lemma_unrecognized_reply_is_refused(reply: Seq<char>, patterns: Seq<Seq<char>>)
    requires
        forall|i: int| 0 <= i < patterns.len() ==> regex_compiles(#[trigger] patterns[i]),
        forall|i: int|
            0 <= i < patterns.len() ==> regex_find(#[trigger] patterns[i], reply).is_none(),
    ensures
        accept(reply, patterns) == Err::<Seq<char>, ReaderErrorView>(
            ReaderErrorView::NoMatchingTargets(reply),
        ),
    decreases patterns.len(),
{
    if patterns.len() > 0 {
        let rest = patterns.drop_first();
        assert(regex_compiles(patterns[0]) && regex_find(patterns[0], reply).is_none());
        assert forall|i: int| 0 <= i < rest.len() implies regex_compiles(#[trigger] rest[i])
            && regex_find(rest[i], reply).is_none() by {
            assert(rest[i] == patterns[i + 1]);
        }
        lemma_unrecognized_reply_is_refused(reply, rest);
    }
}

/// Whether `pattern` is a regular expression.
pub fn is_pattern(pattern: &str) -> (b: bool)
    ensures
        b == regex_compiles(pattern@),
{
    search(pattern, "").is_some()
}

/// An executable result, with its texts as character sequences.
pub open spec fn outcome_of(r: Result<String, ReaderError>) -> Outcome {
    match r {
        Ok(s) => Ok(s@),
        Err(e) => Err(e@),
    }
}

/// Checks `reply` against `patterns`, tried in order: the part of the reply
/// that the first matching pattern covers, or the refusal of the reply.
pub fn first_match(reply: &str, patterns: &Vec<&str>) -> (r: Result<String, ReaderError>)
    ensures
        outcome_of(r) == accept(reply@, texts_of(patterns@)),
{
    let ghost texts = texts_of(patterns@);
    let mut i: usize = 0;
    assert(texts.skip(0) == texts);
    while i < patterns.len()
        invariant
            i <= patterns.len(),
            texts == texts_of(patterns@),
            accept(reply@, texts) == accept(reply@, texts.skip(i as int)),
        decreases patterns.len() - i,
    {
        let ghost rest = texts.skip(i as int);
        proof {
            assert(rest[0] == patterns@[i as int]@);
            assert(rest.drop_first() == texts.skip(i + 1));
        }
        match search(patterns[i], reply) {
            None => {
                return Err(ReaderError::InvalidRegex(String::from_str(patterns[i])));
            },
            Some(Some(m)) => {
                return Ok(m);
            },
            Some(None) => {},
        }
        i += 1;
    }
    proof {
        assert(texts.skip(i as int).len() == 0);
    }
    Err(ReaderError::NoMatchingTargets(String::from_str(reply)))
}

} // verus!
