//! A regular expression compiled once from its source text.
//!
//! A `Pattern` can only be built by `Pattern::compile`, so the compiled
//! matcher it holds is always the one made from `source`.

use vstd::prelude::*;

verus! {

#[verifier::external_type_specification]
#[verifier::external_body]
pub struct ExRegex(regex::Regex);

/// Whether `regex::Regex::new` accepts the pattern (valid syntax, within the
/// default size limit).
pub uninterp spec fn regex_compiles(source: Seq<char>) -> bool;

/// Whether the regex compiled from `source` finds a match anywhere in `text`
/// (unanchored search).
pub uninterp spec fn regex_finds(source: Seq<char>, text: Seq<char>) -> bool;

pub struct Pattern {
    source: String,
    compiled: regex::Regex,
}

impl Pattern {
    /// The text the pattern was compiled from.
    pub closed spec fn view(&self) -> Seq<char> {
        self.source@
    }

    /// Relies on `regex::Regex::new`: `Ok` exactly when the source is a valid
    /// pattern within the size limit.
    #[verifier::external_body]
    pub(crate) fn compile(source: &str) -> (r: Option<Pattern>)
        ensures
            r.is_some() == regex_compiles(source@),
            r matches Some(p) ==> p@ == source@,
    {
        match regex::Regex::new(source) {
            Ok(compiled) => Some(Pattern { source: source.to_string(), compiled }),
            Err(_) => None,
        }
    }

    /// Relies on `regex::Regex::is_match`: true when the pattern matches
    /// anywhere in `text`.
    #[verifier::external_body]
    pub(crate) fn is_match(&self, text: &str) -> (r: bool)
        ensures
            r == regex_finds(self@, text@),
    {
        self.compiled.is_match(text)
    }
}

} // verus!
