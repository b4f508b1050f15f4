//! Rewriting of a URL before it is fetched.
//!
//! A rule is a regular expression and a replacement for each of its
//! matches. The rules are tried in their order, and the first that changes
//! the URL is applied; the others are not tried. What comes out is validated
//! again, and a URL that fails then is not fetched.

use vstd::prelude::*;
use crate::chars::{option_text, same_text};
use crate::extract_url::validate::{is_candidate, validate_url, validated};

verus! {

/// A rule: a regular expression, and what replaces each match of it.
#[derive(Clone, Debug)]
pub struct RewriteRule {
    pub pattern: String,
    pub replacement: String,
}

/// What applying a rule gave.
#[derive(Debug)]
pub enum Replaced {
    /// The pattern is no regular expression.
    BadPattern,
    /// The pattern matched nowhere.
    Unchanged,
    /// The text after every match was replaced.
    Changed(String),
}

/// The model of `Replaced`.
pub enum ReplacedRecord {
    BadPattern,
    Unchanged,
    Changed(Seq<char>),
}

impl View for Replaced {
    type V = ReplacedRecord;

    open spec fn view(&self) -> ReplacedRecord {
        match self {
            Replaced::BadPattern => ReplacedRecord::BadPattern,
            Replaced::Unchanged => ReplacedRecord::Unchanged,
            Replaced::Changed(s) => ReplacedRecord::Changed(s@),
        }
    }
}

impl View for RewriteRule {
    type V = (Seq<char>, Seq<char>);

    open spec fn view(&self) -> (Seq<char>, Seq<char>) {
        (self.pattern@, self.replacement@)
    }
}

/// The models of a list of rules.
pub open spec fn rules_view(rules: Seq<RewriteRule>) -> Seq<(Seq<char>, Seq<char>)> {
    Seq::new(rules.len(), |i: int| rules[i]@)
}

/// What the `regex` crate makes of `text` when every match of `pattern` is
/// replaced by `replacement`.
pub uninterp spec fn regex_replaced(
    pattern: Seq<char>,
    text: Seq<char>,
    replacement: Seq<char>,
) -> ReplacedRecord;

/// Calls `regex::Regex::new` and `Regex::replace_all`, and tells a text
/// that was handed back as it was from one that was made anew. The result is
/// named `regex_replaced`; nothing else is claimed of it.
#[verifier::external_body]
fn replace_all(pattern: &str, text: &str, replacement: &str) -> (replaced: Replaced)
    ensures
        replaced@ == regex_replaced(pattern@, text@, replacement@),
{
    match regex::Regex::new(pattern) {
        Ok(expression) => match expression.replace_all(text, replacement) {
            std::borrow::Cow::Borrowed(_) => Replaced::Unchanged,
            std::borrow::Cow::Owned(changed) => Replaced::Changed(changed),
        },
        Err(_) => Replaced::BadPattern,
    }
}

/// What one rule makes of `url`, where it changes it; a rule that replaces
/// its matches by what stood there changes nothing.
pub open spec fn changed_by(url: Seq<char>, rule: (Seq<char>, Seq<char>)) -> Option<Seq<char>> {
    match regex_replaced(rule.0, url, rule.1) {
        ReplacedRecord::Changed(changed) => if changed == url {
            None
        } else {
            Some(changed)
        },
        _ => None,
    }
}

/// What the first rule that changes `url` makes of it; `None` where no rule
/// changes it.
pub open spec fn rewritten(url: Seq<char>, rules: Seq<(Seq<char>, Seq<char>)>) -> Option<
    Seq<char>,
>
    decreases rules.len(),
{
    if rules.len() == 0 {
        None
    } else if changed_by(url, rules[0]) is Some {
        changed_by(url, rules[0])
    } else {
        rewritten(url, rules.drop_first())
    }
}

/// Tells what a rule made of `url`, where it changed it.
pub fn pick_changed(url: &str, replaced: Replaced) -> (changed: Option<String>)
    ensures
        option_text(changed) == (match replaced@ {
            ReplacedRecord::Changed(text) => if text == url@ {
                None
            } else {
                Some(text)
            },
            _ => None,
        }),
{
    match replaced {
        Replaced::Changed(text) => {
            if same_text(text.as_str(), url) {
                None
            } else {
                Some(text)
            }
        },
        _ => None,
    }
}

/// The URL to fetch for the candidate `url`: `url` itself where no rule
/// changes it, else the rewritten text validated again; `None` where that is
/// no candidate.
pub open spec fn fetch_target(url: Seq<char>, rules: Seq<(Seq<char>, Seq<char>)>) -> Option<
    Seq<char>,
> {
    match rewritten(url, rules) {
        None => Some(url),
        Some(changed) => validated(changed),
    }
}

/// Applies the first rule that changes `url`.
pub fn apply_rules(url: &str, rules: &Vec<RewriteRule>) -> (changed: Option<String>)
    ensures
        option_text(changed) == rewritten(url@, rules_view(rules@)),
{
    let ghost all = rules_view(rules@);
    let mut i: usize = 0;
    proof {
        assert(all.skip(0) =~= all);
    }
    while i < rules.len()
        invariant
            i <= rules.len(),
            all == rules_view(rules@),
            rewritten(url@, all) == rewritten(url@, all.skip(i as int)),
        decreases rules.len() - i,
    {
        proof {
            assert(all.skip(i as int).drop_first() =~= all.skip(i as int + 1));
            assert(all.skip(i as int)[0] == rules@[i as int]@);
        }
        let replaced = replace_all(rules[i].pattern.as_str(), url, rules[i].replacement.as_str());
        let changed = pick_changed(url, replaced);
        if changed.is_some() {
            return changed;
        }
        i += 1;
    }
    None
}

/// Finds the URL to fetch for a candidate.
///
/// A candidate that no rule changes is fetched as it is. One that a rule
/// rewrites is fetched as the rewritten URL, if that is a candidate too,
/// and not at all if it is none.
pub fn rewrite_url(url: &str, rules: &Vec<RewriteRule>) -> (target: Option<String>)
    ensures
        option_text(target) == fetch_target(url@, rules_view(rules@)),
        is_candidate(url@) && target is Some ==> is_candidate(target->0@),
{
    match apply_rules(url, rules) {
        None => Some(url.to_owned()),
        Some(changed) => validate_url(changed.as_str()),
    }
}

} // verus!
