//! The mathematical model of a rewrite rule, shared by the declared and the
//! compiled form of an operation.

use vstd::prelude::*;
use crate::engine::{
    compile_report, pattern_compiles, pattern_groups, pattern_matches, replacement_text,
};
use crate::error::Failure;
use crate::template::{first_unbound, template_binds};

verus! {

/// What an operation is, whether declared or compiled: its kind and the
/// texts that the kind is made of.
pub enum Rule {
    /// Replace every match of `pattern` by the expansion of `template`.
    Replace { pattern: Seq<char>, template: Seq<char> },
}

impl Rule {
    /// The pattern text of the rule.
    pub open spec fn pattern(self) -> Seq<char> {
        match self {
            Rule::Replace { pattern, .. } => pattern,
        }
    }

    /// The replacement template of the rule.
    pub open spec fn template(self) -> Seq<char> {
        match self {
            Rule::Replace { template, .. } => template,
        }
    }

    /// Whether the rule's pattern is accepted by the regex compiler.
    pub open spec fn compiles(self) -> bool {
        match self {
            Rule::Replace { pattern, .. } => pattern_compiles(pattern),
        }
    }

    /// Whether every capture reference of the template, by name or by
    /// index, names a group that the pattern defines. It speaks of the
    /// groups of a pattern that compiles.
    pub open spec fn binds(self) -> bool {
        template_binds(self.template(), pattern_groups(self.pattern()))
    }

    /// Whether the rule can be compiled: its pattern compiles, and its
    /// template refers to groups of the pattern only.
    pub open spec fn accepted(self) -> bool {
        self.compiles() && self.binds()
    }

    /// Why the rule cannot be compiled, if it cannot: the pattern is looked
    /// at first, and the template only where the pattern compiles.
    pub open spec fn failure(self) -> Option<Failure> {
        if !self.compiles() {
            Some(
                Failure::InvalidPattern {
                    pattern: self.pattern(),
                    message: compile_report(self.pattern()),
                },
            )
        } else if !self.binds() {
            Some(
                Failure::InvalidTemplate {
                    pattern: self.pattern(),
                    template: self.template(),
                    reference: first_unbound(self.template(), pattern_groups(self.pattern())),
                },
            )
        } else {
            None
        }
    }

    /// Whether the rule's pattern occurs somewhere in `text`.
    pub open spec fn matches(self, text: Seq<char>) -> bool {
        match self {
            Rule::Replace { pattern, .. } => pattern_matches(pattern, text),
        }
    }

    /// The text that the rule turns `text` into: every match replaced, and
    /// `text` itself where the pattern does not occur.
    pub open spec fn rewrite(self, text: Seq<char>) -> Seq<char> {
        match self {
            Rule::Replace { pattern, template } => if pattern_matches(pattern, text) {
                replacement_text(pattern, text, template)
            } else {
                text
            },
        }
    }
}

/// The rules that a sequence of operations stands for, in the same order.
pub open spec fn rules_of<T: View<V = Rule>>(items: Seq<T>) -> Seq<Rule> {
    Seq::new(items.len(), |i: int| items[i]@)
}

/// Every rule of the sequence can be compiled.
pub open spec fn all_accepted(rules: Seq<Rule>) -> bool {
    forall|i: int| 0 <= i < rules.len() ==> #[trigger] rules[i].accepted()
}

/// `i` is the index of the first rule that cannot be compiled, for either
/// reason.
pub open spec fn is_first_rejected(rules: Seq<Rule>, i: int) -> bool {
    &&& 0 <= i < rules.len()
    &&& !rules[i].accepted()
    &&& forall|j: int| 0 <= j < i ==> #[trigger] rules[j].accepted()
}

/// The outcome of compiling `rules`: the same rules in the same order where
/// every one of them can be compiled, and else the failure of the first
/// that cannot.
pub open spec fn compiled(rules: Seq<Rule>) -> Result<Seq<Rule>, Failure> {
    if all_accepted(rules) {
        Ok(rules)
    } else {
        let i = choose|i: int| is_first_rejected(rules, i);
        Err(rules[i].failure()->0)
    }
}

/// The text that `rules` turn `text` into: a left fold, in which each rule
/// rewrites what the rules before it have produced.
pub open spec fn apply_rules(rules: Seq<Rule>, text: Seq<char>) -> Seq<char>
    decreases rules.len(),
{
    if rules.len() == 0 {
        text
    } else {
        rules.last().rewrite(apply_rules(rules.drop_last(), text))
    }
}

} // verus!
