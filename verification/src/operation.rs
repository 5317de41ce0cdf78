//! Operations in their declared and in their compiled form.

use vstd::prelude::*;
use regex::Regex;
use crate::engine::{
    compiled_from, pattern_groups, regex_as_str, regex_capture_names, regex_error_text,
    regex_is_match, regex_new, regex_replace_all,
};
use crate::template::{template_binds, unbound_reference};
use crate::error::{Failure, StageError};
use crate::rule::Rule;

verus! {

/// One operation as a configuration declares it. The pattern is plain text
/// here: whether it is a valid regular expression is found out when it is
/// compiled.
#[derive(Debug, PartialEq, Eq)]
pub enum OperationSpec {
    /// Replace every match of `pattern` by the expansion of `template`.
    Replace { pattern: String, template: String },
}

impl View for OperationSpec {
    type V = Rule;

    open spec fn view(&self) -> Rule {
        match self {
            OperationSpec::Replace { pattern, template } => Rule::Replace {
                pattern: pattern@,
                template: template@,
            },
        }
    }
}

impl Clone for OperationSpec {
    fn clone(&self) -> (copy: Self)
        ensures
            copy == *self,
    {
        match self {
            OperationSpec::Replace { pattern, template } => OperationSpec::Replace {
                pattern: pattern.clone(),
                template: template.clone(),
            },
        }
    }
}

/// A compiled replacement: the matcher and the template it is applied with.
pub struct Replace {
    regex: Regex,
    with: String,
}

impl Replace {
    /// The matcher was built from a pattern text with the default options,
    /// and the template refers to groups of that pattern only.
    #[verifier::type_invariant]
    spec fn well_formed(self) -> bool {
        &&& compiled_from(self.regex) is Some
        &&& template_binds(self.with@, pattern_groups(compiled_from(self.regex)->0))
    }

    /// The pattern text that the matcher was compiled from.
    pub closed spec fn pattern(self) -> Seq<char> {
        compiled_from(self.regex)->0
    }

    /// The replacement template.
    pub closed spec fn template(self) -> Seq<char> {
        self.with@
    }
}

/// One compiled operation, ready to be applied to any number of texts.
pub enum Operation {
    Replace(Replace),
}

impl View for Operation {
    type V = Rule;

    open spec fn view(&self) -> Rule {
        match self {
            Operation::Replace(r) => Rule::Replace { pattern: r.pattern(), template: r.template() },
        }
    }
}

impl Operation {
    /// Compiles a declared operation. Succeeds exactly when the pattern is
    /// accepted by the regex compiler and every capture reference of the
    /// template names a group of the pattern, and then stands for the same
    /// rule. A pattern that does not compile fails with its text and the
    /// compiler's report; a template that refers to a group that the pattern
    /// lacks fails with the first such reference.
    pub fn compile(spec: &OperationSpec) -> (res: Result<Operation, StageError>)
        ensures
            res is Ok <==> spec@.compiles() && spec@.binds(),
            match res {
                Ok(op) => op@ == spec@,
                Err(e) => spec@.failure() == Some(e@),
            },
    {
        match spec {
            OperationSpec::Replace { pattern, template } => {
                let regex = match regex_new(pattern.as_str()) {
                    Ok(regex) => regex,
                    Err(error) => {
                        return Err(
                            StageError::InvalidPattern {
                                pattern: pattern.clone(),
                                message: regex_error_text(&error),
                            },
                        );
                    },
                };
                let groups = regex_capture_names(&regex);
                match unbound_reference(template.as_str(), &groups) {
                    Some(reference) => Err(
                        StageError::InvalidTemplate {
                            pattern: pattern.clone(),
                            template: template.clone(),
                            reference: reference.to_owned(),
                        },
                    ),
                    None => Ok(Operation::Replace(Replace { regex, with: template.clone() })),
                }
            },
        }
    }

    /// The pattern text that the operation was compiled from.
    pub fn pattern(&self) -> (text: &str)
        ensures
            text@ == self@.pattern(),
    {
        match self {
            Operation::Replace(r) => {
                proof {
                    use_type_invariant(r);
                }
                regex_as_str(&r.regex)
            },
        }
    }

    /// The replacement template of the operation.
    pub fn template(&self) -> (text: &str)
        ensures
            text@ == self@.template(),
    {
        match self {
            Operation::Replace(r) => r.with.as_str(),
        }
    }

    /// Whether the operation's pattern occurs somewhere in `text`.
    pub fn is_match(&self, text: &str) -> (found: bool)
        ensures
            found == self@.matches(text@),
    {
        match self {
            Operation::Replace(r) => {
                proof {
                    use_type_invariant(r);
                }
                regex_is_match(&r.regex, text)
            },
        }
    }

    /// Replaces every non-overlapping match of the operation's pattern in
    /// `text` by the expansion of its template. A text in which the pattern
    /// does not occur comes back unchanged. No reference of the template is
    /// to a group that the pattern lacks: a compiled operation has none.
    pub fn run_regex(&self, text: &String) -> (out: String)
        ensures
            out@ == self@.rewrite(text@),
            !self@.matches(text@) ==> out@ == text@,
            self@.binds(),
    {
        match self {
            Operation::Replace(r) => {
                proof {
                    use_type_invariant(r);
                }
                regex_replace_all(&r.regex, text.as_str(), r.with.as_str())
            },
        }
    }
}

} // verus!
