//! The configuration document: a JSON list of operation objects, each with
//! a `type` that names its kind and the members that the kind asks for.
//! Unknown members are ignored; the order of the list is kept as given.

use vstd::prelude::*;
use crate::error::{ConfigFault, Failure, StageError};
use crate::json::{
    json_document, json_error_message, json_from_str, json_tree_of, parse_report, Json,
};
use crate::operation::OperationSpec;
use crate::rule::{rules_of, Rule};
use crate::text::same_text;

verus! {

/// The member that names the kind of an operation.
pub const KIND_KEY: &'static str = "type";

/// The kind of a replacement.
pub const REPLACE_KIND: &'static str = "replace";

/// The member of a replacement that holds its pattern.
pub const PATTERN_KEY: &'static str = "regex";

/// The member of a replacement that holds its template.
pub const TEMPLATE_KEY: &'static str = "with";

/// `i` is the index of the first member named `key`.
pub open spec fn is_first_named(members: Seq<(String, Json)>, key: Seq<char>, i: int) -> bool {
    &&& 0 <= i < members.len()
    &&& members[i].0@ == key
    &&& forall|j: int| 0 <= j < i ==> (#[trigger] members[j]).0@ != key
}

/// The value of the first member named `key`, if there is one.
pub open spec fn member(members: Seq<(String, Json)>, key: Seq<char>) -> Option<Json> {
    if exists|i: int| is_first_named(members, key, i) {
        Some(members[choose|i: int| is_first_named(members, key, i)].1)
    } else {
        None
    }
}

/// The text of the first member named `key`, if there is one and it is a
/// string.
pub open spec fn text_member(members: Seq<(String, Json)>, key: Seq<char>) -> Option<Seq<char>> {
    match member(members, key) {
        Some(Json::Text(text)) => Some(text@),
        _ => None,
    }
}

/// The rule that the entry at `index` of the list declares, or what is
/// wrong with the entry. The members are checked in the order kind,
/// pattern, template, and the first that fails is reported.
pub open spec fn declared_rule(entry: Json, index: usize) -> Result<Rule, ConfigFault> {
    match entry {
        Json::Object(members) => match text_member(members@, KIND_KEY@) {
            None => Err(ConfigFault::MissingKind { index }),
            Some(kind) => if kind != REPLACE_KIND@ {
                Err(ConfigFault::UnknownKind { index })
            } else {
                match text_member(members@, PATTERN_KEY@) {
                    None => Err(ConfigFault::MissingPattern { index }),
                    Some(pattern) => match text_member(members@, TEMPLATE_KEY@) {
                        None => Err(ConfigFault::MissingTemplate { index }),
                        Some(template) => Ok(Rule::Replace { pattern, template }),
                    },
                }
            },
        },
        _ => Err(ConfigFault::NotAnObject { index }),
    }
}

/// Every entry of the list declares a rule.
pub open spec fn all_declared(items: Seq<Json>) -> bool {
    forall|i: int| 0 <= i < items.len() ==> (#[trigger] declared_rule(items[i], i as usize)) is Ok
}

/// `i` is the index of the first entry that declares no rule.
pub open spec fn is_first_bad(items: Seq<Json>, i: int) -> bool {
    &&& 0 <= i < items.len()
    &&& declared_rule(items[i], i as usize) is Err
    &&& forall|j: int| 0 <= j < i ==> (#[trigger] declared_rule(items[j], j as usize)) is Ok
}

/// The rules that a document declares, in the order of its list, or the
/// fault of the first entry that declares none.
pub open spec fn declared_rules(tree: Json) -> Result<Seq<Rule>, ConfigFault> {
    match tree {
        Json::Array(items) => if all_declared(items@) {
            Ok(Seq::new(items@.len(), |i: int| declared_rule(items@[i], i as usize)->Ok_0))
        } else {
            let i = choose|i: int| is_first_bad(items@, i);
            Err(declared_rule(items@[i], i as usize)->Err_0)
        },
        _ => Err(ConfigFault::NotAList),
    }
}

/// The rules that a configuration text declares, or why it declares none.
/// A text that is not JSON fails with the parser's report; a fault in the
/// structure of the document comes with the entry it is found at and
/// without further text.
pub open spec fn declared(raw: Seq<char>) -> Result<Seq<Rule>, Failure> {
    match json_document(raw) {
        None => Err(
            Failure::InvalidConfiguration {
                fault: ConfigFault::NotJson,
                message: parse_report(raw),
            },
        ),
        Some(tree) => match declared_rules(tree) {
            Ok(rules) => Ok(rules),
            Err(fault) => Err(Failure::InvalidConfiguration { fault, message: Seq::empty() }),
        },
    }
}

/// Looks up the first member named `key`.
pub fn find_member<'a>(members: &'a Vec<(String, Json)>, key: &str) -> (found: Option<&'a Json>)
    ensures
        match found {
            Some(value) => member(members@, key@) == Some(*value),
            None => member(members@, key@) is None,
        },
{
    let mut i: usize = 0;
    while i < members.len()
        invariant
            i <= members.len(),
            forall|j: int| 0 <= j < i ==> (#[trigger] members@[j]).0@ != key@,
        decreases members.len() - i,
    {
        if same_text(members[i].0.as_str(), key) {
            proof {
                assert(is_first_named(members@, key@, i as int));
                let k = choose|k: int| is_first_named(members@, key@, k);
                assert(k == i);
            }
            return Some(&members[i].1);
        }
        i += 1;
    }
    None
}

/// Looks up the first member named `key` and returns its text, if it is a
/// string.
pub fn find_text<'a>(members: &'a Vec<(String, Json)>, key: &str) -> (found: Option<&'a String>)
    ensures
        match found {
            Some(text) => text_member(members@, key@) == Some(text@),
            None => text_member(members@, key@) is None,
        },
{
    match find_member(members, key) {
        Some(Json::Text(text)) => Some(text),
        _ => None,
    }
}

/// Reads the entry at `index` of the list as a declared operation.
pub fn parse_entry(entry: &Json, index: usize) -> (res: Result<OperationSpec, ConfigFault>)
    ensures
        match res {
            Ok(spec) => declared_rule(*entry, index) == Ok::<Rule, ConfigFault>(spec@),
            Err(fault) => declared_rule(*entry, index) == Err::<Rule, ConfigFault>(fault),
        },
{
    let members = match entry {
        Json::Object(members) => members,
        _ => {
            return Err(ConfigFault::NotAnObject { index });
        },
    };
    let kind = match find_text(members, KIND_KEY) {
        Some(kind) => kind,
        None => {
            return Err(ConfigFault::MissingKind { index });
        },
    };
    if !same_text(kind.as_str(), REPLACE_KIND) {
        return Err(ConfigFault::UnknownKind { index });
    }
    let pattern = match find_text(members, PATTERN_KEY) {
        Some(pattern) => pattern,
        None => {
            return Err(ConfigFault::MissingPattern { index });
        },
    };
    let template = match find_text(members, TEMPLATE_KEY) {
        Some(template) => template,
        None => {
            return Err(ConfigFault::MissingTemplate { index });
        },
    };
    Ok(OperationSpec::Replace { pattern: pattern.clone(), template: template.clone() })
}

/// Reads a parsed document as a list of declared operations, in the order
/// of the list.
pub fn parse_document(tree: &Json) -> (res: Result<Vec<OperationSpec>, ConfigFault>)
    ensures
        match res {
            Ok(specs) => declared_rules(*tree) == Ok::<Seq<Rule>, ConfigFault>(rules_of(specs@)),
            Err(fault) => declared_rules(*tree) == Err::<Seq<Rule>, ConfigFault>(fault),
        },
{
    let items = match tree {
        Json::Array(items) => items,
        _ => {
            return Err(ConfigFault::NotAList);
        },
    };
    let mut specs: Vec<OperationSpec> = Vec::new();
    let mut i: usize = 0;
    while i < items.len()
        invariant
            *tree == Json::Array(*items),
            i <= items.len(),
            specs@.len() == i,
            forall|j: int|
                0 <= j < i ==> (#[trigger] declared_rule(items@[j], j as usize)) == Ok::<
                    Rule,
                    ConfigFault,
                >(specs@[j]@),
        decreases items.len() - i,
    {
        match parse_entry(&items[i], i) {
            Ok(spec) => {
                specs.push(spec);
            },
            Err(fault) => {
                proof {
                    assert(is_first_bad(items@, i as int));
                    let k = choose|k: int| is_first_bad(items@, k);
                    assert(k == i);
                }
                return Err(fault);
            },
        }
        i += 1;
    }
    proof {
        assert(all_declared(items@));
        assert(rules_of(specs@) =~= Seq::new(
            items@.len(),
            |i: int| declared_rule(items@[i], i as usize)->Ok_0,
        ));
    }
    Ok(specs)
}

/// Parses a configuration text into the operations it declares. The text
/// must be a JSON list of objects of a known kind; the operations come out
/// in the order of the list, none dropped, merged or moved.
pub fn parse_spec(raw: &str) -> (res: Result<Vec<OperationSpec>, StageError>)
    ensures
        match res {
            Ok(specs) => declared(raw@) == Ok::<Seq<Rule>, Failure>(rules_of(specs@)),
            Err(e) => declared(raw@) == Err::<Seq<Rule>, Failure>(e@),
        },
{
    let value = match json_from_str(raw) {
        Ok(value) => value,
        Err(error) => {
            return Err(
                StageError::InvalidConfiguration {
                    fault: ConfigFault::NotJson,
                    message: json_error_message(&error),
                },
            );
        },
    };
    let tree = json_tree_of(&value);
    match parse_document(&tree) {
        Ok(specs) => Ok(specs),
        Err(fault) => Err(StageError::InvalidConfiguration { fault, message: String::new() }),
    }
}

} // verus!
