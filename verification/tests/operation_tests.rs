use regex_map::error::StageError;
use regex_map::operation::{Operation, OperationSpec};

const SSN: &str = r"\d{3}-\d{2}-\d{4}";
const MASK: &str = "***-**-****";

fn declare(pattern: &str, template: &str) -> OperationSpec {
    OperationSpec::Replace { pattern: pattern.to_owned(), template: template.to_owned() }
}

fn replace(pattern: &str, template: &str) -> Operation {
    Operation::compile(&declare(pattern, template)).unwrap()
}

#[test]
fn run_regex_test() {
    // Replace exact
    let input = r"123-45-6789".to_owned();
    let regex = r"\d{3}-\d{2}-\d{4}";
    let op = replace(regex, "***-**-****");
    let expected = "***-**-****".to_owned();

    let result = op.run_regex(&input);
    assert_eq!(result, expected);

    // Replace subset
    let input = r"Alice Jackson, ssn 123-45-6789, location: NY".to_owned();
    let regex = r"\d{3}-\d{2}-\d{4}";
    let op = replace(regex, "***-**-****");
    let expected = "Alice Jackson, ssn ***-**-****, location: NY".to_owned();

    let result = op.run_regex(&input);
    assert_eq!(result, expected);

    // Replace multiple
    let input = r"Alice, ssn 123-45-6789, Jack, ssn 987-65-4321".to_owned();
    let regex = r"\d{3}-\d{2}-\d{4}";
    let op = replace(regex, "***-**-****");
    let expected = "Alice, ssn ***-**-****, Jack, ssn ***-**-****".to_owned();

    let result = op.run_regex(&input);
    assert_eq!(result, expected);

    // Replace address
    let input = r#""address": "285 LA PALA DR APT 2343, SAN JOSE CA 95127""#.to_owned();
    let regex = r#"(?P<first>"address":\s+\")([\w\d\s]+),"#;
    let op = replace(regex, "${first}...");
    let expected = r#""address": "... SAN JOSE CA 95127""#.to_owned();

    let result = op.run_regex(&input);
    assert_eq!(result, expected);

    // Replace none
    let input = r"not a match".to_owned();
    let regex = r"\d{3}-\d{2}-\d{4}";
    let op = replace(regex, "***-**-****");
    let expected = r"not a match".to_owned();

    let result = op.run_regex(&input);
    assert_eq!(result, expected);
}

#[test]
fn literal_match_is_replaced_whole() {
    let op = replace(SSN, MASK);
    assert_eq!(op.run_regex(&"123-45-6789".to_owned()), "***-**-****");
}

#[test]
fn every_match_is_replaced() {
    let op = replace(SSN, MASK);
    assert_eq!(
        op.run_regex(&"Alice, ssn 123-45-6789, Jack, ssn 987-65-4321".to_owned()),
        "Alice, ssn ***-**-****, Jack, ssn ***-**-****"
    );
}

#[test]
fn named_capture_is_expanded() {
    let op = replace(r#"(?P<first>"address":\s+\")([\w\d\s]+),"#, "${first}...");
    assert_eq!(
        op.run_regex(&r#""address": "285 LA PALA DR APT 2343, SAN JOSE CA 95127""#.to_owned()),
        r#""address": "... SAN JOSE CA 95127""#
    );
}

#[test]
fn indexed_capture_is_expanded() {
    let op = replace(r"(\w+)@(\w+)", "$2 at ${1}");
    assert_eq!(op.run_regex(&"mail bob@example now".to_owned()), "mail example at bob now");
}

#[test]
fn unknown_named_capture_is_rejected_when_compiling() {
    match Operation::compile(&declare("b", "[$missing]")) {
        Err(StageError::InvalidTemplate { pattern, template, reference }) => {
            assert_eq!(pattern, "b");
            assert_eq!(template, "[$missing]");
            assert_eq!(reference, "missing");
        }
        _ => panic!("a reference to a group that the pattern lacks must not compile"),
    }
}

#[test]
fn unknown_braced_capture_is_rejected_when_compiling() {
    match Operation::compile(&declare("a", "${nope}")) {
        Err(StageError::InvalidTemplate { reference, .. }) => assert_eq!(reference, "nope"),
        _ => panic!("a reference to a group that the pattern lacks must not compile"),
    }
}

#[test]
fn capture_index_beyond_the_groups_is_rejected_when_compiling() {
    match Operation::compile(&declare(r"(\d)-(\d)", "$1 $2 $3")) {
        Err(StageError::InvalidTemplate { reference, .. }) => assert_eq!(reference, "3"),
        _ => panic!("an index beyond the groups of the pattern must not compile"),
    }
    assert!(Operation::compile(&declare(r"(\d)-(\d)", "$0 $1 $2")).is_ok());
    assert!(matches!(
        Operation::compile(&declare("a", "$99999999999999999999999999")),
        Err(StageError::InvalidTemplate { .. })
    ));
}

#[test]
fn first_unbound_reference_is_the_one_reported() {
    match Operation::compile(&declare("(?P<x>a)", "$x ${y} $2 ${z}")) {
        Err(StageError::InvalidTemplate { reference, .. }) => assert_eq!(reference, "y"),
        _ => panic!("a reference to a group that the pattern lacks must not compile"),
    }
}

#[test]
fn longest_name_is_the_reference() {
    // `$1a` names the group `1a`, which the pattern lacks; `${1}a` names group 1.
    match Operation::compile(&declare("(b)", "$1a")) {
        Err(StageError::InvalidTemplate { reference, .. }) => assert_eq!(reference, "1a"),
        _ => panic!("`$1a` refers to a group named `1a`"),
    }
    let op = replace("(b)", "${1}a");
    assert_eq!(op.run_regex(&"abc".to_owned()), "abac");
}

#[test]
fn dollar_without_a_reference_is_ordinary_text() {
    assert_eq!(replace("b", "$$x").run_regex(&"abc".to_owned()), "a$xc");
    assert_eq!(replace("b", "5$").run_regex(&"abc".to_owned()), "a5$c");
    assert_eq!(replace("b", "$-$.").run_regex(&"abc".to_owned()), "a$-$.c");
    assert_eq!(replace("b", "${open").run_regex(&"abc".to_owned()), "a${openc");
}

#[test]
fn signed_index_names_a_group() {
    let op = replace("(b)(c)", "${+2}${+1}");
    assert_eq!(op.run_regex(&"abcd".to_owned()), "acbd");
    assert!(matches!(
        Operation::compile(&declare("(b)", "${-1}")),
        Err(StageError::InvalidTemplate { .. })
    ));
}

#[test]
fn braced_name_may_hold_any_text() {
    let op = replace(r"(?P<a.b>x)", "[${a.b}]");
    assert_eq!(op.run_regex(&"axb".to_owned()), "a[x]b");
    match Operation::compile(&declare("x", "${a b}")) {
        Err(StageError::InvalidTemplate { reference, .. }) => assert_eq!(reference, "a b"),
        _ => panic!("a reference to a group that the pattern lacks must not compile"),
    }
}

#[test]
fn invalid_pattern_is_reported_before_the_template_is_read() {
    assert!(matches!(
        Operation::compile(&declare("(", "$nope")),
        Err(StageError::InvalidPattern { .. })
    ));
}

#[test]
fn invalid_pattern_carries_the_compilers_report() {
    let expected = regex::Regex::new("a(b").unwrap_err().to_string();
    match Operation::compile(&declare("a(b", "x")) {
        Err(StageError::InvalidPattern { pattern, message }) => {
            assert_eq!(pattern, "a(b");
            assert_eq!(message, expected);
            assert!(message.contains("unclosed group"));
        }
        _ => panic!("an unbalanced group must not compile"),
    }
}

#[test]
fn no_match_passes_text_through() {
    let op = replace(SSN, MASK);
    let input = "not a match".to_owned();
    assert!(!op.is_match(&input));
    assert_eq!(op.run_regex(&input), input);
}

#[test]
fn is_match_finds_pattern_anywhere() {
    let op = replace(SSN, MASK);
    assert!(op.is_match("ssn 123-45-6789 here"));
    assert!(!op.is_match("ssn 123-45-678 here"));
    assert!(!op.is_match(""));
}

#[test]
fn empty_text_stays_empty() {
    let op = replace(SSN, MASK);
    assert_eq!(op.run_regex(&String::new()), "");
}

#[test]
fn compiled_operation_keeps_pattern_and_template() {
    let op = replace(SSN, MASK);
    assert_eq!(op.pattern(), SSN);
    assert_eq!(op.template(), MASK);
}

#[test]
fn compile_rejects_unbalanced_group() {
    let result = Operation::compile(&declare("(unclosed", "x"));
    match result {
        Err(StageError::InvalidPattern { pattern, message }) => {
            assert_eq!(pattern, "(unclosed");
            assert!(!message.is_empty());
        }
        _ => panic!("an unbalanced group must not compile"),
    }
}

#[test]
fn compile_rejects_oversized_program() {
    let result = Operation::compile(&declare(r"\w{1000}{1000}", "x"));
    assert!(matches!(result, Err(StageError::InvalidPattern { .. })));
}

#[test]
fn run_regex_is_repeatable() {
    let op = replace(SSN, MASK);
    let input = "a 123-45-6789 b".to_owned();
    let first = op.run_regex(&input);
    let second = op.run_regex(&input);
    assert_eq!(first, second);
    assert_eq!(first, "a ***-**-**** b");
}

#[test]
fn declared_operation_can_be_cloned_and_compared() {
    let spec = declare(SSN, MASK);
    let copy = spec.clone();
    assert_eq!(spec, copy);
    assert_ne!(spec, declare(SSN, "other"));
}
