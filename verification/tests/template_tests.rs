use regex_map::template::{
    chars_of, digit, find_references, name_char, names_group, parse_index, unbound_reference,
};

fn names(template: &str) -> Vec<String> {
    let chars = chars_of(template);
    find_references(&chars)
        .iter()
        .map(|(start, end)| chars[*start..*end].iter().collect::<String>())
        .collect()
}

fn index(name: &str) -> Option<usize> {
    let chars = chars_of(name);
    parse_index(&chars, 0, chars.len())
}

fn groups(names: &[Option<&str>]) -> Vec<Option<String>> {
    names.iter().map(|name| name.map(|text| text.to_owned())).collect()
}

#[test]
fn chars_of_gives_every_character() {
    assert_eq!(chars_of(""), Vec::<char>::new());
    assert_eq!(chars_of("a$b"), vec!['a', '$', 'b']);
    assert_eq!(chars_of("\u{e9}\u{4e2d}x"), vec!['\u{e9}', '\u{4e2d}', 'x']);
}

#[test]
fn digits_and_name_characters_are_told_apart() {
    for c in ['0', '5', '9'] {
        assert!(digit(c));
        assert!(name_char(c));
    }
    for c in ['a', 'z', 'A', 'Z', '_', 'm'] {
        assert!(!digit(c));
        assert!(name_char(c));
    }
    for c in ['/', ':', '@', '[', '`', '{', '-', '+', ' ', '$', '}', '\u{e9}', '\u{663}'] {
        assert!(!digit(c));
        assert!(!name_char(c));
    }
}

#[test]
fn template_without_dollar_has_no_reference() {
    assert_eq!(names(""), Vec::<String>::new());
    assert_eq!(names("***-**-****"), Vec::<String>::new());
    assert_eq!(names("{first} 1"), Vec::<String>::new());
}

#[test]
fn references_are_found_in_order() {
    assert_eq!(names("$foo"), vec!["foo"]);
    assert_eq!(names("${foo}"), vec!["foo"]);
    assert_eq!(names("$0"), vec!["0"]);
    assert_eq!(names("$10"), vec!["10"]);
    assert_eq!(names("${first}..."), vec!["first"]);
    assert_eq!(names("a $x b ${y} c $1$2"), vec!["x", "y", "1", "2"]);
    assert_eq!(names("$a$a"), vec!["a", "a"]);
}

#[test]
fn longest_run_of_name_characters_is_taken() {
    assert_eq!(names("$1a"), vec!["1a"]);
    assert_eq!(names("$first_name-$2nd."), vec!["first_name", "2nd"]);
    assert_eq!(names("${1}a"), vec!["1"]);
    assert_eq!(names("$a\u{e9}"), vec!["a"]);
}

#[test]
fn doubled_dollar_is_no_reference() {
    assert_eq!(names("$$"), Vec::<String>::new());
    assert_eq!(names("$$x"), Vec::<String>::new());
    assert_eq!(names("$$$x"), vec!["x"]);
    assert_eq!(names("$$$$x"), Vec::<String>::new());
    assert_eq!(names("$x$$y"), vec!["x"]);
}

#[test]
fn dollar_before_other_text_is_no_reference() {
    assert_eq!(names("$"), Vec::<String>::new());
    assert_eq!(names("5$"), Vec::<String>::new());
    assert_eq!(names("$ x"), Vec::<String>::new());
    assert_eq!(names("$-x"), Vec::<String>::new());
    assert_eq!(names("$\u{e9}"), Vec::<String>::new());
    assert_eq!(names("$}x"), Vec::<String>::new());
}

#[test]
fn unclosed_brace_is_no_reference() {
    assert_eq!(names("${"), Vec::<String>::new());
    assert_eq!(names("${open"), Vec::<String>::new());
    // Reading goes on after the `$`: what follows may hold a reference.
    assert_eq!(names("${open $x"), vec!["x"]);
    assert_eq!(names("${a${b}"), vec!["a${b"]);
}

#[test]
fn braced_reference_takes_any_text() {
    assert_eq!(names("${}"), vec![""]);
    assert_eq!(names("${a b}"), vec!["a b"]);
    assert_eq!(names("${foo[bar].baz}"), vec!["foo[bar].baz"]);
    assert_eq!(names("${\u{e9}t\u{e9}}!"), vec!["\u{e9}t\u{e9}"]);
    assert_eq!(names("${$x}"), vec!["$x"]);
    assert_eq!(names("${a}}${b}"), vec!["a", "b"]);
}

#[test]
fn decimal_name_is_a_group_index() {
    assert_eq!(index("0"), Some(0));
    assert_eq!(index("7"), Some(7));
    assert_eq!(index("10"), Some(10));
    assert_eq!(index("007"), Some(7));
    assert_eq!(index("+3"), Some(3));
    assert_eq!(index("18446744073709551615"), "18446744073709551615".parse::<usize>().ok());
}

#[test]
fn other_name_is_no_group_index() {
    assert_eq!(index(""), None);
    assert_eq!(index("+"), None);
    assert_eq!(index("-1"), None);
    assert_eq!(index("++1"), None);
    assert_eq!(index("1+"), None);
    assert_eq!(index("1a"), None);
    assert_eq!(index("a1"), None);
    assert_eq!(index("1 "), None);
    assert_eq!(index("\u{663}"), None);
    assert_eq!(index("340282366920938463463374607431768211456"), None);
    assert_eq!(index("99999999999999999999999999"), None);
}

#[test]
fn parse_index_reads_the_given_span_only() {
    let chars = chars_of("a12b");
    assert_eq!(parse_index(&chars, 1, 3), Some(12));
    assert_eq!(parse_index(&chars, 1, 2), Some(1));
    assert_eq!(parse_index(&chars, 2, 2), None);
    assert_eq!(parse_index(&chars, 0, 3), None);
    assert_eq!(parse_index(&chars, 1, 4), None);
}

#[test]
fn index_agrees_with_the_parser_of_std() {
    for name in ["0", "42", "+42", "0042", "-0", "+", "", "4 2", "1_000", "18446744073709551616"] {
        assert_eq!(index(name), name.parse::<usize>().ok());
    }
}

#[test]
fn group_is_found_by_its_name() {
    let list = groups(&[None, Some("first"), None, Some("last")]);
    assert!(names_group("first", &list));
    assert!(names_group("last", &list));
    assert!(!names_group("firs", &list));
    assert!(!names_group("", &list));
    assert!(!names_group("1", &list));
    assert!(!names_group("x", &Vec::new()));
}

#[test]
fn template_that_binds_has_no_unbound_reference() {
    let list = groups(&[None, Some("first"), None]);
    assert_eq!(unbound_reference("", &list), None);
    assert_eq!(unbound_reference("no reference, $$ only", &list), None);
    assert_eq!(unbound_reference("$0 $1 $2 ${first} $first", &list), None);
    assert_eq!(unbound_reference("${+2}", &list), None);
}

#[test]
fn first_unbound_reference_is_returned() {
    let list = groups(&[None, Some("first"), None]);
    assert_eq!(unbound_reference("$3", &list), Some("3"));
    assert_eq!(unbound_reference("$0 $second $3", &list), Some("second"));
    assert_eq!(unbound_reference("$first ${firs} $nope", &list), Some("firs"));
    assert_eq!(unbound_reference("$first_", &list), Some("first_"));
    assert_eq!(unbound_reference("${}", &list), Some(""));
    assert_eq!(unbound_reference("\u{e9}${\u{4e2d}}", &list), Some("\u{4e2d}"));
    assert_eq!(unbound_reference("$0", &Vec::new()), Some("0"));
}

#[test]
fn number_too_large_for_an_index_is_looked_up_as_a_name() {
    let big = "99999999999999999999999999";
    let list = groups(&[None, Some(big)]);
    assert_eq!(unbound_reference("$99999999999999999999999999", &list), None);
    assert_eq!(unbound_reference("$99999999999999999999999999", &groups(&[None])), Some(big));
}
