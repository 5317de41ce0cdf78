//! What holds of every pipeline, every configuration and every record,
//! proved from the definitions that the contracts of the library use.

use vstd::prelude::*;
use crate::engine::{compile_report, pattern_groups};
use crate::error::Failure;
use crate::rule::{all_accepted, apply_rules, compiled, is_first_rejected, Rule};
use crate::stage::{configured, mapped, rewritten, transformed, Record};
use crate::template::first_unbound;

verus! {

/// A pipeline without operations hands every text back unchanged.
pub proof fn lemma_empty_pipeline_is_identity(text: Seq<char>)
    ensures
        apply_rules(Seq::<Rule>::empty(), text) == text,
{
}

/// A pipeline of one operation rewrites the text with that operation.
pub proof fn lemma_single_operation(rule: Rule, text: Seq<char>)
    ensures
        apply_rules(seq![rule], text) == rule.rewrite(text),
{
    let rules = seq![rule];
    assert(rules.drop_last() =~= Seq::<Rule>::empty());
    assert(apply_rules(rules.drop_last(), text) == text);
}

/// Applying operations is a left fold: a pipeline that is made of two
/// parts hands the output of the first part to the second, which never
/// sees the text as it came in.
pub proof fn lemma_apply_in_sequence(first: Seq<Rule>, second: Seq<Rule>, text: Seq<char>)
    ensures
        apply_rules(first + second, text) == apply_rules(second, apply_rules(first, text)),
    decreases second.len(),
{
    if second.len() == 0 {
        assert(first + second =~= first);
    } else {
        let whole = first + second;
        assert(whole.drop_last() =~= first + second.drop_last());
        assert(whole.last() == second.last());
        lemma_apply_in_sequence(first, second.drop_last(), text);
    }
}

/// Of two operations the second rewrites what the first has produced, so
/// that the order in which they are declared decides the result.
pub proof fn lemma_order_of_two(a: Rule, b: Rule, text: Seq<char>)
    ensures
        apply_rules(seq![a, b], text) == b.rewrite(a.rewrite(text)),
        apply_rules(seq![b, a], text) == a.rewrite(b.rewrite(text)),
{
    lemma_single_operation(a, text);
    lemma_single_operation(b, text);
    lemma_single_operation(b, a.rewrite(text));
    lemma_single_operation(a, b.rewrite(text));
    assert(seq![a, b] =~= seq![a] + seq![b]);
    assert(seq![b, a] =~= seq![b] + seq![a]);
    lemma_apply_in_sequence(seq![a], seq![b], text);
    lemma_apply_in_sequence(seq![b], seq![a], text);
}

/// An operation whose pattern does not occur in the text leaves the text
/// unchanged.
pub proof fn lemma_no_match_passes_through(rule: Rule, text: Seq<char>)
    requires
        !rule.matches(text),
    ensures
        rule.rewrite(text) == text,
{
}

/// A pipeline none of whose patterns occurs in the text leaves the text
/// unchanged.
pub proof fn lemma_no_match_anywhere_passes_through(rules: Seq<Rule>, text: Seq<char>)
    requires
        forall|i: int| 0 <= i < rules.len() ==> !(#[trigger] rules[i]).matches(text),
    ensures
        apply_rules(rules, text) == text,
    decreases rules.len(),
{
    if rules.len() > 0 {
        let front = rules.drop_last();
        assert forall|i: int| 0 <= i < front.len() implies !(#[trigger] front[i]).matches(text) by {
            assert(front[i] == rules[i]);
        }
        lemma_no_match_anywhere_passes_through(front, text);
        assert(!rules[rules.len() - 1].matches(text));
    }
}

/// Compiling operations that can all be compiled keeps them as they were
/// declared: as many as were declared, each at its place.
pub proof fn lemma_compile_keeps_count_and_order(rules: Seq<Rule>)
    requires
        all_accepted(rules),
    ensures
        compiled(rules) is Ok,
        compiled(rules)->Ok_0.len() == rules.len(),
        forall|i: int| 0 <= i < rules.len() ==> compiled(rules)->Ok_0[i] == rules[i],
{
}

/// Compiling no operations gives the empty pipeline.
pub proof fn lemma_compile_nothing()
    ensures
        compiled(Seq::<Rule>::empty()) == Ok::<Seq<Rule>, Failure>(Seq::<Rule>::empty()),
{
}

/// Compiling succeeds exactly when every pattern compiles and every
/// template refers to groups of its pattern only.
pub proof fn lemma_compile_succeeds_iff_all_accepted(rules: Seq<Rule>)
    ensures
        compiled(rules) is Ok <==> forall|i: int|
            0 <= i < rules.len() ==> (#[trigger] rules[i]).compiles() && rules[i].binds(),
{
    if all_accepted(rules) {
        assert forall|i: int| 0 <= i < rules.len() implies (#[trigger] rules[i]).compiles()
            && rules[i].binds() by {
            assert(rules[i].accepted());
        }
    } else {
        let i = choose|i: int| 0 <= i < rules.len() && !(#[trigger] rules[i]).accepted();
        assert(!(rules[i].compiles() && rules[i].binds()));
    }
}

/// One pattern that does not compile fails the compilation of the whole
/// list, wherever in the list it stands: no part of the list is compiled
/// into a pipeline.
pub proof fn lemma_one_invalid_pattern_is_fatal(rules: Seq<Rule>, i: int)
    requires
        0 <= i < rules.len(),
        !rules[i].compiles(),
    ensures
        compiled(rules) is Err,
{
    assert(!rules[i].accepted());
}

/// One template that refers to a group that its pattern lacks fails the
/// compilation of the whole list: no operation is ever applied with a
/// reference that names no group.
pub proof fn lemma_one_unbound_reference_is_fatal(rules: Seq<Rule>, i: int)
    requires
        0 <= i < rules.len(),
        !rules[i].binds(),
    ensures
        compiled(rules) is Err,
{
    assert(!rules[i].accepted());
}

/// The failure is that of the first operation that cannot be compiled: its
/// pattern with the compiler's report where the pattern does not compile,
/// and else its template with the first reference that names no group.
pub proof fn lemma_first_rejected_is_reported(rules: Seq<Rule>, i: int)
    requires
        is_first_rejected(rules, i),
    ensures
        !rules[i].compiles() ==> compiled(rules) == Err::<Seq<Rule>, Failure>(
            Failure::InvalidPattern {
                pattern: rules[i].pattern(),
                message: compile_report(rules[i].pattern()),
            },
        ),
        rules[i].compiles() ==> compiled(rules) == Err::<Seq<Rule>, Failure>(
            Failure::InvalidTemplate {
                pattern: rules[i].pattern(),
                template: rules[i].template(),
                reference: first_unbound(rules[i].template(), pattern_groups(rules[i].pattern())),
            },
        ),
{
    let k = choose|k: int| is_first_rejected(rules, k);
    assert(k == i);
}

/// A configuration that holds an operation that cannot be compiled
/// configures nothing.
pub proof fn lemma_rejected_operation_configures_nothing(raw: Seq<char>, rules: Seq<Rule>, i: int)
    requires
        crate::config::declared(raw) == Ok::<Seq<Rule>, Failure>(rules),
        0 <= i < rules.len(),
        !rules[i].compiles() || !rules[i].binds(),
    ensures
        configured(Some(raw)) is Err,
{
    assert(!rules[i].accepted());
}

/// Rewriting a record with no operations hands its text back unchanged,
/// character for character, whether the text is JSON or not.
pub proof fn lemma_rewrite_with_nothing_is_identity(payload: Seq<u8>)
    requires
        vstd::utf8::valid_utf8(payload),
    ensures
        rewritten(Seq::<Rule>::empty(), payload) == Ok::<Seq<char>, Failure>(
            vstd::utf8::decode_utf8(payload),
        ),
{
}

/// Rewriting a record none of whose text any pattern occurs in hands the
/// text back unchanged, whatever the number of operations and whatever
/// their templates.
pub proof fn lemma_rewrite_without_match_is_identity(rules: Seq<Rule>, payload: Seq<u8>)
    requires
        vstd::utf8::valid_utf8(payload),
        forall|i: int|
            0 <= i < rules.len() ==> !(#[trigger] rules[i]).matches(
                vstd::utf8::decode_utf8(payload),
            ),
    ensures
        rewritten(rules, payload) == Ok::<Seq<char>, Failure>(vstd::utf8::decode_utf8(payload)),
{
    lemma_no_match_anywhere_passes_through(rules, vstd::utf8::decode_utf8(payload));
}

/// Rewriting a record is a strict left fold: what the operations and one
/// more make of a record is what the one more makes of what the operations
/// before it made, and a single operation rewrites the text of the record.
pub proof fn lemma_rewrite_is_a_left_fold(prefix: Seq<Rule>, last: Rule, payload: Seq<u8>)
    requires
        vstd::utf8::valid_utf8(payload),
    ensures
        rewritten(prefix, payload) is Ok,
        rewritten(prefix.push(last), payload) == Ok::<Seq<char>, Failure>(
            last.rewrite(rewritten(prefix, payload)->Ok_0),
        ),
        rewritten(seq![last], payload) == Ok::<Seq<char>, Failure>(
            last.rewrite(vstd::utf8::decode_utf8(payload)),
        ),
{
    let whole = prefix.push(last);
    assert(whole.drop_last() =~= prefix);
    assert(whole.last() == last);
    lemma_single_operation(last, vstd::utf8::decode_utf8(payload));
}

/// A payload that is not UTF-8 is refused before any operation is applied.
pub proof fn lemma_non_text_is_refused(rules: Seq<Rule>, payload: Seq<u8>)
    requires
        !vstd::utf8::valid_utf8(payload),
    ensures
        rewritten(rules, payload) == Err::<Seq<char>, Failure>(Failure::NonTextPayload),
        transformed(rules, payload) == Err::<Seq<char>, Failure>(Failure::NonTextPayload),
{
}

/// What the stage makes of a payload depends on the rules and the payload
/// alone: equal rules and equal payloads give the same text or the same
/// failure. The contract of `apply_regex_ops_to_json_record` pins its
/// result to the rewritten text and that of `map` to the transformed one,
/// so that two runs on the same input agree.
pub proof fn lemma_transform_is_deterministic(
    rules: Seq<Rule>,
    payload: Seq<u8>,
    again_rules: Seq<Rule>,
    again_payload: Seq<u8>,
)
    requires
        rules == again_rules,
        payload == again_payload,
    ensures
        rewritten(rules, payload) == rewritten(again_rules, again_payload),
        transformed(rules, payload) == transformed(again_rules, again_payload),
{
}

/// A stage that is not ready refuses every record, and with a failure of
/// its own kind.
pub proof fn lemma_uninitialized_refuses(record: Record)
    ensures
        mapped(None, record) == Err::<(Option<Seq<u8>>, Seq<u8>), Failure>(
            Failure::UninitializedPipeline,
        ),
{
}

/// A result that is not well-formed JSON is never emitted: the record
/// fails as a whole.
pub proof fn lemma_malformed_result_is_refused(rules: Seq<Rule>, record: Record)
    requires
        vstd::utf8::valid_utf8(record.value@),
        crate::json::canonical(apply_rules(rules, vstd::utf8::decode_utf8(record.value@))) is None,
    ensures
        mapped(Some(rules), record) == Err::<(Option<Seq<u8>>, Seq<u8>), Failure>(
            Failure::MalformedResultPayload,
        ),
{
}

} // verus!
