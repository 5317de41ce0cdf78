//! The compiled pipeline: operations in their declared order, compiled once
//! and applied to every text as a left fold.

use vstd::prelude::*;
use crate::error::{Failure, StageError};
use crate::operation::{Operation, OperationSpec};
use crate::rule::{all_accepted, apply_rules, compiled, is_first_rejected, rules_of, Rule};

verus! {

/// An ordered sequence of compiled operations. It offers no way to change
/// the operations or their order once it is built.
pub struct Pipeline {
    ops: Vec<Operation>,
}

impl View for Pipeline {
    type V = Seq<Rule>;

    closed spec fn view(&self) -> Seq<Rule> {
        rules_of(self.ops@)
    }
}

impl Pipeline {
    /// A pipeline of operations that are compiled already, in the order
    /// given.
    pub fn new(ops: Vec<Operation>) -> (pipeline: Pipeline)
        ensures
            pipeline@ == rules_of(ops@),
    {
        Pipeline { ops }
    }

    /// Compiles the declared operations in order. Where every one of them
    /// can be compiled, the pipeline holds one compiled operation for each
    /// declared one, in the same order. Otherwise nothing is built, and the
    /// failure is that of the first operation that cannot be compiled,
    /// whether for its pattern or for its template.
    pub fn compile(specs: &Vec<OperationSpec>) -> (res: Result<Pipeline, StageError>)
        ensures
            match res {
                Ok(pipeline) => compiled(rules_of(specs@)) == Ok::<Seq<Rule>, Failure>(pipeline@),
                Err(e) => compiled(rules_of(specs@)) == Err::<Seq<Rule>, Failure>(e@),
            },
            res matches Ok(pipeline) ==> pipeline@ == rules_of(specs@),
            res is Ok <==> all_accepted(rules_of(specs@)),
    {
        let ghost rules = rules_of(specs@);
        let mut ops: Vec<Operation> = Vec::new();
        let mut i: usize = 0;
        while i < specs.len()
            invariant
                i <= specs.len(),
                ops@.len() == i,
                rules == rules_of(specs@),
                forall|j: int| 0 <= j < i ==> #[trigger] rules[j].accepted(),
                forall|j: int| 0 <= j < i ==> (#[trigger] ops@[j])@ == rules[j],
            decreases specs.len() - i,
        {
            match Operation::compile(&specs[i]) {
                Ok(op) => {
                    ops.push(op);
                },
                Err(e) => {
                    proof {
                        assert(is_first_rejected(rules, i as int));
                        let k = choose|k: int| is_first_rejected(rules, k);
                        assert(k == i);
                    }
                    return Err(e);
                },
            }
            i += 1;
        }
        proof {
            assert(all_accepted(rules));
            assert(rules_of(ops@) =~= rules);
        }
        Ok(Pipeline { ops })
    }

    /// The number of operations.
    pub fn len(&self) -> (n: usize)
        ensures
            n == self@.len(),
    {
        self.ops.len()
    }

    /// The compiled operations, in the order in which they are applied.
    pub fn operations(&self) -> (ops: &Vec<Operation>)
        ensures
            rules_of(ops@) == self@,
    {
        &self.ops
    }

    /// Applies the operations to `text` in their order: each rewrites what
    /// the one before it produced, and the first rewrites `text`.
    pub fn apply(&self, text: &str) -> (out: String)
        ensures
            out@ == apply_rules(self@, text@),
    {
        let ghost rules = self@;
        let mut data: String = text.to_owned();
        let mut i: usize = 0;
        while i < self.ops.len()
            invariant
                i <= self.ops.len(),
                rules == rules_of(self.ops@),
                data@ == apply_rules(rules.take(i as int), text@),
            decreases self.ops.len() - i,
        {
            data = self.ops[i].run_regex(&data);
            proof {
                let next = rules.take(i + 1);
                assert(next.drop_last() =~= rules.take(i as int));
                assert(next.last() == self.ops@[i as int]@);
            }
            i += 1;
        }
        proof {
            assert(rules.take(i as int) =~= rules);
        }
        data
    }
}

} // verus!
