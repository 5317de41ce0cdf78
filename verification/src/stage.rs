//! The stage: initialized once from its configuration, then asked for the
//! transformed form of each record. The compiled pipeline is held in a
//! handle that the caller passes to every call.

use vstd::prelude::*;
use vstd::string::StrSliceExecFns;
use vstd::utf8::{decode_utf8, encode_utf8, valid_utf8};
use crate::config::{declared, parse_spec};
use crate::error::{Failure, StageError};
use crate::json::{canonical, validate};
use crate::pipeline::Pipeline;
use crate::rule::{apply_rules, compiled, Rule};
use crate::text::decode;

verus! {

/// The name of the configuration parameter that holds the operations.
pub const PARAM_NAME: &'static str = "spec";

/// A record as the stage sees it: a key that is carried through untouched,
/// and a value that is expected to be UTF-8 text.
#[derive(Debug, PartialEq, Eq)]
pub struct Record {
    pub key: Option<Vec<u8>>,
    pub value: Vec<u8>,
}

/// The state of the stage. It starts out uninitialized, becomes ready by
/// one successful initialization, and stays ready with the same pipeline
/// from then on: nothing takes a pipeline out again or puts another in its
/// place.
pub struct Stage {
    pipeline: Option<Pipeline>,
}

impl View for Stage {
    type V = Option<Seq<Rule>>;

    /// `None` while the stage is uninitialized, and the rules of its
    /// pipeline once it is ready.
    closed spec fn view(&self) -> Option<Seq<Rule>> {
        match self.pipeline {
            Some(pipeline) => Some(pipeline@),
            None => None,
        }
    }
}

/// The text of a parameter, if it was supplied.
pub open spec fn supplied(raw: Option<&str>) -> Option<Seq<char>> {
    match raw {
        Some(text) => Some(text@),
        None => None,
    }
}

/// The bytes of a key, if the record has one.
pub open spec fn key_bytes(key: Option<Vec<u8>>) -> Option<Seq<u8>> {
    match key {
        Some(bytes) => Some(bytes@),
        None => None,
    }
}

/// The rules that the stage is to run with, given its configuration
/// parameter: the parameter must be there and declare a list of operations,
/// every pattern must compile, and every template must refer to groups of
/// its pattern only.
pub open spec fn configured(raw: Option<Seq<char>>) -> Result<Seq<Rule>, Failure> {
    match raw {
        None => Err(Failure::MissingConfiguration { name: PARAM_NAME@ }),
        Some(text) => match declared(text) {
            Ok(rules) => compiled(rules),
            Err(failure) => Err(failure),
        },
    }
}

/// The text that the rules make of a payload: the payload read as UTF-8
/// and rewritten by the rules in order, as it comes out of the last of
/// them. Only a payload that is not UTF-8 fails.
pub open spec fn rewritten(rules: Seq<Rule>, payload: Seq<u8>) -> Result<Seq<char>, Failure> {
    if valid_utf8(payload) {
        Ok(apply_rules(rules, decode_utf8(payload)))
    } else {
        Err(Failure::NonTextPayload)
    }
}

/// The text that the stage emits for a payload: the rewritten text,
/// brought into canonical JSON. A rewritten text that is not JSON fails.
pub open spec fn transformed(rules: Seq<Rule>, payload: Seq<u8>) -> Result<Seq<char>, Failure> {
    match rewritten(rules, payload) {
        Ok(text) => match canonical(text) {
            Some(out) => Ok(out),
            None => Err(Failure::MalformedResultPayload),
        },
        Err(failure) => Err(failure),
    }
}

/// The record that the stage emits for `record`: the same key, and the
/// bytes of the transformed value.
pub open spec fn mapped(stage: Option<Seq<Rule>>, record: Record) -> Result<
    (Option<Seq<u8>>, Seq<u8>),
    Failure,
> {
    match stage {
        None => Err(Failure::UninitializedPipeline),
        Some(rules) => match transformed(rules, record.value@) {
            Ok(out) => Ok((key_bytes(record.key), encode_utf8(out))),
            Err(failure) => Err(failure),
        },
    }
}

impl Stage {
    /// A stage that has not been initialized.
    pub fn new() -> (stage: Stage)
        ensures
            stage@ is None,
    {
        Stage { pipeline: None }
    }

    /// Whether the stage has been initialized.
    pub fn is_ready(&self) -> (ready: bool)
        ensures
            ready == (self@ is Some),
    {
        self.pipeline.is_some()
    }

    /// The pipeline of a stage that is ready.
    pub fn pipeline(&self) -> (installed: Option<&Pipeline>)
        ensures
            match installed {
                Some(pipeline) => self@ == Some(pipeline@),
                None => self@ is None,
            },
    {
        self.pipeline.as_ref()
    }
}

/// Builds the pipeline from the configuration parameter, which is `None`
/// where the parameter was not supplied.
pub fn get_params(raw_spec: Option<&str>) -> (res: Result<Pipeline, StageError>)
    ensures
        match res {
            Ok(pipeline) => configured(supplied(raw_spec)) == Ok::<Seq<Rule>, Failure>(pipeline@),
            Err(e) => configured(supplied(raw_spec)) == Err::<Seq<Rule>, Failure>(e@),
        },
{
    let raw = match raw_spec {
        Some(raw) => raw,
        None => {
            return Err(StageError::MissingConfiguration { name: PARAM_NAME.to_owned() });
        },
    };
    let specs = match parse_spec(raw) {
        Ok(specs) => specs,
        Err(e) => {
            return Err(e);
        },
    };
    Pipeline::compile(&specs)
}

/// Initializes the stage. On success the stage is ready and holds the
/// compiled pipeline; on failure it stays uninitialized. A stage is
/// initialized once: the call is for a stage that is not ready yet.
pub fn init(stage: &mut Stage, raw_spec: Option<&str>) -> (res: Result<(), StageError>)
    requires
        old(stage)@ is None,
    ensures
        match res {
            Ok(_) => final(stage)@ is Some && configured(supplied(raw_spec)) == Ok::<
                Seq<Rule>,
                Failure,
            >(final(stage)@->0),
            Err(e) => final(stage)@ is None && configured(supplied(raw_spec)) == Err::<
                Seq<Rule>,
                Failure,
            >(e@),
        },
{
    match get_params(raw_spec) {
        Ok(pipeline) => {
            stage.pipeline = Some(pipeline);
            Ok(())
        },
        Err(e) => Err(e),
    }
}

/// Rewrites the value of a record with the operations of the pipeline, in
/// order, and returns the text as the last operation leaves it. The text is
/// not checked or reshaped here: a pipeline without operations, or one none
/// of whose patterns occurs, hands the text back as it came. Only a value
/// that is not UTF-8 fails.
pub fn apply_regex_ops_to_json_record(record: &Record, ops: &Pipeline) -> (res: Result<
    String,
    StageError,
>)
    ensures
        match res {
            Ok(out) => valid_utf8(record.value@) && out@ == apply_rules(
                ops@,
                decode_utf8(record.value@),
            ),
            Err(e) => !valid_utf8(record.value@) && e@ == Failure::NonTextPayload,
        },
        match res {
            Ok(out) => rewritten(ops@, record.value@) == Ok::<Seq<char>, Failure>(out@),
            Err(e) => rewritten(ops@, record.value@) == Err::<Seq<char>, Failure>(e@),
        },
{
    let text = match decode(record.value.as_slice()) {
        Ok(text) => text,
        Err(e) => {
            return Err(e);
        },
    };
    Ok(ops.apply(text))
}

/// Transforms one record: the key is handed on unchanged, the value is
/// rewritten, checked to be well-formed JSON and emitted in canonical form.
/// A stage that is not ready refuses the record, and a rewritten text that
/// is not JSON is never emitted.
pub fn map(stage: &Stage, record: &Record) -> (res: Result<(Option<Vec<u8>>, Vec<u8>), StageError>)
    ensures
        match res {
            Ok(out) => mapped(stage@, *record) == Ok::<(Option<Seq<u8>>, Seq<u8>), Failure>(
                (key_bytes(out.0), out.1@),
            ),
            Err(e) => mapped(stage@, *record) == Err::<(Option<Seq<u8>>, Seq<u8>), Failure>(e@),
        },
{
    let key = record.key.clone();
    let ops = match &stage.pipeline {
        Some(pipeline) => pipeline,
        None => {
            return Err(StageError::UninitializedPipeline);
        },
    };
    let data = match apply_regex_ops_to_json_record(record, ops) {
        Ok(data) => data,
        Err(e) => {
            return Err(e);
        },
    };
    match validate(data.as_str()) {
        Ok(out) => Ok((key, out.as_str().as_bytes_vec())),
        Err(e) => Err(e),
    }
}

} // verus!
