//! The schema validator: one structural schema, compiled once, against
//! which every registry document is checked before any of its records is
//! used.
//!
//! Parsing and validation are done by `serde_json` and `jsonschema`. What
//! this module assumes of them is stated on the items that call them.

use vstd::prelude::*;
use crate::text::{chars_of, texts};

verus! {

/// A parsed JSON document, opaque to the verifier.
#[verifier::external_type_specification]
#[verifier::external_body]
pub struct ExJsonValue(serde_json::Value);

/// The reason why a text is no JSON document, opaque to the verifier.
#[verifier::external_type_specification]
#[verifier::external_body]
pub struct ExJsonError(serde_json::Error);

/// A compiled validation tree, opaque to the verifier.
#[verifier::external_type_specification]
#[verifier::external_body]
pub struct ExValidationTree(jsonschema::JSONSchema);

/// What `serde_json` makes of `text`: the document that it reads, or
/// `None` where it reads none. It reads the texts that follow the JSON
/// grammar and nest no deeper than its recursion limit.
pub uninterp spec fn parse_result(text: Seq<char>) -> Option<serde_json::Value>;

/// What `jsonschema` makes of a schema document: the validation tree that
/// it compiles, or `None` where it refuses the document.
pub uninterp spec fn compile_result(schema: serde_json::Value) -> Option<jsonschema::JSONSchema>;

/// The message of every violation that `jsonschema` finds when it holds
/// `document` against `tree`, in the order in which it finds them.
pub uninterp spec fn violations_of(
    tree: jsonschema::JSONSchema,
    document: serde_json::Value,
) -> Seq<Seq<char>>;

/// Whether `text` is a JSON document.
pub open spec fn json_parses(text: Seq<char>) -> bool {
    parse_result(text) is Some
}

/// The document that `text` spells. Meaningful only where `json_parses`
/// holds.
pub open spec fn parsed_value(text: Seq<char>) -> serde_json::Value {
    parse_result(text)->Some_0
}

/// Whether `pattern` stands somewhere in `text`.
pub open spec fn holds_text(text: Seq<char>, pattern: Seq<char>) -> bool {
    exists|at: int|
        0 <= at && at + pattern.len() <= text.len() && #[trigger] text.subrange(
            at,
            at + pattern.len(),
        ) == pattern
}

/// Whether a schema text may hold a reference to another schema: it spells
/// `$ref`, or it holds a backslash, with which an escape could spell it.
/// A reference can lead validation in a circle that never ends, so such a
/// schema is not compiled.
pub open spec fn mentions_reference(text: Seq<char>) -> bool {
    holds_text(text, "$ref"@) || text.contains('\\')
}

/// Whether `tree` was compiled from a schema text without a reference.
pub open spec fn reference_free(tree: jsonschema::JSONSchema) -> bool {
    exists|text: Seq<char>|
        json_parses(text) && !mentions_reference(text) && #[trigger] compile_result(
            parsed_value(text),
        ) == Some(tree)
}

/// Calls `serde_json::from_str` for a `serde_json::Value`. Assumed: what
/// the call gives depends on the text alone.
#[verifier::external_body]
fn parse_json(text: &str) -> (parsed: Result<serde_json::Value, serde_json::Error>)
    ensures
        match parsed {
            Ok(value) => parse_result(text@) == Some(value),
            Err(_) => parse_result(text@) is None,
        },
{
    serde_json::from_str::<serde_json::Value>(text)
}

/// Calls `jsonschema::JSONSchema::compile` and, where it fails, writes the
/// error out with its `Display`. Assumed: whether the call succeeds, and
/// the tree it gives, depend on the schema document alone. Nothing is
/// assumed of the error's text.
#[verifier::external_body]
fn compile_tree(schema: &serde_json::Value) -> (compiled: Result<jsonschema::JSONSchema, String>)
    ensures
        match compiled {
            Ok(tree) => compile_result(*schema) == Some(tree),
            Err(_) => compile_result(*schema) is None,
        },
{
    match jsonschema::JSONSchema::compile(schema) {
        Ok(tree) => Ok(tree),
        Err(error) => Err(error.to_string()),
    }
}

/// Calls `jsonschema::JSONSchema::validate` and writes out every error that
/// it yields with its `Display`; no error gives the empty list. Assumed:
/// the errors depend on the tree and the document alone. A tree compiled
/// from a schema with a reference is left out: on a reference that leads
/// back to itself the call does not return.
#[verifier::external_body]
fn collect_violations(tree: &jsonschema::JSONSchema, document: &serde_json::Value) -> (messages:
    Vec<String>)
    requires
        reference_free(*tree),
    ensures
        texts(messages@) == violations_of(*tree, *document),
{
    let mut messages: Vec<String> = Vec::new();
    if let Err(errors) = tree.validate(document) {
        for error in errors {
            messages.push(error.to_string());
        }
    }
    messages
}

/// The schema of a registry document: an array of records, each with the
/// fields of the canonical record. `source` may be missing; every other
/// field is required.
pub const RECORD_SCHEMA: &'static str = r#"{
  "$schema": "http://json-schema.org/draft-07/schema#",
  "title": "trusted package registry",
  "type": "array",
  "items": {
    "type": "object",
    "required": ["name", "version", "hash", "trust_score", "endorsed_by", "last_reviewed"],
    "properties": {
      "name": { "type": "string", "minLength": 1 },
      "version": { "type": "string" },
      "hash": { "type": "string" },
      "trust_score": { "type": "number" },
      "endorsed_by": { "type": "array", "items": { "type": "string" } },
      "last_reviewed": { "type": "string" },
      "source": { "type": "string" }
    }
  }
}"#;

/// A schema ready to validate documents. It is compiled from a schema
/// text without a reference, so that validation against it always ends.
pub struct CompiledSchema {
    tree: jsonschema::JSONSchema,
}

/// Why a schema document could not be compiled.
#[derive(Debug)]
pub enum SchemaCompileError {
    /// The schema document is no JSON document.
    NotJson { message: String },
    /// The schema document may hold a reference to another schema.
    HasReference,
    /// The schema document is JSON but no valid schema.
    NotASchema { message: String },
}

/// The violations that a document commits against a schema. Never empty.
#[derive(Debug)]
pub struct ValidationError {
    pub messages: Vec<String>,
}

/// The verdict on a document given every violation found in it: none is a
/// pass, and any number of them fails with all of them, in the order found.
pub open spec fn spec_judge(messages: Seq<Seq<char>>) -> Result<(), Seq<Seq<char>>> {
    if messages.len() == 0 {
        Ok(())
    } else {
        Err(messages)
    }
}

/// The messages of a validation result.
pub open spec fn judged_view(judged: Result<(), ValidationError>) -> Result<(), Seq<Seq<char>>> {
    match judged {
        Ok(()) => Ok(()),
        Err(error) => Err(texts(error.messages@)),
    }
}

/// Turns the list of violations found in a document into the verdict on it.
pub fn judge(messages: Vec<String>) -> (judged: Result<(), ValidationError>)
    ensures
        judged_view(judged) == spec_judge(texts(messages@)),
{
    if messages.len() == 0 {
        Ok(())
    } else {
        Err(ValidationError { messages })
    }
}

/// Reads `text` as a JSON document.
pub fn parse_document(text: &str) -> (parsed: Result<serde_json::Value, String>)
    ensures
        match parsed {
            Ok(value) => json_parses(text@) && value == parsed_value(text@),
            Err(_) => !json_parses(text@),
        },
{
    match parse_json(text) {
        Ok(value) => Ok(value),
        Err(error) => Err(error.to_string()),
    }
}

/// Decides `mentions_reference`.
pub fn may_hold_reference(text: &str) -> (found: bool)
    ensures
        found == mentions_reference(text@),
{
    let chars = chars_of(text);
    proof {
        reveal_strlit("$ref");
    }
    let ghost pattern = "$ref"@;
    let mut i: usize = 0;
    while i < chars.len()
        invariant
            0 <= i <= chars.len(),
            chars@ == text@,
            pattern == "$ref"@,
            pattern.len() == 4,
            pattern[0] == '$',
            pattern[1] == 'r',
            pattern[2] == 'e',
            pattern[3] == 'f',
            forall|k: int| 0 <= k < i ==> text@[k] != '\\',
            forall|k: int|
                0 <= k < i && k + 4 <= text@.len() ==> #[trigger] text@.subrange(k, k + 4)
                    != pattern,
        decreases chars.len() - i,
    {
        if chars[i] == '\\' {
            proof {
                assert(text@.contains('\\'));
            }
            return true;
        }
        if chars[i] == '$' && chars.len() - i >= 4 && chars[i + 1] == 'r' && chars[i + 2] == 'e'
            && chars[i + 3] == 'f' {
            proof {
                assert(text@.subrange(i as int, i + 4) =~= pattern);
            }
            return true;
        }
        proof {
            if i + 4 <= text@.len() {
                let piece = text@.subrange(i as int, i + 4);
                assert(piece[0] == text@[i as int]);
                assert(piece[1] == text@[i + 1]);
                assert(piece[2] == text@[i + 2]);
                assert(piece[3] == text@[i + 3]);
            }
        }
        i = i + 1;
    }
    proof {
        assert(!text@.contains('\\'));
        assert(!holds_text(text@, pattern));
    }
    false
}

/// Whether a schema text compiles: it is a JSON document, it holds no
/// reference, and the validator takes the document for a schema.
pub open spec fn schema_compiles(text: Seq<char>) -> bool {
    &&& json_parses(text)
    &&& !mentions_reference(text)
    &&& compile_result(parsed_value(text)) is Some
}

/// Compiles a schema document. The three ways to fail exclude each other:
/// the text is no JSON document; it is one but may hold a reference; or
/// the validator does not take it for a schema.
pub fn compile(schema_document: &str) -> (compiled: Result<CompiledSchema, SchemaCompileError>)
    ensures
        match compiled {
            Ok(schema) => schema_compiles(schema_document@) && compile_result(
                parsed_value(schema_document@),
            ) == Some(schema.tree_view()),
            Err(SchemaCompileError::NotJson { .. }) => !json_parses(schema_document@),
            Err(SchemaCompileError::HasReference) => json_parses(schema_document@)
                && mentions_reference(schema_document@),
            Err(SchemaCompileError::NotASchema { .. }) => json_parses(schema_document@)
                && !mentions_reference(schema_document@) && compile_result(
                parsed_value(schema_document@),
            ) is None,
        },
{
    match parse_document(schema_document) {
        Err(message) => Err(SchemaCompileError::NotJson { message }),
        Ok(value) => {
            if may_hold_reference(schema_document) {
                return Err(SchemaCompileError::HasReference);
            }
            match compile_tree(&value) {
                Ok(tree) => Ok(CompiledSchema { tree }),
                Err(message) => Err(SchemaCompileError::NotASchema { message }),
            }
        },
    }
}

impl CompiledSchema {
    #[verifier::type_invariant]
    closed spec fn inv(self) -> bool {
        reference_free(self.tree)
    }

    /// The validation tree that the schema holds.
    pub closed spec fn tree_view(self) -> jsonschema::JSONSchema {
        self.tree
    }

    /// Validates a parsed document: a pass where the validator finds no
    /// violation, else a failure that carries every violation it finds, not
    /// only the first. Nothing is changed, and the schema can be used again.
    pub fn validate(&self, document: &serde_json::Value) -> (judged: Result<(), ValidationError>)
        ensures
            judged_view(judged) == spec_judge(violations_of(self.tree_view(), *document)),
    {
        proof {
            use_type_invariant(self);
        }
        judge(collect_violations(&self.tree, document))
    }

    /// Parses and validates the text of a document. `Ok(Ok(()))` is a pass,
    /// `Ok(Err(..))` carries the violations, and the outer `Err` says why
    /// the text is no JSON document.
    pub fn validate_text(&self, text: &str) -> (judged: Result<Result<(), ValidationError>, String>)
        ensures
            match judged {
                Ok(inner) => json_parses(text@) && judged_view(inner) == spec_judge(
                    violations_of(self.tree_view(), parsed_value(text@)),
                ),
                Err(_) => !json_parses(text@),
            },
    {
        match parse_document(text) {
            Err(message) => Err(message),
            Ok(value) => Ok(self.validate(&value)),
        }
    }
}

} // verus!
