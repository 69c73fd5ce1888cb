//! Parsing one node's single argument into a length-bounded string.

use vstd::prelude::*;
use arrayvec::ArrayString;
use crate::document::{
    error_diagnostic, error_view, push_diagnostic, views, DiagnosticView, Node, ParseDiagnostic,
    Parsed, Source, SourceView, Value,
};
use crate::helpers::{
    arity_diagnostics, get_single_argument_value, kind_name, single_argument, value_kind_name,
};
use crate::text::{decimal, push_decimal, utf8_len};

verus! {

#[verifier::external_type_specification]
#[verifier::external_body]
pub struct ExArrayString<const CAP: usize>(ArrayString<CAP>);

/// Relies on arrayvec's `ArrayString::new`: an empty string, which panics
/// when the capacity is over `u32::MAX`.
pub assume_specification<const CAP: usize>[ ArrayString::<CAP>::new ]() -> (r: ArrayString<CAP>)
    requires
        CAP <= u32::MAX,
;

/// Relies on arrayvec's `ArrayString::from`: it fails exactly when the text
/// takes more than `CAP` bytes.
#[verifier::external_body]
fn array_string_from<const CAP: usize>(s: &str) -> (r: Option<ArrayString<CAP>>)
    requires
        CAP <= u32::MAX,
    ensures
        r is Some <==> utf8_len(s@) <= CAP,
{
    ArrayString::<CAP>::from(s).ok()
}

pub open spec fn capacity_message(cap: nat, len: nat) -> Seq<char> {
    "Expected string with less than or equal to "@ + decimal(cap) + " characters but contained "@
        + decimal(len) + " characters. Try reducing the number of characters."@
}

pub open spec fn type_message(v: Value) -> Seq<char> {
    "Expected type String but was "@ + kind_name(v)
}

/// Whether parsing `node` as a string of at most `cap` bytes succeeds, and
/// the text it yields.
pub open spec fn bounded_text(cap: nat, node: Node) -> (bool, Seq<char>) {
    match single_argument(node) {
        Some(Value::String(s)) => if utf8_len(s@) <= cap {
            (true, s@)
        } else {
            (false, seq![])
        },
        _ => (false, seq![]),
    }
}

/// What parsing `node` as a string of at most `cap` bytes reports.
pub open spec fn bounded_text_diagnostics(
    cap: nat,
    input: SourceView,
    node: Node,
) -> Seq<DiagnosticView> {
    arity_diagnostics(input, node) + match single_argument(node) {
        Some(Value::String(s)) => if utf8_len(s@) <= cap {
            seq![]
        } else {
            seq![error_view(input, node.span, capacity_message(cap, utf8_len(s@)), None)]
        },
        Some(v) => seq![error_view(input, node.span, type_message(v), None)],
        None => seq![],
    }
}

/// Parses the single string argument of `node`, which may take at most
/// `capacity` bytes. Too long a string, an argument of another kind, or a
/// wrong number of arguments gives an invalid, empty result, each with one
/// error diagnostic.
pub fn parse_bounded_string(
    capacity: usize,
    input: &Source,
    node: &Node,
    diagnostics: &mut Vec<ParseDiagnostic>,
) -> (r: Parsed<String>)
    ensures
        (r.valid, r.value@) == bounded_text(capacity as nat, *node),
        r.full_span == node.span,
        r.name_span == node.span,
        views(final(diagnostics)@) == views(old(diagnostics)@) + bounded_text_diagnostics(
            capacity as nat,
            input@,
            *node,
        ),
{
    let ghost start = views(diagnostics@);
    let arg = get_single_argument_value(input, node, diagnostics);
    let ghost middle = views(diagnostics@);
    match arg {
        Some(Value::String(value)) => {
            let len = value.as_str().as_bytes().len();
            if len <= capacity {
                assert(views(diagnostics@) =~= start + bounded_text_diagnostics(
                    capacity as nat,
                    input@,
                    *node,
                ));
                Parsed { value: value.clone(), full_span: node.span, name_span: node.span, valid: true }
            } else {
                let mut message = String::from_str(
                    "Expected string with less than or equal to ",
                );
                push_decimal(&mut message, capacity);
                message.append(" characters but contained ");
                push_decimal(&mut message, len);
                message.append(" characters. Try reducing the number of characters.");
                let d = error_diagnostic(input, node.span, message, None);
                push_diagnostic(diagnostics, d);
                assert(views(diagnostics@) =~= start + bounded_text_diagnostics(
                    capacity as nat,
                    input@,
                    *node,
                ));
                Parsed { value: String::new(), full_span: node.span, name_span: node.span, valid: false }
            }
        },
        Some(value) => {
            let mut message = String::from_str("Expected type String but was ");
            message.append(value_kind_name(value));
            let d = error_diagnostic(input, node.span, message, None);
            push_diagnostic(diagnostics, d);
            assert(views(diagnostics@) =~= start + bounded_text_diagnostics(
                capacity as nat,
                input@,
                *node,
            ));
            Parsed { value: String::new(), full_span: node.span, name_span: node.span, valid: false }
        },
        None => {
            assert(views(diagnostics@) =~= start + bounded_text_diagnostics(
                capacity as nat,
                input@,
                *node,
            ));
            Parsed { value: String::new(), full_span: node.span, name_span: node.span, valid: false }
        },
    }
}

/// Parses the single string argument of `node` into an `ArrayString` of
/// capacity `CAP`, as `parse_bounded_string` does with that capacity. An
/// invalid result holds the empty string.
pub fn parse_array_string<const CAP: usize>(
    input: &Source,
    node: &Node,
    diagnostics: &mut Vec<ParseDiagnostic>,
) -> (r: Parsed<ArrayString<CAP>>)
    requires
        CAP <= u32::MAX,
    ensures
        r.valid == bounded_text(CAP as nat, *node).0,
        r.full_span == node.span,
        r.name_span == node.span,
        views(final(diagnostics)@) == views(old(diagnostics)@) + bounded_text_diagnostics(
            CAP as nat,
            input@,
            *node,
        ),
{
    let text = parse_bounded_string(CAP, input, node, diagnostics);
    if text.valid {
        if let Some(value) = array_string_from::<CAP>(text.value.as_str()) {
            return Parsed { value, full_span: node.span, name_span: node.span, valid: true };
        }
    }
    Parsed { value: ArrayString::<CAP>::new(), full_span: node.span, name_span: node.span, valid: false }
}

/// The value that a parsed `ArrayString` is used as: itself.
pub fn finalize_array_string<const CAP: usize>(s: &ArrayString<CAP>) -> (r: ArrayString<CAP>)
    ensures
        r == *s,
{
    *s
}

} // verus!

verus! {

/// Parsing the same node twice as a bounded string, each time into an empty
/// list of diagnostics, gives equal results and equal diagnostics.
pub proof fn lemma_bounded_string_idempotent(
    cap: nat,
    input: SourceView,
    node: Node,
    r1: Parsed<String>,
    d1: Seq<ParseDiagnostic>,
    r2: Parsed<String>,
    d2: Seq<ParseDiagnostic>,
)
    requires
        (r1.valid, r1.value@) == bounded_text(cap, node),
        (r2.valid, r2.value@) == bounded_text(cap, node),
        r1.full_span == node.span && r1.name_span == node.span,
        r2.full_span == node.span && r2.name_span == node.span,
        views(d1) == views(Seq::empty()) + bounded_text_diagnostics(cap, input, node),
        views(d2) == views(Seq::empty()) + bounded_text_diagnostics(cap, input, node),
    ensures
        r1.valid == r2.valid,
        r1.value@ == r2.value@,
        r1.full_span == r2.full_span,
        r1.name_span == r2.name_span,
        views(d1) == views(d2),
{
}

} // verus!
