//! The runtime side of the mappers derived for records and enumerations:
//! locating a record's field nodes, and selecting an enumeration variant.

use vstd::prelude::*;
use crate::document::{
    error_diagnostic, error_view, push_diagnostic, views, DiagnosticView, Node, ParseDiagnostic,
    Parsed, Source, SourceView, Value,
};
use crate::helpers::{
    arity_diagnostics, child_named, get_children, get_single_argument_value, kind_name,
    has_child_named, lemma_child_named_exists, lemma_child_named_found, missing_diagnostics,
    missing_message, names_view, single_argument, value_kind_name,
};

verus! {

/// The index of the first name equal to `s`.
pub open spec fn variant_position(names: Seq<Seq<char>>, s: Seq<char>) -> Option<int>
    decreases names.len(),
{
    if names.len() == 0 {
        None
    } else {
        match variant_position(names.drop_last(), s) {
            Some(i) => Some(i),
            None => if names.last() == s {
                Some(names.len() - 1)
            } else {
                None
            },
        }
    }
}

proof fn lemma_variant_position_prefix(names: Seq<Seq<char>>, s: Seq<char>, k: int)
    requires
        0 <= k <= names.len(),
        variant_position(names.take(k), s) is Some,
    ensures
        variant_position(names, s) == variant_position(names.take(k), s),
    decreases names.len() - k,
{
    if k == names.len() {
        assert(names.take(k) =~= names);
    } else {
        assert(names.take(k + 1).drop_last() =~= names.take(k));
        lemma_variant_position_prefix(names, s, k + 1);
    }
}

/// `"s"`: the text in double quotes.
pub open spec fn quoted(s: Seq<char>) -> Seq<char> {
    "\""@ + s + "\""@
}

/// The quoted names, separated by `", "`.
pub open spec fn joined(names: Seq<Seq<char>>) -> Seq<char>
    decreases names.len(),
{
    if names.len() == 0 {
        seq![]
    } else if names.len() == 1 {
        quoted(names[0])
    } else {
        joined(names.drop_last()) + ", "@ + quoted(names.last())
    }
}

/// The help text that lists the valid names: `["foo", "bar-baz"]`.
pub open spec fn suggestion(names: Seq<Seq<char>>) -> Seq<char> {
    "Consider replacing it with one of ["@ + joined(names) + "]"@
}

pub open spec fn unknown_message(s: Seq<char>) -> Seq<char> {
    "Unknown value "@ + s
}

pub open spec fn enum_type_message(v: Value) -> Seq<char> {
    "Expected type string but was "@ + kind_name(v)
}

/// The variant that the single argument of `node` selects among `names`.
pub open spec fn enum_choice(names: Seq<Seq<char>>, node: Node) -> Option<int> {
    match single_argument(node) {
        Some(Value::String(s)) => variant_position(names, s@),
        _ => None,
    }
}

/// What selecting a variant of `names` for `node` reports.
pub open spec fn enum_diagnostics(
    names: Seq<Seq<char>>,
    input: SourceView,
    node: Node,
) -> Seq<DiagnosticView> {
    arity_diagnostics(input, node) + match single_argument(node) {
        Some(Value::String(s)) => if variant_position(names, s@) is Some {
            seq![]
        } else {
            seq![error_view(input, node.span, unknown_message(s@), Some(suggestion(names)))]
        },
        Some(v) => seq![error_view(input, node.span, enum_type_message(v), None)],
        None => seq![],
    }
}

fn position_of(names: &Vec<String>, s: &String) -> (r: Option<usize>)
    ensures
        match r {
            Some(i) => variant_position(names_view(names@), s@) == Some(i as int),
            None => variant_position(names_view(names@), s@) is None,
        },
{
    let ghost v = names_view(names@);
    let n = names.len();
    let mut i: usize = 0;
    while i < n
        invariant
            n == names@.len(),
            v == names_view(names@),
            0 <= i <= n,
            variant_position(v.take(i as int), s@) is None,
        decreases n - i,
    {
        assert(v.take(i as int + 1).drop_last() =~= v.take(i as int));
        if names[i] == *s {
            proof {
                lemma_variant_position_prefix(v, s@, i as int + 1);
            }
            return Some(i);
        }
        i = i + 1;
    }
    assert(v.take(n as int) =~= v);
    None
}

fn suggestion_text(names: &Vec<String>) -> (r: String)
    ensures
        r@ == suggestion(names_view(names@)),
{
    let ghost v = names_view(names@);
    let mut list = String::new();
    let mut i: usize = 0;
    while i < names.len()
        invariant
            v == names_view(names@),
            0 <= i <= names@.len(),
            list@ == joined(v.take(i as int)),
        decreases names@.len() - i,
    {
        assert(v.take(i as int + 1).drop_last() =~= v.take(i as int));
        if i > 0 {
            list.append(", ");
        }
        list.append("\"");
        list.append(names[i].as_str());
        list.append("\"");
        proof {
            if i == 0 {
                assert(v.take(1)[0] == v[0]);
            }
        }
        assert(list@ =~= joined(v.take(i as int + 1)));
        i = i + 1;
    }
    assert(v.take(i as int) =~= v);
    let mut r = String::from_str("Consider replacing it with one of [");
    r.append(list.as_str());
    r.append("]");
    r
}

/// Selects the variant named by the single string argument of `node`: the
/// index of the first name in `variant_names` that equals it. An unknown
/// name is reported together with the list of valid names; an argument of
/// another kind with its kind. The result is never marked valid, not even on
/// a match: callers go by `value`, which is `None` on every failure.
pub fn parse_enum_variant(
    input: &Source,
    node: &Node,
    variant_names: &Vec<String>,
    diagnostics: &mut Vec<ParseDiagnostic>,
) -> (r: Parsed<Option<usize>>)
    ensures
        match r.value {
            Some(i) => enum_choice(names_view(variant_names@), *node) == Some(i as int),
            None => enum_choice(names_view(variant_names@), *node) is None,
        },
        !r.valid,
        r.full_span == node.span,
        r.name_span == node.span,
        views(final(diagnostics)@) == views(old(diagnostics)@) + enum_diagnostics(
            names_view(variant_names@),
            input@,
            *node,
        ),
{
    let ghost start = views(diagnostics@);
    let ghost names = names_view(variant_names@);
    let arg = get_single_argument_value(input, node, diagnostics);
    let value = match arg {
        Some(Value::String(s)) => match position_of(variant_names, s) {
            Some(i) => Some(i),
            None => {
                let mut message = String::from_str("Unknown value ");
                message.append(s.as_str());
                let help = suggestion_text(variant_names);
                let d = error_diagnostic(input, node.span, message, Some(help));
                push_diagnostic(diagnostics, d);
                None
            },
        },
        Some(v) => {
            let mut message = String::from_str("Expected type string but was ");
            message.append(value_kind_name(v));
            let d = error_diagnostic(input, node.span, message, None);
            push_diagnostic(diagnostics, d);
            None
        },
        None => None,
    };
    assert(views(diagnostics@) =~= start + enum_diagnostics(names, input@, *node));
    Parsed { value, full_span: node.span, name_span: node.span, valid: false }
}

/// Whether `node` has a child for every name in `names`.
pub open spec fn all_children_present(node: Node, names: Seq<Seq<char>>) -> bool {
    forall|i: int| 0 <= i < names.len() ==> (#[trigger] child_named(node.children@, names[i])) is Some
}

/// Finds the child node of every field of a record, in the order of
/// `field_names`. Only when all of them are there does it return them; each
/// missing one is reported once.
pub fn locate_record_fields<'a>(
    input: &Source,
    node: &'a Node,
    field_names: &Vec<String>,
    diagnostics: &mut Vec<ParseDiagnostic>,
) -> (r: Option<Vec<&'a Node>>)
    ensures
        r is Some <==> all_children_present(*node, names_view(field_names@)),
        r is Some ==> r->0@.len() == field_names@.len(),
        r is Some ==> forall|i: int|
            0 <= i < field_names@.len() ==> *(#[trigger] r->0@[i]) == node.children@[child_named(
                node.children@,
                field_names@[i]@,
            )->0],
        views(final(diagnostics)@) == views(old(diagnostics)@) + missing_diagnostics(
            input@,
            *node,
            names_view(field_names@),
        ),
{
    let ghost names = names_view(field_names@);
    let found = get_children(input, node, field_names, diagnostics);
    let mut nodes: Vec<&'a Node> = Vec::new();
    let mut i: usize = 0;
    while i < found.len()
        invariant
            names == names_view(field_names@),
            views(diagnostics@) == views(old(diagnostics)@) + missing_diagnostics(
                input@,
                *node,
                names,
            ),
            found@.len() == field_names@.len(),
            forall|i: int|
                0 <= i < field_names@.len() ==> match child_named(
                    node.children@,
                    #[trigger] field_names@[i]@,
                ) {
                    Some(j) => found@[i] is Some && *found@[i]->0 == node.children@[j],
                    None => found@[i] is None,
                },
            0 <= i <= found@.len(),
            nodes@.len() == i,
            forall|k: int| 0 <= k < i ==> #[trigger] found@[k] is Some,
            forall|k: int| 0 <= k < i ==> *(#[trigger] nodes@[k]) == *found@[k]->0,
        decreases found@.len() - i,
    {
        match found[i] {
            Some(child) => {
                nodes.push(child);
            },
            None => {
                assert(names[i as int] == field_names@[i as int]@);
                return None;
            },
        }
        i = i + 1;
    }
    assert forall|k: int| 0 <= k < names.len() implies (#[trigger] child_named(
        node.children@,
        names[k],
    )) is Some by {
        assert(names[k] == field_names@[k]@);
        assert(found@[k] is Some);
    }
    Some(nodes)
}

} // verus!

verus! {

proof fn lemma_missing_empty(input: SourceView, node: Node, names: Seq<Seq<char>>)
    requires
        forall|i: int|
            0 <= i < names.len() ==> (#[trigger] child_named(node.children@, names[i])) is Some,
    ensures
        missing_diagnostics(input, node, names) == Seq::<DiagnosticView>::empty(),
    decreases names.len(),
{
    if names.len() > 0 {
        assert forall|i: int| 0 <= i < names.drop_last().len() implies (#[trigger] child_named(
            node.children@,
            names.drop_last()[i],
        )) is Some by {
            assert(names.drop_last()[i] == names[i]);
        }
        lemma_missing_empty(input, node, names.drop_last());
        assert(child_named(node.children@, names[names.len() - 1]) is Some);
    }
}

/// A record whose every field has a child node of its name: all of them are
/// located, each located child carries its field's name, and the lookup
/// reports nothing.
pub proof fn lemma_record_fields_located(input: SourceView, node: Node, names: Seq<Seq<char>>)
    requires
        forall|i: int|
            0 <= i < names.len() ==> has_child_named(node.children@, #[trigger] names[i]),
    ensures
        all_children_present(node, names),
        forall|i: int|
            0 <= i < names.len() ==> node.children@[(#[trigger] child_named(
                node.children@,
                names[i],
            ))->0].name@ == names[i],
        missing_diagnostics(input, node, names) == Seq::<DiagnosticView>::empty(),
{
    assert forall|i: int| 0 <= i < names.len() implies (#[trigger] child_named(
        node.children@,
        names[i],
    )) is Some && node.children@[child_named(node.children@, names[i])->0].name@ == names[i] by {
        lemma_child_named_exists(node.children@, names[i]);
        lemma_child_named_found(node.children@, names[i]);
    }
    lemma_missing_empty(input, node, names);
}

/// A record one of whose fields has no child node of its name: the lookup
/// gives up on the whole record, and reports that field as missing.
pub proof fn lemma_record_field_missing(
    input: SourceView,
    node: Node,
    names: Seq<Seq<char>>,
    k: int,
)
    requires
        0 <= k < names.len(),
        !has_child_named(node.children@, names[k]),
    ensures
        !all_children_present(node, names),
        missing_diagnostics(input, node, names).contains(
            error_view(input, node.span, missing_message(names[k]), None),
        ),
    decreases names.len(),
{
    lemma_child_named_exists(node.children@, names[k]);
    let e = error_view(input, node.span, missing_message(names[k]), None);
    let rest = missing_diagnostics(input, node, names.drop_last());
    if k == names.len() - 1 {
        assert(missing_diagnostics(input, node, names) == rest.push(e));
        assert(rest.push(e)[rest.len() as int] == e);
    } else {
        assert(names.drop_last()[k] == names[k]);
        lemma_record_field_missing(input, node, names.drop_last(), k);
        let j = choose|j: int| 0 <= j < rest.len() && rest[j] == e;
        assert(missing_diagnostics(input, node, names)[j] == e);
    }
}

/// Selecting a variant for the same node twice, each time into an empty
/// list of diagnostics, gives the same result and the same diagnostics.
pub proof fn lemma_enum_variant_idempotent(
    names: Seq<Seq<char>>,
    input: SourceView,
    node: Node,
    r1: Parsed<Option<usize>>,
    d1: Seq<ParseDiagnostic>,
    r2: Parsed<Option<usize>>,
    d2: Seq<ParseDiagnostic>,
)
    requires
        match r1.value {
            Some(i) => enum_choice(names, node) == Some(i as int),
            None => enum_choice(names, node) is None,
        },
        match r2.value {
            Some(i) => enum_choice(names, node) == Some(i as int),
            None => enum_choice(names, node) is None,
        },
        !r1.valid,
        !r2.valid,
        r1.full_span == node.span && r1.name_span == node.span,
        r2.full_span == node.span && r2.name_span == node.span,
        views(d1) == views(Seq::empty()) + enum_diagnostics(names, input, node),
        views(d2) == views(Seq::empty()) + enum_diagnostics(names, input, node),
    ensures
        r1 == r2,
        views(d1) == views(d2),
{
}

} // verus!
