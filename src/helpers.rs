//! Shared lookups on a node: its single argument and its named children.

use vstd::prelude::*;
use crate::document::{
    error_diagnostic, error_view, push_diagnostic, views, DiagnosticView, Node, ParseDiagnostic,
    Source, SourceView, Value,
};
use crate::text::{decimal, push_decimal};

verus! {

/// The name of an argument's kind, as diagnostics print it.
pub open spec fn kind_name(v: Value) -> Seq<char> {
    match v {
        Value::String(_) => "String"@,
        Value::Integer(_) => "Integer"@,
        Value::Float(_) => "Float"@,
        Value::Bool(_) => "Bool"@,
        Value::Null => "Null"@,
    }
}

/// The name of the kind of `v`.
pub fn value_kind_name(v: &Value) -> (r: &'static str)
    ensures
        r@ == kind_name(*v),
{
    match v {
        Value::String(_) => "String",
        Value::Integer(_) => "Integer",
        Value::Float(_) => "Float",
        Value::Bool(_) => "Bool",
        Value::Null => "Null",
    }
}

/// The node's argument, when it has exactly one.
pub open spec fn single_argument(node: Node) -> Option<Value> {
    if node.args@.len() == 1 {
        Some(node.args@[0])
    } else {
        None
    }
}

pub open spec fn arity_message(n: nat) -> Seq<char> {
    "Expected exactly one argument but found "@ + decimal(n)
}

/// What looking up the single argument of `node` reports.
pub open spec fn arity_diagnostics(input: SourceView, node: Node) -> Seq<DiagnosticView> {
    if node.args@.len() == 1 {
        seq![]
    } else {
        seq![error_view(input, node.span, arity_message(node.args@.len()), None)]
    }
}

/// Returns the node's only argument. A node with no argument or with more
/// than one gets an error diagnostic, and no value.
pub fn get_single_argument_value<'a>(
    input: &Source,
    node: &'a Node,
    diagnostics: &mut Vec<ParseDiagnostic>,
) -> (r: Option<&'a Value>)
    ensures
        r is Some <==> single_argument(*node) is Some,
        r is Some ==> single_argument(*node) == Some(*r->0),
        views(final(diagnostics)@) == views(old(diagnostics)@) + arity_diagnostics(input@, *node),
{
    if node.args.len() == 1 {
        assert(views(diagnostics@) =~= views(old(diagnostics)@) + arity_diagnostics(input@, *node));
        Some(&node.args[0])
    } else {
        let mut message = String::from_str("Expected exactly one argument but found ");
        push_decimal(&mut message, node.args.len());
        let d = error_diagnostic(input, node.span, message, None);
        push_diagnostic(diagnostics, d);
        assert(views(diagnostics@) =~= views(old(diagnostics)@) + arity_diagnostics(input@, *node));
        None
    }
}

/// The index of the first child named `name`.
pub open spec fn child_named(children: Seq<Node>, name: Seq<char>) -> Option<int>
    decreases children.len(),
{
    if children.len() == 0 {
        None
    } else {
        match child_named(children.drop_last(), name) {
            Some(i) => Some(i),
            None => if children.last().name@ == name {
                Some(children.len() - 1)
            } else {
                None
            },
        }
    }
}

/// A child found in a prefix is the first one in the whole list too.
proof fn lemma_child_named_prefix(s: Seq<Node>, name: Seq<char>, k: int)
    requires
        0 <= k <= s.len(),
        child_named(s.take(k), name) is Some,
    ensures
        child_named(s, name) == child_named(s.take(k), name),
    decreases s.len() - k,
{
    if k == s.len() {
        assert(s.take(k) =~= s);
    } else {
        assert(s.take(k + 1).drop_last() =~= s.take(k));
        lemma_child_named_prefix(s, name, k + 1);
    }
}

/// The first child found is in range and has the name asked for.
pub proof fn lemma_child_named_found(s: Seq<Node>, name: Seq<char>)
    requires
        child_named(s, name) is Some,
    ensures
        0 <= child_named(s, name)->0 < s.len(),
        s[child_named(s, name)->0].name@ == name,
    decreases s.len(),
{
    if child_named(s.drop_last(), name) is Some {
        lemma_child_named_found(s.drop_last(), name);
    }
}

fn find_child(node: &Node, name: &String) -> (r: Option<usize>)
    ensures
        match r {
            Some(j) => child_named(node.children@, name@) == Some(j as int),
            None => child_named(node.children@, name@) is None,
        },
{
    let n = node.children.len();
    let mut j: usize = 0;
    while j < n
        invariant
            n == node.children@.len(),
            0 <= j <= n,
            child_named(node.children@.take(j as int), name@) is None,
        decreases n - j,
    {
        if node.children[j].name == *name {
            assert(node.children@.take(j as int + 1).drop_last() =~= node.children@.take(j as int));
            proof {
                lemma_child_named_prefix(node.children@, name@, j as int + 1);
            }
            return Some(j);
        }
        assert(node.children@.take(j as int + 1).drop_last() =~= node.children@.take(j as int));
        j = j + 1;
    }
    assert(node.children@.take(n as int) =~= node.children@);
    None
}

pub open spec fn names_view(names: Seq<String>) -> Seq<Seq<char>> {
    names.map_values(|s: String| s@)
}

pub open spec fn missing_message(name: Seq<char>) -> Seq<char> {
    "Expected a child node named "@ + name
}

/// What looking up the children `names` of `node` reports: one error for
/// each name that no child has, in the order of `names`.
pub open spec fn missing_diagnostics(
    input: SourceView,
    node: Node,
    names: Seq<Seq<char>>,
) -> Seq<DiagnosticView>
    decreases names.len(),
{
    if names.len() == 0 {
        seq![]
    } else {
        let rest = missing_diagnostics(input, node, names.drop_last());
        if child_named(node.children@, names.last()) is None {
            rest.push(error_view(input, node.span, missing_message(names.last()), None))
        } else {
            rest
        }
    }
}

/// Looks up, for each name in order, the first child of `node` with that
/// name. Each name that no child has gets an error diagnostic.
pub fn get_children<'a>(
    input: &Source,
    node: &'a Node,
    names: &Vec<String>,
    diagnostics: &mut Vec<ParseDiagnostic>,
) -> (r: Vec<Option<&'a Node>>)
    ensures
        r@.len() == names@.len(),
        forall|i: int|
            0 <= i < names@.len() ==> match child_named(node.children@, #[trigger] names@[i]@) {
                Some(j) => r@[i] is Some && *r@[i]->0 == node.children@[j],
                None => r@[i] is None,
            },
        views(final(diagnostics)@) == views(old(diagnostics)@) + missing_diagnostics(
            input@,
            *node,
            names_view(names@),
        ),
{
    let mut r: Vec<Option<&'a Node>> = Vec::new();
    let mut i: usize = 0;
    while i < names.len()
        invariant
            0 <= i <= names@.len(),
            r@.len() == i,
            forall|k: int|
                0 <= k < i ==> match child_named(node.children@, #[trigger] names@[k]@) {
                    Some(j) => r@[k] is Some && *r@[k]->0 == node.children@[j],
                    None => r@[k] is None,
                },
            views(diagnostics@) == views(old(diagnostics)@) + missing_diagnostics(
                input@,
                *node,
                names_view(names@).take(i as int),
            ),
        decreases names@.len() - i,
    {
        let ghost before = diagnostics@;
        assert(names_view(names@).take(i as int + 1).drop_last() =~= names_view(names@).take(
            i as int,
        ));
        assert(names_view(names@).take(i as int + 1).last() == names@[i as int]@);
        match find_child(node, &names[i]) {
            Some(j) => {
                proof {
                    lemma_child_named_found(node.children@, names@[i as int]@);
                }
                r.push(Some(&node.children[j]));
            },
            None => {
                let mut message = String::from_str("Expected a child node named ");
                message.append(names[i].as_str());
                let d = error_diagnostic(input, node.span, message, None);
                push_diagnostic(diagnostics, d);
                r.push(None);
            },
        }
        assert(views(diagnostics@) =~= views(old(diagnostics)@) + missing_diagnostics(
            input@,
            *node,
            names_view(names@).take(i as int + 1),
        ));
        i = i + 1;
    }
    assert(names_view(names@).take(i as int) =~= names_view(names@));
    r
}

} // verus!

verus! {

/// Some child of `children` is named `name`.
pub open spec fn has_child_named(children: Seq<Node>, name: Seq<char>) -> bool {
    exists|j: int| 0 <= j < children.len() && (#[trigger] children[j]).name@ == name
}

/// The first-child lookup finds a child exactly when one has the name.
pub proof fn lemma_child_named_exists(s: Seq<Node>, name: Seq<char>)
    ensures
        child_named(s, name) is Some <==> has_child_named(s, name),
    decreases s.len(),
{
    if s.len() > 0 {
        lemma_child_named_exists(s.drop_last(), name);
        if has_child_named(s, name) && child_named(s.drop_last(), name) is None {
            let j = choose|j: int| 0 <= j < s.len() && (#[trigger] s[j]).name@ == name;
            if j < s.len() - 1 {
                assert(s.drop_last()[j] == s[j]);
            }
        }
        if has_child_named(s.drop_last(), name) {
            let j = choose|j: int|
                0 <= j < s.drop_last().len() && (#[trigger] s.drop_last()[j]).name@ == name;
            assert(s[j] == s.drop_last()[j]);
        }
    }
    if child_named(s, name) is Some {
        lemma_child_named_found(s, name);
    }
}

} // verus!
