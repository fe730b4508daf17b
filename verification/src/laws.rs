//! What holds of the lint on every input.

use vstd::prelude::*;
use crate::diagnostic::{diagnostic_views, Diagnostic, DiagnosticView};
use crate::finding::{InvalidEventView, InvalidPropertyView, UnknownClassView};
use crate::model::{
    aliases_among, arguments, calls_create_element, defines_alias, event_key,
    invalid_event, invalid_events, invalid_properties, invalid_property, is_alias,
    is_create_element, pass, table_fields, traverse_from, visit, visit_function_call, visit_local_assignment,
    VisitorView,
};
use crate::schema::RobloxClass;
use crate::syntax::{
    Expression, Field, FunctionCall, LocalAssignment, Name, Node, StringLiteral,
};

verus! {

/// A pass reports nothing for a script that is not written for Roblox, and
/// nothing against a schema without classes, whatever the tree holds.
pub proof fn pass_is_silent_without_roblox_or_classes(
    roblox: bool,
    schema: Map<Seq<char>, RobloxClass>,
    nodes: Seq<Node>,
)
    requires
        !roblox || schema.dom() =~= Set::empty(),
    ensures
        pass(roblox, schema, nodes) == Seq::<DiagnosticView>::empty(),
{
}

/// Two passes over the same nodes with the same context report the same.
pub proof fn pass_is_repeatable(
    first: Seq<Diagnostic>,
    second: Seq<Diagnostic>,
    roblox: bool,
    schema: Map<Seq<char>, RobloxClass>,
    nodes: Seq<Node>,
)
    requires
        diagnostic_views(first) == pass(roblox, schema, nodes),
        diagnostic_views(second) == pass(roblox, schema, nodes),
    ensures
        diagnostic_views(first) == diagnostic_views(second),
        first.len() == second.len(),
        forall|i: int| 0 <= i < first.len() ==> (#[trigger] first[i])@ == second[i]@,
{
    assert(diagnostic_views(first).len() == first.len());
    assert(diagnostic_views(second).len() == second.len());
    assert forall|i: int| 0 <= i < first.len() implies (#[trigger] first[i])@ == second[i]@ by {
        assert(diagnostic_views(first)[i] == first[i]@);
        assert(diagnostic_views(second)[i] == second[i]@);
    }
}

/// A call of `Roact.createElement` whose first argument is a string literal
/// that names no class of the schema adds one unknown class and nothing
/// else, whatever table it is given.
pub proof fn unknown_class_is_the_only_fault(
    state: VisitorView,
    schema: Map<Seq<char>, RobloxClass>,
    call: FunctionCall,
    token: StringLiteral,
)
    requires
        calls_create_element(state.definitions_of_create_element, call),
        arguments(call) is Some,
        arguments(call)->0.len() > 0,
        arguments(call)->0[0] == Expression::String(token),
        !schema.contains_key(token.literal@),
    ensures
        visit_function_call(state, schema, call) == (VisitorView {
            unknown_class: state.unknown_class.push(
                UnknownClassView { name: token.literal@, range: token.range },
            ),
            ..state
        }),
        visit_function_call(state, schema, call).invalid_events == state.invalid_events,
        visit_function_call(state, schema, call).invalid_properties == state.invalid_properties,
        visit_function_call(state, schema, call).unknown_class.len() == state.unknown_class.len()
            + 1,
{
}

/// A call whose first argument is anything but a string literal leaves no
/// fault behind, whatever the schema holds.
pub proof fn dynamic_class_name_is_skipped(
    state: VisitorView,
    schema: Map<Seq<char>, RobloxClass>,
    call: FunctionCall,
)
    requires
        arguments(call) is Some && arguments(call)->0.len() > 0 ==> !(arguments(call)->0[0]
            is String),
    ensures
        visit_function_call(state, schema, call) == state,
{
}

/// A node that leaves every state as it was may as well be absent: the
/// traversal ends in the same state without it.
pub proof fn idle_node_is_as_good_as_absent(
    state: VisitorView,
    schema: Map<Seq<char>, RobloxClass>,
    nodes: Seq<Node>,
    index: int,
)
    requires
        0 <= index < nodes.len(),
        forall|before: VisitorView| #[trigger] visit(before, schema, nodes[index]) == before,
    ensures
        traverse_from(state, schema, nodes) == traverse_from(state, schema, nodes.remove(index)),
    decreases nodes.len(),
{
    if index == nodes.len() - 1 {
        assert(nodes.remove(index) =~= nodes.drop_last());
    } else {
        let rest = nodes.drop_last();
        idle_node_is_as_good_as_absent(state, schema, rest, index);
        assert(nodes.remove(index).drop_last() =~= rest.remove(index));
        assert(nodes.remove(index).last() == nodes.last());
    }
}

/// Wherever it stands in a script, a call whose first argument is anything
/// but a string literal is never reported: the pass reports what it reports
/// of the script without the call.
pub proof fn dynamic_class_name_is_never_reported(
    roblox: bool,
    schema: Map<Seq<char>, RobloxClass>,
    nodes: Seq<Node>,
    index: int,
)
    requires
        0 <= index < nodes.len(),
        nodes[index] is FunctionCall,
        ({
            let call = nodes[index]->FunctionCall_0;
            arguments(call) is Some && arguments(call)->0.len() > 0 ==> !(arguments(call)->0[0]
                is String)
        }),
    ensures
        pass(roblox, schema, nodes) == pass(roblox, schema, nodes.remove(index)),
{
    let call = nodes[index]->FunctionCall_0;
    assert forall|before: VisitorView| #[trigger]
        visit(before, schema, nodes[index]) == before by {
        dynamic_class_name_is_skipped(before, schema, call);
    }
    idle_node_is_as_good_as_absent(VisitorView::start(), schema, nodes, index);
}

/// A script that is nothing but `Roact.createElement("<name>", ...)`, where
/// the schema knows no class of that name, is reported once, as an unknown
/// class at the literal, whatever else the call is given.
pub proof fn unknown_class_alone_is_reported_once(
    schema: Map<Seq<char>, RobloxClass>,
    call: FunctionCall,
    token: StringLiteral,
)
    requires
        !(schema.dom() =~= Set::empty()),
        call.suffixes@.len() == 2,
        is_create_element(call.prefix, call.suffixes@.drop_last()),
        arguments(call) is Some,
        arguments(call)->0.len() > 0,
        arguments(call)->0[0] == Expression::String(token),
        !schema.contains_key(token.literal@),
    ensures
        pass(true, schema, seq![Node::FunctionCall(call)]) == seq![
            (UnknownClassView { name: token.literal@, range: token.range }).diagnostic(),
        ],
{
    let start = VisitorView::start();
    let script = seq![Node::FunctionCall(call)];
    assert(script.drop_last() =~= Seq::<Node>::empty());
    assert(traverse_from(start, schema, Seq::<Node>::empty()) == start);
    assert(traverse_from(start, schema, script) == visit_function_call(start, schema, call));
    unknown_class_is_the_only_fault(start, schema, call, token);
    assert(pass(true, schema, script) =~= seq![
        (UnknownClassView { name: token.literal@, range: token.range }).diagnostic(),
    ]);
}

/// A script that is nothing but `Roact.createElement("<class>", { <key> =
/// ... })`, where the class is known and has no property of that key, is
/// reported once, as an invalid property at the key.
pub proof fn lone_invalid_property_is_reported_once(
    schema: Map<Seq<char>, RobloxClass>,
    call: FunctionCall,
    token: StringLiteral,
    key: Name,
)
    requires
        call.suffixes@.len() == 2,
        is_create_element(call.prefix, call.suffixes@.drop_last()),
        arguments(call) is Some,
        arguments(call)->0.len() >= 2,
        arguments(call)->0[0] == Expression::String(token),
        table_fields(arguments(call)->0) == seq![Field::NameKey { key }],
        schema.contains_key(token.literal@),
        !schema[token.literal@].spec_has_property(key.text@),
    ensures
        pass(true, schema, seq![Node::FunctionCall(call)]) == seq![
            (InvalidPropertyView {
                class_name: token.literal@,
                property_name: key.text@,
                range: key.range,
            }).diagnostic(),
        ],
{
    let start = VisitorView::start();
    let script = seq![Node::FunctionCall(call)];
    let class = schema[token.literal@];
    let fields = seq![Field::NameKey { key }];
    assert(script.drop_last() =~= Seq::<Node>::empty());
    assert(traverse_from(start, schema, Seq::<Node>::empty()) == start);
    assert(traverse_from(start, schema, script) == visit_function_call(start, schema, call));
    assert(fields.drop_last() =~= Seq::<Field>::empty());
    assert(invalid_properties(token.literal@, class, Seq::<Field>::empty()) =~= Seq::empty());
    assert(invalid_events(token.literal@, class, Seq::<Field>::empty()) =~= Seq::empty());
    assert(invalid_events(token.literal@, class, fields) =~= Seq::empty());
    assert(invalid_properties(token.literal@, class, fields) =~= seq![
        InvalidPropertyView {
            class_name: token.literal@,
            property_name: key.text@,
            range: key.range,
        },
    ]);
    assert(schema.dom().contains(token.literal@));
    assert(pass(true, schema, script) =~= seq![
        (InvalidPropertyView {
            class_name: token.literal@,
            property_name: key.text@,
            range: key.range,
        }).diagnostic(),
    ]);
}

/// A script that is nothing but `Roact.createElement("<class>", {
/// [Roact.Event.<event>] = ... })`, where the class is known and has no such
/// event, is reported once, as an invalid event at the brackets.
pub proof fn lone_invalid_event_is_reported_once(
    schema: Map<Seq<char>, RobloxClass>,
    call: FunctionCall,
    token: StringLiteral,
    brackets: (usize, usize),
    key: Expression,
)
    requires
        call.suffixes@.len() == 2,
        is_create_element(call.prefix, call.suffixes@.drop_last()),
        arguments(call) is Some,
        arguments(call)->0.len() >= 2,
        arguments(call)->0[0] == Expression::String(token),
        table_fields(arguments(call)->0) == seq![Field::ExpressionKey { brackets, key }],
        event_key(key) is Some,
        schema.contains_key(token.literal@),
        !schema[token.literal@].spec_has_event(event_key(key)->0),
    ensures
        pass(true, schema, seq![Node::FunctionCall(call)]) == seq![
            (InvalidEventView {
                class_name: token.literal@,
                event_name: event_key(key)->0,
                range: brackets,
            }).diagnostic(),
        ],
{
    let start = VisitorView::start();
    let script = seq![Node::FunctionCall(call)];
    let class = schema[token.literal@];
    let fields = seq![Field::ExpressionKey { brackets, key }];
    assert(script.drop_last() =~= Seq::<Node>::empty());
    assert(traverse_from(start, schema, Seq::<Node>::empty()) == start);
    assert(traverse_from(start, schema, script) == visit_function_call(start, schema, call));
    assert(fields.drop_last() =~= Seq::<Field>::empty());
    assert(invalid_properties(token.literal@, class, Seq::<Field>::empty()) =~= Seq::empty());
    assert(invalid_events(token.literal@, class, Seq::<Field>::empty()) =~= Seq::empty());
    assert(invalid_properties(token.literal@, class, fields) =~= Seq::empty());
    assert(invalid_events(token.literal@, class, fields) =~= seq![
        InvalidEventView {
            class_name: token.literal@,
            event_name: event_key(key)->0,
            range: brackets,
        },
    ]);
    assert(schema.dom().contains(token.literal@));
    assert(pass(true, schema, script) =~= seq![
        (InvalidEventView {
            class_name: token.literal@,
            event_name: event_key(key)->0,
            range: brackets,
        }).diagnostic(),
    ]);
}

/// A field in which neither check finds a fault may as well be absent: the
/// faults of the table are those of the table without it.
pub proof fn faultless_field_is_as_good_as_absent(
    class_name: Seq<char>,
    class: RobloxClass,
    fields: Seq<Field>,
    index: int,
)
    requires
        0 <= index < fields.len(),
        invalid_event(class_name, class, fields[index]) is None,
        invalid_property(class_name, class, fields[index]) is None,
    ensures
        invalid_events(class_name, class, fields) == invalid_events(
            class_name,
            class,
            fields.remove(index),
        ),
        invalid_properties(class_name, class, fields) == invalid_properties(
            class_name,
            class,
            fields.remove(index),
        ),
    decreases fields.len(),
{
    if index == fields.len() - 1 {
        assert(fields.remove(index) =~= fields.drop_last());
    } else {
        let rest = fields.drop_last();
        faultless_field_is_as_good_as_absent(class_name, class, rest, index);
        assert(fields.remove(index).drop_last() =~= rest.remove(index));
        assert(fields.remove(index).last() == fields.last());
    }
}

/// A bracketed field whose key does not read `Roact.Event.<name>` is never
/// a fault: a table has the same faults with it as without it.
pub proof fn unresolved_key_is_skipped(
    class_name: Seq<char>,
    class: RobloxClass,
    fields: Seq<Field>,
    index: int,
)
    requires
        0 <= index < fields.len(),
        fields[index] is ExpressionKey,
        event_key(fields[index]->ExpressionKey_key) is None,
    ensures
        invalid_event(class_name, class, fields[index]) is None,
        invalid_property(class_name, class, fields[index]) is None,
        invalid_events(class_name, class, fields) == invalid_events(
            class_name,
            class,
            fields.remove(index),
        ),
        invalid_properties(class_name, class, fields) == invalid_properties(
            class_name,
            class,
            fields.remove(index),
        ),
{
    faultless_field_is_as_good_as_absent(class_name, class, fields, index);
}

/// A field without a key is never a fault.
pub proof fn positional_field_is_skipped(
    class_name: Seq<char>,
    class: RobloxClass,
    fields: Seq<Field>,
    index: int,
)
    requires
        0 <= index < fields.len(),
        fields[index] is NoKey,
    ensures
        invalid_events(class_name, class, fields) == invalid_events(
            class_name,
            class,
            fields.remove(index),
        ),
        invalid_properties(class_name, class, fields) == invalid_properties(
            class_name,
            class,
            fields.remove(index),
        ),
{
    faultless_field_is_as_good_as_absent(class_name, class, fields, index);
}

/// A local assignment makes an alias of each name that stands opposite a
/// reference to `Roact.createElement`.
pub proof fn local_assignment_defines_alias(
    state: VisitorView,
    node: LocalAssignment,
    index: int,
)
    requires
        defines_alias(node, index),
    ensures
        visit_local_assignment(state, node).definitions_of_create_element.contains(
            node.names@[index].text@,
        ),
{
    assert(aliases_among(node, node.names@.len() as int).contains(node.names@[index].text@));
}

/// No node takes an alias away: a name that is an alias stays one for the
/// rest of the traversal.
pub proof fn aliases_never_shrink(
    state: VisitorView,
    schema: Map<Seq<char>, RobloxClass>,
    nodes: Seq<Node>,
)
    ensures
        state.definitions_of_create_element.subset_of(
            traverse_from(state, schema, nodes).definitions_of_create_element,
        ),
    decreases nodes.len(),
{
    if nodes.len() > 0 {
        aliases_never_shrink(state, schema, nodes.drop_last());
    }
}

/// A call through an alias is checked as the call of `Roact.createElement`
/// with the same arguments is.
pub proof fn alias_call_is_direct_call(
    state: VisitorView,
    schema: Map<Seq<char>, RobloxClass>,
    aliased: FunctionCall,
    direct: FunctionCall,
)
    requires
        aliased.suffixes@.len() == 1,
        is_alias(state.definitions_of_create_element, aliased.prefix),
        direct.suffixes@.len() == 2,
        is_create_element(direct.prefix, direct.suffixes@.drop_last()),
        aliased.suffixes@.last() == direct.suffixes@.last(),
    ensures
        visit_function_call(state, schema, aliased) == visit_function_call(state, schema, direct),
{
}

/// `local make = Roact.createElement` followed by `make(arguments)` is
/// reported as `Roact.createElement(arguments)` alone is.
pub proof fn aliased_script_is_direct_script(
    roblox: bool,
    schema: Map<Seq<char>, RobloxClass>,
    assignment: LocalAssignment,
    index: int,
    aliased: FunctionCall,
    direct: FunctionCall,
)
    requires
        defines_alias(assignment, index),
        aliased.suffixes@.len() == 1,
        aliased.prefix is Name,
        aliased.prefix->Name_0.text@ == assignment.names@[index].text@,
        direct.suffixes@.len() == 2,
        is_create_element(direct.prefix, direct.suffixes@.drop_last()),
        aliased.suffixes@.last() == direct.suffixes@.last(),
    ensures
        pass(
            roblox,
            schema,
            seq![Node::LocalAssignment(assignment), Node::FunctionCall(aliased)],
        ) == pass(roblox, schema, seq![Node::FunctionCall(direct)]),
{
    let start = VisitorView::start();
    let first = Node::LocalAssignment(assignment);
    let bound = visit_local_assignment(start, assignment);
    let with_alias = seq![first, Node::FunctionCall(aliased)];
    let without = seq![Node::FunctionCall(direct)];
    assert(with_alias.drop_last() =~= seq![first]);
    assert(seq![first].drop_last() =~= Seq::<Node>::empty());
    assert(without.drop_last() =~= Seq::<Node>::empty());
    assert(traverse_from(start, schema, Seq::<Node>::empty()) == start);
    assert(traverse_from(start, schema, seq![first]) == bound);
    assert(traverse_from(start, schema, with_alias) == visit_function_call(
        bound,
        schema,
        aliased,
    ));
    assert(traverse_from(start, schema, without) == visit_function_call(start, schema, direct));
    local_assignment_defines_alias(start, assignment, index);
    alias_call_is_direct_call(bound, schema, aliased, direct);
    let after_alias = visit_function_call(bound, schema, direct);
    let after_direct = visit_function_call(start, schema, direct);
    assert(after_alias.invalid_events == after_direct.invalid_events);
    assert(after_alias.invalid_properties == after_direct.invalid_properties);
    assert(after_alias.unknown_class == after_direct.unknown_class);
}

} // verus!
