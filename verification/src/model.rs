//! What the lint does, as functions on plain values.
//!
//! The executable lint is verified against these: each of its functions
//! returns, or leaves behind, exactly what the function of the same name
//! here describes.

use vstd::prelude::*;
use crate::diagnostic::DiagnosticView;
use crate::finding::{InvalidEventView, InvalidPropertyView, UnknownClassView};
use crate::schema::RobloxClass;
use crate::syntax::{
    spec_strip_parentheses, Expression, Field, FunctionCall, LocalAssignment, Node, Prefix,
    Suffix,
};

verus! {

/// What a traversal has gathered so far: the local names bound to
/// `Roact.createElement`, and the faults found, each kind in the order met.
pub struct VisitorView {
    pub definitions_of_create_element: Set<Seq<char>>,
    pub invalid_events: Seq<InvalidEventView>,
    pub invalid_properties: Seq<InvalidPropertyView>,
    pub unknown_class: Seq<UnknownClassView>,
}

impl VisitorView {
    /// The state before the first node.
    pub open spec fn start() -> VisitorView {
        VisitorView {
            definitions_of_create_element: Set::empty(),
            invalid_events: Seq::empty(),
            invalid_properties: Seq::empty(),
            unknown_class: Seq::empty(),
        }
    }

    /// The reports of the faults: first the events, then the properties,
    /// then the unknown classes.
    pub open spec fn diagnostics(self) -> Seq<DiagnosticView> {
        self.invalid_events.map_values(|event: InvalidEventView| event.diagnostic())
            + self.invalid_properties.map_values(
            |property: InvalidPropertyView| property.diagnostic(),
        ) + self.unknown_class.map_values(|class: UnknownClassView| class.diagnostic())
    }
}

/// Whether a prefix and the suffixes after it read `Roact.createElement`:
/// the name `Roact`, one dot index `createElement`, and nothing more.
pub open spec fn is_create_element(prefix: Prefix, suffixes: Seq<Suffix>) -> bool {
    match prefix {
        Prefix::Name(root) => {
            &&& root.text@ == "Roact"@
            &&& suffixes.len() == 1
            &&& match suffixes[0] {
                Suffix::DotIndex { name } => name.text@ == "createElement"@,
                _ => false,
            }
        },
        Prefix::Expression => false,
    }
}

/// Whether a prefix is a bare name among `aliases`.
pub open spec fn is_alias(aliases: Set<Seq<char>>, prefix: Prefix) -> bool {
    match prefix {
        Prefix::Name(name) => aliases.contains(name.text@),
        Prefix::Expression => false,
    }
}

/// Whether what a call calls is `Roact.createElement` itself or, by a bare
/// name, one of `aliases`. What is called is the prefix with all suffixes
/// but the last.
pub open spec fn calls_create_element(aliases: Set<Seq<char>>, call: FunctionCall) -> bool {
    &&& call.suffixes@.len() > 0
    &&& if call.suffixes@.len() == 1 {
        is_alias(aliases, call.prefix)
    } else {
        is_create_element(call.prefix, call.suffixes@.drop_last())
    }
}

/// The arguments of a call whose last suffix is a parenthesised argument
/// list.
pub open spec fn arguments(call: FunctionCall) -> Option<Seq<Expression>> {
    if call.suffixes@.len() > 0 {
        match call.suffixes@.last() {
            Suffix::Call { arguments } => Some(arguments@),
            _ => None,
        }
    } else {
        None
    }
}

/// The fields of the second argument, where that is a table constructor; no
/// fields where it is missing or anything else.
pub open spec fn table_fields(arguments: Seq<Expression>) -> Seq<Field> {
    if arguments.len() >= 2 {
        match arguments[1] {
            Expression::TableConstructor { fields } => fields@,
            _ => Seq::empty(),
        }
    } else {
        Seq::empty()
    }
}

/// The event that a bracketed key names: the key, without parentheses
/// around it, reads `Roact.Event.<name>` and nothing more.
pub open spec fn event_key(key: Expression) -> Option<Seq<char>> {
    match spec_strip_parentheses(key) {
        Expression::Var { prefix: Prefix::Name(root), suffixes } => {
            if root.text@ == "Roact"@ && suffixes@.len() == 2 {
                match (suffixes@[0], suffixes@[1]) {
                    (Suffix::DotIndex { name: first }, Suffix::DotIndex { name: event }) => {
                        if first.text@ == "Event"@ {
                            Some(event.text@)
                        } else {
                            None
                        }
                    },
                    _ => None,
                }
            } else {
                None
            }
        },
        _ => None,
    }
}

/// The fault in a field, if it is a named field whose key is no property of
/// the class.
pub open spec fn invalid_property(class_name: Seq<char>, class: RobloxClass, field: Field)
    -> Option<InvalidPropertyView> {
    match field {
        Field::NameKey { key } => {
            if class.spec_has_property(key.text@) {
                None
            } else {
                Some(InvalidPropertyView { class_name, property_name: key.text@, range: key.range })
            }
        },
        _ => None,
    }
}

/// The fault in a field, if it is a bracketed field whose key names an event
/// that is no event of the class.
pub open spec fn invalid_event(class_name: Seq<char>, class: RobloxClass, field: Field)
    -> Option<InvalidEventView> {
    match field {
        Field::ExpressionKey { brackets, key } => {
            match event_key(key) {
                Some(event_name) => {
                    if class.spec_has_event(event_name) {
                        None
                    } else {
                        Some(InvalidEventView { class_name, event_name, range: brackets })
                    }
                },
                None => None,
            }
        },
        _ => None,
    }
}

/// The invalid properties among `fields`, in table order.
pub open spec fn invalid_properties(class_name: Seq<char>, class: RobloxClass, fields: Seq<Field>)
    -> Seq<InvalidPropertyView>
    decreases fields.len(),
{
    if fields.len() == 0 {
        Seq::empty()
    } else {
        let before = invalid_properties(class_name, class, fields.drop_last());
        match invalid_property(class_name, class, fields.last()) {
            Some(fault) => before.push(fault),
            None => before,
        }
    }
}

/// The invalid events among `fields`, in table order.
pub open spec fn invalid_events(class_name: Seq<char>, class: RobloxClass, fields: Seq<Field>)
    -> Seq<InvalidEventView>
    decreases fields.len(),
{
    if fields.len() == 0 {
        Seq::empty()
    } else {
        let before = invalid_events(class_name, class, fields.drop_last());
        match invalid_event(class_name, class, fields.last()) {
            Some(fault) => before.push(fault),
            None => before,
        }
    }
}

/// The state after a function call.
///
/// A call that does not call `Roact.createElement`, that has no
/// parenthesised arguments, or whose first argument is no string literal
/// changes nothing. Otherwise the literal names a class. An unknown class is
/// recorded, and nothing else is looked at. For a known class the fields of
/// the table in second place are checked against it.
pub open spec fn visit_function_call(
    state: VisitorView,
    schema: Map<Seq<char>, RobloxClass>,
    call: FunctionCall,
) -> VisitorView {
    if !calls_create_element(state.definitions_of_create_element, call) {
        state
    } else {
        match arguments(call) {
            Some(arguments) => {
                if arguments.len() == 0 {
                    state
                } else {
                    match arguments[0] {
                        Expression::String(token) => {
                            if schema.contains_key(token.literal@) {
                                let class = schema[token.literal@];
                                let fields = table_fields(arguments);
                                VisitorView {
                                    invalid_events: state.invalid_events + invalid_events(
                                        token.literal@,
                                        class,
                                        fields,
                                    ),
                                    invalid_properties: state.invalid_properties
                                        + invalid_properties(token.literal@, class, fields),
                                    ..state
                                }
                            } else {
                                VisitorView {
                                    unknown_class: state.unknown_class.push(
                                        UnknownClassView {
                                            name: token.literal@,
                                            range: token.range,
                                        },
                                    ),
                                    ..state
                                }
                            }
                        },
                        _ => state,
                    }
                }
            },
            None => state,
        }
    }
}

/// Whether an initialiser is a reference to `Roact.createElement`.
pub open spec fn refers_to_create_element(expression: Expression) -> bool {
    match expression {
        Expression::Var { prefix, suffixes } => is_create_element(prefix, suffixes@),
        _ => false,
    }
}

/// Whether the name at `index` of a local assignment stands opposite an
/// initialiser that refers to `Roact.createElement`.
pub open spec fn defines_alias(node: LocalAssignment, index: int) -> bool {
    &&& 0 <= index < node.names@.len()
    &&& index < node.expressions@.len()
    &&& refers_to_create_element(node.expressions@[index])
}

/// The names that the first `count` pairs of a local assignment bind to
/// `Roact.createElement`.
pub open spec fn aliases_among(node: LocalAssignment, count: int) -> Set<Seq<char>> {
    Set::new(
        |name: Seq<char>|
            exists|index: int|
                index < count && #[trigger] defines_alias(node, index) && node.names@[index].text@
                    == name,
    )
}

/// The names that a local assignment binds to `Roact.createElement`.
pub open spec fn aliases_defined(node: LocalAssignment) -> Set<Seq<char>> {
    aliases_among(node, node.names@.len() as int)
}

/// The state after a local assignment: the names it binds to
/// `Roact.createElement` are aliases from now on.
pub open spec fn visit_local_assignment(state: VisitorView, node: LocalAssignment)
    -> VisitorView {
    VisitorView {
        definitions_of_create_element: state.definitions_of_create_element.union(
            aliases_defined(node),
        ),
        ..state
    }
}

/// The state after one node.
pub open spec fn visit(state: VisitorView, schema: Map<Seq<char>, RobloxClass>, node: Node)
    -> VisitorView {
    match node {
        Node::FunctionCall(call) => visit_function_call(state, schema, call),
        Node::LocalAssignment(assignment) => visit_local_assignment(state, assignment),
    }
}

/// The state after all of `nodes`, visited in order from `state`.
pub open spec fn traverse_from(
    state: VisitorView,
    schema: Map<Seq<char>, RobloxClass>,
    nodes: Seq<Node>,
) -> VisitorView
    decreases nodes.len(),
{
    if nodes.len() == 0 {
        state
    } else {
        visit(traverse_from(state, schema, nodes.drop_last()), schema, nodes.last())
    }
}

/// The state after a traversal of all of `nodes`.
pub open spec fn traverse(schema: Map<Seq<char>, RobloxClass>, nodes: Seq<Node>) -> VisitorView {
    traverse_from(VisitorView::start(), schema, nodes)
}

/// What a pass reports: nothing for a script that is not written for Roblox
/// or against a schema without classes, else the faults that the traversal
/// gathers.
pub open spec fn pass(roblox: bool, schema: Map<Seq<char>, RobloxClass>, nodes: Seq<Node>)
    -> Seq<DiagnosticView> {
    if !roblox || schema.dom() =~= Set::empty() {
        Seq::empty()
    } else {
        traverse(schema, nodes).diagnostics()
    }
}

} // verus!
