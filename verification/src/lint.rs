//! The lint itself.

use std::convert::Infallible;
use vstd::prelude::*;
use vstd::hash_set::StringHashSet;
use vstd::slice::slice_subrange;
use crate::diagnostic::{Diagnostic, LintType, Severity, diagnostic_views};
use crate::finding::{
    InvalidEvent, InvalidEventView, InvalidProperty, InvalidPropertyView, UnknownClass,
    UnknownClassView,
};
use crate::model;
use crate::model::VisitorView;
use crate::schema::{ClassSchema, Context, RobloxClass};
use crate::syntax::{
    strip_parentheses, Ast, Expression, Field, FunctionCall, LocalAssignment, Name, Node, Prefix,
    StringLiteral, Suffix,
};

verus! {

/// The lint. It takes no options and keeps nothing between passes.
pub struct IncorrectRoactUsageLint;

impl IncorrectRoactUsageLint {
    /// Makes the lint; this cannot fail.
    pub fn new(_config: ()) -> (lint: Result<IncorrectRoactUsageLint, Infallible>)
        ensures
            lint is Ok,
    {
        Ok(IncorrectRoactUsageLint)
    }

    /// Every report of this lint is an error.
    pub fn severity(&self) -> (severity: Severity)
        ensures
            severity == Severity::Error,
    {
        Severity::Error
    }

    /// The lint looks for code that cannot be right.
    pub fn lint_type(&self) -> (lint_type: LintType)
        ensures
            lint_type == LintType::Correctness,
    {
        LintType::Correctness
    }

    /// Runs the lint over the nodes of a syntax tree.
    ///
    /// Nothing is reported for a script that is not written for Roblox, nor
    /// against a schema without classes. Otherwise the nodes are visited in
    /// order, and the faults are reported by kind: invalid events first, then
    /// invalid properties, then unknown classes, each kind in the order in
    /// which the traversal met them.
    pub fn pass(&self, ast: &Ast, context: &Context) -> (diagnostics: Vec<Diagnostic>)
        ensures
            diagnostic_views(diagnostics@) == model::pass(
                context.roblox,
                context.roblox_classes@,
                ast.nodes@,
            ),
            !context.roblox || context.roblox_classes@.dom() =~= Set::empty()
                ==> diagnostics@.len() == 0,
    {
        if !context.is_roblox() {
            let diagnostics: Vec<Diagnostic> = Vec::new();
            assert(diagnostic_views(diagnostics@) =~= Seq::empty());
            return diagnostics;
        }
        let roblox_classes = &context.roblox_classes;
        if roblox_classes.is_empty() {
            let diagnostics: Vec<Diagnostic> = Vec::new();
            assert(diagnostic_views(diagnostics@) =~= Seq::empty());
            return diagnostics;
        }
        let mut visitor = IncorrectRoactUsageVisitor::new(roblox_classes);
        visitor.visit_ast(ast);
        visitor.diagnostics()
    }
}

/// Whether a prefix and the suffixes after it read `Roact.createElement`.
pub fn is_roact_create_element(prefix: &Prefix, suffixes: &[Suffix]) -> (is: bool)
    ensures
        is == model::is_create_element(*prefix, suffixes@),
{
    match prefix {
        Prefix::Name(root) => {
            if root.reads("Roact") && suffixes.len() == 1 {
                match &suffixes[0] {
                    Suffix::DotIndex { name } => name.reads("createElement"),
                    _ => false,
                }
            } else {
                false
            }
        },
        Prefix::Expression => false,
    }
}

/// What one traversal gathers: the local names bound to
/// `Roact.createElement` so far, and the faults found.
pub struct IncorrectRoactUsageVisitor<'a> {
    pub definitions_of_create_element: StringHashSet,
    pub invalid_events: Vec<InvalidEvent>,
    pub invalid_properties: Vec<InvalidProperty>,
    pub unknown_class: Vec<UnknownClass>,
    pub roblox_classes: &'a ClassSchema,
}

impl<'a> View for IncorrectRoactUsageVisitor<'a> {
    type V = VisitorView;

    open spec fn view(&self) -> VisitorView {
        VisitorView {
            definitions_of_create_element: self.definitions_of_create_element@,
            invalid_events: self.invalid_events@.map_values(|event: InvalidEvent| event@),
            invalid_properties: self.invalid_properties@.map_values(
                |property: InvalidProperty| property@,
            ),
            unknown_class: self.unknown_class@.map_values(|class: UnknownClass| class@),
        }
    }
}

impl<'a> IncorrectRoactUsageVisitor<'a> {
    /// A visitor that has seen nothing yet.
    pub fn new(roblox_classes: &'a ClassSchema) -> (visitor: IncorrectRoactUsageVisitor<'a>)
        ensures
            visitor@ == VisitorView::start(),
            visitor.roblox_classes == roblox_classes,
    {
        let visitor = IncorrectRoactUsageVisitor {
            definitions_of_create_element: StringHashSet::new(),
            invalid_events: Vec::new(),
            invalid_properties: Vec::new(),
            unknown_class: Vec::new(),
            roblox_classes,
        };
        assert(visitor@.invalid_events =~= Seq::empty());
        assert(visitor@.invalid_properties =~= Seq::empty());
        assert(visitor@.unknown_class =~= Seq::empty());
        visitor
    }

    /// Visits the nodes of a syntax tree in order.
    pub fn visit_ast(&mut self, ast: &Ast)
        ensures
            final(self).roblox_classes == old(self).roblox_classes,
            final(self)@ == model::traverse_from(
                old(self)@,
                old(self).roblox_classes@,
                ast.nodes@,
            ),
    {
        let mut i: usize = 0;
        assert(ast.nodes@.take(0) =~= Seq::empty());
        while i < ast.nodes.len()
            invariant
                i <= ast.nodes.len(),
                self.roblox_classes == old(self).roblox_classes,
                self@ == model::traverse_from(
                    old(self)@,
                    self.roblox_classes@,
                    ast.nodes@.take(i as int),
                ),
            decreases ast.nodes.len() - i,
        {
            proof {
                assert(ast.nodes@.take(i + 1).drop_last() =~= ast.nodes@.take(i as int));
                assert(ast.nodes@.take(i + 1).last() == ast.nodes@[i as int]);
            }
            match &ast.nodes[i] {
                Node::FunctionCall(call) => self.visit_function_call(call),
                Node::LocalAssignment(assignment) => self.visit_local_assignment(assignment),
            }
            i += 1;
        }
        assert(ast.nodes@.take(ast.nodes.len() as int) =~= ast.nodes@);
    }

    /// The reports of what was found: invalid events first, then invalid
    /// properties, then unknown classes.
    pub fn diagnostics(&self) -> (diagnostics: Vec<Diagnostic>)
        ensures
            diagnostic_views(diagnostics@) == self@.diagnostics(),
    {
        let mut diagnostics: Vec<Diagnostic> = Vec::new();
        let ghost events = self@.invalid_events.map_values(
            |event: InvalidEventView| event.diagnostic(),
        );
        let ghost properties = self@.invalid_properties.map_values(
            |property: InvalidPropertyView| property.diagnostic(),
        );
        let ghost classes = self@.unknown_class.map_values(
            |class: UnknownClassView| class.diagnostic(),
        );
        let mut i: usize = 0;
        while i < self.invalid_events.len()
            invariant
                i <= self.invalid_events.len(),
                events.len() == self.invalid_events.len(),
                events == self@.invalid_events.map_values(
                    |event: InvalidEventView| event.diagnostic(),
                ),
                diagnostic_views(diagnostics@) =~= events.take(i as int),
            decreases self.invalid_events.len() - i,
        {
            let ghost before = diagnostic_views(diagnostics@);
            diagnostics.push(self.invalid_events[i].diagnostic());
            assert(diagnostic_views(diagnostics@) =~= before.push(events[i as int]));
            assert(events.take(i + 1) =~= events.take(i as int).push(events[i as int]));
            i += 1;
        }
        assert(events.take(i as int) =~= events);
        let mut j: usize = 0;
        while j < self.invalid_properties.len()
            invariant
                j <= self.invalid_properties.len(),
                properties.len() == self.invalid_properties.len(),
                properties == self@.invalid_properties.map_values(
                    |property: InvalidPropertyView| property.diagnostic(),
                ),
                diagnostic_views(diagnostics@) =~= events + properties.take(j as int),
            decreases self.invalid_properties.len() - j,
        {
            let ghost before = diagnostic_views(diagnostics@);
            diagnostics.push(self.invalid_properties[j].diagnostic());
            assert(diagnostic_views(diagnostics@) =~= before.push(properties[j as int]));
            assert(properties.take(j + 1) =~= properties.take(j as int).push(
                properties[j as int],
            ));
            j += 1;
        }
        assert(properties.take(j as int) =~= properties);
        let mut k: usize = 0;
        while k < self.unknown_class.len()
            invariant
                k <= self.unknown_class.len(),
                classes.len() == self.unknown_class.len(),
                classes == self@.unknown_class.map_values(
                    |class: UnknownClassView| class.diagnostic(),
                ),
                diagnostic_views(diagnostics@) =~= events + properties + classes.take(k as int),
            decreases self.unknown_class.len() - k,
        {
            let ghost before = diagnostic_views(diagnostics@);
            diagnostics.push(self.unknown_class[k].diagnostic());
            assert(diagnostic_views(diagnostics@) =~= before.push(classes[k as int]));
            assert(classes.take(k + 1) =~= classes.take(k as int).push(classes[k as int]));
            k += 1;
        }
        assert(classes.take(k as int) =~= classes);
        diagnostics
    }

    /// Looks up the class that a string literal names. A known class is
    /// returned with its name; an unknown one is recorded as a fault.
    pub fn check_class_name(&mut self, token: &StringLiteral) -> (found: Option<
        (String, &'a RobloxClass),
    >)
        ensures
            final(self).roblox_classes == old(self).roblox_classes,
            found is Some == old(self).roblox_classes@.contains_key(token.literal@),
            match found {
                Some((name, class)) => {
                    &&& name@ == token.literal@
                    &&& *class == old(self).roblox_classes@[token.literal@]
                    &&& final(self)@ == old(self)@
                },
                None => final(self)@ == (VisitorView {
                    unknown_class: old(self)@.unknown_class.push(
                        UnknownClassView { name: token.literal@, range: token.range },
                    ),
                    ..old(self)@
                }),
            },
    {
        let name = token.literal.clone();
        match self.roblox_classes.get(name.as_str()) {
            Some(roblox_class) => Some((name, roblox_class)),
            None => {
                self.unknown_class.push(UnknownClass { name, range: token.range });
                assert(self@.unknown_class =~= old(self)@.unknown_class.push(
                    UnknownClassView { name: token.literal@, range: token.range },
                ));
                None
            },
        }
    }

    /// Checks the fields of an element's table against the element's class:
    /// each named field must be a property of the class, each bracketed field
    /// that reads `Roact.Event.<name>` an event of it.
    pub fn check_fields(&mut self, class_name: &String, class: &RobloxClass, fields: &Vec<Field>)
        ensures
            final(self).roblox_classes == old(self).roblox_classes,
            final(self)@ == (VisitorView {
                invalid_events: old(self)@.invalid_events + model::invalid_events(
                    class_name@,
                    *class,
                    fields@,
                ),
                invalid_properties: old(self)@.invalid_properties + model::invalid_properties(
                    class_name@,
                    *class,
                    fields@,
                ),
                ..old(self)@
            }),
    {
        let mut i: usize = 0;
        assert(fields@.take(0) =~= Seq::empty());
        assert(self@.invalid_events =~= old(self)@.invalid_events + Seq::empty());
        assert(self@.invalid_properties =~= old(self)@.invalid_properties + Seq::empty());
        while i < fields.len()
            invariant
                i <= fields.len(),
                self.roblox_classes == old(self).roblox_classes,
                self@.definitions_of_create_element == old(self)@.definitions_of_create_element,
                self@.unknown_class == old(self)@.unknown_class,
                self@.invalid_events == old(self)@.invalid_events + model::invalid_events(
                    class_name@,
                    *class,
                    fields@.take(i as int),
                ),
                self@.invalid_properties == old(self)@.invalid_properties
                    + model::invalid_properties(class_name@, *class, fields@.take(i as int)),
            decreases fields.len() - i,
        {
            let ghost before = self@;
            proof {
                assert(fields@.take(i + 1).drop_last() =~= fields@.take(i as int));
                assert(fields@.take(i + 1).last() == fields@[i as int]);
            }
            match &fields[i] {
                Field::NameKey { key } => {
                    if !class.has_property(key.text.as_str()) {
                        self.invalid_properties.push(
                            InvalidProperty {
                                class_name: class_name.clone(),
                                property_name: key.text.clone(),
                                range: key.range,
                            },
                        );
                        assert(self@.invalid_properties =~= before.invalid_properties.push(
                            InvalidPropertyView {
                                class_name: class_name@,
                                property_name: key.text@,
                                range: key.range,
                            },
                        ));
                    }
                },
                Field::ExpressionKey { brackets, key } => {
                    match event_name(key) {
                        Some(event) => {
                            if !class.has_event(event.text.as_str()) {
                                self.invalid_events.push(
                                    InvalidEvent {
                                        class_name: class_name.clone(),
                                        event_name: event.text.clone(),
                                        range: *brackets,
                                    },
                                );
                                assert(self@.invalid_events =~= before.invalid_events.push(
                                    InvalidEventView {
                                        class_name: class_name@,
                                        event_name: event.text@,
                                        range: *brackets,
                                    },
                                ));
                            }
                        },
                        None => {},
                    }
                },
                Field::NoKey => {},
            }
            i += 1;
        }
        assert(fields@.take(fields.len() as int) =~= fields@);
    }

    /// Checks a call, if it calls `Roact.createElement` or a local name bound
    /// to it: the class that the first argument names, and against that
    /// class the table in second place.
    pub fn visit_function_call(&mut self, call: &FunctionCall)
        ensures
            final(self).roblox_classes == old(self).roblox_classes,
            final(self)@ == model::visit_function_call(
                old(self)@,
                old(self).roblox_classes@,
                *call,
            ),
    {
        let count = call.suffixes.len();
        if count == 0 {
            return ;
        }
        let check = if count == 1 {
            match &call.prefix {
                Prefix::Name(name) => self.definitions_of_create_element.contains(
                    name.text.as_str(),
                ),
                Prefix::Expression => false,
            }
        } else {
            is_roact_create_element(
                &call.prefix,
                slice_subrange(call.suffixes.as_slice(), 0, count - 1),
            )
        };
        if !check {
            return ;
        }
        let arguments = match &call.suffixes[count - 1] {
            Suffix::Call { arguments } => arguments,
            _ => {
                return ;
            },
        };
        if arguments.len() == 0 {
            return ;
        }
        let token = match &arguments[0] {
            Expression::String(token) => token,
            _ => {
                return ;
            },
        };
        let (name, class) = match self.check_class_name(token) {
            Some(found) => found,
            None => {
                return ;
            },
        };
        if arguments.len() >= 2 {
            match &arguments[1] {
                Expression::TableConstructor { fields } => {
                    self.check_fields(&name, class, fields);
                    return ;
                },
                _ => {},
            }
        }
        assert(self@.invalid_events =~= old(self)@.invalid_events + Seq::empty());
        assert(self@.invalid_properties =~= old(self)@.invalid_properties + Seq::empty());
    }

    /// Records each name of a local assignment whose initialiser is a
    /// reference to `Roact.createElement`.
    pub fn visit_local_assignment(&mut self, node: &LocalAssignment)
        ensures
            final(self).roblox_classes == old(self).roblox_classes,
            final(self)@ == model::visit_local_assignment(old(self)@, *node),
    {
        let mut i: usize = 0;
        assert(self@.definitions_of_create_element
            =~= old(self)@.definitions_of_create_element.union(model::aliases_among(*node, 0)));
        while i < node.names.len() && i < node.expressions.len()
            invariant
                i <= node.names.len(),
                i <= node.expressions.len(),
                self.roblox_classes == old(self).roblox_classes,
                self@.invalid_events == old(self)@.invalid_events,
                self@.invalid_properties == old(self)@.invalid_properties,
                self@.unknown_class == old(self)@.unknown_class,
                self@.definitions_of_create_element
                    == old(self)@.definitions_of_create_element.union(
                    model::aliases_among(*node, i as int),
                ),
            decreases node.names.len() - i,
        {
            let is_alias = match &node.expressions[i] {
                Expression::Var { prefix, suffixes } => is_roact_create_element(
                    prefix,
                    suffixes.as_slice(),
                ),
                _ => false,
            };
            assert(is_alias == model::defines_alias(*node, i as int));
            if is_alias {
                self.definitions_of_create_element.insert(node.names[i].text.clone());
            }
            i += 1;
            assert(self@.definitions_of_create_element
                =~= old(self)@.definitions_of_create_element.union(
                model::aliases_among(*node, i as int),
            )) by {
                assert forall|name: Seq<char>|
                    model::aliases_among(*node, i as int).contains(name) <==> (
                    model::aliases_among(*node, i - 1).contains(name) || (is_alias
                        && node.names@[i - 1].text@ == name)) by {
                    if is_alias && node.names@[i - 1].text@ == name {
                        assert(model::defines_alias(*node, i - 1));
                    }
                }
            }
        }
        assert(model::aliases_among(*node, i as int) =~= model::aliases_defined(*node)) by {
            assert forall|name: Seq<char>|
                model::aliases_defined(*node).contains(name) implies model::aliases_among(
                *node,
                i as int,
            ).contains(name) by {
                let index = choose|index: int|
                    index < node.names@.len() && #[trigger] model::defines_alias(*node, index)
                        && node.names@[index].text@ == name;
                assert(index < i);
            }
        }
    }
}

/// The name of the event that a bracketed key names, where the key, without
/// parentheses around it, reads `Roact.Event.<name>`.
pub fn event_name(key: &Expression) -> (event: Option<&Name>)
    ensures
        match event {
            Some(name) => model::event_key(*key) == Some(name.text@),
            None => model::event_key(*key) is None,
        },
{
    match strip_parentheses(key) {
        Expression::Var { prefix: Prefix::Name(root), suffixes } => {
            if root.reads("Roact") && suffixes.len() == 2 {
                match (&suffixes[0], &suffixes[1]) {
                    (Suffix::DotIndex { name: first }, Suffix::DotIndex { name: event }) => {
                        if first.reads("Event") {
                            Some(event)
                        } else {
                            None
                        }
                    },
                    _ => None,
                }
            } else {
                None
            }
        },
        _ => None,
    }
}

} // verus!
