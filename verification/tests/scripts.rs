//! The lint on scripts parsed by `full_moon`.

use full_moon::ast;
use full_moon::node::Node as SyntaxNode;
use full_moon::tokenizer::{TokenReference, TokenType};
use full_moon::visitors::Visitor;
use incorrect_roact_usage::diagnostic::Diagnostic;
use incorrect_roact_usage::lint::IncorrectRoactUsageLint;
use incorrect_roact_usage::schema::{ClassSchema, Context, RobloxClass};
use incorrect_roact_usage::syntax::{
    Ast, Expression, Field, FunctionCall, LocalAssignment, Name, Node, Prefix, Range,
    StringLiteral, Suffix,
};

fn range<N: SyntaxNode>(node: N) -> Range {
    let (start, end) = node.range().unwrap();
    (start.bytes(), end.bytes())
}

fn name(token: &TokenReference) -> Name {
    Name { text: token.token().to_string(), range: range(token) }
}

fn prefix(prefix: &ast::Prefix) -> Prefix {
    match prefix {
        ast::Prefix::Name(token) => Prefix::Name(name(token)),
        _ => Prefix::Expression,
    }
}

fn suffix(suffix: &ast::Suffix) -> Suffix {
    match suffix {
        ast::Suffix::Index(ast::Index::Dot { name: token, .. }) => {
            Suffix::DotIndex { name: name(token) }
        }
        ast::Suffix::Call(ast::Call::AnonymousCall(ast::FunctionArgs::Parentheses {
            arguments,
            ..
        })) => Suffix::Call { arguments: arguments.iter().map(expression).collect() },
        _ => Suffix::Other,
    }
}

fn string(token: &TokenReference) -> Expression {
    match token.token_type() {
        TokenType::StringLiteral { literal, .. } => Expression::String(StringLiteral {
            literal: literal.to_string(),
            range: range(token),
        }),
        _ => Expression::Other,
    }
}

fn value(value: &ast::Value) -> Expression {
    match value {
        ast::Value::ParenthesesExpression(inner) => {
            Expression::Parentheses(Box::new(expression(inner)))
        }
        ast::Value::String(token) => string(token),
        ast::Value::TableConstructor(table) => Expression::TableConstructor {
            fields: table.fields().iter().map(field).collect(),
        },
        ast::Value::Var(ast::Var::Expression(var)) => Expression::Var {
            prefix: prefix(var.prefix()),
            suffixes: var.suffixes().map(suffix).collect(),
        },
        ast::Value::Var(ast::Var::Name(token)) => {
            Expression::Var { prefix: Prefix::Name(name(token)), suffixes: Vec::new() }
        }
        _ => Expression::Other,
    }
}

fn expression(expression: &ast::Expression) -> Expression {
    match expression {
        ast::Expression::Parentheses { expression: inner, .. } => {
            Expression::Parentheses(Box::new(self::expression(inner)))
        }
        ast::Expression::Value { value: inner, .. } => value(inner),
        _ => Expression::Other,
    }
}

fn field(field: &ast::Field) -> Field {
    match field {
        ast::Field::ExpressionKey { brackets, key, .. } => {
            Field::ExpressionKey { brackets: range(brackets), key: expression(key) }
        }
        ast::Field::NameKey { key, .. } => Field::NameKey { key: name(key) },
        _ => Field::NoKey,
    }
}

struct NodeCollector {
    nodes: Vec<Node>,
}

impl Visitor for NodeCollector {
    fn visit_function_call(&mut self, call: &ast::FunctionCall) {
        self.nodes.push(Node::FunctionCall(FunctionCall {
            prefix: prefix(call.prefix()),
            suffixes: call.suffixes().map(suffix).collect(),
        }));
    }

    fn visit_local_assignment(&mut self, node: &ast::LocalAssignment) {
        self.nodes.push(Node::LocalAssignment(LocalAssignment {
            names: node.names().iter().map(name).collect(),
            expressions: node.expressions().iter().map(expression).collect(),
        }));
    }
}

fn nodes_of(source: &str) -> Ast {
    let parsed = full_moon::parse(source).unwrap();
    let mut collector = NodeCollector { nodes: Vec::new() };
    collector.visit_ast(&parsed);
    Ast { nodes: collector.nodes }
}

fn class(properties: &[&str], events: &[&str]) -> RobloxClass {
    RobloxClass {
        properties: properties.iter().map(|name| name.to_string()).collect(),
        events: events.iter().map(|name| name.to_string()).collect(),
    }
}

fn roblox() -> Context {
    let mut roblox_classes = ClassSchema::new();
    roblox_classes.insert("Frame".to_string(), class(&["Name", "Size"], &["InputBegan"]));
    roblox_classes.insert(
        "TextLabel".to_string(),
        class(&["Name", "Size", "Text"], &["InputBegan", "Changed"]),
    );
    Context { roblox: true, roblox_classes }
}

fn lint(source: &str, context: &Context) -> Vec<(String, String, Range)> {
    let lint = IncorrectRoactUsageLint::new(()).unwrap();
    let diagnostics: Vec<Diagnostic> = lint.pass(&nodes_of(source), context);
    diagnostics
        .into_iter()
        .map(|diagnostic| {
            (diagnostic.code.to_string(), diagnostic.message, diagnostic.primary_label.range)
        })
        .collect()
}

fn span_of(source: &str, text: &str) -> Range {
    let start = source.find(text).unwrap();
    (start, start + text.len())
}

fn report(code: &str, message: &str, range: Range) -> (String, String, Range) {
    (code.to_string(), message.to_string(), range)
}

const SCRIPT: &str = r#"local Roact = require(game:GetService("ReplicatedStorage").Roact)
local e = Roact.createElement

Roact.createElement("Frame", {
	Name = "Valid",
	ThisPropertyDoesNotExist = true,
	[Roact.Event.InputBegan] = function() end,
	[Roact.Event.ThisEventDoesNotExist] = function() end,
	[Roact.Change.Name] = function() end,
	[someVariable] = 1,
})

e("ThisClassDoesNotExist", {
	Name = "Ignored",
	NeverLookedAt = 1,
})

e("TextLabel", {
	Text = "Hello",
	NotAProperty = 1,
}, {
	Child = Roact.createElement("Frame", { AlsoNotAProperty = 2 }),
})

Roact.createElement(className, { Anything = 1 })
Roact.createElement("Frame")
"#;

#[test]
fn test_old_roblox_std() {
    let context = Context { roblox: true, roblox_classes: ClassSchema::new() };
    assert_eq!(lint(SCRIPT, &context), vec![]);
}

#[test]
fn test_roblox_incorrect_roact_usage() {
    let expected = vec![
        report(
            "incorrect_roact_usage",
            "`ThisEventDoesNotExist` is not a valid event for `Frame`",
            span_of(SCRIPT, "[Roact.Event.ThisEventDoesNotExist]"),
        ),
        report(
            "roblox_incorrect_roact_usage",
            "`ThisPropertyDoesNotExist` is not a property of `Frame`",
            span_of(SCRIPT, "ThisPropertyDoesNotExist"),
        ),
        report(
            "roblox_incorrect_roact_usage",
            "`NotAProperty` is not a property of `TextLabel`",
            span_of(SCRIPT, "NotAProperty"),
        ),
        report(
            "roblox_incorrect_roact_usage",
            "`AlsoNotAProperty` is not a property of `Frame`",
            span_of(SCRIPT, "AlsoNotAProperty"),
        ),
        report(
            "roblox_incorrect_roact_usage",
            "`ThisClassDoesNotExist` is not a valid class",
            span_of(SCRIPT, "\"ThisClassDoesNotExist\""),
        ),
    ];
    assert_eq!(lint(SCRIPT, &roblox()), expected);
}

#[test]
fn script_that_is_not_for_roblox_is_not_checked() {
    let mut context = roblox();
    context.roblox = false;
    assert_eq!(lint(SCRIPT, &context), vec![]);
}

#[test]
fn unknown_class_is_reported_once_whatever_the_table_holds() {
    let source = "Roact.createElement(\"Unknown\", { BadProp = 1, [Roact.Event.BadEvt] = f })";
    assert_eq!(
        lint(source, &roblox()),
        vec![report(
            "roblox_incorrect_roact_usage",
            "`Unknown` is not a valid class",
            (20, 29),
        )]
    );
    let empty = "Roact.createElement(\"Unknown\", {})";
    assert_eq!(lint(empty, &roblox()), lint(source, &roblox()));
}

#[test]
fn invalid_property_is_reported_at_its_key() {
    let source = "Roact.createElement(\"Frame\", { BadProp = 1 })";
    assert_eq!(
        lint(source, &roblox()),
        vec![report(
            "roblox_incorrect_roact_usage",
            "`BadProp` is not a property of `Frame`",
            (31, 38),
        )]
    );
}

#[test]
fn invalid_event_is_reported_at_its_brackets() {
    let source = "Roact.createElement(\"Frame\", { [Roact.Event.BadEvt] = fn })";
    assert_eq!(
        lint(source, &roblox()),
        vec![report(
            "incorrect_roact_usage",
            "`BadEvt` is not a valid event for `Frame`",
            (31, 51),
        )]
    );
}

#[test]
fn alias_is_checked_as_the_direct_call_is() {
    let aliased = "local make = Roact.createElement\nmake(\"Frame\", { Name = 1 })";
    let direct = "Roact.createElement(\"Frame\", { Name = 1 })";
    assert_eq!(lint(aliased, &roblox()), vec![]);
    assert_eq!(lint(aliased, &roblox()), lint(direct, &roblox()));

    let aliased = "local make = Roact.createElement\nmake(\"Frame\", { Nope = 1 })";
    assert_eq!(
        lint(aliased, &roblox()),
        vec![report(
            "roblox_incorrect_roact_usage",
            "`Nope` is not a property of `Frame`",
            span_of(aliased, "Nope"),
        )]
    );
}

#[test]
fn names_and_initialisers_pair_by_position() {
    let source = "local a, b, c = 1, Roact.createElement\n\
                  a(\"Nope\", {})\nb(\"Nada\", {})\nc(\"Nil\", {})";
    assert_eq!(
        lint(source, &roblox()),
        vec![report(
            "roblox_incorrect_roact_usage",
            "`Nada` is not a valid class",
            span_of(source, "\"Nada\""),
        )]
    );
}

#[test]
fn alias_outlives_its_block_and_a_later_assignment() {
    let source = "do local make = Roact.createElement end\nmake = print\nmake(\"Nope\", {})";
    assert_eq!(
        lint(source, &roblox()),
        vec![report(
            "roblox_incorrect_roact_usage",
            "`Nope` is not a valid class",
            span_of(source, "\"Nope\""),
        )]
    );
}

#[test]
fn call_before_the_alias_is_not_checked() {
    let source = "make(\"Nope\", {})\nlocal make = Roact.createElement";
    assert_eq!(lint(source, &roblox()), vec![]);
}

#[test]
fn variable_class_name_is_never_reported() {
    let source = "local className = \"Unknown\"\n\
                  Roact.createElement(className, { BadProp = 1, [Roact.Event.BadEvt] = f })\n\
                  Roact.createElement(\"Fra\" .. \"me\", { BadProp = 1 })\n\
                  Roact.createElement(getName(), { BadProp = 1 })\n\
                  Roact.createElement((\"Unknown\"), { BadProp = 1 })";
    assert_eq!(lint(source, &roblox()), vec![]);
}

#[test]
fn dynamic_key_is_never_reported() {
    let source = "Roact.createElement(\"Frame\", {\n\
                  [someVar] = 1,\n\
                  [Roact.Change.Nope] = f,\n\
                  [Roact.Event] = f,\n\
                  [Roact.Event.Nope.More] = f,\n\
                  [Other.Event.Nope] = f,\n\
                  [Roact.Event[\"Nope\"]] = f,\n\
                  [\"Nope\"] = 1,\n\
                  })";
    assert_eq!(lint(source, &roblox()), vec![]);
}

#[test]
fn parentheses_around_an_event_key_are_ignored() {
    let source = "Roact.createElement(\"Frame\", { [((Roact.Event.Nope))] = f })";
    assert_eq!(
        lint(source, &roblox()),
        vec![report(
            "incorrect_roact_usage",
            "`Nope` is not a valid event for `Frame`",
            span_of(source, "[((Roact.Event.Nope))]"),
        )]
    );
}

#[test]
fn other_call_shapes_are_not_matched() {
    let source = "(Roact).createElement(\"Nope\", {})\n\
                  Roact:createElement(\"Nope\", {})\n\
                  Roact.createElement.again(\"Nope\", {})\n\
                  Roact[\"createElement\"](\"Nope\", {})\n\
                  Roact.createFragment(\"Nope\", {})\n\
                  React.createElement(\"Nope\", {})\n\
                  createElement(\"Nope\", {})\n\
                  Roact.createElement \"Nope\"\n\
                  Roact.createElement { \"Nope\" }\n\
                  Roact.createElement()";
    assert_eq!(lint(source, &roblox()), vec![]);
}

#[test]
fn alias_of_an_alias_is_not_an_alias() {
    let source = "local make = Roact.createElement\nlocal again = make\n\
                  local called = Roact.createElement(\"Frame\")\n\
                  local wrapped = (Roact.createElement)\n\
                  again(\"Nope\", {})\ncalled(\"Nope\", {})\nwrapped(\"Nope\", {})";
    assert_eq!(lint(source, &roblox()), vec![]);
}

#[test]
fn positional_fields_and_missing_tables_are_ignored() {
    let source = "Roact.createElement(\"Frame\", { 1, \"two\", Nope })\n\
                  Roact.createElement(\"Frame\")\n\
                  Roact.createElement(\"Frame\", props)\n\
                  Roact.createElement(\"Frame\", nil, { Nope = 1 })";
    assert_eq!(lint(source, &roblox()), vec![]);
}

#[test]
fn pass_reports_the_same_twice() {
    let context = roblox();
    assert_eq!(lint(SCRIPT, &context), lint(SCRIPT, &context));
    assert_eq!(lint(SCRIPT, &context).len(), 5);
}
