use autodoc_core::parser::expr_to_string;
use autodoc_core::parser::exprs_to_strings;
use autodoc_core::parser::extract_docstring;
use autodoc_core::parser::extract_parameters;
use autodoc_core::parser::EntityVisitor;
use autodoc_core::parser::PythonParser;
use autodoc_core::syntax::ClassDef;
use autodoc_core::syntax::Expression;
use autodoc_core::syntax::FunctionDef;
use autodoc_core::syntax::Literal;
use autodoc_core::syntax::Parameters;
use autodoc_core::syntax::Statement;
use std::path::Path;
use std::path::PathBuf;

fn name(id: &str) -> Expression {
    Expression::Name { id: id.to_string() }
}

fn attribute(value: Expression, attr: &str) -> Expression {
    Expression::Attribute { value: Box::new(value), attr: attr.to_string() }
}

fn call(func: Expression) -> Expression {
    Expression::Call { func: Box::new(func) }
}

fn string(value: &str) -> Expression {
    Expression::Constant { literal: Literal::Str(value.to_string()) }
}

fn no_parameters() -> Parameters {
    Parameters { posonlyargs: vec![], args: vec![], vararg: None, kwarg: None }
}

fn function(name: &str) -> FunctionDef {
    FunctionDef {
        name: name.to_string(),
        args: no_parameters(),
        body: vec![Statement::Other],
        decorator_list: vec![],
        returns: None,
    }
}

fn class(name: &str, body: Vec<Statement>) -> Statement {
    Statement::ClassDef(ClassDef { name: name.to_string(), body, decorator_list: vec![] })
}

fn names_and_types(suite: &Vec<Statement>) -> Vec<(String, String)> {
    PythonParser::new()
        .extract_entities(suite, Path::new("m.py"))
        .into_iter()
        .map(|e| (e.entity_type, e.name))
        .collect()
}

fn pair(entity_type: &str, name: &str) -> (String, String) {
    (entity_type.to_string(), name.to_string())
}

#[test]
fn name_renders_as_itself() {
    assert_eq!(expr_to_string(&name("cache")), "cache");
}

#[test]
fn attribute_renders_with_a_dot() {
    assert_eq!(expr_to_string(&attribute(name("app"), "route")), "app.route");
    assert_eq!(expr_to_string(&attribute(attribute(name("a"), "b"), "c")), "a.b.c");
}

#[test]
fn call_renders_without_its_arguments() {
    assert_eq!(expr_to_string(&call(attribute(name("app"), "route"))), "app.route(...)");
    assert_eq!(expr_to_string(&call(call(name("f")))), "f(...)(...)");
    assert_eq!(expr_to_string(&attribute(call(name("f")), "g")), "f(...).g");
}

#[test]
fn other_expressions_render_as_a_placeholder() {
    assert_eq!(expr_to_string(&Expression::Other), "...");
    assert_eq!(expr_to_string(&string("text")), "...");
    assert_eq!(expr_to_string(&Expression::Constant { literal: Literal::Other }), "...");
    assert_eq!(expr_to_string(&attribute(Expression::Other, "x")), "....x");
    assert_eq!(expr_to_string(&call(Expression::Other)), "...(...)");
}

#[test]
fn expressions_render_in_order() {
    let rendered = exprs_to_strings(&vec![name("a"), call(name("b")), Expression::Other]);
    assert_eq!(rendered, vec!["a", "b(...)", "..."]);
    assert_eq!(exprs_to_strings(&vec![]), Vec::<String>::new());
}

#[test]
fn docstring_is_a_leading_string_constant() {
    let body = vec![Statement::Expr(string("Say hello.")), Statement::Other];
    assert_eq!(extract_docstring(&body), Some("Say hello.".to_string()));
}

#[test]
fn docstring_is_absent_after_any_other_first_statement() {
    assert_eq!(extract_docstring(&vec![]), None);
    assert_eq!(extract_docstring(&vec![Statement::Other, Statement::Expr(string("late"))]), None);
    assert_eq!(extract_docstring(&vec![Statement::Expr(name("x"))]), None);
    assert_eq!(extract_docstring(&vec![Statement::Expr(call(name("f")))]), None);
    assert_eq!(
        extract_docstring(&vec![Statement::Expr(Expression::Constant { literal: Literal::Other })]),
        None
    );
    assert_eq!(extract_docstring(&vec![Statement::FunctionDef(function("f"))]), None);
    assert_eq!(extract_docstring(&vec![class("C", vec![Statement::Expr(string("inner"))])]), None);
}

#[test]
fn parameters_come_in_order_with_their_markers() {
    let args = Parameters {
        posonlyargs: vec![],
        args: vec!["a".to_string()],
        vararg: Some("args".to_string()),
        kwarg: Some("kwargs".to_string()),
    };
    assert_eq!(extract_parameters(&args), vec!["a", "*args", "**kwargs"]);
}

#[test]
fn parameters_without_variadics() {
    let args = Parameters {
        posonlyargs: vec![],
        args: vec!["self".to_string(), "x".to_string(), "y".to_string()],
        vararg: None,
        kwarg: None,
    };
    assert_eq!(extract_parameters(&args), vec!["self", "x", "y"]);
    assert_eq!(extract_parameters(&no_parameters()), Vec::<String>::new());
}

#[test]
fn positional_only_parameters_come_first() {
    let args = Parameters {
        posonlyargs: vec!["a".to_string(), "b".to_string()],
        args: vec!["c".to_string()],
        vararg: Some("rest".to_string()),
        kwarg: Some("options".to_string()),
    };
    assert_eq!(extract_parameters(&args), vec!["a", "b", "c", "*rest", "**options"]);
    let only = Parameters {
        posonlyargs: vec!["x".to_string()],
        args: vec![],
        vararg: None,
        kwarg: None,
    };
    assert_eq!(extract_parameters(&only), vec!["x"]);
}

#[test]
fn parameters_with_one_variadic_only() {
    let only_vararg = Parameters {
        posonlyargs: vec![],
        args: vec![],
        vararg: Some("rest".to_string()),
        kwarg: None,
    };
    assert_eq!(extract_parameters(&only_vararg), vec!["*rest"]);
    let only_kwarg = Parameters {
        posonlyargs: vec![],
        args: vec![],
        vararg: None,
        kwarg: Some("options".to_string()),
    };
    assert_eq!(extract_parameters(&only_kwarg), vec!["**options"]);
}

#[test]
fn class_with_methods_gives_class_then_methods_in_order() {
    let suite = vec![class(
        "Service",
        vec![
            Statement::Expr(string("A service.")),
            Statement::FunctionDef(function("start")),
            Statement::Other,
            Statement::AsyncFunctionDef(function("run")),
            Statement::FunctionDef(function("stop")),
        ],
    )];
    assert_eq!(
        names_and_types(&suite),
        vec![
            pair("class", "Service"),
            pair("method", "start"),
            pair("method", "run"),
            pair("method", "stop"),
        ]
    );
}

#[test]
fn class_without_methods_gives_the_class_alone() {
    let suite = vec![class("Empty", vec![Statement::Other])];
    assert_eq!(names_and_types(&suite), vec![pair("class", "Empty")]);
}

#[test]
fn nested_class_comes_after_its_outer_class() {
    let suite = vec![
        class(
            "Outer",
            vec![
                Statement::FunctionDef(function("before")),
                class("Inner", vec![Statement::FunctionDef(function("deep"))]),
                Statement::FunctionDef(function("after")),
            ],
        ),
        Statement::FunctionDef(function("free")),
    ];
    assert_eq!(
        names_and_types(&suite),
        vec![
            pair("class", "Outer"),
            pair("method", "before"),
            pair("class", "Inner"),
            pair("method", "deep"),
            pair("method", "after"),
            pair("function", "free"),
        ]
    );
}

#[test]
fn definitions_inside_a_function_are_not_visited() {
    let mut outer = function("outer");
    outer.body = vec![
        Statement::FunctionDef(function("inner")),
        class("Local", vec![Statement::FunctionDef(function("m"))]),
    ];
    let suite = vec![Statement::FunctionDef(outer)];
    assert_eq!(names_and_types(&suite), vec![pair("function", "outer")]);
}

#[test]
fn other_statements_give_no_entity() {
    let suite = vec![Statement::Other, Statement::Expr(string("module doc")), Statement::Other];
    assert_eq!(names_and_types(&suite), vec![]);
    assert_eq!(names_and_types(&vec![]), vec![]);
}

#[test]
fn function_entity_carries_what_the_definition_holds() {
    let def = FunctionDef {
        name: "list_users".to_string(),
        args: Parameters {
            posonlyargs: vec![],
            args: vec!["request".to_string(), "page".to_string()],
            vararg: None,
            kwarg: Some("filters".to_string()),
        },
        body: vec![Statement::Expr(string("List the users.")), Statement::Other],
        decorator_list: vec![name("login_required"), call(attribute(name("app"), "get"))],
        returns: Some(attribute(name("http"), "Response")),
    };
    let entities = PythonParser::new()
        .extract_entities(&vec![Statement::FunctionDef(def)], Path::new("api/users.py"));
    assert_eq!(entities.len(), 1);
    let e = &entities[0];
    assert_eq!(e.entity_type, "function");
    assert_eq!(e.name, "list_users");
    assert_eq!(e.file_path, PathBuf::from("api/users.py"));
    assert_eq!(e.line_number, 1);
    assert_eq!(e.docstring, Some("List the users.".to_string()));
    assert_eq!(e.code, "def list_users(...): ...");
    assert!(!e.is_async);
    assert_eq!(e.decorators, vec!["login_required", "app.get(...)"]);
    assert_eq!(e.parameters, vec!["request", "page", "**filters"]);
    assert_eq!(e.return_type, Some("http.Response".to_string()));
    assert!(!e.is_internal);
    assert!(e.is_api_endpoint);
    assert_eq!(e.endpoint_path, None);
    assert!(e.http_methods.is_empty());
    assert_eq!(e.complexity_score, 1 + 3);
}

#[test]
fn asynchronous_function_entity_scores_two_more() {
    let entities = PythonParser::new()
        .extract_entities(&vec![Statement::AsyncFunctionDef(function("poll"))], Path::new("m.py"));
    assert_eq!(entities.len(), 1);
    assert!(entities[0].is_async);
    assert_eq!(entities[0].code, "async def poll(...): ...");
    assert_eq!(entities[0].complexity_score, 3);
    assert_eq!(entities[0].entity_type, "function");
}

#[test]
fn class_entity_has_docstring_and_decorators_only() {
    let def = ClassDef {
        name: "UserApi".to_string(),
        body: vec![Statement::Expr(string("Users."))],
        decorator_list: vec![call(attribute(name("api"), "route"))],
    };
    let entities =
        PythonParser::new().extract_entities(&vec![Statement::ClassDef(def)], Path::new("m.py"));
    assert_eq!(entities.len(), 1);
    let e = &entities[0];
    assert_eq!(e.entity_type, "class");
    assert_eq!(e.name, "UserApi");
    assert_eq!(e.docstring, Some("Users.".to_string()));
    assert_eq!(e.decorators, vec!["api.route(...)"]);
    assert_eq!(e.code, "");
    assert!(e.parameters.is_empty());
    assert_eq!(e.return_type, None);
    assert!(!e.is_api_endpoint);
    assert_eq!(e.endpoint_path, None);
    assert_eq!(e.complexity_score, 1);
}

#[test]
fn every_entity_has_a_score_and_a_path_only_as_endpoint() {
    let mut decorated = function("decorated");
    decorated.decorator_list = vec![call(name("route")), name("cache")];
    let suite = vec![
        Statement::FunctionDef(function("plain")),
        Statement::FunctionDef(decorated),
        class("C", vec![Statement::AsyncFunctionDef(function("m"))]),
    ];
    let entities = PythonParser::new().extract_entities(&suite, Path::new("m.py"));
    assert_eq!(entities.len(), 4);
    for e in &entities {
        assert!(e.complexity_score >= 1);
        assert!(e.is_api_endpoint || e.endpoint_path.is_none());
    }
}

#[test]
fn visitor_appends_to_what_is_there() {
    let mut entities = PythonParser::new()
        .extract_entities(&vec![Statement::FunctionDef(function("first"))], Path::new("a.py"));
    let mut visitor = EntityVisitor::new(Path::new("b.py"));
    visitor.visit_stmt(&Statement::Other, &mut entities);
    visitor.visit_stmt(&Statement::FunctionDef(function("second")), &mut entities);
    visitor.visit_stmt(&class("C", vec![Statement::FunctionDef(function("m"))]), &mut entities);
    visitor.visit_stmt(&Statement::AsyncFunctionDef(function("third")), &mut entities);
    let seen: Vec<(String, String, PathBuf)> =
        entities.into_iter().map(|e| (e.entity_type, e.name, e.file_path)).collect();
    assert_eq!(
        seen,
        vec![
            ("function".to_string(), "first".to_string(), PathBuf::from("a.py")),
            ("function".to_string(), "second".to_string(), PathBuf::from("b.py")),
            ("class".to_string(), "C".to_string(), PathBuf::from("b.py")),
            ("method".to_string(), "m".to_string(), PathBuf::from("b.py")),
            ("function".to_string(), "third".to_string(), PathBuf::from("b.py")),
        ]
    );
}

#[test]
fn visitor_methods_append_one_definition_each() {
    let mut entities = Vec::new();
    let mut visitor = EntityVisitor::new(Path::new("m.py"));
    visitor.visit_function(&function("f"), &mut entities);
    visitor.visit_async_function(&function("g"), &mut entities);
    visitor.visit_class(
        &ClassDef { name: "C".to_string(), body: vec![], decorator_list: vec![] },
        &mut entities,
    );
    assert_eq!(entities.len(), 3);
    assert_eq!(entities[0].name, "f");
    assert!(!entities[0].is_async);
    assert_eq!(entities[1].name, "g");
    assert!(entities[1].is_async);
    assert_eq!(entities[2].name, "C");
    assert_eq!(entities[2].entity_type, "class");
}
