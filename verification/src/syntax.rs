//! The part of a Python syntax tree that entity extraction reads, and the parser that
//! produces it.

use rustpython_parser::ast;
use rustpython_parser::Parse;
use vstd::prelude::*;

verus! {

/// A constant in an expression. Only string constants keep their value.
#[derive(Debug)]
pub enum Literal {
    Str(String),
    Other,
}

/// An expression, reduced to the shapes that are rendered as text.
#[derive(Debug)]
pub enum Expression {
    Name { id: String },
    Attribute { value: Box<Expression>, attr: String },
    Call { func: Box<Expression> },
    Constant { literal: Literal },
    Other,
}

/// The formal parameters of a function definition, by name: those that are passed by
/// position only, those that can be passed by position or by keyword, each group in
/// declared order, the variadic one and the keyword-variadic one.
#[derive(Debug)]
pub struct Parameters {
    pub posonlyargs: Vec<String>,
    pub args: Vec<String>,
    pub vararg: Option<String>,
    pub kwarg: Option<String>,
}

/// A function definition, synchronous or asynchronous.
#[derive(Debug)]
pub struct FunctionDef {
    pub name: String,
    pub args: Parameters,
    pub body: Vec<Statement>,
    pub decorator_list: Vec<Expression>,
    pub returns: Option<Expression>,
}

/// A class definition.
#[derive(Debug)]
pub struct ClassDef {
    pub name: String,
    pub body: Vec<Statement>,
    pub decorator_list: Vec<Expression>,
}

/// A statement. Statements that define nothing and document nothing are `Other`.
#[derive(Debug)]
pub enum Statement {
    FunctionDef(FunctionDef),
    AsyncFunctionDef(FunctionDef),
    ClassDef(ClassDef),
    Expr(Expression),
    Other,
}

/// `rustpython_parser::text_size::TextRange`, the source range that each node of the
/// parser's tree carries.
#[verifier::external_type_specification]
#[verifier::external_body]
pub struct ExTextRange(rustpython_parser::text_size::TextRange);

/// `rustpython_parser::ast::Stmt`, a statement of the parser's tree.
#[verifier::external_type_specification]
#[verifier::external_body]
#[verifier::reject_recursive_types(R)]
pub struct ExStmt<R>(rustpython_parser::ast::Stmt<R>);

/// `rustpython_parser::ast::Expr`, an expression of the parser's tree.
#[verifier::external_type_specification]
#[verifier::external_body]
#[verifier::reject_recursive_types(R)]
pub struct ExExpr<R>(rustpython_parser::ast::Expr<R>);

/// `rustpython_parser::ast::Arguments`, the formal parameters of a function in the
/// parser's tree.
#[verifier::external_type_specification]
#[verifier::external_body]
#[verifier::reject_recursive_types(R)]
pub struct ExArguments<R>(rustpython_parser::ast::Arguments<R>);

/// What `rustpython_parser` makes of a source text that goes by the name `source_path`:
/// the statements of the module, or the `Debug` rendering of its `ParseError`.
pub uninterp spec fn parsed_module(source: Seq<char>, source_path: Seq<char>) -> Result<
    Seq<Statement>,
    Seq<char>,
>;

/// Calls `<ast::Suite as Parse>::parse`. The parser keeps text offsets in 32 bits, so
/// the source must not be longer than that. The outcome is a function of the two texts
/// alone: the statements, each converted, or the error, rendered with `Debug`.
#[verifier::external_body]
pub(crate) fn parse_module(source: &str, source_path: &str) -> (r: Result<Vec<Statement>, String>)
    requires
        source.len() <= u32::MAX,
    ensures
        match r {
            Ok(suite) => parsed_module(source@, source_path@) == Ok::<Seq<Statement>, Seq<char>>(
                suite@,
            ),
            Err(diagnostic) => parsed_module(source@, source_path@) == Err::<
                Seq<Statement>,
                Seq<char>,
            >(diagnostic@),
        },
{
    match ast::Suite::parse(source, source_path) {
        Ok(suite) => Ok(convert_suite(&suite)),
        Err(e) => Err(format!("{:?}", e)),
    }
}

/// Converts each `ast::Stmt` of a body, in order.
#[verifier::external_body]
fn convert_suite(body: &[ast::Stmt]) -> Vec<Statement> {
    body.iter().map(convert_stmt).collect()
}

/// Converts an `ast::Stmt`, variant by variant: function, asynchronous function and
/// class definitions and expression statements keep their fields, every other variant
/// becomes `Statement::Other`.
#[verifier::external_body]
fn convert_stmt(stmt: &ast::Stmt) -> Statement {
    match stmt {
        ast::Stmt::FunctionDef(f) => Statement::FunctionDef(
            convert_function(&f.name, &f.args, &f.body, &f.decorator_list, f.returns.as_deref()),
        ),
        ast::Stmt::AsyncFunctionDef(f) => Statement::AsyncFunctionDef(
            convert_function(&f.name, &f.args, &f.body, &f.decorator_list, f.returns.as_deref()),
        ),
        ast::Stmt::ClassDef(c) => Statement::ClassDef(
            convert_class(&c.name, &c.body, &c.decorator_list),
        ),
        ast::Stmt::Expr(e) => Statement::Expr(convert_expr(&e.value)),
        _ => Statement::Other,
    }
}

/// Moves the fields of an `ast::StmtFunctionDef` or `ast::StmtAsyncFunctionDef`.
#[verifier::external_body]
fn convert_function(
    name: &str,
    args: &ast::Arguments,
    body: &[ast::Stmt],
    decorators: &[ast::Expr],
    annotation: Option<&ast::Expr>,
) -> FunctionDef {
    FunctionDef {
        name: name.to_string(),
        args: convert_arguments(args),
        body: convert_suite(body),
        decorator_list: decorators.iter().map(convert_expr).collect(),
        returns: annotation.map(convert_expr),
    }
}

/// Moves the fields of an `ast::StmtClassDef`.
#[verifier::external_body]
fn convert_class(name: &str, body: &[ast::Stmt], decorators: &[ast::Expr]) -> ClassDef {
    ClassDef {
        name: name.to_string(),
        body: convert_suite(body),
        decorator_list: decorators.iter().map(convert_expr).collect(),
    }
}

/// Converts an `ast::Expr`, variant by variant: names, attribute accesses, calls and
/// constants keep their fields, every other variant becomes `Expression::Other`.
#[verifier::external_body]
fn convert_expr(expr: &ast::Expr) -> Expression {
    match expr {
        ast::Expr::Name(n) => Expression::Name { id: n.id.to_string() },
        ast::Expr::Attribute(a) => Expression::Attribute {
            value: Box::new(convert_expr(&a.value)),
            attr: a.attr.to_string(),
        },
        ast::Expr::Call(c) => Expression::Call { func: Box::new(convert_expr(&c.func)) },
        ast::Expr::Constant(c) => Expression::Constant {
            literal: match &c.value {
                ast::Constant::Str(s) => Literal::Str(s.clone()),
                _ => Literal::Other,
            },
        },
        _ => Expression::Other,
    }
}

/// Moves the names out of the fields `posonlyargs`, `args`, `vararg` and `kwarg` of an
/// `ast::Arguments`, each into the field of the same name. Its keyword-only
/// parameters are not read.
#[verifier::external_body]
fn convert_arguments(args: &ast::Arguments) -> Parameters {
    Parameters {
        posonlyargs: args.posonlyargs.iter().map(|a| a.def.arg.to_string()).collect(),
        args: args.args.iter().map(|a| a.def.arg.to_string()).collect(),
        vararg: args.vararg.as_ref().map(|a| a.arg.to_string()),
        kwarg: args.kwarg.as_ref().map(|a| a.arg.to_string()),
    }
}

} // verus!
