//! Extraction of entities from Python source: the renderings of expressions,
//! docstrings and parameters, and the walk over the syntax tree.

use crate::entity::any_api_decorator;
use crate::entity::complexity_score_of;
use crate::entity::detected_path;
use crate::entity::first_quoted_literal;
use crate::entity::CodeEntity;
use crate::entity::CodeEntityView;
use crate::syntax::ClassDef;
use crate::syntax::Expression;
use crate::syntax::FunctionDef;
use crate::syntax::Literal;
use crate::syntax::Parameters;
use crate::syntax::Statement;
use crate::syntax::parse_module;
use crate::syntax::parsed_module;
use crate::text::opt_text;
use crate::text::texts;
use std::path::Path;
use std::path::PathBuf;
use vstd::prelude::*;
use vstd::string::StringExecFns;

verus! {

/// `std::path::Path`, carried through as it is given.
#[verifier::external_type_specification]
#[verifier::external_body]
pub struct ExPath(std::path::Path);

/// The owned path that `Path::to_path_buf` makes of a borrowed one.
pub uninterp spec fn owned_path(path: &Path) -> PathBuf;

/// `Path::to_path_buf` converts a `Path` to an owned `PathBuf` with the same contents.
pub assume_specification[ std::path::Path::to_path_buf ](path: &Path) -> (owned: PathBuf)
    ensures
        owned == owned_path(path),
;

/// The lossy rendering of an expression: a name as itself, an attribute access as
/// `<base>.<attr>`, a call as `<callee>(...)`, anything else as `...`.
pub open spec fn expr_text(expr: Expression) -> Seq<char>
    decreases expr,
{
    match expr {
        Expression::Name { id } => id@,
        Expression::Attribute { value, attr } => expr_text(*value) + "."@ + attr@,
        Expression::Call { func } => expr_text(*func) + "(...)"@,
        _ => "..."@,
    }
}

/// The renderings of a sequence of expressions, in order.
pub open spec fn exprs_text(exprs: Seq<Expression>) -> Seq<Seq<char>> {
    Seq::new(exprs.len(), |i: int| expr_text(exprs[i]))
}

/// The rendering of an optional expression.
pub open spec fn opt_expr_text(expr: Option<Expression>) -> Option<Seq<char>> {
    match expr {
        Some(e) => Some(expr_text(e)),
        None => None,
    }
}

/// The docstring of a body: the value of its first statement where that is a bare
/// string constant.
pub open spec fn docstring_of(body: Seq<Statement>) -> Option<Seq<char>> {
    if body.len() > 0 {
        match body[0] {
            Statement::Expr(Expression::Constant { literal: Literal::Str(s) }) => Some(s@),
            _ => None,
        }
    } else {
        None
    }
}

/// The name of the variadic parameter behind its marker `*`, if there is one.
pub open spec fn vararg_names(vararg: Option<String>) -> Seq<Seq<char>> {
    match vararg {
        Some(name) => seq!["*"@ + name@],
        None => Seq::empty(),
    }
}

/// The name of the keyword-variadic parameter behind its marker `**`, if there is one.
pub open spec fn kwarg_names(kwarg: Option<String>) -> Seq<Seq<char>> {
    match kwarg {
        Some(name) => seq!["**"@ + name@],
        None => Seq::empty(),
    }
}

/// The parameter names of a function: the positional ones in declared order, those
/// that are positional only first, then the variadic one, then the keyword-variadic
/// one.
pub open spec fn parameter_names(params: Parameters) -> Seq<Seq<char>> {
    texts(params.posonlyargs@) + texts(params.args@) + vararg_names(params.vararg)
        + kwarg_names(params.kwarg)
}

/// The text that stands for the code of a function definition.
pub open spec fn signature_text(name: Seq<char>, is_async: bool) -> Seq<char> {
    if is_async {
        "async def "@ + name + "(...): ..."@
    } else {
        "def "@ + name + "(...): ..."@
    }
}

/// The entity of a function definition: a method where it stands in a class, with
/// docstring, decorators, parameters and return type read off the definition, and both
/// heuristics applied.
pub open spec fn function_entity(
    def: FunctionDef,
    is_async: bool,
    in_class: bool,
    path: PathBuf,
) -> CodeEntityView {
    let decorators = exprs_text(def.decorator_list@);
    let parameters = parameter_names(def.args);
    let code = signature_text(def.name@, is_async);
    CodeEntityView {
        docstring: docstring_of(def.body@),
        code,
        is_async,
        decorators,
        parameters,
        return_type: opt_expr_text(def.returns),
        is_api_endpoint: any_api_decorator(decorators),
        endpoint_path: detected_path(
            any_api_decorator(decorators),
            first_quoted_literal(decorators),
        ),
        complexity_score: complexity_score_of(parameters.len(), code, is_async),
        ..CodeEntityView::fresh(
            if in_class {
                "method"@
            } else {
                "function"@
            },
            def.name@,
            path,
            1,
        )
    }
}

/// The entity of a class definition: its docstring and decorators, and no heuristic.
pub open spec fn class_entity(def: ClassDef, path: PathBuf) -> CodeEntityView {
    CodeEntityView {
        docstring: docstring_of(def.body@),
        decorators: exprs_text(def.decorator_list@),
        ..CodeEntityView::fresh("class"@, def.name@, path, 1)
    }
}

/// The entities of one statement, in the order of the walk: a function definition gives
/// its entity, a class definition gives its own and then those of its body, any other
/// statement gives none.
pub open spec fn stmt_entities(stmt: Statement, in_class: bool, path: PathBuf) -> Seq<
    CodeEntityView,
>
    decreases stmt,
{
    match stmt {
        Statement::FunctionDef(def) => seq![function_entity(def, false, in_class, path)],
        Statement::AsyncFunctionDef(def) => seq![function_entity(def, true, in_class, path)],
        Statement::ClassDef(def) => seq![class_entity(def, path)] + suite_entities(
            def.body@,
            true,
            path,
        ),
        _ => Seq::empty(),
    }
}

/// The entities of a sequence of statements: those of each statement, in source order.
pub open spec fn suite_entities(suite: Seq<Statement>, in_class: bool, path: PathBuf) -> Seq<
    CodeEntityView,
>
    decreases suite,
{
    if suite.len() == 0 {
        Seq::empty()
    } else {
        suite_entities(suite.drop_last(), in_class, path) + stmt_entities(
            suite.last(),
            in_class,
            path,
        )
    }
}

/// The views of a sequence of entities, in order.
pub open spec fn entity_views(entities: Seq<CodeEntity>) -> Seq<CodeEntityView> {
    Seq::new(entities.len(), |i: int| entities[i]@)
}

/// Renders an expression as text.
pub fn expr_to_string(expr: &Expression) -> (rendered: String)
    ensures
        rendered@ == expr_text(*expr),
    decreases expr,
{
    match expr {
        Expression::Name { id } => id.clone(),
        Expression::Attribute { value, attr } => {
            let mut rendered = expr_to_string(value);
            rendered.append(".");
            rendered.append(attr.as_str());
            rendered
        },
        Expression::Call { func } => {
            let mut rendered = expr_to_string(func);
            rendered.append("(...)");
            rendered
        },
        _ => "...".to_owned(),
    }
}

/// Renders each expression of a list, in order.
pub fn exprs_to_strings(exprs: &Vec<Expression>) -> (rendered: Vec<String>)
    ensures
        texts(rendered@) == exprs_text(exprs@),
        rendered.len() == exprs.len(),
        forall|i: int| 0 <= i < rendered.len() ==> (#[trigger] rendered[i])@ == expr_text(exprs[i]),
{
    let mut rendered: Vec<String> = Vec::new();
    let mut i: usize = 0;
    while i < exprs.len()
        invariant
            i <= exprs.len(),
            rendered.len() == i,
            forall|j: int| 0 <= j < i ==> rendered@[j]@ == expr_text(exprs@[j]),
        decreases exprs.len() - i,
    {
        rendered.push(expr_to_string(&exprs[i]));
        i += 1;
    }
    assert(texts(rendered@) =~= exprs_text(exprs@));
    rendered
}

/// The docstring of a body, if its first statement is a bare string constant.
pub fn extract_docstring(body: &Vec<Statement>) -> (docstring: Option<String>)
    ensures
        opt_text(docstring) == docstring_of(body@),
{
    if body.len() > 0 {
        match &body[0] {
            Statement::Expr(Expression::Constant { literal: Literal::Str(s) }) => Some(s.clone()),
            _ => None,
        }
    } else {
        None
    }
}

/// The parameter names of a function, with `*` before the variadic parameter and
/// `**` before the keyword-variadic one.
pub fn extract_parameters(args: &Parameters) -> (names: Vec<String>)
    ensures
        texts(names@) == parameter_names(*args),
        names.len() == parameter_names(*args).len(),
        forall|i: int|
            0 <= i < names.len() ==> (#[trigger] names[i])@ == parameter_names(*args)[i],
{
    let mut names: Vec<String> = Vec::new();
    let mut i: usize = 0;
    while i < args.posonlyargs.len()
        invariant
            i <= args.posonlyargs.len(),
            names.len() == i,
            forall|j: int| 0 <= j < i ==> names@[j]@ == args.posonlyargs@[j]@,
        decreases args.posonlyargs.len() - i,
    {
        names.push(args.posonlyargs[i].clone());
        i += 1;
    }
    assert(texts(names@) =~= texts(args.posonlyargs@));
    let ghost positional_only = texts(args.posonlyargs@);
    let mut k: usize = 0;
    while k < args.args.len()
        invariant
            k <= args.args.len(),
            positional_only == texts(args.posonlyargs@),
            texts(names@) == positional_only + texts(args.args@.take(k as int)),
        decreases args.args.len() - k,
    {
        let ghost before = texts(names@);
        names.push(args.args[k].clone());
        assert(texts(names@) =~= before.push(args.args@[k as int]@));
        assert(texts(args.args@.take(k + 1)) =~= texts(args.args@.take(k as int)).push(
            args.args@[k as int]@,
        ));
        k += 1;
    }
    assert(args.args@.take(k as int) =~= args.args@);
    let ghost positional = texts(args.posonlyargs@) + texts(args.args@);
    assert(texts(names@) =~= positional);
    match &args.vararg {
        Some(name) => {
            let mut marked = "*".to_owned();
            marked.append(name.as_str());
            names.push(marked);
        },
        None => {},
    }
    assert(texts(names@) =~= positional + vararg_names(args.vararg));
    match &args.kwarg {
        Some(name) => {
            let mut marked = "**".to_owned();
            marked.append(name.as_str());
            names.push(marked);
        },
        None => {},
    }
    assert(texts(names@) =~= parameter_names(*args));
    assert forall|i: int| 0 <= i < names.len() implies (#[trigger] names[i])@ == parameter_names(
        *args,
    )[i] by {
        assert(texts(names@)[i] == names[i]@);
    }
    names
}

/// The walk over a syntax tree: the file that the entities come from, and the names of
/// the classes that enclose the statement being visited, innermost last.
pub struct EntityVisitor<'a> {
    file_path: &'a Path,
    class_context: Vec<String>,
}

impl<'a> EntityVisitor<'a> {
    /// The file that the entities are attributed to.
    pub closed spec fn file(&self) -> &'a Path {
        self.file_path
    }

    /// The names of the enclosing classes, outermost first.
    pub closed spec fn enclosing(&self) -> Seq<Seq<char>> {
        texts(self.class_context@)
    }

    /// Whether the statement being visited stands in a class.
    pub open spec fn in_class(&self) -> bool {
        self.enclosing().len() > 0
    }

    /// A visitor at the top level of a file.
    pub fn new(file_path: &'a Path) -> (visitor: Self)
        ensures
            visitor.file() == file_path,
            visitor.enclosing() == Seq::<Seq<char>>::empty(),
    {
        let visitor = EntityVisitor { file_path, class_context: Vec::new() };
        assert(visitor.enclosing() =~= Seq::<Seq<char>>::empty());
        visitor
    }

    /// Appends the entities of one statement, and leaves the visitor as it was.
    pub fn visit_stmt(&mut self, stmt: &Statement, entities: &mut Vec<CodeEntity>)
        ensures
            final(self).file() == old(self).file(),
            final(self).enclosing() == old(self).enclosing(),
            entity_views(final(entities)@) == entity_views(old(entities)@) + stmt_entities(
                *stmt,
                old(self).in_class(),
                owned_path(old(self).file()),
            ),
        decreases stmt,
    {
        match stmt {
            Statement::FunctionDef(func) => self.visit_function(func, entities),
            Statement::AsyncFunctionDef(func) => self.visit_async_function(func, entities),
            Statement::ClassDef(class) => self.visit_class(class, entities),
            _ => {
                assert(entity_views(entities@) =~= entity_views(old(entities)@)
                    + Seq::<CodeEntityView>::empty());
            },
        }
    }

    /// Appends the entity of a synchronous function definition.
    pub fn visit_function(&mut self, func: &FunctionDef, entities: &mut Vec<CodeEntity>)
        ensures
            final(self).file() == old(self).file(),
            final(self).enclosing() == old(self).enclosing(),
            entity_views(final(entities)@) == entity_views(old(entities)@).push(
                function_entity(*func, false, old(self).in_class(), owned_path(old(self).file())),
            ),
    {
        let entity = self.describe_function(func, false);
        entities.push(entity);
        assert(entity_views(entities@) =~= entity_views(old(entities)@).push(entity@));
    }

    /// Appends the entity of an asynchronous function definition.
    pub fn visit_async_function(&mut self, func: &FunctionDef, entities: &mut Vec<CodeEntity>)
        ensures
            final(self).file() == old(self).file(),
            final(self).enclosing() == old(self).enclosing(),
            entity_views(final(entities)@) == entity_views(old(entities)@).push(
                function_entity(*func, true, old(self).in_class(), owned_path(old(self).file())),
            ),
    {
        let entity = self.describe_function(func, true);
        entities.push(entity);
        assert(entity_views(entities@) =~= entity_views(old(entities)@).push(entity@));
    }

    /// Builds the entity of a function definition found at the visitor's place in the
    /// tree.
    fn describe_function(&self, func: &FunctionDef, is_async: bool) -> (entity: CodeEntity)
        ensures
            entity@ == function_entity(*func, is_async, self.in_class(), owned_path(self.file())),
    {
        let entity_type = if self.class_context.is_empty() {
            "function".to_owned()
        } else {
            "method".to_owned()
        };
        let mut entity = CodeEntity::new(
            entity_type,
            func.name.clone(),
            self.file_path.to_path_buf(),
            1,
        );
        entity.is_async = is_async;
        entity.docstring = extract_docstring(&func.body);
        entity.decorators = exprs_to_strings(&func.decorator_list);
        entity.parameters = extract_parameters(&func.args);
        entity.return_type = match &func.returns {
            Some(annotation) => Some(expr_to_string(annotation)),
            None => None,
        };
        let mut code = if is_async {
            "async def ".to_owned()
        } else {
            "def ".to_owned()
        };
        code.append(func.name.as_str());
        code.append("(...): ...");
        entity.code = code;
        entity.detect_api_endpoint();
        entity.calculate_complexity();
        entity
    }

    /// Appends the entity of a class definition and then, with the class as context,
    /// the entities of its body.
    pub fn visit_class(&mut self, class: &ClassDef, entities: &mut Vec<CodeEntity>)
        ensures
            final(self).file() == old(self).file(),
            final(self).enclosing() == old(self).enclosing(),
            entity_views(final(entities)@) == entity_views(old(entities)@).push(
                class_entity(*class, owned_path(old(self).file())),
            ) + suite_entities(class.body@, true, owned_path(old(self).file())),
        decreases class,
    {
        let mut entity = CodeEntity::new(
            "class".to_owned(),
            class.name.clone(),
            self.file_path.to_path_buf(),
            1,
        );
        entity.docstring = extract_docstring(&class.body);
        entity.decorators = exprs_to_strings(&class.decorator_list);
        assert(entity@ == class_entity(*class, owned_path(old(self).file())));
        entities.push(entity);
        let ghost before = entity_views(entities@);
        assert(before =~= entity_views(old(entities)@).push(entity@));

        self.class_context.push(class.name.clone());
        assert(self.enclosing() =~= old(self).enclosing().push(class.name@));
        let mut i: usize = 0;
        while i < class.body.len()
            invariant
                i <= class.body.len(),
                self.file() == old(self).file(),
                self.enclosing() == old(self).enclosing().push(class.name@),
                entity_views(entities@) == before + suite_entities(
                    class.body@.take(i as int),
                    true,
                    owned_path(old(self).file()),
                ),
            decreases class.body.len() - i,
        {
            self.visit_stmt(&class.body[i], entities);
            assert(class.body@.take(i + 1).drop_last() =~= class.body@.take(i as int));
            i += 1;
        }
        assert(class.body@.take(i as int) =~= class.body@);
        let ghost pushed = self.class_context@;
        self.class_context.pop();
        assert(self.enclosing() =~= old(self).enclosing()) by {
            assert(self.class_context@ =~= pushed.drop_last());
            assert(texts(pushed.drop_last()) =~= texts(pushed).drop_last());
            assert(old(self).enclosing().push(class.name@).drop_last() =~= old(self).enclosing());
        }
    }
}

/// The source text does not conform to the grammar. The message holds the parser's
/// diagnostic.
#[derive(Debug)]
pub struct ParseError {
    pub message: String,
}

/// The name under which source text is handed to the parser.
pub const SOURCE_NAME: &'static str = "<embedded>";

/// The message for a source that is too long for the parser, which keeps text offsets
/// in 32 bits.
pub const TOO_LONG: &'static str = "Parse error: the source is longer than 32-bit offsets reach";

/// The message of a parse error with the given diagnostic.
pub open spec fn parse_error_text(diagnostic: Seq<char>) -> Seq<char> {
    "Parse error: "@ + diagnostic
}

/// What parsing a source text and walking its tree gives: the entities of the module in
/// source order, or the message of the parse error. A source of more bytes than 32-bit
/// offsets reach is not handed to the parser.
pub open spec fn source_entities(source: &str, path: PathBuf) -> Result<
    Seq<CodeEntityView>,
    Seq<char>,
> {
    if source.len() > u32::MAX {
        Err(TOO_LONG@)
    } else {
        match parsed_module(source@, SOURCE_NAME@) {
            Ok(suite) => Ok(suite_entities(suite, false, path)),
            Err(diagnostic) => Err(parse_error_text(diagnostic)),
        }
    }
}

/// Extracts code entities from Python source.
pub struct PythonParser;

impl PythonParser {
    /// A parser. It holds no state.
    pub fn new() -> (parser: Self) {
        PythonParser
    }

    /// Parses Python source and extracts its entities, attributed to `file_path`. Source
    /// that does not parse gives the parse error and no entity, and so does a source
    /// that is too long for the parser.
    pub fn parse_source(&self, source: &str, file_path: &Path) -> (result: Result<
        Vec<CodeEntity>,
        ParseError,
    >)
        ensures
            match result {
                Ok(entities) => source_entities(source, owned_path(file_path)) == Ok::<
                    Seq<CodeEntityView>,
                    Seq<char>,
                >(entity_views(entities@)),
                Err(error) => source_entities(source, owned_path(file_path)) == Err::<
                    Seq<CodeEntityView>,
                    Seq<char>,
                >(error.message@),
            },
            result matches Ok(entities) ==> forall|i: int|
                0 <= i < entities.len() ==> (#[trigger] entities[i])@.well_formed(),
    {
        if source.len() > u32::MAX as usize {
            return Err(ParseError { message: TOO_LONG.to_owned() });
        }
        match parse_module(source, SOURCE_NAME) {
            Ok(suite) => Ok(self.extract_entities(&suite, file_path)),
            Err(diagnostic) => {
                let mut message = "Parse error: ".to_owned();
                message.append(diagnostic.as_str());
                Err(ParseError { message })
            },
        }
    }

    /// Walks the statements of a module and collects their entities in source order.
    pub fn extract_entities(&self, suite: &Vec<Statement>, file_path: &Path) -> (entities: Vec<
        CodeEntity,
    >)
        ensures
            entity_views(entities@) == suite_entities(suite@, false, owned_path(file_path)),
            entities.len() == suite_entities(suite@, false, owned_path(file_path)).len(),
            forall|i: int|
                0 <= i < entities.len() ==> (#[trigger] entities[i])@ == suite_entities(
                    suite@,
                    false,
                    owned_path(file_path),
                )[i],
            forall|i: int| 0 <= i < entities.len() ==> (#[trigger] entities[i])@.well_formed(),
    {
        let mut entities: Vec<CodeEntity> = Vec::new();
        let mut visitor = EntityVisitor::new(file_path);
        let mut i: usize = 0;
        assert(entity_views(entities@) =~= suite_entities(
            suite@.take(0),
            false,
            owned_path(file_path),
        ));
        while i < suite.len()
            invariant
                i <= suite.len(),
                visitor.file() == file_path,
                visitor.enclosing() == Seq::<Seq<char>>::empty(),
                entity_views(entities@) == suite_entities(
                    suite@.take(i as int),
                    false,
                    owned_path(file_path),
                ),
            decreases suite.len() - i,
        {
            visitor.visit_stmt(&suite[i], &mut entities);
            assert(suite@.take(i + 1).drop_last() =~= suite@.take(i as int));
            i += 1;
        }
        assert(suite@.take(i as int) =~= suite@);
        proof {
            lemma_suite_entities_well_formed(suite@, false, owned_path(file_path));
            assert forall|i: int| 0 <= i < entities.len() implies (#[trigger] entities[i])@
                == suite_entities(suite@, false, owned_path(file_path))[i] by {
                assert(entity_views(entities@)[i] == entities[i]@);
            }
        }
        entities
    }
}

/// Every entity of the sequence has a score of at least 1, and has an endpoint path
/// only where it is an API endpoint.
pub open spec fn all_well_formed(entities: Seq<CodeEntityView>) -> bool {
    forall|i: int| 0 <= i < entities.len() ==> (#[trigger] entities[i]).well_formed()
}

/// Every entity that the walk over a sequence of statements produces is well formed.
pub proof fn lemma_suite_entities_well_formed(suite: Seq<Statement>, in_class: bool, path: PathBuf)
    ensures
        all_well_formed(suite_entities(suite, in_class, path)),
    decreases suite,
{
    if suite.len() > 0 {
        lemma_suite_entities_well_formed(suite.drop_last(), in_class, path);
        lemma_stmt_entities_well_formed(suite.last(), in_class, path);
    }
}

/// Every entity that the walk over one statement produces is well formed.
pub proof fn lemma_stmt_entities_well_formed(stmt: Statement, in_class: bool, path: PathBuf)
    ensures
        all_well_formed(stmt_entities(stmt, in_class, path)),
    decreases stmt,
{
    match stmt {
        Statement::FunctionDef(def) => {
            assert(function_entity(def, false, in_class, path).well_formed());
        },
        Statement::AsyncFunctionDef(def) => {
            assert(function_entity(def, true, in_class, path).well_formed());
        },
        Statement::ClassDef(def) => {
            lemma_suite_entities_well_formed(def.body@, true, path);
            assert(class_entity(def, path).well_formed());
        },
        _ => {},
    }
}

/// The statement defines a function, synchronous or asynchronous.
pub open spec fn defines_function(stmt: Statement) -> bool {
    stmt is FunctionDef || stmt is AsyncFunctionDef
}

/// The entity of a function definition that stands in a class body.
pub open spec fn method_entity(stmt: Statement, path: PathBuf) -> CodeEntityView
    recommends
        defines_function(stmt),
{
    match stmt {
        Statement::AsyncFunctionDef(def) => function_entity(def, true, true, path),
        Statement::FunctionDef(def) => function_entity(def, false, true, path),
        _ => arbitrary(),
    }
}

/// The entities of a sequence of statements are those of any leading part followed by
/// those of the rest: the walk keeps the source order.
pub proof fn lemma_suite_entities_split(
    first: Seq<Statement>,
    rest: Seq<Statement>,
    in_class: bool,
    path: PathBuf,
)
    ensures
        suite_entities(first + rest, in_class, path) == suite_entities(first, in_class, path)
            + suite_entities(rest, in_class, path),
    decreases rest.len(),
{
    if rest.len() == 0 {
        assert(first + rest =~= first);
        assert(suite_entities(first, in_class, path) + Seq::<CodeEntityView>::empty()
            =~= suite_entities(first, in_class, path));
    } else {
        assert((first + rest).drop_last() =~= first + rest.drop_last());
        assert((first + rest).last() == rest.last());
        lemma_suite_entities_split(first, rest.drop_last(), in_class, path);
        assert(suite_entities(first + rest, in_class, path) =~= suite_entities(
            first,
            in_class,
            path,
        ) + suite_entities(rest, in_class, path));
    }
}

/// A class entity comes first among the entities of its definition, directly followed
/// by the entities of the class body, which are visited as members of a class.
pub proof fn lemma_class_precedes_members(def: ClassDef, in_class: bool, path: PathBuf)
    ensures
        stmt_entities(Statement::ClassDef(def), in_class, path)[0] == class_entity(def, path),
        stmt_entities(Statement::ClassDef(def), in_class, path).skip(1) == suite_entities(
            def.body@,
            true,
            path,
        ),
{
    assert(stmt_entities(Statement::ClassDef(def), in_class, path).skip(1) =~= suite_entities(
        def.body@,
        true,
        path,
    ));
}

/// A function definition gives a method where it is visited inside a class, and a
/// function where it is not.
pub proof fn lemma_method_iff_in_class(
    def: FunctionDef,
    is_async: bool,
    in_class: bool,
    path: PathBuf,
)
    ensures
        function_entity(def, is_async, in_class, path).entity_type == "method"@ <==> in_class,
        function_entity(def, is_async, in_class, path).entity_type == "function"@ <==> !in_class,
{
    reveal_strlit("method");
    reveal_strlit("function");
    assert("method"@.len() != "function"@.len());
}

/// The members of a class body without nested classes: one method entity for each of
/// its function definitions, in the order of declaration.
pub proof fn lemma_members_are_methods(body: Seq<Statement>, path: PathBuf)
    requires
        forall|i: int| 0 <= i < body.len() ==> !(#[trigger] body[i] is ClassDef),
    ensures
        suite_entities(body, true, path) == body.filter(
            |s: Statement| defines_function(s),
        ).map_values(|s: Statement| method_entity(s, path)),
    decreases body.len(),
{
    reveal(Seq::filter);
    let keep = |s: Statement| defines_function(s);
    let render = |s: Statement| method_entity(s, path);
    if body.len() == 0 {
        assert(suite_entities(body, true, path) =~= body.filter(keep).map_values(render));
    } else {
        lemma_members_are_methods(body.drop_last(), path);
        let front = body.drop_last().filter(keep);
        assert(!(body.last() is ClassDef));
        if defines_function(body.last()) {
            assert(stmt_entities(body.last(), true, path) =~= seq![render(body.last())]);
            assert(front.push(body.last()).map_values(render) =~= front.map_values(render).push(
                render(body.last()),
            ));
        } else {
            assert(stmt_entities(body.last(), true, path) =~= Seq::<CodeEntityView>::empty());
        }
        assert(suite_entities(body, true, path) =~= body.filter(keep).map_values(render));
    }
}

/// The name that a function definition declares.
pub open spec fn function_name(stmt: Statement) -> Seq<char>
    recommends
        defines_function(stmt),
{
    match stmt {
        Statement::AsyncFunctionDef(def) => def.name@,
        Statement::FunctionDef(def) => def.name@,
        _ => arbitrary(),
    }
}

/// Entities that begin with the entity of the class `def` and go on with one method
/// entity for each function definition of its body, in the order of declaration, and
/// hold nothing else.
pub open spec fn class_then_methods(
    entities: Seq<CodeEntityView>,
    def: ClassDef,
    path: PathBuf,
) -> bool {
    let methods = def.body@.filter(|s: Statement| defines_function(s));
    &&& entities.len() == 1 + methods.len()
    &&& entities[0] == class_entity(def, path)
    &&& entities[0].entity_type == "class"@
    &&& entities[0].name == def.name@
    &&& forall|k: int|
        0 <= k < methods.len() ==> {
            &&& entities[1 + k] == method_entity(#[trigger] methods[k], path)
            &&& entities[1 + k].entity_type == "method"@
            &&& entities[1 + k].name == function_name(methods[k])
        }
}

/// A class whose body holds no class definition gives exactly one entity for the class
/// and, after it, one method entity for each function definition of the body, in the
/// order of declaration.
pub proof fn lemma_class_then_methods(def: ClassDef, in_class: bool, path: PathBuf)
    requires
        forall|i: int| 0 <= i < def.body@.len() ==> !(#[trigger] def.body@[i] is ClassDef),
    ensures
        class_then_methods(stmt_entities(Statement::ClassDef(def), in_class, path), def, path),
{
    lemma_members_are_methods(def.body@, path);
    let keep = |s: Statement| defines_function(s);
    let methods = def.body@.filter(keep);
    let entities = stmt_entities(Statement::ClassDef(def), in_class, path);
    assert forall|k: int| 0 <= k < methods.len() implies {
        &&& entities[1 + k] == method_entity(#[trigger] methods[k], path)
        &&& entities[1 + k].entity_type == "method"@
        &&& entities[1 + k].name == function_name(methods[k])
    } by {
        def.body@.lemma_filter_pred(keep, k);
        assert(defines_function(methods[k]));
    }
}

/// The statement defines neither a function nor a class.
pub open spec fn defines_nothing(stmt: Statement) -> bool {
    !defines_function(stmt) && !(stmt is ClassDef)
}

/// Statements that define nothing give no entity.
pub proof fn lemma_no_definition_no_entity(suite: Seq<Statement>, in_class: bool, path: PathBuf)
    requires
        forall|i: int| 0 <= i < suite.len() ==> defines_nothing(#[trigger] suite[i]),
    ensures
        suite_entities(suite, in_class, path) == Seq::<CodeEntityView>::empty(),
    decreases suite.len(),
{
    if suite.len() > 0 {
        lemma_no_definition_no_entity(suite.drop_last(), in_class, path);
        assert(defines_nothing(suite.last()));
        assert(stmt_entities(suite.last(), in_class, path) =~= Seq::<CodeEntityView>::empty());
        assert(suite_entities(suite, in_class, path) =~= Seq::<CodeEntityView>::empty());
    }
}

/// A sequence of statements whose only definition is the statement at index `at` gives
/// the entities of that statement.
pub proof fn lemma_only_definition(suite: Seq<Statement>, at: int, in_class: bool, path: PathBuf)
    requires
        0 <= at < suite.len(),
        forall|i: int| 0 <= i < suite.len() && i != at ==> defines_nothing(#[trigger] suite[i]),
    ensures
        suite_entities(suite, in_class, path) == stmt_entities(suite[at], in_class, path),
{
    let before = suite.take(at);
    let one = seq![suite[at]];
    let after = suite.skip(at + 1);
    assert(suite =~= (before + one) + after);
    lemma_suite_entities_split(before + one, after, in_class, path);
    lemma_suite_entities_split(before, one, in_class, path);
    lemma_no_definition_no_entity(before, in_class, path);
    lemma_no_definition_no_entity(after, in_class, path);
    assert(one.drop_last() =~= Seq::<Statement>::empty());
    assert(suite_entities(one, in_class, path) =~= stmt_entities(suite[at], in_class, path)) by {
        reveal_with_fuel(suite_entities, 2);
    }
    assert(suite_entities(suite, in_class, path) =~= stmt_entities(suite[at], in_class, path));
}

/// Parsing a source that the parser can address fails exactly where the parser rejects
/// the source, and gives no entity then; where the parser accepts it, the walk over its
/// statements gives the entities and cannot fail.
pub proof fn lemma_parse_fails_only_with_parser(source: &str, path: PathBuf)
    requires
        source.len() <= u32::MAX,
    ensures
        source_entities(source, path) is Err <==> parsed_module(source@, SOURCE_NAME@) is Err,
        parsed_module(source@, SOURCE_NAME@) matches Ok(suite) ==> source_entities(source, path)
            == Ok::<Seq<CodeEntityView>, Seq<char>>(suite_entities(suite, false, path)),
        parsed_module(source@, SOURCE_NAME@) matches Err(diagnostic) ==> source_entities(
            source,
            path,
        ) == Err::<Seq<CodeEntityView>, Seq<char>>(parse_error_text(diagnostic)),
{
}

/// A source that the parser can address and whose only definition is one class, at the
/// top level and without a class in its body, gives exactly the entity of that class
/// followed by one method entity for each function definition of its body, in the
/// order of declaration.
pub proof fn lemma_module_of_one_class(
    source: &str,
    suite: Seq<Statement>,
    at: int,
    def: ClassDef,
    path: PathBuf,
)
    requires
        source.len() <= u32::MAX,
        parsed_module(source@, SOURCE_NAME@) == Ok::<Seq<Statement>, Seq<char>>(suite),
        0 <= at < suite.len(),
        suite[at] == Statement::ClassDef(def),
        forall|i: int| 0 <= i < suite.len() && i != at ==> defines_nothing(#[trigger] suite[i]),
        forall|i: int| 0 <= i < def.body@.len() ==> !(#[trigger] def.body@[i] is ClassDef),
    ensures
        source_entities(source, path) is Ok,
        class_then_methods(source_entities(source, path)->Ok_0, def, path),
{
    lemma_only_definition(suite, at, false, path);
    lemma_class_then_methods(def, false, path);
}

} // verus!
