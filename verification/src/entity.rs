//! The entity record and its two heuristics: the complexity score and the detection
//! of API endpoints.

use crate::text::chars_of;
use crate::text::contains;
use crate::text::count;
use crate::text::count_occurrences;
use crate::text::is_substring;
use crate::text::opt_text;
use crate::text::texts;
use std::path::PathBuf;
use vstd::prelude::*;

verus! {

/// `std::path::PathBuf`, carried through as it is given.
#[verifier::external_type_specification]
#[verifier::external_body]
pub struct ExPathBuf(std::path::PathBuf);

/// `PathBuf::clone` returns a path equal to the one it is given.
pub assume_specification[ <std::path::PathBuf as Clone>::clone ](path: &PathBuf) -> (copy: PathBuf)
    ensures
        copy == *path,
;

/// A function, method or class found in a source file.
#[derive(Debug, Clone)]
pub struct CodeEntity {
    pub entity_type: String,
    pub name: String,
    pub file_path: PathBuf,
    pub line_number: usize,
    pub docstring: Option<String>,
    pub code: String,
    pub is_async: bool,
    pub decorators: Vec<String>,
    pub parameters: Vec<String>,
    pub return_type: Option<String>,
    pub is_internal: bool,
    pub is_api_endpoint: bool,
    pub endpoint_path: Option<String>,
    pub http_methods: Vec<String>,
    pub complexity_score: u32,
}

/// What a `CodeEntity` holds, with every string as its text.
pub struct CodeEntityView {
    pub entity_type: Seq<char>,
    pub name: Seq<char>,
    pub file_path: PathBuf,
    pub line_number: usize,
    pub docstring: Option<Seq<char>>,
    pub code: Seq<char>,
    pub is_async: bool,
    pub decorators: Seq<Seq<char>>,
    pub parameters: Seq<Seq<char>>,
    pub return_type: Option<Seq<char>>,
    pub is_internal: bool,
    pub is_api_endpoint: bool,
    pub endpoint_path: Option<Seq<char>>,
    pub http_methods: Seq<Seq<char>>,
    pub complexity_score: u32,
}

impl View for CodeEntity {
    type V = CodeEntityView;

    open spec fn view(&self) -> CodeEntityView {
        CodeEntityView {
            entity_type: self.entity_type@,
            name: self.name@,
            file_path: self.file_path,
            line_number: self.line_number,
            docstring: opt_text(self.docstring),
            code: self.code@,
            is_async: self.is_async,
            decorators: texts(self.decorators@),
            parameters: texts(self.parameters@),
            return_type: opt_text(self.return_type),
            is_internal: self.is_internal,
            is_api_endpoint: self.is_api_endpoint,
            endpoint_path: opt_text(self.endpoint_path),
            http_methods: texts(self.http_methods@),
            complexity_score: self.complexity_score,
        }
    }
}

impl CodeEntityView {
    /// The entity as it is right after construction.
    pub open spec fn fresh(
        entity_type: Seq<char>,
        name: Seq<char>,
        file_path: PathBuf,
        line_number: usize,
    ) -> CodeEntityView {
        CodeEntityView {
            entity_type,
            name,
            file_path,
            line_number,
            docstring: None,
            code: Seq::empty(),
            is_async: false,
            decorators: Seq::empty(),
            parameters: Seq::empty(),
            return_type: None,
            is_internal: false,
            is_api_endpoint: false,
            endpoint_path: None,
            http_methods: Seq::empty(),
            complexity_score: 1,
        }
    }

    /// The score is at least 1, and only an API endpoint has an endpoint path.
    pub open spec fn well_formed(self) -> bool {
        &&& self.complexity_score >= 1
        &&& !self.is_api_endpoint ==> self.endpoint_path is None
    }
}

/// Occurrences in `code` of the control-flow keywords, each with its trailing space.
pub open spec fn control_flow_count(code: Seq<char>) -> nat {
    count_occurrences(code, "if "@) + count_occurrences(code, "for "@) + count_occurrences(
        code,
        "while "@,
    ) + count_occurrences(code, "match "@) + count_occurrences(code, "loop "@)
}

/// The complexity heuristic before it is fitted into the score's 32 bits: 1, plus one per
/// parameter, per opening brace and per control-flow keyword in the code, plus 2 for an
/// asynchronous entity.
pub open spec fn complexity_total(parameters: nat, code: Seq<char>, is_async: bool) -> nat {
    1 + parameters + count_occurrences(code, "{"@) + control_flow_count(code) + if is_async {
        2nat
    } else {
        0nat
    }
}

/// The complexity score: the total, or the largest score where the total exceeds it.
pub open spec fn complexity_score_of(parameters: nat, code: Seq<char>, is_async: bool) -> u32 {
    let total = complexity_total(parameters, code, is_async);
    if total <= u32::MAX {
        total as u32
    } else {
        u32::MAX
    }
}

/// An entity without parameters whose code holds no opening brace and no control-flow
/// keyword scores 1 where it is synchronous and 3 where it is asynchronous.
pub proof fn lemma_plain_entity_scores(code: Seq<char>)
    requires
        count_occurrences(code, "{"@) == 0,
        control_flow_count(code) == 0,
    ensures
        complexity_score_of(0, code, false) == 1,
        complexity_score_of(0, code, true) == 3,
{
}

/// The score is never below 1.
pub proof fn lemma_score_at_least_one(parameters: nat, code: Seq<char>, is_async: bool)
    ensures
        complexity_score_of(parameters, code, is_async) >= 1,
{
}

/// The lowercase form that `str::to_lowercase` gives a text.
pub uninterp spec fn lowercase_of(text: Seq<char>) -> Seq<char>;

/// `str::to_lowercase` returns the lowercase equivalent of a string slice as a new
/// `String`, by Unicode's rules: a function of the text alone.
pub assume_specification[ str::to_lowercase ](s: &str) -> (lowered: String)
    ensures
        lowered@ == lowercase_of(s@),
;

/// What a regular expression captures in a text: the text of capture group `group` in
/// the first match of `pattern`, or `None` where the pattern does not compile, nothing
/// matches, or the group has no part in the match.
pub uninterp spec fn regex_capture(pattern: Seq<char>, group: nat, text: Seq<char>) -> Option<
    Seq<char>,
>;

/// Compiles `pattern` with `regex::Regex::new`, searches `text` with `Regex::captures`
/// and copies out the group with `Captures::get` and `Match::as_str`. The outcome is a
/// function of the three arguments, and what `Match::as_str` hands out is a slice of the
/// searched text.
#[verifier::external_body]
fn capture(pattern: &str, group: usize, text: &str) -> (captured: Option<String>)
    ensures
        opt_text(captured) == regex_capture(pattern@, group as nat, text@),
        captured matches Some(part) ==> is_substring(text@, part@),
{
    let re = regex::Regex::new(pattern).ok()?;
    re.captures(text).and_then(|found| found.get(group)).map(|m| m.as_str().to_string())
}

/// A lowercased decorator names one of the API markers somewhere in its text.
pub open spec fn api_marked(lowered: Seq<char>) -> bool {
    ||| is_substring(lowered, "route"@)
    ||| is_substring(lowered, "get"@)
    ||| is_substring(lowered, "post"@)
    ||| is_substring(lowered, "put"@)
    ||| is_substring(lowered, "delete"@)
    ||| is_substring(lowered, "patch"@)
    ||| is_substring(lowered, "api"@)
}

/// At least one decorator, lowercased, names an API marker.
pub open spec fn any_api_decorator(decorators: Seq<Seq<char>>) -> bool {
    exists|i: int| 0 <= i < decorators.len() && api_marked(lowercase_of(#[trigger] decorators[i]))
}

/// The pattern of a quoted literal: a quote character, single or double, then one or
/// more characters that are no quote, captured as group 1, then a quote character.
pub const QUOTED_LITERAL: &'static str = "[\"']([^\"']+)[\"']";

/// The first quoted literal in a decorator's text: what group 1 of `QUOTED_LITERAL`
/// captures in it.
pub open spec fn quoted_literal(decorator: Seq<char>) -> Option<Seq<char>> {
    regex_capture(QUOTED_LITERAL@, 1, decorator)
}

/// The quoted literal of the first decorator that has one.
pub open spec fn first_quoted_literal(decorators: Seq<Seq<char>>) -> Option<Seq<char>>
    decreases decorators.len(),
{
    if decorators.len() == 0 {
        None
    } else {
        match quoted_literal(decorators[0]) {
            Some(literal) => Some(literal),
            None => first_quoted_literal(decorators.skip(1)),
        }
    }
}

/// The endpoint path that goes with the endpoint flag: the literal that was found, if
/// any, where the entity is an endpoint, and none where it is not.
pub open spec fn detected_path(is_endpoint: bool, literal: Option<Seq<char>>) -> Option<
    Seq<char>,
> {
    if is_endpoint {
        literal
    } else {
        None
    }
}

/// The text is part of at least one of the decorators.
pub open spec fn part_of_a_decorator(decorators: Seq<Seq<char>>, text: Seq<char>) -> bool {
    exists|i: int| 0 <= i < decorators.len() && is_substring(#[trigger] decorators[i], text)
}

/// Whether a lowercased decorator names one of the API markers.
pub fn has_api_marker(lowered: &str) -> (found: bool)
    ensures
        found == api_marked(lowered@),
{
    let text = chars_of(lowered);
    contains(text.as_slice(), chars_of("route").as_slice()) || contains(
        text.as_slice(),
        chars_of("get").as_slice(),
    ) || contains(text.as_slice(), chars_of("post").as_slice()) || contains(
        text.as_slice(),
        chars_of("put").as_slice(),
    ) || contains(text.as_slice(), chars_of("delete").as_slice()) || contains(
        text.as_slice(),
        chars_of("patch").as_slice(),
    ) || contains(text.as_slice(), chars_of("api").as_slice())
}

/// The first quoted string literal in a decorator's text, if it has one. It is a part
/// of that text.
pub fn extract_path_from_decorator(decorator: &str) -> (path: Option<String>)
    ensures
        opt_text(path) == quoted_literal(decorator@),
        path matches Some(literal) ==> is_substring(decorator@, literal@),
{
    capture(QUOTED_LITERAL, 1, decorator)
}

/// Whether any of the decorators, lowercased, names an API marker.
fn any_marked(decorators: &Vec<String>) -> (found: bool)
    ensures
        found == any_api_decorator(texts(decorators@)),
{
    let mut i: usize = 0;
    while i < decorators.len()
        invariant
            i <= decorators.len(),
            forall|j: int|
                0 <= j < i ==> !api_marked(lowercase_of(#[trigger] texts(decorators@)[j])),
        decreases decorators.len() - i,
    {
        let lowered = decorators[i].as_str().to_lowercase();
        if has_api_marker(lowered.as_str()) {
            assert(api_marked(lowercase_of(texts(decorators@)[i as int])));
            return true;
        }
        i += 1;
    }
    false
}

/// The quoted literal of the first decorator that has one.
fn first_literal(decorators: &Vec<String>) -> (path: Option<String>)
    ensures
        opt_text(path) == first_quoted_literal(texts(decorators@)),
        path matches Some(literal) ==> part_of_a_decorator(texts(decorators@), literal@),
{
    let ghost all = texts(decorators@);
    let mut i: usize = 0;
    assert(all.skip(0) =~= all);
    while i < decorators.len()
        invariant
            i <= decorators.len(),
            all == texts(decorators@),
            first_quoted_literal(all.skip(i as int)) == first_quoted_literal(all),
        decreases decorators.len() - i,
    {
        let found = extract_path_from_decorator(decorators[i].as_str());
        assert(all.skip(i as int)[0] == decorators@[i as int]@);
        assert(all.skip(i as int).skip(1) =~= all.skip(i + 1));
        if found.is_some() {
            assert(is_substring(all[i as int], found->Some_0@));
            return found;
        }
        i += 1;
    }
    None
}

impl CodeEntity {
    /// A new entity with the given identity and every other field at its default.
    pub fn new(
        entity_type: String,
        name: String,
        file_path: PathBuf,
        line_number: usize,
    ) -> (e: Self)
        ensures
            e@ == CodeEntityView::fresh(entity_type@, name@, file_path, line_number),
            e@.well_formed(),
    {
        let e = CodeEntity {
            entity_type,
            name,
            file_path,
            line_number,
            docstring: None,
            code: String::new(),
            is_async: false,
            decorators: Vec::new(),
            parameters: Vec::new(),
            return_type: None,
            is_internal: false,
            is_api_endpoint: false,
            endpoint_path: None,
            http_methods: Vec::new(),
            complexity_score: 1,
        };
        assert(e@.decorators =~= Seq::empty());
        assert(e@.parameters =~= Seq::empty());
        assert(e@.http_methods =~= Seq::empty());
        e
    }

    /// Recomputes the complexity score from the parameters, the code text and the
    /// asynchronous flag. Nothing else changes.
    pub fn calculate_complexity(&mut self)
        ensures
            final(self)@ == (CodeEntityView {
                complexity_score: complexity_score_of(
                    old(self)@.parameters.len(),
                    old(self)@.code,
                    old(self)@.is_async,
                ),
                ..old(self)@
            }),
            final(self)@.complexity_score >= 1,
    {
        let code = chars_of(self.code.as_str());
        let braces = count(code.as_slice(), chars_of("{").as_slice());
        let ifs = count(code.as_slice(), chars_of("if ").as_slice());
        let fors = count(code.as_slice(), chars_of("for ").as_slice());
        let whiles = count(code.as_slice(), chars_of("while ").as_slice());
        let matches = count(code.as_slice(), chars_of("match ").as_slice());
        let loops = count(code.as_slice(), chars_of("loop ").as_slice());
        let bonus: u128 = if self.is_async { 2 } else { 0 };
        let total: u128 = 1 + self.parameters.len() as u128 + braces as u128 + ifs as u128
            + fors as u128 + whiles as u128 + matches as u128 + loops as u128 + bonus;
        assert(total == complexity_total(
            self@.parameters.len(),
            self@.code,
            self@.is_async,
        ));
        let score: u32 = if total <= u32::MAX as u128 { total as u32 } else { u32::MAX };
        self.complexity_score = score;
    }

    /// Classifies the entity as an API endpoint where a decorator, lowercased, names an
    /// API marker. The endpoint path of an endpoint is the first quoted literal among
    /// the decorators, if any; an entity that is no endpoint has no endpoint path. Both
    /// fields follow from the decorators alone, whatever they held before.
    pub fn detect_api_endpoint(&mut self)
        ensures
            final(self)@ == (CodeEntityView {
                is_api_endpoint: any_api_decorator(old(self)@.decorators),
                endpoint_path: detected_path(
                    any_api_decorator(old(self)@.decorators),
                    first_quoted_literal(old(self)@.decorators),
                ),
                ..old(self)@
            }),
            !final(self)@.is_api_endpoint ==> final(self)@.endpoint_path is None,
            final(self)@.endpoint_path matches Some(path) ==> part_of_a_decorator(
                old(self)@.decorators,
                path,
            ),
    {
        let is_endpoint = any_marked(&self.decorators);
        let literal = if is_endpoint {
            first_literal(&self.decorators)
        } else {
            None
        };
        self.set_endpoint(is_endpoint, literal);
    }

    /// Records the outcome of endpoint detection: the flag as given, and as endpoint
    /// path the literal that was found where the entity is an endpoint, none where it
    /// is not.
    pub fn set_endpoint(&mut self, is_endpoint: bool, literal: Option<String>)
        ensures
            final(self)@ == (CodeEntityView {
                is_api_endpoint: is_endpoint,
                endpoint_path: detected_path(is_endpoint, opt_text(literal)),
                ..old(self)@
            }),
            !final(self)@.is_api_endpoint ==> final(self)@.endpoint_path is None,
    {
        self.is_api_endpoint = is_endpoint;
        if is_endpoint {
            self.endpoint_path = literal;
        } else {
            self.endpoint_path = None;
        }
    }
}

} // verus!
