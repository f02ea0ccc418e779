use std::rc::Rc;
use vstd::prelude::*;

use crate::error::Error;

verus! {

/// Where a value sits: the query path that reached it and its place in the source.
#[derive(Debug, Clone, PartialEq, Eq)]
pub struct Path {
    pub pointer: String,
    pub line: usize,
    pub col: usize,
}

/// Mathematical model of a [`Path`].
pub struct PathModel {
    pub pointer: Seq<char>,
    pub line: usize,
    pub col: usize,
}

impl View for Path {
    type V = PathModel;

    open spec fn view(&self) -> PathModel {
        PathModel { pointer: self.pointer@, line: self.line, col: self.col }
    }
}

/// The path that a function of the rule language gives the values it makes:
/// the function's name, with no place in the source.
pub open spec fn path_named(name: Seq<char>) -> PathModel {
    PathModel { pointer: name, line: 0, col: 0 }
}

impl Path {
    /// A path with the given pointer and source location.
    pub fn new(pointer: String, line: usize, col: usize) -> (res: Path)
        ensures
            res.pointer == pointer,
            res.line == line,
            res.col == col,
    {
        Path { pointer, line, col }
    }

    /// The path named by `s`, with no place in the source. Every string names a path.
    pub fn try_from(s: &str) -> (res: Result<Path, Error>)
        ensures
            res matches Ok(p) && p@ == path_named(s@),
    {
        Ok(Path { pointer: s.to_owned(), line: 0, col: 0 })
    }
}

/// A value of a document, together with the path that reached it.
#[derive(Debug, PartialEq, Eq)]
pub enum PathAwareValue {
    Null(Path),
    String((Path, String)),
    Regex((Path, String)),
    Bool((Path, bool)),
    Int((Path, i64)),
    Char((Path, char)),
}

/// Mathematical model of a [`PathAwareValue`].
pub enum ValueModel {
    Null(PathModel),
    String(PathModel, Seq<char>),
    Regex(PathModel, Seq<char>),
    Bool(PathModel, bool),
    Int(PathModel, i64),
    Char(PathModel, char),
}

impl View for PathAwareValue {
    type V = ValueModel;

    open spec fn view(&self) -> ValueModel {
        match self {
            PathAwareValue::Null(p) => ValueModel::Null(p@),
            PathAwareValue::String((p, s)) => ValueModel::String(p@, s@),
            PathAwareValue::Regex((p, s)) => ValueModel::Regex(p@, s@),
            PathAwareValue::Bool((p, b)) => ValueModel::Bool(p@, *b),
            PathAwareValue::Int((p, i)) => ValueModel::Int(p@, *i),
            PathAwareValue::Char((p, c)) => ValueModel::Char(p@, *c),
        }
    }
}

/// A query that stopped before it reached a value.
#[derive(Debug, Clone, PartialEq, Eq)]
pub struct UnResolved {
    pub traversed_to: Rc<PathAwareValue>,
    pub remaining_query: String,
    pub reason: Option<String>,
}

/// What a query over a document gives back: a literal of the rule, a value it
/// reached, or where it stopped.
#[derive(Debug, Clone, PartialEq, Eq)]
pub enum QueryResult {
    Literal(Rc<PathAwareValue>),
    Resolved(Rc<PathAwareValue>),
    UnResolved(UnResolved),
}

/// Model of an optional value, as the rule functions return them one per argument.
pub open spec fn option_model(o: Option<PathAwareValue>) -> Option<ValueModel> {
    match o {
        Some(v) => Some(v@),
        None => None,
    }
}

/// Model of the list of optional values that a rule function returns.
pub open spec fn values_model(s: Seq<Option<PathAwareValue>>) -> Seq<Option<ValueModel>> {
    s.map_values(|o: Option<PathAwareValue>| option_model(o))
}

/// The string value, and its path, that a query result carries, if it carries one.
pub open spec fn string_of(q: QueryResult) -> Option<(PathModel, Seq<char>)> {
    match q {
        QueryResult::Literal(v) => string_value(*v),
        QueryResult::Resolved(v) => string_value(*v),
        QueryResult::UnResolved(_) => None,
    }
}

/// The string, and its path, of a value that is a string.
pub open spec fn string_value(v: PathAwareValue) -> Option<(PathModel, Seq<char>)> {
    match v {
        PathAwareValue::String((p, s)) => Some((p@, s@)),
        _ => None,
    }
}

/// The string that a query result carries, if it carries one, read by the caller
/// in place of a match on the result and the value.
pub(crate) fn string_entry(q: &QueryResult) -> (res: Option<(&Path, &String)>)
    ensures
        match res {
            Some((p, s)) => string_of(*q) == Some((p@, s@)),
            None => string_of(*q) is None,
        },
{
    match q {
        QueryResult::Literal(v) | QueryResult::Resolved(v) => match &**v {
            PathAwareValue::String((p, s)) => Some((p, s)),
            _ => None,
        },
        QueryResult::UnResolved(_) => None,
    }
}

} // verus!
