//! Queries over the syntax tree of a header, as tree-sitter runs them.

use vstd::prelude::*;
use tree_sitter::{Parser, Query, QueryCursor};
use tree_sitter_c::language;

verus! {

/// The query for the methods of a header: a declaration of a function whose
/// name begins with `wlr_`, with the comments before it.
pub const METHOD_QUERY: &'static str =
    "
            (
                (comment)* @doc .
                (declaration
                    type: (_) @return_type
                    declarator: [
                        (function_declarator
                            declarator: (identifier) @name
                            parameters: (_) @params
                        )
                        (pointer_declarator
                            declarator: (function_declarator
                                declarator: (identifier) @name
                                parameters: (_) @params
                            )
                        ) @pointer_type
                    ]
                ) @wlr_method
                (#select-adjacent! @doc @wlr_method)
                (#match? @name \"^wlr_[a-z_]+\")
            )
            ";

/// The query for the parameters of a method.
pub const PARAM_QUERY: &'static str =
    "
            (parameter_declaration
                type: (_) @param_type
                declarator: [
                    (pointer_declarator
                        declarator: (identifier) @param_name
                    ) @pointer_type
                    (identifier) @param_name
                ]
            )
        ";

/// The query for the structs of a header: a struct whose name begins with
/// `wlr_`, with the comments before it and with its field `events`, if it
/// has one.
pub const STRUCT_QUERY: &'static str =
    "
            (
                (comment)* @doc .
                (struct_specifier
                    name: (type_identifier) @name
                        (#match? @name \"^wlr_[a-z_]+\")
                    body: (field_declaration_list
                        (field_declaration
                            type: (struct_specifier)
                            declarator: (field_identifier) @declarator
                                (#match? @declarator \"^events$\")
                        )? @events
                    )
                ) @wlr_struct
                (#select-adjacent! @doc @wlr_struct)
            )
            ";

/// The query for the events of a struct: a field of the type `wl_signal`,
/// with the comments before it and the comment after it.
pub const EVENTS_QUERY: &'static str =
    "
            (
                (comment)* @doc .
                (field_declaration
                    type: (struct_specifier
                        name: (type_identifier) @field_type)
                    declarator: (field_identifier) @event_name
                        (#match? @field_type \"^wl_signal$\")
                ) @decl
                .
                (comment)? @event_type
                (#select-adjacent! @doc @decl)
                (#select-adjacent! @event_type @decl)
            )
        ";

/// A piece of the header that a query has captured: the name that the query
/// gives it, its text, and the bytes of the header that it spans.
#[derive(Debug, PartialEq, Eq)]
pub struct Capture {
    pub name: String,
    pub text: String,
    pub start: usize,
    pub end: usize,
}

/// A [`Capture`] as plain values.
pub struct CaptureSpec {
    pub name: Seq<char>,
    pub text: Seq<char>,
    pub start: usize,
    pub end: usize,
}

impl View for Capture {
    type V = CaptureSpec;

    open spec fn view(&self) -> CaptureSpec {
        CaptureSpec { name: self.name@, text: self.text@, start: self.start, end: self.end }
    }
}

/// The captures of one match as plain values.
pub open spec fn captures_of(captures: Seq<Capture>) -> Seq<CaptureSpec> {
    captures.map_values(|c: Capture| c@)
}

/// The captures of a list of matches as plain values.
pub open spec fn matches_of(matches: Seq<Vec<Capture>>) -> Seq<Seq<CaptureSpec>> {
    matches.map_values(|m: Vec<Capture>| captures_of(m@))
}

/// What a query has found, as plain values.
pub open spec fn found_of(found: Option<Vec<Vec<Capture>>>) -> Option<Seq<Seq<CaptureSpec>>> {
    match found {
        Some(matches) => Some(matches_of(matches@)),
        None => None,
    }
}

/// Whether `pattern` is one of the four queries of the scraper.
pub open spec fn is_scraper_query(pattern: Seq<char>) -> bool {
    pattern == METHOD_QUERY@ || pattern == PARAM_QUERY@ || pattern == STRUCT_QUERY@ || pattern
        == EVENTS_QUERY@
}

/// The matches of the query `pattern` in the syntax tree of the C text
/// `source`, in the order in which tree-sitter finds them, each with its
/// captures in their order. `None` if tree-sitter gives no tree or no
/// query, or if the text of a capture is no UTF-8.
pub uninterp spec fn tree_matches(source: Seq<char>, pattern: Seq<char>) -> Option<
    Seq<Seq<CaptureSpec>>,
>;

/// The matches of the query `pattern` in the syntax tree of the C text
/// `source`, below the smallest node that spans the bytes from `start` to
/// `end`. `None` if tree-sitter gives no tree, no such node or no query, or
/// if the text of a capture is no UTF-8.
pub uninterp spec fn node_matches(
    source: Seq<char>,
    pattern: Seq<char>,
    start: usize,
    end: usize,
) -> Option<Seq<Seq<CaptureSpec>>>;

/// Parses `source` as C with `tree_sitter::Parser::parse` and runs the
/// query `pattern` on the root of the tree with `QueryCursor::matches`. Each
/// capture is given with its name in the query, its text and its span.
///
/// `Query::new` stops on some patterns that it does not accept, so the
/// pattern must be one of the four queries of the scraper, which it
/// accepts. The contract gives the outcome its name and claims nothing
/// else of it.
#[verifier::external_body]
pub(crate) fn query_tree(source: &str, pattern: &str) -> (found: Option<Vec<Vec<Capture>>>)
    requires
        is_scraper_query(pattern@),
    ensures
        found_of(found) == tree_matches(source@, pattern@),
{
    let mut parser = Parser::new();
    parser.set_language(language()).ok()?;
    let tree = parser.parse(source, None)?;
    let query = Query::new(language(), pattern).ok()?;
    let mut cursor = QueryCursor::new();
    let all = source.as_bytes();
    cursor.matches(&query, tree.root_node(), all).map(|m| m.captures.iter().map(|c| Some(Capture {
        name: query.capture_names()[c.index as usize].clone(),
        text: c.node.utf8_text(all).ok()?.to_string(),
        start: c.node.start_byte(),
        end: c.node.end_byte(),
    })).collect()).collect()
}

/// Parses `source` as C with `tree_sitter::Parser::parse`, finds the node
/// of the span with `Node::descendant_for_byte_range` and runs the query
/// `pattern` on that node with `QueryCursor::matches`.
///
/// `Query::new` stops on some patterns that it does not accept, so the
/// pattern must be one of the four queries of the scraper, which it
/// accepts. The contract gives the outcome its name and claims nothing
/// else of it.
#[verifier::external_body]
pub(crate) fn query_node(source: &str, pattern: &str, start: usize, end: usize) -> (found: Option<
    Vec<Vec<Capture>>,
>)
    requires
        is_scraper_query(pattern@),
    ensures
        found_of(found) == node_matches(source@, pattern@, start, end),
{
    let mut parser = Parser::new();
    parser.set_language(language()).ok()?;
    let tree = parser.parse(source, None)?;
    let node = tree.root_node().descendant_for_byte_range(start, end)?;
    let query = Query::new(language(), pattern).ok()?;
    let mut cursor = QueryCursor::new();
    let all = source.as_bytes();
    cursor.matches(&query, node, all).map(|m| m.captures.iter().map(|c| Some(Capture {
        name: query.capture_names()[c.index as usize].clone(),
        text: c.node.utf8_text(all).ok()?.to_string(),
        start: c.node.start_byte(),
        end: c.node.end_byte(),
    })).collect()).collect()
}

} // verus!
