//! From the text of a header to the declarations in it: the methods, the
//! structs and the events that bindings are generated from.
//!
//! The queries of [`crate::codegen::query`] find the declarations. Every
//! match of a query holds captures, named pieces of the header, and the
//! functions here read a declaration off the captures of its match.

use vstd::prelude::*;
use crate::codegen::comment::{comment_text, extract_comment_text};
use crate::codegen::pattern::{capture, is_match, regex_capture, regex_match};
use crate::codegen::query::{
    captures_of, matches_of, node_matches, query_node, query_tree, tree_matches, Capture,
    CaptureSpec, EVENTS_QUERY, METHOD_QUERY, PARAM_QUERY, STRUCT_QUERY,
};
use crate::codegen::types::{parse_type, type_of, CType, CTypeView};

verus! {

/// A comment that gives the type of an event's payload: two slashes, a
/// blank, `struct ` or nothing, the name of a type of the native library,
/// and a backslash and a star or nothing.
pub const EVENT_ANNOTATION: &'static str =
    "\\A\\/\\/ (struct )?(?P<type>wlr_[a-z_]+)(\\\\\\*)?\\z";

/// A parameter of a method.
#[derive(Debug)]
pub struct CParam {
    pub name: String,
    pub ty: CType,
}

/// A method of the native library.
#[derive(Debug)]
pub struct WlrMethod {
    pub doc: Option<String>,
    pub name: String,
    pub params: Vec<CParam>,
    pub return_type: CType,
}

/// An event that a struct of the native library announces.
#[derive(Debug)]
pub struct WlrEvent {
    pub doc: Option<String>,
    pub name: String,
    pub event_type: Option<String>,
}

/// A struct of the native library.
#[derive(Debug)]
pub struct WlrStruct {
    pub doc: Option<String>,
    pub name: String,
    pub events: Vec<WlrEvent>,
}

/// Why a header could not be read.
#[derive(Debug)]
pub enum ScrapeError {
    /// A query could not be run on the header.
    QueryFailed,
    /// A match lacks the capture of the given name, without which it
    /// stands for no declaration.
    MissingCapture(String),
}

/// A [`ScrapeError`] as plain values.
pub enum ScrapeFailure {
    /// A query could not be run.
    QueryFailed,
    /// A match lacks the capture of the given name.
    MissingCapture(Seq<char>),
}

/// A [`CParam`] as plain values.
pub struct ParamView {
    pub name: Seq<char>,
    pub ty: CTypeView,
}

/// A [`WlrMethod`] as plain values.
pub struct MethodView {
    pub doc: Option<Seq<char>>,
    pub name: Seq<char>,
    pub params: Seq<ParamView>,
    pub return_type: CTypeView,
}

/// A [`WlrEvent`] as plain values.
pub struct EventView {
    pub doc: Option<Seq<char>>,
    pub name: Seq<char>,
    pub event_type: Option<Seq<char>>,
}

/// A [`WlrStruct`] as plain values.
pub struct StructView {
    pub doc: Option<Seq<char>>,
    pub name: Seq<char>,
    pub events: Seq<EventView>,
}

/// What an optional string holds.
pub open spec fn text_of(s: Option<String>) -> Option<Seq<char>> {
    match s {
        Some(s) => Some(s@),
        None => None,
    }
}

impl View for ScrapeError {
    type V = ScrapeFailure;

    open spec fn view(&self) -> ScrapeFailure {
        match self {
            ScrapeError::QueryFailed => ScrapeFailure::QueryFailed,
            ScrapeError::MissingCapture(name) => ScrapeFailure::MissingCapture(name@),
        }
    }
}

impl View for CParam {
    type V = ParamView;

    open spec fn view(&self) -> ParamView {
        ParamView { name: self.name@, ty: self.ty@ }
    }
}

/// The parameters of a list as plain values.
pub open spec fn params_view(params: Seq<CParam>) -> Seq<ParamView> {
    params.map_values(|p: CParam| p@)
}

/// The events of a list as plain values.
pub open spec fn events_view(events: Seq<WlrEvent>) -> Seq<EventView> {
    events.map_values(|e: WlrEvent| e@)
}

impl View for WlrMethod {
    type V = MethodView;

    open spec fn view(&self) -> MethodView {
        MethodView {
            doc: text_of(self.doc),
            name: self.name@,
            params: params_view(self.params@),
            return_type: self.return_type@,
        }
    }
}

impl View for WlrEvent {
    type V = EventView;

    open spec fn view(&self) -> EventView {
        EventView {
            doc: text_of(self.doc),
            name: self.name@,
            event_type: text_of(self.event_type),
        }
    }
}

impl View for WlrStruct {
    type V = StructView;

    open spec fn view(&self) -> StructView {
        StructView { doc: text_of(self.doc), name: self.name@, events: events_view(self.events@) }
    }
}

/// What a list of declarations or the failure to read it holds, as plain
/// values.
pub open spec fn read<T: View>(r: Result<Vec<T>, ScrapeError>) -> Result<Seq<T::V>, ScrapeFailure> {
    match r {
        Ok(found) => Ok(found@.map_values(|t: T| t@)),
        Err(e) => Err(e@),
    }
}

/// What one declaration or the failure to read it holds, as plain values.
pub open spec fn read_one<T: View>(r: Result<T, ScrapeError>) -> Result<T::V, ScrapeFailure> {
    match r {
        Ok(found) => Ok(found@),
        Err(e) => Err(e@),
    }
}

/// The capture named `name`. Where a match has several captures of one
/// name, the last one counts.
pub open spec fn named(captures: Seq<CaptureSpec>, name: Seq<char>) -> Option<CaptureSpec>
    decreases captures.len(),
{
    if captures.len() == 0 {
        None
    } else if captures.last().name == name {
        Some(captures.last())
    } else {
        named(captures.drop_last(), name)
    }
}

/// The text of the capture named `name`, if there is one.
pub open spec fn text_named(captures: Seq<CaptureSpec>, name: Seq<char>) -> Option<Seq<char>> {
    match named(captures, name) {
        Some(found) => Some(found.text),
        None => None,
    }
}

/// The capture named `name`, which a match must have.
pub open spec fn required(captures: Seq<CaptureSpec>, name: Seq<char>) -> Result<
    CaptureSpec,
    ScrapeFailure,
> {
    match named(captures, name) {
        Some(found) => Ok(found),
        None => Err(ScrapeFailure::MissingCapture(name)),
    }
}

/// The documentation that a comment gives, if there is a comment.
pub open spec fn doc_of(comment: Option<Seq<char>>) -> Option<Seq<char>> {
    match comment {
        Some(text) => Some(comment_text(text)),
        None => None,
    }
}

/// What reading every one of `items` with `one` gives: what they stand
/// for, in their order, or the failure of the first one that cannot be read.
pub open spec fn gathered<A, B>(
    items: Seq<A>,
    one: spec_fn(A) -> Result<B, ScrapeFailure>,
) -> Result<Seq<B>, ScrapeFailure>
    decreases items.len(),
{
    if items.len() == 0 {
        Ok(Seq::empty())
    } else {
        match (gathered(items.drop_last(), one), one(items.last())) {
            (Err(e), _) => Err(e),
            (Ok(_), Err(e)) => Err(e),
            (Ok(first), Ok(last)) => Ok(first.push(last)),
        }
    }
}

/// A failure among the first items is the failure of all of them.
pub proof fn lemma_gathered_stops<A, B>(
    items: Seq<A>,
    one: spec_fn(A) -> Result<B, ScrapeFailure>,
    n: int,
)
    requires
        0 <= n <= items.len(),
        gathered(items.take(n), one) is Err,
    ensures
        gathered(items, one) == gathered(items.take(n), one),
    decreases items.len(),
{
    if n < items.len() {
        assert(items.drop_last().take(n) == items.take(n));
        lemma_gathered_stops(items.drop_last(), one, n);
    } else {
        assert(items.take(n) == items);
    }
}

/// The parameter that a match of the query for parameters stands for.
pub open spec fn param_of(captures: Seq<CaptureSpec>) -> Result<ParamView, ScrapeFailure> {
    match (required(captures, "param_name"@), required(captures, "param_type"@)) {
        (Err(e), _) => Err(e),
        (Ok(_), Err(e)) => Err(e),
        (Ok(name), Ok(ty)) => Ok(
            ParamView {
                name: name.text,
                ty: type_of(ty.text, named(captures, "pointer_type"@) is Some),
            },
        ),
    }
}

/// The parameters that the matches of the query for parameters stand for,
/// or the failure of the first match that cannot be read.
pub open spec fn params_of(matches: Seq<Seq<CaptureSpec>>) -> Result<
    Seq<ParamView>,
    ScrapeFailure,
> {
    gathered(matches, |captures: Seq<CaptureSpec>| param_of(captures))
}

/// The parameters that stand in the span of the header `source`.
pub open spec fn params_in(source: Seq<char>, start: usize, end: usize) -> Result<
    Seq<ParamView>,
    ScrapeFailure,
> {
    match node_matches(source, PARAM_QUERY@, start, end) {
        Some(matches) => params_of(matches),
        None => Err(ScrapeFailure::QueryFailed),
    }
}

/// The method that a match of the query for methods stands for, with the
/// parameters `params`.
pub open spec fn method_of(captures: Seq<CaptureSpec>, params: Seq<ParamView>) -> Result<
    MethodView,
    ScrapeFailure,
> {
    match (required(captures, "name"@), required(captures, "return_type"@)) {
        (Err(e), _) => Err(e),
        (Ok(_), Err(e)) => Err(e),
        (Ok(name), Ok(return_type)) => Ok(
            MethodView {
                doc: doc_of(text_named(captures, "doc"@)),
                name: name.text,
                params,
                return_type: type_of(
                    return_type.text,
                    named(captures, "pointer_type"@) is Some,
                ),
            },
        ),
    }
}

/// The method that a match of the query for methods in the header `source`
/// stands for. Its parameters are read off the span of its capture
/// `params`.
pub open spec fn method_in(source: Seq<char>, captures: Seq<CaptureSpec>) -> Result<
    MethodView,
    ScrapeFailure,
> {
    match required(captures, "params"@) {
        Err(e) => Err(e),
        Ok(list) => match params_in(source, list.start, list.end) {
            Err(e) => Err(e),
            Ok(params) => method_of(captures, params),
        },
    }
}

/// The methods that `matches` of the query for methods in the header
/// `source` stand for, or the failure of the first match that cannot be
/// read.
pub open spec fn methods_among(source: Seq<char>, matches: Seq<Seq<CaptureSpec>>) -> Result<
    Seq<MethodView>,
    ScrapeFailure,
> {
    gathered(matches, |captures: Seq<CaptureSpec>| method_in(source, captures))
}

/// The methods of the header `source`.
pub open spec fn methods_in(source: Seq<char>) -> Result<Seq<MethodView>, ScrapeFailure> {
    match tree_matches(source, METHOD_QUERY@) {
        Some(matches) => methods_among(source, matches),
        None => Err(ScrapeFailure::QueryFailed),
    }
}

/// The documentation of an event. A comment that gives the type of a
/// payload belongs to the event before and documents nothing.
pub open spec fn event_doc_of(comment: Option<Seq<char>>) -> Option<Seq<char>> {
    match comment {
        Some(text) => if regex_match(EVENT_ANNOTATION@, text) == Some(true) {
            None
        } else {
            Some(comment_text(text))
        },
        None => None,
    }
}

/// The type of an event's payload, as the comment after the event gives
/// it.
pub open spec fn event_type_of(comment: Option<Seq<char>>) -> Option<Seq<char>> {
    match comment {
        Some(text) => match regex_capture(EVENT_ANNOTATION@, "type"@, text) {
            Some(Some(ty)) => Some(ty),
            _ => None,
        },
        None => None,
    }
}

/// The event that a match of the query for events stands for.
pub open spec fn event_of(captures: Seq<CaptureSpec>) -> Result<EventView, ScrapeFailure> {
    match required(captures, "event_name"@) {
        Err(e) => Err(e),
        Ok(name) => Ok(
            EventView {
                doc: event_doc_of(text_named(captures, "doc"@)),
                name: name.text,
                event_type: event_type_of(text_named(captures, "event_type"@)),
            },
        ),
    }
}

/// The events that the matches of the query for events stand for, or the
/// failure of the first match that cannot be read.
pub open spec fn events_of(matches: Seq<Seq<CaptureSpec>>) -> Result<
    Seq<EventView>,
    ScrapeFailure,
> {
    gathered(matches, |captures: Seq<CaptureSpec>| event_of(captures))
}

/// The events that stand in the span of the header `source`.
pub open spec fn events_in(source: Seq<char>, start: usize, end: usize) -> Result<
    Seq<EventView>,
    ScrapeFailure,
> {
    match node_matches(source, EVENTS_QUERY@, start, end) {
        Some(matches) => events_of(matches),
        None => Err(ScrapeFailure::QueryFailed),
    }
}

/// The struct that a match of the query for structs stands for, with the
/// events `events`.
pub open spec fn struct_of(captures: Seq<CaptureSpec>, events: Seq<EventView>) -> Result<
    StructView,
    ScrapeFailure,
> {
    match required(captures, "name"@) {
        Err(e) => Err(e),
        Ok(name) => Ok(
            StructView { doc: doc_of(text_named(captures, "doc"@)), name: name.text, events },
        ),
    }
}

/// The struct that a match of the query for structs in the header `source`
/// stands for. Its events are read off the span of its capture `events`; a
/// struct without that capture has no events.
pub open spec fn struct_in(source: Seq<char>, captures: Seq<CaptureSpec>) -> Result<
    StructView,
    ScrapeFailure,
> {
    match named(captures, "events"@) {
        None => struct_of(captures, Seq::empty()),
        Some(decl) => match events_in(source, decl.start, decl.end) {
            Err(e) => Err(e),
            Ok(events) => struct_of(captures, events),
        },
    }
}

/// The structs that `matches` of the query for structs in the header
/// `source` stand for, or the failure of the first match that cannot be
/// read.
pub open spec fn structs_among(source: Seq<char>, matches: Seq<Seq<CaptureSpec>>) -> Result<
    Seq<StructView>,
    ScrapeFailure,
> {
    gathered(matches, |captures: Seq<CaptureSpec>| struct_in(source, captures))
}

/// The structs of the header `source`.
pub open spec fn structs_in(source: Seq<char>) -> Result<Seq<StructView>, ScrapeFailure> {
    match tree_matches(source, STRUCT_QUERY@) {
        Some(matches) => structs_among(source, matches),
        None => Err(ScrapeFailure::QueryFailed),
    }
}

/// The capture named `name`, if the match has one. Where it has several,
/// the last one counts.
pub fn captures_by_name<'a>(captures: &'a Vec<Capture>, name: &str) -> (found: Option<&'a Capture>)
    ensures
        match found {
            Some(capture) => named(captures_of(captures@), name@) == Some(capture@),
            None => named(captures_of(captures@), name@) is None,
        },
{
    let mut found: Option<&'a Capture> = None;
    let mut i: usize = 0;
    while i < captures.len()
        invariant
            i <= captures.len(),
            match found {
                Some(capture) => named(captures_of(captures@).take(i as int), name@) == Some(
                    capture@,
                ),
                None => named(captures_of(captures@).take(i as int), name@) is None,
            },
        decreases captures.len() - i,
    {
        proof {
            let all = captures_of(captures@);
            assert(all.take(i + 1).drop_last() == all.take(i as int));
            assert(all.take(i + 1).last() == captures@[i as int]@);
        }
        if captures[i].name.as_str().to_owned() == name.to_owned() {
            found = Some(&captures[i]);
        }
        i += 1;
    }
    assert(captures_of(captures@).take(i as int) == captures_of(captures@));
    found
}

/// The capture named `name`, or the failure that names it.
fn required_capture<'a>(captures: &'a Vec<Capture>, name: &str) -> (r: Result<
    &'a Capture,
    ScrapeError,
>)
    ensures
        match r {
            Ok(capture) => required(captures_of(captures@), name@) == Ok::<
                CaptureSpec,
                ScrapeFailure,
            >(capture@),
            Err(e) => required(captures_of(captures@), name@) == Err::<CaptureSpec, ScrapeFailure>(
                e@,
            ),
        },
{
    match captures_by_name(captures, name) {
        Some(capture) => Ok(capture),
        None => Err(ScrapeError::MissingCapture(name.to_owned())),
    }
}

/// The documentation that the comment of a match gives.
fn read_doc(captures: &Vec<Capture>) -> (doc: Option<String>)
    ensures
        text_of(doc) == doc_of(text_named(captures_of(captures@), "doc"@)),
{
    match captures_by_name(captures, "doc") {
        Some(comment) => Some(extract_comment_text(comment.text.as_str())),
        None => None,
    }
}

/// Reads every one of `matches` with `reader`, in their order, and stops
/// at the first one that cannot be read.
fn gather<T: View, F: Fn(&Vec<Capture>) -> Result<T, ScrapeError>>(
    matches: &Vec<Vec<Capture>>,
    one: Ghost<spec_fn(Seq<CaptureSpec>) -> Result<T::V, ScrapeFailure>>,
    reader: F,
) -> (r: Result<Vec<T>, ScrapeError>)
    requires
        forall|captures: &Vec<Capture>| #[trigger] reader.requires((captures,)),
        forall|captures: &Vec<Capture>, found: Result<T, ScrapeError>| #[trigger]
            reader.ensures((captures,), found) ==> read_one(found) == one@(captures_of(captures@)),
    ensures
        read(r) == gathered(matches_of(matches@), one@),
{
    let mut all: Vec<T> = Vec::new();
    let mut i: usize = 0;
    assert(all@.map_values(|t: T| t@) == Seq::<T::V>::empty());
    while i < matches.len()
        invariant
            i <= matches.len(),
            forall|captures: &Vec<Capture>| #[trigger] reader.requires((captures,)),
            forall|captures: &Vec<Capture>, found: Result<T, ScrapeError>| #[trigger]
                reader.ensures((captures,), found) ==> read_one(found) == one@(
                    captures_of(captures@),
                ),
            gathered(matches_of(matches@).take(i as int), one@) == Ok::<Seq<T::V>, ScrapeFailure>(
                all@.map_values(|t: T| t@),
            ),
        decreases matches.len() - i,
    {
        proof {
            let views = matches_of(matches@);
            assert(views.take(i + 1).drop_last() == views.take(i as int));
            assert(views.take(i + 1).last() == captures_of(matches@[i as int]@));
        }
        match reader(&matches[i]) {
            Ok(found) => {
                assert(all@.push(found).map_values(|t: T| t@) == all@.map_values(|t: T| t@).push(
                    found@,
                ));
                all.push(found);
            },
            Err(e) => {
                proof {
                    lemma_gathered_stops(matches_of(matches@), one@, i + 1);
                }
                return Err(e);
            },
        }
        i += 1;
    }
    assert(matches_of(matches@).take(i as int) == matches_of(matches@));
    Ok(all)
}

/// Reads the parameter that a match of the query for parameters stands
/// for: its name and its type. Fails if the match has no `param_name` or
/// else no `param_type`.
pub fn read_param(captures: &Vec<Capture>) -> (r: Result<CParam, ScrapeError>)
    ensures
        read_one(r) == param_of(captures_of(captures@)),
{
    let name = match required_capture(captures, "param_name") {
        Ok(capture) => capture,
        Err(e) => { return Err(e); },
    };
    let ty = match required_capture(captures, "param_type") {
        Ok(capture) => capture,
        Err(e) => { return Err(e); },
    };
    let pointer = captures_by_name(captures, "pointer_type").is_some();
    Ok(CParam { name: name.text.clone(), ty: parse_type(ty.text.as_str(), pointer) })
}

/// Reads the parameters of a method off the matches of the query for
/// parameters, in their order. Fails with the failure of the first match
/// that cannot be read.
pub fn read_params(matches: &Vec<Vec<Capture>>) -> (r: Result<Vec<CParam>, ScrapeError>)
    ensures
        read(r) == params_of(matches_of(matches@)),
{
    gather(matches, Ghost(|captures: Seq<CaptureSpec>| param_of(captures)), read_param)
}

/// Reads the parameters that stand in the span from `start` to `end` of
/// the header `source`, which is the span of a list of parameters. Fails if
/// the query cannot be run there or a match cannot be read.
pub fn parse_method_params(source: &str, start: usize, end: usize) -> (r: Result<
    Vec<CParam>,
    ScrapeError,
>)
    ensures
        read(r) == params_in(source@, start, end),
{
    match query_node(source, PARAM_QUERY, start, end) {
        Some(matches) => read_params(&matches),
        None => Err(ScrapeError::QueryFailed),
    }
}

/// Reads the method that a match of the query for methods stands for, with
/// the parameters `params`: the documentation in the comment before it, its
/// name and the type of its result. Fails if the match has no `name` or
/// else no `return_type`.
pub fn read_method(captures: &Vec<Capture>, params: Vec<CParam>) -> (r: Result<
    WlrMethod,
    ScrapeError,
>)
    ensures
        read_one(r) == method_of(captures_of(captures@), params_view(params@)),
{
    let doc = read_doc(captures);
    let name = match required_capture(captures, "name") {
        Ok(capture) => capture,
        Err(e) => { return Err(e); },
    };
    let ret = match required_capture(captures, "return_type") {
        Ok(capture) => capture,
        Err(e) => { return Err(e); },
    };
    let pointer = captures_by_name(captures, "pointer_type").is_some();
    Ok(
        WlrMethod {
            doc,
            name: name.text.clone(),
            params,
            return_type: parse_type(ret.text.as_str(), pointer),
        },
    )
}

/// Reads the method that a match of the query for methods in the header
/// `source` stands for, parameters and all.
fn parse_method(source: &str, captures: &Vec<Capture>) -> (r: Result<WlrMethod, ScrapeError>)
    ensures
        read_one(r) == method_in(source@, captures_of(captures@)),
{
    let list = match required_capture(captures, "params") {
        Ok(capture) => capture,
        Err(e) => { return Err(e); },
    };
    match parse_method_params(source, list.start, list.end) {
        Ok(params) => read_method(captures, params),
        Err(e) => Err(e),
    }
}

/// Reads the methods of the header `source`, in the order in which they
/// are declared. Fails if a query cannot be run on the header, and with the
/// failure of the first match that cannot be read.
pub fn parse_methods(source: &str) -> (r: Result<Vec<WlrMethod>, ScrapeError>)
    ensures
        read(r) == methods_in(source@),
{
    let matches = match query_tree(source, METHOD_QUERY) {
        Some(matches) => matches,
        None => { return Err(ScrapeError::QueryFailed); },
    };
    let reader = |captures: &Vec<Capture>| -> (found: Result<WlrMethod, ScrapeError>)
        ensures
            read_one(found) == method_in(source@, captures_of(captures@)),
        { parse_method(source, captures) };
    gather(&matches, Ghost(|captures: Seq<CaptureSpec>| method_in(source@, captures)), reader)
}

/// Reads the event that a match of the query for events stands for. The
/// comment before the event documents it, unless that comment gives the
/// type of a payload; the comment after the event gives the type of its
/// payload. Fails if the match has no `event_name`.
pub fn read_event(captures: &Vec<Capture>) -> (r: Result<WlrEvent, ScrapeError>)
    ensures
        read_one(r) == event_of(captures_of(captures@)),
{
    let name = match required_capture(captures, "event_name") {
        Ok(capture) => capture,
        Err(e) => { return Err(e); },
    };
    let doc = match captures_by_name(captures, "doc") {
        Some(comment) => match is_match(EVENT_ANNOTATION, comment.text.as_str()) {
            Some(true) => None,
            _ => Some(extract_comment_text(comment.text.as_str())),
        },
        None => None,
    };
    let event_type = match captures_by_name(captures, "event_type") {
        Some(comment) => match capture(EVENT_ANNOTATION, "type", comment.text.as_str()) {
            Some(Some(ty)) => Some(ty),
            _ => None,
        },
        None => None,
    };
    Ok(WlrEvent { doc, name: name.text.clone(), event_type })
}

/// Reads the events of a struct off the matches of the query for events,
/// in their order. Fails with the failure of the first match that cannot be
/// read.
pub fn read_events(matches: &Vec<Vec<Capture>>) -> (r: Result<Vec<WlrEvent>, ScrapeError>)
    ensures
        read(r) == events_of(matches_of(matches@)),
{
    gather(matches, Ghost(|captures: Seq<CaptureSpec>| event_of(captures)), read_event)
}

/// Reads the events that stand in the span from `start` to `end` of the
/// header `source`, which is the span of the field `events` of a struct.
/// Fails if the query cannot be run there or a match cannot be read.
pub fn parse_events_decl(source: &str, start: usize, end: usize) -> (r: Result<
    Vec<WlrEvent>,
    ScrapeError,
>)
    ensures
        read(r) == events_in(source@, start, end),
{
    match query_node(source, EVENTS_QUERY, start, end) {
        Some(matches) => read_events(&matches),
        None => Err(ScrapeError::QueryFailed),
    }
}

/// Reads the struct that a match of the query for structs stands for, with
/// the events `events`: the documentation in the comment before it and its
/// name. Fails if the match has no `name`.
pub fn read_struct(captures: &Vec<Capture>, events: Vec<WlrEvent>) -> (r: Result<
    WlrStruct,
    ScrapeError,
>)
    ensures
        read_one(r) == struct_of(captures_of(captures@), events_view(events@)),
{
    let doc = read_doc(captures);
    let name = match required_capture(captures, "name") {
        Ok(capture) => capture,
        Err(e) => { return Err(e); },
    };
    Ok(WlrStruct { doc, name: name.text.clone(), events })
}

/// Reads the struct that a match of the query for structs in the header
/// `source` stands for, events and all.
fn parse_struct(source: &str, captures: &Vec<Capture>) -> (r: Result<WlrStruct, ScrapeError>)
    ensures
        read_one(r) == struct_in(source@, captures_of(captures@)),
{
    let events = match captures_by_name(captures, "events") {
        Some(decl) => match parse_events_decl(source, decl.start, decl.end) {
            Ok(events) => events,
            Err(e) => { return Err(e); },
        },
        None => Vec::new(),
    };
    assert(named(captures_of(captures@), "events"@) is None ==> events_view(events@) == Seq::<
        EventView,
    >::empty());
    read_struct(captures, events)
}

/// Reads the structs of the header `source`, in the order in which they
/// are declared. Fails if a query cannot be run on the header, and with the
/// failure of the first match that cannot be read.
pub fn parse_structs(source: &str) -> (r: Result<Vec<WlrStruct>, ScrapeError>)
    ensures
        read(r) == structs_in(source@),
{
    let matches = match query_tree(source, STRUCT_QUERY) {
        Some(matches) => matches,
        None => { return Err(ScrapeError::QueryFailed); },
    };
    let reader = |captures: &Vec<Capture>| -> (found: Result<WlrStruct, ScrapeError>)
        ensures
            read_one(found) == struct_in(source@, captures_of(captures@)),
        { parse_struct(source, captures) };
    gather(&matches, Ghost(|captures: Seq<CaptureSpec>| struct_in(source@, captures)), reader)
}

} // verus!
