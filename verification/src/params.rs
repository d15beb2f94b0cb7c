//! The arguments of a query and the request that they make.

use crate::text::{boolean_string, boolean_text, decimal, decimal_string};
use vstd::prelude::*;

verus! {

/// The address that every query is sent to, with `GET`.
pub const ENDPOINT: &'static str = "https://api.wolframalpha.com/v2/query";

/// The computation asked for beside the plain result, unless the caller
/// names another.
pub const DEFAULT_PODSTATE: &'static str = "Step-by-step solution";

/// The hint, in seconds, given to the service for each of its five
/// timeouts, unless the caller names another.
pub const DEFAULT_TIMEOUT: u8 = 30;

/// The application id that is sent where the caller has none of its own.
pub const DEFAULT_APPID: &'static str = "H9V325-HTALUWHKGK";

/// What the user asks of the service. Each field is independent of the
/// others; the timeouts are hints that are forwarded to the service and never
/// bound the client's own waiting.
#[derive(Debug, PartialEq, Eq)]
pub struct ReqArgs {
    /// The query, in natural language.
    pub input: String,
    /// Whether further queries are read once the first is answered.
    pub interactive: bool,
    pub podstate: String,
    pub totaltimeout: u8,
    pub podtimeout: u8,
    pub formattimeout: u8,
    pub parsetimeout: u8,
    pub scantimeout: u8,
    pub appid: String,
    /// Whether the service may reinterpret an input that it finds ambiguous.
    pub reinterpret: bool,
}

pub struct ReqArgsView {
    pub input: Seq<char>,
    pub interactive: bool,
    pub podstate: Seq<char>,
    pub totaltimeout: u8,
    pub podtimeout: u8,
    pub formattimeout: u8,
    pub parsetimeout: u8,
    pub scantimeout: u8,
    pub appid: Seq<char>,
    pub reinterpret: bool,
}

impl View for ReqArgs {
    type V = ReqArgsView;

    open spec fn view(&self) -> ReqArgsView {
        ReqArgsView {
            input: self.input@,
            interactive: self.interactive,
            podstate: self.podstate@,
            totaltimeout: self.totaltimeout,
            podtimeout: self.podtimeout,
            formattimeout: self.formattimeout,
            parsetimeout: self.parsetimeout,
            scantimeout: self.scantimeout,
            appid: self.appid@,
            reinterpret: self.reinterpret,
        }
    }
}

impl ReqArgsView {
    /// The arguments of a plain invocation: one query, every option left at
    /// its default.
    pub open spec fn defaults(input: Seq<char>) -> ReqArgsView {
        ReqArgsView {
            input,
            interactive: false,
            podstate: DEFAULT_PODSTATE@,
            totaltimeout: DEFAULT_TIMEOUT,
            podtimeout: DEFAULT_TIMEOUT,
            formattimeout: DEFAULT_TIMEOUT,
            parsetimeout: DEFAULT_TIMEOUT,
            scantimeout: DEFAULT_TIMEOUT,
            appid: DEFAULT_APPID@,
            reinterpret: true,
        }
    }

    /// The same arguments for another query.
    pub open spec fn with_input(self, input: Seq<char>) -> ReqArgsView {
        ReqArgsView { input, ..self }
    }
}

/// The query parameters of the request that the arguments make: names and
/// values in the order in which they are sent. Numbers are written in
/// decimal, booleans as `true` or `false`, strings as they are; escaping
/// them for the URL is left to whoever sends the request.
pub open spec fn query_of(args: ReqArgsView) -> Seq<(Seq<char>, Seq<char>)> {
    seq![
        ("output"@, "json"@),
        ("input"@, args.input),
        ("podstate"@, args.podstate),
        ("totaltimeout"@, decimal(args.totaltimeout as nat)),
        ("podtimeout"@, decimal(args.podtimeout as nat)),
        ("formattimeout"@, decimal(args.formattimeout as nat)),
        ("parsetimeout"@, decimal(args.parsetimeout as nat)),
        ("scantimeout"@, decimal(args.scantimeout as nat)),
        ("appid"@, args.appid),
        ("reinterpret"@, boolean_text(args.reinterpret)),
    ]
}

/// Another query changes the `input` parameter of the request, which then
/// holds the new text as it is, and no other parameter.
pub proof fn lemma_input_alone_changes(args: ReqArgsView, input: Seq<char>)
    ensures
        query_of(args.with_input(input)).len() == query_of(args).len(),
        query_of(args.with_input(input))[1] == ("input"@, input),
        forall|k: int|
            0 <= k < query_of(args).len() && k != 1 ==> #[trigger] query_of(
                args.with_input(input),
            )[k] == query_of(args)[k],
{
}

impl ReqArgs {
    /// The arguments of a plain invocation: one query, every option left at
    /// its default.
    pub fn new(input: String) -> (args: ReqArgs)
        ensures
            args@ == ReqArgsView::defaults(input@),
    {
        ReqArgs {
            input,
            interactive: false,
            podstate: String::from_str(DEFAULT_PODSTATE),
            totaltimeout: DEFAULT_TIMEOUT,
            podtimeout: DEFAULT_TIMEOUT,
            formattimeout: DEFAULT_TIMEOUT,
            parsetimeout: DEFAULT_TIMEOUT,
            scantimeout: DEFAULT_TIMEOUT,
            appid: String::from_str(DEFAULT_APPID),
            reinterpret: true,
        }
    }
}

fn pair(name: &str, value: String) -> (entry: (String, String))
    ensures
        entry.0@ == name@,
        entry.1@ == value@,
{
    (String::from_str(name), value)
}

/// Builds the query parameters of the request for these arguments.
pub fn query_pairs(args: &ReqArgs) -> (pairs: Vec<(String, String)>)
    ensures
        pairs.deep_view() == query_of(args@),
{
    let mut pairs: Vec<(String, String)> = Vec::new();
    pairs.push(pair("output", String::from_str("json")));
    pairs.push(pair("input", args.input.clone()));
    pairs.push(pair("podstate", args.podstate.clone()));
    pairs.push(pair("totaltimeout", decimal_string(args.totaltimeout)));
    pairs.push(pair("podtimeout", decimal_string(args.podtimeout)));
    pairs.push(pair("formattimeout", decimal_string(args.formattimeout)));
    pairs.push(pair("parsetimeout", decimal_string(args.parsetimeout)));
    pairs.push(pair("scantimeout", decimal_string(args.scantimeout)));
    pairs.push(pair("appid", args.appid.clone()));
    pairs.push(pair("reinterpret", boolean_string(args.reinterpret)));
    assert(pairs.deep_view() =~= query_of(args@));
    pairs
}

} // verus!
