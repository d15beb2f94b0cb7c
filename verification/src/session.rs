//! The session: what the client does, in which order, and when it ends.
//!
//! The session does no input or output of its own. It hands out one action
//! at a time; whoever drives it performs the action and reports what came of
//! it as an event, which gives the next action. A one-shot session answers
//! one query and ends. An interactive session then reads further queries,
//! one line each, until a line asks to leave. A failed request ends the
//! session in either mode.

use crate::command::{exit_command, is_exit_command};
use crate::document::{decoded_document, response_to_json, DocumentView, ResultDocument};
use crate::error::{ClientError, ClientErrorView, TransportError};
use crate::format::{json_to_formatted_string, render, Rendering};
use crate::params::{lemma_input_alone_changes, query_of, query_pairs, ReqArgs, ReqArgsView};
use vstd::prelude::*;

verus! {

/// What a session waits for.
#[derive(Debug, PartialEq, Eq)]
pub enum Phase {
    /// The response to the request that was handed out last.
    Fetching,
    /// The user's choice of how to show the decoded document.
    Choosing(ResultDocument),
    /// The next line from the user.
    Reading,
    /// Nothing: the session is over.
    Closed,
}

/// A session: the arguments of the current query, and what is awaited.
#[derive(Debug, PartialEq, Eq)]
pub struct Session {
    pub args: ReqArgs,
    pub phase: Phase,
}

/// What the driver reports.
#[derive(Debug, PartialEq, Eq)]
pub enum Event {
    /// The body of the response, or why none came.
    Response(Result<String, TransportError>),
    /// The rendering that the user chose.
    Choice(Rendering),
    /// A line that the user entered, as it was read.
    Line(String),
}

/// What the driver is to do next.
#[derive(Debug, PartialEq, Eq)]
pub enum Action {
    /// Send a request with these query parameters, and report the
    /// `Response`.
    Fetch(Vec<(String, String)>),
    /// Ask the user whether the full response is to be shown, and report
    /// the `Choice`.
    Choose,
    /// Print the text, then ask for the next query and report the `Line`.
    Show(String),
    /// Print the text and end with success.
    Finish(String),
    /// End with success.
    Quit,
    /// End with this failure.
    Fail(ClientError),
}

pub enum PhaseView {
    Fetching,
    Choosing(DocumentView),
    Reading,
    Closed,
}

pub struct SessionView {
    pub args: ReqArgsView,
    pub phase: PhaseView,
}

pub enum EventView {
    Response(Result<Seq<char>, Seq<char>>),
    Choice(Rendering),
    Line(Seq<char>),
}

pub enum ActionView {
    Fetch(Seq<(Seq<char>, Seq<char>)>),
    Choose,
    Show(Seq<char>),
    Finish(Seq<char>),
    Quit,
    Fail(ClientErrorView),
}

impl View for Phase {
    type V = PhaseView;

    open spec fn view(&self) -> PhaseView {
        match self {
            Phase::Fetching => PhaseView::Fetching,
            Phase::Choosing(doc) => PhaseView::Choosing(doc@),
            Phase::Reading => PhaseView::Reading,
            Phase::Closed => PhaseView::Closed,
        }
    }
}

impl View for Session {
    type V = SessionView;

    open spec fn view(&self) -> SessionView {
        SessionView { args: self.args@, phase: self.phase@ }
    }
}

/// The view of a response: the body, or the wording of the failure.
pub open spec fn response_view(response: Result<String, TransportError>) -> Result<
    Seq<char>,
    Seq<char>,
> {
    match response {
        Ok(body) => Ok(body@),
        Err(failure) => Err(failure.message@),
    }
}

/// The view of what a response led to.
pub open spec fn outcome_view(outcome: Result<ResultDocument, ClientError>) -> Result<
    DocumentView,
    ClientErrorView,
> {
    match outcome {
        Ok(doc) => Ok(doc@),
        Err(e) => Err(e@),
    }
}

impl View for Event {
    type V = EventView;

    open spec fn view(&self) -> EventView {
        match self {
            Event::Response(response) => EventView::Response(response_view(*response)),
            Event::Choice(mode) => EventView::Choice(*mode),
            Event::Line(line) => EventView::Line(line@),
        }
    }
}

impl View for Action {
    type V = ActionView;

    open spec fn view(&self) -> ActionView {
        match self {
            Action::Fetch(query) => ActionView::Fetch(query.deep_view()),
            Action::Choose => ActionView::Choose,
            Action::Show(text) => ActionView::Show(text@),
            Action::Finish(text) => ActionView::Finish(text@),
            Action::Quit => ActionView::Quit,
            Action::Fail(e) => ActionView::Fail(e@),
        }
    }
}

/// The view of an action that may be missing.
pub open spec fn action_view(action: Option<Action>) -> Option<ActionView> {
    match action {
        Some(a) => Some(a@),
        None => None,
    }
}

/// How a session begins: with the request for the first query.
pub open spec fn start_of(args: ReqArgsView) -> (SessionView, ActionView) {
    (SessionView { args, phase: PhaseView::Fetching }, ActionView::Fetch(query_of(args)))
}

/// What a response leads to: the document that its body denotes, or the
/// failure. A transport failure is handed on as it is; a body that is not
/// JSON is a decode failure.
pub open spec fn outcome_of(response: Result<Seq<char>, Seq<char>>) -> Result<
    DocumentView,
    ClientErrorView,
> {
    match response {
        Ok(body) => match decoded_document(body) {
            Some(doc) => Ok(doc),
            None => Err(ClientErrorView::Decode),
        },
        Err(message) => Err(ClientErrorView::Transport(message)),
    }
}

/// The session after an event, and the action that the event gives. An
/// event that is not what the session waits for changes nothing and gives no
/// action.
pub open spec fn step_of(session: SessionView, event: EventView) -> (
    SessionView,
    Option<ActionView>,
) {
    match (session.phase, event) {
        (PhaseView::Fetching, EventView::Response(response)) => match outcome_of(response) {
            Ok(doc) => (
                SessionView { phase: PhaseView::Choosing(doc), ..session },
                Some(ActionView::Choose),
            ),
            Err(e) => (SessionView { phase: PhaseView::Closed, ..session }, Some(ActionView::Fail(e))),
        },
        (PhaseView::Choosing(doc), EventView::Choice(mode)) => if session.args.interactive {
            (
                SessionView { phase: PhaseView::Reading, ..session },
                Some(ActionView::Show(render(doc, mode))),
            )
        } else {
            (
                SessionView { phase: PhaseView::Closed, ..session },
                Some(ActionView::Finish(render(doc, mode))),
            )
        },
        (PhaseView::Reading, EventView::Line(line)) => if exit_command(line) {
            (SessionView { phase: PhaseView::Closed, ..session }, Some(ActionView::Quit))
        } else {
            (
                SessionView { args: session.args.with_input(line), phase: PhaseView::Fetching },
                Some(ActionView::Fetch(query_of(session.args.with_input(line)))),
            )
        },
        _ => (session, None),
    }
}

/// The status with which the process ends on an action that ends the
/// session: zero for success, one for a failure. An action that goes on has
/// none.
pub open spec fn exit_code_of(action: ActionView) -> Option<u8> {
    match action {
        ActionView::Finish(_) => Some(0u8),
        ActionView::Quit => Some(0u8),
        ActionView::Fail(_) => Some(1u8),
        _ => None,
    }
}

/// The text that an action has printed, where it has any.
pub open spec fn output_of(action: ActionView) -> Option<Seq<char>> {
    match action {
        ActionView::Show(text) => Some(text),
        ActionView::Finish(text) => Some(text),
        _ => None,
    }
}

/// Once the user has chosen a rendering, the text of the document is
/// printed. A one-shot session then ends with success; an interactive one
/// goes on to read a line.
pub proof fn lemma_choice_prints_the_text(session: SessionView, mode: Rendering)
    requires
        session.phase is Choosing,
    ensures
        output_of(step_of(session, EventView::Choice(mode)).1->Some_0) == Some(
            render(session.phase->Choosing_0, mode),
        ),
        !session.args.interactive ==> {
            let after = step_of(session, EventView::Choice(mode));
            &&& after.0.phase is Closed
            &&& after.1 == Some(ActionView::Finish(render(session.phase->Choosing_0, mode)))
            &&& exit_code_of(after.1->Some_0) == Some(0u8)
        },
        session.args.interactive ==> {
            let after = step_of(session, EventView::Choice(mode));
            &&& after.0.phase is Reading
            &&& after.1 == Some(ActionView::Show(render(session.phase->Choosing_0, mode)))
        },
{
}

/// In a session that waits for a line, a line that asks to leave ends the
/// session with success. No request follows: the action is to quit, and a
/// closed session gives no further action.
pub proof fn lemma_exit_ends_session(session: SessionView, line: Seq<char>)
    requires
        session.phase is Reading,
    ensures
        exit_command(line) ==> {
            let after = step_of(session, EventView::Line(line));
            &&& after.0 == (SessionView { phase: PhaseView::Closed, ..session })
            &&& after.1 == Some(ActionView::Quit)
            &&& exit_code_of(ActionView::Quit) == Some(0u8)
            &&& forall|event: EventView| #[trigger] step_of(after.0, event).1 is None
        },
{
}

/// In a session that waits for a line, any other line is the next query.
/// It gives one request, whose `input` parameter is the line as it was
/// read; every other parameter is as in the request before.
pub proof fn lemma_line_is_next_query(session: SessionView, line: Seq<char>)
    requires
        session.phase is Reading,
    ensures
        !exit_command(line) ==> {
            let after = step_of(session, EventView::Line(line));
            let query = query_of(session.args.with_input(line));
            &&& after.0 == (SessionView {
                args: session.args.with_input(line),
                phase: PhaseView::Fetching,
            })
            &&& after.1 == Some(ActionView::Fetch(query))
            &&& query.len() == query_of(session.args).len()
            &&& query[1] == ("input"@, line)
            &&& forall|k: int|
                0 <= k < query.len() && k != 1 ==> #[trigger] query[k] == query_of(session.args)[k]
        },
{
    lemma_input_alone_changes(session.args, line);
}

/// A request is asked for in one place only: on a line that is read and
/// does not ask to leave. No other event, in no other phase, gives one, so
/// each such line is answered by exactly one request.
pub proof fn lemma_requests_follow_lines(session: SessionView, event: EventView)
    ensures
        step_of(session, event).1 matches Some(ActionView::Fetch(_)) ==> {
            &&& session.phase is Reading
            &&& event matches EventView::Line(line)
            &&& !exit_command(line)
        },
{
}

/// No event changes an argument other than the query itself: the options
/// of a session are those that it began with.
pub proof fn lemma_options_stay(session: SessionView, event: EventView)
    ensures
        step_of(session, event).0.args == session.args.with_input(
            step_of(session, event).0.args.input,
        ),
{
}

/// A request that fails in transport ends the session, in either mode: the
/// action is to fail with that error, which ends the process with a status
/// other than zero, and nothing is printed.
pub proof fn lemma_transport_failure_ends_session(session: SessionView, message: Seq<char>)
    requires
        session.phase is Fetching,
    ensures
        step_of(session, EventView::Response(Err(message))).0 == (SessionView {
            phase: PhaseView::Closed,
            ..session
        }),
        step_of(session, EventView::Response(Err(message))).1 == Some(
            ActionView::Fail(ClientErrorView::Transport(message)),
        ),
        exit_code_of(ActionView::Fail(ClientErrorView::Transport(message))) == Some(1u8),
        output_of(ActionView::Fail(ClientErrorView::Transport(message))) is None,
{
}

/// The first request of a session is no exception: where it fails in
/// transport, the session that has just begun ends in failure, with nothing
/// printed.
pub proof fn lemma_first_request_failure(args: ReqArgsView, message: Seq<char>)
    ensures
        step_of(start_of(args).0, EventView::Response(Err(message))).0.phase is Closed,
        step_of(start_of(args).0, EventView::Response(Err(message))).1 == Some(
            ActionView::Fail(ClientErrorView::Transport(message)),
        ),
{
    lemma_transport_failure_ends_session(start_of(args).0, message);
}

/// Turns the response to a request into the document to show, or into the
/// failure that ends the request.
pub fn response_outcome(response: Result<String, TransportError>) -> (outcome: Result<
    ResultDocument,
    ClientError,
>)
    ensures
        outcome_view(outcome) == outcome_of(response_view(response)),
{
    match response {
        Ok(body) => match response_to_json(body.as_str()) {
            Ok(doc) => Ok(doc),
            Err(e) => Err(ClientError::Decode(e)),
        },
        Err(failure) => Err(ClientError::Transport(failure)),
    }
}

/// The status with which the process ends on this action, where the action
/// ends the session.
pub fn exit_code(action: &Action) -> (code: Option<u8>)
    ensures
        code == exit_code_of(action@),
{
    match action {
        Action::Finish(_) => Some(0),
        Action::Quit => Some(0),
        Action::Fail(_) => Some(1),
        _ => None,
    }
}

impl Session {
    /// Begins a session: the first action is the request for the query in
    /// `args`.
    pub fn start(args: ReqArgs) -> (begun: (Session, Action))
        ensures
            (begun.0@, begun.1@) == start_of(args@),
    {
        let query = query_pairs(&args);
        (Session { args, phase: Phase::Fetching }, Action::Fetch(query))
    }

    /// Takes an event and gives the session after it, with the action to
    /// perform next; `None` where the event is not what the session waits
    /// for, and the session is then as it was.
    pub fn step(self, event: Event) -> (next: (Session, Option<Action>))
        ensures
            (next.0@, action_view(next.1)) == step_of(self@, event@),
    {
        let Session { args, phase } = self;
        match phase {
            Phase::Fetching => match event {
                Event::Response(response) => match response_outcome(response) {
                    Ok(doc) => (
                        Session { args, phase: Phase::Choosing(doc) },
                        Some(Action::Choose),
                    ),
                    Err(e) => (Session { args, phase: Phase::Closed }, Some(Action::Fail(e))),
                },
                _ => (Session { args, phase: Phase::Fetching }, None),
            },
            Phase::Choosing(doc) => match event {
                Event::Choice(mode) => {
                    let text = json_to_formatted_string(&doc, mode);
                    if args.interactive {
                        (Session { args, phase: Phase::Reading }, Some(Action::Show(text)))
                    } else {
                        (Session { args, phase: Phase::Closed }, Some(Action::Finish(text)))
                    }
                },
                _ => (Session { args, phase: Phase::Choosing(doc) }, None),
            },
            Phase::Reading => match event {
                Event::Line(line) => if is_exit_command(line.as_str()) {
                    (Session { args, phase: Phase::Closed }, Some(Action::Quit))
                } else {
                    let mut args = args;
                    args.input = line;
                    let query = query_pairs(&args);
                    (Session { args, phase: Phase::Fetching }, Some(Action::Fetch(query)))
                },
                _ => (Session { args, phase: Phase::Reading }, None),
            },
            Phase::Closed => (Session { args, phase: Phase::Closed }, None),
        }
    }
}

} // verus!
