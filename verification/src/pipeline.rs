//! The sequence of steps that turns one invocation into code or a failure.
//!
//! The pipeline reads files, looks into the cache and calls the generation
//! service only through its caller. It is a state machine: the caller hands
//! it an event, the machine answers with its next state and the action the
//! caller is to perform, and the caller reports the action's result as the
//! next event. The machine starts in `Idle` and ends in `Substitute` or
//! `Fail`.

use crate::cache_key::{derive_cache_key, key_digest, CacheKey};
use crate::error::{Failure, FailureView, ServiceFailure};
use crate::invocation::{parse_invocation, parsed_text, Invocation, InvocationView};
use crate::request::{build_request, request_for, GenerationRequest, GenerationRequestView};
use crate::template::{system_message, system_message_text, EntryPoint, EntryPointView};
use crate::validate::{is_well_formed, settled, validate_response};
use vstd::prelude::*;
use vstd::utf8::encode_utf8;

verus! {

/// What a lookup in the cache found.
#[derive(Clone, Debug, PartialEq, Eq)]
pub enum CacheAnswer {
    /// A record exists; holds its text.
    Hit(String),
    /// No record exists.
    Miss,
    /// The cache could not be read.
    Unreadable,
}

/// What a `CacheAnswer` is in contracts.
pub enum CacheAnswerView {
    Hit(Seq<char>),
    Miss,
    Unreadable,
}

/// Where the pipeline stands.
#[derive(Clone, Debug, PartialEq, Eq)]
pub enum State {
    /// Nothing has happened yet.
    Idle,
    /// The arguments are parsed; the enclosing file is being read.
    CollectingContext { entry: EntryPoint, arguments: String, invocation: Invocation },
    /// The key is computed; the cache is being asked for it.
    CacheLookup { key: CacheKey, request: GenerationRequest },
    /// The cache had no record; the service is being asked.
    InvokeService { key: CacheKey },
    /// The service answered; its answer is being written to the cache.
    StoreCache { response: String },
    /// Ended: the invocation is replaced by code.
    Substitute,
    /// Ended: the invocation failed.
    Fail,
}

/// What a `State` is in contracts.
pub enum StateView {
    Idle,
    CollectingContext { entry: EntryPointView, arguments: Seq<char>, invocation: InvocationView },
    CacheLookup { key: CacheKey, request: GenerationRequestView },
    InvokeService { key: CacheKey },
    StoreCache { response: Seq<char> },
    Substitute,
    Fail,
}

/// What the caller reports to the pipeline.
#[derive(Debug, PartialEq, Eq)]
pub enum Event {
    /// An entry point was used with these arguments.
    Invoked { entry: EntryPoint, arguments: String },
    /// The enclosing file was read; `None` where it could not be.
    SourceRead(Option<String>),
    /// The cache was asked.
    CacheRead(CacheAnswer),
    /// The service was asked.
    ServiceReplied(Result<String, ServiceFailure>),
    /// The record was written; `false` where it could not be.
    CacheWritten(bool),
}

/// What an `Event` is in contracts.
pub enum EventView {
    Invoked { entry: EntryPointView, arguments: Seq<char> },
    SourceRead(Option<Seq<char>>),
    CacheRead(CacheAnswerView),
    ServiceReplied(Result<Seq<char>, ServiceFailure>),
    CacheWritten(bool),
}

/// What the pipeline asks of its caller.
#[derive(Clone, Debug, PartialEq, Eq)]
pub enum Action {
    /// Read the file that holds the invocation.
    ReadSource,
    /// Look for the record of this key.
    LookUp(CacheKey),
    /// Send this request to the generation service.
    Generate(GenerationRequest),
    /// Write this text as the record of this key.
    Store(CacheKey, String),
    /// Put this code in the invocation's place. Nothing follows.
    Substitute(String),
    /// Report this failure at the invocation. Nothing follows.
    Fail(Failure),
}

/// What an `Action` is in contracts.
pub enum ActionView {
    ReadSource,
    LookUp(CacheKey),
    Generate(GenerationRequestView),
    Store(CacheKey, Seq<char>),
    Substitute(Seq<char>),
    Fail(FailureView),
}

impl View for CacheAnswer {
    type V = CacheAnswerView;

    open spec fn view(&self) -> CacheAnswerView {
        match *self {
            CacheAnswer::Hit(text) => CacheAnswerView::Hit(text@),
            CacheAnswer::Miss => CacheAnswerView::Miss,
            CacheAnswer::Unreadable => CacheAnswerView::Unreadable,
        }
    }
}

impl View for State {
    type V = StateView;

    open spec fn view(&self) -> StateView {
        match *self {
            State::Idle => StateView::Idle,
            State::CollectingContext { entry, arguments, invocation } => {
                StateView::CollectingContext {
                    entry: entry@,
                    arguments: arguments@,
                    invocation: invocation@,
                }
            },
            State::CacheLookup { key, request } => StateView::CacheLookup {
                key,
                request: request@,
            },
            State::InvokeService { key } => StateView::InvokeService { key },
            State::StoreCache { response } => StateView::StoreCache { response: response@ },
            State::Substitute => StateView::Substitute,
            State::Fail => StateView::Fail,
        }
    }
}

impl View for Event {
    type V = EventView;

    open spec fn view(&self) -> EventView {
        match *self {
            Event::Invoked { entry, arguments } => EventView::Invoked {
                entry: entry@,
                arguments: arguments@,
            },
            Event::SourceRead(source) => EventView::SourceRead(
                match source {
                    Some(file) => Some(file@),
                    None => None,
                },
            ),
            Event::CacheRead(answer) => EventView::CacheRead(answer@),
            Event::ServiceReplied(reply) => EventView::ServiceReplied(
                match reply {
                    Ok(text) => Ok(text@),
                    Err(failure) => Err(failure),
                },
            ),
            Event::CacheWritten(written) => EventView::CacheWritten(written),
        }
    }
}

impl View for Action {
    type V = ActionView;

    open spec fn view(&self) -> ActionView {
        match *self {
            Action::ReadSource => ActionView::ReadSource,
            Action::LookUp(key) => ActionView::LookUp(key),
            Action::Generate(request) => ActionView::Generate(request@),
            Action::Store(key, text) => ActionView::Store(key, text@),
            Action::Substitute(code) => ActionView::Substitute(code@),
            Action::Fail(failure) => ActionView::Fail(failure@),
        }
    }
}

impl StateView {
    /// Whether the pipeline has ended.
    pub open spec fn is_final(self) -> bool {
        self is Substitute || self is Fail
    }
}

impl ActionView {
    /// Whether nothing follows this action.
    pub open spec fn is_final(self) -> bool {
        self is Substitute || self is Fail
    }
}

/// The key of an invocation, from the characters of the enclosing file, of
/// the entry point's name and of the arguments: each text enters the digest
/// as its UTF-8 bytes.
pub open spec fn key_of(file: Seq<char>, name: Seq<char>, arguments: Seq<char>) -> CacheKey {
    CacheKey { digest: key_digest(encode_utf8(file), encode_utf8(name), encode_utf8(arguments)) }
}

/// How the pipeline ends on the text `text`, from the cache or from the
/// service: with the text as code if it is well-formed, and else with the
/// failure that holds it.
pub open spec fn ended_on(text: Seq<char>) -> (StateView, ActionView) {
    match settled(text, is_well_formed(text)) {
        Ok(code) => (StateView::Substitute, ActionView::Substitute(code)),
        Err(failure) => (StateView::Fail, ActionView::Fail(failure)),
    }
}

/// The pipeline's failed end.
pub open spec fn failed_with(failure: FailureView) -> (StateView, ActionView) {
    (StateView::Fail, ActionView::Fail(failure))
}

/// The state that follows `state` on `event`, and the action asked of the
/// caller; `None` where `state` does not await `event`.
/// - `Idle` awaits the invocation and parses its arguments.
/// - `CollectingContext` awaits the file, computes the key and asks the cache.
/// - `CacheLookup` awaits the cache: a hit ends the pipeline on the record's
///   text, a miss asks the service.
/// - `InvokeService` awaits the service and has its answer written to the
///   cache as it came.
/// - `StoreCache` awaits the write and only then ends on the answer.
/// Every failure ends the pipeline; nothing is tried twice.
pub open spec fn next(state: StateView, event: EventView) -> Option<(StateView, ActionView)> {
    match (state, event) {
        (StateView::Idle, EventView::Invoked { entry, arguments }) => Some(
            match parsed_text(arguments) {
                Ok(invocation) => (
                    StateView::CollectingContext { entry, arguments, invocation },
                    ActionView::ReadSource,
                ),
                Err(failure) => failed_with(failure),
            },
        ),
        (
            StateView::CollectingContext { entry, arguments, invocation },
            EventView::SourceRead(source),
        ) => Some(
            match source {
                Some(file) => (
                    StateView::CacheLookup {
                        key: key_of(file, entry.name, arguments),
                        request: request_for(
                            invocation,
                            system_message_text(entry),
                            file,
                            key_of(file, entry.name, arguments).digest,
                        ),
                    },
                    ActionView::LookUp(key_of(file, entry.name, arguments)),
                ),
                None => failed_with(FailureView::SourceUnavailable),
            },
        ),
        (StateView::CacheLookup { key, request }, EventView::CacheRead(answer)) => Some(
            match answer {
                CacheAnswerView::Hit(text) => ended_on(text),
                CacheAnswerView::Miss => (
                    StateView::InvokeService { key },
                    ActionView::Generate(request),
                ),
                CacheAnswerView::Unreadable => failed_with(FailureView::CacheIoFailure),
            },
        ),
        (StateView::InvokeService { key }, EventView::ServiceReplied(reply)) => Some(
            match reply {
                Ok(text) => (StateView::StoreCache { response: text }, ActionView::Store(key, text)),
                Err(failure) => failed_with(FailureView::Service(failure)),
            },
        ),
        (StateView::StoreCache { response }, EventView::CacheWritten(written)) => Some(
            if written {
                ended_on(response)
            } else {
                failed_with(FailureView::CacheIoFailure)
            },
        ),
        _ => None,
    }
}

/// A step's result, as contracts see it.
pub open spec fn step_view(step: Option<(State, Action)>) -> Option<(StateView, ActionView)> {
    match step {
        Some((state, action)) => Some((state@, action@)),
        None => None,
    }
}

/// Ends the pipeline on the text `text`.
fn end_on(text: String) -> (end: (State, Action))
    ensures
        (end.0@, end.1@) == ended_on(text@),
{
    match validate_response(text) {
        Ok(code) => (State::Substitute, Action::Substitute(code)),
        Err(failure) => (State::Fail, Action::Fail(failure)),
    }
}

/// Takes one step: from `state` on `event` to the next state and the action
/// asked of the caller. `None` where `state` does not await `event`.
pub fn step(state: State, event: Event) -> (taken: Option<(State, Action)>)
    ensures
        step_view(taken) == next(state@, event@),
{
    match (state, event) {
        (State::Idle, Event::Invoked { entry, arguments }) => {
            match parse_invocation(arguments.as_str()) {
                Ok(invocation) => Some(
                    (State::CollectingContext { entry, arguments, invocation }, Action::ReadSource),
                ),
                Err(failure) => Some((State::Fail, Action::Fail(failure))),
            }
        },
        (State::CollectingContext { entry, arguments, invocation }, Event::SourceRead(source)) => {
            match source {
                Some(file) => {
                    let key = derive_cache_key(
                        file.as_str(),
                        entry.name.as_str(),
                        arguments.as_str(),
                    );
                    let system = system_message(&entry);
                    let request = build_request(&invocation, system, file.as_str(), key);
                    Some((State::CacheLookup { key, request }, Action::LookUp(key)))
                },
                None => Some((State::Fail, Action::Fail(Failure::SourceUnavailable))),
            }
        },
        (State::CacheLookup { key, request }, Event::CacheRead(answer)) => {
            match answer {
                CacheAnswer::Hit(text) => Some(end_on(text)),
                CacheAnswer::Miss => Some(
                    (State::InvokeService { key }, Action::Generate(request)),
                ),
                CacheAnswer::Unreadable => Some(
                    (State::Fail, Action::Fail(Failure::CacheIoFailure)),
                ),
            }
        },
        (State::InvokeService { key }, Event::ServiceReplied(reply)) => {
            match reply {
                Ok(text) => {
                    let response = text.clone();
                    Some((State::StoreCache { response }, Action::Store(key, text)))
                },
                Err(failure) => Some((State::Fail, Action::Fail(Failure::Service(failure)))),
            }
        },
        (State::StoreCache { response }, Event::CacheWritten(written)) => {
            if written {
                Some(end_on(response))
            } else {
                Some((State::Fail, Action::Fail(Failure::CacheIoFailure)))
            }
        },
        _ => None,
    }
}

} // verus!
