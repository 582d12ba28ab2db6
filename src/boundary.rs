//! The answer to a request for a new playback window, and the cleanup after
//! a window that could not be opened.

use vstd::prelude::*;
use crate::driver::{Action, abort_open, teardown_actions};

verus! {

/// Identifier handed back for a window that opened. Only one window at a
/// time is supported, so it is always the same.
pub const WINDOW_ID: u32 = 1;

/// Why a playback window could not be opened.
#[derive(Clone, Copy, Debug, PartialEq, Eq, Structural)]
pub enum OpenError {
    /// The request did not carry a `url` string.
    BadRequest,
    /// The window or its graphics context could not be created.
    ContextCreation,
    /// The playback engine could not be created or bound to the context.
    EngineInit,
    /// The playback engine refused one of its options.
    EngineOption,
    /// The video could not be loaded.
    Load,
}

impl OpenError {
    pub open spec fn text(self) -> Seq<char> {
        match self {
            OpenError::BadRequest => "malformed request: expected a url string"@,
            OpenError::ContextCreation => "could not create the window and its graphics context"@,
            OpenError::EngineInit => "could not initialize the playback engine"@,
            OpenError::EngineOption => "the playback engine refused an option"@,
            OpenError::Load => "could not load the video"@,
        }
    }

    /// A one-line description of the error.
    pub fn message(&self) -> (r: String)
        ensures
            r@ == self.text(),
    {
        match self {
            OpenError::BadRequest => String::from_str("malformed request: expected a url string"),
            OpenError::ContextCreation => String::from_str("could not create the window and its graphics context"),
            OpenError::EngineInit => String::from_str("could not initialize the playback engine"),
            OpenError::EngineOption => String::from_str("the playback engine refused an option"),
            OpenError::Load => String::from_str("could not load the video"),
        }
    }

    /// Whether the graphics context existed when this error came.
    pub open spec fn context_created(self) -> bool {
        !(self is BadRequest || self is ContextCreation)
    }

    /// Whether a playback engine existed when this error came.
    pub open spec fn playback_created(self) -> bool {
        self is EngineOption || self is Load
    }
}

/// What the caller learns of a window that opened.
#[derive(Clone, Copy, Debug, PartialEq, Eq, Structural)]
pub struct CreatedWindow {
    pub id: u32,
}

/// The answer to a request: exactly one of `err` and `ok` is set.
#[derive(Clone, Debug)]
pub struct CreateWindowResponse {
    pub err: Option<String>,
    pub ok: Option<CreatedWindow>,
}

/// The answer to a request whose open ended with `outcome`: the window's
/// identifier on success, the error's description otherwise.
pub fn respond(outcome: Result<(), OpenError>) -> (r: CreateWindowResponse)
    ensures
        outcome is Ok ==> r.err is None && r.ok == Some(CreatedWindow { id: WINDOW_ID }),
        outcome matches Err(e) ==> r.ok is None && r.err is Some && r.err.unwrap()@ == e.text(),
{
    match outcome {
        Ok(()) => CreateWindowResponse { err: None, ok: Some(CreatedWindow { id: WINDOW_ID }) },
        Err(e) => CreateWindowResponse { err: Some(e.message()), ok: None },
    }
}

/// What is left to undo after an open failed with `e`, in order: a playback
/// engine that was created is released before the context is destroyed,
/// and no window stays open.
pub fn cleanup_after(e: &OpenError) -> (r: Vec<Action>)
    ensures
        !e.context_created() ==> r@.len() == 0,
        e.context_created() && e.playback_created() ==> r@ == teardown_actions(),
        e.context_created() && !e.playback_created() ==> r@ == seq![Action::DestroyContext],
{
    match e {
        OpenError::BadRequest | OpenError::ContextCreation => Vec::new(),
        OpenError::EngineInit => abort_open(false),
        OpenError::EngineOption | OpenError::Load => abort_open(true),
    }
}

} // verus!
