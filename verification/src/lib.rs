//! A verified session controller for a small plain-text editor.
//!
//! The library owns the editor's state: the document text with its cursor,
//! the path of the file backing the document (if any), the directory used to
//! seed file dialogs, and a queue of transient status messages.  It reacts to
//! discrete events (edits, open/save requests, completions of file reads and
//! writes, dialog results) as a pure reducer: each event yields the next state
//! and at most one command describing the asynchronous work to perform.  A
//! host process renders the state, performs the commands (file reads and
//! writes, native dialogs, expiry timers) and feeds the resulting events back.

pub mod controller;
pub mod document;
pub mod paths;
