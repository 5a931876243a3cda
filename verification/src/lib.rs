//! A remote control for the jukectl music player service.
//!
//! The service is asked over HTTP for the tag filter in force and for the
//! queue, told to skip the current track, or given a new tag filter. This
//! library holds everything about that but the asking itself: the filter and
//! its JSON form, what is sent for each command, what is printed for each
//! answer, and when a run ends and with which exit code. A caller feeds a
//! [`session::Session`] with what came back from the service and carries out
//! the [`session::Step`] it gets in return.
//!
//! Every function states what it returns over a model of its arguments:
//! texts are sequences of characters, and every type with strings in it has
//! a model that holds their characters, reached by `deep_view`.

pub mod cli;
pub mod display;
pub mod http;
pub mod report;
pub mod session;
pub mod tags;
pub mod text;
pub mod trusted;
