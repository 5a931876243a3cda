//! From the command line to a session: the address of the service must be
//! known before anything else is looked at, and the subcommand picks the
//! session.

use crate::report::{complain, complaint, notice, only, say, Line, LineModel};
use crate::session::{
    leaving, opening_model, playback, playback_opened, skip_item, skip_opened, status,
    status_opened, Action, Phase, Session, SessionModel, Step, StepModel,
};
use crate::tags::{parse_tags_data, parsed};
use crate::text::same_text;
use vstd::prelude::*;
use vstd::string::*;

verus! {

/// The environment variable that holds the base address of the service.
pub const HOST_VARIABLE: &'static str = "JUKECTL_HOST";

/// How a run begins.
#[derive(Debug, Clone, PartialEq, Eq)]
pub enum Startup {
    /// The base address of the service is known.
    Ready(String),
    /// It is not: what to print, and the exit code to leave with.
    Abort { line: Line, code: i32 },
}

/// The model of a `Startup`.
pub enum StartupModel {
    Ready(Seq<char>),
    Abort { line: LineModel, code: i32 },
}

impl DeepView for Startup {
    type V = StartupModel;

    open spec fn deep_view(&self) -> StartupModel {
        match self {
            Startup::Ready(base) => StartupModel::Ready(base@),
            Startup::Abort { line, code } => StartupModel::Abort {
                line: line.deep_view(),
                code: *code,
            },
        }
    }
}

/// The model of a text that may be missing.
pub open spec fn given(text: Option<&str>) -> Option<Seq<char>> {
    match text {
        Some(text) => Some(text@),
        None => None,
    }
}

/// The text, or the empty text where there is none.
pub open spec fn or_empty(text: Option<Seq<char>>) -> Seq<char> {
    match text {
        Some(text) => text,
        None => Seq::empty(),
    }
}

/// How a run begins, given the value of the host variable: without it the
/// run ends at once with exit code 1.
pub open spec fn started(host: Option<Seq<char>>) -> StartupModel {
    match host {
        Some(base) => StartupModel::Ready(base),
        None => StartupModel::Abort {
            line: complaint("Error: JUKECTL_HOST environment variable is not set."@),
            code: 1,
        },
    }
}

/// The session that a subcommand stands for, with its first step. A name
/// that is none of `status`, `skip` and `playback` gets a hint and exit
/// code 0. The two arguments of `playback` count as empty where they are
/// not given.
pub open spec fn dispatched(
    base: Seq<char>,
    subcommand: Seq<char>,
    tags: Option<Seq<char>>,
    not_tags: Option<Seq<char>>,
) -> (SessionModel, StepModel) {
    if subcommand == "status"@ {
        status_opened(base)
    } else if subcommand == "skip"@ {
        skip_opened(base)
    } else if subcommand == "playback"@ {
        playback_opened(base, parsed(or_empty(tags), or_empty(not_tags)))
    } else {
        (
            SessionModel { base, phase: Phase::Closed },
            leaving(seq![notice("Invalid subcommand. Use 'myctl --help' for usage."@)], 0),
        )
    }
}

/// Without the address of the service a run ends with exit code 1 before any
/// subcommand is looked at: no session begins, so nothing is sent.
pub proof fn lemma_no_host_no_session()
    ensures
        started(None) matches StartupModel::Abort { code, .. } && code == 1,
{
}

/// How a run begins, given the value of the host variable.
pub fn startup(host: Option<String>) -> (r: Startup)
    ensures
        r.deep_view() == started(host.deep_view()),
{
    match host {
        Some(base) => Startup::Ready(base),
        None => Startup::Abort {
            line: complain("Error: JUKECTL_HOST environment variable is not set.".to_owned()),
            code: 1,
        },
    }
}

/// The text, or the empty text where there is none.
pub fn text_or_empty<'a>(text: Option<&'a str>) -> (r: &'a str)
    ensures
        r@ == or_empty(given(text)),
{
    match text {
        Some(text) => text,
        None => {
            proof {
                reveal_strlit("");
            }
            ""
        },
    }
}

/// Opens the session that a subcommand stands for.
pub fn dispatch(
    api_hostname: &str,
    subcommand: &str,
    tags: Option<&str>,
    not_tags: Option<&str>,
) -> (opening: (Session, Step))
    ensures
        opening_model(opening) == dispatched(
            api_hostname@,
            subcommand@,
            given(tags),
            given(not_tags),
        ),
{
    if same_text(subcommand, "status") {
        status(api_hostname)
    } else if same_text(subcommand, "skip") {
        skip_item(api_hostname)
    } else if same_text(subcommand, "playback") {
        let tags_data = parse_tags_data(text_or_empty(tags), text_or_empty(not_tags));
        playback(api_hostname, &tags_data)
    } else {
        (
            Session { base: api_hostname.to_owned(), phase: Phase::Closed },
            Step {
                banner: false,
                lines: only(say("Invalid subcommand. Use 'myctl --help' for usage.".to_owned())),
                action: Action::Exit(0),
            },
        )
    }
}

} // verus!
