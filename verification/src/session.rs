//! The three commands, each as a session: a session says what to print and
//! what to ask of the service next, the caller does it and hands back what
//! came of it.
//!
//! `status` asks for the filter in force and then for the queue; `skip_item`
//! and `playback` make one request each. Requests are never made at once:
//! every step of a session ends in one action.

use crate::display::{now_playing_lines, show_queue, show_tags, tags_lines};
use crate::http::{get_of, is_success, post_of, succeeded, Event, EventModel, Request, RequestModel};
use crate::report::{
    complain, complaint, followed, lemma_plain_line_text, notice, only, say, silence, Line,
    LineModel, Stream,
};
use crate::tags::{
    decoded, decoding_model, described, encoded, fault_message, DecodeError, DecodeFault, TagsData,
    TagsModel,
};
use crate::text::joined_text;
use crate::trusted::{json_strings, read_strings};
use vstd::prelude::*;
use vstd::string::*;

verus! {

/// What a session is waiting for.
#[derive(Debug, Clone, Copy, PartialEq, Eq)]
pub enum Phase {
    /// The answer to the request for the filter.
    TagsStatus,
    /// The body of that answer.
    TagsBody,
    /// The answer to the request for the queue.
    QueueStatus,
    /// The body of that answer.
    QueueBody,
    /// The answer to the request to skip.
    SkipStatus,
    /// The answer to the request that sets the filter.
    UpdateStatus,
    /// Nothing: the session is over.
    Closed,
}

/// A command under way against the service at `base`.
#[derive(Debug, Clone, PartialEq, Eq)]
pub struct Session {
    /// The base address of the service, used as it is given.
    pub base: String,
    pub phase: Phase,
}

/// What the caller is to do next.
#[derive(Debug, Clone, PartialEq, Eq)]
pub enum Action {
    /// Send the request and hand back `Answered`, or `Failed`.
    Send(Request),
    /// Read the body of the last answer and hand back `Body`, or `Failed`.
    ReadBody,
    /// End the process with this exit code.
    Exit(i32),
}

/// One step of a session: what to print, then what to do.
#[derive(Debug, Clone, PartialEq, Eq)]
pub struct Step {
    /// Whether the banner is printed first.
    pub banner: bool,
    /// The lines to print, in order.
    pub lines: Vec<Line>,
    pub action: Action,
}

/// The model of a `Session`.
pub struct SessionModel {
    pub base: Seq<char>,
    pub phase: Phase,
}

/// The model of an `Action`.
pub enum ActionModel {
    Send(RequestModel),
    ReadBody,
    Exit(i32),
}

/// The model of a `Step`.
pub struct StepModel {
    pub banner: bool,
    pub lines: Seq<LineModel>,
    pub action: ActionModel,
}

impl DeepView for Session {
    type V = SessionModel;

    open spec fn deep_view(&self) -> SessionModel {
        SessionModel { base: self.base@, phase: self.phase }
    }
}

impl DeepView for Action {
    type V = ActionModel;

    open spec fn deep_view(&self) -> ActionModel {
        match self {
            Action::Send(request) => ActionModel::Send(request.deep_view()),
            Action::ReadBody => ActionModel::ReadBody,
            Action::Exit(code) => ActionModel::Exit(*code),
        }
    }
}

impl DeepView for Step {
    type V = StepModel;

    open spec fn deep_view(&self) -> StepModel {
        StepModel {
            banner: self.banner,
            lines: self.lines.deep_view(),
            action: self.action.deep_view(),
        }
    }
}

/// The model of a session with its first step.
pub open spec fn opening_model(opening: (Session, Step)) -> (SessionModel, StepModel) {
    (opening.0.deep_view(), opening.1.deep_view())
}

/// The model of a list of titles as it was read.
pub open spec fn titles_model(r: Result<Vec<String>, String>) -> Result<
    Seq<Seq<char>>,
    Seq<char>,
> {
    match r {
        Ok(titles) => Ok(titles.deep_view()),
        Err(message) => Err(message@),
    }
}

/// The step that prints `lines` and ends the process with `code`.
pub open spec fn leaving(lines: Seq<LineModel>, code: i32) -> StepModel {
    StepModel { banner: false, lines, action: ActionModel::Exit(code) }
}

/// The session over, after a last step that prints `lines`. A command that
/// has run to its end leaves with exit code 0, whatever the service answered.
pub open spec fn closed(session: SessionModel, lines: Seq<LineModel>) -> (
    SessionModel,
    StepModel,
) {
    (SessionModel { base: session.base, phase: Phase::Closed }, leaving(lines, 0))
}

/// The session waiting for `phase`, after a step that prints `lines` and
/// ends in `action`.
pub open spec fn waiting(
    session: SessionModel,
    phase: Phase,
    lines: Seq<LineModel>,
    action: ActionModel,
) -> (SessionModel, StepModel) {
    (SessionModel { base: session.base, phase }, StepModel { banner: false, lines, action })
}

/// What is said of a request that could not be completed.
pub open spec fn failure_line(error: Seq<char>) -> LineModel {
    complaint("[!] Error: "@ + error)
}

/// What is said of an answer whose status is not one of success; `what`
/// names the thing that was tried.
pub open spec fn refusal_line(what: Seq<char>, status: Seq<char>) -> LineModel {
    complaint(what + " (HTTP "@ + status + ")"@)
}

/// What is shown once the body of the answer with the filter was decoded:
/// the filter, or why it could not be read.
pub open spec fn tags_report(read: Result<TagsModel, DecodeFault>) -> Seq<LineModel> {
    match read {
        Ok(tags) => tags_lines(tags),
        Err(fault) => seq![
            complaint("Error: Failed to deserialize response: "@ + fault_message(fault)),
        ],
    }
}

/// What is shown once the body of the answer with the queue was decoded: the
/// queue, or why it could not be read.
pub open spec fn queue_report(read: Result<Seq<Seq<char>>, Seq<char>>) -> Seq<LineModel> {
    match read {
        Ok(queue) => now_playing_lines(queue),
        Err(message) => seq![complaint("Error: Failed to deserialize root response: "@ + message)],
    }
}

/// What is said of the answer to a request that changes something: `done`
/// where the status is one of success, else that `what` failed.
pub open spec fn outcome_line(
    code: u16,
    status: Seq<char>,
    done: Seq<char>,
    what: Seq<char>,
) -> LineModel {
    if succeeded(code) {
        notice(done)
    } else {
        refusal_line(what, status)
    }
}

/// `status` at its start: the banner, and the request for the filter.
pub open spec fn status_opened(base: Seq<char>) -> (SessionModel, StepModel) {
    (
        SessionModel { base, phase: Phase::TagsStatus },
        StepModel {
            banner: true,
            lines: Seq::empty(),
            action: ActionModel::Send(get_of(base + "/tags"@)),
        },
    )
}

/// `skip_item` at its start: a `POST` that declares a body of length zero and
/// carries none.
pub open spec fn skip_opened(base: Seq<char>) -> (SessionModel, StepModel) {
    (
        SessionModel { base, phase: Phase::SkipStatus },
        StepModel {
            banner: false,
            lines: Seq::empty(),
            action: ActionModel::Send(
                post_of(base + "/skip"@, "content-length"@, "0"@, None),
            ),
        },
    )
}

/// `playback` at its start: the filter is shown, then sent as JSON. Where
/// the filter cannot be encoded nothing is sent, and the process is to end
/// with exit code 1.
pub open spec fn playback_opened(base: Seq<char>, tags: TagsModel) -> (SessionModel, StepModel) {
    let echo = notice("[-] TagsData: "@ + described(tags));
    match encoded(tags) {
        Ok(body) => (
            SessionModel { base, phase: Phase::UpdateStatus },
            StepModel {
                banner: false,
                lines: seq![echo],
                action: ActionModel::Send(
                    post_of(base + "/tags"@, "content-type"@, "application/json"@, Some(body)),
                ),
            },
        ),
        Err(message) => (
            SessionModel { base, phase: Phase::Closed },
            leaving(
                seq![echo, complaint("[!!!] Error serializing TagsData to JSON: "@ + message)],
                1,
            ),
        ),
    }
}

/// The session after `event`, and the step that `event` leads to.
///
/// A failure of the transport is reported and ends the session. An answer
/// whose status is not one of success is reported with that status and ends
/// the session. The body with the filter is shown, or the reason why it
/// cannot be read, and the queue is asked for in either case. An event that
/// does not answer what the session asked for ends it without a word.
pub open spec fn advanced(session: SessionModel, event: EventModel) -> (SessionModel, StepModel) {
    match event {
        EventModel::Failed(error) => match session.phase {
            Phase::Closed => closed(session, Seq::empty()),
            _ => closed(session, seq![failure_line(error)]),
        },
        EventModel::Answered { code, status } => match session.phase {
            Phase::TagsStatus => if succeeded(code) {
                waiting(session, Phase::TagsBody, Seq::empty(), ActionModel::ReadBody)
            } else {
                closed(session, seq![refusal_line("Error: Failed to fetch status"@, status)])
            },
            Phase::QueueStatus => if succeeded(code) {
                waiting(session, Phase::QueueBody, Seq::empty(), ActionModel::ReadBody)
            } else {
                closed(session, seq![refusal_line("Error: Failed to fetch root"@, status)])
            },
            Phase::SkipStatus => closed(
                session,
                seq![
                    outcome_line(
                        code,
                        status,
                        "[+] Item skipped successfully."@,
                        "[!] Error: Failed to skip item"@,
                    ),
                ],
            ),
            Phase::UpdateStatus => closed(
                session,
                seq![
                    outcome_line(
                        code,
                        status,
                        "[+] Playback Tags updated successfully."@,
                        "[!] Error: Failed to update tags"@,
                    ),
                ],
            ),
            _ => closed(session, Seq::empty()),
        },
        EventModel::Body(text) => match session.phase {
            Phase::TagsBody => waiting(
                session,
                Phase::QueueStatus,
                tags_report(decoded(text)),
                ActionModel::Send(get_of(session.base + "/"@)),
            ),
            Phase::QueueBody => closed(session, queue_report(json_strings(text))),
            _ => closed(session, Seq::empty()),
        },
    }
}

/// How many events a session that waits for `phase` can take before it is
/// over.
pub open spec fn events_ahead(phase: Phase) -> nat {
    match phase {
        Phase::TagsStatus => 4,
        Phase::TagsBody => 3,
        Phase::QueueStatus => 2,
        Phase::QueueBody => 1,
        Phase::SkipStatus => 1,
        Phase::UpdateStatus => 1,
        Phase::Closed => 0,
    }
}

/// How many requests a session that waits for `phase` can still make.
pub open spec fn requests_ahead(phase: Phase) -> nat {
    match phase {
        Phase::TagsStatus => 1,
        Phase::TagsBody => 1,
        _ => 0,
    }
}

/// Every session comes to its end, and none makes more requests than its
/// command allows. An event leaves the base address alone, takes a session
/// that is not over nearer to its end, and uses up one of the requests ahead
/// where it leads to one. As a session begins with one request, `status`
/// makes two requests at most, one after the other, and `skip_item` and
/// `playback` one.
pub proof fn lemma_sessions_end(session: SessionModel, event: EventModel)
    ensures
        ({
            let (next, step) = advanced(session, event);
            &&& next.base == session.base
            &&& session.phase != Phase::Closed ==> events_ahead(next.phase) < events_ahead(
                session.phase,
            )
            &&& session.phase == Phase::Closed ==> next.phase == Phase::Closed
            &&& step.action is Send ==> requests_ahead(next.phase) < requests_ahead(session.phase)
            &&& requests_ahead(next.phase) <= requests_ahead(session.phase)
        }),
{
}

/// A request that could not be completed ends the session: the failure is
/// reported on standard error, nothing more is asked of the service, and the
/// exit code is 0. So `status` does not ask for the queue when the request
/// for the filter failed.
pub proof fn lemma_failure_ends_session(session: SessionModel, error: Seq<char>)
    requires
        session.phase != Phase::Closed,
    ensures
        advanced(session, EventModel::Failed(error)).0.phase == Phase::Closed,
        advanced(session, EventModel::Failed(error)).1 == leaving(seq![failure_line(error)], 0),
{
}

/// A session asks for something more only in three cases: it reads the body
/// of a successful answer to `status`'s two requests, and it asks for the
/// queue once the body with the filter is there.
pub proof fn lemma_when_a_session_goes_on(session: SessionModel, event: EventModel)
    ensures
        advanced(session, event).1.action is ReadBody <==> (session.phase == Phase::TagsStatus
            || session.phase == Phase::QueueStatus) && (event matches EventModel::Answered {
            code,
            ..
        } && succeeded(code)),
        advanced(session, event).1.action is Send <==> session.phase == Phase::TagsBody
            && event is Body,
        advanced(session, event).1.action is Exit <==> advanced(session, event).0.phase
            == Phase::Closed,
        advanced(session, event).1.action is Exit ==> advanced(session, event).1.action
            == ActionModel::Exit(0),
{
}

/// An answer to `skip_item` or `playback` whose status is not one of success
/// is reported on standard error with that status; the exit code stays 0.
pub proof fn lemma_refusal_is_reported(session: SessionModel, code: u16, status: Seq<char>)
    requires
        !succeeded(code),
        session.phase == Phase::SkipStatus || session.phase == Phase::UpdateStatus,
    ensures
        ({
            let step = advanced(session, EventModel::Answered { code, status }).1;
            &&& step.action == ActionModel::Exit(0)
            &&& step.lines.len() == 1
            &&& step.lines[0].stream == Stream::Stderr
            &&& step.lines[0].text() == (if session.phase == Phase::SkipStatus {
                "[!] Error: Failed to skip item"@
            } else {
                "[!] Error: Failed to update tags"@
            }) + " (HTTP "@ + status + ")"@
        }),
{
    let step = advanced(session, EventModel::Answered { code, status }).1;
    lemma_plain_line_text(step.lines[0].stream, step.lines[0].spans[0].text);
}

/// What is said of an answer whose status is not one of success.
pub fn refuse(what: &str, status: &str) -> (line: Line)
    ensures
        line.deep_view() == refusal_line(what@, status@),
{
    let mut text = what.to_owned();
    text.append(" (HTTP ");
    text.append(status);
    text.append(")");
    complain(text)
}

/// What is said of the answer to a request that changes something.
pub fn report_outcome(code: u16, status: &str, done: &str, what: &str) -> (line: Line)
    ensures
        line.deep_view() == outcome_line(code, status@, done@, what@),
{
    if is_success(code) {
        say(done.to_owned())
    } else {
        refuse(what, status)
    }
}

/// What is shown once the body of the answer with the filter was decoded.
pub fn report_tags(read: Result<TagsData, DecodeError>) -> (lines: Vec<Line>)
    ensures
        lines.deep_view() == tags_report(decoding_model(read)),
{
    match read {
        Ok(tags) => show_tags(&tags),
        Err(error) => only(
            complain(
                joined_text("Error: Failed to deserialize response: ", error.message().as_str()),
            ),
        ),
    }
}

/// What is shown once the body of the answer with the queue was decoded.
pub fn report_queue(read: Result<Vec<String>, String>) -> (lines: Vec<Line>)
    ensures
        lines.deep_view() == queue_report(titles_model(read)),
{
    match read {
        Ok(queue) => show_queue(&queue),
        Err(message) => only(
            complain(joined_text("Error: Failed to deserialize root response: ", message.as_str())),
        ),
    }
}

/// Starts the command that shows the filter in force and the queue.
pub fn status(api_hostname: &str) -> (opening: (Session, Step))
    ensures
        opening_model(opening) == status_opened(api_hostname@),
{
    let session = Session { base: api_hostname.to_owned(), phase: Phase::TagsStatus };
    let request = Request::get(joined_text(api_hostname, "/tags"));
    (session, Step { banner: true, lines: silence(), action: Action::Send(request) })
}

/// Starts the command that skips the current track.
pub fn skip_item(api_hostname: &str) -> (opening: (Session, Step))
    ensures
        opening_model(opening) == skip_opened(api_hostname@),
{
    let session = Session { base: api_hostname.to_owned(), phase: Phase::SkipStatus };
    let request = Request::post(joined_text(api_hostname, "/skip"), "content-length", "0", None);
    (session, Step { banner: false, lines: silence(), action: Action::Send(request) })
}

/// Starts the command that sets the filter.
pub fn playback(api_hostname: &str, tags_data: &TagsData) -> (opening: (Session, Step))
    ensures
        opening_model(opening) == playback_opened(api_hostname@, tags_data.deep_view()),
{
    let echo = say(joined_text("[-] TagsData: ", tags_data.describe().as_str()));
    match tags_data.to_json() {
        Ok(body) => {
            let session = Session { base: api_hostname.to_owned(), phase: Phase::UpdateStatus };
            let request = Request::post(
                joined_text(api_hostname, "/tags"),
                "content-type",
                "application/json",
                Some(body),
            );
            (session, Step { banner: false, lines: only(echo), action: Action::Send(request) })
        },
        Err(message) => {
            let session = Session { base: api_hostname.to_owned(), phase: Phase::Closed };
            let ghost first = echo.deep_view();
            let last = complain(
                joined_text("[!!!] Error serializing TagsData to JSON: ", message.as_str()),
            );
            let ghost second = last.deep_view();
            let lines = followed(only(echo), last);
            assert(lines.deep_view() =~= seq![first, second]);
            (session, Step { banner: false, lines, action: Action::Exit(1) })
        },
    }
}

impl Session {
    /// Ends the session with a last step that prints `lines`.
    fn close(&mut self, lines: Vec<Line>) -> (step: Step)
        ensures
            (final(self).deep_view(), step.deep_view()) == closed(
                old(self).deep_view(),
                lines.deep_view(),
            ),
    {
        self.phase = Phase::Closed;
        Step { banner: false, lines, action: Action::Exit(0) }
    }

    /// Goes on to wait for `phase`, after a step that prints `lines` and ends
    /// in `action`.
    fn wait(&mut self, phase: Phase, lines: Vec<Line>, action: Action) -> (step: Step)
        ensures
            (final(self).deep_view(), step.deep_view()) == waiting(
                old(self).deep_view(),
                phase,
                lines.deep_view(),
                action.deep_view(),
            ),
    {
        self.phase = phase;
        Step { banner: false, lines, action }
    }

    /// Takes what came of the last action and says what follows.
    pub fn advance(&mut self, event: Event) -> (step: Step)
        ensures
            (final(self).deep_view(), step.deep_view()) == advanced(
                old(self).deep_view(),
                event.deep_view(),
            ),
    {
        let phase = self.phase;
        match event {
            Event::Failed(error) => match phase {
                Phase::Closed => self.close(silence()),
                _ => self.close(only(complain(joined_text("[!] Error: ", error.as_str())))),
            },
            Event::Answered { code, status } => match phase {
                Phase::TagsStatus => if is_success(code) {
                    self.wait(Phase::TagsBody, silence(), Action::ReadBody)
                } else {
                    self.close(only(refuse("Error: Failed to fetch status", status.as_str())))
                },
                Phase::QueueStatus => if is_success(code) {
                    self.wait(Phase::QueueBody, silence(), Action::ReadBody)
                } else {
                    self.close(only(refuse("Error: Failed to fetch root", status.as_str())))
                },
                Phase::SkipStatus => self.close(
                    only(
                        report_outcome(
                            code,
                            status.as_str(),
                            "[+] Item skipped successfully.",
                            "[!] Error: Failed to skip item",
                        ),
                    ),
                ),
                Phase::UpdateStatus => self.close(
                    only(
                        report_outcome(
                            code,
                            status.as_str(),
                            "[+] Playback Tags updated successfully.",
                            "[!] Error: Failed to update tags",
                        ),
                    ),
                ),
                _ => self.close(silence()),
            },
            Event::Body(text) => match phase {
                Phase::TagsBody => {
                    let lines = report_tags(TagsData::from_json(text.as_str()));
                    let request = Request::get(joined_text(self.base.as_str(), "/"));
                    self.wait(Phase::QueueStatus, lines, Action::Send(request))
                },
                Phase::QueueBody => self.close(report_queue(read_strings(text.as_str()))),
                _ => self.close(silence()),
            },
        }
    }
}

} // verus!
