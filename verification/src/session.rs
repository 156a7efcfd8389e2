use vstd::prelude::*;
use crate::codec::{b64_decoded, b64_valid, decode_payload, strip_header};
use crate::messages::{
    converting_status, decode_failure_status, invalid_name_status, spec_render_status, StatusKind,
};
use crate::paths::{
    check_file_name, fallback_path, intake_path, output_path, safe_file_name, spec_fallback_path,
    spec_intake_path, spec_output_path,
};
use crate::transcode::{classify_transcode, ffmpeg_args, ffmpeg_program, spec_ffmpeg_args,
    TranscodeOutcome};

verus! {

/// The `file_name` and `video_data` string fields of a structured request,
/// when the text is a JSON object carrying both as strings.
pub uninterp spec fn request_fields_of(s: Seq<char>) -> Option<(Seq<char>, Seq<char>)>;

/// Relies on serde_json::from_str::<serde_json::Value>, serde_json::Value::get
/// and serde_json::Value::as_str: parses a structured request, yielding the
/// `file_name` and `video_data` string fields of the JSON object when the
/// text parses and both fields are present as strings, and nothing otherwise.
/// The result is a function of the text alone.
#[verifier::external_body]
fn parse_request_fields(text: &str) -> (r: Option<(String, String)>)
    ensures
        r matches Some(p) ==> request_fields_of(text@) == Some((p.0@, p.1@)),
        r is None ==> request_fields_of(text@) is None,
{
    let value: serde_json::Value = match serde_json::from_str(text) {
        Ok(v) => v,
        Err(_) => return None,
    };
    let name = match value.get("file_name").and_then(|f| f.as_str()) {
        Some(s) => s.to_string(),
        None => return None,
    };
    let data = match value.get("video_data").and_then(|f| f.as_str()) {
        Some(s) => s.to_string(),
        None => return None,
    };
    Some((name, data))
}

/// Where the per-connection state machine stands. A phase that waits on the
/// outcome of an action carries the request's file name through the cycle.
pub enum Phase {
    /// Awaiting the next inbound message.
    Awaiting,
    /// A raw binary upload is being written to the fallback path.
    StoringRaw,
    /// The decoded payload is being written to the intake path.
    Persisting { file_name: String },
    /// The progress status message is being sent.
    Notifying { file_name: String },
    /// The external transcoder is running.
    Transcoding { file_name: String },
    /// The transcoded output file is being read back.
    Reading { file_name: String },
    /// The transcoded bytes are being sent as a binary message.
    Delivering { file_name: String },
    /// The intake file is being deleted.
    CleanupIntake { file_name: String },
    /// The fixed output file is being deleted.
    CleanupOutput,
    /// A failure status message is being sent.
    Reporting,
    /// The session is over.
    Closed,
}

/// What the connection loop observed: an inbound message, the end of the
/// stream, or the outcome of the action the machine asked for last.
pub enum Event {
    /// An inbound text frame.
    Text { content: String },
    /// An inbound binary frame.
    Binary { bytes: Vec<u8> },
    /// An inbound close signal.
    Close,
    /// The transport failed while awaiting a message.
    StreamError,
    /// The last action succeeded.
    ActionOk,
    /// The last action failed; the diagnostic is for the connection log.
    ActionFailed { diagnostic: String },
    /// The last action was a read and yielded these bytes.
    BytesRead { bytes: Vec<u8> },
    /// The transcoder finished: whether it could be spawned, whether it
    /// exited with a zero status, and its captured standard-error text.
    TranscodeDone { spawned: bool, exit_zero: bool, diagnostic: String },
}

/// What the connection loop must do next.
pub enum Action {
    /// Await the next inbound message.
    Wait,
    /// Create (or truncate) the file at `path`, write `bytes`, flush.
    WriteFile { path: String, bytes: Vec<u8> },
    /// Send a text frame.
    SendText { text: String },
    /// Send a binary frame.
    SendBinary { bytes: Vec<u8> },
    /// Run the external transcoder and wait for it.
    RunTranscode { program: String, args: Vec<String> },
    /// Read the file at `path` fully.
    ReadFile { path: String },
    /// Delete the file at `path`.
    DeleteFile { path: String },
    /// Close the connection.
    Stop,
}

/// Which events can reach the machine in each phase: inbound traffic while
/// awaiting a message, otherwise the outcome of the action it asked for.
pub open spec fn phase_accepts(p: Phase, e: Event) -> bool {
    match p {
        Phase::Awaiting => e is Text || e is Binary || e is Close || e is StreamError,
        Phase::StoringRaw => e is ActionOk || e is ActionFailed,
        Phase::Persisting { .. } => e is ActionOk || e is ActionFailed,
        Phase::Notifying { .. } => e is ActionOk || e is ActionFailed,
        Phase::Transcoding { .. } => e is TranscodeDone,
        Phase::Reading { .. } => e is BytesRead || e is ActionFailed,
        Phase::Delivering { .. } => e is ActionOk || e is ActionFailed,
        Phase::CleanupIntake { .. } => e is ActionOk || e is ActionFailed,
        Phase::CleanupOutput => e is ActionOk || e is ActionFailed,
        Phase::Reporting => e is ActionOk || e is ActionFailed,
        Phase::Closed => true,
    }
}

/// The step into the intake-cleanup phase: delete the request's intake file.
pub open spec fn cleanup_entry_matches(name: Seq<char>, q: Phase, a: Action) -> bool {
    &&& (q matches Phase::CleanupIntake { file_name } && file_name@ == name)
    &&& (a matches Action::DeleteFile { path } && path@ == spec_intake_path(name))
}

/// How the machine answers an inbound text frame: a malformed message is
/// ignored; an unsafe file name and an undecodable payload are answered with
/// an error status; a decodable request starts a cycle by persisting the
/// decoded octets to the intake path.
pub open spec fn text_step_matches(text: Seq<char>, q: Phase, a: Action) -> bool {
    match request_fields_of(text) {
        Option::None => q is Awaiting && a is Wait,
        Option::Some(fields) => {
            if !safe_file_name(fields.0) {
                &&& q is Reporting
                &&& (a matches Action::SendText { text: t } && t@ == spec_render_status(
                    StatusKind::Error,
                    "Invalid file name."@,
                ))
            } else if !b64_valid(strip_header(fields.1)) {
                &&& q is Reporting
                &&& (a matches Action::SendText { text: t } && t@ == spec_render_status(
                    StatusKind::Error,
                    "Failed to decode video data."@,
                ))
            } else {
                &&& (q matches Phase::Persisting { file_name } && file_name@ == fields.0)
                &&& (a matches Action::WriteFile { path, bytes } && path@ == spec_intake_path(
                    fields.0,
                ) && bytes@ == b64_decoded(strip_header(fields.1)))
            }
        },
    }
}

/// The transition relation of the session protocol, for the events that the
/// phase accepts: the next phase and the action issued on entering it.
pub open spec fn step_matches(p: Phase, e: Event, q: Phase, a: Action) -> bool {
    match p {
        Phase::Awaiting => match e {
            Event::Text { content } => text_step_matches(content@, q, a),
            Event::Binary { bytes } => {
                &&& q is StoringRaw
                &&& (a matches Action::WriteFile { path, bytes: b } && path@
                    == spec_fallback_path() && b@ == bytes@)
            },
            Event::Close => q is Closed && a is Stop,
            Event::StreamError => q is Closed && a is Stop,
            _ => false,
        },
        Phase::StoringRaw => q is Awaiting && a is Wait,
        Phase::Persisting { file_name } => match e {
            Event::ActionOk => {
                &&& (q matches Phase::Notifying { file_name: m } && m@ == file_name@)
                &&& (a matches Action::SendText { text } && text@ == spec_render_status(
                    StatusKind::Success,
                    "Converting video to HEVC"@,
                ))
            },
            _ => q is Awaiting && a is Wait,
        },
        Phase::Notifying { file_name } => match e {
            Event::ActionOk => {
                &&& (q matches Phase::Transcoding { file_name: m } && m@ == file_name@)
                &&& (a matches Action::RunTranscode { program, args } && program@ == "ffmpeg"@
                    && args@.map_values(|s: String| s@) == spec_ffmpeg_args(
                    spec_intake_path(file_name@),
                    spec_output_path(),
                ))
            },
            _ => q is Awaiting && a is Wait,
        },
        Phase::Transcoding { file_name } => match e {
            Event::TranscodeDone { spawned, exit_zero, diagnostic } => {
                if spawned && exit_zero {
                    &&& (q matches Phase::Reading { file_name: m } && m@ == file_name@)
                    &&& (a matches Action::ReadFile { path } && path@ == spec_output_path())
                } else {
                    cleanup_entry_matches(file_name@, q, a)
                }
            },
            _ => false,
        },
        Phase::Reading { file_name } => match e {
            Event::BytesRead { bytes } => {
                &&& (q matches Phase::Delivering { file_name: m } && m@ == file_name@)
                &&& (a matches Action::SendBinary { bytes: b } && b@ == bytes@)
            },
            _ => cleanup_entry_matches(file_name@, q, a),
        },
        Phase::Delivering { file_name } => cleanup_entry_matches(file_name@, q, a),
        Phase::CleanupIntake { .. } => {
            &&& q is CleanupOutput
            &&& (a matches Action::DeleteFile { path } && path@ == spec_output_path())
        },
        Phase::CleanupOutput => q is Awaiting && a is Wait,
        Phase::Reporting => q is Awaiting && a is Wait,
        Phase::Closed => q is Closed && a is Stop,
    }
}

/// A per-request failure never ends the session: a step out of a live phase
/// reaches `Closed` exactly when a close signal or a transport failure
/// arrives while the machine awaits a message. In particular the session
/// stays open, and returns to awaiting the next request, after every
/// transcode failure.
pub proof fn lemma_failure_keeps_session_open(p: Phase, e: Event, q: Phase, a: Action)
    requires
        phase_accepts(p, e),
        step_matches(p, e, q, a),
        !(p is Closed),
    ensures
        q is Closed <==> (p is Awaiting && (e is Close || e is StreamError)),
{
}

/// The file name whose intake file the machine still has to delete: set once
/// a request has reached the transcode step, cleared when the deletion of
/// the intake file is issued.
pub open spec fn owes_intake_cleanup(p: Phase) -> Option<Seq<char>> {
    match p {
        Phase::Transcoding { file_name } => Some(file_name@),
        Phase::Reading { file_name } => Some(file_name@),
        Phase::Delivering { file_name } => Some(file_name@),
        _ => None,
    }
}

/// Cleanup invariant: once a request has reached the transcode step, every
/// step of the machine either still owes the deletion of that request's
/// intake file or issues it right now, on the way into the cleanup phases —
/// whatever the outcome of the transcode, the read-back, or the delivery.
pub proof fn lemma_intake_cleanup(p: Phase, e: Event, q: Phase, a: Action, name: Seq<char>)
    requires
        phase_accepts(p, e),
        step_matches(p, e, q, a),
        owes_intake_cleanup(p) == Some(name),
    ensures
        owes_intake_cleanup(q) == Some(name) || cleanup_entry_matches(name, q, a),
{
}

/// A finite run of the machine out of `p0`: step `k` consumes `events[k]`,
/// which the phase before it accepts, and moves to `phases[k]` issuing
/// `actions[k]`.
pub open spec fn is_run(
    p0: Phase,
    events: Seq<Event>,
    phases: Seq<Phase>,
    actions: Seq<Action>,
) -> bool {
    &&& phases.len() == events.len()
    &&& actions.len() == events.len()
    &&& forall|k: int|
        0 <= k < events.len() ==> {
            let prev = if k == 0 {
                p0
            } else {
                phases[k - 1]
            };
            phase_accepts(prev, #[trigger] events[k]) && step_matches(
                prev,
                events[k],
                phases[k],
                actions[k],
            )
        }
}

/// Cleanup invariant over whole runs: whenever a request has reached the
/// transcode step and any run of the machine brings it back to awaiting the
/// next message, some step of that run issued the deletion of the request's
/// intake file — whatever failed in between.
pub proof fn lemma_run_cleans_intake(
    p0: Phase,
    events: Seq<Event>,
    phases: Seq<Phase>,
    actions: Seq<Action>,
    name: Seq<char>,
)
    requires
        is_run(p0, events, phases, actions),
        owes_intake_cleanup(p0) == Some(name),
        events.len() > 0,
        phases.last() is Awaiting,
    ensures
        exists|k: int|
            0 <= k < actions.len() && (#[trigger] actions[k] matches Action::DeleteFile { path }
                && path@ == spec_intake_path(name)),
    decreases events.len(),
{
    let q = phases[0];
    let a = actions[0];
    lemma_intake_cleanup(p0, events[0], q, a, name);
    if cleanup_entry_matches(name, q, a) {
        assert(actions[0] matches Action::DeleteFile { path } && path@ == spec_intake_path(name));
    } else {
        assert(owes_intake_cleanup(q) == Some(name));
        assert(!(q is Awaiting));
        assert(events.len() > 1);
        let tail_events = events.skip(1);
        let tail_phases = phases.skip(1);
        let tail_actions = actions.skip(1);
        assert(is_run(q, tail_events, tail_phases, tail_actions)) by {
            assert(forall|k: int|
                0 <= k < tail_events.len() ==> tail_events[k] == events[k + 1]
                    && tail_phases[k] == phases[k + 1] && tail_actions[k] == actions[k + 1]);
            assert(forall|k: int| 1 <= k < tail_phases.len() ==> tail_phases[k - 1] == phases[k]);
        }
        assert(tail_phases.last() == phases.last());
        lemma_run_cleans_intake(q, tail_events, tail_phases, tail_actions, name);
        let j = choose|j: int|
            0 <= j < tail_actions.len() && (#[trigger] tail_actions[j] matches Action::DeleteFile {
                path,
            } && path@ == spec_intake_path(name));
        assert(actions[j + 1] == tail_actions[j]);
        assert(actions[j + 1] matches Action::DeleteFile { path } && path@ == spec_intake_path(
            name,
        ));
    }
}

/// After the intake file's deletion, the machine deletes the fixed output
/// file and only then awaits the next message, so both temporary artifacts
/// of a cycle have their deletion issued before the next request is read.
pub proof fn lemma_output_cleanup(p: Phase, e: Event, q: Phase, a: Action)
    requires
        phase_accepts(p, e),
        step_matches(p, e, q, a),
        p is CleanupIntake,
    ensures
        q is CleanupOutput,
        a matches Action::DeleteFile { path } && path@ == spec_output_path(),
{
}

/// How far a request cycle has left to run; zero exactly when the machine
/// awaits a message or is closed.
pub open spec fn phase_rank(p: Phase) -> nat {
    match p {
        Phase::Awaiting => 0,
        Phase::Closed => 0,
        Phase::StoringRaw => 1,
        Phase::Reporting => 1,
        Phase::CleanupOutput => 1,
        Phase::CleanupIntake { .. } => 2,
        Phase::Delivering { .. } => 3,
        Phase::Reading { .. } => 4,
        Phase::Transcoding { .. } => 5,
        Phase::Notifying { .. } => 6,
        Phase::Persisting { .. } => 7,
    }
}

/// Every request cycle runs to completion: from any mid-cycle phase a step
/// strictly lowers the remaining rank and never closes the session, so the
/// machine is back at `Awaiting` after at most the rank's worth of steps.
/// One request is processed to full completion, cleanup included, before the
/// next inbound message is read.
pub proof fn lemma_cycle_progress(p: Phase, e: Event, q: Phase, a: Action)
    requires
        phase_accepts(p, e),
        step_matches(p, e, q, a),
        !(p is Awaiting),
        !(p is Closed),
    ensures
        phase_rank(q) < phase_rank(p),
        !(q is Closed),
{
}

/// Completion over whole runs: from any mid-cycle phase, a run of at least
/// the phase's rank's worth of steps passes through `Awaiting`. Since only
/// `Awaiting` accepts inbound messages, one request is processed to full
/// completion before the next message can start a cycle.
pub proof fn lemma_run_completes_cycle(
    p0: Phase,
    events: Seq<Event>,
    phases: Seq<Phase>,
    actions: Seq<Action>,
)
    requires
        is_run(p0, events, phases, actions),
        !(p0 is Awaiting),
        !(p0 is Closed),
        events.len() >= phase_rank(p0),
    ensures
        exists|k: int| 0 <= k < phases.len() && (#[trigger] phases[k]) is Awaiting,
    decreases events.len(),
{
    let q = phases[0];
    lemma_cycle_progress(p0, events[0], q, actions[0]);
    if q is Awaiting {
        assert(phases[0] is Awaiting);
    } else {
        let tail_events = events.skip(1);
        let tail_phases = phases.skip(1);
        let tail_actions = actions.skip(1);
        assert(is_run(q, tail_events, tail_phases, tail_actions)) by {
            assert(forall|k: int|
                0 <= k < tail_events.len() ==> tail_events[k] == events[k + 1]
                    && tail_phases[k] == phases[k + 1] && tail_actions[k] == actions[k + 1]);
            assert(forall|k: int| 1 <= k < tail_phases.len() ==> tail_phases[k - 1] == phases[k]);
        }
        lemma_run_completes_cycle(q, tail_events, tail_phases, tail_actions);
        let j = choose|j: int| 0 <= j < tail_phases.len() && (#[trigger] tail_phases[j]) is Awaiting;
        assert(phases[j + 1] == tail_phases[j]);
    }
}

/// Ordering of a cycle's externally visible work: the transcoder is launched
/// only right after the progress notification went out, the output file is
/// read back only right after a spawned transcoder exited with a zero
/// status, and a binary frame is delivered only right after that read.
pub proof fn lemma_cycle_ordering(p: Phase, e: Event, q: Phase, a: Action)
    requires
        phase_accepts(p, e),
        step_matches(p, e, q, a),
    ensures
        a is RunTranscode ==> p is Notifying && e is ActionOk,
        a is ReadFile ==> (p is Transcoding && (e matches Event::TranscodeDone {
            spawned,
            exit_zero,
            ..
        } && spawned && exit_zero)),
        a is SendBinary ==> p is Reading && e is BytesRead,
{
}

/// A structured request leads to a write action only when its file name is
/// safe and its payload decodes; a request whose payload fails to decode is
/// answered with an error status and leaves nothing to be written to disk.
pub proof fn lemma_no_write_without_decode(content: String, q: Phase, a: Action)
    requires
        text_step_matches(content@, q, a),
    ensures
        a is WriteFile ==> (request_fields_of(content@) matches Some(fields)
            && safe_file_name(fields.0) && b64_valid(strip_header(fields.1))),
{
}

/// Handles an inbound text frame.
fn step_text(content: String) -> (r: (Phase, Action))
    ensures
        text_step_matches(content@, r.0, r.1),
{
    match parse_request_fields(content.as_str()) {
        Option::None => (Phase::Awaiting, Action::Wait),
        Option::Some((name, data)) => {
            if !check_file_name(name.as_str()) {
                (Phase::Reporting, Action::SendText { text: invalid_name_status() })
            } else {
                match decode_payload(data.as_str()) {
                    Ok(bytes) => {
                        let path = intake_path(name.as_str());
                        (Phase::Persisting { file_name: name }, Action::WriteFile { path, bytes })
                    },
                    Err(_) => (Phase::Reporting, Action::SendText {
                        text: decode_failure_status(),
                    }),
                }
            }
        },
    }
}

/// Advances the per-connection state machine by one event: returns the next
/// phase and the one action the connection loop must perform before it hands
/// back the action's outcome (or, after `Wait`, the next inbound message).
pub fn step(phase: Phase, event: Event) -> (r: (Phase, Action))
    requires
        phase_accepts(phase, event),
    ensures
        step_matches(phase, event, r.0, r.1),
{
    match (phase, event) {
        (Phase::Awaiting, Event::Text { content }) => step_text(content),
        (Phase::Awaiting, Event::Binary { bytes }) => (
            Phase::StoringRaw,
            Action::WriteFile { path: fallback_path(), bytes },
        ),
        (Phase::Awaiting, Event::Close) => (Phase::Closed, Action::Stop),
        (Phase::Awaiting, Event::StreamError) => (Phase::Closed, Action::Stop),
        (Phase::StoringRaw, _) => (Phase::Awaiting, Action::Wait),
        (Phase::Persisting { file_name }, Event::ActionOk) => (
            Phase::Notifying { file_name },
            Action::SendText { text: converting_status() },
        ),
        (Phase::Persisting { .. }, _) => (Phase::Awaiting, Action::Wait),
        (Phase::Notifying { file_name }, Event::ActionOk) => {
            let input = intake_path(file_name.as_str());
            let out = output_path();
            let args = ffmpeg_args(input.as_str(), out.as_str());
            (Phase::Transcoding { file_name }, Action::RunTranscode {
                program: ffmpeg_program(),
                args,
            })
        },
        (Phase::Notifying { .. }, _) => (Phase::Awaiting, Action::Wait),
        (
            Phase::Transcoding { file_name },
            Event::TranscodeDone { spawned, exit_zero, diagnostic },
        ) => {
            match classify_transcode(spawned, exit_zero, diagnostic) {
                TranscodeOutcome::Success { output_path: p } => (
                    Phase::Reading { file_name },
                    Action::ReadFile { path: p },
                ),
                TranscodeOutcome::Failure { .. } => {
                    let path = intake_path(file_name.as_str());
                    (Phase::CleanupIntake { file_name }, Action::DeleteFile { path })
                },
            }
        },
        (Phase::Reading { file_name }, Event::BytesRead { bytes }) => (
            Phase::Delivering { file_name },
            Action::SendBinary { bytes },
        ),
        (Phase::Reading { file_name }, _) => {
            let path = intake_path(file_name.as_str());
            (Phase::CleanupIntake { file_name }, Action::DeleteFile { path })
        },
        (Phase::Delivering { file_name }, _) => {
            let path = intake_path(file_name.as_str());
            (Phase::CleanupIntake { file_name }, Action::DeleteFile { path })
        },
        (Phase::CleanupIntake { .. }, _) => (
            Phase::CleanupOutput,
            Action::DeleteFile { path: output_path() },
        ),
        (Phase::CleanupOutput, _) => (Phase::Awaiting, Action::Wait),
        (Phase::Reporting, _) => (Phase::Awaiting, Action::Wait),
        (Phase::Closed, _) => (Phase::Closed, Action::Stop),
        _ => {
            proof {
                assert(false);
            }
            (Phase::Closed, Action::Stop)
        },
    }
}

} // verus!

