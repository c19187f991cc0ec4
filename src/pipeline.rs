//! One build, from source to stored metadata, as a state machine. The caller
//! performs each `Action` that the machine asks for (fetching the source,
//! reading the manifest, running the build tool, storing the record, sending
//! events to the client) and hands back what came of it as an `Outcome`.

use crate::hashing::{content_hash, program_hash};
use crate::metadata::{extract_metadata, opt_view, settings_of, EntropyProgramMetadata, JsonValue};
use crate::output::{
    append_tail, decode_text, is_unique_artifact, is_wasm_name, lemma_tail_of_append, locate_artifact, tail_of,
};
use vstd::pervasive::unreached;
use vstd::prelude::*;
use vstd::string::*;
use vstd::utf8::{decode_utf8, valid_utf8};

verus! {

/// Where the source of a program to build comes from.
pub enum BuildRequestType {
    /// A git repository, cloned at depth one.
    Git { url: String },
    /// The bytes of a tar archive.
    Tar { raw_archive: Vec<u8> },
}

/// An event of the response stream that a client receives for its build.
pub enum BuildResponse {
    /// Text that the build tool wrote on standard output.
    StdOut(String),
    /// Text that the build tool wrote on standard error.
    StdErr(String),
    /// The last event of a successful build: the program's hash, its binary and
    /// the binary's file name.
    Success { hash: [u8; 32], binary: Vec<u8>, binary_filename: String },
}

/// Why a build failed. Each carries the detail that explains it, where there
/// is one.
pub enum BuildError {
    /// The source could not be cloned or unpacked.
    FetchFailed(String),
    /// The source has no manifest, or the manifest has no root package.
    MetadataMissingRootPackage,
    /// The manifest could not be read.
    MetadataParseFailure(String),
    /// The build tool could not be started, or its output could not be read.
    InvocationFailed(String),
    /// The build tool failed; the detail is the tail of its error output.
    CompilationFailed(String),
    /// The output directory does not hold exactly one `.wasm` file, or it
    /// could not be read.
    ArtifactNotFound,
    /// The record could not be written to the store.
    StorageFailure(String),
}

/// One of the two output streams of the build tool.
pub enum OutputStream {
    StdOut,
    StdErr,
}

/// What reading the manifest gave.
pub enum ManifestOutcome {
    /// The root package: its record as it is to be stored, and its metadata.
    Found { record: String, metadata: JsonValue },
    /// There is no manifest, or it names no root package.
    MissingRootPackage,
    /// The manifest could not be read.
    Unreadable(String),
}

/// What came of an action, handed back to the session.
pub enum Outcome {
    /// The source was fetched into the working directory, or why not.
    Fetched(Result<(), String>),
    ManifestRead(ManifestOutcome),
    /// The build tool was started with both output streams, or why not; on
    /// failure no build tool is left running.
    BuildStarted(Result<(), String>),
    /// One read from an output stream; empty at the end of the stream. A
    /// failed read ends the stream too.
    OutputRead(OutputStream, Result<Vec<u8>, String>),
    /// Whether an event reached the client's channel.
    Delivered(bool),
    /// Whether the build tool exited with success, or why its exit could not
    /// be awaited.
    Exited(Result<bool, String>),
    /// The build tool was stopped and has exited.
    Stopped,
    /// The names of the files in the output directory.
    OutputListed(Result<Vec<String>, String>),
    ArtifactRead(Result<Vec<u8>, String>),
    Committed(Result<(), String>),
}

/// What the session asks its caller to do next.
pub enum Action {
    CloneRepository { url: String },
    UnpackArchive { raw_archive: Vec<u8> },
    /// Read the manifest at the root of the working directory.
    ReadManifest,
    /// Run the build tool with these arguments besides the output directory
    /// and the source directory.
    StartBuild { build_args: Vec<String> },
    /// Read from whichever of the streams that are still open has output.
    ReadOutput { stdout: bool, stderr: bool },
    /// Send this event to the client without waiting.
    Forward(BuildResponse),
    AwaitExit,
    /// Stop the build tool and wait until it has exited.
    StopBuild,
    /// List the names of the files in the output directory.
    ListOutput,
    ReadArtifact { file_name: String },
    /// Store `record` under `hash`, overwriting what is there.
    Commit { hash: [u8; 32], record: String },
    /// Send this last event to the client, then close its channel.
    Report(Result<BuildResponse, BuildError>),
    /// The build is over.
    Finish,
}

/// The manifest as the build uses it.
pub struct Manifest {
    pub record: String,
    pub settings: EntropyProgramMetadata,
}

/// The state of the loop that drains the build tool's output.
pub struct StreamState {
    pub stdout_open: bool,
    pub stderr_open: bool,
    /// Whether output is still sent to the client; it stops for good at the
    /// first chunk that the client's channel does not take.
    pub forwarding: bool,
    pub stderr_tail: String,
}

/// The stages of a build, in order; any of them can end in a report of failure.
pub enum Stage {
    Fetching,
    ReadingManifest,
    Starting(Manifest),
    Streaming(Manifest, StreamState),
    /// A chunk of output is on its way to the client.
    Forwarding(Manifest, StreamState),
    Exiting(Manifest, String),
    /// The build tool is being stopped, after its exit could not be awaited.
    Stopping(String),
    Locating(Manifest),
    Reading(Manifest, String),
    Committing { manifest: Manifest, binary_filename: String, hash: [u8; 32], binary: Vec<u8> },
    /// The last event is on its way to the client.
    Reporting,
    Finished,
}

/// An event of the response stream, or the error that ends it.
pub type Event = Result<BuildResponse, BuildError>;

/// Whether an event ends the response stream.
pub open spec fn is_terminal(e: Event) -> bool {
    match e {
        Ok(BuildResponse::Success { .. }) => true,
        Ok(_) => false,
        Err(_) => true,
    }
}

/// Whether no event of `s` ends the stream.
pub open spec fn all_chunks(s: Seq<Event>) -> bool {
    forall|i: int| 0 <= i < s.len() ==> !is_terminal(#[trigger] s[i])
}

/// The number of events of `s` that end the stream.
pub open spec fn terminal_count(s: Seq<Event>) -> nat
    decreases s.len(),
{
    if s.len() == 0 {
        0
    } else {
        terminal_count(s.drop_last()) + if is_terminal(s.last()) {
            1nat
        } else {
            0nat
        }
    }
}

/// What the store received, given the event that ended the stream: a success
/// follows the one write of its hash, a storage failure follows one attempted
/// write, and any other failure follows no write at all.
pub open spec fn commits_agree(t: Event, commits: Seq<(Seq<u8>, Seq<char>)>) -> bool {
    match t {
        Ok(BuildResponse::Success { hash, .. }) => commits.len() == 1 && commits[0].0 == hash@,
        Ok(_) => false,
        Err(BuildError::StorageFailure(_)) => commits.len() == 1,
        Err(_) => commits.len() == 0,
    }
}

/// The arguments that pass a build image to the build tool, where one is set.
pub open spec fn build_args_for(image: Option<Seq<char>>) -> Seq<Seq<char>> {
    match image {
        Some(i) => seq!["--build-arg"@, "IMAGE="@ + i],
        None => Seq::empty(),
    }
}

/// The arguments that pass a build image to the build tool.
pub fn build_args(image: &Option<String>) -> (r: Vec<String>)
    ensures
        r@.map_values(|a: String| a@) == build_args_for(opt_view(*image)),
{
    let mut args: Vec<String> = Vec::new();
    if let Some(i) = image {
        args.push(String::from_str("--build-arg"));
        args.push(String::from_str("IMAGE=").concat(i.as_str()));
    }
    assert(args@.map_values(|a: String| a@) =~= build_args_for(opt_view(*image)));
    args
}

/// The action that reads on from the streams that are still open.
pub open spec fn read_action(st: StreamState) -> Action {
    Action::ReadOutput { stdout: st.stdout_open, stderr: st.stderr_open }
}

/// Ends the build with the event `t`.
pub open spec fn reports(new: Stage, action: Action, t: Event) -> bool {
    new == Stage::Reporting && action == Action::Report(t)
}

/// A step of the output loop on a read of `bytes` from stream `which`.
pub open spec fn streaming_step(
    m: Manifest,
    st: StreamState,
    which: OutputStream,
    bytes: Seq<u8>,
    new: Stage,
    action: Action,
) -> bool {
    if bytes.len() == 0 {
        let st2 = StreamState {
            stdout_open: st.stdout_open && which != OutputStream::StdOut,
            stderr_open: st.stderr_open && which != OutputStream::StdErr,
            forwarding: st.forwarding,
            stderr_tail: st.stderr_tail,
        };
        if !st2.stdout_open && !st2.stderr_open {
            new == Stage::Exiting(m, st.stderr_tail) && action == Action::AwaitExit
        } else {
            new == Stage::Streaming(m, st2) && action == read_action(st2)
        }
    } else if !valid_utf8(bytes) {
        new == Stage::Streaming(m, st) && action == read_action(st)
    } else {
        let text = decode_utf8(bytes);
        let tail = if which == OutputStream::StdErr {
            tail_of(st.stderr_tail@ + text)
        } else {
            st.stderr_tail@
        };
        let same = |st2: StreamState|
            st2.stdout_open == st.stdout_open && st2.stderr_open == st.stderr_open
                && st2.forwarding == st.forwarding && st2.stderr_tail@ == tail;
        match new {
            Stage::Forwarding(m2, st2) => st.forwarding && m2 == m && same(st2) && match action {
                Action::Forward(BuildResponse::StdOut(t)) => which == OutputStream::StdOut && t@ == text,
                Action::Forward(BuildResponse::StdErr(t)) => which == OutputStream::StdErr && t@ == text,
                _ => false,
            },
            Stage::Streaming(m2, st2) => !st.forwarding && m2 == m && same(st2) && action == read_action(st),
            _ => false,
        }
    }
}

/// What a step of a session does with `outcome` in stage `old`: the stage
/// `new` that follows and the `action` that it asks for.
pub open spec fn transition(old: Stage, outcome: Outcome, new: Stage, action: Action) -> bool {
    match old {
        Stage::Fetching => match outcome {
            Outcome::Fetched(Ok(_)) => new == Stage::ReadingManifest && action == Action::ReadManifest,
            Outcome::Fetched(Err(d)) => reports(new, action, Err(BuildError::FetchFailed(d))),
            _ => false,
        },
        Stage::ReadingManifest => match outcome {
            Outcome::ManifestRead(ManifestOutcome::Found { record, metadata }) => match new {
                Stage::Starting(m) => m.record == record && settings_of(m.settings, metadata) && match action {
                    Action::StartBuild { build_args } => build_args@.map_values(|a: String| a@)
                        == build_args_for(opt_view(m.settings.docker_image)),
                    _ => false,
                },
                _ => false,
            },
            Outcome::ManifestRead(ManifestOutcome::MissingRootPackage) => reports(
                new,
                action,
                Err(BuildError::MetadataMissingRootPackage),
            ),
            Outcome::ManifestRead(ManifestOutcome::Unreadable(d)) => reports(
                new,
                action,
                Err(BuildError::MetadataParseFailure(d)),
            ),
            _ => false,
        },
        Stage::Starting(m) => match outcome {
            Outcome::BuildStarted(Ok(_)) => match new {
                Stage::Streaming(m2, st) => m2 == m && st.stdout_open && st.stderr_open && st.forwarding
                    && st.stderr_tail@ == Seq::<char>::empty() && action == read_action(st),
                _ => false,
            },
            Outcome::BuildStarted(Err(d)) => reports(new, action, Err(BuildError::InvocationFailed(d))),
            _ => false,
        },
        Stage::Streaming(m, st) => match outcome {
            Outcome::OutputRead(which, Ok(bytes)) => streaming_step(m, st, which, bytes@, new, action),
            Outcome::OutputRead(which, Err(_)) => streaming_step(m, st, which, Seq::empty(), new, action),
            _ => false,
        },
        Stage::Forwarding(m, st) => match outcome {
            Outcome::Delivered(ok) => {
                let st2 = StreamState {
                    stdout_open: st.stdout_open,
                    stderr_open: st.stderr_open,
                    forwarding: st.forwarding && ok,
                    stderr_tail: st.stderr_tail,
                };
                new == Stage::Streaming(m, st2) && action == read_action(st2)
            },
            _ => false,
        },
        Stage::Exiting(m, tail) => match outcome {
            Outcome::Exited(Ok(true)) => new == Stage::Locating(m) && action == Action::ListOutput,
            Outcome::Exited(Ok(false)) => reports(new, action, Err(BuildError::CompilationFailed(tail))),
            Outcome::Exited(Err(d)) => new == Stage::Stopping(d) && action == Action::StopBuild,
            _ => false,
        },
        Stage::Stopping(d) => match outcome {
            Outcome::Stopped => reports(new, action, Err(BuildError::InvocationFailed(d))),
            _ => false,
        },
        Stage::Locating(m) => match outcome {
            Outcome::OutputListed(Ok(names)) => if exists|i: int| is_unique_artifact(names@, i) {
                let i = choose|i: int| is_unique_artifact(names@, i);
                new == Stage::Reading(m, names@[i]) && action == Action::ReadArtifact { file_name: names@[i] }
            } else {
                reports(new, action, Err(BuildError::ArtifactNotFound))
            },
            Outcome::OutputListed(Err(_)) => reports(new, action, Err(BuildError::ArtifactNotFound)),
            _ => false,
        },
        Stage::Reading(m, name) => match outcome {
            Outcome::ArtifactRead(Ok(binary)) => match new {
                Stage::Committing { manifest, binary_filename, hash, binary: b } => manifest == m
                    && binary_filename == name && b == binary && hash@ == content_hash(binary@, m.settings)
                    && action == Action::Commit { hash, record: m.record },
                _ => false,
            },
            Outcome::ArtifactRead(Err(_)) => reports(new, action, Err(BuildError::ArtifactNotFound)),
            _ => false,
        },
        Stage::Committing { manifest, binary_filename, hash, binary } => match outcome {
            Outcome::Committed(Ok(_)) => reports(
                new,
                action,
                Ok(BuildResponse::Success { hash, binary, binary_filename }),
            ),
            Outcome::Committed(Err(d)) => reports(new, action, Err(BuildError::StorageFailure(d))),
            _ => false,
        },
        Stage::Reporting => match outcome {
            Outcome::Delivered(_) => new == Stage::Finished && action == Action::Finish,
            _ => false,
        },
        Stage::Finished => false,
    }
}

/// Whether a session in stage `stage` takes `outcome`: it answers the action
/// that the session last asked for.
pub open spec fn accepts_outcome(stage: Stage, outcome: Outcome) -> bool {
    match stage {
        Stage::Fetching => outcome is Fetched,
        Stage::ReadingManifest => outcome is ManifestRead,
        Stage::Starting(_) => outcome is BuildStarted,
        Stage::Streaming(_, st) => match outcome {
            Outcome::OutputRead(OutputStream::StdOut, _) => st.stdout_open,
            Outcome::OutputRead(OutputStream::StdErr, _) => st.stderr_open,
            _ => false,
        },
        Stage::Forwarding(..) => outcome is Delivered,
        Stage::Exiting(..) => outcome is Exited,
        Stage::Stopping(_) => outcome is Stopped,
        Stage::Locating(_) => outcome is OutputListed,
        Stage::Reading(..) => outcome is ArtifactRead,
        Stage::Committing { .. } => outcome is Committed,
        Stage::Reporting => outcome is Delivered,
        Stage::Finished => false,
    }
}

/// The build of one request.
pub struct BuildSession {
    stage: Stage,
    /// The events sent to the client so far, the one in flight included.
    sent: Ghost<Seq<Event>>,
    /// The writes asked of the store so far: hash and record.
    commits: Ghost<Seq<(Seq<u8>, Seq<char>)>>,
    /// The text of the build tool's error output so far, where it decoded.
    stderr_text: Ghost<Seq<char>>,
}

impl BuildSession {
    pub closed spec fn stage(&self) -> Stage {
        self.stage
    }

    /// The events that the session has had sent to the client.
    pub closed spec fn sent(&self) -> Seq<Event> {
        self.sent@
    }

    /// The writes that the session has asked of the store: hash and record.
    pub closed spec fn commits(&self) -> Seq<(Seq<u8>, Seq<char>)> {
        self.commits@
    }

    /// The text of the build tool's error output so far: the chunks that
    /// decoded as UTF-8, in order.
    pub closed spec fn stderr_output(&self) -> Seq<char> {
        self.stderr_text@
    }

    pub open spec fn is_finished(&self) -> bool {
        self.stage() is Finished
    }

    /// Whether the event that ends the stream has been sent.
    pub open spec fn has_reported(&self) -> bool {
        self.stage() is Reporting || self.stage() is Finished
    }

    /// The session's invariant: no event before the last one ends the stream,
    /// the store is written at most once, and never before the hash of a fully
    /// read artifact is known.
    pub closed spec fn wf(&self) -> bool {
        let s = self.sent@;
        let c = self.commits@;
        let e = self.stderr_text@;
        match self.stage {
            Stage::Fetching | Stage::ReadingManifest => s.len() == 0 && c.len() == 0 && e.len() == 0,
            Stage::Starting(_) => all_chunks(s) && c.len() == 0 && e.len() == 0,
            Stage::Exiting(_, tail) => all_chunks(s) && c.len() == 0 && tail@ == tail_of(e),
            Stage::Locating(_) | Stage::Reading(..) | Stage::Stopping(_) => all_chunks(s) && c.len() == 0,
            Stage::Streaming(_, st) | Stage::Forwarding(_, st) => all_chunks(s) && c.len() == 0 && (
            st.stdout_open || st.stderr_open) && st.stderr_tail@ == tail_of(e),
            Stage::Committing { manifest, hash, binary, .. } => all_chunks(s) && c.len() == 1 && c[0].0
                == hash@ && hash@ == content_hash(binary@, manifest.settings),
            Stage::Reporting | Stage::Finished => s.len() > 0 && all_chunks(s.drop_last()) && is_terminal(
                s.last(),
            ) && commits_agree(s.last(), c),
        }
    }

    /// Starts the build of a request: the first action fetches its source.
    pub fn new(request_type: BuildRequestType) -> (r: (BuildSession, Action))
        ensures
            r.0.wf(),
            r.0.stage() == Stage::Fetching,
            r.0.sent().len() == 0,
            r.0.commits().len() == 0,
            match request_type {
                BuildRequestType::Git { url } => r.1 == Action::CloneRepository { url },
                BuildRequestType::Tar { raw_archive } => r.1 == Action::UnpackArchive { raw_archive },
            },
    {
        let session = BuildSession {
            stage: Stage::Fetching,
            sent: Ghost(Seq::empty()),
            commits: Ghost(Seq::empty()),
            stderr_text: Ghost(Seq::empty()),
        };
        let action = match request_type {
            BuildRequestType::Git { url } => Action::CloneRepository { url },
            BuildRequestType::Tar { raw_archive } => Action::UnpackArchive { raw_archive },
        };
        (session, action)
    }

    /// Whether the session takes `outcome` in its present stage.
    pub fn accepts(&self, outcome: &Outcome) -> (r: bool)
        ensures
            r == accepts_outcome(self.stage(), *outcome),
    {
        match &self.stage {
            Stage::Fetching => matches!(outcome, Outcome::Fetched(..)),
            Stage::ReadingManifest => matches!(outcome, Outcome::ManifestRead(..)),
            Stage::Starting(_) => matches!(outcome, Outcome::BuildStarted(..)),
            Stage::Streaming(_, st) => match outcome {
                Outcome::OutputRead(OutputStream::StdOut, _) => st.stdout_open,
                Outcome::OutputRead(OutputStream::StdErr, _) => st.stderr_open,
                _ => false,
            },
            Stage::Forwarding(..) => matches!(outcome, Outcome::Delivered(..)),
            Stage::Exiting(..) => matches!(outcome, Outcome::Exited(..)),
            Stage::Stopping(_) => matches!(outcome, Outcome::Stopped),
            Stage::Locating(_) => matches!(outcome, Outcome::OutputListed(..)),
            Stage::Reading(..) => matches!(outcome, Outcome::ArtifactRead(..)),
            Stage::Committing { .. } => matches!(outcome, Outcome::Committed(..)),
            Stage::Reporting => matches!(outcome, Outcome::Delivered(..)),
            Stage::Finished => false,
        }
    }

    /// Ends the build with the event `t`.
    fn report(
        sent: Ghost<Seq<Event>>,
        commits: Ghost<Seq<(Seq<u8>, Seq<char>)>>,
        stderr_text: Ghost<Seq<char>>,
        t: Event,
    ) -> (r: (
        BuildSession,
        Action,
    ))
        requires
            all_chunks(sent@),
            is_terminal(t),
            commits_agree(t, commits@),
        ensures
            r.0.wf(),
            reports(r.0.stage(), r.1, t),
            r.0.sent() == sent@.push(t),
            r.0.commits() == commits@,
            r.0.stderr_output() == stderr_text@,
    {
        let ghost s = sent@.push(t);
        assert(s.drop_last() =~= sent@);
        (BuildSession { stage: Stage::Reporting, sent: Ghost(s), commits, stderr_text }, Action::Report(t))
    }

    /// Takes a read of `bytes` from the output stream `which`.
    fn on_output(
        m: Manifest,
        st: StreamState,
        which: OutputStream,
        bytes: Vec<u8>,
        sent: Ghost<Seq<Event>>,
        commits: Ghost<Seq<(Seq<u8>, Seq<char>)>>,
        stderr_text: Ghost<Seq<char>>,
    ) -> (r: (BuildSession, Action))
        requires
            all_chunks(sent@),
            commits@.len() == 0,
            st.stdout_open || st.stderr_open,
            st.stderr_tail@ == tail_of(stderr_text@),
        ensures
            r.0.wf(),
            streaming_step(m, st, which, bytes@, r.0.stage(), r.1),
            r.0.sent() == match r.1 {
                Action::Forward(c) => sent@.push(Ok(c)),
                _ => sent@,
            },
            r.0.commits() == commits@,
            r.0.stderr_output() == if which == OutputStream::StdErr && bytes@.len() > 0 && valid_utf8(bytes@) {
                stderr_text@ + decode_utf8(bytes@)
            } else {
                stderr_text@
            },
    {
        let ghost old_stderr_text = stderr_text@;
        if bytes.len() == 0 {
            let stdout_open = st.stdout_open && !matches!(which, OutputStream::StdOut);
            let stderr_open = st.stderr_open && !matches!(which, OutputStream::StdErr);
            if !stdout_open && !stderr_open {
                (BuildSession { stage: Stage::Exiting(m, st.stderr_tail), sent, commits, stderr_text }, Action::AwaitExit)
            } else {
                let st2 = StreamState { stdout_open, stderr_open, forwarding: st.forwarding, stderr_tail: st.stderr_tail };
                (BuildSession { stage: Stage::Streaming(m, st2), sent, commits, stderr_text }, Action::ReadOutput {
                    stdout: stdout_open,
                    stderr: stderr_open,
                })
            }
        } else {
            match decode_text(bytes.as_slice()) {
                Err(_) => {
                    let action = Action::ReadOutput { stdout: st.stdout_open, stderr: st.stderr_open };
                    (BuildSession { stage: Stage::Streaming(m, st), sent, commits, stderr_text }, action)
                },
                Ok(text) => {
                    let ghost stderr_text = match which {
                        OutputStream::StdErr => stderr_text@ + text@,
                        OutputStream::StdOut => stderr_text@,
                    };
                    proof {
                        lemma_tail_of_append(old_stderr_text, text@);
                    }
                    let stderr_text = Ghost(stderr_text);
                    let tail = match which {
                        OutputStream::StdErr => append_tail(&st.stderr_tail, &text),
                        OutputStream::StdOut => st.stderr_tail,
                    };
                    let st2 = StreamState {
                        stdout_open: st.stdout_open,
                        stderr_open: st.stderr_open,
                        forwarding: st.forwarding,
                        stderr_tail: tail,
                    };
                    if st.forwarding {
                        let chunk = match which {
                            OutputStream::StdOut => BuildResponse::StdOut(text),
                            OutputStream::StdErr => BuildResponse::StdErr(text),
                        };
                        let ghost s = sent@.push(Ok(chunk));
                        (BuildSession { stage: Stage::Forwarding(m, st2), sent: Ghost(s), commits, stderr_text }, Action::Forward(chunk))
                    } else {
                        let action = Action::ReadOutput { stdout: st.stdout_open, stderr: st.stderr_open };
                        (BuildSession { stage: Stage::Streaming(m, st2), sent, commits, stderr_text }, action)
                    }
                },
            }
        }
    }

    /// Takes what came of the last action and decides on the next one.
    pub fn step(self, outcome: Outcome) -> (r: (BuildSession, Action))
        requires
            self.wf(),
            accepts_outcome(self.stage(), outcome),
        ensures
            r.0.wf(),
            transition(self.stage(), outcome, r.0.stage(), r.1),
            r.0.sent() == match r.1 {
                Action::Forward(c) => self.sent().push(Ok(c)),
                Action::Report(t) => self.sent().push(t),
                _ => self.sent(),
            },
            r.0.commits() == match r.1 {
                Action::Commit { hash, record } => self.commits().push((hash@, record@)),
                _ => self.commits(),
            },
            r.0.stderr_output() == match outcome {
                Outcome::OutputRead(OutputStream::StdErr, Ok(bytes)) => if bytes@.len() > 0 && valid_utf8(
                    bytes@,
                ) {
                    self.stderr_output() + decode_utf8(bytes@)
                } else {
                    self.stderr_output()
                },
                _ => self.stderr_output(),
            },
    {
        let BuildSession { stage, sent, commits, stderr_text } = self;
        match stage {
            Stage::Fetching => match outcome {
                Outcome::Fetched(Ok(_)) => (
                    BuildSession { stage: Stage::ReadingManifest, sent, commits, stderr_text },
                    Action::ReadManifest,
                ),
                Outcome::Fetched(Err(d)) => Self::report(sent, commits, stderr_text, Err(BuildError::FetchFailed(d))),
                _ => unreached(),
            },
            Stage::ReadingManifest => match outcome {
                Outcome::ManifestRead(ManifestOutcome::Found { record, metadata }) => {
                    let settings = extract_metadata(&metadata);
                    let build_args = build_args(&settings.docker_image);
                    let m = Manifest { record, settings };
                    (BuildSession { stage: Stage::Starting(m), sent, commits, stderr_text }, Action::StartBuild { build_args })
                },
                Outcome::ManifestRead(ManifestOutcome::MissingRootPackage) => Self::report(
                    sent,
                    commits,
                    stderr_text,
                    Err(BuildError::MetadataMissingRootPackage),
                ),
                Outcome::ManifestRead(ManifestOutcome::Unreadable(d)) => Self::report(
                    sent,
                    commits,
                    stderr_text,
                    Err(BuildError::MetadataParseFailure(d)),
                ),
                _ => unreached(),
            },
            Stage::Starting(m) => match outcome {
                Outcome::BuildStarted(Ok(_)) => {
                    let st = StreamState {
                        stdout_open: true,
                        stderr_open: true,
                        forwarding: true,
                        stderr_tail: String::new(),
                    };
                    let action = Action::ReadOutput { stdout: true, stderr: true };
                    assert(stderr_text@ =~= Seq::<char>::empty());
                    (BuildSession { stage: Stage::Streaming(m, st), sent, commits, stderr_text }, action)
                },
                Outcome::BuildStarted(Err(d)) => Self::report(sent, commits, stderr_text, Err(BuildError::InvocationFailed(d))),
                _ => unreached(),
            },
            Stage::Streaming(m, st) => match outcome {
                Outcome::OutputRead(which, Ok(bytes)) => Self::on_output(m, st, which, bytes, sent, commits, stderr_text),
                Outcome::OutputRead(which, Err(_)) => Self::on_output(m, st, which, Vec::new(), sent, commits, stderr_text),
                _ => unreached(),
            },
            Stage::Forwarding(m, st) => match outcome {
                Outcome::Delivered(ok) => {
                    let st2 = StreamState {
                        stdout_open: st.stdout_open,
                        stderr_open: st.stderr_open,
                        forwarding: st.forwarding && ok,
                        stderr_tail: st.stderr_tail,
                    };
                    let action = Action::ReadOutput { stdout: st2.stdout_open, stderr: st2.stderr_open };
                    (BuildSession { stage: Stage::Streaming(m, st2), sent, commits, stderr_text }, action)
                },
                _ => unreached(),
            },
            Stage::Exiting(m, tail) => match outcome {
                Outcome::Exited(Ok(true)) => (BuildSession { stage: Stage::Locating(m), sent, commits, stderr_text }, Action::ListOutput),
                Outcome::Exited(Ok(false)) => Self::report(sent, commits, stderr_text, Err(BuildError::CompilationFailed(tail))),
                Outcome::Exited(Err(d)) => (BuildSession { stage: Stage::Stopping(d), sent, commits, stderr_text }, Action::StopBuild),
                _ => unreached(),
            },
            Stage::Stopping(d) => match outcome {
                Outcome::Stopped => Self::report(sent, commits, stderr_text, Err(BuildError::InvocationFailed(d))),
                _ => unreached(),
            },
            Stage::Locating(m) => match outcome {
                Outcome::OutputListed(Ok(names)) => match locate_artifact(&names) {
                    Some(i) => {
                        proof {
                            assert forall|c: int| is_unique_artifact(names@, c) implies c == i as int by {
                                if c != i as int {
                                    assert(!is_wasm_name(names@[i as int]@));
                                }
                            }
                        }
                        let name = names[i].clone();
                        let file_name = names[i].clone();
                        (BuildSession { stage: Stage::Reading(m, name), sent, commits, stderr_text }, Action::ReadArtifact { file_name })
                    },
                    None => Self::report(sent, commits, stderr_text, Err(BuildError::ArtifactNotFound)),
                },
                Outcome::OutputListed(Err(_)) => Self::report(sent, commits, stderr_text, Err(BuildError::ArtifactNotFound)),
                _ => unreached(),
            },
            Stage::Reading(m, name) => match outcome {
                Outcome::ArtifactRead(Ok(binary)) => {
                    let hash = program_hash(binary.as_slice(), &m.settings);
                    let record = m.record.clone();
                    let ghost c = commits@.push((hash@, record@));
                    let stage = Stage::Committing { manifest: m, binary_filename: name, hash, binary };
                    (BuildSession { stage, sent, commits: Ghost(c), stderr_text }, Action::Commit { hash, record })
                },
                Outcome::ArtifactRead(Err(_)) => Self::report(sent, commits, stderr_text, Err(BuildError::ArtifactNotFound)),
                _ => unreached(),
            },
            Stage::Committing { manifest, binary_filename, hash, binary } => match outcome {
                Outcome::Committed(Ok(_)) => Self::report(
                    sent,
                    commits,
                    stderr_text,
                    Ok(BuildResponse::Success { hash, binary, binary_filename }),
                ),
                Outcome::Committed(Err(d)) => Self::report(sent, commits, stderr_text, Err(BuildError::StorageFailure(d))),
                _ => unreached(),
            },
            Stage::Reporting => (BuildSession { stage: Stage::Finished, sent, commits, stderr_text }, Action::Finish),
            Stage::Finished => unreached(),
        }
    }
}

/// No event of a sequence of chunks ends the stream.
proof fn lemma_chunks_count_none(s: Seq<Event>)
    requires
        all_chunks(s),
    ensures
        terminal_count(s) == 0,
    decreases s.len(),
{
    if s.len() > 0 {
        assert(all_chunks(s.drop_last()));
        lemma_chunks_count_none(s.drop_last());
    }
}

/// Every build sends exactly one event that ends its stream, and sends it
/// last: none before the session reports, and exactly one, the last event,
/// from then on.
pub proof fn lemma_exactly_one_terminal(s: BuildSession)
    requires
        s.wf(),
    ensures
        s.has_reported() ==> terminal_count(s.sent()) == 1 && is_terminal(s.sent().last()),
        !s.has_reported() ==> terminal_count(s.sent()) == 0,
{
    if s.has_reported() {
        lemma_chunks_count_none(s.sent().drop_last());
    } else {
        lemma_chunks_count_none(s.sent());
    }
}

/// A build that fails for any reason but the store's own failure never
/// writes to the store: a failed fetch, a failed build tool and a missing
/// artifact all leave it unchanged.
pub proof fn lemma_failure_leaves_store_unchanged(s: BuildSession)
    requires
        s.wf(),
        s.has_reported(),
        s.sent().last() is Err,
        !(s.sent().last()->Err_0 is StorageFailure),
    ensures
        s.commits().len() == 0,
{
}

/// A successful build wrote its record to the store exactly once, under the
/// hash that it reports.
pub proof fn lemma_success_committed(s: BuildSession)
    requires
        s.wf(),
        s.has_reported(),
        s.sent().last() is Ok,
    ensures
        s.commits().len() == 1,
        s.sent().last()->Ok_0 is Success,
        s.commits()[0].0 == s.sent().last()->Ok_0->Success_hash@,
{
}

/// A build asks to finish exactly when its last event is on its way, and
/// nothing follows that: no further event and no write to the store.
pub proof fn lemma_finish_only_after_report(old: Stage, outcome: Outcome, new: Stage, action: Action)
    requires
        transition(old, outcome, new, action),
    ensures
        action is Finish <==> old is Reporting,
        old is Reporting ==> new is Finished,
        !(old is Finished),
{
}

/// Whether the build tool runs in a stage: from its start until its exit has
/// been seen, or it has been stopped.
pub open spec fn tool_running(stage: Stage) -> bool {
    stage is Streaming || stage is Forwarding || stage is Exiting || stage is Stopping
}

/// A build starts its tool only on the start that it asked for, and leaves
/// the stages in which the tool runs only once the tool's exit has been seen
/// or the tool has been stopped. So a build reports its end, and finishes,
/// only after its tool has exited: with one build at a time, no two build
/// tools ever run at once.
pub proof fn lemma_tool_runs_until_exit(old: Stage, outcome: Outcome, new: Stage, action: Action)
    requires
        transition(old, outcome, new, action),
    ensures
        !tool_running(old) && tool_running(new) ==> old is Starting && outcome matches Outcome::BuildStarted(Ok(_)),
        tool_running(old) && !tool_running(new) ==> outcome matches Outcome::Exited(Ok(_)) || outcome is Stopped,
        new is Reporting ==> !tool_running(old) || outcome matches Outcome::Exited(Ok(false)) || outcome is Stopped,
        action is Finish ==> !tool_running(old),
{
}

/// A build whose source cannot be fetched ends at once with `FetchFailed`
/// and the fetch's detail, having written nothing to the store.
pub proof fn lemma_fetch_failure_ends_build(s: BuildSession, d: String, new: Stage, action: Action)
    requires
        s.wf(),
        transition(s.stage(), Outcome::Fetched(Err(d)), new, action),
    ensures
        action == Action::Report(Err(BuildError::FetchFailed(d))),
        new is Reporting,
        s.commits().len() == 0,
{
}

/// A build whose tool exits with failure ends at once with
/// `CompilationFailed`, carrying the tail of the tool's error output, and
/// never reaches the write to the store.
pub proof fn lemma_failed_tool_never_commits(s: BuildSession, new: Stage, action: Action)
    requires
        s.wf(),
        transition(s.stage(), Outcome::Exited(Ok(false)), new, action),
    ensures
        action matches Action::Report(Err(BuildError::CompilationFailed(d))) && d@ == tail_of(s.stderr_output()),
        new is Reporting,
        s.commits().len() == 0,
{
}

} // verus!
