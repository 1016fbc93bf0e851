use vstd::prelude::*;
use crate::retry::{
    ErrorClass, MAX_ATTEMPTS, RemoteErrorKind, RetryStep, after_failure, after_failure_spec,
    classify, classify_spec,
};

verus! {

/// How a run treats the objects it visits.
#[derive(Clone, Copy, Debug, PartialEq, Eq, Structural)]
pub enum Mode {
    /// Verify the local copy and download it when missing or stale.
    Download,
    /// Only compare local and remote; never download or delete.
    VerifyOnly,
    /// Like `Download`, then delete the remote object once the local copy is confirmed.
    DeleteAfterVerify,
}

/// A run configuration that cannot be carried out.
#[derive(Clone, Copy, Debug, PartialEq, Eq, Structural)]
pub enum ConfigError {
    /// Verify-only and delete-after-verify were both requested.
    ConflictingModes,
}

/// The mode that the two flags select; asking for both is an error.
pub fn select_mode(verify_only: bool, delete_after_verify: bool) -> (r: Result<Mode, ConfigError>)
    ensures
        r is Err <==> verify_only && delete_after_verify,
        r is Err ==> r->Err_0 == ConfigError::ConflictingModes,
        r is Ok ==> r->Ok_0 == (if verify_only {
            Mode::VerifyOnly
        } else if delete_after_verify {
            Mode::DeleteAfterVerify
        } else {
            Mode::Download
        }),
{
    if verify_only && delete_after_verify {
        Err(ConfigError::ConflictingModes)
    } else if verify_only {
        Ok(Mode::VerifyOnly)
    } else if delete_after_verify {
        Ok(Mode::DeleteAfterVerify)
    } else {
        Ok(Mode::Download)
    }
}

/// Where one object stands in its synchronisation.
#[derive(Clone, Copy, Debug, PartialEq, Eq, Structural)]
pub enum Stage {
    Idle,
    CreatingDir,
    CheckingLocal,
    Probing,
    Fetching,
    Deleting,
    Finished,
}

/// What the caller observed when carrying out the last action.
#[derive(Clone, Debug, PartialEq, Eq)]
pub enum Event {
    /// Start working on the object.
    Begin,
    /// The local directory exists.
    DirReady,
    /// The local directory could not be created.
    DirFailed(String),
    /// No local file exists.
    LocalAbsent,
    /// A local file of `len` bytes exists.
    LocalPresent { len: u64 },
    /// The metadata probe reported the remote length.
    Probed { content_length: u64 },
    ProbeFailed { kind: RemoteErrorKind, detail: String },
    /// The probe succeeded but reported no usable length.
    ProbeWithoutLength,
    /// The fetch delivered a body of `content_length` bytes, of which `written`
    /// were written to the local file.
    Fetched { content_length: u64, written: u64 },
    FetchFailed { kind: RemoteErrorKind, detail: String },
    /// The fetch succeeded but carried no body or no length.
    FetchWithoutBody,
    /// The fetched body could not be written locally.
    WriteFailed(String),
    Deleted,
    DeleteFailed { kind: RemoteErrorKind, detail: String },
}

/// Why an object could not be synchronised.
#[derive(Clone, Debug, PartialEq, Eq)]
pub enum FailReason {
    CreateDir(String),
    MissingLocally,
    LocalMismatch,
    Remote(String),
    Write(String),
    SizeMismatch,
    NoContent,
    NoLength,
    OutOfOrder,
}

/// The result for one object.
#[derive(Clone, Debug, PartialEq, Eq)]
pub enum Outcome {
    Synced,
    Failed(FailReason),
}

/// What the caller is to do next for the object.
#[derive(Clone, Debug, PartialEq, Eq)]
pub enum Action {
    CreateDir,
    CheckLocal,
    /// Wait `delay_secs`, then probe the remote metadata.
    Probe { delay_secs: u64 },
    /// Wait `delay_secs`, then fetch the object and write it locally.
    Fetch { delay_secs: u64 },
    /// Wait `delay_secs`, then delete the remote object.
    Delete { delay_secs: u64 },
    /// Report the outcome; nothing more is to be done.
    Finish(Outcome),
}

/// The state of the synchronisation of one object.
#[derive(Clone, Copy, Debug, PartialEq, Eq, Structural)]
pub struct SyncMachine {
    pub mode: Mode,
    pub stage: Stage,
    /// Attempts made of the current remote operation.
    pub attempt: u32,
    /// The length of the local file, once seen.
    pub local_len: u64,
    /// Whether the local copy was verified or downloaded.
    pub confirmed: bool,
}

impl SyncMachine {
    pub open spec fn wf(self) -> bool {
        &&& self.attempt <= MAX_ATTEMPTS
        &&& (self.stage == Stage::Probing || self.stage == Stage::Fetching || self.stage
            == Stage::Deleting) ==> self.attempt >= 1
        &&& self.stage == Stage::Fetching ==> self.mode != Mode::VerifyOnly
        &&& self.stage == Stage::Deleting ==> self.mode == Mode::DeleteAfterVerify
            && self.confirmed
    }

    pub open spec fn initial(mode: Mode) -> SyncMachine {
        SyncMachine { mode, stage: Stage::Idle, attempt: 0, local_len: 0, confirmed: false }
    }

    /// A machine for one object, before any work.
    pub fn new(mode: Mode) -> (r: SyncMachine)
        ensures
            r == SyncMachine::initial(mode),
            r.wf(),
    {
        SyncMachine { mode, stage: Stage::Idle, attempt: 0, local_len: 0, confirmed: false }
    }
}

/// Ends the run of `m` with a failure.
pub open spec fn fail(m: SyncMachine, reason: FailReason) -> (SyncMachine, Action) {
    (SyncMachine { stage: Stage::Finished, ..m }, Action::Finish(Outcome::Failed(reason)))
}

/// The local copy is confirmed: delete the remote object in delete mode,
/// else finish successfully.
pub open spec fn confirm(m: SyncMachine) -> (SyncMachine, Action) {
    if m.mode == Mode::DeleteAfterVerify {
        (
            SyncMachine { stage: Stage::Deleting, attempt: 1, confirmed: true, ..m },
            Action::Delete { delay_secs: 0 },
        )
    } else {
        (SyncMachine { stage: Stage::Finished, confirmed: true, ..m }, Action::Finish(Outcome::Synced))
    }
}

/// The first fetch of the object.
pub open spec fn start_fetch(m: SyncMachine) -> (SyncMachine, Action) {
    (SyncMachine { stage: Stage::Fetching, attempt: 1, ..m }, Action::Fetch { delay_secs: 0 })
}

/// The action that repeats the current remote operation after a wait.
pub open spec fn repeat_action(stage: Stage, delay_secs: u64) -> Action {
    match stage {
        Stage::Probing => Action::Probe { delay_secs },
        Stage::Fetching => Action::Fetch { delay_secs },
        _ => Action::Delete { delay_secs },
    }
}

/// After a failed attempt of the current remote operation: retry as the
/// policy says, or fail for `reason`.
pub open spec fn retry_or_fail(m: SyncMachine, class: ErrorClass, reason: FailReason) -> (
    SyncMachine,
    Action,
) {
    match after_failure_spec(m.attempt as nat, class) {
        RetryStep::Again { delay_secs } => (
            SyncMachine { attempt: (m.attempt + 1) as u32, ..m },
            repeat_action(m.stage, delay_secs),
        ),
        RetryStep::GiveUp => fail(m, reason),
    }
}

/// The transition of the machine on one event: its next state and the action
/// the caller is to carry out. An event that does not fit the stage ends the
/// run with `OutOfOrder`.
pub open spec fn next(m: SyncMachine, e: Event) -> (SyncMachine, Action) {
    match m.stage {
        Stage::Idle => match e {
            Event::Begin => (SyncMachine { stage: Stage::CreatingDir, ..m }, Action::CreateDir),
            _ => fail(m, FailReason::OutOfOrder),
        },
        Stage::CreatingDir => match e {
            Event::DirReady => (
                SyncMachine { stage: Stage::CheckingLocal, ..m },
                Action::CheckLocal,
            ),
            Event::DirFailed(d) => fail(m, FailReason::CreateDir(d)),
            _ => fail(m, FailReason::OutOfOrder),
        },
        Stage::CheckingLocal => match e {
            Event::LocalAbsent => if m.mode == Mode::VerifyOnly {
                fail(m, FailReason::MissingLocally)
            } else {
                start_fetch(m)
            },
            Event::LocalPresent { len } => (
                SyncMachine { stage: Stage::Probing, attempt: 1, local_len: len, ..m },
                Action::Probe { delay_secs: 0 },
            ),
            _ => fail(m, FailReason::OutOfOrder),
        },
        Stage::Probing => match e {
            Event::Probed { content_length } => if content_length == m.local_len {
                confirm(m)
            } else if m.mode == Mode::VerifyOnly {
                fail(m, FailReason::LocalMismatch)
            } else {
                start_fetch(m)
            },
            Event::ProbeFailed { kind, detail } => retry_or_fail(
                m,
                classify_spec(kind),
                FailReason::Remote(detail),
            ),
            Event::ProbeWithoutLength => fail(m, FailReason::NoLength),
            _ => fail(m, FailReason::OutOfOrder),
        },
        Stage::Fetching => match e {
            Event::Fetched { content_length, written } => if written == content_length {
                confirm(m)
            } else {
                fail(m, FailReason::SizeMismatch)
            },
            Event::FetchFailed { kind, detail } => retry_or_fail(
                m,
                classify_spec(kind),
                FailReason::Remote(detail),
            ),
            Event::FetchWithoutBody => retry_or_fail(
                m,
                ErrorClass::Transient,
                FailReason::NoContent,
            ),
            Event::WriteFailed(d) => fail(m, FailReason::Write(d)),
            _ => fail(m, FailReason::OutOfOrder),
        },
        Stage::Deleting => match e {
            Event::Deleted => (
                SyncMachine { stage: Stage::Finished, ..m },
                Action::Finish(Outcome::Synced),
            ),
            Event::DeleteFailed { kind, detail } => retry_or_fail(
                m,
                classify_spec(kind),
                FailReason::Remote(detail),
            ),
            _ => fail(m, FailReason::OutOfOrder),
        },
        Stage::Finished => fail(m, FailReason::OutOfOrder),
    }
}

fn fail_exec(m: SyncMachine, reason: FailReason) -> (r: (SyncMachine, Action))
    ensures
        r == fail(m, reason),
{
    (SyncMachine { stage: Stage::Finished, ..m }, Action::Finish(Outcome::Failed(reason)))
}

fn confirm_exec(m: SyncMachine) -> (r: (SyncMachine, Action))
    ensures
        r == confirm(m),
{
    match m.mode {
        Mode::DeleteAfterVerify => (
            SyncMachine { stage: Stage::Deleting, attempt: 1, confirmed: true, ..m },
            Action::Delete { delay_secs: 0 },
        ),
        _ => (
            SyncMachine { stage: Stage::Finished, confirmed: true, ..m },
            Action::Finish(Outcome::Synced),
        ),
    }
}

fn retry_or_fail_exec(m: SyncMachine, class: ErrorClass, reason: FailReason) -> (r: (
    SyncMachine,
    Action,
))
    requires
        m.stage == Stage::Probing || m.stage == Stage::Fetching || m.stage == Stage::Deleting,
    ensures
        r == retry_or_fail(m, class, reason),
{
    match after_failure(m.attempt, class) {
        RetryStep::Again { delay_secs } => {
            let next_attempt = m.attempt + 1;
            let a = match m.stage {
                Stage::Probing => Action::Probe { delay_secs },
                Stage::Fetching => Action::Fetch { delay_secs },
                _ => Action::Delete { delay_secs },
            };
            (SyncMachine { attempt: next_attempt, ..m }, a)
        },
        RetryStep::GiveUp => fail_exec(m, reason),
    }
}

proof fn lemma_next_wf(m: SyncMachine, e: Event)
    requires
        m.wf(),
    ensures
        next(m, e).0.wf(),
        next(m, e).0.mode == m.mode,
{
}

impl SyncMachine {
    /// Takes one event: moves to the next state and returns the action the
    /// caller is to carry out, as `next` describes.
    pub fn step(&mut self, e: Event) -> (a: Action)
        ensures
            (*final(self), a) == next(*old(self), e),
            old(self).wf() ==> final(self).wf(),
    {
        proof {
            if self.wf() {
                lemma_next_wf(*self, e);
            }
        }
        let m = *self;
        let (n, a) = match m.stage {
            Stage::Idle => match e {
                Event::Begin => (SyncMachine { stage: Stage::CreatingDir, ..m }, Action::CreateDir),
                _ => fail_exec(m, FailReason::OutOfOrder),
            },
            Stage::CreatingDir => match e {
                Event::DirReady => (
                    SyncMachine { stage: Stage::CheckingLocal, ..m },
                    Action::CheckLocal,
                ),
                Event::DirFailed(d) => fail_exec(m, FailReason::CreateDir(d)),
                _ => fail_exec(m, FailReason::OutOfOrder),
            },
            Stage::CheckingLocal => match e {
                Event::LocalAbsent => match m.mode {
                    Mode::VerifyOnly => fail_exec(m, FailReason::MissingLocally),
                    _ => (
                        SyncMachine { stage: Stage::Fetching, attempt: 1, ..m },
                        Action::Fetch { delay_secs: 0 },
                    ),
                },
                Event::LocalPresent { len } => (
                    SyncMachine { stage: Stage::Probing, attempt: 1, local_len: len, ..m },
                    Action::Probe { delay_secs: 0 },
                ),
                _ => fail_exec(m, FailReason::OutOfOrder),
            },
            Stage::Probing => match e {
                Event::Probed { content_length } => {
                    if content_length == m.local_len {
                        confirm_exec(m)
                    } else {
                        match m.mode {
                            Mode::VerifyOnly => fail_exec(m, FailReason::LocalMismatch),
                            _ => (
                                SyncMachine { stage: Stage::Fetching, attempt: 1, ..m },
                                Action::Fetch { delay_secs: 0 },
                            ),
                        }
                    }
                },
                Event::ProbeFailed { kind, detail } => retry_or_fail_exec(
                    m,
                    classify(kind),
                    FailReason::Remote(detail),
                ),
                Event::ProbeWithoutLength => fail_exec(m, FailReason::NoLength),
                _ => fail_exec(m, FailReason::OutOfOrder),
            },
            Stage::Fetching => match e {
                Event::Fetched { content_length, written } => {
                    if written == content_length {
                        confirm_exec(m)
                    } else {
                        fail_exec(m, FailReason::SizeMismatch)
                    }
                },
                Event::FetchFailed { kind, detail } => retry_or_fail_exec(
                    m,
                    classify(kind),
                    FailReason::Remote(detail),
                ),
                Event::FetchWithoutBody => retry_or_fail_exec(
                    m,
                    ErrorClass::Transient,
                    FailReason::NoContent,
                ),
                Event::WriteFailed(d) => fail_exec(m, FailReason::Write(d)),
                _ => fail_exec(m, FailReason::OutOfOrder),
            },
            Stage::Deleting => match e {
                Event::Deleted => (
                    SyncMachine { stage: Stage::Finished, ..m },
                    Action::Finish(Outcome::Synced),
                ),
                Event::DeleteFailed { kind, detail } => retry_or_fail_exec(
                    m,
                    classify(kind),
                    FailReason::Remote(detail),
                ),
                _ => fail_exec(m, FailReason::OutOfOrder),
            },
            Stage::Finished => fail_exec(m, FailReason::OutOfOrder),
        };
        *self = n;
        a
    }
}

/// Whether an action asks for a fetch or a delete.
pub open spec fn touches_remote_content(a: Action) -> bool {
    a is Fetch || a is Delete
}

/// In verify-only mode no transition, from any well-formed state and on any
/// event, asks for a fetch or a delete, and the mode is kept.
pub proof fn lemma_verify_only_never_fetches_or_deletes(m: SyncMachine, e: Event)
    requires
        m.wf(),
        m.mode == Mode::VerifyOnly,
    ensures
        !touches_remote_content(next(m, e).1),
        next(m, e).0.mode == Mode::VerifyOnly,
        next(m, e).0.wf(),
{
}

/// Whether event `e` confirms the local copy in state `m`: a probe that
/// reports the local length, or a fetch whose body was written in full.
pub open spec fn confirms_local_copy(m: SyncMachine, e: Event) -> bool {
    ||| m.stage == Stage::Probing && e == (Event::Probed { content_length: m.local_len })
    ||| m.stage == Stage::Fetching && match e {
        Event::Fetched { content_length, written } => written == content_length,
        _ => false,
    }
}

/// A delete is asked for only once the local copy is confirmed, by the event
/// at hand or earlier while deleting; and only a confirming event confirms.
pub proof fn lemma_delete_only_after_confirmation(m: SyncMachine, e: Event)
    requires
        m.wf(),
    ensures
        next(m, e).1 is Delete ==> next(m, e).0.confirmed && m.mode == Mode::DeleteAfterVerify
            && (confirms_local_copy(m, e) || m.stage == Stage::Deleting),
        m.stage == Stage::Deleting ==> m.confirmed,
        !m.confirmed && next(m, e).0.confirmed ==> confirms_local_copy(m, e),
{
}

/// The state and the actions after the events `events`, in order.
pub open spec fn drive(m: SyncMachine, events: Seq<Event>) -> (SyncMachine, Seq<Action>)
    decreases events.len(),
{
    if events.len() == 0 {
        (m, Seq::empty())
    } else {
        let (m1, a) = next(m, events[0]);
        let (m2, rest) = drive(m1, events.subrange(1, events.len() as int));
        (m2, seq![a] + rest)
    }
}

/// When the probe of an object fails permanently, the object is reported as
/// failed with the probe's detail after a single probe, and nothing is
/// fetched or deleted for it.
pub proof fn lemma_permanent_probe_failure(mode: Mode, len: u64, detail: String)
    ensures
        drive(SyncMachine::initial(mode), permanently_failing_probe(len, detail)).1 == seq![
            Action::CreateDir,
            Action::CheckLocal,
            Action::Probe { delay_secs: 0 },
            Action::Finish(Outcome::Failed(FailReason::Remote(detail))),
        ],
{
    let evs = seq![
        Event::Begin,
        Event::DirReady,
        Event::LocalPresent { len },
        Event::ProbeFailed { kind: RemoteErrorKind::Service, detail },
    ];
    let m0 = SyncMachine::initial(mode);
    let m1 = next(m0, evs[0]).0;
    let m2 = next(m1, evs[1]).0;
    let m3 = next(m2, evs[2]).0;
    let m4 = next(m3, evs[3]).0;
    let t1 = seq![evs[1], evs[2], evs[3]];
    let t2 = seq![evs[2], evs[3]];
    let t3 = seq![evs[3]];
    assert(evs.subrange(1, 4) =~= t1);
    assert(t1.subrange(1, 3) =~= t2);
    assert(t2.subrange(1, 2) =~= t3);
    assert(t3.subrange(1, 1) =~= Seq::<Event>::empty());
    let a1 = next(m0, evs[0]).1;
    let a2 = next(m1, evs[1]).1;
    let a3 = next(m2, evs[2]).1;
    let a4 = next(m3, evs[3]).1;
    assert(drive(m4, Seq::<Event>::empty()).1 == Seq::<Action>::empty());
    assert(drive(m3, t3).1 =~= seq![a4]);
    assert(drive(m2, t2).1 =~= seq![a3, a4]);
    assert(drive(m1, t1).1 =~= seq![a2, a3, a4]);
    assert(drive(m0, evs).1 =~= seq![a1, a2, a3, a4]);
}

/// When the local file already has the remote length, a run verifies it with
/// one probe and fetches nothing; outside delete mode it then ends
/// successfully. The path depends on these observations alone, so a repeated
/// run over unchanged local and remote state takes it again.
pub proof fn lemma_matching_copy_is_verified(mode: Mode, len: u64)
    ensures
        drive(SyncMachine::initial(mode), matching_copy(len)).1 == seq![
            Action::CreateDir,
            Action::CheckLocal,
            Action::Probe { delay_secs: 0 },
            if mode == Mode::DeleteAfterVerify {
                Action::Delete { delay_secs: 0 }
            } else {
                Action::Finish(Outcome::Synced)
            },
        ],
{
    let evs = seq![
        Event::Begin,
        Event::DirReady,
        Event::LocalPresent { len },
        Event::Probed { content_length: len },
    ];
    let m0 = SyncMachine::initial(mode);
    let m1 = next(m0, evs[0]).0;
    let m2 = next(m1, evs[1]).0;
    let m3 = next(m2, evs[2]).0;
    let m4 = next(m3, evs[3]).0;
    let t1 = seq![evs[1], evs[2], evs[3]];
    let t2 = seq![evs[2], evs[3]];
    let t3 = seq![evs[3]];
    assert(evs.subrange(1, 4) =~= t1);
    assert(t1.subrange(1, 3) =~= t2);
    assert(t2.subrange(1, 2) =~= t3);
    assert(t3.subrange(1, 1) =~= Seq::<Event>::empty());
    let a1 = next(m0, evs[0]).1;
    let a2 = next(m1, evs[1]).1;
    let a3 = next(m2, evs[2]).1;
    let a4 = next(m3, evs[3]).1;
    assert(drive(m4, Seq::<Event>::empty()).1 == Seq::<Action>::empty());
    assert(drive(m3, t3).1 =~= seq![a4]);
    assert(drive(m2, t2).1 =~= seq![a3, a4]);
    assert(drive(m1, t1).1 =~= seq![a2, a3, a4]);
    assert(drive(m0, evs).1 =~= seq![a1, a2, a3, a4]);
}

/// The order of the stages along a run.
pub open spec fn stage_rank(s: Stage) -> nat {
    match s {
        Stage::Idle => 0,
        Stage::CreatingDir => 1,
        Stage::CheckingLocal => 2,
        Stage::Probing => 3,
        Stage::Fetching => 4,
        Stage::Deleting => 5,
        Stage::Finished => 6,
    }
}

/// How far a run has come: its stage, then its attempt within the stage.
pub open spec fn progress(m: SyncMachine) -> nat {
    stage_rank(m.stage) * (MAX_ATTEMPTS + 1) as nat + m.attempt as nat
}

/// The largest progress of a well-formed machine.
pub open spec fn max_progress() -> nat {
    6 * (MAX_ATTEMPTS + 1) as nat + MAX_ATTEMPTS as nat
}

/// Every run ends: from a well-formed unfinished state each event raises the
/// progress, which never exceeds `max_progress`, and the machine asks to
/// report its outcome exactly when it reaches `Finished`.
pub proof fn lemma_run_terminates(m: SyncMachine, e: Event)
    requires
        m.wf(),
    ensures
        progress(m) <= max_progress(),
        m.stage != Stage::Finished ==> progress(next(m, e).0) > progress(m),
        next(m, e).1 is Finish <==> next(m, e).0.stage == Stage::Finished,
{
}

/// The events of an object whose local copy exists and whose probe fails
/// permanently.
pub open spec fn permanently_failing_probe(len: u64, detail: String) -> Seq<Event> {
    seq![
        Event::Begin,
        Event::DirReady,
        Event::LocalPresent { len },
        Event::ProbeFailed { kind: RemoteErrorKind::Service, detail },
    ]
}

/// The events of an object whose local copy has the remote length.
pub open spec fn matching_copy(len: u64) -> Seq<Event> {
    seq![
        Event::Begin,
        Event::DirReady,
        Event::LocalPresent { len },
        Event::Probed { content_length: len },
    ]
}

/// The actions of each object of a run, each driven by its own events.
pub open spec fn run_items(mode: Mode, traces: Seq<Seq<Event>>) -> Seq<Seq<Action>> {
    traces.map_values(|t: Seq<Event>| drive(SyncMachine::initial(mode), t).1)
}

/// Of objects whose remote operations all succeed but one whose probe fails
/// permanently, that one fails and every other succeeds; and the others take
/// the same actions as in a run without the failing one.
pub proof fn lemma_one_failing_item(
    mode: Mode,
    traces: Seq<Seq<Event>>,
    j: int,
    len: u64,
    detail: String,
    locals: Seq<Option<u64>>,
    remotes: Seq<u64>,
)
    requires
        0 <= j < traces.len(),
        locals.len() == traces.len(),
        remotes.len() == traces.len(),
        traces[j] == permanently_failing_probe(len, detail),
        forall|i: int|
            0 <= i < traces.len() && i != j ==> traces[i] == succeeding_events(
                mode,
                locals[i],
                remotes[i],
            ),
        forall|i: int|
            0 <= i < traces.len() && i != j && mode == Mode::VerifyOnly ==> locals[i] == Some(
                remotes[i],
            ),
    ensures
        run_items(mode, traces).len() == traces.len(),
        run_items(mode, traces)[j].last() == Action::Finish(
            Outcome::Failed(FailReason::Remote(detail)),
        ),
        forall|i: int|
            0 <= i < traces.len() && i != j ==> (#[trigger] run_items(mode, traces)[i]).last()
                == Action::Finish(Outcome::Synced),
        run_items(mode, traces.remove(j)) == run_items(mode, traces).remove(j),
{
    lemma_permanent_probe_failure(mode, len, detail);
    assert forall|i: int| 0 <= i < traces.len() && i != j implies (#[trigger] run_items(
        mode,
        traces,
    )[i]).last() == Action::Finish(Outcome::Synced) by {
        lemma_succeeding_object_synced(mode, locals[i], remotes[i]);
    }
    assert(run_items(mode, traces.remove(j)) =~= run_items(mode, traces).remove(j));
}

/// The events of an object whose every remote operation succeeds: the remote
/// object has `remote` bytes, `local` is the length of the local file if one
/// exists, and the file is downloaded when missing or of another length. In
/// delete mode the remote object is then deleted.
pub open spec fn succeeding_events(mode: Mode, local: Option<u64>, remote: u64) -> Seq<Event> {
    let head = match local {
        None => seq![
            Event::Begin,
            Event::DirReady,
            Event::LocalAbsent,
            Event::Fetched { content_length: remote, written: remote },
        ],
        Some(len) => if len == remote {
            matching_copy(len)
        } else {
            seq![
                Event::Begin,
                Event::DirReady,
                Event::LocalPresent { len },
                Event::Probed { content_length: remote },
                Event::Fetched { content_length: remote, written: remote },
            ]
        },
    };
    if mode == Mode::DeleteAfterVerify {
        head.push(Event::Deleted)
    } else {
        head
    }
}

/// An object whose remote operations all succeed ends successfully, unless
/// only verifying a local copy that is missing or of another length.
pub proof fn lemma_succeeding_object_synced(mode: Mode, local: Option<u64>, remote: u64)
    requires
        mode != Mode::VerifyOnly || local == Some(remote),
    ensures
        drive(SyncMachine::initial(mode), succeeding_events(mode, local, remote)).1.last()
            == Action::Finish(Outcome::Synced),
{
    reveal_with_fuel(drive, 7);
    let t = succeeding_events(mode, local, remote);
    let n = t.len();
    assert(t.subrange(1, n as int).subrange(1, n - 1).subrange(1, n - 2).subrange(1, n - 3)
        =~= t.subrange(4, n as int));
    if n > 4 {
        assert(t.subrange(4, n as int).subrange(1, n - 4) =~= t.subrange(5, n as int));
    }
    if n > 5 {
        assert(t.subrange(5, n as int).subrange(1, n - 5) =~= t.subrange(6, n as int));
    }
}

} // verus!
