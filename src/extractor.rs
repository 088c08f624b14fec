//! The helper binary store: it owns the embedded helper payload, decides
//! how to keep the file at its location equal to that payload, and builds
//! the command line that runs the helper.
//!
//! The store performs no I/O itself. `Extractor::step` takes what the last
//! disk operation reported and answers with the next one to perform, so a
//! driver that owns the filesystem runs the protocol to its end.
use vstd::prelude::*;

use crate::checksum::checksum_text;
use crate::error::EnvError;
use crate::text::{double_backslashes, doubled_backslashes};
use crate::Platform;

verus! {

/// Where the protocol that makes the helper ready stands.
#[derive(Debug, Clone, Copy, PartialEq, Eq, Structural)]
pub enum Phase {
    /// No disk operation is outstanding.
    Idle,
    /// Waiting to learn whether a file exists at the location.
    Probing,
    /// Waiting for the digest of the file at the location.
    Verifying,
    /// Waiting for the stale file to be removed.
    Removing,
    /// Waiting for the payload to be written.
    Writing,
}

/// What the driver reports back after performing a `ReadyAction`.
#[derive(Debug)]
pub enum ReadyEvent {
    /// A caller asks for the helper to be ready.
    Begin,
    /// Whether a file exists at the location.
    Exists(bool),
    /// The digest of the file at the location, or why it could not be read.
    Digested(Result<String, std::io::Error>),
    /// The outcome of removing the file at the location.
    Removed(Result<(), std::io::Error>),
    /// The outcome of writing the payload to the location, executable.
    Written(Result<(), std::io::Error>),
}

/// What the driver must do next.
#[derive(Debug)]
pub enum ReadyAction {
    /// The file at the location is the payload: the helper may run.
    Ready,
    /// The helper cannot be made ready.
    Failed(EnvError),
    /// Find out whether a file exists at the location.
    CheckExists,
    /// Compute the digest of the file at the location.
    ComputeChecksum,
    /// Remove the file at the location.
    RemoveFile,
    /// Write the payload to the location with executable permissions.
    WritePayload,
}

/// A `ReadyEvent` as the protocol sees it.
#[derive(Debug, Clone, Copy, PartialEq, Eq, Structural)]
pub enum Signal {
    Begin,
    Absent,
    Present,
    Matching,
    Mismatching,
    Unreadable,
    RemovedOk,
    RemoveFailed,
    WrittenOk,
    WriteFailed,
}

/// A `ReadyAction` without what it carries.
#[derive(Debug, Clone, Copy, PartialEq, Eq, Structural)]
pub enum Step {
    Ready,
    Fail,
    CheckExists,
    ComputeChecksum,
    RemoveFile,
    WritePayload,
}

/// How the protocol reads `event` when the payload's digest is `expected`.
pub open spec fn signal_of(event: ReadyEvent, expected: Seq<char>) -> Signal {
    match event {
        ReadyEvent::Begin => Signal::Begin,
        ReadyEvent::Exists(found) => if found {
            Signal::Present
        } else {
            Signal::Absent
        },
        ReadyEvent::Digested(Ok(d)) => if d@ == expected {
            Signal::Matching
        } else {
            Signal::Mismatching
        },
        ReadyEvent::Digested(Err(_)) => Signal::Unreadable,
        ReadyEvent::Removed(Ok(_)) => Signal::RemovedOk,
        ReadyEvent::Removed(Err(_)) => Signal::RemoveFailed,
        ReadyEvent::Written(Ok(_)) => Signal::WrittenOk,
        ReadyEvent::Written(Err(_)) => Signal::WriteFailed,
    }
}

/// The kind of `action`.
pub open spec fn step_of(action: ReadyAction) -> Step {
    match action {
        ReadyAction::Ready => Step::Ready,
        ReadyAction::Failed(_) => Step::Fail,
        ReadyAction::CheckExists => Step::CheckExists,
        ReadyAction::ComputeChecksum => Step::ComputeChecksum,
        ReadyAction::RemoveFile => Step::RemoveFile,
        ReadyAction::WritePayload => Step::WritePayload,
    }
}

/// The protocol's state: the phase, and whether the file at the location
/// is known, in this run, to be the payload.
pub struct ReadyState {
    pub phase: Phase,
    pub validated: bool,
}

/// Where every request to make the helper ready starts: whatever earlier
/// requests found, the file is probed again, since it may have been
/// removed or altered since.
pub open spec fn start() -> (ReadyState, Step) {
    (ReadyState { phase: Phase::Probing, validated: false }, Step::CheckExists)
}

/// One transition of the protocol. A missing file is written; a present one
/// is digested and kept when it matches, else removed and written again.
/// An event that the phase does not wait for starts the request over.
pub open spec fn next(s: ReadyState, sig: Signal) -> (ReadyState, Step) {
    let v = s.validated;
    match (s.phase, sig) {
        (Phase::Probing, Signal::Absent) => (
            ReadyState { phase: Phase::Writing, validated: v },
            Step::WritePayload,
        ),
        (Phase::Probing, Signal::Present) => (
            ReadyState { phase: Phase::Verifying, validated: v },
            Step::ComputeChecksum,
        ),
        (Phase::Verifying, Signal::Matching) => (
            ReadyState { phase: Phase::Idle, validated: true },
            Step::Ready,
        ),
        (Phase::Verifying, Signal::Mismatching) => (
            ReadyState { phase: Phase::Removing, validated: v },
            Step::RemoveFile,
        ),
        (Phase::Verifying, Signal::Unreadable) => (
            ReadyState { phase: Phase::Removing, validated: v },
            Step::RemoveFile,
        ),
        (Phase::Removing, Signal::RemovedOk) => (
            ReadyState { phase: Phase::Writing, validated: v },
            Step::WritePayload,
        ),
        (Phase::Removing, Signal::RemoveFailed) => (
            ReadyState { phase: Phase::Idle, validated: v },
            Step::Fail,
        ),
        (Phase::Writing, Signal::WrittenOk) => (
            ReadyState { phase: Phase::Idle, validated: true },
            Step::Ready,
        ),
        (Phase::Writing, Signal::WriteFailed) => (
            ReadyState { phase: Phase::Idle, validated: v },
            Step::Fail,
        ),
        _ => start(),
    }
}

/// The state and the steps after the protocol has read `sigs` in order.
pub open spec fn run(s: ReadyState, sigs: Seq<Signal>) -> (ReadyState, Seq<Step>)
    decreases sigs.len(),
{
    if sigs.len() == 0 {
        (s, Seq::empty())
    } else {
        let (mid, steps) = run(s, sigs.drop_last());
        let (after, last) = next(mid, sigs.last());
        (after, steps.push(last))
    }
}

/// A store that knows nothing yet of its file.
pub open spec fn fresh() -> ReadyState {
    ReadyState { phase: Phase::Idle, validated: false }
}

/// A store whose file is known to be the payload.
pub open spec fn settled() -> ReadyState {
    ReadyState { phase: Phase::Idle, validated: true }
}

proof fn lemma_run_concat(s: ReadyState, a: Seq<Signal>, b: Seq<Signal>)
    ensures
        run(s, a + b) == ({
            let (mid, first) = run(s, a);
            let (after, second) = run(mid, b);
            (after, first + second)
        }),
    decreases b.len(),
{
    if b.len() == 0 {
        assert(a + b =~= a);
        assert(run(s, a).1 + Seq::<Step>::empty() =~= run(s, a).1);
    } else {
        lemma_run_concat(s, a, b.drop_last());
        assert((a + b).drop_last() =~= a + b.drop_last());
        let (mid, first) = run(s, a);
        let (m2, second) = run(mid, b.drop_last());
        let (after, last) = next(m2, b.last());
        assert(first + second.push(last) =~= (first + second).push(last));
    }
}

/// One request that finds the file present and equal to the payload.
pub open spec fn recheck() -> Seq<Signal> {
    seq![Signal::Begin, Signal::Present, Signal::Matching]
}

/// `n` requests that each find the file present and equal to the payload.
pub open spec fn rechecks(n: nat) -> Seq<Signal>
    decreases n,
{
    if n == 0 {
        Seq::empty()
    } else {
        rechecks((n - 1) as nat) + recheck()
    }
}

/// The steps of `n` requests that each find the file equal to the payload:
/// probe, digest, ready.
pub open spec fn verified_steps(n: nat) -> Seq<Step>
    decreases n,
{
    if n == 0 {
        Seq::empty()
    } else {
        verified_steps((n - 1) as nat) + seq![Step::CheckExists, Step::ComputeChecksum, Step::Ready]
    }
}

proof fn lemma_run_three(s: ReadyState, a: Signal, b: Signal, c: Signal)
    ensures
        run(s, seq![a, b, c]) == ({
            let (s1, x) = next(s, a);
            let (s2, y) = next(s1, b);
            let (s3, z) = next(s2, c);
            (s3, seq![x, y, z])
        }),
{
    let sigs = seq![a, b, c];
    reveal_with_fuel(run, 4);
    assert(sigs.drop_last() =~= seq![a, b]);
    assert(sigs.drop_last().drop_last() =~= seq![a]);
    assert(sigs.drop_last().drop_last().drop_last() =~= Seq::<Signal>::empty());
    assert(run(s, sigs).1 =~= seq![next(s, a).1, next(next(s, a).0, b).1, next(
        next(next(s, a).0, b).0,
        c,
    ).1]);
}

proof fn lemma_rechecks(s: ReadyState, n: nat)
    requires
        n > 0 || s == settled(),
    ensures
        run(s, rechecks(n)).0 == settled(),
        run(s, rechecks(n)).1 == verified_steps(n),
        forall|i: int| 0 <= i < verified_steps(n).len() ==> verified_steps(n)[i] != Step::WritePayload,
    decreases n,
{
    if n == 0 {
        assert(run(s, rechecks(0)).1 =~= Seq::<Step>::empty());
    } else {
        let m = (n - 1) as nat;
        lemma_run_concat(s, rechecks(m), recheck());
        lemma_run_three(run(s, rechecks(m)).0, Signal::Begin, Signal::Present, Signal::Matching);
        if m == 0 {
            assert(rechecks(m) =~= Seq::<Signal>::empty());
            assert(run(s, rechecks(m)).1 =~= Seq::<Step>::empty());
            assert(verified_steps(m) =~= Seq::<Step>::empty());
        } else {
            lemma_rechecks(s, m);
        }
        assert(run(s, rechecks(n)).1 =~= verified_steps(n));
        assert forall|i: int| 0 <= i < verified_steps(n).len() implies verified_steps(n)[i]
            != Step::WritePayload by {
            if m > 0 {
                lemma_rechecks(s, m);
            }
            if i < verified_steps(m).len() {
                assert(verified_steps(n)[i] == verified_steps(m)[i]);
            }
        }
    }
}

/// Making the helper ready is idempotent: on an empty location the first
/// request writes the payload once; each of any number of later requests
/// probes and digests the file, finds it equal to the payload, and writes
/// nothing.
pub proof fn lemma_ready_is_idempotent(n: nat)
    ensures
        ({
            let sigs = seq![Signal::Begin, Signal::Absent, Signal::WrittenOk] + rechecks(n);
            &&& run(fresh(), sigs).0 == settled()
            &&& run(fresh(), sigs).1 == seq![Step::CheckExists, Step::WritePayload, Step::Ready]
                + verified_steps(n)
            &&& forall|i: int|
                0 <= i < verified_steps(n).len() ==> verified_steps(n)[i] != Step::WritePayload
        }),
{
    let first = seq![Signal::Begin, Signal::Absent, Signal::WrittenOk];
    lemma_run_concat(fresh(), first, rechecks(n));
    lemma_run_three(fresh(), Signal::Begin, Signal::Absent, Signal::WrittenOk);
    lemma_rechecks(settled(), n);
}

/// A request that finds no file, whatever earlier requests found (the file
/// may have been cleaned up since), writes the payload again.
pub proof fn lemma_missing_is_written(s: ReadyState)
    ensures
        run(s, seq![Signal::Begin, Signal::Absent, Signal::WrittenOk]) == (
            settled(),
            seq![Step::CheckExists, Step::WritePayload, Step::Ready],
        ),
{
    lemma_run_three(s, Signal::Begin, Signal::Absent, Signal::WrittenOk);
}

/// A file whose digest differs from the payload's is detected by the next
/// request, whatever earlier requests found: it is removed and written
/// again, and the store then counts it as the payload.
pub proof fn lemma_mismatch_is_rewritten(s: ReadyState)
    ensures
        ({
            let sigs = seq![
                Signal::Begin,
                Signal::Present,
                Signal::Mismatching,
                Signal::RemovedOk,
                Signal::WrittenOk,
            ];
            &&& run(s, sigs).0 == settled()
            &&& run(s, sigs).1 == seq![
                Step::CheckExists,
                Step::ComputeChecksum,
                Step::RemoveFile,
                Step::WritePayload,
                Step::Ready,
            ]
        }),
{
    let sigs = seq![
        Signal::Begin,
        Signal::Present,
        Signal::Mismatching,
        Signal::RemovedOk,
        Signal::WrittenOk,
    ];
    reveal_with_fuel(run, 6);
    assert(sigs.drop_last() =~= seq![
        Signal::Begin,
        Signal::Present,
        Signal::Mismatching,
        Signal::RemovedOk,
    ]);
    assert(sigs.drop_last().drop_last() =~= seq![
        Signal::Begin,
        Signal::Present,
        Signal::Mismatching,
    ]);
    assert(sigs.drop_last().drop_last().drop_last() =~= seq![Signal::Begin, Signal::Present]);
    assert(sigs.drop_last().drop_last().drop_last().drop_last() =~= seq![Signal::Begin]);
    assert(sigs.drop_last().drop_last().drop_last().drop_last().drop_last()
        =~= Seq::<Signal>::empty());
    assert(run(s, sigs).1 =~= seq![
        Step::CheckExists,
        Step::ComputeChecksum,
        Step::RemoveFile,
        Step::WritePayload,
        Step::Ready,
    ]);
}

/// The store comes to count its file as the payload only when the digest
/// it was waiting for matched, or when the payload it was waiting on was
/// written; a new request forgets what earlier ones found.
pub proof fn lemma_validated_only_when_checked(s: ReadyState, sig: Signal)
    ensures
        !s.validated && next(s, sig).0.validated ==> (s.phase == Phase::Verifying && sig
            == Signal::Matching) || (s.phase == Phase::Writing && sig == Signal::WrittenOk),
        sig == Signal::Begin ==> !next(s, sig).0.validated,
        next(s, sig).1 == Step::Ready ==> next(s, sig).0.validated,
{
}

/// The abstract contents of an `Extractor`.
pub struct ExtractorView {
    pub location: Seq<char>,
    pub payload: Seq<u8>,
    pub expected: Seq<char>,
    pub state: ReadyState,
}

/// The helper binary store.
pub struct Extractor {
    location: String,
    payload: Vec<u8>,
    expected: String,
    phase: Phase,
    validated: bool,
}

impl View for Extractor {
    type V = ExtractorView;

    closed spec fn view(&self) -> ExtractorView {
        ExtractorView {
            location: self.location@,
            payload: self.payload@,
            expected: self.expected@,
            state: ReadyState { phase: self.phase, validated: self.validated },
        }
    }
}

/// What runs the helper: the program, and the arguments after it.
pub struct Invocation {
    pub program: String,
    pub args: Vec<String>,
}

/// The last argument that hands the helper at `location` to a shell.
pub open spec fn helper_argument(location: Seq<char>, platform: Platform) -> Seq<char> {
    if platform == Platform::Windows {
        doubled_backslashes(location)
    } else {
        location
    }
}

/// `inv` runs the helper at `location`: directly when there is no shell,
/// else through `shell` with `args` followed by the helper's argument.
pub open spec fn runs_helper(
    inv: Invocation,
    location: Seq<char>,
    shell: Option<&str>,
    args: Seq<String>,
    platform: Platform,
) -> bool {
    match shell {
        None => inv.program@ == location && inv.args@.len() == 0,
        Some(sh) => {
            &&& inv.program@ == sh@
            &&& inv.args@.len() == args.len() + 1
            &&& forall|k: int| 0 <= k < args.len() ==> #[trigger] inv.args@[k]@ == args[k]@
            &&& inv.args@[args.len() as int]@ == helper_argument(location, platform)
        },
    }
}

/// Relies on `std::io::Error::new`: an error of kind `Other` that says the
/// platform cannot run a shell.
#[verifier::external_body]
fn unsupported_platform() -> std::io::Error {
    std::io::Error::new(std::io::ErrorKind::Other, "Current platform isn't supported")
}

impl Extractor {
    #[verifier::type_invariant]
    spec fn expected_is_digest(&self) -> bool {
        self.expected@ == checksum_text(self.payload@)
    }

    /// A store for `payload`, whose digest is `expected`, materialized at
    /// `location`. Nothing is known yet of the file there.
    pub fn new(location: String, payload: Vec<u8>, expected: String) -> (r: Extractor)
        requires
            expected@ == checksum_text(payload@),
        ensures
            r@.location == location@,
            r@.payload == payload@,
            r@.expected == expected@,
            r@.state == (ReadyState { phase: Phase::Idle, validated: false }),
    {
        Extractor { location, payload, expected, phase: Phase::Idle, validated: false }
    }

    /// Where the helper is materialized.
    pub fn location(&self) -> (r: &str)
        ensures
            r@ == self@.location,
    {
        self.location.as_str()
    }

    /// The bytes to write for `ReadyAction::WritePayload`.
    pub fn payload(&self) -> (r: &[u8])
        ensures
            r@ == self@.payload,
            checksum_text(r@) == self@.expected,
    {
        proof {
            use_type_invariant(self);
        }
        self.payload.as_slice()
    }

    /// The digest the file at the location must have.
    pub fn expected_checksum(&self) -> (r: &str)
        ensures
            r@ == self@.expected,
            r@ == checksum_text(self@.payload),
    {
        proof {
            use_type_invariant(self);
        }
        self.expected.as_str()
    }

    /// Whether the file at the location is known, in this run, to be the
    /// payload.
    pub fn is_ready(&self) -> (r: bool)
        ensures
            r == self@.state.validated,
    {
        self.validated
    }

    /// Advances the protocol by what the driver reports, and says what it
    /// must do next. A failure to remove or write the file is a creation
    /// error carrying the I/O error reported.
    pub fn step(&mut self, event: ReadyEvent) -> (action: ReadyAction)
        ensures
            final(self)@.location == old(self)@.location,
            final(self)@.payload == old(self)@.payload,
            final(self)@.expected == old(self)@.expected,
            final(self)@.expected == checksum_text(final(self)@.payload),
            (final(self)@.state, step_of(action)) == next(
                old(self)@.state,
                signal_of(event, old(self)@.expected),
            ),
            action matches ReadyAction::Failed(err) ==> (err matches EnvError::Create(e) && (
            event == ReadyEvent::Removed(Err(e)) || event == ReadyEvent::Written(Err(e)))),
    {
        proof {
            use_type_invariant(&*self);
        }
        let phase = self.phase;
        match event {
            ReadyEvent::Exists(exists) if phase == Phase::Probing => {
                if exists {
                    self.phase = Phase::Verifying;
                    ReadyAction::ComputeChecksum
                } else {
                    self.phase = Phase::Writing;
                    ReadyAction::WritePayload
                }
            },
            ReadyEvent::Digested(digest) if phase == Phase::Verifying => {
                let matches = match &digest {
                    Ok(d) => *d == self.expected,
                    Err(_) => false,
                };
                if matches {
                    self.phase = Phase::Idle;
                    self.validated = true;
                    ReadyAction::Ready
                } else {
                    self.phase = Phase::Removing;
                    ReadyAction::RemoveFile
                }
            },
            ReadyEvent::Removed(outcome) if phase == Phase::Removing => {
                match outcome {
                    Ok(()) => {
                        self.phase = Phase::Writing;
                        ReadyAction::WritePayload
                    },
                    Err(e) => {
                        self.phase = Phase::Idle;
                        ReadyAction::Failed(EnvError::Create(e))
                    },
                }
            },
            ReadyEvent::Written(outcome) if phase == Phase::Writing => {
                match outcome {
                    Ok(()) => {
                        self.phase = Phase::Idle;
                        self.validated = true;
                        ReadyAction::Ready
                    },
                    Err(e) => {
                        self.phase = Phase::Idle;
                        ReadyAction::Failed(EnvError::Create(e))
                    },
                }
            },
            _ => {
                self.phase = Phase::Probing;
                self.validated = false;
                ReadyAction::CheckExists
            },
        }
    }

    /// The command that extracts variables: the helper itself when no shell
    /// is given, else the shell with `args` and then the helper's location
    /// (its backslashes doubled on Windows). Refused until the file at the
    /// location is known to be the payload, and on a platform that cannot
    /// run a shell.
    pub fn invocation(&self, shell: Option<&str>, args: &[String], platform: Platform) -> (r: Result<
        Invocation,
        EnvError,
    >)
        ensures
            platform == Platform::Unsupported ==> r matches Err(EnvError::Executing(_)),
            platform != Platform::Unsupported && !self@.state.validated ==> r matches Err(
                EnvError::Other(_),
            ),
            platform != Platform::Unsupported && self@.state.validated ==> (r matches Ok(inv)
                && runs_helper(inv, self@.location, shell, args@, platform)),
    {
        if platform == Platform::Unsupported {
            return Err(EnvError::Executing(unsupported_platform()));
        }
        if !self.validated {
            return Err(
                EnvError::Other("the helper has not been verified on disk".to_string()),
            );
        }
        match shell {
            None => Ok(Invocation { program: self.location.clone(), args: Vec::new() }),
            Some(sh) => {
                let mut out: Vec<String> = Vec::new();
                let n = args.len();
                let mut i: usize = 0;
                while i < n
                    invariant
                        n == args@.len(),
                        i <= n,
                        out@.len() == i,
                        forall|k: int| 0 <= k < i ==> #[trigger] out@[k]@ == args@[k]@,
                    decreases n - i,
                {
                    out.push(args[i].clone());
                    i = i + 1;
                }
                let last = if platform == Platform::Windows {
                    double_backslashes(self.location.as_str())
                } else {
                    self.location.clone()
                };
                out.push(last);
                Ok(Invocation { program: sh.to_owned(), args: out })
            },
        }
    }
}

} // verus!
