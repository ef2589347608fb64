use vstd::prelude::*;

verus! {

/// The phases of the startup update check.
#[derive(PartialEq, Eq, Structural, Debug, Clone, Copy)]
pub enum UpdatePhase {
    Idle,
    Checking,
    NoUpdate,
    Downloading,
    Installing,
    Restarting,
    Failed,
}

/// What the update service and installer reported back to the checker.
#[derive(PartialEq, Eq, Structural, Debug, Clone, Copy)]
pub enum UpdateEvent {
    /// The application has started.
    Launched,
    /// The update service answered whether a newer version exists.
    CheckFinished { newer_available: bool },
    /// A chunk of the installer payload arrived; `total` is the declared
    /// size of the whole payload, when known.
    ChunkReceived { length: u64, total: Option<u64> },
    /// The payload stream ended.
    DownloadFinished,
    /// The payload was installed.
    Installed,
    /// The current step failed (network error, bad manifest, install error).
    Failure,
}

/// What the checker asks its driver to do next.
#[derive(PartialEq, Eq, Structural, Debug, Clone, Copy)]
pub enum UpdateAction {
    Nothing,
    CheckForUpdate,
    Download,
    /// Report the bytes received so far and the declared total.
    ReportProgress { downloaded: u64, total: Option<u64> },
    /// Report that the download is complete and install the payload.
    Install,
    Restart,
    /// Log the failure and leave the application running.
    LogFailure,
}

/// The state of the update check.
#[derive(PartialEq, Eq, Structural, Debug, Clone, Copy)]
pub struct UpdateChecker {
    pub phase: UpdatePhase,
    /// Bytes of the payload received so far.
    pub downloaded: u64,
    /// The declared size of the payload, as last reported.
    pub total: Option<u64>,
}

/// The checker before the application has started.
pub open spec fn idle() -> UpdateChecker {
    UpdateChecker { phase: UpdatePhase::Idle, downloaded: 0, total: None }
}

/// Whether nothing more happens in `phase`.
pub open spec fn is_terminal(phase: UpdatePhase) -> bool {
    phase == UpdatePhase::NoUpdate || phase == UpdatePhase::Restarting || phase
        == UpdatePhase::Failed
}

/// The failed checker, keeping what was received.
pub open spec fn failed(s: UpdateChecker) -> UpdateChecker {
    UpdateChecker { phase: UpdatePhase::Failed, ..s }
}

/// The lifecycle: the next state and the action for `event` in state `s`.
/// An event that does not belong to the current phase changes nothing.
pub open spec fn transition(s: UpdateChecker, event: UpdateEvent) -> (UpdateChecker, UpdateAction) {
    match (s.phase, event) {
        (UpdatePhase::Idle, UpdateEvent::Launched) => (
            UpdateChecker { phase: UpdatePhase::Checking, ..s },
            UpdateAction::CheckForUpdate,
        ),
        (UpdatePhase::Checking, UpdateEvent::CheckFinished { newer_available }) => if newer_available {
            (
                UpdateChecker { phase: UpdatePhase::Downloading, downloaded: 0, total: None },
                UpdateAction::Download,
            )
        } else {
            (UpdateChecker { phase: UpdatePhase::NoUpdate, ..s }, UpdateAction::Nothing)
        },
        (UpdatePhase::Downloading, UpdateEvent::ChunkReceived { length, total }) => if s.downloaded
            + length <= u64::MAX {
            let d = (s.downloaded + length) as u64;
            (
                UpdateChecker { phase: UpdatePhase::Downloading, downloaded: d, total },
                UpdateAction::ReportProgress { downloaded: d, total },
            )
        } else {
            (failed(s), UpdateAction::LogFailure)
        },
        (UpdatePhase::Downloading, UpdateEvent::DownloadFinished) => (
            UpdateChecker { phase: UpdatePhase::Installing, ..s },
            UpdateAction::Install,
        ),
        (UpdatePhase::Installing, UpdateEvent::Installed) => (
            UpdateChecker { phase: UpdatePhase::Restarting, ..s },
            UpdateAction::Restart,
        ),
        (UpdatePhase::Checking, UpdateEvent::Failure)
        | (UpdatePhase::Downloading, UpdateEvent::Failure)
        | (UpdatePhase::Installing, UpdateEvent::Failure) => (failed(s), UpdateAction::LogFailure),
        _ => (s, UpdateAction::Nothing),
    }
}

impl UpdateChecker {
    /// A checker that has not started yet.
    pub fn new() -> (r: UpdateChecker)
        ensures
            r == idle(),
    {
        UpdateChecker { phase: UpdatePhase::Idle, downloaded: 0, total: None }
    }

    /// Steps the lifecycle on `event` and returns what the driver does next.
    pub fn handle(&mut self, event: UpdateEvent) -> (a: UpdateAction)
        ensures
            (*final(self), a) == transition(*old(self), event),
    {
        match (self.phase, event) {
            (UpdatePhase::Idle, UpdateEvent::Launched) => {
                self.phase = UpdatePhase::Checking;
                UpdateAction::CheckForUpdate
            },
            (UpdatePhase::Checking, UpdateEvent::CheckFinished { newer_available }) => {
                if newer_available {
                    self.phase = UpdatePhase::Downloading;
                    self.downloaded = 0;
                    self.total = None;
                    UpdateAction::Download
                } else {
                    self.phase = UpdatePhase::NoUpdate;
                    UpdateAction::Nothing
                }
            },
            (UpdatePhase::Downloading, UpdateEvent::ChunkReceived { length, total }) => {
                match self.downloaded.checked_add(length) {
                    Some(d) => {
                        self.downloaded = d;
                        self.total = total;
                        UpdateAction::ReportProgress { downloaded: d, total }
                    },
                    None => {
                        self.phase = UpdatePhase::Failed;
                        UpdateAction::LogFailure
                    },
                }
            },
            (UpdatePhase::Downloading, UpdateEvent::DownloadFinished) => {
                self.phase = UpdatePhase::Installing;
                UpdateAction::Install
            },
            (UpdatePhase::Installing, UpdateEvent::Installed) => {
                self.phase = UpdatePhase::Restarting;
                UpdateAction::Restart
            },
            (UpdatePhase::Checking, UpdateEvent::Failure)
            | (UpdatePhase::Downloading, UpdateEvent::Failure)
            | (UpdatePhase::Installing, UpdateEvent::Failure) => {
                self.phase = UpdatePhase::Failed;
                UpdateAction::LogFailure
            },
            _ => UpdateAction::Nothing,
        }
    }
}

/// The state reached and the actions asked for when `events` are handled in
/// order, starting from `s`.
pub open spec fn run(s: UpdateChecker, events: Seq<UpdateEvent>) -> (UpdateChecker, Seq<
    UpdateAction,
>)
    decreases events.len(),
{
    if events.len() == 0 {
        (s, seq![])
    } else {
        let (mid, acts) = run(s, events.drop_last());
        let (next, a) = transition(mid, events.last());
        (next, acts.push(a))
    }
}

/// The total length of `lengths`.
pub open spec fn sum_lengths(lengths: Seq<u64>) -> nat
    decreases lengths.len(),
{
    if lengths.len() == 0 {
        0
    } else {
        sum_lengths(lengths.drop_last()) + lengths.last() as nat
    }
}

/// One chunk event per length, each declaring `total` as the payload size.
pub open spec fn chunk_events(lengths: Seq<u64>, total: Option<u64>) -> Seq<UpdateEvent> {
    Seq::new(lengths.len(), |i: int| UpdateEvent::ChunkReceived { length: lengths[i], total })
}

/// The progress reports for `lengths` received on top of `start` bytes: each
/// one gives the bytes received up to and including its chunk.
pub open spec fn progress_reports(start: nat, lengths: Seq<u64>, total: Option<u64>) -> Seq<
    UpdateAction,
> {
    Seq::new(
        lengths.len(),
        |i: int|
            UpdateAction::ReportProgress {
                downloaded: (start + sum_lengths(lengths.take(i + 1))) as u64,
                total,
            },
    )
}

/// Handling events in two batches is handling them all at once.
pub proof fn lemma_run_append(s: UpdateChecker, first: Seq<UpdateEvent>, second: Seq<UpdateEvent>)
    ensures
        run(s, first + second).0 == run(run(s, first).0, second).0,
        run(s, first + second).1 == run(s, first).1 + run(run(s, first).0, second).1,
    decreases second.len(),
{
    if second.len() == 0 {
        assert(first + second =~= first);
        assert(run(s, first).1 + run(run(s, first).0, second).1 =~= run(s, first).1);
    } else {
        lemma_run_append(s, first, second.drop_last());
        assert((first + second).drop_last() =~= first + second.drop_last());
        assert((first + second).last() == second.last());
        let mid = run(s, first).0;
        assert(run(s, first).1 + run(mid, second.drop_last()).1.push(
            transition(run(mid, second.drop_last()).0, second.last()).1,
        ) =~= (run(s, first).1 + run(mid, second.drop_last()).1).push(
            transition(run(mid, second.drop_last()).0, second.last()).1,
        ));
    }
}

/// Once the check has ended (no update, restarting, or failed), the checker
/// stays where it is and asks for nothing, whatever it is told.
pub proof fn lemma_terminal_is_quiet(s: UpdateChecker, events: Seq<UpdateEvent>)
    requires
        is_terminal(s.phase),
    ensures
        run(s, events).0 == s,
        run(s, events).1 =~= Seq::new(events.len(), |i: int| UpdateAction::Nothing),
    decreases events.len(),
{
    if events.len() > 0 {
        lemma_terminal_is_quiet(s, events.drop_last());
    }
}

/// When the update service reports no newer version, the check ends quietly:
/// after asking for the check, the checker asks for no download, install or
/// restart, nor anything else, whatever it is told afterwards.
pub proof fn lemma_no_newer_version_is_quiet(later: Seq<UpdateEvent>)
    ensures
        ({
            let (s, acts) = run(
                idle(),
                seq![UpdateEvent::Launched, UpdateEvent::CheckFinished { newer_available: false }]
                    + later,
            );
            &&& s.phase == UpdatePhase::NoUpdate
            &&& acts.len() == later.len() + 2
            &&& acts[0] == UpdateAction::CheckForUpdate
            &&& forall|i: int| 1 <= i < acts.len() ==> acts[i] == UpdateAction::Nothing
        }),
{
    let start = seq![UpdateEvent::Launched, UpdateEvent::CheckFinished { newer_available: false }];
    assert(start.drop_last() =~= seq![UpdateEvent::Launched]);
    assert(start.drop_last().drop_last() =~= Seq::<UpdateEvent>::empty());
    let one = start.drop_last();
    assert(run(idle(), one.drop_last()) == (idle(), Seq::<UpdateAction>::empty()));
    let checking = UpdateChecker { phase: UpdatePhase::Checking, ..idle() };
    assert(run(idle(), one) == (checking, seq![UpdateAction::CheckForUpdate]));
    let s1 = UpdateChecker { phase: UpdatePhase::NoUpdate, ..idle() };
    assert(seq![UpdateAction::CheckForUpdate].push(UpdateAction::Nothing) =~= seq![
        UpdateAction::CheckForUpdate,
        UpdateAction::Nothing,
    ]);
    assert(run(idle(), start) == (s1, seq![UpdateAction::CheckForUpdate, UpdateAction::Nothing]));
    lemma_run_append(idle(), start, later);
    lemma_terminal_is_quiet(s1, later);
}

/// While the payload downloads, each chunk adds its length to the bytes
/// received and is reported as the running total with the declared size,
/// as long as the count fits in 64 bits.
pub proof fn lemma_progress_is_running_total(
    s: UpdateChecker,
    lengths: Seq<u64>,
    total: Option<u64>,
)
    requires
        s.phase == UpdatePhase::Downloading,
        s.downloaded + sum_lengths(lengths) <= u64::MAX,
    ensures
        run(s, chunk_events(lengths, total)).0.phase == UpdatePhase::Downloading,
        run(s, chunk_events(lengths, total)).0.downloaded == s.downloaded + sum_lengths(lengths),
        lengths.len() > 0 ==> run(s, chunk_events(lengths, total)).0.total == total,
        run(s, chunk_events(lengths, total)).1 =~= progress_reports(
            s.downloaded as nat,
            lengths,
            total,
        ),
    decreases lengths.len(),
{
    if lengths.len() > 0 {
        let front = lengths.drop_last();
        assert(chunk_events(lengths, total).drop_last() =~= chunk_events(front, total));
        lemma_progress_is_running_total(s, front, total);
        assert(lengths.take(lengths.len() as int) =~= lengths);
        assert forall|i: int| 0 <= i < front.len() implies #[trigger] front.take(i + 1)
            =~= lengths.take(i + 1) by {}
    }
}

/// When a newer version exists, the checker asks for the check, the
/// download, one progress report per chunk giving the bytes received so far
/// with the declared size, then the install and the restart, in that order.
pub proof fn lemma_update_lifecycle(lengths: Seq<u64>, total: Option<u64>)
    requires
        sum_lengths(lengths) <= u64::MAX,
    ensures
        ({
            let events = seq![
                UpdateEvent::Launched,
                UpdateEvent::CheckFinished { newer_available: true },
            ] + chunk_events(lengths, total) + seq![
                UpdateEvent::DownloadFinished,
                UpdateEvent::Installed,
            ];
            &&& run(idle(), events).0.phase == UpdatePhase::Restarting
            &&& run(idle(), events).1 =~= seq![UpdateAction::CheckForUpdate, UpdateAction::Download]
                + progress_reports(0, lengths, total) + seq![
                UpdateAction::Install,
                UpdateAction::Restart,
            ]
        }),
{
    let start = seq![UpdateEvent::Launched, UpdateEvent::CheckFinished { newer_available: true }];
    let chunks = chunk_events(lengths, total);
    let finish = seq![UpdateEvent::DownloadFinished, UpdateEvent::Installed];
    let one = start.drop_last();
    assert(one.drop_last() =~= Seq::<UpdateEvent>::empty());
    assert(run(idle(), one.drop_last()) == (idle(), Seq::<UpdateAction>::empty()));
    let checking = UpdateChecker { phase: UpdatePhase::Checking, ..idle() };
    assert(run(idle(), one) == (checking, seq![UpdateAction::CheckForUpdate]));
    let d0 = UpdateChecker { phase: UpdatePhase::Downloading, downloaded: 0, total: None };
    assert(seq![UpdateAction::CheckForUpdate].push(UpdateAction::Download) =~= seq![
        UpdateAction::CheckForUpdate,
        UpdateAction::Download,
    ]);
    assert(run(idle(), start) == (d0, seq![UpdateAction::CheckForUpdate, UpdateAction::Download]));
    lemma_run_append(idle(), start, chunks);
    lemma_progress_is_running_total(d0, lengths, total);
    let d1 = run(d0, chunks).0;
    lemma_run_append(idle(), start + chunks, finish);
    assert(finish.drop_last() =~= seq![UpdateEvent::DownloadFinished]);
    assert(finish.drop_last().drop_last() =~= Seq::<UpdateEvent>::empty());
    assert(run(d1, finish.drop_last().drop_last()) == (d1, Seq::<UpdateAction>::empty()));
    let inst = UpdateChecker { phase: UpdatePhase::Installing, ..d1 };
    assert(run(d1, finish.drop_last()) == (inst, seq![UpdateAction::Install]));
    let rest = UpdateChecker { phase: UpdatePhase::Restarting, ..d1 };
    assert(seq![UpdateAction::Install].push(UpdateAction::Restart) =~= seq![
        UpdateAction::Install,
        UpdateAction::Restart,
    ]);
    assert(run(d1, finish) == (rest, seq![UpdateAction::Install, UpdateAction::Restart]));
}

} // verus!
