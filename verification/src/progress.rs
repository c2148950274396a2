//! Progress events that download tasks report, and the bookkeeping of the
//! progress bars that display them.
use vstd::prelude::*;

verus! {

/// An event reported by a download task, identified by the task's id.
#[derive(Debug)]
pub enum Progress {
    /// A download of `size` bytes has started.
    Start { id: usize, name: String, size: u64 },
    /// The task starts a new phase of `size` bytes, shown under `name`.
    Reset { id: usize, name: String, size: u64 },
    /// `n` more bytes were processed.
    Inc { id: usize, n: u64 },
    /// The task completed successfully.
    Finish { id: usize },
    /// The task failed; `msg` says why.
    Error { id: usize, msg: String },
}

} // verus!

verus! {

/// What to do with the progress bars in response to an event.
#[derive(Debug)]
pub enum BarCommand {
    /// Add a bar of length `size` for task `id`, labelled `message`.
    Add { id: usize, size: u64, message: String },
    /// Set the bar of `id` to length `size`, rewind it, and label it `message`.
    Restart { id: usize, size: u64, message: String },
    /// Advance the bar of `id` by `n`.
    Advance { id: usize, n: u64 },
    /// Remove the bar of `id` and clear it from the display.
    Clear { id: usize },
    /// Remove the bar of `id`, leaving it displayed with `message`.
    Close { id: usize, message: String },
    /// Print `message` above the bars.
    Print { message: String },
    /// Nothing to do.
    Skip,
}

/// The response to `msg` when the tasks in `live` have a bar: the tasks that
/// have a bar afterwards, and the command.
pub open spec fn bar_step(live: Set<usize>, msg: Progress) -> (Set<usize>, BarCommand) {
    match msg {
        Progress::Start { id, name, size } =>
            (live.insert(id), BarCommand::Add { id, size, message: name }),
        Progress::Reset { id, name, size } =>
            if live.contains(id) {
                (live, BarCommand::Restart { id, size, message: name })
            } else {
                (live, BarCommand::Skip)
            },
        Progress::Inc { id, n } =>
            if live.contains(id) { (live, BarCommand::Advance { id, n }) } else { (live, BarCommand::Skip) },
        Progress::Finish { id } =>
            if live.contains(id) { (live.remove(id), BarCommand::Clear { id }) } else { (live, BarCommand::Skip) },
        Progress::Error { id, msg } =>
            if live.contains(id) {
                (live.remove(id), BarCommand::Close { id, message: msg })
            } else {
                (live, BarCommand::Skip)
            },
    }
}

/// Once a task has finished or failed, its later increments and resets are
/// not shown until it starts again; a start always adds a bar.
pub proof fn lemma_closed_bar_ignores_updates(live: Set<usize>, id: usize, n: u64, name: String, size: u64, msg: String)
    ensures
        ({
            let after = bar_step(live, Progress::Finish { id }).0;
            &&& !after.contains(id)
            &&& bar_step(after, Progress::Inc { id, n }) == (after, BarCommand::Skip)
            &&& bar_step(after, Progress::Reset { id, name, size }) == (after, BarCommand::Skip)
        }),
        ({
            let after = bar_step(live, Progress::Error { id, msg }).0;
            &&& !after.contains(id)
            &&& bar_step(after, Progress::Inc { id, n }) == (after, BarCommand::Skip)
            &&& bar_step(after, Progress::Reset { id, name, size }) == (after, BarCommand::Skip)
        }),
        bar_step(live, Progress::Start { id, name, size }).0.contains(id),
        bar_step(live, Progress::Start { id, name, size }).1 == (BarCommand::Add { id, size, message: name }),
{
}

/// An event about one task changes only that task's bar: every other task
/// has a bar afterwards exactly when it had one before. A start gives the
/// task a bar, an outcome takes it away, and an increment or a reset leaves
/// the board as it is; an increment is shown exactly when the task has a bar.
pub proof fn lemma_route_touches_one_task(live: Set<usize>, msg: Progress)
    ensures
        forall|j: usize| j != event_id(msg) ==> (#[trigger] bar_step(live, msg).0.contains(j)
            == live.contains(j)),
        msg is Start ==> bar_step(live, msg).0.contains(event_id(msg)),
        (msg is Finish || msg is Error) ==> !bar_step(live, msg).0.contains(event_id(msg)),
        (msg is Inc || msg is Reset) ==> bar_step(live, msg).0 == live,
        msg matches Progress::Inc { id, n } ==> (bar_step(live, msg).1 == (BarCommand::Advance {
            id,
            n,
        }) <==> live.contains(id)),
{
}

/// The tasks that currently have a progress bar on display.
pub struct BarBoard {
    live: std::collections::HashSet<usize>,
}

impl View for BarBoard {
    type V = Set<usize>;

    closed spec fn view(&self) -> Set<usize> {
        self.live@
    }
}

impl BarBoard {
    /// A board on which no task has a bar.
    pub fn new() -> (b: Self)
        ensures
            b@ == Set::<usize>::empty(),
    {
        BarBoard { live: std::collections::HashSet::new() }
    }

    /// Whether task `id` has a bar.
    pub fn has_bar(&self, id: usize) -> (b: bool)
        ensures
            b == self@.contains(id),
    {
        broadcast use vstd::std_specs::hash::group_hash_axioms;
        self.live.contains(&id)
    }

    /// Records that task `id` has a bar.
    pub fn open_bar(&mut self, id: usize)
        ensures
            final(self)@ == old(self)@.insert(id),
    {
        broadcast use vstd::std_specs::hash::group_hash_axioms;
        self.live.insert(id);
    }

    /// Records that task `id` no longer has a bar; whether it had one.
    pub fn close_bar(&mut self, id: usize) -> (had: bool)
        ensures
            had == old(self)@.contains(id),
            final(self)@ == old(self)@.remove(id),
    {
        broadcast use vstd::std_specs::hash::group_hash_axioms;
        self.live.remove(&id)
    }

    /// Updates the board for `msg` and says what to do with the bars.
    pub fn route(&mut self, msg: Progress) -> (c: BarCommand)
        ensures
            (final(self)@, c) == bar_step(old(self)@, msg),
            match msg {
                Progress::Start { id, name, size } => final(self)@ == old(self)@.insert(id) && c == (
                BarCommand::Add { id, size, message: name }),
                Progress::Reset { id, name, size } => final(self)@ == old(self)@ && c == if old(
                    self,
                )@.contains(id) {
                    BarCommand::Restart { id, size, message: name }
                } else {
                    BarCommand::Skip
                },
                Progress::Inc { id, n } => final(self)@ == old(self)@ && c == if old(self)@.contains(
                    id,
                ) {
                    BarCommand::Advance { id, n }
                } else {
                    BarCommand::Skip
                },
                Progress::Finish { id } => final(self)@ == old(self)@.remove(id) && c == if old(
                    self,
                )@.contains(id) {
                    BarCommand::Clear { id }
                } else {
                    BarCommand::Skip
                },
                Progress::Error { id, msg: m } => final(self)@ == old(self)@.remove(id) && c == if old(
                    self,
                )@.contains(id) {
                    BarCommand::Close { id, message: m }
                } else {
                    BarCommand::Skip
                },
            },
            forall|j: usize| j != event_id(msg) ==> (final(self)@.contains(j) == old(self)@.contains(j)),
    {
        match msg {
            Progress::Start { id, name, size } => {
                self.open_bar(id);
                BarCommand::Add { id, size, message: name }
            },
            Progress::Reset { id, name, size } => {
                if self.has_bar(id) {
                    BarCommand::Restart { id, size, message: name }
                } else {
                    BarCommand::Skip
                }
            },
            Progress::Inc { id, n } => {
                if self.has_bar(id) {
                    BarCommand::Advance { id, n }
                } else {
                    BarCommand::Skip
                }
            },
            Progress::Finish { id } => {
                if self.close_bar(id) {
                    BarCommand::Clear { id }
                } else {
                    BarCommand::Skip
                }
            },
            Progress::Error { id, msg } => {
                if self.close_bar(id) {
                    BarCommand::Close { id, message: msg }
                } else {
                    BarCommand::Skip
                }
            },
        }
    }
}

} // verus!

verus! {

/// Where a download task stands in what it has reported.
#[derive(Debug, Clone, Copy, PartialEq, Eq, Structural)]
pub enum TaskPhase {
    /// Nothing reported yet.
    Idle,
    /// The download has started (`Start`); increments report stored bytes.
    Transfer,
    /// The file is being checked (`Reset`); increments report hashed bytes.
    Verify,
    /// The task has reported its outcome (`Finish` or `Error`).
    Closed,
}

/// The task that `e` is about.
pub open spec fn event_id(e: Progress) -> usize {
    match e {
        Progress::Start { id, .. } => id,
        Progress::Reset { id, .. } => id,
        Progress::Inc { id, .. } => id,
        Progress::Finish { id } => id,
        Progress::Error { id, .. } => id,
    }
}

/// Whether `e` reports the outcome of a task.
pub open spec fn is_outcome(e: Progress) -> bool {
    e is Finish || e is Error
}

/// The phase that task `id` is in after reporting `e` in `phase`, or `None`
/// if a task never reports `e` there. A task either finishes at once (its
/// file already exists) or starts; it then reports increments, may switch
/// once to verification and report increments again, and ends with exactly
/// one outcome, after which it reports nothing.
pub open spec fn advance(id: usize, phase: TaskPhase, e: Progress) -> Option<TaskPhase> {
    if event_id(e) != id {
        None
    } else {
        match phase {
            TaskPhase::Idle => match e {
                Progress::Start { .. } => Some(TaskPhase::Transfer),
                Progress::Finish { .. } => Some(TaskPhase::Closed),
                _ => None,
            },
            TaskPhase::Transfer => match e {
                Progress::Inc { .. } => Some(TaskPhase::Transfer),
                Progress::Reset { .. } => Some(TaskPhase::Verify),
                Progress::Finish { .. } => Some(TaskPhase::Closed),
                Progress::Error { .. } => Some(TaskPhase::Closed),
                _ => None,
            },
            TaskPhase::Verify => match e {
                Progress::Inc { .. } => Some(TaskPhase::Verify),
                Progress::Finish { .. } => Some(TaskPhase::Closed),
                Progress::Error { .. } => Some(TaskPhase::Closed),
                _ => None,
            },
            TaskPhase::Closed => None,
        }
    }
}

/// The phase after reporting `events` in order from `phase`, or `None` if
/// one of them is out of place.
pub open spec fn replay(id: usize, phase: TaskPhase, events: Seq<Progress>) -> Option<TaskPhase>
    decreases events.len(),
{
    if events.len() == 0 {
        Some(phase)
    } else {
        match advance(id, phase, events[0]) {
            Some(next) => replay(id, next, events.drop_first()),
            None => None,
        }
    }
}

/// Replaying two sequences one after the other is replaying their concatenation.
pub proof fn lemma_replay_concat(id: usize, phase: TaskPhase, a: Seq<Progress>, b: Seq<Progress>)
    ensures
        replay(id, phase, a + b) == (match replay(id, phase, a) {
            Some(mid) => replay(id, mid, b),
            None => None,
        }),
    decreases a.len(),
{
    if a.len() > 0 {
        assert((a + b).drop_first() =~= a.drop_first() + b);
        match advance(id, phase, a[0]) {
            Some(next) => lemma_replay_concat(id, next, a.drop_first(), b),
            None => {},
        }
    } else {
        assert(a + b =~= b);
    }
}

/// Replaying one event is one step.
proof fn lemma_replay_one(id: usize, phase: TaskPhase, e: Progress)
    ensures
        replay(id, phase, seq![e]) == advance(id, phase, e),
{
    assert(seq![e].drop_first() =~= Seq::<Progress>::empty());
    reveal_with_fuel(replay, 2);
}

/// Increments that are each accepted in `phase` leave the task in `phase`.
pub proof fn lemma_replay_increments(id: usize, phase: TaskPhase, incs: Seq<Progress>)
    requires
        forall|i: int| 0 <= i < incs.len() ==> advance(id, phase, #[trigger] incs[i]) == Some(phase),
    ensures
        replay(id, phase, incs) == Some(phase),
    decreases incs.len(),
{
    if incs.len() > 0 {
        assert(advance(id, phase, incs[0]) == Some(phase));
        assert forall|i: int| 0 <= i < incs.drop_first().len() implies advance(
            id,
            phase,
            #[trigger] incs.drop_first()[i],
        ) == Some(phase) by {
            assert(incs.drop_first()[i] == incs[i + 1]);
        }
        lemma_replay_increments(id, phase, incs.drop_first());
    }
}

proof fn lemma_replay_shape(id: usize, phase: TaskPhase, events: Seq<Progress>)
    requires
        replay(id, phase, events) is Some,
    ensures
        forall|i: int| 0 <= i < events.len() ==> event_id(#[trigger] events[i]) == id,
        phase == TaskPhase::Closed ==> events.len() == 0,
        forall|i: int| 0 <= i < events.len() && (i > 0 || phase != TaskPhase::Idle) ==> !(
        #[trigger] events[i] is Start),
        forall|i: int| 0 <= i < events.len() - 1 ==> !is_outcome(#[trigger] events[i]),
        replay(id, phase, events) == Some(TaskPhase::Closed) && phase != TaskPhase::Closed ==> (
        events.len() > 0 && is_outcome(events.last())),
        phase == TaskPhase::Verify ==> forall|i: int| 0 <= i < events.len() ==> !(
        #[trigger] events[i] is Reset),
        forall|i: int, j: int| 0 <= i < j < events.len() && (#[trigger] events[i]) is Reset ==> !(
        #[trigger] events[j] is Reset),
        replay(id, phase, events) != Some(TaskPhase::Closed) ==> forall|i: int|
            0 <= i < events.len() ==> !is_outcome(#[trigger] events[i]),
    decreases events.len(),
{
    if events.len() > 0 {
        let next = advance(id, phase, events[0])->0;
        let rest = events.drop_first();
        lemma_replay_shape(id, next, rest);
        assert forall|i: int| 0 < i < events.len() implies #[trigger] events[i] == rest[i - 1] by {}
        if is_outcome(events[0]) {
            assert(next == TaskPhase::Closed);
            assert(rest.len() == 0);
        }
        if events[0] is Reset {
            assert(next == TaskPhase::Verify);
        }
    }
}

/// The events that a task reports, in the order it reports them, follow its
/// lifecycle: all carry its id; the first is `Start`, unless the task
/// finished at once with a lone `Finish`; no later event is a `Start`; at
/// most one is a `Reset`; and exactly one outcome (`Finish` or `Error`) is
/// reported, last.
pub proof fn lemma_report_order(id: usize, events: Seq<Progress>)
    requires
        replay(id, TaskPhase::Idle, events) == Some(TaskPhase::Closed),
    ensures
        events.len() > 0,
        forall|i: int| 0 <= i < events.len() ==> event_id(#[trigger] events[i]) == id,
        events[0] is Start || (events.len() == 1 && events[0] is Finish),
        forall|i: int| 0 < i < events.len() ==> !(#[trigger] events[i] is Start),
        forall|i: int, j: int| 0 <= i < j < events.len() && (#[trigger] events[i]) is Reset ==> !(
        #[trigger] events[j] is Reset),
        is_outcome(events.last()),
        forall|i: int| 0 <= i < events.len() - 1 ==> !is_outcome(#[trigger] events[i]),
{
    lemma_replay_shape(id, TaskPhase::Idle, events);
    let first = events[0];
    assert(advance(id, TaskPhase::Idle, first) is Some);
    if first is Finish {
        lemma_replay_shape(id, TaskPhase::Closed, events.drop_first());
    }
}

/// A download reports, in this order, its `start`, the increments `stored`
/// of the transfer, optionally a `verify` phase switch followed by the
/// increments `hashed`, and its `outcome`; when each of these is an event
/// that the corresponding step accepts, the whole is a complete lifecycle.
pub proof fn lemma_download_lifecycle(
    id: usize,
    start: Progress,
    stored: Seq<Progress>,
    verify: Option<Progress>,
    hashed: Seq<Progress>,
    outcome: Progress,
)
    requires
        advance(id, TaskPhase::Idle, start) == Some(TaskPhase::Transfer),
        forall|i: int| 0 <= i < stored.len() ==> advance(id, TaskPhase::Transfer, #[trigger] stored[i])
            == Some(TaskPhase::Transfer),
        verify is None ==> hashed.len() == 0 && advance(id, TaskPhase::Transfer, outcome) == Some(
            TaskPhase::Closed,
        ),
        verify matches Some(v) ==> advance(id, TaskPhase::Transfer, v) == Some(TaskPhase::Verify)
            && advance(id, TaskPhase::Verify, outcome) == Some(TaskPhase::Closed),
        forall|i: int| 0 <= i < hashed.len() ==> advance(id, TaskPhase::Verify, #[trigger] hashed[i])
            == Some(TaskPhase::Verify),
    ensures
        replay(
            id,
            TaskPhase::Idle,
            seq![start] + stored + (match verify {
                Some(v) => seq![v],
                None => Seq::empty(),
            }) + hashed + seq![outcome],
        ) == Some(TaskPhase::Closed),
{
    let v: Seq<Progress> = match verify {
        Some(v) => seq![v],
        None => Seq::empty(),
    };
    let after = match verify {
        Some(_) => TaskPhase::Verify,
        None => TaskPhase::Transfer,
    };
    lemma_replay_increments(id, TaskPhase::Transfer, stored);
    lemma_replay_increments(id, TaskPhase::Verify, hashed);
    lemma_replay_one(id, TaskPhase::Idle, start);
    lemma_replay_concat(id, TaskPhase::Idle, seq![start], stored);
    match verify {
        Some(x) => {
            lemma_replay_one(id, TaskPhase::Transfer, x);
        },
        None => {
            assert(v =~= Seq::<Progress>::empty());
        },
    }
    lemma_replay_concat(id, TaskPhase::Idle, seq![start] + stored, v);
    assert(replay(id, after, hashed) == Some(after)) by {
        if verify is None {
            assert(hashed =~= Seq::<Progress>::empty());
        }
    }
    lemma_replay_concat(id, TaskPhase::Idle, seq![start] + stored + v, hashed);
    lemma_replay_one(id, after, outcome);
    lemma_replay_concat(id, TaskPhase::Idle, seq![start] + stored + v + hashed, seq![outcome]);
}

} // verus!
