//! Single-request downloads that report their own progress messages: each
//! asset is fetched in one request while its SHA-256 digest is computed.
use vstd::prelude::*;
use crate::download::utf8_path_join;
use crate::hashing::{DigestStream, hex_lower, sha256};
use crate::metadata::Asset;
use crate::progress::{BarBoard, BarCommand, TaskPhase};
use crate::download::{content_accepted, digest_accepted};

verus! {

/// An event reported by a single-request download, identified by task id.
#[derive(Debug)]
pub enum ProgressMsg {
    /// The download of `total_size` bytes (0 if unknown) has started.
    Start { id: usize, name: String, total_size: u64 },
    /// `n` more bytes arrived.
    Inc { id: usize, n: u64 },
    /// The task completed; `msg` says how.
    Finish { id: usize, msg: String },
    /// The task failed; `msg` says why.
    Error { id: usize, msg: String },
}

/// The label of the bar of a download of `name`.
pub open spec fn downloading_label(name: Seq<char>) -> Seq<char> {
    "Downloading "@ + name
}

/// The task that `m` is about.
pub open spec fn msg_id(m: ProgressMsg) -> usize {
    match m {
        ProgressMsg::Start { id, .. } => id,
        ProgressMsg::Inc { id, .. } => id,
        ProgressMsg::Finish { id, .. } => id,
        ProgressMsg::Error { id, .. } => id,
    }
}

/// Whether `m` reports the outcome of a task.
pub open spec fn is_final_msg(m: ProgressMsg) -> bool {
    m is Finish || m is Error
}

/// The phase that task `id` is in after reporting `m` in `phase`, or `None`
/// if a single-request download never reports `m` there: it either finishes
/// at once (its file exists) or starts, reports increments, and ends with
/// exactly one outcome, after which it reports nothing.
pub open spec fn direct_advance(id: usize, phase: TaskPhase, m: ProgressMsg) -> Option<TaskPhase> {
    if msg_id(m) != id {
        None
    } else {
        match phase {
            TaskPhase::Idle => match m {
                ProgressMsg::Start { .. } => Some(TaskPhase::Transfer),
                ProgressMsg::Finish { .. } => Some(TaskPhase::Closed),
                _ => None,
            },
            TaskPhase::Transfer => match m {
                ProgressMsg::Inc { .. } => Some(TaskPhase::Transfer),
                ProgressMsg::Finish { .. } => Some(TaskPhase::Closed),
                ProgressMsg::Error { .. } => Some(TaskPhase::Closed),
                _ => None,
            },
            _ => None,
        }
    }
}

/// The phase after reporting `msgs` in order from `phase`, or `None` if one
/// of them is out of place.
pub open spec fn direct_replay(id: usize, phase: TaskPhase, msgs: Seq<ProgressMsg>) -> Option<TaskPhase>
    decreases msgs.len(),
{
    if msgs.len() == 0 {
        Some(phase)
    } else {
        match direct_advance(id, phase, msgs[0]) {
            Some(next) => direct_replay(id, next, msgs.drop_first()),
            None => None,
        }
    }
}

proof fn lemma_direct_shape(id: usize, phase: TaskPhase, msgs: Seq<ProgressMsg>)
    requires
        direct_replay(id, phase, msgs) is Some,
    ensures
        forall|i: int| 0 <= i < msgs.len() ==> msg_id(#[trigger] msgs[i]) == id,
        phase == TaskPhase::Closed ==> msgs.len() == 0,
        forall|i: int| 0 <= i < msgs.len() && (i > 0 || phase != TaskPhase::Idle) ==> !(
        #[trigger] msgs[i] is Start),
        forall|i: int| 0 <= i < msgs.len() - 1 ==> !is_final_msg(#[trigger] msgs[i]),
        direct_replay(id, phase, msgs) == Some(TaskPhase::Closed) && phase != TaskPhase::Closed ==> (
        msgs.len() > 0 && is_final_msg(msgs.last())),
    decreases msgs.len(),
{
    if msgs.len() > 0 {
        let next = direct_advance(id, phase, msgs[0])->0;
        let rest = msgs.drop_first();
        lemma_direct_shape(id, next, rest);
        assert forall|i: int| 0 < i < msgs.len() implies #[trigger] msgs[i] == rest[i - 1] by {}
        if is_final_msg(msgs[0]) {
            assert(next == TaskPhase::Closed);
            assert(rest.len() == 0);
        }
    }
}

/// The messages that a single-request download reports, in order, follow its
/// lifecycle: all carry its id; the first is `Start`, unless the task
/// finished at once with a lone `Finish`; no later one is a `Start`; and
/// exactly one outcome (`Finish` or `Error`) is reported, last.
pub proof fn lemma_direct_report_order(id: usize, msgs: Seq<ProgressMsg>)
    requires
        direct_replay(id, TaskPhase::Idle, msgs) == Some(TaskPhase::Closed),
    ensures
        msgs.len() > 0,
        forall|i: int| 0 <= i < msgs.len() ==> msg_id(#[trigger] msgs[i]) == id,
        msgs[0] is Start || (msgs.len() == 1 && msgs[0] is Finish),
        forall|i: int| 0 < i < msgs.len() ==> !(#[trigger] msgs[i] is Start),
        is_final_msg(msgs.last()),
        forall|i: int| 0 <= i < msgs.len() - 1 ==> !is_final_msg(#[trigger] msgs[i]),
{
    lemma_direct_shape(id, TaskPhase::Idle, msgs);
    assert(direct_advance(id, TaskPhase::Idle, msgs[0]) is Some);
    if msgs[0] is Finish {
        lemma_direct_shape(id, TaskPhase::Closed, msgs.drop_first());
    }
}

proof fn lemma_direct_replay_concat(id: usize, phase: TaskPhase, a: Seq<ProgressMsg>, b: Seq<ProgressMsg>)
    ensures
        direct_replay(id, phase, a + b) == (match direct_replay(id, phase, a) {
            Some(mid) => direct_replay(id, mid, b),
            None => None,
        }),
    decreases a.len(),
{
    if a.len() > 0 {
        assert((a + b).drop_first() =~= a.drop_first() + b);
        match direct_advance(id, phase, a[0]) {
            Some(next) => lemma_direct_replay_concat(id, next, a.drop_first(), b),
            None => {},
        }
    } else {
        assert(a + b =~= b);
    }
}

proof fn lemma_direct_replay_one(id: usize, phase: TaskPhase, m: ProgressMsg)
    ensures
        direct_replay(id, phase, seq![m]) == direct_advance(id, phase, m),
{
    assert(seq![m].drop_first() =~= Seq::<ProgressMsg>::empty());
    reveal_with_fuel(direct_replay, 2);
}

proof fn lemma_direct_replay_increments(id: usize, incs: Seq<ProgressMsg>)
    requires
        forall|i: int| 0 <= i < incs.len() ==> direct_advance(id, TaskPhase::Transfer, #[trigger] incs[i])
            == Some(TaskPhase::Transfer),
    ensures
        direct_replay(id, TaskPhase::Transfer, incs) == Some(TaskPhase::Transfer),
    decreases incs.len(),
{
    if incs.len() > 0 {
        assert(direct_advance(id, TaskPhase::Transfer, incs[0]) == Some(TaskPhase::Transfer));
        assert forall|i: int| 0 <= i < incs.drop_first().len() implies direct_advance(
            id,
            TaskPhase::Transfer,
            #[trigger] incs.drop_first()[i],
        ) == Some(TaskPhase::Transfer) by {
            assert(incs.drop_first()[i] == incs[i + 1]);
        }
        lemma_direct_replay_increments(id, incs.drop_first());
    }
}

/// A single-request download reports its `start`, the increments `received`
/// and its `outcome`; when each is an event that its step accepts, the whole
/// is a complete lifecycle.
pub proof fn lemma_direct_lifecycle(
    id: usize,
    start: ProgressMsg,
    received: Seq<ProgressMsg>,
    outcome: ProgressMsg,
)
    requires
        direct_advance(id, TaskPhase::Idle, start) == Some(TaskPhase::Transfer),
        forall|i: int| 0 <= i < received.len() ==> direct_advance(id, TaskPhase::Transfer, #[trigger] received[i])
            == Some(TaskPhase::Transfer),
        direct_advance(id, TaskPhase::Transfer, outcome) == Some(TaskPhase::Closed),
    ensures
        direct_replay(id, TaskPhase::Idle, seq![start] + received + seq![outcome]) == Some(
            TaskPhase::Closed,
        ),
{
    lemma_direct_replay_one(id, TaskPhase::Idle, start);
    lemma_direct_replay_increments(id, received);
    lemma_direct_replay_concat(id, TaskPhase::Idle, seq![start], received);
    lemma_direct_replay_one(id, TaskPhase::Transfer, outcome);
    lemma_direct_replay_concat(id, TaskPhase::Idle, seq![start] + received, seq![outcome]);
}

/// The message with which a conclusion ends the task.
pub open spec fn direct_outcome(c: DirectConclusion) -> ProgressMsg {
    match c {
        DirectConclusion::Finished(m) => m,
        DirectConclusion::Mismatch { notice, .. } => notice,
    }
}

/// The tasks that have a bar after `msg`, when those in `live` had one.
pub open spec fn direct_live(live: Set<usize>, msg: ProgressMsg) -> Set<usize> {
    match msg {
        ProgressMsg::Start { id, .. } => live.insert(id),
        ProgressMsg::Inc { .. } => live,
        ProgressMsg::Finish { id, .. } => live.remove(id),
        ProgressMsg::Error { id, .. } => live.remove(id),
    }
}

/// A message about one task changes only that task's bar: every other task
/// has a bar afterwards exactly when it had one before; a start gives the
/// task a bar, an outcome takes it away, an increment leaves the board as it is.
pub proof fn lemma_direct_touches_one_task(live: Set<usize>, msg: ProgressMsg)
    ensures
        forall|j: usize| j != msg_id(msg) ==> (#[trigger] direct_live(live, msg).contains(j)
            == live.contains(j)),
        msg is Start ==> direct_live(live, msg) == live.insert(msg_id(msg)),
        (msg is Finish || msg is Error) ==> direct_live(live, msg) == live.remove(msg_id(msg)),
        msg is Inc ==> direct_live(live, msg) == live,
{
}

impl BarBoard {
    /// Updates the board for a single-request download's `msg` and says what
    /// to do with the bars.
    pub fn route_direct(&mut self, msg: ProgressMsg) -> (c: BarCommand)
        ensures
            final(self)@ == direct_live(old(self)@, msg),
            match msg {
                ProgressMsg::Start { id, .. } => final(self)@ == old(self)@.insert(id),
                ProgressMsg::Inc { .. } => final(self)@ == old(self)@,
                ProgressMsg::Finish { id, .. } => final(self)@ == old(self)@.remove(id),
                ProgressMsg::Error { id, .. } => final(self)@ == old(self)@.remove(id),
            },
            forall|j: usize| j != msg_id(msg) ==> (final(self)@.contains(j) == old(self)@.contains(j)),
            match msg {
                ProgressMsg::Start { id, name, total_size } => c matches BarCommand::Add {
                    id: i,
                    size,
                    message,
                } && i == id && size == total_size && message@ == downloading_label(name@),
                ProgressMsg::Inc { id, n } => c == if old(self)@.contains(id) {
                    BarCommand::Advance { id, n }
                } else {
                    BarCommand::Skip
                },
                ProgressMsg::Finish { id, msg } => c == if old(self)@.contains(id) {
                    BarCommand::Close { id, message: msg }
                } else {
                    BarCommand::Print { message: msg }
                },
                ProgressMsg::Error { id, msg } => c == if old(self)@.contains(id) {
                    BarCommand::Close { id, message: msg }
                } else {
                    BarCommand::Skip
                },
            },
    {
        match msg {
            ProgressMsg::Start { id, name, total_size } => {
                self.open_bar(id);
                let mut message = String::new();
                message.append("Downloading ");
                message.append(name.as_str());
                BarCommand::Add { id, size: total_size, message }
            },
            ProgressMsg::Inc { id, n } => {
                if self.has_bar(id) {
                    BarCommand::Advance { id, n }
                } else {
                    BarCommand::Skip
                }
            },
            ProgressMsg::Finish { id, msg } => {
                if self.close_bar(id) {
                    BarCommand::Close { id, message: msg }
                } else {
                    BarCommand::Print { message: msg }
                }
            },
            ProgressMsg::Error { id, msg } => {
                if self.close_bar(id) {
                    BarCommand::Close { id, message: msg }
                } else {
                    BarCommand::Skip
                }
            },
        }
    }
}

/// The outcome of a single-request download once its digest is known.
pub enum DirectConclusion {
    /// The task is done; report the message.
    Finished(ProgressMsg),
    /// The content does not match its checksum: the file is to be deleted,
    /// `notice` reported, and the task failed with `reason`.
    Mismatch { notice: ProgressMsg, reason: String },
}

/// Downloads one asset into the assets directory.
pub struct DownloadAssetTask<'a> {
    pub id: usize,
    pub asset: &'a Asset,
    pub assets_dir: &'a str,
}

impl<'a> DownloadAssetTask<'a> {
    /// The path of the file in which the asset is stored.
    pub fn destination(&self) -> (p: String)
        ensures
            p@ == utf8_path_join(self.assets_dir@, self.asset.name_text()),
    {
        crate::download::join_path(self.assets_dir, self.asset.name())
    }

    /// The message for an asset whose file already exists.
    pub fn cached_notice(&self) -> (m: ProgressMsg)
        ensures
            m matches ProgressMsg::Finish { id, msg } && id == self.id && msg@ == "\u{2705} "@
                + self.asset.name_text() + " (cached)"@,
            direct_advance(self.id, TaskPhase::Idle, m) == Some(TaskPhase::Closed),
    {
        let mut msg = String::new();
        msg.append("\u{2705} ");
        msg.append(self.asset.name());
        msg.append(" (cached)");
        ProgressMsg::Finish { id: self.id, msg }
    }

    /// The message that starts the download; an unknown length counts as 0.
    pub fn started(&self, content_length: Option<u64>) -> (m: ProgressMsg)
        ensures
            m matches ProgressMsg::Start { id, name, total_size } && id == self.id && name@
                == self.asset.name_text() && total_size == (match content_length {
                Some(n) => n,
                None => 0,
            }),
            direct_advance(self.id, TaskPhase::Idle, m) == Some(TaskPhase::Transfer),
    {
        let total_size: u64 = match content_length {
            Some(n) => n,
            None => 0,
        };
        ProgressMsg::Start { id: self.id, name: self.asset.name().to_owned(), total_size }
    }

    /// The message that reports `n` more bytes received.
    pub fn received(&self, n: usize) -> (m: ProgressMsg)
        ensures
            m == (ProgressMsg::Inc { id: self.id, n: n as u64 }),
            direct_advance(self.id, TaskPhase::Transfer, m) == Some(TaskPhase::Transfer),
    {
        ProgressMsg::Inc { id: self.id, n: n as u64 }
    }

    /// The outcome for content whose SHA-256 digest, in lowercase hex, is `actual`.
    pub fn judge_digest(&self, actual: String) -> (c: DirectConclusion)
        ensures
            self.asset.sha256 is None ==> c is Finished,
            self.asset.sha256 matches Some(w) ==> (c is Finished <==> actual@ == w@),
            digest_accepted(self.asset.sha256_text(), actual@) ==> (c matches
                DirectConclusion::Finished(ProgressMsg::Finish { id, msg }) && id == self.id && msg@
                == "\u{2705} Downloaded "@ + self.asset.name_text()),
            !digest_accepted(self.asset.sha256_text(), actual@) ==> (c matches
                DirectConclusion::Mismatch { notice: ProgressMsg::Error { id, msg }, reason } && id
                == self.id && msg@ == "\u{274c} SHA-256 mismatch for "@ + self.asset.name_text()
                && reason@ == msg@),
            direct_advance(self.id, TaskPhase::Transfer, direct_outcome(c)) == Some(TaskPhase::Closed),
    {
        let accepted = match self.asset.expected_sha256() {
            Some(want) => {
                let expected = want.to_owned();
                actual == expected
            },
            None => true,
        };
        if accepted {
            let mut msg = String::new();
            msg.append("\u{2705} Downloaded ");
            msg.append(self.asset.name());
            DirectConclusion::Finished(ProgressMsg::Finish { id: self.id, msg })
        } else {
            let mut msg = String::new();
            msg.append("\u{274c} SHA-256 mismatch for ");
            msg.append(self.asset.name());
            let reason = msg.clone();
            DirectConclusion::Mismatch { notice: ProgressMsg::Error { id: self.id, msg }, reason }
        }
    }

    /// Checks the content hashed by `stream` against the asset's checksum.
    pub fn conclude(&self, stream: DigestStream) -> (c: DirectConclusion)
        ensures
            self.asset.sha256 is None ==> c is Finished,
            self.asset.sha256 matches Some(w) ==> (c is Finished <==> hex_lower(sha256(stream@)) == w@),
            content_accepted(self.asset.sha256_text(), sha256(stream@)) ==> (c matches
                DirectConclusion::Finished(ProgressMsg::Finish { id, msg }) && id == self.id && msg@
                == "\u{2705} Downloaded "@ + self.asset.name_text()),
            !content_accepted(self.asset.sha256_text(), sha256(stream@)) ==> (c matches
                DirectConclusion::Mismatch { notice: ProgressMsg::Error { id, msg }, reason } && id
                == self.id && msg@ == "\u{274c} SHA-256 mismatch for "@ + self.asset.name_text()
                && reason@ == msg@),
            direct_advance(self.id, TaskPhase::Transfer, direct_outcome(c)) == Some(TaskPhase::Closed),
    {
        self.judge_digest(stream.hex_digest())
    }
}

/// One task per asset, numbered in order, all storing under `assets_dir`.
pub fn direct_tasks<'a>(assets: &'a Vec<Asset>, assets_dir: &'a str) -> (tasks: Vec<DownloadAssetTask<'a>>)
    ensures
        tasks@.len() == assets@.len(),
        forall|i: int| 0 <= i < tasks@.len() ==> {
            &&& (#[trigger] tasks@[i]).id == i
            &&& tasks@[i].asset == assets@[i]
            &&& tasks@[i].assets_dir == assets_dir
        },
{
    let mut tasks: Vec<DownloadAssetTask<'a>> = Vec::new();
    let n = assets.len();
    let mut i: usize = 0;
    while i < n
        invariant
            n == assets@.len(),
            i <= n,
            tasks@.len() == i,
            forall|j: int| 0 <= j < i ==> {
                &&& (#[trigger] tasks@[j]).id == j
                &&& tasks@[j].asset == assets@[j]
                &&& tasks@[j].assets_dir == assets_dir
            },
        decreases n - i,
    {
        tasks.push(DownloadAssetTask { id: i, asset: &assets[i], assets_dir });
        i = i + 1;
    }
    tasks
}

} // verus!
