//! Download tasks: where an asset is stored, whether to fetch it in parallel
//! byte ranges or in one request, and what the task reports on the way.
use vstd::prelude::*;
use crate::error::AssetsError;
use crate::hashing::{DigestStream, hex_lower, sha256};
use crate::metadata::Asset;
use crate::progress::{advance, Progress, TaskPhase};
use crate::text::{opt_text, verifying_label, verifying_text};

verus! {

/// Largest number of bytes requested in one ranged request (1 GiB).
pub const CHUNK_SIZE: u64 = 1073741824;

/// What `camino::Utf8Path::join` gives when `child` is adjoined to `base`.
pub uninterp spec fn utf8_path_join(base: Seq<char>, child: Seq<char>) -> Seq<char>;

/// Calls `camino::Utf8Path::join`; its result depends on the two paths only.
#[verifier::external_body]
pub(crate) fn join_path(base: &str, child: &str) -> (p: String)
    ensures
        p@ == utf8_path_join(base@, child@),
{
    camino::Utf8Path::new(base).join(child).into_string()
}

/// The directory in which assets are stored: `assets` under the target directory.
pub fn assets_dir_under(target_directory: &str) -> (d: String)
    ensures
        d@ == utf8_path_join(target_directory@, "assets"@),
{
    join_path(target_directory, "assets")
}

/// Number of ranged requests for a download of `size` bytes.
pub open spec fn chunk_count(size: nat) -> nat {
    if size == 0 { 0 } else { ((size - 1) as nat / CHUNK_SIZE as nat) + 1 }
}

/// The `k`-th byte range (first and last byte, inclusive) of a download of
/// `size` bytes.
pub open spec fn chunk_range(size: nat, k: nat) -> (int, int) {
    let start = k * CHUNK_SIZE;
    let end = if start + CHUNK_SIZE - 1 < size - 1 { start + CHUNK_SIZE - 1 } else { size - 1 };
    (start, end)
}

/// The byte ranges of a download tile its content: the first starts at byte
/// 0, each starts right after the previous one ends, the last ends at the last
/// byte, and none is empty or longer than `CHUNK_SIZE`.
pub proof fn lemma_chunks_tile(size: nat)
    ensures
        size > 0 ==> chunk_range(size, 0).0 == 0,
        size > 0 ==> chunk_range(size, (chunk_count(size) - 1) as nat).1 == size - 1,
        forall|k: nat| k + 1 < chunk_count(size) ==> (#[trigger] chunk_range(size, k)).1 + 1
            == chunk_range(size, k + 1).0,
        forall|k: nat| k < chunk_count(size) ==> (#[trigger] chunk_range(size, k)).0 <= chunk_range(
            size,
            k,
        ).1 < chunk_range(size, k).0 + CHUNK_SIZE,
{
    assert forall|k: nat| k + 1 < chunk_count(size) implies (#[trigger] chunk_range(size, k)).1 + 1
        == chunk_range(size, k + 1).0 by {
        let q = (size - 1) as nat / CHUNK_SIZE as nat;
        assert((k + 1) * CHUNK_SIZE <= size - 1) by (nonlinear_arith)
            requires
                k + 1 <= q,
                q == (size - 1) as nat / CHUNK_SIZE as nat,
                size >= 1,
        ;
    }
    assert forall|k: nat| k < chunk_count(size) implies (#[trigger] chunk_range(size, k)).0
        <= chunk_range(size, k).1 < chunk_range(size, k).0 + CHUNK_SIZE by {
        let q = (size - 1) as nat / CHUNK_SIZE as nat;
        assert(k * CHUNK_SIZE <= size - 1) by (nonlinear_arith)
            requires
                k <= q,
                q == (size - 1) as nat / CHUNK_SIZE as nat,
                size >= 1,
        ;
    }
    if size > 0 {
        let q = (size - 1) as nat / CHUNK_SIZE as nat;
        assert(size - 1 < q * CHUNK_SIZE + CHUNK_SIZE) by (nonlinear_arith)
            requires
                q == (size - 1) as nat / CHUNK_SIZE as nat,
                size >= 1,
        ;
    }
}

/// Splits a download of `size` bytes into consecutive inclusive byte ranges of
/// at most `CHUNK_SIZE` bytes.
pub fn chunk_ranges(size: u64) -> (r: Vec<(u64, u64)>)
    ensures
        r@.len() == chunk_count(size as nat),
        forall|k: int| 0 <= k < r@.len() ==>
            (#[trigger] r@[k]).0 == chunk_range(size as nat, k as nat).0
            && r@[k].1 == chunk_range(size as nat, k as nat).1,
{
    let mut r: Vec<(u64, u64)> = Vec::new();
    let mut start: u64 = 0;
    while start < size
        invariant_except_break
            start == r@.len() * CHUNK_SIZE,
            (start == 0 && r@.len() == 0) || start < size,
        invariant
            forall|k: int| 0 <= k < r@.len() ==>
                (#[trigger] r@[k]).0 == chunk_range(size as nat, k as nat).0
                && r@[k].1 == chunk_range(size as nat, k as nat).1,
        ensures
        r@.len() * CHUNK_SIZE >= size,
        r@.len() == 0 || (r@.len() - 1) * CHUNK_SIZE < size,
        forall|k: int| 0 <= k < r@.len() ==> (#[trigger] r@[k]).0 == k * CHUNK_SIZE && r@[k].1 == (if (k
            + 1) * CHUNK_SIZE <= size {
            (k + 1) * CHUNK_SIZE - 1
        } else {
            size - 1
        }),
            r@.len() == chunk_count(size as nat),
        decreases size - start,
    {
        let k = Ghost(r@.len());
        if size - start > CHUNK_SIZE {
            r.push((start, start + CHUNK_SIZE - 1));
            start = start + CHUNK_SIZE;
        } else {
            r.push((start, size - 1));
            assert((size - 1) as nat / CHUNK_SIZE as nat == k@) by (nonlinear_arith)
                requires
                    k@ * CHUNK_SIZE <= size - 1,
                    size - 1 < k@ * CHUNK_SIZE + CHUNK_SIZE,
                    CHUNK_SIZE > 0,
            ;
            break;
        }
    }
    r
}

/// Whether an `Accept-Ranges` header value announces byte ranges (`bytes`).
pub fn accepts_byte_ranges(value: &[u8]) -> (b: bool)
    ensures
        b == (value@ == seq![98u8, 121u8, 116u8, 101u8, 115u8]),
{
    if value.len() != 5 {
        return false;
    }
    let b = value[0] == 98u8 && value[1] == 121u8 && value[2] == 116u8 && value[3] == 101u8
        && value[4] == 115u8;
    proof {
        if b {
            assert(value@ =~= seq![98u8, 121u8, 116u8, 101u8, 115u8]);
        }
    }
    b
}

/// What a `HEAD` request for an asset's URL answered.
pub struct HeadReply {
    /// Whether the status was a success (2xx).
    pub success: bool,
    /// The `Content-Length` the reply announced, if any.
    pub content_length: Option<u64>,
    /// The raw value of the `Accept-Ranges` header, if present.
    pub accept_ranges: Option<Vec<u8>>,
}

/// How an asset is fetched.
#[derive(Debug, PartialEq, Eq, Structural)]
pub enum Transfer {
    /// In ranged requests of at most `CHUNK_SIZE` bytes into a file of `size` bytes.
    Parallel { size: u64 },
    /// In one request, streamed to the file.
    Sequential,
}

/// Whether a `HEAD` reply (`None` if the request failed) allows a parallel
/// download: it succeeded, announces byte ranges, and the content is larger
/// than one chunk.
pub open spec fn parallel_size(head: Option<HeadReply>) -> Option<u64> {
    match head {
        Some(h) => {
            let size: u64 = match h.content_length { Some(n) => n, None => 0 };
            let ranged = match h.accept_ranges {
                Some(v) => v@ == seq![98u8, 121u8, 116u8, 101u8, 115u8],
                None => false,
            };
            if h.success && ranged && size > CHUNK_SIZE { Some(size) } else { None }
        },
        None => None,
    }
}

/// A parallel download of `n` bytes is chosen exactly when the `HEAD`
/// request succeeded, announced `Content-Length: n` with `n` above one chunk,
/// and announced `Accept-Ranges: bytes`; the size fetched is the announced
/// length itself.
pub proof fn lemma_parallel_size_exact(head: Option<HeadReply>, n: u64)
    ensures
        parallel_size(head) == Some(n) <==> (head matches Some(h) && h.success && h.content_length
            == Some(n) && n > CHUNK_SIZE && (h.accept_ranges matches Some(v) && v@ == seq![
            98u8,
            121u8,
            116u8,
            101u8,
            115u8,
        ])),
{
}

/// Chooses how to fetch an asset from the reply to a `HEAD` request
/// (`None` if that request failed).
pub fn choose_transfer(head: &Option<HeadReply>) -> (t: Transfer)
    ensures
        t == (match parallel_size(*head) {
            Some(size) => Transfer::Parallel { size },
            None => Transfer::Sequential,
        }),
        match *head {
            Some(h) => if h.success && (h.content_length matches Some(n) && n > CHUNK_SIZE) && (
            h.accept_ranges matches Some(v) && v@ == seq![98u8, 121u8, 116u8, 101u8, 115u8]) {
                t == Transfer::Parallel { size: h.content_length->0 }
            } else {
                t == Transfer::Sequential
            },
            None => t == Transfer::Sequential,
        },
{
    match head {
        Some(h) => {
            if h.success {
                let size: u64 = match h.content_length {
                    Some(n) => n,
                    None => 0,
                };
                let ranged = match &h.accept_ranges {
                    Some(v) => accepts_byte_ranges(v.as_slice()),
                    None => false,
                };
                if ranged && size > CHUNK_SIZE {
                    Transfer::Parallel { size }
                } else {
                    Transfer::Sequential
                }
            } else {
                Transfer::Sequential
            }
        },
        None => Transfer::Sequential,
    }
}

/// The outcome of a download once its content has been checked.
pub enum Conclusion {
    /// The task is done; report `Finished`'s event.
    Finished(Progress),
    /// The content does not match its checksum: the file is to be deleted,
    /// `notice` reported and `error` returned.
    Mismatch { notice: Progress, error: AssetsError },
}

/// The event with which a conclusion ends the task.
pub open spec fn outcome_event(c: Conclusion) -> Progress {
    match c {
        Conclusion::Finished(e) => e,
        Conclusion::Mismatch { notice, .. } => notice,
    }
}

/// The text of the notice that a checksum mismatch reports.
pub open spec fn mismatch_notice(name: Seq<char>) -> Seq<char> {
    "SHA-256 mismatch for "@ + name
}

/// Whether content whose SHA-256 digest in lowercase hex is `actual` is
/// acceptable for an asset whose expected hex digest is `expected`: it is
/// when none is expected, and otherwise only when the two are identical.
pub open spec fn digest_accepted(expected: Option<Seq<char>>, actual: Seq<char>) -> bool {
    match expected {
        Some(want) => actual == want,
        None => true,
    }
}

/// Whether content with SHA-256 digest `digest` is acceptable for an asset
/// whose expected hex digest is `expected`.
pub open spec fn content_accepted(expected: Option<Seq<char>>, digest: Seq<u8>) -> bool {
    digest_accepted(expected, hex_lower(digest))
}

/// One asset to bring into the assets directory.
#[derive(Debug)]
pub struct SyncAssetTask {
    pub id: usize,
    pub name: String,
    pub url: String,
    pub sha256: Option<String>,
    pub assets_dir: String,
}

impl SyncAssetTask {
    /// The task with id `id` that stores `asset` under `assets_dir`.
    pub fn new(id: usize, asset: Asset, assets_dir: String) -> (t: Self)
        ensures
            t.id == id,
            t.name == asset.name,
            t.url == asset.url,
            t.sha256 == asset.sha256,
            t.assets_dir == assets_dir,
    {
        SyncAssetTask {
            id,
            name: asset.name,
            url: asset.url,
            sha256: asset.sha256,
            assets_dir,
        }
    }

    /// The path of the file in which the asset is stored.
    pub fn destination(&self) -> (p: String)
        ensures
            p@ == utf8_path_join(self.assets_dir@, self.name@),
    {
        join_path(self.assets_dir.as_str(), self.name.as_str())
    }

    /// If the destination already exists the task is done: the event to report.
    pub fn cached(&self, exists: bool) -> (p: Option<Progress>)
        ensures
            exists ==> p == Some(Progress::Finish { id: self.id }),
            !exists ==> p is None,
            p matches Some(e) ==> advance(self.id, TaskPhase::Idle, e) == Some(TaskPhase::Closed),
    {
        if exists {
            Some(Progress::Finish { id: self.id })
        } else {
            None
        }
    }

    /// The event that starts the download; an unknown length counts as 0.
    pub fn started(&self, content_length: Option<u64>) -> (p: Progress)
        ensures
            p matches Progress::Start { id, name, size } && id == self.id && name == self.name
                && size == (match content_length { Some(n) => n, None => 0 }),
            advance(self.id, TaskPhase::Idle, p) == Some(TaskPhase::Transfer),
    {
        let size: u64 = match content_length {
            Some(n) => n,
            None => 0,
        };
        Progress::Start { id: self.id, name: self.name.clone(), size }
    }

    /// The event that reports `n` more bytes stored in the file.
    pub fn stored(&self, n: usize) -> (p: Progress)
        ensures
            p == (Progress::Inc { id: self.id, n: n as u64 }),
            advance(self.id, TaskPhase::Transfer, p) == Some(TaskPhase::Transfer),
    {
        Progress::Inc { id: self.id, n: n as u64 }
    }

    /// A digest stream, fed nothing yet, that reports under the id of `self`.
    pub fn digest_stream(&self) -> (s: DigestStream)
        ensures
            s@ == Seq::<u8>::empty(),
            s.task() == self.id,
    {
        DigestStream::new(self.id)
    }

    /// After a parallel download of `size` bytes: the event that starts
    /// re-reading the file for verification, if the asset has a checksum.
    pub fn verification(&self, size: u64) -> (p: Option<Progress>)
        ensures
            self.sha256 is None ==> p is None,
            self.sha256 is Some ==> (p matches Some(Progress::Reset { id, name, size: s }) && id
                == self.id && name@ == verifying_label(self.name@) && s == size),
            p matches Some(e) ==> advance(self.id, TaskPhase::Transfer, e) == Some(TaskPhase::Verify),
    {
        match &self.sha256 {
            Some(_) => Some(
                Progress::Reset { id: self.id, name: verifying_text(self.name.as_str()), size },
            ),
            None => None,
        }
    }

    /// The outcome for content whose SHA-256 digest, in lowercase hex, is `actual`.
    pub fn judge_digest(&self, actual: String) -> (c: Conclusion)
        ensures
            self.sha256 is None ==> c is Finished,
            self.sha256 matches Some(w) ==> (c is Finished <==> actual@ == w@),
            digest_accepted(opt_text(self.sha256), actual@) ==> c == Conclusion::Finished(
                Progress::Finish { id: self.id },
            ),
            !digest_accepted(opt_text(self.sha256), actual@) ==> (c matches
                Conclusion::Mismatch { notice: Progress::Error { id, msg }, error: AssetsError::Checksum(n) }
                && id == self.id && msg@ == mismatch_notice(self.name@) && n == self.name),
            advance(self.id, TaskPhase::Transfer, outcome_event(c)) == Some(TaskPhase::Closed),
            advance(self.id, TaskPhase::Verify, outcome_event(c)) == Some(TaskPhase::Closed),
    {
        let accepted = match &self.sha256 {
            Some(want) => actual == *want,
            None => true,
        };
        if accepted {
            Conclusion::Finished(Progress::Finish { id: self.id })
        } else {
            let mut msg = String::new();
            msg.append("SHA-256 mismatch for ");
            msg.append(self.name.as_str());
            Conclusion::Mismatch {
                notice: Progress::Error { id: self.id, msg },
                error: AssetsError::Checksum(self.name.clone()),
            }
        }
    }

    /// Checks the content hashed by `stream` against the asset's checksum;
    /// the digest is only computed when the asset has one.
    pub fn conclude(&self, stream: DigestStream) -> (c: Conclusion)
        ensures
            self.sha256 is None ==> c is Finished,
            self.sha256 matches Some(w) ==> (c is Finished <==> hex_lower(sha256(stream@)) == w@),
            content_accepted(opt_text(self.sha256), sha256(stream@)) ==> c == Conclusion::Finished(
                Progress::Finish { id: self.id },
            ),
            !content_accepted(opt_text(self.sha256), sha256(stream@)) ==> (c matches
                Conclusion::Mismatch { notice: Progress::Error { id, msg }, error: AssetsError::Checksum(n) }
                && id == self.id && msg@ == mismatch_notice(self.name@) && n == self.name),
            advance(self.id, TaskPhase::Transfer, outcome_event(c)) == Some(TaskPhase::Closed),
            advance(self.id, TaskPhase::Verify, outcome_event(c)) == Some(TaskPhase::Closed),
    {
        match &self.sha256 {
            Some(_) => self.judge_digest(stream.hex_digest()),
            None => Conclusion::Finished(Progress::Finish { id: self.id }),
        }
    }
}

/// One task per asset, numbered in order, all storing under `assets_dir`.
pub fn sync_tasks(assets: Vec<Asset>, assets_dir: &str) -> (tasks: Vec<SyncAssetTask>)
    ensures
        tasks@.len() == assets@.len(),
        forall|i: int| 0 <= i < tasks@.len() ==> {
            &&& (#[trigger] tasks@[i]).id == i
            &&& tasks@[i].name == assets@[i].name
            &&& tasks@[i].url == assets@[i].url
            &&& tasks@[i].sha256 == assets@[i].sha256
            &&& tasks@[i].assets_dir@ == assets_dir@
        },
{
    let mut tasks: Vec<SyncAssetTask> = Vec::new();
    let n = assets.len();
    let mut i: usize = 0;
    while i < n
        invariant
            n == assets@.len(),
            i <= n,
            tasks@.len() == i,
            forall|j: int| 0 <= j < i ==> {
                &&& (#[trigger] tasks@[j]).id == j
                &&& tasks@[j].name == assets@[j].name
                &&& tasks@[j].url == assets@[j].url
                &&& tasks@[j].sha256 == assets@[j].sha256
                &&& tasks@[j].assets_dir@ == assets_dir@
            },
        decreases n - i,
    {
        let asset = assets[i].clone();
        let dir = assets_dir.to_owned();
        tasks.push(SyncAssetTask::new(i, asset, dir));
        i = i + 1;
    }
    tasks
}

/// The outcome of a set of tasks that all ran to the end: the first failure
/// in task order, or success if none failed.
pub fn first_failure<E>(results: Vec<Result<(), E>>) -> (r: Result<(), E>)
    ensures
        r is Ok <==> forall|i: int| 0 <= i < results@.len() ==> (#[trigger] results@[i]) is Ok,
        r is Err ==> exists|i: int| 0 <= i < results@.len() && r == results@[i] && (forall|j: int|
            0 <= j < i ==> (#[trigger] results@[j]) is Ok),
{
    let mut rs = results;
    let n = rs.len();
    let mut i: usize = 0;
    while i < n
        invariant
            n == rs@.len(),
            rs@ == results@,
            i <= n,
            forall|j: int| 0 <= j < i ==> (#[trigger] rs@[j]) is Ok,
        decreases n - i,
    {
        if !rs[i].is_ok() {
            let ghost all = rs@;
            let r = rs.remove(i);
            proof {
                assert(r == all[i as int]);
            }
            return r;
        }
        i = i + 1;
    }
    Ok(())
}

} // verus!
