//! SHA-256 digests of streamed content and their lowercase hex rendering.
use vstd::prelude::*;
use crate::progress::{advance, Progress, TaskPhase};

verus! {

/// `sha2::Sha256`, the incremental SHA-256 hasher, carried as an opaque value.
#[verifier::external_type_specification]
#[verifier::external_body]
pub struct ExSha256(sha2::Sha256);

/// The SHA-256 digest of `data` (FIPS 180-4).
pub uninterp spec fn sha256(data: Seq<u8>) -> Seq<u8>;

/// The lowercase hexadecimal digit for `v` (for `v < 16`).
pub open spec fn hex_char(v: nat) -> char {
    if v == 0 { '0' }
    else if v == 1 { '1' }
    else if v == 2 { '2' }
    else if v == 3 { '3' }
    else if v == 4 { '4' }
    else if v == 5 { '5' }
    else if v == 6 { '6' }
    else if v == 7 { '7' }
    else if v == 8 { '8' }
    else if v == 9 { '9' }
    else if v == 10 { 'a' }
    else if v == 11 { 'b' }
    else if v == 12 { 'c' }
    else if v == 13 { 'd' }
    else if v == 14 { 'e' }
    else { 'f' }
}

/// Lowercase hex encoding: two digits per byte, high nibble first.
pub open spec fn hex_lower(data: Seq<u8>) -> Seq<char>
    decreases data.len(),
{
    if data.len() == 0 {
        seq![]
    } else {
        seq![hex_char((data[0] / 16) as nat), hex_char((data[0] % 16) as nat)]
            + hex_lower(data.drop_first())
    }
}

/// Hex encoding writes exactly two digits per byte.
pub proof fn lemma_hex_len(data: Seq<u8>)
    ensures
        hex_lower(data).len() == 2 * data.len(),
    decreases data.len(),
{
    if data.len() > 0 {
        lemma_hex_len(data.drop_first());
    }
}

/// Calls `hex::encode`, which renders each byte as two lowercase hex digits,
/// high nibble first (its source maps nibbles through `b"0123456789abcdef"`).
#[verifier::external_body]
fn hex_encode(data: &[u8]) -> (s: String)
    ensures
        s@ == hex_lower(data@),
{
    hex::encode(data)
}

/// A SHA-256 hasher together with the bytes it has absorbed so far.
pub struct Sha256State {
    hasher: sha2::Sha256,
    absorbed: Ghost<Seq<u8>>,
}

impl View for Sha256State {
    type V = Seq<u8>;

    closed spec fn view(&self) -> Seq<u8> {
        self.absorbed@
    }
}

impl Sha256State {
    /// Calls `sha2::Digest::new` for `sha2::Sha256`: a hasher that has
    /// absorbed nothing.
    #[verifier::external_body]
    fn fresh() -> (s: Self)
        ensures
            s@ == Seq::<u8>::empty(),
    {
        Sha256State { hasher: sha2::Digest::new(), absorbed: Ghost(Seq::empty()) }
    }

    /// Calls `sha2::Digest::update`: the hasher absorbs `data` after what it
    /// absorbed before.
    #[verifier::external_body]
    fn absorb(&mut self, data: &[u8])
        ensures
            final(self)@ == old(self)@ + data@,
    {
        sha2::Digest::update(&mut self.hasher, data)
    }

    /// Calls `sha2::Digest::finalize`: the SHA-256 digest of everything the
    /// hasher absorbed, in order.
    #[verifier::external_body]
    fn digest(self) -> (d: Vec<u8>)
        ensures
            d@ == sha256(self@),
    {
        sha2::Digest::finalize(self.hasher).to_vec()
    }
}

/// Hashes the content of one task as it streams by, and reports each chunk as
/// a progress increment of that task.
pub struct DigestStream {
    id: usize,
    state: Sha256State,
}

impl View for DigestStream {
    type V = Seq<u8>;

    /// Everything fed so far, in order.
    closed spec fn view(&self) -> Seq<u8> {
        self.state@
    }
}

impl DigestStream {
    /// The task whose progress this stream reports.
    pub closed spec fn task(&self) -> usize {
        self.id
    }

    /// A stream for task `id` that has been fed nothing yet.
    pub fn new(id: usize) -> (s: Self)
        ensures
            s@ == Seq::<u8>::empty(),
            s.task() == id,
    {
        DigestStream { id, state: Sha256State::fresh() }
    }

    /// Feeds `chunk` without reporting it.
    pub fn absorb(&mut self, chunk: &[u8])
        ensures
            final(self)@ == old(self)@ + chunk@,
            final(self).task() == old(self).task(),
    {
        self.state.absorb(chunk);
    }

    /// Feeds `chunk`; returns the progress increment that reports it.
    pub fn feed(&mut self, chunk: &[u8]) -> (p: Progress)
        ensures
            final(self)@ == old(self)@ + chunk@,
            final(self).task() == old(self).task(),
            p == (Progress::Inc { id: old(self).task(), n: chunk@.len() as u64 }),
            advance(old(self).task(), TaskPhase::Transfer, p) == Some(TaskPhase::Transfer),
            advance(old(self).task(), TaskPhase::Verify, p) == Some(TaskPhase::Verify),
    {
        self.state.absorb(chunk);
        Progress::Inc { id: self.id, n: chunk.len() as u64 }
    }

    /// The SHA-256 digest of everything fed, in lowercase hex.
    pub fn hex_digest(self) -> (s: String)
        ensures
            s@ == hex_lower(sha256(self@)),
    {
        let d = self.state.digest();
        hex_encode(d.as_slice())
    }
}

} // verus!
