use sha1::Digest;
use vstd::prelude::*;

verus! {

/// The SHA-1 digest of a byte sequence.
pub uninterp spec fn sha1_of(data: Seq<u8>) -> Seq<u8>;

/// The bytes that a running SHA-1 state has taken in so far.
pub uninterp spec fn absorbed(state: Sha1State) -> Seq<u8>;

/// A running SHA-1 computation of the `sha1` crate.
#[verifier::external_body]
pub struct Sha1State {
    inner: sha1::Sha1,
}

/// Relies on digest::Digest::new for sha1::Sha1: a fresh state has taken in
/// no bytes.
#[verifier::external_body]
fn sha1_start() -> (r: Sha1State)
    ensures
        absorbed(r) == Seq::<u8>::empty(),
{
    Sha1State { inner: sha1::Sha1::new() }
}

/// Relies on digest::Digest::update for sha1::Sha1: the state goes on to take
/// in the bytes of `chunk`, after those it had.
#[verifier::external_body]
fn sha1_absorb(state: &mut Sha1State, chunk: &[u8])
    ensures
        absorbed(*final(state)) == absorbed(*old(state)) + chunk@,
{
    state.inner.update(chunk);
}

/// Relies on digest::Digest::finalize for sha1::Sha1: the digest of every byte
/// that the state has taken in.
#[verifier::external_body]
fn sha1_finish(state: Sha1State) -> (r: Vec<u8>)
    ensures
        r@ == sha1_of(absorbed(state)),
{
    state.inner.finalize().to_vec()
}

/// Streaming content digest: bytes are fed in chunks of any size and the
/// digest is that of their concatenation.
pub struct ContentHasher {
    state: Sha1State,
}

impl ContentHasher {
    /// The bytes fed so far.
    pub closed spec fn view(&self) -> Seq<u8> {
        absorbed(self.state)
    }

    pub fn new() -> (r: ContentHasher)
        ensures
            r@ == Seq::<u8>::empty(),
    {
        ContentHasher { state: sha1_start() }
    }

    /// Feeds the next chunk of the content.
    pub fn update(&mut self, chunk: &[u8])
        ensures
            final(self)@ == old(self)@ + chunk@,
    {
        sha1_absorb(&mut self.state, chunk);
    }

    /// The digest of everything fed.
    pub fn finish(self) -> (r: Vec<u8>)
        ensures
            r@ == sha1_of(self@),
    {
        sha1_finish(self.state)
    }
}

/// The digest of `data`, fed in one piece.
pub fn digest_of(data: &[u8]) -> (r: Vec<u8>)
    ensures
        r@ == sha1_of(data@),
{
    let mut h = ContentHasher::new();
    h.update(data);
    assert(Seq::<u8>::empty() + data@ == data@);
    h.finish()
}

} // verus!
