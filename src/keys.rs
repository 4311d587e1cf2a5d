//! Where the symmetric key comes from (a fixed secret handed in at startup,
//! a key service's unwrap result, or a fresh random draw), and the sequence
//! of nonces used under one key.

use vstd::prelude::*;
use vstd::slice::slice_to_vec;
use crate::cipher::{KEY_LEN, NONCE_LEN};
use crate::error::PipelineError;

verus! {

/// Relies on `RngCore::try_fill_bytes` of `rand::rngs::OsRng`: it fills the
/// buffer from the operating system's generator, or reports that the
/// generator failed. Nothing is promised of the bytes drawn.
#[verifier::external_body]
fn os_random_bytes(n: usize) -> (r: Option<Vec<u8>>)
    ensures
        r is Some ==> r->0@.len() == n,
{
    let mut buf = vec![0u8; n];
    match rand::RngCore::try_fill_bytes(&mut rand::rngs::OsRng, &mut buf) {
        Ok(()) => Some(buf),
        Err(_) => None,
    }
}

/// A 256-bit AES key. It is held for one invocation and never persisted.
pub struct KeyMaterial {
    bytes: Vec<u8>,
}

impl KeyMaterial {
    /// Every key is exactly 32 bytes.
    #[verifier::type_invariant]
    spec fn inv(&self) -> bool {
        self.bytes@.len() == KEY_LEN
    }
}

/// How a remote unwrap call failed.
#[derive(Clone, Copy, Debug, PartialEq, Eq, Structural)]
pub enum UnwrapFailure {
    /// The service could not be reached, or failed on its side.
    Unreachable,
    /// The service refused the blob (access denied, not a valid envelope).
    Denied,
    /// The service answered without the plaintext.
    Malformed,
}

/// The pipeline error that an unwrap failure becomes.
pub open spec fn unwrap_failure_error(f: UnwrapFailure) -> PipelineError {
    match f {
        UnwrapFailure::Unreachable => PipelineError::UpstreamFetchFailure,
        UnwrapFailure::Denied => PipelineError::KeyUnavailable,
        UnwrapFailure::Malformed => PipelineError::KeyUnavailable,
    }
}

/// Maps an unwrap failure to the pipeline's taxonomy.
pub fn unwrap_error(f: UnwrapFailure) -> (r: PipelineError)
    ensures
        r == unwrap_failure_error(f),
{
    match f {
        UnwrapFailure::Unreachable => PipelineError::UpstreamFetchFailure,
        UnwrapFailure::Denied => PipelineError::KeyUnavailable,
        UnwrapFailure::Malformed => PipelineError::KeyUnavailable,
    }
}

impl View for KeyMaterial {
    type V = Seq<u8>;

    closed spec fn view(&self) -> Seq<u8> {
        self.bytes@
    }
}

impl KeyMaterial {
    /// A key from fixed secret bytes. Fails with `KeyUnavailable` unless
    /// there are exactly 32 of them.
    pub fn from_static(secret: &[u8]) -> (r: Result<KeyMaterial, PipelineError>)
        ensures
            r is Ok <==> secret@.len() == KEY_LEN,
            r is Ok ==> r->Ok_0@ == secret@,
            r is Err ==> r->Err_0 == PipelineError::KeyUnavailable,
    {
        if secret.len() != KEY_LEN {
            return Err(PipelineError::KeyUnavailable);
        }
        let bytes = slice_to_vec(secret);
        Ok(KeyMaterial { bytes })
    }

    /// A key from the outcome of a remote unwrap call: the unwrapped bytes
    /// when there are exactly 32 of them, else `KeyUnavailable`; a failed
    /// call becomes its pipeline error.
    pub fn from_unwrapped(outcome: Result<Vec<u8>, UnwrapFailure>) -> (r: Result<KeyMaterial, PipelineError>)
        ensures
            match outcome {
                Ok(b) => if b@.len() == KEY_LEN {
                    r is Ok && r->Ok_0@ == b@
                } else {
                    r == Err::<KeyMaterial, PipelineError>(PipelineError::KeyUnavailable)
                },
                Err(f) => r == Err::<KeyMaterial, PipelineError>(unwrap_failure_error(f)),
            },
    {
        match outcome {
            Ok(bytes) => {
                if bytes.len() == KEY_LEN {
                    Ok(KeyMaterial { bytes })
                } else {
                    Err(PipelineError::KeyUnavailable)
                }
            },
            Err(f) => Err(unwrap_error(f)),
        }
    }

    /// A fresh random key from the operating system's generator, for one
    /// invocation only. Fails with `KeyUnavailable` when the generator does.
    pub fn generate() -> (r: Result<KeyMaterial, PipelineError>)
        ensures
            r is Ok ==> r->Ok_0@.len() == KEY_LEN,
            r is Err ==> r->Err_0 == PipelineError::KeyUnavailable,
    {
        match os_random_bytes(KEY_LEN) {
            Some(bytes) => Ok(KeyMaterial { bytes }),
            None => Err(PipelineError::KeyUnavailable),
        }
    }

    /// The key's 32 bytes.
    pub fn as_bytes(&self) -> (r: &[u8])
        ensures
            r@ == self@,
            r@.len() == KEY_LEN,
    {
        proof {
            use_type_invariant(self);
        }
        self.bytes.as_slice()
    }
}

/// Length of the random part of every nonce of a sequence, in bytes.
pub const NONCE_PREFIX_LEN: usize = 4;

/// The eight bytes of `c`, most significant first.
pub open spec fn counter_bytes(c: u64) -> Seq<u8> {
    seq![
        (c >> 56u64) as u8,
        (c >> 48u64) as u8,
        (c >> 40u64) as u8,
        (c >> 32u64) as u8,
        (c >> 24u64) as u8,
        (c >> 16u64) as u8,
        (c >> 8u64) as u8,
        c as u8,
    ]
}

/// The nonce a sequence with `prefix` issues for counter value `c`.
pub open spec fn nonce_of(prefix: Seq<u8>, c: u64) -> Seq<u8> {
    prefix + counter_bytes(c)
}

/// Distinct counter values have distinct bytes.
pub proof fn lemma_counter_bytes_injective(a: u64, b: u64)
    requires
        counter_bytes(a) == counter_bytes(b),
    ensures
        a == b,
{
    let x = counter_bytes(a);
    let y = counter_bytes(b);
    assert(x[0] == y[0] && x[1] == y[1] && x[2] == y[2] && x[3] == y[3]);
    assert(x[4] == y[4] && x[5] == y[5] && x[6] == y[6] && x[7] == y[7]);
    assert(a == b) by (bit_vector)
        requires
            (a >> 56u64) as u8 == (b >> 56u64) as u8,
            (a >> 48u64) as u8 == (b >> 48u64) as u8,
            (a >> 40u64) as u8 == (b >> 40u64) as u8,
            (a >> 32u64) as u8 == (b >> 32u64) as u8,
            (a >> 24u64) as u8 == (b >> 24u64) as u8,
            (a >> 16u64) as u8 == (b >> 16u64) as u8,
            (a >> 8u64) as u8 == (b >> 8u64) as u8,
            a as u8 == b as u8,
    ;
}

/// Issues the 12-byte nonces to be used under one key: a random 4-byte
/// prefix drawn once, followed by an 8-byte counter. No nonce is issued
/// twice.
pub struct NonceSequence {
    prefix: Vec<u8>,
    counter: u64,
}

impl NonceSequence {
    /// The prefix is exactly 4 bytes.
    #[verifier::type_invariant]
    spec fn inv(&self) -> bool {
        self.prefix@.len() == NONCE_PREFIX_LEN
    }

    /// The random prefix of every nonce of the sequence.
    pub closed spec fn prefix(&self) -> Seq<u8> {
        self.prefix@
    }

    /// The counter value of the next nonce.
    pub closed spec fn counter(&self) -> u64 {
        self.counter
    }

    /// The nonces issued so far.
    pub open spec fn issued(&self) -> Set<Seq<u8>> {
        Set::new(|n: Seq<u8>| exists|c: u64| c < self.counter() && n == nonce_of(self.prefix(), c))
    }

    /// A sequence with a prefix from the operating system's generator.
    /// Fails with `KeyUnavailable` when the generator does.
    pub fn new() -> (r: Result<NonceSequence, PipelineError>)
        ensures
            r is Ok ==> r->Ok_0.prefix().len() == NONCE_PREFIX_LEN && r->Ok_0.counter() == 0,
            r is Ok ==> r->Ok_0.issued() == Set::<Seq<u8>>::empty(),
            r is Err ==> r->Err_0 == PipelineError::KeyUnavailable,
    {
        match os_random_bytes(NONCE_PREFIX_LEN) {
            Some(prefix) => {
                let s = NonceSequence { prefix, counter: 0 };
                assert(s.issued() =~= Set::<Seq<u8>>::empty());
                Ok(s)
            },
            None => Err(PipelineError::KeyUnavailable),
        }
    }

    /// A sequence with the given prefix, when it is 4 bytes long.
    pub fn from_prefix(prefix: &[u8]) -> (r: Option<NonceSequence>)
        ensures
            r is Some <==> prefix@.len() == NONCE_PREFIX_LEN,
            r is Some ==> r->0.prefix() == prefix@ && r->0.counter() == 0,
            r is Some ==> r->0.issued() == Set::<Seq<u8>>::empty(),
    {
        if prefix.len() != NONCE_PREFIX_LEN {
            return None;
        }
        let s = NonceSequence { prefix: slice_to_vec(prefix), counter: 0 };
        assert(s.issued() =~= Set::<Seq<u8>>::empty());
        Some(s)
    }

    /// The next nonce: 12 bytes, different from every nonce issued before.
    /// `None`, with nothing changed, once all 2^64 counter values are used.
    pub fn next(&mut self) -> (r: Option<Vec<u8>>)
        ensures
            final(self).prefix() == old(self).prefix(),
            r is None <==> old(self).counter() == u64::MAX,
            r is None ==> final(self).counter() == old(self).counter(),
            r is Some ==> r->0@ == nonce_of(old(self).prefix(), old(self).counter()),
            r is Some ==> r->0@.len() == NONCE_LEN,
            r is Some ==> !old(self).issued().contains(r->0@),
            r is Some ==> final(self).issued() == old(self).issued().insert(r->0@),
    {
        proof {
            use_type_invariant(&*self);
        }
        let c = self.counter;
        if c == u64::MAX {
            return None;
        }
        let mut nonce = slice_to_vec(self.prefix.as_slice());
        nonce.push((c >> 56u64) as u8);
        nonce.push((c >> 48u64) as u8);
        nonce.push((c >> 40u64) as u8);
        nonce.push((c >> 32u64) as u8);
        nonce.push((c >> 24u64) as u8);
        nonce.push((c >> 16u64) as u8);
        nonce.push((c >> 8u64) as u8);
        nonce.push(c as u8);
        let ghost p = self.prefix@;
        let ghost before = self.issued();
        assert(nonce@ =~= nonce_of(p, c));
        proof {
            if before.contains(nonce@) {
                let d = choose|d: u64| d < c && nonce@ == nonce_of(p, d);
                assert(nonce_of(p, d).subrange(4, 12) =~= counter_bytes(d));
                assert(nonce_of(p, c).subrange(4, 12) =~= counter_bytes(c));
                lemma_counter_bytes_injective(d, c);
            }
        }
        self.counter = c + 1;
        proof {
            assert forall|n: Seq<u8>| self.issued().contains(n) implies #[trigger] before.insert(nonce@).contains(n) by {
                let d = choose|d: u64| d < c + 1 && n == nonce_of(p, d);
                if d < c {
                    assert(before.contains(n));
                }
            }
            assert forall|n: Seq<u8>| before.insert(nonce@).contains(n) implies #[trigger] self.issued().contains(n) by {
                if n == nonce@ {
                    assert(n == nonce_of(p, c));
                } else {
                    let d = choose|d: u64| d < c && n == nonce_of(p, d);
                    assert(d < c + 1);
                }
            }
            assert(self.issued() =~= before.insert(nonce@));
        }
        Some(nonce)
    }
}

} // verus!
