use vstd::prelude::*;

verus! {

/// Smallest digest length, in bytes, that the generic hash accepts.
pub const GENERICHASH_BYTES_MIN: usize = 16;

/// Largest digest length, in bytes, that the generic hash accepts.
pub const GENERICHASH_BYTES_MAX: usize = 64;

/// Recommended digest length, in bytes.
pub const GENERICHASH_BYTES: usize = 32;

/// Smallest key length, in bytes, that the keyed generic hash accepts.
pub const GENERICHASH_KEYBYTES_MIN: usize = 16;

/// Largest key length, in bytes, that the keyed generic hash accepts.
pub const GENERICHASH_KEYBYTES_MAX: usize = 64;

/// The BLAKE2b digest of `data` with `out_len` bytes of output, keyed by `key` when
/// there is one: the result of libsodium's `crypto_generichash`.
pub uninterp spec fn generichash_digest(data: Seq<u8>, out_len: nat, key: Option<Seq<u8>>) -> Seq<u8>;

/// The bytes of an optional key.
pub open spec fn key_view(key: Option<&[u8]>) -> Option<Seq<u8>> {
    match key {
        Some(k) => Some(k@),
        None => None,
    }
}

/// Whether a digest length lies in the range that the generic hash accepts.
pub open spec fn valid_digest_len(len: nat) -> bool {
    GENERICHASH_BYTES_MIN <= len <= GENERICHASH_BYTES_MAX
}

/// Whether an optional key has a length that the keyed generic hash accepts.
pub open spec fn valid_key(key: Option<Seq<u8>>) -> bool {
    match key {
        Some(k) => GENERICHASH_KEYBYTES_MIN <= k.len() <= GENERICHASH_KEYBYTES_MAX,
        None => true,
    }
}

/// Initialises libsodium (`sodiumoxide::init`, which calls `sodium_init`).
/// Whether it succeeds depends on the machine, so nothing is claimed of the result.
#[verifier::external_body]
fn sodium_init() -> (r: Result<(), ()>) {
    sodiumoxide::init()
}

/// Computes libsodium's generic hash (`sodiumoxide::crypto::generichash::hash`).
/// With a digest length and a key length in the accepted ranges the C function
/// `crypto_generichash` returns 0, so the call succeeds and yields `out_len` bytes,
/// which are the named digest of the arguments.
#[verifier::external_body]
fn generichash_hash(data: &[u8], out_len: usize, key: Option<&[u8]>) -> (r: Result<Vec<u8>, ()>)
    requires
        valid_digest_len(out_len as nat),
        valid_key(key_view(key)),
    ensures
        r is Ok,
        r matches Ok(d) ==> d@ == generichash_digest(data@, out_len as nat, key_view(key)),
        r matches Ok(d) ==> d@.len() == out_len,
{
    match sodiumoxide::crypto::generichash::hash(data, Some(out_len), key) {
        Ok(digest) => Ok(digest.as_ref().to_vec()),
        Err(()) => Err(()),
    }
}

/// A handle that proves libsodium was initialised.
#[derive(Clone, Debug)]
#[non_exhaustive]
pub struct Sodium;

impl Sodium {
    /// Initialises libsodium; fails when `sodium_init` reports an error.
    pub fn new() -> (r: Result<Self, ()>) {
        Sodium::from_init(sodium_init())
    }

    /// The handle for an outcome of `sodium_init`: one when it succeeded, the error otherwise.
    pub fn from_init(status: Result<(), ()>) -> (r: Result<Self, ()>)
        ensures
            r is Ok <==> status is Ok,
    {
        match status {
            Ok(()) => Ok(Sodium),
            Err(()) => Err(()),
        }
    }

    /// Writes into `out` the generic hash of `input` with `out.len()` bytes of output,
    /// keyed by `key` when there is one, and hands `out` back.
    pub fn cryptogenerichash<'a>(
        &self,
        input: &[u8],
        key: Option<&[u8]>,
        out: &'a mut [u8],
    ) -> (r: Result<&'a mut [u8], ()>)
        requires
            valid_digest_len(old(out)@.len()),
            valid_key(key_view(key)),
        ensures
            r is Ok,
            r matches Ok(o) ==> o@ == generichash_digest(input@, old(out)@.len(), key_view(key)),
            r matches Ok(o) ==> o@.len() == old(out)@.len(),
            r matches Ok(o) ==> final(out)@ == final(o)@,
    {
        let digest = generichash_hash(input, out.len(), key);
        match digest {
            Ok(d) => {
                let n = out.len();
                let mut i: usize = 0;
                while i < n
                    invariant
                        n == out@.len(),
                        n == d@.len(),
                        0 <= i <= n,
                        forall|j: int| 0 <= j < i ==> out@[j] == d@[j],
                    decreases n - i,
                {
                    out[i] = d[i];
                    i = i + 1;
                }
                Ok(out)
            },
            Err(()) => Err(()),
        }
    }
}

/// Adds two sizes.
pub fn add(left: usize, right: usize) -> (sum: usize)
    requires
        left + right <= usize::MAX,
    ensures
        sum == left + right,
{
    left + right
}

} // verus!
