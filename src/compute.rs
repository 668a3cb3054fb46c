use vstd::prelude::*;

use crate::word::{two_pow_128, Uint256};

verus! {

/// The Keccak-256 digest of `b`, as computed by `alloy_primitives`.
pub uninterp spec fn keccak_of(b: Seq<u8>) -> Seq<u8>;

/// Relies on alloy_primitives::keccak256: the 32-byte Keccak-256 digest of
/// the input, which depends on the input alone.
#[verifier::external_body]
fn keccak(bytes: &[u8]) -> (r: [u8; 32])
    ensures
        r@ == keccak_of(bytes@),
{
    alloy_primitives::keccak256(bytes).0
}

/// The bytes of the fixed seed text `stylus-compute-bench`.
pub open spec fn bench_seed() -> Seq<u8> {
    seq![
        115u8, 116, 121, 108, 117, 115, 45, 99, 111, 109, 112, 117, 116, 101, 45, 98, 101, 110, 99,
        104,
    ]
}

/// `start` hashed `n` more times.
pub open spec fn iterated_keccak(start: Seq<u8>, n: nat) -> Seq<u8>
    decreases n,
{
    if n == 0 {
        start
    } else {
        keccak_of(iterated_keccak(start, (n - 1) as nat))
    }
}

/// The number of rounds run for a request of `iterations`: the request,
/// capped at `u64::MAX`.
pub open spec fn rounds(iterations: Uint256) -> nat {
    if iterations.value() <= u64::MAX as nat {
        iterations.value()
    } else {
        u64::MAX as nat
    }
}

/// The hash that a request of `iterations` ends with: the seed hashed once,
/// then once more for each round.
pub open spec fn bench_hash(iterations: Uint256) -> Seq<u8> {
    iterated_keccak(keccak_of(bench_seed()), rounds(iterations))
}

/// Raised when a hashing run completes.
#[derive(Clone, Copy, Debug, PartialEq, Eq)]
pub struct ComputeCompleted {
    pub iterations: Uint256,
    pub final_hash: [u8; 32],
}

/// A benchmark contract that runs rounds of Keccak-256 and counts its calls.
pub struct ComputeContract {
    call_count: Uint256,
    events: Vec<ComputeCompleted>,
}

impl ComputeContract {
    /// The number of completed runs, modulo 2^256.
    pub closed spec fn calls(&self) -> nat {
        self.call_count.value()
    }

    /// The completion notifications raised so far, oldest first.
    pub closed spec fn completions(&self) -> Seq<ComputeCompleted> {
        self.events@
    }

    /// A freshly deployed contract: no calls, no notifications.
    pub fn new() -> (r: ComputeContract)
        ensures
            r.calls() == 0,
            r.completions() == Seq::<ComputeCompleted>::empty(),
    {
        ComputeContract { call_count: Uint256::from_u64(0), events: Vec::new() }
    }

    /// Hashes the seed, then hashes the result again once for each of
    /// `iterations` rounds (capped at `u64::MAX`), counts the call, raises
    /// `ComputeCompleted` and returns the final hash.
    pub fn compute_hash(&mut self, iterations: Uint256) -> (r: Result<[u8; 32], Vec<u8>>)
        ensures
            r is Ok,
            r->Ok_0@ == bench_hash(iterations),
            final(self).calls() == (old(self).calls() + 1) % (two_pow_128() * two_pow_128()),
            final(self).completions() == old(self).completions().push(
                ComputeCompleted { iterations, final_hash: r->Ok_0 },
            ),
    {
        // `stylus-compute-bench`
        let seed: Vec<u8> = vec![
            115u8, 116, 121, 108, 117, 115, 45, 99, 111, 109, 112, 117, 116, 101, 45, 98, 101, 110,
            99, 104,
        ];
        assert(seed@ == bench_seed());
        let mut hash = keccak(seed.as_slice());
        let n = iterations.saturating_to_u64();
        let mut i: u64 = 0;
        while i < n
            invariant
                i <= n,
                n as nat == rounds(iterations),
                hash@ == iterated_keccak(keccak_of(bench_seed()), i as nat),
            decreases n - i,
        {
            hash = keccak(hash.as_slice());
            i = i + 1;
        }
        self.call_count = self.call_count.wrapping_increment();
        self.events.push(ComputeCompleted { iterations, final_hash: hash });
        Ok(hash)
    }

    /// The number of completed runs, modulo 2^256.
    pub fn call_count(&self) -> (r: Uint256)
        ensures
            r.value() == self.calls(),
    {
        self.call_count
    }

    /// The completion notifications raised so far, oldest first.
    pub fn events(&self) -> (r: &Vec<ComputeCompleted>)
        ensures
            r@ == self.completions(),
    {
        &self.events
    }
}

} // verus!
