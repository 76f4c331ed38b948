//! The bounded forward search for an L1 block whose safe L2 head covers a
//! target L2 block.
//!
//! The search starts at the L1 origin of the target block and probes L1
//! blocks a fixed step apart, at most a fixed number of times. The caller
//! asks the rollup node for the safe head at each probed block and hands the
//! answer back; the search says what to do next.

use vstd::prelude::*;
use crate::rollup_node::SafeHeadResponse;

verus! {

/// The distance between probed L1 blocks.
pub const SAFE_HEAD_STEP: u64 = 32;

/// The most L1 blocks that one search probes.
pub const SAFE_HEAD_MAX_PROBES: u64 = 10;

/// What the caller of a search does next.
#[derive(Clone, Copy, Debug, PartialEq, Eq)]
pub enum SearchAction {
    /// Ask for the safe head as of this L1 block number.
    Probe(u64),
    /// This answer covers the target: its L1 block is the one sought.
    Found(SafeHeadResponse),
    /// The probes are used up without success.
    Exhausted,
}

/// The state of one search.
#[derive(Clone, Copy, Debug, PartialEq, Eq)]
pub struct SafeHeadSearch {
    /// The L2 block that the safe head must reach.
    pub target_l2_block: u64,
    /// The L1 origin of the target block, where the search starts.
    pub origin: u64,
    pub step: u64,
    pub max_probes: u64,
    /// How many L1 blocks have been probed.
    pub probes: u64,
    /// The last L1 block probed, or the origin before the first probe.
    pub last_probe: u64,
}

/// The L1 block of the `k`-th probe of a search from `origin`.
pub open spec fn probe_at(origin: u64, step: u64, k: int) -> int {
    origin + step * k
}

impl SafeHeadSearch {
    /// The count of probes and the last probe agree.
    pub open spec fn wf(self) -> bool {
        self.probes <= self.max_probes && self.last_probe == probe_at(
            self.origin,
            self.step,
            self.probes as int,
        )
    }

    /// A fresh search.
    pub open spec fn started(origin: u64, target: u64, step: u64, max_probes: u64) -> SafeHeadSearch {
        SafeHeadSearch {
            target_l2_block: target,
            origin,
            step,
            max_probes,
            probes: 0,
            last_probe: origin,
        }
    }

    /// The next step of a search that has not found its block: probe one
    /// step further while probes remain and the block number fits, else give up.
    pub open spec fn advanced(self) -> (SafeHeadSearch, SearchAction) {
        if self.probes < self.max_probes && self.last_probe + self.step <= u64::MAX {
            let next = (self.last_probe + self.step) as u64;
            (
                SafeHeadSearch { probes: (self.probes + 1) as u64, last_probe: next, ..self },
                SearchAction::Probe(next),
            )
        } else {
            (self, SearchAction::Exhausted)
        }
    }

    /// The step of a search on an answer from the rollup node.
    pub open spec fn observed(self, response: SafeHeadResponse) -> (SafeHeadSearch, SearchAction) {
        if response.safe_head.number >= self.target_l2_block {
            (self, SearchAction::Found(response))
        } else {
            self.advanced()
        }
    }

    /// The search after `k` probes that all fell short.
    pub open spec fn after_misses(self, k: nat) -> SafeHeadSearch
        decreases k,
    {
        if k == 0 {
            self
        } else {
            self.after_misses((k - 1) as nat).advanced().0
        }
    }

    /// A search for `target_l2_block` from its L1 origin, with the standard
    /// step and bound.
    pub fn new(origin: u64, target_l2_block: u64) -> (r: SafeHeadSearch)
        ensures
            r == SafeHeadSearch::started(origin, target_l2_block, SAFE_HEAD_STEP, SAFE_HEAD_MAX_PROBES),
            r.wf(),
    {
        SafeHeadSearch::with_step(origin, target_l2_block, SAFE_HEAD_STEP, SAFE_HEAD_MAX_PROBES)
    }

    /// A search with a chosen step and bound.
    pub fn with_step(origin: u64, target_l2_block: u64, step: u64, max_probes: u64) -> (r: SafeHeadSearch)
        ensures
            r == SafeHeadSearch::started(origin, target_l2_block, step, max_probes),
            r.wf(),
    {
        proof {
            assert(step * 0 == 0) by (nonlinear_arith);
        }
        SafeHeadSearch {
            target_l2_block,
            origin,
            step,
            max_probes,
            probes: 0,
            last_probe: origin,
        }
    }

    /// Moves on to the next probe, or gives up.
    pub fn advance(&mut self) -> (r: SearchAction)
        requires
            old(self).wf(),
        ensures
            (*final(self), r) == old(self).advanced(),
            final(self).wf(),
    {
        if self.probes < self.max_probes && self.step <= u64::MAX - self.last_probe {
            let next = self.last_probe + self.step;
            proof {
                let s = self.step as int;
                let p = self.probes as int;
                assert(s * (p + 1) == s * p + s) by (nonlinear_arith);
            }
            self.probes = self.probes + 1;
            self.last_probe = next;
            SearchAction::Probe(next)
        } else {
            SearchAction::Exhausted
        }
    }

    /// Takes the rollup node's answer for the last probe: the search ends
    /// when the safe head reaches the target, and moves on otherwise.
    pub fn observe(&mut self, response: &SafeHeadResponse) -> (r: SearchAction)
        requires
            old(self).wf(),
        ensures
            (*final(self), r) == old(self).observed(*response),
            final(self).wf(),
    {
        if response.safe_head.number >= self.target_l2_block {
            SearchAction::Found(*response)
        } else {
            self.advance()
        }
    }
}

proof fn lemma_misses(s: SafeHeadSearch, k: nat)
    requires
        s.probes == 0,
        s.last_probe == s.origin,
        k <= s.max_probes,
        probe_at(s.origin, s.step, s.max_probes as int) <= u64::MAX,
        0 <= s.step,
    ensures
        s.after_misses(k).probes == k,
        s.after_misses(k).last_probe == probe_at(s.origin, s.step, k as int),
        s.after_misses(k).origin == s.origin,
        s.after_misses(k).step == s.step,
        s.after_misses(k).max_probes == s.max_probes,
        s.after_misses(k).target_l2_block == s.target_l2_block,
    decreases k,
{
    if k > 0 {
        lemma_misses(s, (k - 1) as nat);
        let st = s.step as int;
        let kk = k as int;
        let m = s.max_probes as int;
        assert(st * kk == st * (kk - 1) + st) by (nonlinear_arith);
        assert(st * kk <= st * m) by (nonlinear_arith)
            requires
                0 <= st,
                kk <= m,
        ;
    } else {
        assert(s.step * 0 == 0) by (nonlinear_arith);
    }
}

/// Against a rollup node whose safe head never reaches the target, a fresh
/// search (whose last probe fits in a block number) probes exactly
/// `origin + step`, `origin + 2 * step`, ..., `origin + max_probes * step`,
/// one after the other, and then gives up.
pub proof fn lemma_stalled_search(origin: u64, target: u64, step: u64, max_probes: u64)
    requires
        probe_at(origin, step, max_probes as int) <= u64::MAX,
    ensures
        forall|response: SafeHeadResponse, k: nat|
            k < max_probes && response.safe_head.number < target ==> #[trigger] SafeHeadSearch::started(
                origin,
                target,
                step,
                max_probes,
            ).after_misses(k).observed(response) == SafeHeadSearch::started(
                origin,
                target,
                step,
                max_probes,
            ).after_misses(k).advanced(),
        forall|k: nat|
            k < max_probes ==> (#[trigger] SafeHeadSearch::started(
                origin,
                target,
                step,
                max_probes,
            ).after_misses(k).advanced().1 matches SearchAction::Probe(p) && p == probe_at(
                origin,
                step,
                k + 1int,
            )),
        SafeHeadSearch::started(origin, target, step, max_probes).after_misses(
            max_probes as nat,
        ).advanced().1 == SearchAction::Exhausted,
{
    let s = SafeHeadSearch::started(origin, target, step, max_probes);
    assert forall|response: SafeHeadResponse, k: nat|
        k < max_probes && response.safe_head.number < target implies #[trigger] s.after_misses(
        k,
    ).observed(response) == s.after_misses(k).advanced() by {
        lemma_misses(s, k);
    }
    assert forall|k: nat| k < max_probes implies (#[trigger] s.after_misses(k).advanced().1 matches SearchAction::Probe(p) && p == probe_at(origin, step, k + 1int)) by {
        lemma_misses(s, k);
        let st = step as int;
        let kk = k as int;
        let m = max_probes as int;
        assert(st * (kk + 1) == st * kk + st) by (nonlinear_arith);
        assert(st * (kk + 1) <= st * m) by (nonlinear_arith)
            requires
                0 <= st,
                kk + 1 <= m,
        ;
    }
    lemma_misses(s, max_probes as nat);
}

/// The standard search probes ten L1 blocks, 32 apart, from `origin + 32` to
/// `origin + 320`, against a node whose safe head never reaches the target,
/// and then gives up.
pub proof fn lemma_standard_stalled_search(origin: u64, target: u64)
    requires
        origin + 320 <= u64::MAX,
    ensures
        forall|k: nat|
            k < 10 ==> (#[trigger] SafeHeadSearch::started(origin, target, 32, 10).after_misses(
                k,
            ).advanced().1 matches SearchAction::Probe(p) && p == origin + 32 * (k + 1)),
        SafeHeadSearch::started(origin, target, 32, 10).after_misses(10).advanced().1
            == SearchAction::Exhausted,
{
    lemma_stalled_search(origin, target, 32, 10);
}

} // verus!
