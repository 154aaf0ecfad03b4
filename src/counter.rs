use vstd::prelude::*;

verus! {

/// The sequence number that follows `v` on a 64-bit counter that wraps
/// around to zero, as an atomic fetch-and-add of one does.
pub open spec fn successor(v: u64) -> u64 {
    if v == u64::MAX {
        0
    } else {
        (v + 1) as u64
    }
}

/// `states` are the values a counter passes through under successive
/// requests: each `next_sequence` call takes `states[i]` and leaves
/// `states[i + 1]`. Requests made from several threads form such a run when
/// each call holds the counter alone while it runs.
pub open spec fn is_request_run(states: Seq<u64>) -> bool {
    forall|i: int| 0 <= i < states.len() - 1 ==> #[trigger] states[i + 1] == successor(states[i])
}

/// The number that the request at position `i` takes from a counter that
/// stood at `start`: `start + i` modulo 2^64.
pub open spec fn nth_issued(start: u64, i: nat) -> int {
    if start + i <= u64::MAX {
        start + i
    } else {
        start + i - 0x1_0000_0000_0000_0000
    }
}

/// The window counter: the sequence number that the next secondary window
/// will take. It starts at zero and lives as long as the process.
#[derive(Debug)]
pub struct WindowCounter {
    next: u64,
}

impl View for WindowCounter {
    type V = u64;

    closed spec fn view(&self) -> u64 {
        self.next
    }
}

impl WindowCounter {
    /// A counter at its initial value, zero.
    pub fn new() -> (r: WindowCounter)
        ensures
            r@ == 0,
    {
        WindowCounter { next: 0 }
    }

    /// The number that the next request will take.
    pub fn value(&self) -> (r: u64)
        ensures
            r == self@,
    {
        self.next
    }

    /// Takes the current number and moves the counter on by one, wrapping
    /// to zero after `u64::MAX`.
    pub fn next_sequence(&mut self) -> (r: u64)
        ensures
            r == old(self)@,
            final(self)@ == successor(old(self)@),
    {
        let r = self.next;
        self.next = if self.next == u64::MAX {
            0
        } else {
            self.next + 1
        };
        r
    }
}

/// Successive requests take successive numbers: on a run of at most 2^64
/// requests from `states[0]`, the counter stands at `states[0] + i` (modulo
/// 2^64) after the `i`-th, and the numbers taken are pairwise distinct.
pub proof fn lemma_run_numbers(states: Seq<u64>)
    requires
        is_request_run(states),
        states.len() <= 0x1_0000_0000_0000_0001,
    ensures
        forall|i: int| 0 <= i < states.len() ==> #[trigger] states[i] == nth_issued(states[0], i as nat),
        forall|i: int, j: int|
            0 <= i < states.len() - 1 && 0 <= j < states.len() - 1 && i != j ==> states[i]
                != states[j],
{
    assert forall|i: int| 0 <= i < states.len() implies #[trigger] states[i] == nth_issued(
        states[0],
        i as nat,
    ) by {
        lemma_run_at(states, i);
    }
}

proof fn lemma_run_at(states: Seq<u64>, i: int)
    requires
        is_request_run(states),
        states.len() <= 0x1_0000_0000_0000_0001,
        0 <= i < states.len(),
    ensures
        states[i] == nth_issued(states[0], i as nat),
    decreases i,
{
    if i > 0 {
        lemma_run_at(states, i - 1);
        assert(states[(i - 1) + 1] == successor(states[i - 1]));
    }
}

} // verus!
