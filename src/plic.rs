//! Platform-level interrupt controller: priorities, pending bits, and per-context
//! enable, threshold and claim/complete state.
use vstd::prelude::*;

use crate::utils::{Exception, Size};

verus! {

pub const PLIC_START: u32 = 0x0c00_0000;

pub const PLIC_END: u32 = 0x0fff_ffff;

/// Interrupt sources; source 0 means "no interrupt".
pub const SOURCE_COUNT: usize = 1024;

/// Contexts: one hart, machine (0) and supervisor (1) mode.
pub const CONTEXT_COUNT: usize = 2;

/// 32-bit words in one bitmap over all sources.
pub const BITMAP_WORDS: usize = 32;

/// Whether bit `b` of `w` is set.
pub open spec fn bit_set(w: u32, b: u32) -> bool {
    w & (1u32 << b) != 0
}

pub open spec fn with_bit(w: u32, b: u32, level: bool) -> u32 {
    if level {
        w | (1u32 << b)
    } else {
        w & !(1u32 << b)
    }
}

proof fn lemma_with_bit(w: u32, b: u32, j: u32, level: bool)
    requires
        b < 32,
        j < 32,
    ensures
        bit_set(with_bit(w, b, level), j) == if j == b {
            level
        } else {
            bit_set(w, j)
        },
{
    if level {
        assert(((w | (1u32 << b)) & (1u32 << j) != 0) == (j == b || w & (1u32 << j) != 0))
            by (bit_vector)
            requires
                b < 32,
                j < 32,
        ;
    } else {
        assert(((w & !(1u32 << b)) & (1u32 << j) != 0) == (j != b && w & (1u32 << j) != 0))
            by (bit_vector)
            requires
                b < 32,
                j < 32,
        ;
    }
}

/// The mathematical state of the controller.
pub ghost struct PlicState {
    /// priority of each source
    pub priorities: Seq<u32>,
    /// pending bitmap, 32 sources per word
    pub pending: Seq<u32>,
    /// enable bitmaps, `BITMAP_WORDS` words per context
    pub enable: Seq<u32>,
    /// threshold of each context
    pub threshold: Seq<u32>,
    /// claimed flags, `SOURCE_COUNT` per context
    pub claimed: Seq<bool>,
    /// whether the aggregate interrupt level may have changed since it was last reported
    pub update: bool,
}

impl PlicState {
    pub open spec fn wf(self) -> bool {
        &&& self.priorities.len() == SOURCE_COUNT
        &&& self.pending.len() == BITMAP_WORDS
        &&& self.enable.len() == CONTEXT_COUNT * BITMAP_WORDS
        &&& self.threshold.len() == CONTEXT_COUNT
        &&& self.claimed.len() == CONTEXT_COUNT * SOURCE_COUNT
    }

    pub open spec fn is_pending(self, s: nat) -> bool {
        bit_set(self.pending[(s / 32) as int], (s % 32) as u32)
    }

    pub open spec fn is_enabled(self, c: nat, s: nat) -> bool {
        bit_set(self.enable[(c * BITMAP_WORDS + s / 32) as int], (s % 32) as u32)
    }

    pub open spec fn is_claimed(self, c: nat, s: nat) -> bool {
        self.claimed[(c * SOURCE_COUNT + s) as int]
    }

    /// Source `s` may be delivered to context `c`.
    pub open spec fn eligible(self, c: nat, s: nat) -> bool {
        &&& 1 <= s < SOURCE_COUNT
        &&& self.is_enabled(c, s)
        &&& self.is_pending(s)
        &&& !self.is_claimed(c, s)
        &&& self.priorities[s as int] > self.threshold[c as int]
    }

    pub open spec fn has_eligible(self, c: nat) -> bool {
        exists|s: nat| self.eligible(c, s)
    }

    /// `r` is the source that context `c` would claim: the eligible source of highest
    /// priority, the lowest such id on a tie, or 0 when none is eligible.
    pub open spec fn is_highest(self, c: nat, r: nat) -> bool {
        if r == 0 {
            !self.has_eligible(c)
        } else {
            &&& self.eligible(c, r)
            &&& forall|s: nat|
                #![trigger self.eligible(c, s)]
                self.eligible(c, s) ==> self.priorities[s as int] < self.priorities[r as int] || (
                self.priorities[s as int] == self.priorities[r as int] && r <= s)
        }
    }

    /// The state after line `s` is driven to `level`.
    pub open spec fn with_irq(self, s: nat, level: bool) -> PlicState {
        let w = self.pending[(s / 32) as int];
        let nw = with_bit(w, (s % 32) as u32, level);
        PlicState {
            pending: self.pending.update((s / 32) as int, nw),
            update: self.update || nw != w,
            ..self
        }
    }

    /// The state after context `c` claims source `r`.
    pub open spec fn after_claim(self, c: nat, r: nat) -> PlicState {
        PlicState {
            pending: self.pending.update(
                (r / 32) as int,
                with_bit(self.pending[(r / 32) as int], (r % 32) as u32, false),
            ),
            claimed: self.claimed.update((c * SOURCE_COUNT + r) as int, true),
            update: true,
            ..self
        }
    }

    /// The state after context `c` signals completion of source `s`.
    pub open spec fn after_complete(self, c: nat, s: nat) -> PlicState {
        PlicState { claimed: self.claimed.update((c * SOURCE_COUNT + s) as int, false), ..self }
    }

    pub open spec fn with_priority(self, s: nat, v: u32) -> PlicState {
        PlicState { priorities: self.priorities.update(s as int, v), ..self }
    }

    pub open spec fn with_enable(self, c: nat, w: nat, v: u32) -> PlicState {
        PlicState { enable: self.enable.update((c * BITMAP_WORDS + w) as int, v), ..self }
    }

    pub open spec fn with_threshold(self, c: nat, v: u32) -> PlicState {
        PlicState { threshold: self.threshold.update(c as int, v), ..self }
    }

    /// A register read at `address` returns `r` and leaves the state `after`.
    pub open spec fn read_rel(
        self,
        address: u32,
        size: Size,
        r: Result<u64, Exception>,
        after: PlicState,
    ) -> bool {
        if size != Size::_4 {
            r == Err::<u64, Exception>(Exception::BusException) && after == self
        } else {
            match spec_decode((address - PLIC_START) as u32) {
                PlicReg::Priority(s) => r == Ok::<u64, Exception>(self.priorities[s as int] as u64)
                    && after == self,
                PlicReg::Pending(w) => r == Ok::<u64, Exception>(self.pending[w as int] as u64)
                    && after == self,
                PlicReg::Enable(c, w) => r == Ok::<u64, Exception>(
                    self.enable[c * BITMAP_WORDS + w] as u64,
                ) && after == self,
                PlicReg::Threshold(c) => r == Ok::<u64, Exception>(self.threshold[c as int] as u64)
                    && after == self,
                PlicReg::ClaimComplete(c) => r matches Ok(v) && v < SOURCE_COUNT
                    && self.is_highest(c as nat, v as nat) && after == self.after_claim(
                    c as nat,
                    v as nat,
                ),
                PlicReg::Invalid => r == Err::<u64, Exception>(Exception::BusException) && after
                    == self,
            }
        }
    }

    /// A register write of `data` at `address` returns `r` and leaves the state `after`;
    /// writing a complete register completes the source whose id is written, and ids out
    /// of range are ignored.
    pub open spec fn write_rel(
        self,
        address: u32,
        size: Size,
        data: u64,
        r: Result<(), Exception>,
        after: PlicState,
    ) -> bool {
        if size != Size::_4 {
            r == Err::<(), Exception>(Exception::BusException) && after == self
        } else {
            match spec_decode((address - PLIC_START) as u32) {
                PlicReg::Priority(s) => r == Ok::<(), Exception>(()) && after == self.with_priority(
                    s as nat,
                    data as u32,
                ),
                PlicReg::Enable(c, w) => r == Ok::<(), Exception>(()) && after == self.with_enable(
                    c as nat,
                    w as nat,
                    data as u32,
                ),
                PlicReg::Threshold(c) => r == Ok::<(), Exception>(()) && after
                    == self.with_threshold(c as nat, data as u32),
                PlicReg::ClaimComplete(c) => r == Ok::<(), Exception>(()) && after == if (data as u32)
                    < SOURCE_COUNT {
                    self.after_complete(c as nat, data as u32 as nat)
                } else {
                    self
                },
                _ => r == Err::<(), Exception>(Exception::BusException) && after == self,
            }
        }
    }

    /// What a poll of the aggregate interrupt line reports.
    pub open spec fn poll_result(self) -> Option<bool> {
        if self.update {
            Some(self.has_eligible(0))
        } else {
            None
        }
    }

    pub open spec fn after_poll(self) -> PlicState {
        PlicState { update: false, ..self }
    }
}

/// At most one source satisfies `is_highest`: claiming is deterministic.
pub proof fn lemma_highest_unique(p: PlicState, c: nat, r1: nat, r2: nat)
    requires
        p.is_highest(c, r1),
        p.is_highest(c, r2),
    ensures
        r1 == r2,
{
    if r1 != 0 && r2 != 0 {
        assert(p.eligible(c, r2));
        assert(p.eligible(c, r1));
    } else if r1 != 0 {
        assert(p.eligible(c, r1));
    } else if r2 != 0 {
        assert(p.eligible(c, r2));
    }
}

/// A source whose priority is at or below the context's threshold, or which the
/// context has not enabled, is never what that context claims.
pub proof fn lemma_ineligible_never_claimed(p: PlicState, c: nat, s: nat, r: nat)
    requires
        1 <= s,
        p.priorities[s as int] <= p.threshold[c as int] || !p.is_enabled(c, s),
        p.is_highest(c, r),
    ensures
        r != s,
{
}

/// Once a context has claimed a source, it cannot claim it again before completing
/// it, whatever the line does meanwhile.
pub proof fn lemma_claimed_not_reclaimed(p: PlicState, c: nat, r: nat, level: bool, r2: nat)
    requires
        p.wf(),
        c < CONTEXT_COUNT,
        r != 0,
        p.is_highest(c, r),
        p.after_claim(c, r).with_irq(r, level).is_highest(c, r2),
    ensures
        r2 != r,
{
    assert(p.after_claim(c, r).with_irq(r, level).is_claimed(c, r));
}

/// After a context completes a source, raising its line makes it eligible again for
/// that context if it is enabled there and above the threshold.
pub proof fn lemma_complete_rearms(p: PlicState, c: nat, s: nat)
    requires
        p.wf(),
        c < CONTEXT_COUNT,
        1 <= s < SOURCE_COUNT,
        p.is_enabled(c, s),
        p.priorities[s as int] > p.threshold[c as int],
    ensures
        p.after_complete(c, s).with_irq(s, true).eligible(c, s),
        p.after_complete(c, s).with_irq(s, true).has_eligible(c),
{
    let q = p.after_complete(c, s);
    lemma_with_bit(q.pending[(s / 32) as int], (s % 32) as u32, (s % 32) as u32, true);
    assert(q.with_irq(s, true).eligible(c, s));
}

/// Driving a line changes its pending bit and no other.
pub proof fn lemma_irq_pending(p: PlicState, s: nat, level: bool, t: nat)
    requires
        p.wf(),
        s < SOURCE_COUNT,
        t < SOURCE_COUNT,
    ensures
        p.with_irq(s, level).is_pending(t) == if t == s {
            level
        } else {
            p.is_pending(t)
        },
{
    let w = p.pending[(s / 32) as int];
    if t / 32 == s / 32 {
        lemma_with_bit(w, (s % 32) as u32, (t % 32) as u32, level);
    }
}

/// Edge reporting: after a line is driven, a poll reports `Some` exactly when the
/// pending bitmap changed, carrying whether any source is eligible for context 0;
/// a second poll with nothing in between reports `None`.
pub proof fn lemma_edge_report(p: PlicState, s: nat, level: bool)
    requires
        p.wf(),
        !p.update,
        s < SOURCE_COUNT,
    ensures
        p.with_irq(s, level).poll_result() is None <==> p.with_irq(s, level).pending == p.pending,
        p.with_irq(s, level).poll_result() matches Some(l) ==> l == p.with_irq(
            s,
            level,
        ).has_eligible(0),
        p.with_irq(s, level).after_poll().poll_result() is None,
{
    let w = p.pending[(s / 32) as int];
    let nw = with_bit(w, (s % 32) as u32, level);
    if nw == w {
        assert(p.pending.update((s / 32) as int, nw) =~= p.pending);
    } else {
        assert(p.pending.update((s / 32) as int, nw)[(s / 32) as int] != p.pending[(s / 32) as int]);
    }
}

/// A decoded register of the controller, by offset from its base.
#[derive(Debug, Clone, Copy, PartialEq, Eq, Structural)]
pub enum PlicReg {
    /// priority of a source
    Priority(usize),
    /// a word of the pending bitmap
    Pending(usize),
    /// a word of a context's enable bitmap: (context, word)
    Enable(usize, usize),
    /// a context's threshold
    Threshold(usize),
    /// a context's claim (on read) / complete (on write) register
    ClaimComplete(usize),
    /// no register
    Invalid,
}

/// Register map of the controller, by offset from its base.
pub open spec fn spec_decode(off: u32) -> PlicReg {
    if off % 4 != 0 {
        PlicReg::Invalid
    } else if 0x4 <= off <= 0xfff {
        PlicReg::Priority((off / 4) as usize)
    } else if 0x1000 <= off <= 0x107f {
        PlicReg::Pending(((off - 0x1000) / 4) as usize)
    } else if 0x2000 <= off <= 0x1f_1fff {
        let c = (off - 0x2000) / 0x80;
        if c < CONTEXT_COUNT {
            PlicReg::Enable(c as usize, (((off - 0x2000) % 0x80) / 4) as usize)
        } else {
            PlicReg::Invalid
        }
    } else if 0x20_0000 <= off <= 0x3ff_ffff {
        let c = (off - 0x20_0000) / 0x1000;
        let item = (off - 0x20_0000) % 0x1000;
        if c >= CONTEXT_COUNT {
            PlicReg::Invalid
        } else if item == 0 {
            PlicReg::Threshold(c as usize)
        } else if item == 4 {
            PlicReg::ClaimComplete(c as usize)
        } else {
            PlicReg::Invalid
        }
    } else {
        PlicReg::Invalid
    }
}

/// Decodes an offset from the controller's base into a register.
pub fn decode(off: u32) -> (r: PlicReg)
    ensures
        r == spec_decode(off),
        r matches PlicReg::Priority(s) ==> 1 <= s < SOURCE_COUNT,
        r matches PlicReg::Pending(w) ==> w < BITMAP_WORDS,
        r matches PlicReg::Enable(c, w) ==> c < CONTEXT_COUNT && w < BITMAP_WORDS,
        r matches PlicReg::Threshold(c) ==> c < CONTEXT_COUNT,
        r matches PlicReg::ClaimComplete(c) ==> c < CONTEXT_COUNT,
{
    if off % 4 != 0 {
        PlicReg::Invalid
    } else if 0x4 <= off && off <= 0xfff {
        PlicReg::Priority((off / 4) as usize)
    } else if 0x1000 <= off && off <= 0x107f {
        PlicReg::Pending(((off - 0x1000) / 4) as usize)
    } else if 0x2000 <= off && off <= 0x1f_1fff {
        let c = (off - 0x2000) / 0x80;
        if (c as usize) < CONTEXT_COUNT {
            PlicReg::Enable(c as usize, (((off - 0x2000) % 0x80) / 4) as usize)
        } else {
            PlicReg::Invalid
        }
    } else if 0x20_0000 <= off && off <= 0x3ff_ffff {
        let c = (off - 0x20_0000) / 0x1000;
        let item = (off - 0x20_0000) % 0x1000;
        if (c as usize) >= CONTEXT_COUNT {
            PlicReg::Invalid
        } else if item == 0 {
            PlicReg::Threshold(c as usize)
        } else if item == 4 {
            PlicReg::ClaimComplete(c as usize)
        } else {
            PlicReg::Invalid
        }
    } else {
        PlicReg::Invalid
    }
}

/// The interrupt controller device.
#[derive(Debug)]
pub struct Plic {
    priorities: Vec<u32>,
    pending: Vec<u32>,
    enable: Vec<u32>,
    threshold: Vec<u32>,
    claimed: Vec<bool>,
    update: bool,
}

impl View for Plic {
    type V = PlicState;

    closed spec fn view(&self) -> PlicState {
        PlicState {
            priorities: self.priorities@,
            pending: self.pending@,
            enable: self.enable@,
            threshold: self.threshold@,
            claimed: self.claimed@,
            update: self.update,
        }
    }
}

impl Plic {
    pub open spec fn wf(&self) -> bool {
        self@.wf()
    }

    /// A controller with every priority, bit, threshold and flag cleared.
    pub fn new() -> (r: Plic)
        ensures
            r.wf(),
            forall|s: int| 0 <= s < SOURCE_COUNT ==> #[trigger] r@.priorities[s] == 0,
            forall|w: int| 0 <= w < BITMAP_WORDS ==> #[trigger] r@.pending[w] == 0,
            forall|i: int| 0 <= i < CONTEXT_COUNT * BITMAP_WORDS ==> #[trigger] r@.enable[i] == 0,
            forall|c: int| 0 <= c < CONTEXT_COUNT ==> #[trigger] r@.threshold[c] == 0,
            forall|i: int|
                0 <= i < CONTEXT_COUNT * SOURCE_COUNT ==> #[trigger] r@.claimed[i] == false,
            !r@.update,
    {
        Plic {
            priorities: vec![0u32; SOURCE_COUNT],
            pending: vec![0u32; BITMAP_WORDS],
            enable: vec![0u32; CONTEXT_COUNT * BITMAP_WORDS],
            threshold: vec![0u32; CONTEXT_COUNT],
            claimed: vec![false; CONTEXT_COUNT * SOURCE_COUNT],
            update: false,
        }
    }

    /// Drives interrupt line `irq` to `enable`.
    pub fn irq(&mut self, irq: u32, enable: bool)
        requires
            old(self).wf(),
            irq < SOURCE_COUNT,
        ensures
            final(self)@ == old(self)@.with_irq(irq as nat, enable),
    {
        let index = (irq / 32) as usize;
        let offset = irq % 32;
        let pending = self.pending[index];
        let next = if enable {
            pending | (1u32 << offset)
        } else {
            pending & !(1u32 << offset)
        };
        self.pending.set(index, next);
        if pending != next {
            self.update = true;
        }
    }

    /// Reports the aggregate interrupt level of context 0 when it may have changed since
    /// the last report.
    pub fn check_interrupt(&mut self) -> (r: Option<bool>)
        requires
            old(self).wf(),
        ensures
            r == old(self)@.poll_result(),
            final(self)@ == old(self)@.after_poll(),
    {
        if self.update {
            let h = self.highest_irq(0);
            proof {
                if h != 0 {
                    assert(self@.eligible(0, h as nat));
                }
            }
            self.update = false;
            return Some(h != 0);
        }
        None
    }

    /// Marks source `irq` as no longer claimed by `context`.
    pub fn complete(&mut self, context: usize, irq: u32)
        requires
            old(self).wf(),
            context < CONTEXT_COUNT,
            irq < SOURCE_COUNT,
        ensures
            final(self)@ == old(self)@.after_complete(context as nat, irq as nat),
    {
        self.claimed.set(context * SOURCE_COUNT + irq as usize, false);
    }

    /// Claims the source that `context` should serve next; 0 when there is none.
    pub fn claim(&mut self, context: usize) -> (r: u32)
        requires
            old(self).wf(),
            context < CONTEXT_COUNT,
        ensures
            r < SOURCE_COUNT,
            old(self)@.is_highest(context as nat, r as nat),
            final(self)@ == old(self)@.after_claim(context as nat, r as nat),
    {
        let irq = self.highest_irq(context);
        let index = (irq / 32) as usize;
        let offset = irq % 32;
        let word = self.pending[index] & !(1u32 << offset);
        self.pending.set(index, word);
        self.claimed.set(context * SOURCE_COUNT + irq as usize, true);
        self.update = true;
        irq
    }

    /// Register read at `address`, as `read_rel` states; reading a claim register claims.
    pub fn read(&mut self, address: u32, size: Size) -> (r: Result<u64, Exception>)
        requires
            old(self).wf(),
            PLIC_START <= address <= PLIC_END,
        ensures
            final(self).wf(),
            old(self)@.read_rel(address, size, r, final(self)@),
    {
        if size != Size::_4 {
            return Err(Exception::BusException);
        }
        match decode(address - PLIC_START) {
            PlicReg::Priority(s) => Ok(self.priorities[s] as u64),
            PlicReg::Pending(w) => Ok(self.pending[w] as u64),
            PlicReg::Enable(c, w) => Ok(self.enable[c * BITMAP_WORDS + w] as u64),
            PlicReg::Threshold(c) => Ok(self.threshold[c] as u64),
            PlicReg::ClaimComplete(c) => Ok(self.claim(c) as u64),
            PlicReg::Invalid => Err(Exception::BusException),
        }
    }

    /// Register write at `address`, as `write_rel` states.
    pub fn write(&mut self, address: u32, size: Size, data: u64) -> (r: Result<(), Exception>)
        requires
            old(self).wf(),
            PLIC_START <= address <= PLIC_END,
        ensures
            final(self).wf(),
            old(self)@.write_rel(address, size, data, r, final(self)@),
    {
        if size != Size::_4 {
            return Err(Exception::BusException);
        }
        match decode(address - PLIC_START) {
            PlicReg::Priority(s) => {
                self.priorities.set(s, data as u32);
            },
            PlicReg::Enable(c, w) => {
                self.enable.set(c * BITMAP_WORDS + w, data as u32);
            },
            PlicReg::Threshold(c) => {
                self.threshold.set(c, data as u32);
            },
            PlicReg::ClaimComplete(c) => {
                let irq = data as u32;
                if (irq as usize) < SOURCE_COUNT {
                    self.complete(c, irq);
                }
            },
            _ => {
                return Err(Exception::BusException);
            },
        }
        Ok(())
    }

    /// The eligible source of highest priority for `context`, the lowest id on a tie;
    /// 0 when none is eligible.
    pub fn highest_irq(&self, context: usize) -> (r: u32)
        requires
            self.wf(),
            context < CONTEXT_COUNT,
        ensures
            r < SOURCE_COUNT,
            self@.is_highest(context as nat, r as nat),
    {
        let ghost st = self@;
        let ghost c = context as nat;
        let mut irq: u32 = 0;
        let mut priority: u32 = 0;
        let mut i: usize = 1;
        while i < SOURCE_COUNT
            invariant
                st == self@,
                self.wf(),
                c == context,
                context < CONTEXT_COUNT,
                1 <= i <= SOURCE_COUNT,
                irq < i,
                irq == 0 ==> priority == 0,
                irq == 0 ==> forall|s: nat| s < i ==> !#[trigger] st.eligible(c, s),
                irq != 0 ==> st.eligible(c, irq as nat) && priority == st.priorities[irq as int],
                forall|s: nat|
                    #![trigger st.eligible(c, s)]
                    s < i && st.eligible(c, s) ==> st.priorities[s as int] < priority || (
                    st.priorities[s as int] == priority && irq <= s),
            decreases SOURCE_COUNT - i,
        {
            let index = i / 32;
            let offset = (i % 32) as u32;
            let p = self.priorities[i];
            if self.enable[context * BITMAP_WORDS + index] & (1u32 << offset) != 0
                && self.pending[index] & (1u32 << offset) != 0
                && !self.claimed[context * SOURCE_COUNT + i]
                && p > self.threshold[context]
                && p > priority
            {
                irq = i as u32;
                priority = p;
            }
            i = i + 1;
        }
        proof {
            if irq == 0 {
                assert forall|s: nat| !st.eligible(c, s) by {
                    if s < SOURCE_COUNT {
                    }
                }
            }
        }
        irq
    }
}

} // verus!
