//! Per-tick collector of interrupt-line events raised by devices.
use vstd::prelude::*;

verus! {

/// Interrupt-line events `(source, asserted)` in the order in which they were raised.
#[derive(Debug)]
pub struct Irq {
    irqs: Vec<(u32, bool)>,
}

impl View for Irq {
    type V = Seq<(u32, bool)>;

    closed spec fn view(&self) -> Seq<(u32, bool)> {
        self.irqs@
    }
}

impl Irq {
    pub fn new() -> (r: Irq)
        ensures
            r@ == Seq::<(u32, bool)>::empty(),
    {
        Irq { irqs: Vec::new() }
    }

    /// Records that line `irq` is driven to `enable`.
    pub fn irq(&mut self, irq: u32, enable: bool)
        ensures
            final(self)@ == old(self)@.push((irq, enable)),
    {
        self.irqs.push((irq, enable));
    }

    /// Takes the most recently recorded event.
    pub fn next(&mut self) -> (r: Option<(u32, bool)>)
        ensures
            old(self)@.len() == 0 ==> r is None && final(self)@ == old(self)@,
            old(self)@.len() > 0 ==> r == Some(old(self)@.last()) && final(self)@ == old(
                self,
            )@.drop_last(),
    {
        self.irqs.pop()
    }
}

} // verus!
