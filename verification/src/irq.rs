use vstd::prelude::*;

verus! {

/// Interrupt request lines, listed from highest to lowest priority.
#[derive(Debug, Clone, Copy, PartialEq, Eq, Structural)]
pub enum IrqLine {
    Timer0,
    VBlank,
    Dma0,
}

impl IrqLine {
    /// Number of the line: the position of its bit in the pending and enabled masks.
    pub open spec fn index(self) -> u32 {
        match self {
            IrqLine::Timer0 => 0,
            IrqLine::VBlank => 1,
            IrqLine::Dma0 => 2,
        }
    }

    /// Mask with only this line's bit set.
    pub open spec fn mask(self) -> u32 {
        match self {
            IrqLine::Timer0 => 0x1,
            IrqLine::VBlank => 0x2,
            IrqLine::Dma0 => 0x4,
        }
    }

    pub fn number(self) -> (n: u32)
        ensures
            n == self.index(),
    {
        match self {
            IrqLine::Timer0 => 0,
            IrqLine::VBlank => 1,
            IrqLine::Dma0 => 2,
        }
    }

    pub fn bit(self) -> (mask: u32)
        ensures
            mask == self.mask(),
    {
        match self {
            IrqLine::Timer0 => 0x1,
            IrqLine::VBlank => 0x2,
            IrqLine::Dma0 => 0x4,
        }
    }
}

/// Model of the interrupt controller: the two line masks.
pub struct IrqModel {
    pub enabled: u32,
    pub pending: u32,
}

impl IrqModel {
    /// Whether `line` is both pending and enabled.
    pub open spec fn active(self, line: IrqLine) -> bool {
        (self.pending & self.enabled) & line.mask() != 0
    }

    /// The line that is served next: the first active one in priority order.
    pub open spec fn next(self) -> Option<IrqLine> {
        if self.active(IrqLine::Timer0) {
            Some(IrqLine::Timer0)
        } else if self.active(IrqLine::VBlank) {
            Some(IrqLine::VBlank)
        } else if self.active(IrqLine::Dma0) {
            Some(IrqLine::Dma0)
        } else {
            None
        }
    }
}

/// Pending and enabled masks of the interrupt lines, with fixed-priority selection.
pub struct IrqController {
    enabled: u32,
    pending: u32,
}

impl View for IrqController {
    type V = IrqModel;

    closed spec fn view(&self) -> IrqModel {
        IrqModel { enabled: self.enabled, pending: self.pending }
    }
}

impl IrqController {
    /// All lines enabled, none pending.
    pub fn new() -> (irq: Self)
        ensures
            irq@ == (IrqModel { enabled: u32::MAX, pending: 0 }),
    {
        IrqController { enabled: u32::MAX, pending: 0 }
    }

    /// Drops every pending request; the enabled mask stays.
    pub fn reset(&mut self)
        ensures
            final(self)@ == (IrqModel { pending: 0, ..old(self)@ }),
    {
        self.pending = 0;
    }

    pub fn set_enabled_mask(&mut self, mask: u32)
        ensures
            final(self)@ == (IrqModel { enabled: mask, ..old(self)@ }),
    {
        self.enabled = mask;
    }

    pub fn raise(&mut self, line: IrqLine)
        ensures
            final(self)@ == (IrqModel { pending: old(self)@.pending | line.mask(), ..old(self)@ }),
    {
        self.pending = self.pending | line.bit();
    }

    pub fn clear(&mut self, line: IrqLine)
        ensures
            final(self)@ == (IrqModel { pending: old(self)@.pending & !line.mask(), ..old(self)@ }),
    {
        self.pending = self.pending & !line.bit();
    }

    /// The highest-priority line that is pending and enabled: timer first, then
    /// V-blank, then DMA.
    pub fn next_pending(&self) -> (line: Option<IrqLine>)
        ensures
            line == self@.next(),
    {
        let active = self.pending & self.enabled;
        if active & IrqLine::Timer0.bit() != 0 {
            return Some(IrqLine::Timer0);
        }
        if active & IrqLine::VBlank.bit() != 0 {
            return Some(IrqLine::VBlank);
        }
        if active & IrqLine::Dma0.bit() != 0 {
            return Some(IrqLine::Dma0);
        }
        None
    }
}

impl Default for IrqController {
    fn default() -> (irq: Self)
        ensures
            irq@ == (IrqModel { enabled: u32::MAX, pending: 0 }),
    {
        IrqController::new()
    }
}

/// A raised line is active when it is enabled, a cleared line never is, and raising
/// or clearing one line leaves the others as they were.
pub proof fn law_raise_and_clear(m: IrqModel, line: IrqLine, other: IrqLine)
    ensures
        (IrqModel { pending: m.pending | line.mask(), ..m }).active(line) == (m.enabled
            & line.mask() != 0),
        !(IrqModel { pending: m.pending & !line.mask(), ..m }).active(line),
        other != line ==> (IrqModel { pending: m.pending | line.mask(), ..m }).active(other)
            == m.active(other),
        other != line ==> (IrqModel { pending: m.pending & !line.mask(), ..m }).active(other)
            == m.active(other),
{
    let p = m.pending;
    let e = m.enabled;
    assert(forall|p: u32, e: u32, a: u32, b: u32|
        #![trigger ((p | a) & e) & b]
        (a == 1 || a == 2 || a == 4) && (b == 1 || b == 2 || b == 4) ==> {
            &&& ((((p | a) & e) & a != 0) == (e & a != 0))
            &&& (((p & !a) & e) & a == 0)
            &&& (a != b ==> (((p | a) & e) & b) == ((p & e) & b))
            &&& (a != b ==> (((p & !a) & e) & b) == ((p & e) & b))
        }) by (bit_vector);
    assert(((p | line.mask()) & e) & other.mask() == ((p | line.mask()) & e) & other.mask());
}

} // verus!
