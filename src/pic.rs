//! Driver for the two cascaded 8259-style interrupt controllers.
//!
//! The driver never touches hardware itself: each operation returns the
//! exact sequence of port writes that carries it out, and the caller performs
//! them in order.
use vstd::prelude::*;

verus! {

/// Command port of the primary chip.
pub const PRIMARY_COMMAND: u16 = 0x20;

/// Data port of the primary chip.
pub const PRIMARY_DATA: u16 = 0x21;

/// Command port of the secondary chip.
pub const SECONDARY_COMMAND: u16 = 0xA0;

/// Data port of the secondary chip.
pub const SECONDARY_DATA: u16 = 0xA1;

/// An unused port; writing to it gives the chips time to settle between
/// initialization words.
pub const WAIT_PORT: u16 = 0x80;

/// First initialization word: start the sequence, expect the fourth word.
pub const CMD_INIT: u8 = 0x11;

/// End-of-interrupt command.
pub const CMD_END_OF_INTERRUPT: u8 = 0x20;

/// Fourth initialization word: 8086 mode.
pub const MODE_8086: u8 = 0x01;

/// Third initialization word for the primary chip: the secondary hangs on line 2.
pub const CASCADE_PRIMARY: u8 = 4;

/// Third initialization word for the secondary chip: its cascade identity.
pub const CASCADE_SECONDARY: u8 = 2;

/// Number of lines of one chip.
pub const LINES_PER_CHIP: u8 = 8;

/// Mask that every line starts with: all lines of the primary chip but the
/// timer (0), the keyboard (1) and the cascade (2) are masked, and all lines
/// of the secondary chip are masked.
pub const DEFAULT_PRIMARY_MASK: u8 = 0xF8;

/// Mask that the secondary chip starts with.
pub const DEFAULT_SECONDARY_MASK: u8 = 0xFF;

/// One byte written to one I/O port.
#[derive(Debug, Clone, Copy, PartialEq, Eq, Structural)]
pub struct PortWrite {
    pub port: u16,
    pub value: u8,
}

/// Why a pair of base vectors is refused.
#[derive(Debug, Clone, Copy, PartialEq, Eq, Structural)]
pub enum ControllerError {
    /// The primary base overlaps the architecture's exception vectors 0-31.
    OverlapsExceptions,
    /// The secondary base is not exactly eight above the primary base.
    NotAdjacent,
}

pub open spec fn port_write(port: u16, value: u8) -> PortWrite {
    PortWrite { port, value }
}

/// The bases are usable: the primary range starts above the exception
/// vectors and the secondary range follows it directly.
pub open spec fn valid_bases(primary_base: u8, secondary_base: u8) -> bool {
    primary_base >= 32 && secondary_base == primary_base + 8
}

/// Which error a pair of base vectors gets, if any.
pub open spec fn bases_error(primary_base: u8, secondary_base: u8) -> Option<ControllerError> {
    if primary_base < 32 {
        Some(ControllerError::OverlapsExceptions)
    } else if secondary_base != primary_base + 8 {
        Some(ControllerError::NotAdjacent)
    } else {
        None
    }
}

/// Tests the bases that `Controller::new` requires.
pub fn check_bases(primary_base: u8, secondary_base: u8) -> (r: Result<(), ControllerError>)
    ensures
        r is Ok <==> valid_bases(primary_base, secondary_base),
        r is Err ==> bases_error(primary_base, secondary_base) == Some(r->Err_0),
{
    if primary_base < 32 {
        Err(ControllerError::OverlapsExceptions)
    } else if primary_base > 247 || secondary_base != primary_base + 8 {
        Err(ControllerError::NotAdjacent)
    } else {
        Ok(())
    }
}

/// Bit `bit` of `mask` is set.
pub open spec fn bit_set(mask: u8, bit: u8) -> bool {
    (mask >> bit) & 1 == 1
}

proof fn lemma_with_bit(mask: u8, bit: u8, set: bool, l: u8)
    requires
        bit < 8,
        l < 8,
    ensures
        bit_set(if set { mask | (1u8 << bit) } else { mask & !(1u8 << bit) }, l) == if l == bit {
            set
        } else {
            bit_set(mask, l)
        },
{
    if set {
        assert(((mask | (1u8 << bit)) >> l) & 1 == 1 <==> (if l == bit { true } else { (mask >> l)
            & 1 == 1 })) by (bit_vector)
            requires
                bit < 8,
                l < 8,
        ;
    } else {
        assert(((mask & !(1u8 << bit)) >> l) & 1 == 1 <==> (if l == bit { false } else { (mask
            >> l) & 1 == 1 })) by (bit_vector)
            requires
                bit < 8,
                l < 8,
        ;
    }
}

/// `mask` with bit `bit` set to `set`.
fn with_bit(mask: u8, bit: u8, set: bool) -> (r: u8)
    requires
        bit < 8,
    ensures
        forall|l: u8| l < 8 ==> #[trigger] bit_set(r, l) == if l == bit { set } else { bit_set(mask, l) },
{
    let r = if set { mask | (1u8 << bit) } else { mask & !(1u8 << bit) };
    assert forall|l: u8| l < 8 implies #[trigger] bit_set(r, l) == if l == bit {
        set
    } else {
        bit_set(mask, l)
    } by {
        lemma_with_bit(mask, bit, set, l);
    }
    r
}

/// State of the cascaded pair: the base vector of each chip and the mask of
/// each chip's lines (bit `i` set: line `i` masked).
pub struct Controller {
    primary_base: u8,
    secondary_base: u8,
    primary_mask: u8,
    secondary_mask: u8,
}

impl Controller {
    #[verifier::type_invariant]
    spec fn bases_ok(self) -> bool {
        valid_bases(self.primary_base, self.secondary_base)
    }

    pub closed spec fn spec_primary_base(self) -> u8 {
        self.primary_base
    }

    pub closed spec fn spec_secondary_base(self) -> u8 {
        self.secondary_base
    }

    pub closed spec fn spec_primary_mask(self) -> u8 {
        self.primary_mask
    }

    pub closed spec fn spec_secondary_mask(self) -> u8 {
        self.secondary_mask
    }

    /// The vector belongs to the primary chip's lines.
    pub open spec fn on_primary(self, vector: u8) -> bool {
        self.spec_primary_base() <= vector < self.spec_primary_base() + 8
    }

    /// The vector belongs to the secondary chip's lines.
    pub open spec fn on_secondary(self, vector: u8) -> bool {
        self.spec_secondary_base() <= vector < self.spec_secondary_base() + 8
    }

    pub open spec fn spec_handles_interrupt(self, vector: u8) -> bool {
        self.on_primary(vector) || self.on_secondary(vector)
    }

    /// The writes that acknowledge `vector`: the secondary chip first when the
    /// vector is at or above its base, then always the primary chip; nothing
    /// for a vector that neither chip raises.
    pub open spec fn ack_plan(self, vector: u8) -> Seq<PortWrite> {
        if !self.spec_handles_interrupt(vector) {
            seq![]
        } else if vector >= self.spec_secondary_base() {
            seq![
                port_write(SECONDARY_COMMAND, CMD_END_OF_INTERRUPT),
                port_write(PRIMARY_COMMAND, CMD_END_OF_INTERRUPT),
            ]
        } else {
            seq![port_write(PRIMARY_COMMAND, CMD_END_OF_INTERRUPT)]
        }
    }

    /// The remap sequence: mask every line, send the four initialization
    /// words to both chips (with a settle write after each), then install the
    /// controller's own masks.
    pub open spec fn init_plan(self) -> Seq<PortWrite> {
        seq![
            port_write(PRIMARY_DATA, 0xFF),
            port_write(SECONDARY_DATA, 0xFF),
            port_write(PRIMARY_COMMAND, CMD_INIT),
            port_write(WAIT_PORT, 0),
            port_write(SECONDARY_COMMAND, CMD_INIT),
            port_write(WAIT_PORT, 0),
            port_write(PRIMARY_DATA, self.spec_primary_base()),
            port_write(WAIT_PORT, 0),
            port_write(SECONDARY_DATA, self.spec_secondary_base()),
            port_write(WAIT_PORT, 0),
            port_write(PRIMARY_DATA, CASCADE_PRIMARY),
            port_write(WAIT_PORT, 0),
            port_write(SECONDARY_DATA, CASCADE_SECONDARY),
            port_write(WAIT_PORT, 0),
            port_write(PRIMARY_DATA, MODE_8086),
            port_write(WAIT_PORT, 0),
            port_write(SECONDARY_DATA, MODE_8086),
            port_write(WAIT_PORT, 0),
            port_write(PRIMARY_DATA, self.spec_primary_mask()),
            port_write(SECONDARY_DATA, self.spec_secondary_mask()),
        ]
    }

    /// Line `line` (0-15; 8-15 are the secondary chip's) is masked.
    pub open spec fn line_masked(self, line: u8) -> bool {
        if line < 8 {
            bit_set(self.spec_primary_mask(), line)
        } else {
            bit_set(self.spec_secondary_mask(), (line - 8) as u8)
        }
    }

    /// A driver for chips based at `primary_base` and `secondary_base`, with
    /// the timer and keyboard lines open and every other line masked. The
    /// bases are fixed once and for all; nothing is written to hardware here.
    pub fn new(primary_base: u8, secondary_base: u8) -> (r: Controller)
        requires
            valid_bases(primary_base, secondary_base),
        ensures
            r.spec_primary_base() == primary_base,
            r.spec_secondary_base() == secondary_base,
            r.spec_primary_mask() == DEFAULT_PRIMARY_MASK,
            r.spec_secondary_mask() == DEFAULT_SECONDARY_MASK,
    {
        Controller {
            primary_base,
            secondary_base,
            primary_mask: DEFAULT_PRIMARY_MASK,
            secondary_mask: DEFAULT_SECONDARY_MASK,
        }
    }

    pub fn primary_base(&self) -> (r: u8)
        ensures
            r == self.spec_primary_base(),
    {
        self.primary_base
    }

    pub fn secondary_base(&self) -> (r: u8)
        ensures
            r == self.spec_secondary_base(),
    {
        self.secondary_base
    }

    pub fn primary_mask(&self) -> (r: u8)
        ensures
            r == self.spec_primary_mask(),
    {
        self.primary_mask
    }

    pub fn secondary_mask(&self) -> (r: u8)
        ensures
            r == self.spec_secondary_mask(),
    {
        self.secondary_mask
    }

    /// Whether one of the two chips raises `vector`.
    pub fn handles_interrupt(&self, vector: u8) -> (r: bool)
        ensures
            r == self.spec_handles_interrupt(vector),
    {
        proof {
            use_type_invariant(self);
        }
        (self.primary_base <= vector && vector < self.primary_base + LINES_PER_CHIP) || (
        self.secondary_base <= vector && (vector as u16) < self.secondary_base as u16 + 8)
    }

    /// The writes that carry out the remap sequence.
    pub fn initialize(&self) -> (r: Vec<PortWrite>)
        ensures
            r@ == self.init_plan(),
    {
        let mut v: Vec<PortWrite> = Vec::new();
        v.push(PortWrite { port: PRIMARY_DATA, value: 0xFF });
        v.push(PortWrite { port: SECONDARY_DATA, value: 0xFF });
        v.push(PortWrite { port: PRIMARY_COMMAND, value: CMD_INIT });
        v.push(PortWrite { port: WAIT_PORT, value: 0 });
        v.push(PortWrite { port: SECONDARY_COMMAND, value: CMD_INIT });
        v.push(PortWrite { port: WAIT_PORT, value: 0 });
        v.push(PortWrite { port: PRIMARY_DATA, value: self.primary_base });
        v.push(PortWrite { port: WAIT_PORT, value: 0 });
        v.push(PortWrite { port: SECONDARY_DATA, value: self.secondary_base });
        v.push(PortWrite { port: WAIT_PORT, value: 0 });
        v.push(PortWrite { port: PRIMARY_DATA, value: CASCADE_PRIMARY });
        v.push(PortWrite { port: WAIT_PORT, value: 0 });
        v.push(PortWrite { port: SECONDARY_DATA, value: CASCADE_SECONDARY });
        v.push(PortWrite { port: WAIT_PORT, value: 0 });
        v.push(PortWrite { port: PRIMARY_DATA, value: MODE_8086 });
        v.push(PortWrite { port: WAIT_PORT, value: 0 });
        v.push(PortWrite { port: SECONDARY_DATA, value: MODE_8086 });
        v.push(PortWrite { port: WAIT_PORT, value: 0 });
        v.push(PortWrite { port: PRIMARY_DATA, value: self.primary_mask });
        v.push(PortWrite { port: SECONDARY_DATA, value: self.secondary_mask });
        assert(v@ =~= self.init_plan());
        v
    }

    /// Masks (`masked`) or opens line `line` of the pair; returns the write
    /// that installs the changed chip's new mask.
    pub fn set_line_masked(&mut self, line: u8, masked: bool) -> (r: PortWrite)
        requires
            line < 16,
        ensures
            final(self).spec_primary_base() == old(self).spec_primary_base(),
            final(self).spec_secondary_base() == old(self).spec_secondary_base(),
            final(self).line_masked(line) == masked,
            forall|l: u8|
                l < 16 && l != line ==> #[trigger] final(self).line_masked(l) == old(
                    self,
                ).line_masked(l),
            line < 8 ==> r == port_write(PRIMARY_DATA, final(self).spec_primary_mask())
                && final(self).spec_secondary_mask() == old(self).spec_secondary_mask(),
            line >= 8 ==> r == port_write(SECONDARY_DATA, final(self).spec_secondary_mask())
                && final(self).spec_primary_mask() == old(self).spec_primary_mask(),
    {
        proof {
            use_type_invariant(&*self);
        }
        if line < 8 {
            let m = with_bit(self.primary_mask, line, masked);
            self.primary_mask = m;
            PortWrite { port: PRIMARY_DATA, value: m }
        } else {
            let m = with_bit(self.secondary_mask, line - 8, masked);
            self.secondary_mask = m;
            PortWrite { port: SECONDARY_DATA, value: m }
        }
    }

    /// The writes that acknowledge `vector` and so re-arm its line.
    pub fn acknowledge(&self, vector: u8) -> (r: Vec<PortWrite>)
        ensures
            r@ == self.ack_plan(vector),
    {
        let mut v: Vec<PortWrite> = Vec::new();
        if self.handles_interrupt(vector) {
            if vector >= self.secondary_base {
                v.push(PortWrite { port: SECONDARY_COMMAND, value: CMD_END_OF_INTERRUPT });
            }
            v.push(PortWrite { port: PRIMARY_COMMAND, value: CMD_END_OF_INTERRUPT });
        }
        assert(v@ =~= self.ack_plan(vector));
        v
    }
}

/// Acknowledging the primary chip's base vector writes exactly one
/// end-of-interrupt byte, to the primary chip; acknowledging the secondary
/// chip's base vector writes one to each chip, the secondary first. More
/// generally, every vector of either chip is acknowledged by a plan that ends
/// with the primary chip, and that reaches the secondary chip exactly when
/// the vector belongs to it.
pub proof fn lemma_acknowledge_order(c: Controller, vector: u8)
    requires
        valid_bases(c.spec_primary_base(), c.spec_secondary_base()),
    ensures
        c.ack_plan(c.spec_primary_base()) == seq![port_write(PRIMARY_COMMAND, CMD_END_OF_INTERRUPT)],
        c.ack_plan(c.spec_secondary_base()) == seq![
            port_write(SECONDARY_COMMAND, CMD_END_OF_INTERRUPT),
            port_write(PRIMARY_COMMAND, CMD_END_OF_INTERRUPT),
        ],
        c.spec_handles_interrupt(vector) ==> {
            let p = c.ack_plan(vector);
            &&& p.len() >= 1
            &&& p.last() == port_write(PRIMARY_COMMAND, CMD_END_OF_INTERRUPT)
            &&& p.len() == 2 <==> c.on_secondary(vector)
            &&& p.len() == 2 ==> p[0] == port_write(SECONDARY_COMMAND, CMD_END_OF_INTERRUPT)
        },
{
}

} // verus!
