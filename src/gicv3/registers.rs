//! Layout of the distributor, redistributor and private-interrupt frame register
//! blocks, as plain-value register images.
//!
//! An image is settled: each store has taken its effect in hardware before the
//! next load. So the write-pending bits read as clear, and the redistributor's
//! "children asleep" bit follows its "processor sleep" bit.

use vstd::prelude::*;

use crate::bits::bit_of;

verus! {

/// `GICD_CTLR`: affinity routing enable, Secure state.
pub const GICD_CTLR_ARE_S: u32 = 1 << 0;

/// `GICD_CTLR`: enable Non-secure Group 1 interrupts.
pub const GICD_CTLR_ENABLE_GRP1NS: u32 = 1 << 1;

/// `GICD_CTLR`: register write pending (read-only).
pub const GICD_CTLR_RWP: u32 = 1 << 31;

/// `GICR_CTLR`: register write pending (read-only).
pub const GICR_CTLR_RWP: u32 = 1 << 3;

/// `GICR_WAKER`: software asks to quiesce the core's interrupt path.
pub const GICR_WAKER_PROCESSOR_SLEEP: u32 = 1 << 1;

/// `GICR_WAKER`: hardware reports the core's interrupt path as quiesced
/// (read-only).
pub const GICR_WAKER_CHILDREN_ASLEEP: u32 = 1 << 2;

/// Flags of `GICD_CTLR`.
#[derive(Clone, Copy, Debug, PartialEq, Eq, Structural)]
pub struct GicdCtlr(pub u32);

/// `GICD_TYPER`: what the distributor implements.
#[derive(Clone, Copy, Debug, PartialEq, Eq, Structural)]
pub struct Typer(pub u32);

impl Typer {
    /// `ITLinesNumber`: the distributor implements `32 * (n + 1)` interrupt
    /// identities.
    pub fn it_lines_number(self) -> (r: u32)
        ensures
            r == self.0 & 0x1f,
            r < 32,
    {
        let v = self.0;
        assert(v & 0x1fu32 < 32) by (bit_vector);
        v & 0x1f
    }

    /// How many interrupt identities the distributor implements, counting the
    /// private ones and, where there are 1024, the reserved ones.
    pub fn num_lines(self) -> (r: u32)
        ensures
            r == 32 * ((self.0 & 0x1f) + 1),
    {
        32 * (self.it_lines_number() + 1)
    }

    /// Whether the distributor supports two Security states.
    pub fn security_extn(self) -> (r: bool)
        ensures
            r == bit_of(self.0, 10),
    {
        self.0 & (1u32 << 10u32) != 0
    }

    /// Whether the distributor supports message-based interrupts.
    pub fn mbis(self) -> (r: bool)
        ensures
            r == bit_of(self.0, 16),
    {
        self.0 & (1u32 << 16u32) != 0
    }

    /// Whether the distributor supports locality-specific peripheral interrupts.
    pub fn lpis(self) -> (r: bool)
        ensures
            r == bit_of(self.0, 17),
    {
        self.0 & (1u32 << 17u32) != 0
    }
}

/// Setting or clearing every bit.
pub proof fn lemma_all_bits(w: u32)
    by (bit_vector)
    ensures
        w | 0xffff_ffffu32 == 0xffff_ffffu32,
        w & !0xffff_ffffu32 == 0,
{
}

/// No bit is set in a zero word.
pub proof fn lemma_zero_word(mask: u32)
    by (bit_vector)
    ensures
        0u32 & mask == 0,
{
}

/// A word with the bits of `mask` cleared has none of them set.
pub proof fn lemma_cleared_mask(v: u32, mask: u32)
    by (bit_vector)
    ensures
        (v & !mask) & mask == 0,
{
}

/// Image of the distributor register block (`GICD_*`).
pub struct Gicd {
    /// Control register.
    pub ctlr: u32,
    /// Interrupt controller type: implemented lines and features (read-only).
    pub typer: u32,
    /// Group bits, one per interrupt.
    pub igroupr: [u32; 32],
    /// Enable bits, one per interrupt: what `GICD_ISENABLER<n>` and
    /// `GICD_ICENABLER<n>` both read.
    pub isenabler: [u32; 32],
    /// Priority bytes, one per interrupt.
    pub ipriorityr: [u8; 1024],
    /// Trigger configuration, two bits per interrupt.
    pub icfgr: [u32; 64],
    /// Group modifier bits, one per interrupt.
    pub igrpmodr: [u32; 32],
}

/// What a distributor image holds.
pub struct GicdView {
    pub ctlr: u32,
    pub typer: u32,
    pub group: Seq<u32>,
    pub enable: Seq<u32>,
    pub priority: Seq<u8>,
    pub config: Seq<u32>,
    pub group_mode: Seq<u32>,
}

impl View for Gicd {
    type V = GicdView;

    open spec fn view(&self) -> GicdView {
        GicdView {
            ctlr: self.ctlr,
            typer: self.typer,
            group: self.igroupr@,
            enable: self.isenabler@,
            priority: self.ipriorityr@,
            config: self.icfgr@,
            group_mode: self.igrpmodr@,
        }
    }
}

impl GicdView {
    /// Settled: no register write is pending.
    pub open spec fn wf(self) -> bool {
        &&& self.ctlr & GICD_CTLR_RWP == 0
        &&& self.group.len() == 32
        &&& self.enable.len() == 32
        &&& self.priority.len() == 1024
        &&& self.config.len() == 64
        &&& self.group_mode.len() == 32
    }
}

impl Gicd {
    /// A distributor image after reset, with the given type register.
    pub fn new(typer: u32) -> (r: Gicd)
        ensures
            r@.wf(),
            r@.ctlr == 0,
            r@.typer == typer,
            forall|i: int| 0 <= i < 32 ==> r@.group[i] == 0 && r@.enable[i] == 0 && r@.group_mode[i] == 0,
            forall|i: int| 0 <= i < 64 ==> r@.config[i] == 0,
            forall|i: int| 0 <= i < 1024 ==> r@.priority[i] == 0,
    {
        let r = Gicd {
            ctlr: 0,
            typer,
            igroupr: [0u32; 32],
            isenabler: [0u32; 32],
            ipriorityr: [0u8; 1024],
            icfgr: [0u32; 64],
            igrpmodr: [0u32; 32],
        };
        proof {
            lemma_zero_word(GICD_CTLR_RWP);
        }
        r
    }

    /// Stores `GICD_CTLR`; its write-pending bit is read-only.
    pub fn write_ctlr(&mut self, v: u32)
        requires
            old(self)@.wf(),
        ensures
            final(self)@ == (GicdView { ctlr: v & !GICD_CTLR_RWP, ..old(self)@ }),
            final(self)@.wf(),
    {
        self.ctlr = v & !GICD_CTLR_RWP;
        proof {
            lemma_cleared_mask(v, GICD_CTLR_RWP);
        }
    }

    /// Stores `GICD_ISENABLER<i>`: each 1 bit of `v` enables its interrupt.
    pub fn write_isenabler(&mut self, i: usize, v: u32)
        requires
            old(self)@.wf(),
            i < 32,
        ensures
            final(self)@ == (GicdView {
                enable: old(self)@.enable.update(i as int, old(self)@.enable[i as int] | v),
                ..old(self)@
            }),
            final(self)@.wf(),
    {
        self.isenabler[i] = self.isenabler[i] | v;
    }

    /// Stores `GICD_ICENABLER<i>`: each 1 bit of `v` disables its interrupt.
    pub fn write_icenabler(&mut self, i: usize, v: u32)
        requires
            old(self)@.wf(),
            i < 32,
        ensures
            final(self)@ == (GicdView {
                enable: old(self)@.enable.update(i as int, old(self)@.enable[i as int] & !v),
                ..old(self)@
            }),
            final(self)@.wf(),
    {
        self.isenabler[i] = self.isenabler[i] & !v;
    }
}

/// Image of the redistributor's control frame (`GICR_*`).
#[derive(Clone, Copy, Debug, PartialEq, Eq, Structural)]
pub struct Gicr {
    /// Control register.
    pub ctlr: u32,
    /// Wake register: "processor sleep" and "children asleep".
    pub waker: u32,
}

impl Gicr {
    /// Settled: no register write is pending, and the core's interrupt path is
    /// quiesced exactly when software asked for it.
    pub open spec fn wf(self) -> bool {
        &&& self.ctlr & GICR_CTLR_RWP == 0
        &&& (self.waker & GICR_WAKER_CHILDREN_ASLEEP != 0) == (self.waker
            & GICR_WAKER_PROCESSOR_SLEEP != 0)
    }

    /// A redistributor image after reset: the core's interrupt path is asleep
    /// or awake as `asleep` says.
    pub fn new(asleep: bool) -> (r: Gicr)
        ensures
            r.wf(),
            r.ctlr == 0,
            r.waker == if asleep {
                GICR_WAKER_PROCESSOR_SLEEP | GICR_WAKER_CHILDREN_ASLEEP
            } else {
                0
            },
    {
        let waker: u32 = if asleep {
            GICR_WAKER_PROCESSOR_SLEEP | GICR_WAKER_CHILDREN_ASLEEP
        } else {
            0
        };
        proof {
            lemma_zero_word(GICR_CTLR_RWP);
            lemma_zero_word(GICR_WAKER_CHILDREN_ASLEEP);
            lemma_zero_word(GICR_WAKER_PROCESSOR_SLEEP);
            lemma_sleep_bits_both_set();
        }
        Gicr { ctlr: 0, waker }
    }

    /// The value that `GICR_WAKER` settles to after `v` is stored: the
    /// hardware makes "children asleep" follow "processor sleep".
    pub open spec fn settled_waker(v: u32) -> u32 {
        if v & GICR_WAKER_PROCESSOR_SLEEP != 0 {
            v | GICR_WAKER_CHILDREN_ASLEEP
        } else {
            v & !GICR_WAKER_CHILDREN_ASLEEP
        }
    }

    /// Stores `GICR_WAKER`.
    pub fn write_waker(&mut self, v: u32)
        requires
            old(self).wf(),
        ensures
            *final(self) == (Gicr { waker: Gicr::settled_waker(v), ..*old(self) }),
            final(self).wf(),
    {
        if v & GICR_WAKER_PROCESSOR_SLEEP != 0 {
            self.waker = v | GICR_WAKER_CHILDREN_ASLEEP;
        } else {
            self.waker = v & !GICR_WAKER_CHILDREN_ASLEEP;
        }
        proof {
            lemma_settled_waker(v);
        }
    }
}

/// Whatever is stored in `GICR_WAKER`, it settles with "children asleep"
/// equal to "processor sleep".
pub proof fn lemma_settled_waker(v: u32)
    by (bit_vector)
    ensures
        v & GICR_WAKER_PROCESSOR_SLEEP != 0 ==> ((v | GICR_WAKER_CHILDREN_ASLEEP)
            & GICR_WAKER_CHILDREN_ASLEEP != 0) && ((v | GICR_WAKER_CHILDREN_ASLEEP)
            & GICR_WAKER_PROCESSOR_SLEEP != 0),
        v & GICR_WAKER_PROCESSOR_SLEEP == 0 ==> ((v & !GICR_WAKER_CHILDREN_ASLEEP)
            & GICR_WAKER_CHILDREN_ASLEEP == 0) && ((v & !GICR_WAKER_CHILDREN_ASLEEP)
            & GICR_WAKER_PROCESSOR_SLEEP == 0),
{
}

proof fn lemma_sleep_bits_both_set()
    by (bit_vector)
    ensures
        (GICR_WAKER_PROCESSOR_SLEEP | GICR_WAKER_CHILDREN_ASLEEP) & GICR_WAKER_CHILDREN_ASLEEP != 0,
        (GICR_WAKER_PROCESSOR_SLEEP | GICR_WAKER_CHILDREN_ASLEEP) & GICR_WAKER_PROCESSOR_SLEEP != 0,
{
}

/// Image of the redistributor's frame for private interrupts, which lies
/// [`SGI_FRAME_OFFSET`] bytes after the redistributor's base.
pub struct Sgi {
    /// Group bits of the private interrupts.
    pub igroupr0: u32,
    /// Enable bits of the private interrupts: what `GICR_ISENABLER0` and
    /// `GICR_ICENABLER0` both read.
    pub isenabler0: u32,
    /// Priority bytes of the private interrupts.
    pub ipriorityr: [u8; 32],
    /// Trigger configuration of the private interrupts, two bits each.
    pub icfgr: [u32; 2],
    /// Group modifier bits of the private interrupts.
    pub igrpmodr0: u32,
}

/// Offset in bytes from the redistributor's base to its frame for private
/// interrupts.
pub const SGI_FRAME_OFFSET: usize = 0x10000;

/// What an image of the private-interrupt frame holds.
pub struct SgiView {
    pub group: u32,
    pub enable: u32,
    pub priority: Seq<u8>,
    pub config: Seq<u32>,
    pub group_mode: u32,
}

impl View for Sgi {
    type V = SgiView;

    open spec fn view(&self) -> SgiView {
        SgiView {
            group: self.igroupr0,
            enable: self.isenabler0,
            priority: self.ipriorityr@,
            config: self.icfgr@,
            group_mode: self.igrpmodr0,
        }
    }
}

impl SgiView {
    /// The arrays have their lengths.
    pub open spec fn wf(self) -> bool {
        self.priority.len() == 32 && self.config.len() == 2
    }
}

impl Sgi {
    /// A private-interrupt frame image after reset.
    pub fn new() -> (r: Sgi)
        ensures
            r@.wf(),
            r@.group == 0 && r@.enable == 0 && r@.group_mode == 0,
            forall|i: int| 0 <= i < 32 ==> r@.priority[i] == 0,
            forall|i: int| 0 <= i < 2 ==> r@.config[i] == 0,
    {
        Sgi { igroupr0: 0, isenabler0: 0, ipriorityr: [0u8; 32], icfgr: [0u32; 2], igrpmodr0: 0 }
    }

    /// Stores `GICR_ISENABLER0`: each 1 bit of `v` enables its interrupt.
    pub fn write_isenabler0(&mut self, v: u32)
        ensures
            final(self)@ == (SgiView { enable: old(self)@.enable | v, ..old(self)@ }),
    {
        self.isenabler0 = self.isenabler0 | v;
    }

    /// Stores `GICR_ICENABLER0`: each 1 bit of `v` disables its interrupt.
    pub fn write_icenabler0(&mut self, v: u32)
        ensures
            final(self)@ == (SgiView { enable: old(self)@.enable & !v, ..old(self)@ }),
    {
        self.isenabler0 = self.isenabler0 & !v;
    }
}

} // verus!
