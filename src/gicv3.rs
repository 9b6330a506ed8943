//! Driver for the Arm Generic Interrupt Controller version 3 (or 4), over images
//! of its memory-mapped register blocks.

pub mod registers;

use vstd::prelude::*;

use crate::intid::{is_private_id, is_sgi_id, IntId, Trigger, SPECIAL_START};
use crate::bits::{bit_of, lemma_with_bit, with_bit};

use self::registers::{
    lemma_all_bits, lemma_cleared_mask, lemma_settled_waker, Gicd, GicdCtlr, GicdView, Gicr, Sgi,
    SgiView, Typer, GICD_CTLR_ARE_S, GICD_CTLR_ENABLE_GRP1NS, GICD_CTLR_RWP, GICR_CTLR_RWP, GICR_WAKER_CHILDREN_ASLEEP, GICR_WAKER_PROCESSOR_SLEEP,
};

verus! {

/// An error which may be returned from operations on a GIC redistributor.
#[derive(Clone, Copy, Debug, PartialEq, Eq, Structural)]
pub enum GICRError {
    /// The redistributor has already been told that the connected core is awake.
    AlreadyAwake,
}

/// The group configuration for an interrupt.
#[derive(Clone, Copy, Debug, PartialEq, Eq, Structural)]
pub enum Group {
    Secure(SecureIntGroup),
    Group1NS,
}

/// The secure group configuration for an interrupt.
#[derive(Clone, Copy, Debug, PartialEq, Eq, Structural)]
pub enum SecureIntGroup {
    /// The interrupt belongs to Secure Group 1.
    Group1S,
    /// The interrupt belongs to Group 0.
    Group0,
}

/// The target specification for a software-generated interrupt.
#[derive(Clone, Copy, Debug, PartialEq, Eq, Structural)]
pub enum SgiTarget {
    /// The SGI is routed to all CPU cores except the current one.
    All,
    /// The SGI is routed to the CPU cores matching the given affinities and list.
    List { affinity3: u8, affinity2: u8, affinity1: u8, target_list: u16 },
}

/// `ICC_SRE_EL1` before setup: system register access to the CPU interface.
pub const ICC_SRE_EL1_SETUP: u64 = 0x01;

/// `ICC_CTLR_EL1` after the wake handshake: a write to an end-of-interrupt
/// register also deactivates the interrupt, `ICC_PMR_EL1` is no hint for
/// distribution, and groups 0 and 1 preempt separately.
pub const ICC_CTLR_EL1_SETUP: u64 = 0;

/// `ICC_IGRPEN1_EL1` at the end of setup: Group 1 interrupts enabled.
pub const ICC_IGRPEN1_EL1_SETUP: u64 = 0x01;

/// What the driver's three register images hold.
pub struct GicView {
    pub gicd: GicdView,
    pub gicr: Gicr,
    pub sgi: SgiView,
}

impl GicView {
    /// Each image is settled and has its arrays' lengths.
    pub open spec fn wf(self) -> bool {
        self.gicd.wf() && self.gicr.wf() && self.sgi.wf()
    }

    /// The enable word that holds interrupt `id`.
    pub open spec fn enable_word(self, id: u32) -> u32 {
        if is_private_id(id) {
            self.sgi.enable
        } else {
            self.gicd.enable[word_index(id)]
        }
    }

    /// The group word that holds interrupt `id`.
    pub open spec fn group_word(self, id: u32) -> u32 {
        if is_private_id(id) {
            self.sgi.group
        } else {
            self.gicd.group[word_index(id)]
        }
    }

    /// The group modifier word that holds interrupt `id`.
    pub open spec fn group_mode_word(self, id: u32) -> u32 {
        if is_private_id(id) {
            self.sgi.group_mode
        } else {
            self.gicd.group_mode[word_index(id)]
        }
    }

    /// The trigger configuration word that holds interrupt `id`.
    pub open spec fn config_word(self, id: u32) -> u32 {
        if is_private_id(id) {
            self.sgi.config[config_index(id)]
        } else {
            self.gicd.config[config_index(id)]
        }
    }

    /// The priority of interrupt `id`.
    pub open spec fn priority(self, id: u32) -> u8 {
        if is_private_id(id) {
            self.sgi.priority[id as int]
        } else {
            self.gicd.priority[id as int]
        }
    }

    /// Whether interrupt `id` is enabled.
    pub open spec fn enabled(self, id: u32) -> bool {
        bit_of(self.enable_word(id), id % 32)
    }

    /// The group bit of interrupt `id`.
    pub open spec fn group_bit(self, id: u32) -> bool {
        bit_of(self.group_word(id), id % 32)
    }

    /// The group modifier bit of interrupt `id`.
    pub open spec fn group_mode_bit(self, id: u32) -> bool {
        bit_of(self.group_mode_word(id), id % 32)
    }

    /// Whether interrupt `id` is configured as edge-triggered.
    pub open spec fn edge_triggered(self, id: u32) -> bool {
        bit_of(self.config_word(id), trigger_bit(id))
    }

    /// The images after bit `id % 32` of the enable word of `id` became `enable`.
    pub open spec fn with_enable(self, id: u32, enable: bool) -> GicView {
        if is_private_id(id) {
            GicView {
                sgi: SgiView { enable: with_bit(self.sgi.enable, id % 32, enable), ..self.sgi },
                ..self
            }
        } else {
            GicView {
                gicd: GicdView {
                    enable: self.gicd.enable.update(
                        word_index(id),
                        with_bit(self.gicd.enable[word_index(id)], id % 32, enable),
                    ),
                    ..self.gicd
                },
                ..self
            }
        }
    }

    /// The images after the priority byte of `id` became `priority`.
    pub open spec fn with_priority(self, id: u32, priority: u8) -> GicView {
        if is_private_id(id) {
            GicView {
                sgi: SgiView { priority: self.sgi.priority.update(id as int, priority), ..self.sgi },
                ..self
            }
        } else {
            GicView {
                gicd: GicdView {
                    priority: self.gicd.priority.update(id as int, priority),
                    ..self.gicd
                },
                ..self
            }
        }
    }

    /// The images after the edge bit of `id` became `edge`.
    pub open spec fn with_trigger(self, id: u32, edge: bool) -> GicView {
        if is_private_id(id) {
            GicView {
                sgi: SgiView {
                    config: self.sgi.config.update(
                        config_index(id),
                        with_bit(self.sgi.config[config_index(id)], trigger_bit(id), edge),
                    ),
                    ..self.sgi
                },
                ..self
            }
        } else {
            GicView {
                gicd: GicdView {
                    config: self.gicd.config.update(
                        config_index(id),
                        with_bit(self.gicd.config[config_index(id)], trigger_bit(id), edge),
                    ),
                    ..self.gicd
                },
                ..self
            }
        }
    }

    /// The images after the group bit of `id` became `group` and its group
    /// modifier bit became `mode`.
    pub open spec fn with_group(self, id: u32, group: bool, mode: bool) -> GicView {
        if is_private_id(id) {
            GicView {
                sgi: SgiView {
                    group: with_bit(self.sgi.group, id % 32, group),
                    group_mode: with_bit(self.sgi.group_mode, id % 32, mode),
                    ..self.sgi
                },
                ..self
            }
        } else {
            GicView {
                gicd: GicdView {
                    group: self.gicd.group.update(
                        word_index(id),
                        with_bit(self.gicd.group[word_index(id)], id % 32, group),
                    ),
                    group_mode: self.gicd.group_mode.update(
                        word_index(id),
                        with_bit(self.gicd.group_mode[word_index(id)], id % 32, mode),
                    ),
                    ..self.gicd
                },
                ..self
            }
        }
    }
}

impl GicView {
    /// The images after every enable word of both the distributor and the
    /// private-interrupt frame became all ones (`enable`) or all zeros.
    pub open spec fn with_all_enabled(self, enable: bool) -> GicView {
        GicView {
            gicd: GicdView { enable: Seq::new(32, |_i: int| all_or_none(enable)), ..self.gicd },
            sgi: SgiView { enable: all_or_none(enable), ..self.sgi },
            ..self
        }
    }

    /// The images after `GICD_CTLR` was stored with `v`.
    pub open spec fn with_gicd_ctlr(self, v: u32) -> GicView {
        GicView { gicd: GicdView { ctlr: v & !GICD_CTLR_RWP, ..self.gicd }, ..self }
    }

    /// Whether the redistributor reports the core's interrupt path as quiesced.
    pub open spec fn children_asleep(self) -> bool {
        self.gicr.waker & GICR_WAKER_CHILDREN_ASLEEP != 0
    }

    /// The images after the wake handshake: where the core's path was asleep,
    /// "processor sleep" is cleared and the image settles; else nothing changes.
    pub open spec fn woken(self) -> GicView {
        if self.children_asleep() {
            GicView {
                gicr: Gicr {
                    waker: Gicr::settled_waker(self.gicr.waker & !GICR_WAKER_PROCESSOR_SLEEP),
                    ..self.gicr
                },
                ..self
            }
        } else {
            self
        }
    }

    /// The images after setup: the core is woken, affinity routing and
    /// Non-secure Group 1 are enabled in the distributor, and every interrupt
    /// but those of the distributor's word 0 is put into Non-secure Group 1.
    pub open spec fn set_up(self) -> GicView {
        let w = self.woken();
        GicView {
            gicd: GicdView {
                ctlr: (GICD_CTLR_ARE_S | GICD_CTLR_ENABLE_GRP1NS) & !GICD_CTLR_RWP,
                group: Seq::new(32, |i: int| if i == 0 { w.gicd.group[0] } else { 0xffff_ffffu32 }),
                ..w.gicd
            },
            sgi: SgiView { group: 0xffff_ffffu32, ..w.sgi },
            ..w
        }
    }
}

/// A word with every bit set to `v`.
pub open spec fn all_or_none(v: bool) -> u32 {
    if v {
        0xffff_ffffu32
    } else {
        0
    }
}

/// The value of `ICC_SGI1R_EL1` for the given fields.
pub open spec fn sgi1r(
    target_list: u16,
    affinity1: u8,
    intid: u32,
    affinity2: u8,
    routing_mode: u64,
    affinity3: u8,
) -> u64 {
    (target_list as u64) | ((affinity1 as u64) << 16u64) | (((intid & 0x0f) as u64) << 24u64) | ((
    affinity2 as u64) << 32u64) | (routing_mode << 40u64) | ((affinity3 as u64) << 48u64)
}

/// The value of `ICC_SGI1R_EL1` that sends software-generated interrupt `intid`
/// to `target`.
pub open spec fn sgi_value(intid: u32, target: SgiTarget) -> u64 {
    match target {
        SgiTarget::All => sgi1r(0, 0, intid, 0, 1, 0),
        SgiTarget::List { affinity3, affinity2, affinity1, target_list } => sgi1r(
            target_list,
            affinity1,
            intid,
            affinity2,
            0,
            affinity3,
        ),
    }
}

/// The index of the one-bit-per-interrupt word that holds interrupt `id`.
pub open spec fn word_index(id: u32) -> int {
    (id / 32) as int
}

/// The index of the trigger configuration word that holds interrupt `id`.
pub open spec fn config_index(id: u32) -> int {
    (id / 16) as int
}

/// The bit of a trigger configuration word that makes interrupt `id`
/// edge-triggered: the upper bit of its two-bit field.
pub open spec fn trigger_bit(id: u32) -> u32 {
    ((id % 16) * 2 + 1) as u32
}

/// The group bit and group modifier bit that select `group`.
pub open spec fn group_bits(group: Group) -> (bool, bool) {
    match group {
        Group::Group1NS => (true, false),
        Group::Secure(SecureIntGroup::Group0) => (false, false),
        Group::Secure(SecureIntGroup::Group1S) => (false, true),
    }
}

/// Driver for an Arm Generic Interrupt Controller version 3 (or 4).
pub struct GicV3 {
    gicd: Gicd,
    gicr: Gicr,
    sgi: Sgi,
}

impl View for GicV3 {
    type V = GicView;

    closed spec fn view(&self) -> GicView {
        GicView { gicd: self.gicd@, gicr: self.gicr, sgi: self.sgi@ }
    }
}

impl GicV3 {
    /// Constructs the driver over images of the distributor, the redistributor
    /// and the redistributor's frame for private interrupts.
    pub fn new(gicd: Gicd, gicr: Gicr, sgi: Sgi) -> (r: GicV3)
        ensures
            r@ == (GicView { gicd: gicd@, gicr, sgi: sgi@ }),
    {
        GicV3 { gicd, gicr, sgi }
    }

    /// Enables or disables the interrupt with the given ID.
    pub fn enable_interrupt(&mut self, intid: IntId, enable: bool)
        requires
            old(self)@.wf(),
        ensures
            final(self)@ == old(self)@.with_enable(intid@, enable),
            final(self)@.wf(),
    {
        let id = intid.to_u32();
        let index = (id / 32) as usize;
        let bit: u32 = 1u32 << (id % 32);
        if intid.is_private() {
            if enable {
                self.sgi.write_isenabler0(bit);
            } else {
                self.sgi.write_icenabler0(bit);
            }
        } else {
            if enable {
                self.gicd.write_isenabler(index, bit);
            } else {
                self.gicd.write_icenabler(index, bit);
            }
        }
    }


    /// Initialises the distributor and the redistributor: runs the wake
    /// handshake (an already awake core is no error), enables affinity routing
    /// and Non-secure Group 1 in the distributor, and puts all private
    /// interrupts and all shared ones into Non-secure Group 1.
    ///
    /// The CPU interface's part of the setup is done through its system
    /// registers, before ([`ICC_SRE_EL1_SETUP`]) and after ([`ICC_CTLR_EL1_SETUP`],
    /// [`ICC_IGRPEN1_EL1_SETUP`]) this call.
    pub fn setup(&mut self)
        requires
            old(self)@.wf(),
        ensures
            final(self)@ == old(self)@.set_up(),
            final(self)@.wf(),
    {
        // An already awake core is fine here.
        let _ = self.redistributor_mark_core_awake();
        self.gicd.write_ctlr(GICD_CTLR_ARE_S | GICD_CTLR_ENABLE_GRP1NS);
        self.sgi.igroupr0 = 0xffff_ffff;
        let ghost before = self.gicd@;
        let ghost gicr0 = self.gicr;
        let ghost sgi0 = self.sgi@;
        let mut i: usize = 1;
        while i < 32
            invariant
                1 <= i <= 32,
                before.wf(),
                self.gicd@.wf(),
                self.gicr == gicr0,
                self.sgi@ == sgi0,
                self.gicd@ == (GicdView { group: self.gicd@.group, ..before }),
                self.gicd@.group[0] == before.group[0],
                forall|j: int| 1 <= j < i ==> self.gicd@.group[j] == 0xffff_ffffu32,
                forall|j: int| i <= j < 32 ==> self.gicd@.group[j] == before.group[j],
            decreases 32 - i,
        {
            self.gicd.igroupr[i] = 0xffff_ffff;
            i = i + 1;
        }
        assert(self.gicd@.group =~= Seq::new(
            32,
            |j: int|
                if j == 0 {
                    before.group[0]
                } else {
                    0xffff_ffffu32
                },
        ));
    }

    /// Enables or disables all interrupts, shared and private.
    pub fn enable_all_interrupts(&mut self, enable: bool)
        requires
            old(self)@.wf(),
        ensures
            final(self)@ == old(self)@.with_all_enabled(enable),
            final(self)@.wf(),
    {
        let ghost before = self.gicd@;
        let ghost gicr0 = self.gicr;
        let ghost sgi0 = self.sgi@;
        let mut i: usize = 0;
        while i < 32
            invariant
                0 <= i <= 32,
                before.wf(),
                self.gicd@.wf(),
                self.gicr == gicr0,
                self.sgi@ == sgi0,
                self.gicd@ == (GicdView { enable: self.gicd@.enable, ..before }),
                forall|j: int| 0 <= j < i ==> self.gicd@.enable[j] == all_or_none(enable),
                forall|j: int| i <= j < 32 ==> self.gicd@.enable[j] == before.enable[j],
            decreases 32 - i,
        {
            proof {
                lemma_all_bits(self.gicd@.enable[i as int]);
            }
            if enable {
                self.gicd.write_isenabler(i, 0xffff_ffff);
            } else {
                self.gicd.write_icenabler(i, 0xffff_ffff);
            }
            i = i + 1;
        }
        proof {
            lemma_all_bits(self.sgi.isenabler0);
        }
        if enable {
            self.sgi.write_isenabler0(0xffff_ffff);
        } else {
            self.sgi.write_icenabler0(0xffff_ffff);
        }
        assert(self.gicd@.enable =~= Seq::new(32, |_i: int| all_or_none(enable)));
    }

    /// Sets the priority of the interrupt with the given ID.
    ///
    /// Lower numbers are higher priorities: 0 is the highest, 255 the lowest.
    pub fn set_interrupt_priority(&mut self, intid: IntId, priority: u8)
        requires
            old(self)@.wf(),
        ensures
            final(self)@ == old(self)@.with_priority(intid@, priority),
            final(self)@.wf(),
    {
        let id = intid.to_u32();
        if intid.is_private() {
            self.sgi.ipriorityr[id as usize] = priority;
        } else {
            self.gicd.ipriorityr[id as usize] = priority;
        }
    }

    /// Configures the trigger type for the interrupt with the given ID.
    ///
    /// The other bit of the interrupt's two-bit field is kept.
    pub fn set_trigger(&mut self, intid: IntId, trigger: Trigger)
        requires
            old(self)@.wf(),
        ensures
            final(self)@ == old(self)@.with_trigger(intid@, trigger == Trigger::Edge),
            final(self)@.wf(),
    {
        let id = intid.to_u32();
        let index = (id / 16) as usize;
        let edge = match trigger {
            Trigger::Edge => true,
            Trigger::Level => false,
        };
        if intid.is_private() {
            let v = self.sgi.icfgr[index];
            self.sgi.icfgr[index] = modify_bit(v, (id % 16) * 2 + 1, edge);
        } else {
            let v = self.gicd.icfgr[index];
            self.gicd.icfgr[index] = modify_bit(v, (id % 16) * 2 + 1, edge);
        }
    }

    /// Assigns the interrupt with the given ID to interrupt group `group`.
    pub fn set_group(&mut self, intid: IntId, group: Group)
        requires
            old(self)@.wf(),
        ensures
            final(self)@ == old(self)@.with_group(intid@, group_bits(group).0, group_bits(group).1),
            final(self)@.wf(),
    {
        let id = intid.to_u32();
        let index = (id / 32) as usize;
        let (in_group, in_mode) = match group {
            Group::Secure(SecureIntGroup::Group1S) => (false, true),
            Group::Secure(SecureIntGroup::Group0) => (false, false),
            Group::Group1NS => (true, false),
        };
        if intid.is_private() {
            self.sgi.igroupr0 = modify_bit(self.sgi.igroupr0, id % 32, in_group);
            self.sgi.igrpmodr0 = modify_bit(self.sgi.igrpmodr0, id % 32, in_mode);
        } else {
            let g = self.gicd.igroupr[index];
            self.gicd.igroupr[index] = modify_bit(g, id % 32, in_group);
            let m = self.gicd.igrpmodr[index];
            self.gicd.igrpmodr[index] = modify_bit(m, id % 32, in_mode);
        }
    }

    /// The value to store in `ICC_PMR_EL1` so that only interrupts with a higher
    /// priority (numerically lower) than `min_priority` are signalled to the
    /// current core.
    pub fn set_priority_mask(min_priority: u8) -> (r: u64)
        ensures
            r == min_priority as u64,
    {
        min_priority as u64
    }

    /// The value to store in `ICC_SGI1R_EL1` to send software-generated interrupt
    /// `intid` to the cores that `target` names.
    pub fn send_sgi(intid: IntId, target: SgiTarget) -> (r: u64)
        requires
            is_sgi_id(intid@),
        ensures
            r == sgi_value(intid@, target),
    {
        let id = intid.to_u32();
        match target {
            SgiTarget::All => {
                proof {
                    lemma_sgi1r_all((id & 0x0f) as u64);
                }
                let irm: u64 = 0b1;
                ((id & 0x0f) as u64) << 24u64 | (irm << 40u64)
            },
            SgiTarget::List { affinity3, affinity2, affinity1, target_list } => {
                let irm: u64 = 0b0;
                (target_list as u64) | ((affinity1 as u64) << 16u64) | (((id & 0x0f) as u64)
                    << 24u64) | ((affinity2 as u64) << 32u64) | (irm << 40u64) | ((affinity3 as u64)
                    << 48u64)
            },
        }
    }

    /// The interrupt that a value read from `ICC_IAR1_EL1` acknowledges, or
    /// `None` where the value (in its low 32 bits) is one of the reserved
    /// identities: no interrupt of sufficient priority is pending.
    pub fn get_and_acknowledge_interrupt(iar: u64) -> (r: Option<IntId>)
        ensures
            r is Some <==> (iar as u32) < SPECIAL_START,
            r matches Some(id) ==> id@ == iar as u32,
    {
        IntId::from_raw(iar as u32)
    }

    /// The value to store in `ICC_EOIR1_EL1` to tell the controller that the core
    /// has finished with interrupt `intid`: this drops its priority and
    /// deactivates it.
    pub fn end_interrupt(intid: IntId) -> (r: u64)
        ensures
            r == intid@ as u64,
    {
        intid.to_u32() as u64
    }

    /// What the distributor implements.
    pub fn typer(&self) -> (r: Typer)
        ensures
            r.0 == self@.gicd.typer,
    {
        Typer(self.gicd.typer)
    }

    /// Blocks until no write to `GICD_CTLR` is pending.
    fn gicd_barrier(&self)
        requires
            self@.wf(),
    {
        // A settled image shows no pending write, so the first read ends the wait.
        while self.gicd.ctlr & GICD_CTLR_RWP != 0
            invariant
                self@.wf(),
            decreases self.gicd.ctlr & GICD_CTLR_RWP,
        {
        }
    }

    /// Stores `value` in `GICD_CTLR` and waits until the write has taken effect.
    fn gicd_write_control(&mut self, value: u32)
        requires
            old(self)@.wf(),
        ensures
            final(self)@ == old(self)@.with_gicd_ctlr(value),
            final(self)@.wf(),
    {
        self.gicd.write_ctlr(value);
        self.gicd_barrier();
    }

    /// Clears the given flags in the distributor's control register.
    pub fn gicd_clear_control(&mut self, flags: GicdCtlr)
        requires
            old(self)@.wf(),
        ensures
            final(self)@ == old(self)@.with_gicd_ctlr(old(self)@.gicd.ctlr & !flags.0),
            final(self)@.wf(),
    {
        let old_value = self.gicd.ctlr;
        self.gicd_write_control(old_value & !flags.0);
    }

    /// Sets the given flags in the distributor's control register.
    pub fn gicd_set_control(&mut self, flags: GicdCtlr)
        requires
            old(self)@.wf(),
        ensures
            final(self)@ == old(self)@.with_gicd_ctlr(old(self)@.gicd.ctlr | flags.0),
            final(self)@.wf(),
    {
        let old_value = self.gicd.ctlr;
        self.gicd_write_control(old_value | flags.0);
    }

    /// Blocks until no write to `GICR_CTLR` is pending.
    pub fn gicr_barrier(&mut self)
        requires
            old(self)@.wf(),
        ensures
            *final(self) == *old(self),
    {
        // A settled image shows no pending write, so the first read ends the wait.
        while self.gicr.ctlr & GICR_CTLR_RWP != 0
            invariant
                self@.wf(),
            decreases self.gicr.ctlr & GICR_CTLR_RWP,
        {
        }
    }

    /// Tells the redistributor that the connected core is awake, and blocks until
    /// it reports the core's interrupt path as no longer quiesced.
    ///
    /// Fails with [`GICRError::AlreadyAwake`], changing nothing, where the path
    /// is already reported awake.
    pub fn redistributor_mark_core_awake(&mut self) -> (r: Result<(), GICRError>)
        requires
            old(self)@.wf(),
        ensures
            r == if old(self)@.children_asleep() {
                Ok::<(), GICRError>(())
            } else {
                Err(GICRError::AlreadyAwake)
            },
            final(self)@ == old(self)@.woken(),
            final(self)@.wf(),
            !final(self)@.children_asleep(),
            final(self)@.gicr.waker & GICR_WAKER_PROCESSOR_SLEEP == 0,
    {
        let gicr_waker = self.gicr.waker;
        if gicr_waker & GICR_WAKER_CHILDREN_ASLEEP == 0 {
            return Err(GICRError::AlreadyAwake);
        }
        // Mark the connected core as awake.
        self.gicr.write_waker(gicr_waker & !GICR_WAKER_PROCESSOR_SLEEP);
        proof {
            lemma_cleared_mask(gicr_waker, GICR_WAKER_PROCESSOR_SLEEP);
            lemma_settled_waker(gicr_waker & !GICR_WAKER_PROCESSOR_SLEEP);
        }
        // Wait until the redistributor reports the path awake; a settled image
        // already does.
        while self.gicr.waker & GICR_WAKER_CHILDREN_ASLEEP != 0
            invariant
                self@.wf(),
                self.gicr.waker & GICR_WAKER_PROCESSOR_SLEEP == 0,
            decreases self.gicr.waker & GICR_WAKER_CHILDREN_ASLEEP,
        {
        }
        Ok(())
    }

    /// The distributor's register image, for what this driver does not cover.
    pub fn gicd_ptr(&mut self) -> (r: &mut Gicd)
        ensures
            r@ == old(self)@.gicd,
            final(self)@ == (GicView { gicd: final(r)@, ..old(self)@ }),
    {
        &mut self.gicd
    }

    /// The redistributor's register image, for what this driver does not cover.
    pub fn gicr_ptr(&mut self) -> (r: &mut Gicr)
        ensures
            *r == old(self)@.gicr,
            final(self)@ == (GicView { gicr: *final(r), ..old(self)@ }),
    {
        &mut self.gicr
    }

    /// The image of the redistributor's frame for private interrupts, for what
    /// this driver does not cover.
    pub fn sgi_ptr(&mut self) -> (r: &mut Sgi)
        ensures
            r@ == old(self)@.sgi,
            final(self)@ == (GicView { sgi: final(r)@, ..old(self)@ }),
    {
        &mut self.sgi
    }
}

/// Enabling or disabling an interrupt changes its own enable bit and no
/// other interrupt's.
pub proof fn lemma_enable_targets_one_bit(g: GicView, id: u32, enable: bool, other: u32)
    requires
        g.wf(),
        id < SPECIAL_START,
        other < SPECIAL_START,
    ensures
        g.with_enable(id, enable).wf(),
        g.with_enable(id, enable).enabled(other) == if other == id {
            enable
        } else {
            g.enabled(other)
        },
{
    lemma_with_bit(g.enable_word(id), id % 32, enable);
}

/// Enabling an interrupt and then disabling it leaves the enable word that
/// holds it as a single disable would, with the interrupt's bit clear and the
/// rest of the images untouched; where the interrupt was disabled before, the
/// images end as they began.
pub proof fn lemma_enable_then_disable(g: GicView, id: u32)
    requires
        g.wf(),
        id < SPECIAL_START,
    ensures
        g.with_enable(id, true).with_enable(id, false) == g.with_enable(id, false),
        !g.with_enable(id, true).with_enable(id, false).enabled(id),
        !g.enabled(id) ==> g.with_enable(id, true).with_enable(id, false) == g,
{
    let w = g.enable_word(id);
    lemma_with_bit(w, id % 32, true);
    lemma_with_bit(w, id % 32, false);
    if !is_private_id(id) {
        let i = word_index(id);
        assert(g.with_enable(id, true).with_enable(id, false).gicd.enable =~= g.with_enable(
            id,
            false,
        ).gicd.enable);
        if !g.enabled(id) {
            assert(g.with_enable(id, false).gicd.enable =~= g.gicd.enable);
        }
    }
}

/// Configuring the trigger of an interrupt sets (edge) or clears (level) the
/// upper bit of its two-bit field in the trigger configuration word that holds
/// it, in the private frame for a private interrupt and in the distributor for
/// a shared one, keeps every other bit of that word, and doing it twice is
/// doing it once.
pub proof fn lemma_set_trigger(g: GicView, id: u32, edge: bool)
    requires
        g.wf(),
        id < SPECIAL_START,
    ensures
        g.with_trigger(id, edge).wf(),
        g.with_trigger(id, edge).edge_triggered(id) == edge,
        bit_of(g.with_trigger(id, edge).config_word(id), trigger_bit(id)) == edge,
        forall|m: u32|
            m < 32 && m != trigger_bit(id) ==> bit_of(
                #[trigger] g.with_trigger(id, edge).config_word(id),
                m,
            ) == bit_of(g.config_word(id), m),
        is_private_id(id) ==> g.with_trigger(id, edge).gicd == g.gicd,
        !is_private_id(id) ==> g.with_trigger(id, edge).sgi == g.sgi,
        g.with_trigger(id, edge).with_trigger(id, edge) == g.with_trigger(id, edge),
{
    let w = g.config_word(id);
    let h = g.with_trigger(id, edge);
    lemma_with_bit(w, trigger_bit(id), edge);
    lemma_with_bit(with_bit(w, trigger_bit(id), edge), trigger_bit(id), edge);
    if is_private_id(id) {
        assert(h.with_trigger(id, edge).sgi.config =~= h.sgi.config);
    } else {
        assert(h.with_trigger(id, edge).gicd.config =~= h.gicd.config);
    }
}

/// Assigning an interrupt to a group sets its group bit and group modifier
/// bit by the table Non-secure Group 1 = (1, 0), Secure Group 0 = (0, 0),
/// Secure Group 1 = (0, 1), for a private and a shared interrupt alike, and
/// leaves the bits of every other interrupt as they were.
pub proof fn lemma_set_group(g: GicView, id: u32, group: Group, other: u32)
    requires
        g.wf(),
        id < SPECIAL_START,
        other < SPECIAL_START,
    ensures
        ({
            let h = g.with_group(id, group_bits(group).0, group_bits(group).1);
            &&& h.wf()
            &&& group == Group::Group1NS ==> h.group_bit(id) && !h.group_mode_bit(id)
            &&& group == Group::Secure(SecureIntGroup::Group0) ==> !h.group_bit(id)
                && !h.group_mode_bit(id)
            &&& group == Group::Secure(SecureIntGroup::Group1S) ==> !h.group_bit(id)
                && h.group_mode_bit(id)
            &&& other != id ==> h.group_bit(other) == g.group_bit(other) && h.group_mode_bit(other)
                == g.group_mode_bit(other)
        }),
{
    lemma_with_bit(g.group_word(id), id % 32, group_bits(group).0);
    lemma_with_bit(g.group_mode_word(id), id % 32, group_bits(group).1);
}

/// The wake handshake leaves the core's interrupt path reported awake with
/// "processor sleep" clear, so a second handshake finds it awake and changes
/// nothing.
pub proof fn lemma_wake_twice(g: GicView)
    requires
        g.wf(),
    ensures
        g.woken().wf(),
        !g.woken().children_asleep(),
        g.children_asleep() ==> g.woken().gicr.waker & GICR_WAKER_PROCESSOR_SLEEP == 0,
        g.woken().woken() == g.woken(),
{
    lemma_settled_waker(g.gicr.waker & !GICR_WAKER_PROCESSOR_SLEEP);
    lemma_cleared_mask(g.gicr.waker, GICR_WAKER_PROCESSOR_SLEEP);
}

/// Running setup again changes nothing more: the second wake handshake finds
/// the core awake, and every register is written with what it already holds.
pub proof fn lemma_setup_twice(g: GicView)
    requires
        g.wf(),
    ensures
        g.set_up().wf(),
        !g.set_up().children_asleep(),
        g.set_up().set_up() == g.set_up(),
{
    lemma_wake_twice(g);
    lemma_cleared_mask(GICD_CTLR_ARE_S | GICD_CTLR_ENABLE_GRP1NS, GICD_CTLR_RWP);
    let h = g.set_up();
    lemma_wake_twice(h);
    assert(h.set_up().gicd.group =~= h.gicd.group);
}

proof fn lemma_sgi1r_all(id4: u64)
    by (bit_vector)
    ensures
        (0u16 as u64) | ((0u8 as u64) << 16u64) | (id4 << 24u64) | ((0u8 as u64) << 32u64) | (1u64
            << 40u64) | ((0u8 as u64) << 48u64) == (id4 << 24u64) | (1u64 << 40u64),
{
}

/// Word `word` with bit `nth` set to `set_bit`.
fn modify_bit(word: u32, nth: u32, set_bit: bool) -> (r: u32)
    requires
        nth < 32,
    ensures
        r == with_bit(word, nth, set_bit),
{
    let bit_mask: u32 = 1u32 << nth;
    if set_bit {
        word | bit_mask
    } else {
        word & !bit_mask
    }
}

} // verus!
