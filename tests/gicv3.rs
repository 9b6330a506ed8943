use arm_gic::gicv3::{
    GICRError, GicV3, Group, SecureIntGroup, SgiTarget, ICC_CTLR_EL1_SETUP, ICC_IGRPEN1_EL1_SETUP,
    ICC_SRE_EL1_SETUP,
};
use arm_gic::intid::{IntId, Trigger, SPECIAL_START};
use arm_gic::gicv3::registers::{
    Gicd, GicdCtlr, Gicr, Sgi, Typer, GICD_CTLR_ARE_S, GICD_CTLR_ENABLE_GRP1NS, GICD_CTLR_RWP,
    GICR_WAKER_CHILDREN_ASLEEP, GICR_WAKER_PROCESSOR_SLEEP,
};

fn driver(asleep: bool) -> GicV3 {
    GicV3::new(Gicd::new(0), Gicr::new(asleep), Sgi::new())
}

#[test]
fn classification_is_a_partition() {
    for n in 0..SPECIAL_START {
        let id = IntId::from_raw(n).unwrap();
        let kinds = [id.is_sgi(), id.is_ppi(), id.is_spi()];
        assert_eq!(kinds.iter().filter(|k| **k).count(), 1, "identity {}", n);
        assert_eq!(id.is_private(), id.is_sgi() || id.is_ppi());
        assert_eq!(id.to_u32(), n);
    }
    assert!(IntId::from_raw(1020).is_none());
    assert!(IntId::from_raw(u32::MAX).is_none());
}

#[test]
fn constructors_place_identities() {
    assert_eq!(IntId::sgi(3).to_u32(), 3);
    assert_eq!(IntId::ppi(0).to_u32(), 16);
    assert_eq!(IntId::ppi(15).to_u32(), 31);
    assert_eq!(IntId::spi(0).to_u32(), 32);
    assert_eq!(IntId::spi(987).to_u32(), 1019);
    assert!(IntId::sgi(15).is_sgi());
    assert!(IntId::ppi(1).is_ppi());
    assert!(IntId::spi(1).is_spi());
}

#[test]
fn enable_then_disable_private() {
    let mut gic = driver(false);
    gic.sgi_ptr().isenabler0 = 0x8000_0001;
    let before = gic.sgi_ptr().isenabler0;
    gic.enable_interrupt(IntId::sgi(3), true);
    assert_eq!(gic.sgi_ptr().isenabler0, before | (1 << 3));
    assert_eq!(gic.gicd_ptr().isenabler, [0; 32]);
    gic.enable_interrupt(IntId::sgi(3), false);
    assert_eq!(gic.sgi_ptr().isenabler0, before);
    gic.enable_interrupt(IntId::ppi(2), true);
    assert_eq!(gic.sgi_ptr().isenabler0, before | (1 << 18));
    gic.enable_interrupt(IntId::ppi(2), false);
    assert_eq!(gic.sgi_ptr().isenabler0, before);
}

#[test]
fn enable_then_disable_shared() {
    let mut gic = driver(false);
    gic.gicd_ptr().isenabler[2] = 0x0000_0f0f;
    let id = IntId::spi(37); // identity 69: word 2, bit 5
    gic.enable_interrupt(id, true);
    assert_eq!(gic.gicd_ptr().isenabler[2], 0x0000_0f0f | (1 << 5));
    assert_eq!(gic.sgi_ptr().isenabler0, 0);
    gic.enable_interrupt(id, false);
    assert_eq!(gic.gicd_ptr().isenabler[2], 0x0000_0f0f);
    for (i, w) in gic.gicd_ptr().isenabler.iter().enumerate() {
        if i != 2 {
            assert_eq!(*w, 0);
        }
    }
}

#[test]
fn disable_clears_an_enabled_interrupt() {
    let mut gic = driver(false);
    gic.gicd_ptr().isenabler[1] = 0xffff_ffff;
    gic.enable_interrupt(IntId::spi(0), false);
    assert_eq!(gic.gicd_ptr().isenabler[1], 0xffff_fffe);
}

#[test]
fn enable_all_interrupts_sets_and_clears_every_word() {
    let mut gic = driver(false);
    gic.enable_all_interrupts(true);
    assert_eq!(gic.gicd_ptr().isenabler, [0xffff_ffff; 32]);
    assert_eq!(gic.sgi_ptr().isenabler0, 0xffff_ffff);
    gic.enable_all_interrupts(false);
    assert_eq!(gic.gicd_ptr().isenabler, [0; 32]);
    assert_eq!(gic.sgi_ptr().isenabler0, 0);
}

#[test]
fn set_trigger_edge_and_level_private() {
    let mut gic = driver(false);
    let id = IntId::ppi(4); // identity 20: word 1, field 4, edge bit 9
    gic.sgi_ptr().icfgr[1] = 1 << 8;
    gic.set_trigger(id, Trigger::Edge);
    assert_eq!(gic.sgi_ptr().icfgr[1], (1 << 8) | (1 << 9));
    assert_eq!(gic.sgi_ptr().icfgr[0], 0);
    gic.set_trigger(id, Trigger::Edge);
    assert_eq!(gic.sgi_ptr().icfgr[1], (1 << 8) | (1 << 9));
    gic.set_trigger(id, Trigger::Level);
    assert_eq!(gic.sgi_ptr().icfgr[1], 1 << 8);
    gic.set_trigger(id, Trigger::Level);
    assert_eq!(gic.sgi_ptr().icfgr[1], 1 << 8);
    assert_eq!(gic.gicd_ptr().icfgr, [0; 64]);
}

#[test]
fn set_trigger_edge_and_level_shared() {
    let mut gic = driver(false);
    let id = IntId::spi(18); // identity 50: word 3, field 2, edge bit 5
    gic.gicd_ptr().icfgr[3] = 0xffff_ffdf;
    gic.set_trigger(id, Trigger::Edge);
    assert_eq!(gic.gicd_ptr().icfgr[3], 0xffff_ffff);
    gic.set_trigger(id, Trigger::Level);
    assert_eq!(gic.gicd_ptr().icfgr[3], 0xffff_ffdf);
    assert_eq!(gic.sgi_ptr().icfgr, [0; 2]);
}

fn group_bits(gic: &mut GicV3, id: IntId) -> (bool, bool) {
    let n = id.to_u32();
    if id.is_private() {
        let s = gic.sgi_ptr();
        (s.igroupr0 & (1 << n) != 0, s.igrpmodr0 & (1 << n) != 0)
    } else {
        let d = gic.gicd_ptr();
        let (w, b) = ((n / 32) as usize, n % 32);
        (d.igroupr[w] & (1 << b) != 0, d.igrpmodr[w] & (1 << b) != 0)
    }
}

#[test]
fn set_group_truth_table() {
    for id in [IntId::sgi(3), IntId::ppi(7), IntId::spi(70)] {
        let mut gic = driver(false);
        gic.set_group(id, Group::Group1NS);
        assert_eq!(group_bits(&mut gic, id), (true, false));
        gic.set_group(id, Group::Secure(SecureIntGroup::Group0));
        assert_eq!(group_bits(&mut gic, id), (false, false));
        gic.set_group(id, Group::Secure(SecureIntGroup::Group1S));
        assert_eq!(group_bits(&mut gic, id), (false, true));
        gic.set_group(id, Group::Group1NS);
        assert_eq!(group_bits(&mut gic, id), (true, false));
    }
}

#[test]
fn set_group_keeps_other_bits() {
    let mut gic = driver(false);
    gic.gicd_ptr().igroupr[3] = 0xffff_ffff;
    gic.set_group(IntId::spi(70), Group::Secure(SecureIntGroup::Group1S)); // identity 102: word 3, bit 6
    assert_eq!(gic.gicd_ptr().igroupr[3], 0xffff_ffbf);
    assert_eq!(gic.gicd_ptr().igrpmodr[3], 1 << 6);
}

#[test]
fn set_interrupt_priority_routes_by_identity() {
    let mut gic = driver(false);
    gic.set_interrupt_priority(IntId::ppi(1), 0x20);
    gic.set_interrupt_priority(IntId::spi(100), 0xa0);
    assert_eq!(gic.sgi_ptr().ipriorityr[17], 0x20);
    assert_eq!(gic.gicd_ptr().ipriorityr[132], 0xa0);
    assert_eq!(gic.gicd_ptr().ipriorityr[17], 0);
}

#[test]
fn send_sgi_to_list() {
    let v = GicV3::send_sgi(
        IntId::sgi(3),
        SgiTarget::List { affinity3: 0, affinity2: 0, affinity1: 0, target_list: 0b1 },
    );
    assert_eq!(v, 0x0000_0300_0001);
}

#[test]
fn send_sgi_to_all() {
    let v = GicV3::send_sgi(IntId::sgi(3), SgiTarget::All);
    assert_eq!(v, 0x0100_0300_0000);
    assert_ne!(v & (1 << 40), 0);
}

#[test]
fn send_sgi_places_every_field() {
    let v = GicV3::send_sgi(
        IntId::sgi(15),
        SgiTarget::List { affinity3: 0xab, affinity2: 0xcd, affinity1: 0xef, target_list: 0x1234 },
    );
    assert_eq!(v, 0x00ab_00cd_0fef_1234);
}

#[test]
fn acknowledge_reserved_identities() {
    for raw in [1020u64, 1021, 1022, 1023] {
        assert_eq!(GicV3::get_and_acknowledge_interrupt(raw), None);
    }
    assert_eq!(GicV3::get_and_acknowledge_interrupt(1019), Some(IntId::spi(987)));
    assert_eq!(GicV3::get_and_acknowledge_interrupt(0), Some(IntId::sgi(0)));
    assert_eq!(GicV3::get_and_acknowledge_interrupt(0x1_0000_0005), Some(IntId::sgi(5)));
}

#[test]
fn end_interrupt_and_priority_mask_values() {
    assert_eq!(GicV3::end_interrupt(IntId::spi(10)), 42);
    assert_eq!(GicV3::set_priority_mask(0x80), 0x80);
}

#[test]
fn mark_core_awake_then_already_awake() {
    let mut gic = driver(true);
    assert_eq!(gic.redistributor_mark_core_awake(), Ok(()));
    let waker = gic.gicr_ptr().waker;
    assert_eq!(waker & GICR_WAKER_PROCESSOR_SLEEP, 0);
    assert_eq!(waker & GICR_WAKER_CHILDREN_ASLEEP, 0);
    assert_eq!(gic.redistributor_mark_core_awake(), Err(GICRError::AlreadyAwake));
    assert_eq!(gic.gicr_ptr().waker, waker);
}

#[test]
fn mark_core_awake_keeps_other_waker_bits() {
    let mut gic = driver(true);
    gic.gicr_ptr().waker |= 1;
    assert_eq!(gic.redistributor_mark_core_awake(), Ok(()));
    assert_eq!(gic.gicr_ptr().waker, 1);
}

#[test]
fn setup_then_configure_sgi() {
    let mut gic = driver(true);
    gic.setup();
    gic.enable_interrupt(IntId::sgi(3), true);
    gic.set_interrupt_priority(IntId::sgi(3), 0x31);
    gic.set_group(IntId::sgi(3), Group::Group1NS);
    let sgi = gic.sgi_ptr();
    assert_eq!(sgi.isenabler0 & (1 << 3), 1 << 3);
    assert_eq!(sgi.ipriorityr[3], 0x31);
    assert_eq!(sgi.igroupr0 & (1 << 3), 1 << 3);
    assert_eq!(sgi.igrpmodr0 & (1 << 3), 0);
}

#[test]
fn setup_programs_distributor_and_groups() {
    let mut gic = driver(true);
    gic.setup();
    assert_eq!(gic.gicd_ptr().ctlr, GICD_CTLR_ARE_S | GICD_CTLR_ENABLE_GRP1NS);
    assert_eq!(gic.gicd_ptr().igroupr[0], 0);
    for i in 1..32 {
        assert_eq!(gic.gicd_ptr().igroupr[i], 0xffff_ffff);
    }
    assert_eq!(gic.sgi_ptr().igroupr0, 0xffff_ffff);
    assert_eq!(gic.gicr_ptr().waker, 0);
    // A second setup finds the core awake and still completes.
    gic.setup();
    assert_eq!(gic.gicd_ptr().ctlr, GICD_CTLR_ARE_S | GICD_CTLR_ENABLE_GRP1NS);
    assert_eq!((ICC_SRE_EL1_SETUP, ICC_CTLR_EL1_SETUP, ICC_IGRPEN1_EL1_SETUP), (1, 0, 1));
}

#[test]
fn control_set_and_clear() {
    let mut gic = driver(false);
    gic.gicd_set_control(GicdCtlr(GICD_CTLR_ENABLE_GRP1NS | GICD_CTLR_RWP));
    assert_eq!(gic.gicd_ptr().ctlr, GICD_CTLR_ENABLE_GRP1NS);
    gic.gicd_set_control(GicdCtlr(GICD_CTLR_ARE_S));
    assert_eq!(gic.gicd_ptr().ctlr, GICD_CTLR_ENABLE_GRP1NS | GICD_CTLR_ARE_S);
    gic.gicd_clear_control(GicdCtlr(GICD_CTLR_ENABLE_GRP1NS));
    assert_eq!(gic.gicd_ptr().ctlr, GICD_CTLR_ARE_S);
    gic.gicr_barrier();
}

#[test]
fn typer_reports_the_image() {
    let gic = GicV3::new(Gicd::new(0x0078_0000 | 7), Gicr::new(false), Sgi::new());
    assert_eq!(gic.typer().0, 0x0078_0007);
}

#[test]
fn typer_fields() {
    let t = Typer(0x0003_0407);
    assert_eq!(t.it_lines_number(), 7);
    assert_eq!(t.num_lines(), 256);
    assert!(t.security_extn() && t.mbis() && t.lpis());
    let u = Typer(0x1f);
    assert_eq!(u.num_lines(), 1024);
    assert!(!u.security_extn() && !u.mbis() && !u.lpis());
}
