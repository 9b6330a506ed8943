use arm_gic::register::cbar::Cbar;
use arm_gic::register::cpsr::Cpsr;
use arm_gic::register::hactlr::Hactlr;
use arm_gic::register::midr::Midr;
use arm_gic::register::sctlr::Sctlr;

#[test]
fn cpsr_flags_and_mode() {
    let c = Cpsr(0x8000_01d3);
    assert!(c.n());
    assert!(!c.z() && !c.c() && !c.v() && !c.q() && !c.j() && !c.e());
    assert!(c.a() && c.i() && c.f() && !c.t());
    assert_eq!(c.mode(), 0x13);
    assert!(c.is_supervisor_mode());
    let user = Cpsr(0x7100_0230);
    assert!(user.z() && user.c() && user.v() && user.j() && user.e() && user.t());
    assert_eq!(user.mode(), 0x10);
    assert!(!user.is_supervisor_mode());
    assert_eq!(Cpsr::MODE_BITS, 0x1f);
}

#[test]
fn sctlr_set_and_clear_each_bit() {
    let mut s = Sctlr(0);
    s.set_c();
    s.set_i();
    s.set_z();
    assert_eq!(s.0, (1 << 2) | (1 << 12) | (1 << 11));
    assert!(s.c() && s.i() && s.z());
    assert!(!s.m() && !s.a() && !s.sw() && !s.v());
    s.clear_i();
    assert_eq!(s.0, (1 << 2) | (1 << 11));
    let mut all = Sctlr(0);
    all.set_ie();
    all.set_te();
    all.set_nmfi();
    all.set_ee();
    all.set_u();
    all.set_fi();
    all.set_dz();
    all.set_br();
    all.set_rr();
    all.set_v();
    all.set_i();
    all.set_z();
    all.set_sw();
    all.set_c();
    all.set_a();
    all.set_m();
    assert_eq!(all.0, 0xca66_7c07);
    assert!(all.ie() && all.te() && all.nmfi() && all.ee() && all.u() && all.fi());
    assert!(all.dz() && all.br() && all.rr() && all.v() && all.sw() && all.a() && all.m());
    all.clear_ie();
    all.clear_te();
    all.clear_nmfi();
    all.clear_ee();
    all.clear_u();
    all.clear_fi();
    all.clear_dz();
    all.clear_br();
    all.clear_rr();
    all.clear_v();
    all.clear_i();
    all.clear_z();
    all.clear_sw();
    all.clear_c();
    all.clear_a();
    all.clear_m();
    assert_eq!(all.0, 0);
    assert_eq!(Sctlr::N_BIT, 1 << 31);
}

#[test]
fn sctlr_keeps_unnamed_bits() {
    let mut s = Sctlr(0x0000_0078);
    s.set_m();
    s.clear_a();
    assert_eq!(s.0, 0x0000_0079);
}

#[test]
fn midr_fields() {
    let m = Midr(0x411f_d132);
    assert_eq!(m.implementer(), 0x41);
    assert_eq!(m.variant(), 0x1);
    assert_eq!(m.arch(), 0xf);
    assert_eq!(m.part_no(), 0xd13);
    assert_eq!(m.rev(), 0x2);
}

#[test]
fn cbar_periphbase() {
    assert_eq!(Cbar(0xf012_3456).periphbase(), 0x2_3456);
    assert_eq!(Cbar(0).periphbase(), 0);
}

#[test]
fn hactlr_fields() {
    let h = Hactlr(0)
        .with_testr1(true)
        .with_err(true)
        .with_intmonr(true)
        .with_bustimeoutr(true)
        .with_qosr(true)
        .with_periphpregionr(true)
        .with_flashifregionr(true)
        .with_cdbgdci(true)
        .with_cpuactlr(true);
    assert_eq!(h.0, 0xb783);
    assert!(h.testr1() && h.err() && h.intmonr() && h.bustimeoutr() && h.qosr());
    assert!(h.periphpregionr() && h.flashifregionr() && h.cdbgdci() && h.cpuactlr());
    let cleared = h.with_qosr(false).with_cpuactlr(false);
    assert_eq!(cleared.0, 0xb582);
    assert!(!cleared.qosr() && !cleared.cpuactlr() && cleared.periphpregionr());
}

#[test]
fn debug_strings_match_diagnostics() {
    assert_eq!(
        Cpsr(0x0000_01d3).debug_string(),
        "CPSR { N=0 Z=0 C=0 V=0 Q=0 J=0 E=0 A=1 I=1 F=1 T=0 MODE=0x13 }"
    );
    assert_eq!(
        Cpsr(0xf800_0000).debug_string(),
        "CPSR { N=1 Z=1 C=1 V=1 Q=1 J=0 E=0 A=0 I=0 F=0 T=0 MODE=0x0 }"
    );
    assert_eq!(
        Sctlr((1 << 2) | (1 << 12) | (1 << 11)).debug_string(),
        "SCTLR { IE=0 TE=0 NMFI=0 EE=0 U=0 FI=0 DZ=0 BR=0 RR=0 V=0 I=1 Z=1 SW=0 C=1 A=0 M=0 }"
    );
    assert_eq!(
        Hactlr(1).debug_string(),
        "HACTLR { CPUACTLR=1, CDBGDCI=0, FLASHIFREGIONR=0, PERIPHPREGIONR=0, QOSR=0, BUSTIMEOUTR=0, INTMONR=0, ERR=0, TESTR1=0 }"
    );
    assert_eq!(
        Midr(0x411f_d132).debug_string(),
        "MIDR { implementer=0x41 variant=0x1 arch=0xf part_no=0xd13 rev=0x2 }"
    );
    assert_eq!(
        Midr(0x0400_0050).debug_string(),
        "MIDR { implementer=0x04 variant=0x0 arch=0x0 part_no=0x005 rev=0x0 }"
    );
    assert_eq!(Cbar(0xf012_3456).debug_string(), "CBAR { PERIPHBASE=0x23456 }");
    assert_eq!(Cbar(0).debug_string(), "CBAR { PERIPHBASE=0x0 }");
}
