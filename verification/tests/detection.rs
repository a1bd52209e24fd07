use green_threads::arm::{Variant, HWCAP_NEON};
use green_threads::dispatch::{DetectError, Routine, VTable, VectorBank};
use green_threads::platform::{Arch, Os};
use green_threads::x86_64::{has_avx512, Avx512Features, Profile};

const NO_FEATURES: Avx512Features = Avx512Features {
    ifma: false,
    bw: false,
    cd: false,
    dq: false,
    er: false,
    f: false,
    pf: false,
    vl: false,
    vnni: false,
};

const BANKS: [VectorBank; 3] = [VectorBank::Sse, VectorBank::Avx512, VectorBank::Neon];

const SYSTEMS: [Os; 9] = [
    Os::Android,
    Os::Darwin,
    Os::DragonFly,
    Os::FreeBsd,
    Os::Linux,
    Os::NetBsd,
    Os::OpenBsd,
    Os::OtherUnix,
    Os::Windows,
];

fn vendor(name: &str) -> Option<String> {
    Some(name.to_string())
}

#[test]
fn neon_bit_is_bit_12() {
    assert_eq!(HWCAP_NEON, 1 << 12);
}

#[test]
fn arm_windows_always_has_neon() {
    assert_eq!(Variant::detect(Os::Windows, None), Ok(Variant::Neon));
    assert_eq!(Variant::detect(Os::Windows, Some(0)), Ok(Variant::Neon));
}

#[test]
fn arm_openbsd_never_has_neon() {
    assert_eq!(Variant::detect(Os::OpenBsd, None), Ok(Variant::Basic));
    assert_eq!(Variant::detect(Os::OpenBsd, Some(HWCAP_NEON)), Ok(Variant::Basic));
}

#[test]
fn arm_capabilities_decide_where_they_are_queried() {
    for os in [Os::Android, Os::FreeBsd, Os::Linux] {
        assert_eq!(Variant::detect(os, Some(0)), Ok(Variant::Basic));
        assert_eq!(Variant::detect(os, Some(HWCAP_NEON)), Ok(Variant::Neon));
        assert_eq!(Variant::detect(os, Some(HWCAP_NEON - 1)), Ok(Variant::Basic));
        assert_eq!(Variant::detect(os, Some(!HWCAP_NEON)), Ok(Variant::Basic));
        assert_eq!(Variant::detect(os, Some(u64::MAX)), Ok(Variant::Neon));
        assert_eq!(Variant::detect(os, Some(0x0017_b0d7)), Ok(Variant::Neon));
    }
}

#[test]
fn arm_failed_query_is_an_error() {
    for os in [Os::Android, Os::FreeBsd, Os::Linux] {
        assert_eq!(Variant::detect(os, None), Err(DetectError::QueryFailed));
    }
}

#[test]
fn arm_has_no_routine_for_other_systems() {
    for os in [Os::Darwin, Os::DragonFly, Os::NetBsd, Os::OtherUnix] {
        assert_eq!(Variant::detect(os, Some(HWCAP_NEON)), Err(DetectError::Unsupported));
        assert_eq!(Variant::detect(os, None), Err(DetectError::Unsupported));
    }
}

#[test]
fn arm_detection_is_repeatable() {
    for os in SYSTEMS {
        for hwcap in [None, Some(0), Some(HWCAP_NEON), Some(0x8000_0000_0000_1fff)] {
            assert_eq!(Variant::detect(os, hwcap), Variant::detect(os, hwcap));
        }
    }
}

#[test]
fn arm_detection_looks_at_the_neon_bit_only() {
    for os in [Os::Android, Os::FreeBsd, Os::Linux] {
        for other in [0u64, 1, 0xfff, 0xffff_ffff_ffff_efff] {
            assert_eq!(Variant::detect(os, Some(other)), Ok(Variant::Basic));
            assert_eq!(Variant::detect(os, Some(other | HWCAP_NEON)), Ok(Variant::Neon));
        }
    }
}

#[test]
fn arm_tables() {
    assert_eq!(Variant::Basic.vtable(), VTable { switch: Routine::ArmBasic });
    assert_eq!(Variant::Neon.vtable(), VTable { switch: Routine::ArmNeon });
}

#[test]
fn fixed_tables() {
    assert_eq!(green_threads::aarch64::vtable(), VTable { switch: Routine::Aarch64 });
    assert_eq!(green_threads::x86::vtable(), VTable { switch: Routine::X86Basic });
}

#[test]
fn x86_64_tables() {
    assert_eq!(Profile::vtable(Profile::Basic), VTable { switch: Routine::X86_64Basic });
    assert_eq!(Profile::vtable(Profile::Avx512), VTable { switch: Routine::X86_64Avx512 });
}

#[test]
fn routines_belong_to_their_architecture() {
    assert_eq!(Routine::Aarch64.architecture(), Arch::Aarch64);
    assert_eq!(Routine::ArmBasic.architecture(), Arch::Arm);
    assert_eq!(Routine::ArmNeon.architecture(), Arch::Arm);
    assert_eq!(Routine::X86Basic.architecture(), Arch::X86);
    assert_eq!(Routine::X86_64Basic.architecture(), Arch::X86_64);
    assert_eq!(Routine::X86_64Avx512.architecture(), Arch::X86_64);
}

#[test]
fn link_register_is_saved_on_arm_only() {
    assert!(Routine::Aarch64.saves_link_register());
    assert!(Routine::ArmBasic.saves_link_register());
    assert!(Routine::ArmNeon.saves_link_register());
    assert!(!Routine::X86Basic.saves_link_register());
    assert!(!Routine::X86_64Basic.saves_link_register());
    assert!(!Routine::X86_64Avx512.saves_link_register());
}

#[test]
fn routines_declare_their_vector_banks() {
    let declared = |routine: Routine| -> Vec<VectorBank> {
        BANKS.iter().copied().filter(|bank| routine.declares_clobbered(*bank)).collect()
    };
    assert_eq!(declared(Routine::Aarch64), vec![VectorBank::Neon]);
    assert_eq!(declared(Routine::ArmBasic), vec![]);
    assert_eq!(declared(Routine::ArmNeon), vec![VectorBank::Neon]);
    assert_eq!(declared(Routine::X86Basic), vec![VectorBank::Sse]);
    assert_eq!(declared(Routine::X86_64Basic), vec![VectorBank::Sse]);
    assert_eq!(declared(Routine::X86_64Avx512), vec![VectorBank::Sse, VectorBank::Avx512]);
}

#[test]
fn no_avx512_without_a_flag() {
    assert!(!has_avx512(NO_FEATURES));
}

#[test]
fn each_flag_alone_is_avx512() {
    assert!(has_avx512(Avx512Features { ifma: true, ..NO_FEATURES }));
    assert!(has_avx512(Avx512Features { bw: true, ..NO_FEATURES }));
    assert!(has_avx512(Avx512Features { cd: true, ..NO_FEATURES }));
    assert!(has_avx512(Avx512Features { dq: true, ..NO_FEATURES }));
    assert!(has_avx512(Avx512Features { er: true, ..NO_FEATURES }));
    assert!(has_avx512(Avx512Features { f: true, ..NO_FEATURES }));
    assert!(has_avx512(Avx512Features { pf: true, ..NO_FEATURES }));
    assert!(has_avx512(Avx512Features { vl: true, ..NO_FEATURES }));
    assert!(has_avx512(Avx512Features { vnni: true, ..NO_FEATURES }));
}

#[test]
fn amd_is_basic_whatever_its_features() {
    let all = Avx512Features { f: true, vl: true, bw: true, ..NO_FEATURES };
    assert_eq!(Profile::classify(vendor("AuthenticAMD"), None), Ok(Profile::Basic));
    assert_eq!(Profile::classify(vendor("AuthenticAMD"), Some(NO_FEATURES)), Ok(Profile::Basic));
    assert_eq!(Profile::classify(vendor("AuthenticAMD"), Some(all)), Ok(Profile::Basic));
}

#[test]
fn intel_follows_its_features() {
    let with = Avx512Features { f: true, ..NO_FEATURES };
    assert_eq!(Profile::classify(vendor("GenuineIntel"), Some(with)), Ok(Profile::Avx512));
    assert_eq!(Profile::classify(vendor("GenuineIntel"), Some(NO_FEATURES)), Ok(Profile::Basic));
}

#[test]
fn intel_without_extended_features_is_an_error() {
    assert_eq!(Profile::classify(vendor("GenuineIntel"), None), Err(DetectError::QueryFailed));
}

#[test]
fn missing_vendor_is_an_error() {
    assert_eq!(Profile::classify(None, None), Err(DetectError::QueryFailed));
    assert_eq!(Profile::classify(None, Some(NO_FEATURES)), Err(DetectError::QueryFailed));
}

#[test]
fn unknown_vendor_is_an_error_with_its_name() {
    for name in ["HygonGenuine", "CentaurHauls", "genuineintel", "GenuineIntel ", ""] {
        assert_eq!(
            Profile::classify(vendor(name), Some(NO_FEATURES)),
            Err(DetectError::UnknownVendor(name.to_string()))
        );
    }
}

#[test]
fn classification_is_repeatable() {
    let with = Avx512Features { vnni: true, ..NO_FEATURES };
    for name in ["AuthenticAMD", "GenuineIntel", "SomeoneElse"] {
        for features in [None, Some(NO_FEATURES), Some(with)] {
            assert_eq!(
                Profile::classify(vendor(name), features),
                Profile::classify(vendor(name), features)
            );
        }
    }
}

#[test]
fn detection_on_this_processor_is_repeatable() {
    let first = Profile::detect();
    for _ in 0..8 {
        assert_eq!(Profile::detect(), first);
    }
}

#[test]
fn detection_classifies_what_the_processor_reports() {
    let cpuid = raw_cpuid::CpuId::new();
    let name = cpuid.get_vendor_info().map(|info| info.as_str().to_string());
    let features = cpuid.get_extended_feature_info().map(|ef| Avx512Features {
        ifma: ef.has_avx512_ifma(),
        bw: ef.has_avx512bw(),
        cd: ef.has_avx512cd(),
        dq: ef.has_avx512dq(),
        er: ef.has_avx512er(),
        f: ef.has_avx512f(),
        pf: ef.has_avx512pf(),
        vl: ef.has_avx512vl(),
        vnni: ef.has_avx512vnni(),
    });
    let intel = name.as_deref() == Some("GenuineIntel");
    let expected = Profile::classify(name, if intel { features } else { None });
    assert_eq!(Profile::detect(), expected);
}

#[test]
fn detection_names_a_vendor_of_twelve_characters_when_it_does_not_know_it() {
    match Profile::detect() {
        Ok(_) | Err(DetectError::QueryFailed) => {}
        Err(DetectError::UnknownVendor(name)) => {
            assert_ne!(name, "AuthenticAMD");
            assert_ne!(name, "GenuineIntel");
        }
        Err(DetectError::Unsupported) => panic!("x86-64 is supported"),
    }
}
