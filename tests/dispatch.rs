use arm_math_sys::dispatch::{library_name, Config, Core, DispatchError, Features};
use arm_math_sys::endian::{Endianess, ParseEndianessError};
use arm_math_sys::triple::{same_text, split_token};

fn flags(cm7: bool, fsp: bool, fdp: bool, dsp: bool) -> Features {
    Features { cm7, fsp, fdp, dsp }
}

fn resolve(target: &str, endianess: Endianess, features: Features) -> Result<String, DispatchError> {
    Config::new(target.to_string(), endianess, features).dispatch()
}

fn all_flags() -> Vec<Features> {
    let mut out = Vec::new();
    for bits in 0u8..16 {
        out.push(flags(bits & 1 != 0, bits & 2 != 0, bits & 4 != 0, bits & 8 != 0));
    }
    out
}

#[test]
fn cortex_m0_little_no_flags() {
    let v = resolve("thumbv6m-none-eabi", Endianess::Little, flags(false, false, false, false)).unwrap();
    assert_eq!(library_name(&v), "arm_cortexM0l_math");
}

#[test]
fn cortex_m4_hard_float_single_precision() {
    let v = resolve("thumbv7em-none-eabihf", Endianess::Little, flags(false, true, false, false)).unwrap();
    assert_eq!(library_name(&v), "arm_cortexM4lf_math");
}

#[test]
fn mainline_with_dsp_and_both_precisions() {
    let v = resolve("thumbv8m.main-none-eabihf", Endianess::Little, flags(false, true, true, true)).unwrap();
    assert!(v.starts_with("ARMv8MMLld"));
    assert!(v.ends_with("dp"));
    assert!(!v.contains("sp"));
    assert_eq!(v, "ARMv8MMLldfdp");
}

#[test]
fn big_endian_v8m_refused() {
    for arch in ["thumbv8m.base", "thumbv8m.main"] {
        for abi in ["eabi", "eabihf"] {
            for f in all_flags() {
                let target = format!("{}-none-{}", arch, abi);
                assert_eq!(resolve(&target, Endianess::Big, f), Err(DispatchError::BigEndianForThumbv8m));
            }
        }
    }
}

#[test]
fn unknown_architecture_is_invalid_isa() {
    for f in all_flags() {
        assert_eq!(resolve("riscv32-none-eabi", Endianess::Little, f), Err(DispatchError::InvalidIsa));
        assert_eq!(resolve("riscv32-none-eabi", Endianess::Big, f), Err(DispatchError::InvalidIsa));
    }
}

#[test]
fn unknown_vendor_is_invalid_vendor() {
    for f in all_flags() {
        assert_eq!(resolve("thumbv7m-unknownvendor-eabi", Endianess::Little, f), Err(DispatchError::InvalidVendor));
    }
}

#[test]
fn unknown_abi_is_invalid_abi() {
    assert_eq!(resolve("thumbv7m-none-gnu", Endianess::Little, flags(false, false, false, false)), Err(DispatchError::InvalidAbi));
}

#[test]
fn missing_tokens() {
    let f = flags(false, false, false, false);
    assert_eq!(resolve("", Endianess::Little, f), Err(DispatchError::InvalidIsa));
    assert_eq!(resolve("thumbv7m", Endianess::Little, f), Err(DispatchError::InvalidVendor));
    assert_eq!(resolve("thumbv7m-none", Endianess::Little, f), Err(DispatchError::InvalidAbi));
    assert_eq!(resolve("thumbv7m-none-eabi-extra", Endianess::Little, f), Ok("cortexM3l".to_string()));
}

#[test]
fn errors_checked_in_order() {
    let f = flags(false, false, false, false);
    assert_eq!(resolve("riscv32-acme-gnu", Endianess::Big, f), Err(DispatchError::InvalidIsa));
    assert_eq!(resolve("thumbv8m.base-acme-gnu", Endianess::Big, f), Err(DispatchError::InvalidVendor));
    assert_eq!(resolve("thumbv8m.base-none-gnu", Endianess::Big, f), Err(DispatchError::InvalidAbi));
}

#[test]
fn every_valid_triple_resolves() {
    for arch in ["thumbv6m", "thumbv7m", "thumbv7em", "thumbv8m.base", "thumbv8m.main"] {
        for abi in ["eabi", "eabihf"] {
            for e in [Endianess::Little, Endianess::Big] {
                if e == Endianess::Big && arch.starts_with("thumbv8m") {
                    continue;
                }
                for f in all_flags() {
                    let target = format!("{}-none-{}", arch, abi);
                    assert!(resolve(&target, e, f).is_ok(), "{} {:?} {:?}", target, e, f);
                }
            }
        }
    }
}

#[test]
fn resolving_twice_gives_the_same_answer() {
    for target in ["thumbv7em-none-eabihf", "thumbv8m.base-none-eabi", "riscv32-none-eabi"] {
        for e in [Endianess::Little, Endianess::Big] {
            for f in all_flags() {
                let c = Config::new(target.to_string(), e, f);
                assert_eq!(c.dispatch(), c.dispatch());
            }
        }
    }
}

#[test]
fn cortex_m7_variants() {
    assert_eq!(resolve("thumbv7em-none-eabihf", Endianess::Little, flags(true, true, true, false)), Ok("cortexM7lfdp".to_string()));
    assert_eq!(resolve("thumbv7em-none-eabihf", Endianess::Little, flags(true, true, false, false)), Ok("cortexM7lf".to_string()));
    assert_eq!(resolve("thumbv7em-none-eabi", Endianess::Little, flags(true, true, true, true)), Ok("cortexM7l".to_string()));
}

#[test]
fn big_endian_cortex_m3() {
    assert_eq!(resolve("thumbv7m-none-eabi", Endianess::Big, flags(false, false, false, false)), Ok("cortexM3b".to_string()));
}

#[test]
fn baseline_single_precision_marker() {
    assert_eq!(resolve("thumbv8m.base-none-eabihf", Endianess::Little, flags(false, true, false, true)), Ok("ARMv8MBLlfsp".to_string()));
    assert_eq!(resolve("thumbv8m.main-none-eabihf", Endianess::Little, flags(false, true, false, true)), Ok("ARMv8MMLldfsp".to_string()));
    assert_eq!(resolve("thumbv8m.main-none-eabi", Endianess::Little, flags(false, true, true, true)), Ok("ARMv8MMLld".to_string()));
    assert_eq!(resolve("thumbv8m.base-none-eabihf", Endianess::Little, flags(false, true, true, false)), Ok("ARMv8MBLlfdp".to_string()));
}

#[test]
fn library_name_wraps_variant() {
    assert_eq!(library_name("cortexM3b"), "arm_cortexM3b_math");
    assert_eq!(library_name(""), "arm__math");
}

#[test]
fn core_names() {
    assert_eq!(Core::CortexM0.name(), "cortexM0");
    assert_eq!(Core::ArmV8MBaseline.name(), "ARMv8MBL");
    assert_eq!(Core::ArmV8MMainline.name(), "ARMv8MML");
}

#[test]
fn endianess_parse() {
    assert_eq!(Endianess::parse("little"), Ok(Endianess::Little));
    assert_eq!(Endianess::parse("big"), Ok(Endianess::Big));
    assert_eq!(Endianess::parse("Big"), Err(ParseEndianessError));
    assert_eq!(Endianess::parse(""), Err(ParseEndianessError));
}

#[test]
fn same_text_compares_characters() {
    assert!(same_text("none", "none"));
    assert!(!same_text("none", "nonE"));
    assert!(!same_text("none", "non"));
    assert!(same_text("", ""));
}

#[test]
fn split_token_at_first_hyphen() {
    assert_eq!(split_token("a-b-c"), ("a", Some("b-c")));
    assert_eq!(split_token("abc"), ("abc", None));
    assert_eq!(split_token("-x"), ("", Some("x")));
    assert_eq!(split_token("ä-ö"), ("ä", Some("ö")));
}
