use vstd::prelude::*;

use crate::endian::Endianess;
use crate::triple::{same_text, split_token, triple_tokens};

verus! {

/// The core that a prebuilt DSP library variant is compiled for.
#[derive(Debug, Clone, Copy, PartialEq, Eq, Structural)]
pub enum Core {
    CortexM0,
    CortexM3,
    CortexM4,
    CortexM7,
    ArmV8MBaseline,
    ArmV8MMainline,
}

impl Core {
    /// The core's name as it stands in a library variant.
    pub open spec fn spec_name(self) -> Seq<char> {
        match self {
            Core::CortexM0 => "cortexM0"@,
            Core::CortexM3 => "cortexM3"@,
            Core::CortexM4 => "cortexM4"@,
            Core::CortexM7 => "cortexM7"@,
            Core::ArmV8MBaseline => "ARMv8MBL"@,
            Core::ArmV8MMainline => "ARMv8MML"@,
        }
    }

    /// Whether the core belongs to the ARMv8-M family (its name starts with `ARMv8M`).
    pub open spec fn is_v8m(self) -> bool {
        self is ArmV8MBaseline || self is ArmV8MMainline
    }

    /// Whether the core has the DSP extension: only the `thumbv8m.main`
    /// architecture is read as having it.
    pub open spec fn has_dsp(self) -> bool {
        self is ArmV8MMainline
    }

    /// The core's name as a string.
    pub fn name(&self) -> (r: &'static str)
        ensures
            r@ == self.spec_name(),
    {
        match self {
            Core::CortexM0 => "cortexM0",
            Core::CortexM3 => "cortexM3",
            Core::CortexM4 => "cortexM4",
            Core::CortexM7 => "cortexM7",
            Core::ArmV8MBaseline => "ARMv8MBL",
            Core::ArmV8MMainline => "ARMv8MML",
        }
    }
}

/// The hardware capabilities that the build enables.
#[derive(Debug, Clone, Copy, PartialEq, Eq, Structural)]
pub struct Features {
    /// Use the Cortex-M7 variant for `thumbv7em`.
    pub cm7: bool,
    /// Single-precision floating-point unit.
    pub fsp: bool,
    /// Double-precision floating-point unit.
    pub fdp: bool,
    /// DSP extension.
    pub dsp: bool,
}

/// Why a target cannot be mapped to a library variant.
#[derive(Debug, Clone, Copy, PartialEq, Eq, Structural)]
pub enum DispatchError {
    /// The architecture token is not a supported Cortex-M architecture.
    InvalidIsa,
    /// The vendor token is missing or is not `none`.
    InvalidVendor,
    /// The ABI token is missing or is neither `eabi` nor `eabihf`.
    InvalidAbi,
    /// Big-endian byte order was asked for an ARMv8-M core.
    BigEndianForThumbv8m,
}

/// Everything the variant is chosen from: the target identifier, its byte
/// order and the enabled capabilities.
#[derive(Debug, Clone, PartialEq, Eq)]
pub struct Config {
    pub target: String,
    pub endianess: Endianess,
    pub features: Features,
}

/// The core that an architecture token stands for; `thumbv7em` is a Cortex-M7
/// where `cm7` is set and a Cortex-M4 otherwise.
pub open spec fn core_of(arch: Seq<char>, cm7: bool) -> Option<Core> {
    if arch == "thumbv6m"@ {
        Some(Core::CortexM0)
    } else if arch == "thumbv7m"@ {
        Some(Core::CortexM3)
    } else if arch == "thumbv7em"@ {
        if cm7 {
            Some(Core::CortexM7)
        } else {
            Some(Core::CortexM4)
        }
    } else if arch == "thumbv8m.base"@ {
        Some(Core::ArmV8MBaseline)
    } else if arch == "thumbv8m.main"@ {
        Some(Core::ArmV8MMainline)
    } else {
        None
    }
}

/// Whether an ABI token is the hard-float one; `None` where it is no known ABI.
pub open spec fn hard_float_of(abi: Option<Seq<char>>) -> Option<bool> {
    if abi == Some("eabi"@) {
        Some(false)
    } else if abi == Some("eabihf"@) {
        Some(true)
    } else {
        None
    }
}

/// The variant text for a core, byte order, ABI and capabilities:
/// the core's name, `l` or `b` for the byte order, `d` for the DSP extension,
/// `f` for a single-precision unit under the hard-float ABI, and `dp` for a
/// double-precision unit under the hard-float ABI.
///
/// Rules chosen where the variants could be read more than one way:
/// - `f` on an ARMv8-M core is followed by `sp` ("single precision only"),
///   except where `dp` follows as well: an ARMv8-M core with both units
///   enabled is named `..fdp`, not `..fspdp`.
/// - Double precision is gated on the hard-float ABI together with the `fdp`
///   capability, not on the Cortex-M7 choice.
/// - A big-endian ARMv8-M target is a hard error (`BigEndianForThumbv8m`),
///   not a target with no variant (see `variant_of`).
pub open spec fn variant_text(core: Core, endianess: Endianess, hard_float: bool, f: Features) -> Seq<char> {
    core.spec_name()
        + (if endianess is Little { "l"@ } else { "b"@ })
        + (if core.has_dsp() && f.dsp { "d"@ } else { Seq::empty() })
        + (if hard_float && f.fsp {
            "f"@ + (if core.is_v8m() && !(hard_float && f.fdp) { "sp"@ } else { Seq::empty() })
        } else {
            Seq::empty()
        })
        + (if hard_float && f.fdp { "dp"@ } else { Seq::empty() })
}

/// The variant chosen for a target identifier, byte order and capabilities,
/// or the first check that the configuration fails: the architecture, then the
/// vendor, then the ABI, then the byte order.
pub open spec fn variant_of(target: Seq<char>, endianess: Endianess, f: Features) -> Result<Seq<char>, DispatchError> {
    let tokens = triple_tokens(target);
    match core_of(tokens.0, f.cm7) {
        None => Err(DispatchError::InvalidIsa),
        Some(core) => if tokens.1 != Some("none"@) {
            Err(DispatchError::InvalidVendor)
        } else {
            match hard_float_of(tokens.2) {
                None => Err(DispatchError::InvalidAbi),
                Some(hard_float) => if endianess is Big && core.is_v8m() {
                    Err(DispatchError::BigEndianForThumbv8m)
                } else {
                    Ok(variant_text(core, endianess, hard_float, f))
                },
            }
        },
    }
}

/// The name of the library to link for a variant.
pub open spec fn library_name_of(variant: Seq<char>) -> Seq<char> {
    "arm_"@ + variant + "_math"@
}

fn core_of_token(arch: &str, cm7: bool) -> (r: Option<Core>)
    ensures
        r == core_of(arch@, cm7),
{
    if same_text(arch, "thumbv6m") {
        Some(Core::CortexM0)
    } else if same_text(arch, "thumbv7m") {
        Some(Core::CortexM3)
    } else if same_text(arch, "thumbv7em") {
        if cm7 {
            Some(Core::CortexM7)
        } else {
            Some(Core::CortexM4)
        }
    } else if same_text(arch, "thumbv8m.base") {
        Some(Core::ArmV8MBaseline)
    } else if same_text(arch, "thumbv8m.main") {
        Some(Core::ArmV8MMainline)
    } else {
        None
    }
}

fn build_variant(core: Core, endianess: Endianess, hard_float: bool, f: Features) -> (r: String)
    ensures
        r@ == variant_text(core, endianess, hard_float, f),
{
    let mut variant = String::from_str(core.name());
    match endianess {
        Endianess::Little => variant.append("l"),
        Endianess::Big => variant.append("b"),
    }
    let ghost after_order = variant@;
    if matches!(core, Core::ArmV8MMainline) && f.dsp {
        variant.append("d");
    } else {
        assert(variant@ == after_order + Seq::<char>::empty());
    }
    let ghost after_dsp = variant@;
    if hard_float && f.fsp {
        variant.append("f");
        if matches!(core, Core::ArmV8MBaseline | Core::ArmV8MMainline) && !f.fdp {
            variant.append("sp");
            assert(variant@ == after_dsp + ("f"@ + "sp"@));
        } else {
            assert(variant@ == after_dsp + ("f"@ + Seq::<char>::empty()));
        }
    } else {
        assert(variant@ == after_dsp + Seq::<char>::empty());
    }
    let ghost after_single = variant@;
    if hard_float && f.fdp {
        variant.append("dp");
    } else {
        assert(variant@ == after_single + Seq::<char>::empty());
    }
    variant
}

impl Config {
    /// A configuration of the given parts.
    pub fn new(target: String, endianess: Endianess, features: Features) -> (r: Config)
        ensures
            r.target@ == target@,
            r.endianess == endianess,
            r.features == features,
    {
        Config { target, endianess, features }
    }

    /// Chooses the prebuilt library variant for this configuration.
    pub fn dispatch(&self) -> (r: Result<String, DispatchError>)
        ensures
            match r {
                Ok(v) => variant_of(self.target@, self.endianess, self.features) == Ok::<Seq<char>, DispatchError>(v@),
                Err(e) => variant_of(self.target@, self.endianess, self.features) == Err::<Seq<char>, DispatchError>(e),
            },
    {
        let (arch, vendor_on) = split_token(self.target.as_str());
        let core = match core_of_token(arch, self.features.cm7) {
            Some(c) => c,
            None => return Err(DispatchError::InvalidIsa),
        };
        let vendor_on = match vendor_on {
            Some(v) => v,
            None => return Err(DispatchError::InvalidVendor),
        };
        let (vendor, abi_on) = split_token(vendor_on);
        if !same_text(vendor, "none") {
            return Err(DispatchError::InvalidVendor);
        }
        let abi_on = match abi_on {
            Some(a) => a,
            None => return Err(DispatchError::InvalidAbi),
        };
        let (abi, _) = split_token(abi_on);
        let hard_float = if same_text(abi, "eabi") {
            false
        } else if same_text(abi, "eabihf") {
            true
        } else {
            return Err(DispatchError::InvalidAbi);
        };
        if matches!(self.endianess, Endianess::Big) && matches!(core, Core::ArmV8MBaseline | Core::ArmV8MMainline) {
            return Err(DispatchError::BigEndianForThumbv8m);
        }
        Ok(build_variant(core, self.endianess, hard_float, self.features))
    }
}

/// The name of the library to link for a variant: `arm_<variant>_math`.
pub fn library_name(variant: &str) -> (r: String)
    ensures
        r@ == library_name_of(variant@),
{
    let mut name = String::from_str("arm_");
    name.append(variant);
    name.append("_math");
    name
}

} // verus!
