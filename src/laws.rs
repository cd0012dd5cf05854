use vstd::prelude::*;

use crate::dispatch::{core_of, variant_of, variant_text, Features};
use crate::endian::Endianess;
use crate::triple::{hyphen_free, join_triple, lemma_triple_tokens_of_join};

verus! {

/// The architecture tokens that name a supported core.
pub open spec fn is_known_architecture(arch: Seq<char>) -> bool {
    arch == "thumbv6m"@ || arch == "thumbv7m"@ || arch == "thumbv7em"@ || arch == "thumbv8m.base"@
        || arch == "thumbv8m.main"@
}

/// The architecture tokens of the ARMv8-M family.
pub open spec fn is_v8m_architecture(arch: Seq<char>) -> bool {
    arch == "thumbv8m.base"@ || arch == "thumbv8m.main"@
}

/// The two ABI tokens.
pub open spec fn is_known_abi(abi: Seq<char>) -> bool {
    abi == "eabi"@ || abi == "eabihf"@
}

/// What the architecture and ABI tokens hold that the laws below rest on:
/// each is free of hyphens, and no two of them are equal.
proof fn lemma_token_literals()
    ensures
        hyphen_free("thumbv6m"@),
        hyphen_free("thumbv7m"@),
        hyphen_free("thumbv7em"@),
        hyphen_free("thumbv8m.base"@),
        hyphen_free("thumbv8m.main"@),
        hyphen_free("none"@),
        hyphen_free("eabi"@),
        hyphen_free("eabihf"@),
        "thumbv6m"@ != "thumbv7m"@,
        "thumbv6m"@ != "thumbv7em"@,
        "thumbv6m"@ != "thumbv8m.base"@,
        "thumbv6m"@ != "thumbv8m.main"@,
        "thumbv7m"@ != "thumbv7em"@,
        "thumbv7m"@ != "thumbv8m.base"@,
        "thumbv7m"@ != "thumbv8m.main"@,
        "thumbv7em"@ != "thumbv8m.base"@,
        "thumbv7em"@ != "thumbv8m.main"@,
        "thumbv8m.base"@ != "thumbv8m.main"@,
        "eabi"@ != "eabihf"@,
{
    reveal_strlit("thumbv6m");
    reveal_strlit("thumbv7m");
    reveal_strlit("thumbv7em");
    reveal_strlit("thumbv8m.base");
    reveal_strlit("thumbv8m.main");
    reveal_strlit("none");
    reveal_strlit("eabi");
    reveal_strlit("eabihf");
    assert("thumbv6m"@[6] != "thumbv7m"@[6]);
    assert("thumbv6m"@.len() != "thumbv7em"@.len());
    assert("thumbv6m"@.len() != "thumbv8m.base"@.len());
    assert("thumbv6m"@.len() != "thumbv8m.main"@.len());
    assert("thumbv7m"@.len() != "thumbv7em"@.len());
    assert("thumbv7m"@.len() != "thumbv8m.base"@.len());
    assert("thumbv7m"@.len() != "thumbv8m.main"@.len());
    assert("thumbv7em"@.len() != "thumbv8m.base"@.len());
    assert("thumbv7em"@.len() != "thumbv8m.main"@.len());
    assert("thumbv8m.base"@[9] != "thumbv8m.main"@[9]);
    assert("eabi"@.len() != "eabihf"@.len());
}

/// Every target `arch-none-abi` with a supported architecture and a known ABI
/// resolves, unless a big-endian byte order is asked for an ARMv8-M
/// architecture; the variant is the one that the core, the byte order, the
/// ABI and the capabilities determine.
pub proof fn lemma_valid_triple_resolves(arch: Seq<char>, abi: Seq<char>, endianess: Endianess, f: Features)
    requires
        is_known_architecture(arch),
        is_known_abi(abi),
        !(endianess is Big && is_v8m_architecture(arch)),
    ensures
        core_of(arch, f.cm7) is Some,
        variant_of(join_triple(arch, "none"@, abi), endianess, f) == Ok::<Seq<char>, crate::dispatch::DispatchError>(
            variant_text(core_of(arch, f.cm7)->Some_0, endianess, abi == "eabihf"@, f),
        ),
{
    lemma_token_literals();
    lemma_triple_tokens_of_join(arch, "none"@, abi);
}

/// A big-endian byte order on an ARMv8-M architecture is refused, whatever the
/// capabilities and the ABI.
pub proof fn lemma_big_endian_v8m_refused(arch: Seq<char>, abi: Seq<char>, f: Features)
    requires
        is_v8m_architecture(arch),
        is_known_abi(abi),
    ensures
        variant_of(join_triple(arch, "none"@, abi), Endianess::Big, f) == Err::<Seq<char>, crate::dispatch::DispatchError>(
            crate::dispatch::DispatchError::BigEndianForThumbv8m,
        ),
{
    lemma_token_literals();
    lemma_triple_tokens_of_join(arch, "none"@, abi);
}

} // verus!
