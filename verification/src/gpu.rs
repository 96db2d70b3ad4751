//! Identification of the GPU and the resources needed to operate it.

pub mod bring_up;
pub mod channel;

use vstd::prelude::*;

use crate::error::Error;
use crate::mm::pagetable::MmuVersion;
use crate::regs::{NV_PMC_BOOT_0, NV_PMC_BOOT_42};

verus! {

/// Enum representation of the GPU chipset.
#[derive(Debug, Clone, Copy, PartialEq, Eq, Structural)]
pub enum Chipset {
    TU102,
    TU104,
    TU106,
    TU117,
    TU116,
    GA100,
    GA102,
    GA103,
    GA104,
    GA106,
    GA107,
    GH100,
    AD102,
    AD103,
    AD104,
    AD106,
    AD107,
    GB100,
    GB102,
    GB202,
    GB203,
    GB205,
    GB206,
    GB207,
}

impl Chipset {
    /// The number that identifies this chipset: the architecture and the implementation.
    pub open spec fn code(self) -> u32 {
        match self {
            Chipset::TU102 => 0x162,
            Chipset::TU104 => 0x164,
            Chipset::TU106 => 0x166,
            Chipset::TU117 => 0x167,
            Chipset::TU116 => 0x168,
            Chipset::GA100 => 0x170,
            Chipset::GA102 => 0x172,
            Chipset::GA103 => 0x173,
            Chipset::GA104 => 0x174,
            Chipset::GA106 => 0x176,
            Chipset::GA107 => 0x177,
            Chipset::GH100 => 0x180,
            Chipset::AD102 => 0x192,
            Chipset::AD103 => 0x193,
            Chipset::AD104 => 0x194,
            Chipset::AD106 => 0x196,
            Chipset::AD107 => 0x197,
            Chipset::GB100 => 0x1a0,
            Chipset::GB102 => 0x1a2,
            Chipset::GB202 => 0x1b2,
            Chipset::GB203 => 0x1b3,
            Chipset::GB205 => 0x1b5,
            Chipset::GB206 => 0x1b6,
            Chipset::GB207 => 0x1b7,
        }
    }

    /// The chipset that `code` identifies.
    pub open spec fn of_code(code: u32) -> Option<Chipset> {
        if code == 0x162 {
            Some(Chipset::TU102)
        } else if code == 0x164 {
            Some(Chipset::TU104)
        } else if code == 0x166 {
            Some(Chipset::TU106)
        } else if code == 0x167 {
            Some(Chipset::TU117)
        } else if code == 0x168 {
            Some(Chipset::TU116)
        } else if code == 0x170 {
            Some(Chipset::GA100)
        } else if code == 0x172 {
            Some(Chipset::GA102)
        } else if code == 0x173 {
            Some(Chipset::GA103)
        } else if code == 0x174 {
            Some(Chipset::GA104)
        } else if code == 0x176 {
            Some(Chipset::GA106)
        } else if code == 0x177 {
            Some(Chipset::GA107)
        } else if code == 0x180 {
            Some(Chipset::GH100)
        } else if code == 0x192 {
            Some(Chipset::AD102)
        } else if code == 0x193 {
            Some(Chipset::AD103)
        } else if code == 0x194 {
            Some(Chipset::AD104)
        } else if code == 0x196 {
            Some(Chipset::AD106)
        } else if code == 0x197 {
            Some(Chipset::AD107)
        } else if code == 0x1a0 {
            Some(Chipset::GB100)
        } else if code == 0x1a2 {
            Some(Chipset::GB102)
        } else if code == 0x1b2 {
            Some(Chipset::GB202)
        } else if code == 0x1b3 {
            Some(Chipset::GB203)
        } else if code == 0x1b5 {
            Some(Chipset::GB205)
        } else if code == 0x1b6 {
            Some(Chipset::GB206)
        } else if code == 0x1b7 {
            Some(Chipset::GB207)
        } else {
            None
        }
    }

    /// The name of this chipset, in lowercase.
    pub open spec fn spec_name(self) -> Seq<char> {
        match self {
            Chipset::TU102 => "tu102"@,
            Chipset::TU104 => "tu104"@,
            Chipset::TU106 => "tu106"@,
            Chipset::TU117 => "tu117"@,
            Chipset::TU116 => "tu116"@,
            Chipset::GA100 => "ga100"@,
            Chipset::GA102 => "ga102"@,
            Chipset::GA103 => "ga103"@,
            Chipset::GA104 => "ga104"@,
            Chipset::GA106 => "ga106"@,
            Chipset::GA107 => "ga107"@,
            Chipset::GH100 => "gh100"@,
            Chipset::AD102 => "ad102"@,
            Chipset::AD103 => "ad103"@,
            Chipset::AD104 => "ad104"@,
            Chipset::AD106 => "ad106"@,
            Chipset::AD107 => "ad107"@,
            Chipset::GB100 => "gb100"@,
            Chipset::GB102 => "gb102"@,
            Chipset::GB202 => "gb202"@,
            Chipset::GB203 => "gb203"@,
            Chipset::GB205 => "gb205"@,
            Chipset::GB206 => "gb206"@,
            Chipset::GB207 => "gb207"@,
        }
    }

    /// The generation this chipset belongs to.
    pub open spec fn spec_arch(self) -> Architecture {
        match self {
            Chipset::TU102
            | Chipset::TU104
            | Chipset::TU106
            | Chipset::TU117
            | Chipset::TU116 => Architecture::Turing,
            Chipset::GA100
            | Chipset::GA102
            | Chipset::GA103
            | Chipset::GA104
            | Chipset::GA106
            | Chipset::GA107 => Architecture::Ampere,
            Chipset::GH100 => Architecture::Hopper,
            Chipset::AD102
            | Chipset::AD103
            | Chipset::AD104
            | Chipset::AD106
            | Chipset::AD107 => Architecture::Ada,
            Chipset::GB100
            | Chipset::GB102 => Architecture::BlackwellGB10x,
            Chipset::GB202
            | Chipset::GB203
            | Chipset::GB205
            | Chipset::GB206
            | Chipset::GB207 => Architecture::BlackwellGB20x,
        }
    }

    /// All chipsets.
    pub open spec fn spec_all() -> Seq<Chipset> {
        seq![
            Chipset::TU102,
            Chipset::TU104,
            Chipset::TU106,
            Chipset::TU117,
            Chipset::TU116,
            Chipset::GA100,
            Chipset::GA102,
            Chipset::GA103,
            Chipset::GA104,
            Chipset::GA106,
            Chipset::GA107,
            Chipset::GH100,
            Chipset::AD102,
            Chipset::AD103,
            Chipset::AD104,
            Chipset::AD106,
            Chipset::AD107,
            Chipset::GB100,
            Chipset::GB102,
            Chipset::GB202,
            Chipset::GB203,
            Chipset::GB205,
            Chipset::GB206,
            Chipset::GB207,
        ]
    }

    /// Returns all chipsets.
    pub fn all() -> (chipsets: Vec<Chipset>)
        ensures
            chipsets@ == Chipset::spec_all(),
    {
        let chipsets = vec![
            Chipset::TU102,
            Chipset::TU104,
            Chipset::TU106,
            Chipset::TU117,
            Chipset::TU116,
            Chipset::GA100,
            Chipset::GA102,
            Chipset::GA103,
            Chipset::GA104,
            Chipset::GA106,
            Chipset::GA107,
            Chipset::GH100,
            Chipset::AD102,
            Chipset::AD103,
            Chipset::AD104,
            Chipset::AD106,
            Chipset::AD107,
            Chipset::GB100,
            Chipset::GB102,
            Chipset::GB202,
            Chipset::GB203,
            Chipset::GB205,
            Chipset::GB206,
            Chipset::GB207,
        ];
        chipsets
    }

    /// Returns the name of this chipset, in lowercase.
    pub fn name(&self) -> (name: &'static str)
        ensures
            name@ == self.spec_name(),
    {
        match *self {
            Chipset::TU102 => "tu102",
            Chipset::TU104 => "tu104",
            Chipset::TU106 => "tu106",
            Chipset::TU117 => "tu117",
            Chipset::TU116 => "tu116",
            Chipset::GA100 => "ga100",
            Chipset::GA102 => "ga102",
            Chipset::GA103 => "ga103",
            Chipset::GA104 => "ga104",
            Chipset::GA106 => "ga106",
            Chipset::GA107 => "ga107",
            Chipset::GH100 => "gh100",
            Chipset::AD102 => "ad102",
            Chipset::AD103 => "ad103",
            Chipset::AD104 => "ad104",
            Chipset::AD106 => "ad106",
            Chipset::AD107 => "ad107",
            Chipset::GB100 => "gb100",
            Chipset::GB102 => "gb102",
            Chipset::GB202 => "gb202",
            Chipset::GB203 => "gb203",
            Chipset::GB205 => "gb205",
            Chipset::GB206 => "gb206",
            Chipset::GB207 => "gb207",
        }
    }

    /// Returns the chipset that `value` identifies.
    pub fn try_from(value: u32) -> (chipset: Result<Chipset, Error>)
        ensures
            chipset == match Chipset::of_code(value) {
                Some(chipset) => Ok::<Chipset, Error>(chipset),
                None => Err(Error::ENODEV),
            },
    {
        match value {
            0x162 => Ok(Chipset::TU102),
            0x164 => Ok(Chipset::TU104),
            0x166 => Ok(Chipset::TU106),
            0x167 => Ok(Chipset::TU117),
            0x168 => Ok(Chipset::TU116),
            0x170 => Ok(Chipset::GA100),
            0x172 => Ok(Chipset::GA102),
            0x173 => Ok(Chipset::GA103),
            0x174 => Ok(Chipset::GA104),
            0x176 => Ok(Chipset::GA106),
            0x177 => Ok(Chipset::GA107),
            0x180 => Ok(Chipset::GH100),
            0x192 => Ok(Chipset::AD102),
            0x193 => Ok(Chipset::AD103),
            0x194 => Ok(Chipset::AD104),
            0x196 => Ok(Chipset::AD106),
            0x197 => Ok(Chipset::AD107),
            0x1a0 => Ok(Chipset::GB100),
            0x1a2 => Ok(Chipset::GB102),
            0x1b2 => Ok(Chipset::GB202),
            0x1b3 => Ok(Chipset::GB203),
            0x1b5 => Ok(Chipset::GB205),
            0x1b6 => Ok(Chipset::GB206),
            0x1b7 => Ok(Chipset::GB207),
            _ => Err(Error::ENODEV),
        }
    }

    /// Returns the implementation in the generation: the low four bits of the identifying number.
    pub fn implementation(self) -> (implementation: u32)
        ensures
            implementation == self.code() % 16,
    {
        match self {
            Chipset::TU102 => 2,
            Chipset::TU104 => 4,
            Chipset::TU106 => 6,
            Chipset::TU117 => 7,
            Chipset::TU116 => 8,
            Chipset::GA100 => 0,
            Chipset::GA102 => 2,
            Chipset::GA103 => 3,
            Chipset::GA104 => 4,
            Chipset::GA106 => 6,
            Chipset::GA107 => 7,
            Chipset::GH100 => 0,
            Chipset::AD102 => 2,
            Chipset::AD103 => 3,
            Chipset::AD104 => 4,
            Chipset::AD106 => 6,
            Chipset::AD107 => 7,
            Chipset::GB100 => 0,
            Chipset::GB102 => 2,
            Chipset::GB202 => 2,
            Chipset::GB203 => 3,
            Chipset::GB205 => 5,
            Chipset::GB206 => 6,
            Chipset::GB207 => 7,
        }
    }

    /// Returns the generation this chipset belongs to.
    #[verifier::when_used_as_spec(spec_arch)]
    pub fn arch(self) -> (arch: Architecture)
        ensures
            arch == self.arch(),
    {
        match self {
            Chipset::TU102
            | Chipset::TU104
            | Chipset::TU106
            | Chipset::TU117
            | Chipset::TU116 => Architecture::Turing,
            Chipset::GA100
            | Chipset::GA102
            | Chipset::GA103
            | Chipset::GA104
            | Chipset::GA106
            | Chipset::GA107 => Architecture::Ampere,
            Chipset::GH100 => Architecture::Hopper,
            Chipset::AD102
            | Chipset::AD103
            | Chipset::AD104
            | Chipset::AD106
            | Chipset::AD107 => Architecture::Ada,
            Chipset::GB100
            | Chipset::GB102 => Architecture::BlackwellGB10x,
            Chipset::GB202
            | Chipset::GB203
            | Chipset::GB205
            | Chipset::GB206
            | Chipset::GB207 => Architecture::BlackwellGB20x,
        }
    }

    /// Returns the MMU version for this chipset.
    pub fn mmu_version(self) -> (version: MmuVersion)
        ensures
            version == match self.arch() {
                Architecture::Turing | Architecture::Ampere | Architecture::Ada => MmuVersion::V2,
                _ => MmuVersion::V3,
            },
    {
        MmuVersion::from(self.arch())
    }
}

/// Enum representation of the GPU generation.
#[derive(Debug, Clone, Copy, PartialEq, Eq, Structural)]
pub enum Architecture {
    Turing,
    Ampere,
    Hopper,
    Ada,
    BlackwellGB10x,
    BlackwellGB20x,
}

impl Architecture {
    /// The number that identifies this generation.
    pub open spec fn code(self) -> u32 {
        match self {
            Architecture::Turing => 0x16,
            Architecture::Ampere => 0x17,
            Architecture::Hopper => 0x18,
            Architecture::Ada => 0x19,
            Architecture::BlackwellGB10x => 0x1a,
            Architecture::BlackwellGB20x => 0x1b,
        }
    }

    /// The generation that `code` identifies.
    pub open spec fn of_code(code: u32) -> Option<Architecture> {
        if code == 0x16 {
            Some(Architecture::Turing)
        } else if code == 0x17 {
            Some(Architecture::Ampere)
        } else if code == 0x18 {
            Some(Architecture::Hopper)
        } else if code == 0x19 {
            Some(Architecture::Ada)
        } else if code == 0x1a {
            Some(Architecture::BlackwellGB10x)
        } else if code == 0x1b {
            Some(Architecture::BlackwellGB20x)
        } else {
            None
        }
    }

    /// Returns the generation that `value` identifies.
    pub fn try_from(value: u32) -> (arch: Result<Architecture, Error>)
        ensures
            arch == match Architecture::of_code(value) {
                Some(arch) => Ok::<Architecture, Error>(arch),
                None => Err(Error::EINVAL),
            },
    {
        match value {
            0x16 => Ok(Architecture::Turing),
            0x17 => Ok(Architecture::Ampere),
            0x18 => Ok(Architecture::Hopper),
            0x19 => Ok(Architecture::Ada),
            0x1a => Ok(Architecture::BlackwellGB10x),
            0x1b => Ok(Architecture::BlackwellGB20x),
            _ => Err(Error::EINVAL),
        }
    }

    /// Returns the number that identifies this generation.
    pub fn into_raw(self) -> (code: u32)
        ensures
            code == self.code(),
    {
        match self {
            Architecture::Turing => 0x16,
            Architecture::Ampere => 0x17,
            Architecture::Hopper => 0x18,
            Architecture::Ada => 0x19,
            Architecture::BlackwellGB10x => 0x1a,
            Architecture::BlackwellGB20x => 0x1b,
        }
    }
}

/// The list of all chipsets holds each of them, once.
pub proof fn law_all_chipsets_listed(chipset: Chipset)
    ensures
        Chipset::spec_all().contains(chipset),
        Chipset::spec_all().no_duplicates(),
{
    let all = Chipset::spec_all();
    assert(all[0] == Chipset::TU102);
    assert(all[1] == Chipset::TU104);
    assert(all[2] == Chipset::TU106);
    assert(all[3] == Chipset::TU117);
    assert(all[4] == Chipset::TU116);
    assert(all[5] == Chipset::GA100);
    assert(all[6] == Chipset::GA102);
    assert(all[7] == Chipset::GA103);
    assert(all[8] == Chipset::GA104);
    assert(all[9] == Chipset::GA106);
    assert(all[10] == Chipset::GA107);
    assert(all[11] == Chipset::GH100);
    assert(all[12] == Chipset::AD102);
    assert(all[13] == Chipset::AD103);
    assert(all[14] == Chipset::AD104);
    assert(all[15] == Chipset::AD106);
    assert(all[16] == Chipset::AD107);
    assert(all[17] == Chipset::GB100);
    assert(all[18] == Chipset::GB102);
    assert(all[19] == Chipset::GB202);
    assert(all[20] == Chipset::GB203);
    assert(all[21] == Chipset::GB205);
    assert(all[22] == Chipset::GB206);
    assert(all[23] == Chipset::GB207);
}

/// Every chipset is the one that its number identifies, and its number holds the number of its
/// generation above the four bits of the implementation.
pub proof fn law_chipset_codes(chipset: Chipset)
    ensures
        Chipset::of_code(chipset.code()) == Some(chipset),
        chipset.code() / 16 == chipset.arch().code(),
{
}

/// The revision of a GPU, two four-bit numbers.
#[derive(Debug, Clone, Copy, PartialEq, Eq, Structural)]
pub struct Revision {
    pub major: u8,
    pub minor: u8,
}

/// Structure holding a basic description of the GPU: `Chipset` and `Revision`.
#[derive(Debug, Clone, Copy, PartialEq, Eq, Structural)]
pub struct Spec {
    pub chipset: Chipset,
    pub revision: Revision,
}

/// What the two boot registers identify the GPU as.
///
/// `boot0` tells GPUs older than Fermi apart, on which `boot42` may not exist. From Fermi on
/// `boot42` identifies the GPU.
pub open spec fn identified(boot0: NV_PMC_BOOT_0, boot42: NV_PMC_BOOT_42) -> Result<Spec, Error> {
    if boot0.older_than_fermi() {
        Err(Error::ENODEV)
    } else {
        match boot42.spec_chipset() {
            Ok(chipset) => Ok(Spec { chipset, revision: boot42.spec_revision() }),
            Err(error) => Err(error),
        }
    }
}

impl Spec {
    /// Identifies the GPU by its boot registers. The second one counts
    /// only if the first one does not rule the GPU out.
    pub fn new(boot0: NV_PMC_BOOT_0, boot42: NV_PMC_BOOT_42) -> (spec: Result<Spec, Error>)
        ensures
            spec == identified(boot0, boot42),
    {
        if boot0.is_older_than_fermi() {
            return Err(Error::ENODEV);
        }
        Spec::try_from(boot42)
    }

    /// Identifies the GPU by the second boot register alone.
    pub fn try_from(boot42: NV_PMC_BOOT_42) -> (spec: Result<Spec, Error>)
        ensures
            spec == match boot42.spec_chipset() {
                Ok(chipset) => Ok::<Spec, Error>(
                    (Spec { chipset, revision: boot42.spec_revision() }),
                ),
                Err(error) => Err(error),
            },
    {
        match boot42.chipset() {
            Ok(chipset) => Ok(Spec { chipset, revision: boot42.revision() }),
            Err(error) => Err(error),
        }
    }
}

/// The numbers of the chipsets: the generation in the upper digits, the implementation in the lowest.
pub proof fn law_chipset_numbers(code: u32)
    ensures
        Chipset::TU102.code() == 0x162,
        Chipset::TU104.code() == 0x164,
        Chipset::TU106.code() == 0x166,
        Chipset::TU117.code() == 0x167,
        Chipset::TU116.code() == 0x168,
        Chipset::GA100.code() == 0x170,
        Chipset::GA102.code() == 0x172,
        Chipset::GA103.code() == 0x173,
        Chipset::GA104.code() == 0x174,
        Chipset::GA106.code() == 0x176,
        Chipset::GA107.code() == 0x177,
        Chipset::GH100.code() == 0x180,
        Chipset::AD102.code() == 0x192,
        Chipset::AD103.code() == 0x193,
        Chipset::AD104.code() == 0x194,
        Chipset::AD106.code() == 0x196,
        Chipset::AD107.code() == 0x197,
        Chipset::GB100.code() == 0x1a0,
        Chipset::GB102.code() == 0x1a2,
        Chipset::GB202.code() == 0x1b2,
        Chipset::GB203.code() == 0x1b3,
        Chipset::GB205.code() == 0x1b5,
        Chipset::GB206.code() == 0x1b6,
        Chipset::GB207.code() == 0x1b7,
        Chipset::of_code(code) matches Some(chipset) ==> chipset.code() == code,
{
}

/// The names of the chipsets.
pub proof fn law_chipset_names()
    ensures
        Chipset::TU102.spec_name() == "tu102"@,
        Chipset::TU104.spec_name() == "tu104"@,
        Chipset::TU106.spec_name() == "tu106"@,
        Chipset::TU117.spec_name() == "tu117"@,
        Chipset::TU116.spec_name() == "tu116"@,
        Chipset::GA100.spec_name() == "ga100"@,
        Chipset::GA102.spec_name() == "ga102"@,
        Chipset::GA103.spec_name() == "ga103"@,
        Chipset::GA104.spec_name() == "ga104"@,
        Chipset::GA106.spec_name() == "ga106"@,
        Chipset::GA107.spec_name() == "ga107"@,
        Chipset::GH100.spec_name() == "gh100"@,
        Chipset::AD102.spec_name() == "ad102"@,
        Chipset::AD103.spec_name() == "ad103"@,
        Chipset::AD104.spec_name() == "ad104"@,
        Chipset::AD106.spec_name() == "ad106"@,
        Chipset::AD107.spec_name() == "ad107"@,
        Chipset::GB100.spec_name() == "gb100"@,
        Chipset::GB102.spec_name() == "gb102"@,
        Chipset::GB202.spec_name() == "gb202"@,
        Chipset::GB203.spec_name() == "gb203"@,
        Chipset::GB205.spec_name() == "gb205"@,
        Chipset::GB206.spec_name() == "gb206"@,
        Chipset::GB207.spec_name() == "gb207"@,
{
}

/// The numbers of the generations, and no others, identify them.
pub proof fn law_architecture_numbers(code: u32)
    ensures
        Architecture::Turing.code() == 0x16,
        Architecture::Ampere.code() == 0x17,
        Architecture::Hopper.code() == 0x18,
        Architecture::Ada.code() == 0x19,
        Architecture::BlackwellGB10x.code() == 0x1a,
        Architecture::BlackwellGB20x.code() == 0x1b,
        Architecture::of_code(code) is Some <==> 0x16 <= code <= 0x1b,
        Architecture::of_code(code) matches Some(arch) ==> arch.code() == code,
{
}

/// The generation of a chipset is the one whose number its own number starts with.
pub proof fn law_generation_of_chipset(chipset: Chipset)
    ensures
        chipset.spec_arch().code() == chipset.code() / 16,
{
}

/// The chipsets are listed in the order of their numbers, and there are 24 of them.
pub proof fn law_chipsets_in_order(i: int, j: int)
    requires
        0 <= i < j < 24,
    ensures
        Chipset::spec_all().len() == 24,
        Chipset::spec_all()[i].code() < Chipset::spec_all()[j].code(),
{
}

/// A GPU is identified by its second boot register, the ten bits from bit 20 on of which are the
/// number of its chipset, unless the first one says that it is older than Fermi.
pub proof fn law_identified(boot0: NV_PMC_BOOT_0, boot42: NV_PMC_BOOT_42)
    ensures
        match identified(boot0, boot42) {
            Ok(spec) => {
                &&& boot0.raw / 0x100 % 2 == 1 || boot0.raw / 0x100_0000 % 0x20 >= 12
                &&& spec.chipset.code() == boot42.raw / 0x10_0000 % 0x400
                &&& spec.revision.major == boot42.raw / 0x1_0000 % 0x10
                &&& spec.revision.minor == boot42.raw / 0x1000 % 0x10
            },
            Err(error) => (error == Error::ENODEV && boot0.raw / 0x100 % 2 == 0 && boot0.raw
                / 0x100_0000 % 0x20 < 12) || Chipset::of_code(
                (boot42.raw / 0x10_0000 % 0x400) as u32,
            ) is None,
        },
{
    crate::regs::law_older_than_fermi(boot0);
    crate::regs::law_chipset_of_register(boot42);
    crate::regs::law_revision_of_register(boot42);
}

} // verus!
