//! Processor architectures for the host and the target of a build.

use vstd::prelude::*;

verus! {

/// A processor architecture, as the toolchain's directory names spell it.
#[derive(Debug, Clone, Copy, PartialEq, Eq, Structural)]
pub enum Arch {
    X64,
    X86,
    Arm64,
}

/// The directory-name form of an architecture.
pub open spec fn arch_name(a: Arch) -> Seq<char> {
    match a {
        Arch::X64 => seq!['x', '6', '4'],
        Arch::X86 => seq!['x', '8', '6'],
        Arch::Arm64 => seq!['a', 'r', 'm', '6', '4'],
    }
}

/// The toolset's binary directory for compilers that run on `a`.
pub open spec fn host_dir_name(a: Arch) -> Seq<char> {
    seq!['H', 'o', 's', 't'] + arch_name(a)
}

impl Arch {
    pub fn as_str(&self) -> (r: &'static str)
        ensures
            r@ == arch_name(*self),
    {
        match self {
            Arch::X64 => {
                proof { reveal_strlit("x64"); }
                "x64"
            },
            Arch::X86 => {
                proof { reveal_strlit("x86"); }
                "x86"
            },
            Arch::Arm64 => {
                proof { reveal_strlit("arm64"); }
                "arm64"
            },
        }
    }

    /// Name of the toolset's `bin` subdirectory for compilers running on this architecture.
    pub fn host_dir(&self) -> (r: &'static str)
        ensures
            r@ == host_dir_name(*self),
    {
        match self {
            Arch::X64 => {
                proof { reveal_strlit("Hostx64"); }
                "Hostx64"
            },
            Arch::X86 => {
                proof { reveal_strlit("Hostx86"); }
                "Hostx86"
            },
            Arch::Arm64 => {
                proof { reveal_strlit("Hostarm64"); }
                "Hostarm64"
            },
        }
    }
}

} // verus!
