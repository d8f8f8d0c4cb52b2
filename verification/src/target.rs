//! A plain description of the compilation target, as far as calling
//! conventions care about it: the processor architecture and the operating
//! system family.
//!
//! The library never asks the build which target it is on; callers describe
//! the target of interest as a value, and conventions are resolved against
//! that value.

use vstd::prelude::*;

verus! {

/// The processor architectures that influence which calling conventions
/// exist and what the alias conventions resolve to.
#[derive(Clone, Copy, Debug, PartialEq, Eq, Structural)]
pub enum TargetArch {
    /// 32-bit x86.
    X86,
    /// 64-bit x86.
    X86_64,
    /// 32-bit ARM.
    Arm,
    /// 64-bit ARM.
    Aarch64,
    /// Any other architecture.
    Other,
}

/// The operating-system families that influence convention resolution.
#[derive(Clone, Copy, Debug, PartialEq, Eq, Structural)]
pub enum TargetOs {
    /// Windows.
    Windows,
    /// The free-standing embedded system on which the platform convention
    /// of 32-bit ARM differs.
    Vexos,
    /// Any other operating system.
    Other,
}

/// A compilation target: an architecture together with an operating system.
#[derive(Clone, Copy, Debug, PartialEq, Eq, Structural)]
pub struct Target {
    /// The processor architecture.
    pub arch: TargetArch,
    /// The operating-system family.
    pub os: TargetOs,
}

impl Target {
    /// Whether the architecture is ARM, either 32-bit or 64-bit.
    pub open spec fn arm_any_spec(self) -> bool {
        self.arch == TargetArch::Arm || self.arch == TargetArch::Aarch64
    }

    /// Builds a target from its two components.
    pub fn new(arch: TargetArch, os: TargetOs) -> (t: Target)
        ensures
            t.arch == arch,
            t.os == os,
    {
        Target { arch, os }
    }
}

} // verus!
