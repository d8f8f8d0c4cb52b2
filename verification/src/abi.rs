//! The coarse calling-convention kind: ten conventions without the unwind
//! axis, with alias resolution against a target and a small integer key for
//! use where a plain number has to stand for a convention.

use crate::strcmp::eq_str;
use crate::target::{Target, TargetArch, TargetOs};
use vstd::prelude::*;

verus! {

/// A calling-convention kind, without the unwind axis.
///
/// `C` and `System` are aliases: which concrete convention they name
/// depends on the target, and `concrete` resolves them.
#[derive(Clone, Copy, Debug, PartialEq, Eq, Hash, Structural)]
pub enum Abi {
    /// The default kind of a plain `fn` type.
    Rust,
    /// Whatever the platform's C toolchain uses; an alias.
    C,
    /// What the platform's own API uses; an alias.
    System,
    /// The default for C code on 64-bit x86 Windows.
    Win64,
    /// The default for C code on non-Windows 64-bit x86.
    Sysv64,
    /// The default for ARM.
    Aapcs,
    /// The default for 32-bit x86 C code.
    Cdecl,
    /// The Win32 API convention on 32-bit x86.
    Stdcall,
    /// The `fastcall` convention.
    Fastcall,
    /// The `vectorcall` convention.
    Vectorcall,
}

impl Abi {
    /// The canonical token of this kind.
    pub open spec fn token_spec(self) -> Seq<char> {
        match self {
            Abi::Rust => "Rust"@,
            Abi::C => "C"@,
            Abi::System => "system"@,
            Abi::Win64 => "win64"@,
            Abi::Sysv64 => "sysv64"@,
            Abi::Aapcs => "aapcs"@,
            Abi::Cdecl => "cdecl"@,
            Abi::Stdcall => "stdcall"@,
            Abi::Fastcall => "fastcall"@,
            Abi::Vectorcall => "vectorcall"@,
        }
    }

    /// Returns the canonical token of this kind.
    pub fn to_str(&self) -> (r: &'static str)
        ensures
            r@ == self.token_spec(),
    {
        match *self {
            Abi::Rust => "Rust",
            Abi::C => "C",
            Abi::System => "system",
            Abi::Win64 => "win64",
            Abi::Sysv64 => "sysv64",
            Abi::Aapcs => "aapcs",
            Abi::Cdecl => "cdecl",
            Abi::Stdcall => "stdcall",
            Abi::Fastcall => "fastcall",
            Abi::Vectorcall => "vectorcall",
        }
    }

    /// Whether this kind stands for a target-dependent family rather than
    /// one concrete convention.
    pub open spec fn is_alias_spec(self) -> bool {
        self == Abi::C || self == Abi::System
    }

    /// Returns true exactly for the two alias kinds, `C` and `System`.
    pub fn is_alias(&self) -> (b: bool)
        ensures
            b == self.is_alias_spec(),
    {
        matches!(*self, Abi::C | Abi::System)
    }

    /// Returns true for every kind that names one concrete convention.
    pub fn is_concrete(&self) -> (b: bool)
        ensures
            b == !self.is_alias_spec(),
    {
        !self.is_alias()
    }

    /// The concrete kind that the given target uses for this kind: the two
    /// aliases resolve to the target's platform convention, every other
    /// kind stays as it is.
    pub open spec fn concrete_spec(self, t: Target) -> Abi {
        match self {
            Abi::C => if t.os == TargetOs::Windows && t.arch == TargetArch::X86_64 {
                Abi::Win64
            } else if t.arch == TargetArch::X86_64 {
                Abi::Sysv64
            } else if t.arch == TargetArch::X86 {
                Abi::Cdecl
            } else if t.arm_any_spec() {
                Abi::Aapcs
            } else {
                Abi::Cdecl
            },
            Abi::System => if t.os == TargetOs::Windows && t.arch == TargetArch::X86_64 {
                Abi::Win64
            } else if t.os == TargetOs::Windows && t.arch == TargetArch::X86 {
                Abi::Stdcall
            } else if t.arch == TargetArch::X86_64 {
                Abi::Sysv64
            } else if t.arch == TargetArch::X86 {
                Abi::Cdecl
            } else if t.arm_any_spec() {
                Abi::Aapcs
            } else {
                Abi::Cdecl
            },
            other => other,
        }
    }

    /// Returns the concrete kind for this kind on the given target. The
    /// result is never an alias.
    pub fn concrete(&self, t: Target) -> (r: Abi)
        ensures
            r == self.concrete_spec(t),
            !r.is_alias_spec(),
    {
        match *self {
            Abi::C => {
                if matches!(t.os, TargetOs::Windows) && matches!(t.arch, TargetArch::X86_64) {
                    Abi::Win64
                } else if matches!(t.arch, TargetArch::X86_64) {
                    Abi::Sysv64
                } else if matches!(t.arch, TargetArch::X86) {
                    Abi::Cdecl
                } else if matches!(t.arch, TargetArch::Arm) || matches!(
                    t.arch,
                    TargetArch::Aarch64,
                ) {
                    Abi::Aapcs
                } else {
                    Abi::Cdecl
                }
            },
            Abi::System => {
                if matches!(t.os, TargetOs::Windows) && matches!(t.arch, TargetArch::X86_64) {
                    Abi::Win64
                } else if matches!(t.os, TargetOs::Windows) && matches!(t.arch, TargetArch::X86) {
                    Abi::Stdcall
                } else if matches!(t.arch, TargetArch::X86_64) {
                    Abi::Sysv64
                } else if matches!(t.arch, TargetArch::X86) {
                    Abi::Cdecl
                } else if matches!(t.arch, TargetArch::Arm) || matches!(
                    t.arch,
                    TargetArch::Aarch64,
                ) {
                    Abi::Aapcs
                } else {
                    Abi::Cdecl
                }
            },
            other => other,
        }
    }
}

/// What `parse` returns: the kind whose canonical token equals the input,
/// with the empty string kept as an alias for `Rust`, and `None` for every
/// other input.
pub open spec fn parse_spec(s: Seq<char>) -> Option<Abi> {
    if s == ""@ {
        Some(Abi::Rust)
    } else if s == Abi::Rust.token_spec() {
        Some(Abi::Rust)
    } else if s == Abi::C.token_spec() {
        Some(Abi::C)
    } else if s == Abi::System.token_spec() {
        Some(Abi::System)
    } else if s == Abi::Win64.token_spec() {
        Some(Abi::Win64)
    } else if s == Abi::Sysv64.token_spec() {
        Some(Abi::Sysv64)
    } else if s == Abi::Aapcs.token_spec() {
        Some(Abi::Aapcs)
    } else if s == Abi::Cdecl.token_spec() {
        Some(Abi::Cdecl)
    } else if s == Abi::Stdcall.token_spec() {
        Some(Abi::Stdcall)
    } else if s == Abi::Fastcall.token_spec() {
        Some(Abi::Fastcall)
    } else if s == Abi::Vectorcall.token_spec() {
        Some(Abi::Vectorcall)
    } else {
        None
    }
}

/// Parse a token into the kind it names, or `None` when the token is
/// unknown. The empty string parses as `Rust`.
pub fn parse(s: &str) -> (r: Option<Abi>)
    ensures
        r == parse_spec(s@),
{
    if eq_str(s, "") || eq_str(s, "Rust") {
        Some(Abi::Rust)
    } else if eq_str(s, "C") {
        Some(Abi::C)
    } else if eq_str(s, "system") {
        Some(Abi::System)
    } else if eq_str(s, "win64") {
        Some(Abi::Win64)
    } else if eq_str(s, "sysv64") {
        Some(Abi::Sysv64)
    } else if eq_str(s, "aapcs") {
        Some(Abi::Aapcs)
    } else if eq_str(s, "cdecl") {
        Some(Abi::Cdecl)
    } else if eq_str(s, "stdcall") {
        Some(Abi::Stdcall)
    } else if eq_str(s, "fastcall") {
        Some(Abi::Fastcall)
    } else if eq_str(s, "vectorcall") {
        Some(Abi::Vectorcall)
    } else {
        None
    }
}

/// The value that stands for the given kind where a plain number is
/// needed, following the declaration order of the kinds.
pub open spec fn key_spec(abi: Abi) -> u8 {
    match abi {
        Abi::Rust => 0,
        Abi::C => 1,
        Abi::System => 2,
        Abi::Win64 => 3,
        Abi::Sysv64 => 4,
        Abi::Aapcs => 5,
        Abi::Cdecl => 6,
        Abi::Stdcall => 7,
        Abi::Fastcall => 8,
        Abi::Vectorcall => 9,
    }
}

/// Returns the number that designates the given kind.
pub fn key(abi: Abi) -> (k: u8)
    ensures
        k == key_spec(abi),
{
    match abi {
        Abi::Rust => 0,
        Abi::C => 1,
        Abi::System => 2,
        Abi::Win64 => 3,
        Abi::Sysv64 => 4,
        Abi::Aapcs => 5,
        Abi::Cdecl => 6,
        Abi::Stdcall => 7,
        Abi::Fastcall => 8,
        Abi::Vectorcall => 9,
    }
}

/// Two kinds with the same key are the same kind.
pub proof fn lemma_key_injective(a: Abi, b: Abi)
    requires
        key_spec(a) == key_spec(b),
    ensures
        a == b,
{
}

/// Resolving twice is the same as resolving once: the kind a target
/// resolves an alias to is already concrete, and a concrete kind resolves
/// to itself.
pub proof fn lemma_concrete_idempotent(a: Abi, t: Target)
    ensures
        a.concrete_spec(t).concrete_spec(t) == a.concrete_spec(t),
        !a.concrete_spec(t).is_alias_spec(),
{
}

/// Every kind's canonical token parses back to exactly that kind.
pub proof fn lemma_parse_round_trip(a: Abi)
    ensures
        parse_spec(a.token_spec()) == Some(a),
{
    reveal_strlit("");
    reveal_strlit("Rust");
    reveal_strlit("C");
    reveal_strlit("system");
    reveal_strlit("win64");
    reveal_strlit("sysv64");
    reveal_strlit("aapcs");
    reveal_strlit("cdecl");
    reveal_strlit("stdcall");
    reveal_strlit("fastcall");
    reveal_strlit("vectorcall");
    assert(""@.len() == 0);
    assert("Rust"@.len() == 4);
    assert("C"@.len() == 1);
    assert("system"@.len() == 6);
    assert("win64"@.len() == 5);
    assert("sysv64"@.len() == 6);
    assert("aapcs"@.len() == 5);
    assert("cdecl"@.len() == 5);
    assert("stdcall"@.len() == 7);
    assert("fastcall"@.len() == 8);
    assert("vectorcall"@.len() == 10);
    assert("system"@[3] != "sysv64"@[3]);
    assert("win64"@[0] != "aapcs"@[0]);
    assert("win64"@[0] != "cdecl"@[0]);
    assert("aapcs"@[0] != "cdecl"@[0]);
}

} // verus!
