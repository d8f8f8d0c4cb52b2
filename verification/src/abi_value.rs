//! The runtime descriptor of a calling convention: a closed enumeration of
//! the conventions a function-pointer type can name, each `*-unwind` form
//! carried as a boolean payload on its base variant, together with the
//! canonical token of each value, parsing, the unwind-permission predicate
//! and resolution against a target.

use crate::strcmp::eq_str;
use crate::target::{Target, TargetArch, TargetOs};
use vstd::prelude::*;

verus! {

/// A calling convention together with its unwind permission.
///
/// `Rust` has no payload: Rust-to-Rust calls always permit unwinding.
/// Every other variant carries `unwind: true` exactly for its `*-unwind`
/// spelling, which makes 21 values in all.
#[derive(Clone, Copy, Debug, PartialEq, Eq, Hash, Structural)]
pub enum AbiValue {
    /// The convention of the platform's C toolchain.
    C { unwind: bool },
    /// The convention used to link against the platform's own API.
    System { unwind: bool },
    /// The default convention of a plain `fn` type.
    Rust,
    /// The default convention on ARM targets.
    Aapcs { unwind: bool },
    /// The default for 32-bit x86 C code.
    Cdecl { unwind: bool },
    /// The Win32 API convention on 32-bit x86.
    Stdcall { unwind: bool },
    /// The `fastcall` convention.
    Fastcall { unwind: bool },
    /// The Windows C++ member-function convention.
    Thiscall { unwind: bool },
    /// The `vectorcall` convention.
    Vectorcall { unwind: bool },
    /// The default for C code on non-Windows 64-bit x86.
    SysV64 { unwind: bool },
    /// The default for C code on 64-bit x86 Windows.
    Win64 { unwind: bool },
}

impl AbiValue {
    /// The canonical token of this value: the base name, with `-unwind`
    /// appended when the unwind payload is set.
    pub open spec fn token_spec(self) -> Seq<char> {
        match self {
            AbiValue::Rust => "Rust"@,
            AbiValue::C { unwind } => if unwind { "C-unwind"@ } else { "C"@ },
            AbiValue::System { unwind } => if unwind { "system-unwind"@ } else { "system"@ },
            AbiValue::Aapcs { unwind } => if unwind { "aapcs-unwind"@ } else { "aapcs"@ },
            AbiValue::Cdecl { unwind } => if unwind { "cdecl-unwind"@ } else { "cdecl"@ },
            AbiValue::Stdcall { unwind } => if unwind { "stdcall-unwind"@ } else { "stdcall"@ },
            AbiValue::Fastcall { unwind } => if unwind { "fastcall-unwind"@ } else { "fastcall"@ },
            AbiValue::Thiscall { unwind } => if unwind { "thiscall-unwind"@ } else { "thiscall"@ },
            AbiValue::Vectorcall { unwind } => if unwind {
                "vectorcall-unwind"@
            } else {
                "vectorcall"@
            },
            AbiValue::SysV64 { unwind } => if unwind { "sysv64-unwind"@ } else { "sysv64"@ },
            AbiValue::Win64 { unwind } => if unwind { "win64-unwind"@ } else { "win64"@ },
        }
    }

    /// Returns the canonical token of this value.
    pub fn to_str(&self) -> (r: &'static str)
        ensures
            r@ == self.token_spec(),
    {
        match *self {
            AbiValue::Rust => "Rust",
            AbiValue::C { unwind: false } => "C",
            AbiValue::C { unwind: true } => "C-unwind",
            AbiValue::System { unwind: false } => "system",
            AbiValue::System { unwind: true } => "system-unwind",
            AbiValue::Aapcs { unwind: false } => "aapcs",
            AbiValue::Aapcs { unwind: true } => "aapcs-unwind",
            AbiValue::Cdecl { unwind: false } => "cdecl",
            AbiValue::Cdecl { unwind: true } => "cdecl-unwind",
            AbiValue::Stdcall { unwind: false } => "stdcall",
            AbiValue::Stdcall { unwind: true } => "stdcall-unwind",
            AbiValue::Fastcall { unwind: false } => "fastcall",
            AbiValue::Fastcall { unwind: true } => "fastcall-unwind",
            AbiValue::Thiscall { unwind: false } => "thiscall",
            AbiValue::Thiscall { unwind: true } => "thiscall-unwind",
            AbiValue::Vectorcall { unwind: false } => "vectorcall",
            AbiValue::Vectorcall { unwind: true } => "vectorcall-unwind",
            AbiValue::SysV64 { unwind: false } => "sysv64",
            AbiValue::SysV64 { unwind: true } => "sysv64-unwind",
            AbiValue::Win64 { unwind: false } => "win64",
            AbiValue::Win64 { unwind: true } => "win64-unwind",
        }
    }

    /// Whether unwinding out of the called function is permitted.
    pub open spec fn allows_unwind_spec(self) -> bool {
        match self {
            AbiValue::Rust => true,
            AbiValue::C { unwind } => unwind,
            AbiValue::System { unwind } => unwind,
            AbiValue::Aapcs { unwind } => unwind,
            AbiValue::Cdecl { unwind } => unwind,
            AbiValue::Stdcall { unwind } => unwind,
            AbiValue::Fastcall { unwind } => unwind,
            AbiValue::Thiscall { unwind } => unwind,
            AbiValue::Vectorcall { unwind } => unwind,
            AbiValue::SysV64 { unwind } => unwind,
            AbiValue::Win64 { unwind } => unwind,
        }
    }

    /// Returns whether unwinding after a panic is allowed inside the called
    /// function: `true` for `Rust`, otherwise the variant's own payload.
    pub fn allows_unwind(&self) -> (b: bool)
        ensures
            b == self.allows_unwind_spec(),
    {
        match *self {
            AbiValue::Rust => true,
            AbiValue::C { unwind }
            | AbiValue::System { unwind }
            | AbiValue::Aapcs { unwind }
            | AbiValue::Cdecl { unwind }
            | AbiValue::Stdcall { unwind }
            | AbiValue::Fastcall { unwind }
            | AbiValue::Thiscall { unwind }
            | AbiValue::Vectorcall { unwind }
            | AbiValue::SysV64 { unwind }
            | AbiValue::Win64 { unwind } => unwind,
        }
    }

    /// The value that the given target actually uses for this convention:
    /// alias conventions resolve to the concrete convention of that target,
    /// supported concrete conventions stay as they are, and conventions the
    /// target does not have resolve to `None`. The unwind payload is always
    /// kept.
    pub open spec fn canonize_spec(self, t: Target, has_c_varargs: bool) -> Option<AbiValue> {
        match self {
            AbiValue::C { unwind } => Some(AbiValue::C { unwind }),
            AbiValue::Rust => Some(AbiValue::Rust),
            AbiValue::System { unwind } => if t.arch == TargetArch::X86 && t.os
                == TargetOs::Windows && !has_c_varargs {
                Some(AbiValue::Stdcall { unwind })
            } else if t.arch == TargetArch::Arm && t.os == TargetOs::Vexos {
                Some(AbiValue::Aapcs { unwind })
            } else {
                Some(AbiValue::C { unwind })
            },
            AbiValue::Aapcs { unwind } => if t.arm_any_spec() {
                Some(AbiValue::Aapcs { unwind })
            } else {
                None
            },
            AbiValue::Cdecl { unwind } => Some(AbiValue::C { unwind }),
            AbiValue::Fastcall { unwind } => if t.arch == TargetArch::X86 {
                Some(AbiValue::Fastcall { unwind })
            } else if t.os == TargetOs::Windows {
                Some(AbiValue::C { unwind })
            } else {
                None
            },
            AbiValue::Stdcall { unwind } => if t.arch == TargetArch::X86 {
                Some(AbiValue::Stdcall { unwind })
            } else if t.os == TargetOs::Windows {
                Some(AbiValue::C { unwind })
            } else {
                None
            },
            AbiValue::Thiscall { unwind } => if t.arch == TargetArch::X86 {
                Some(AbiValue::Thiscall { unwind })
            } else {
                None
            },
            AbiValue::Vectorcall { unwind } => if t.arch == TargetArch::X86 || t.arch
                == TargetArch::X86_64 {
                Some(AbiValue::Vectorcall { unwind })
            } else {
                None
            },
            AbiValue::SysV64 { unwind } => if t.arch == TargetArch::X86_64 {
                Some(AbiValue::SysV64 { unwind })
            } else {
                None
            },
            AbiValue::Win64 { unwind } => if t.arch == TargetArch::X86_64 {
                Some(AbiValue::Win64 { unwind })
            } else {
                None
            },
        }
    }

    /// Canonicalize this convention for the given target.
    ///
    /// Maps aliases (`system`, `cdecl`, and the x86 conventions when called
    /// for on Windows) to the concrete convention that target uses, and
    /// returns `None` when the target does not support this convention.
    pub fn canonize(self, t: Target, has_c_varargs: bool) -> (r: Option<AbiValue>)
        ensures
            r == self.canonize_spec(t, has_c_varargs),
    {
        match self {
            AbiValue::C { unwind } => Some(AbiValue::C { unwind }),
            AbiValue::Rust => Some(AbiValue::Rust),
            AbiValue::System { unwind } => {
                if matches!(t.arch, TargetArch::X86) && matches!(t.os, TargetOs::Windows)
                    && !has_c_varargs {
                    Some(AbiValue::Stdcall { unwind })
                } else if matches!(t.arch, TargetArch::Arm) && matches!(t.os, TargetOs::Vexos) {
                    Some(AbiValue::Aapcs { unwind })
                } else {
                    Some(AbiValue::C { unwind })
                }
            },
            AbiValue::Aapcs { unwind } => {
                if matches!(t.arch, TargetArch::Arm) || matches!(t.arch, TargetArch::Aarch64) {
                    Some(AbiValue::Aapcs { unwind })
                } else {
                    None
                }
            },
            AbiValue::Cdecl { unwind } => Some(AbiValue::C { unwind }),
            AbiValue::Fastcall { unwind } => {
                if matches!(t.arch, TargetArch::X86) {
                    Some(AbiValue::Fastcall { unwind })
                } else if matches!(t.os, TargetOs::Windows) {
                    Some(AbiValue::C { unwind })
                } else {
                    None
                }
            },
            AbiValue::Stdcall { unwind } => {
                if matches!(t.arch, TargetArch::X86) {
                    Some(AbiValue::Stdcall { unwind })
                } else if matches!(t.os, TargetOs::Windows) {
                    Some(AbiValue::C { unwind })
                } else {
                    None
                }
            },
            AbiValue::Thiscall { unwind } => {
                if matches!(t.arch, TargetArch::X86) {
                    Some(AbiValue::Thiscall { unwind })
                } else {
                    None
                }
            },
            AbiValue::Vectorcall { unwind } => {
                if matches!(t.arch, TargetArch::X86) || matches!(t.arch, TargetArch::X86_64) {
                    Some(AbiValue::Vectorcall { unwind })
                } else {
                    None
                }
            },
            AbiValue::SysV64 { unwind } => {
                if matches!(t.arch, TargetArch::X86_64) {
                    Some(AbiValue::SysV64 { unwind })
                } else {
                    None
                }
            },
            AbiValue::Win64 { unwind } => {
                if matches!(t.arch, TargetArch::X86_64) {
                    Some(AbiValue::Win64 { unwind })
                } else {
                    None
                }
            },
        }
    }
}

/// What `parse` returns: the value whose canonical token equals the input,
/// with the empty string kept as an alias for `Rust`, and `None` for every
/// other input.
pub open spec fn parse_spec(s: Seq<char>) -> Option<AbiValue> {
    if s == ""@ {
        Some(AbiValue::Rust)
    } else if s == AbiValue::Rust.token_spec() {
        Some(AbiValue::Rust)
    } else if s == (AbiValue::C { unwind: false }).token_spec() {
        Some(AbiValue::C { unwind: false })
    } else if s == (AbiValue::C { unwind: true }).token_spec() {
        Some(AbiValue::C { unwind: true })
    } else if s == (AbiValue::System { unwind: false }).token_spec() {
        Some(AbiValue::System { unwind: false })
    } else if s == (AbiValue::System { unwind: true }).token_spec() {
        Some(AbiValue::System { unwind: true })
    } else if s == (AbiValue::Aapcs { unwind: false }).token_spec() {
        Some(AbiValue::Aapcs { unwind: false })
    } else if s == (AbiValue::Aapcs { unwind: true }).token_spec() {
        Some(AbiValue::Aapcs { unwind: true })
    } else if s == (AbiValue::Cdecl { unwind: false }).token_spec() {
        Some(AbiValue::Cdecl { unwind: false })
    } else if s == (AbiValue::Cdecl { unwind: true }).token_spec() {
        Some(AbiValue::Cdecl { unwind: true })
    } else if s == (AbiValue::Stdcall { unwind: false }).token_spec() {
        Some(AbiValue::Stdcall { unwind: false })
    } else if s == (AbiValue::Stdcall { unwind: true }).token_spec() {
        Some(AbiValue::Stdcall { unwind: true })
    } else if s == (AbiValue::Fastcall { unwind: false }).token_spec() {
        Some(AbiValue::Fastcall { unwind: false })
    } else if s == (AbiValue::Fastcall { unwind: true }).token_spec() {
        Some(AbiValue::Fastcall { unwind: true })
    } else if s == (AbiValue::Thiscall { unwind: false }).token_spec() {
        Some(AbiValue::Thiscall { unwind: false })
    } else if s == (AbiValue::Thiscall { unwind: true }).token_spec() {
        Some(AbiValue::Thiscall { unwind: true })
    } else if s == (AbiValue::Vectorcall { unwind: false }).token_spec() {
        Some(AbiValue::Vectorcall { unwind: false })
    } else if s == (AbiValue::Vectorcall { unwind: true }).token_spec() {
        Some(AbiValue::Vectorcall { unwind: true })
    } else if s == (AbiValue::SysV64 { unwind: false }).token_spec() {
        Some(AbiValue::SysV64 { unwind: false })
    } else if s == (AbiValue::SysV64 { unwind: true }).token_spec() {
        Some(AbiValue::SysV64 { unwind: true })
    } else if s == (AbiValue::Win64 { unwind: false }).token_spec() {
        Some(AbiValue::Win64 { unwind: false })
    } else if s == (AbiValue::Win64 { unwind: true }).token_spec() {
        Some(AbiValue::Win64 { unwind: true })
    } else {
        None
    }
}

/// Parse a token into the convention it names, or `None` when the token is
/// unknown. The empty string parses as `Rust`.
pub fn parse(s: &str) -> (r: Option<AbiValue>)
    ensures
        r == parse_spec(s@),
{
    if eq_str(s, "") || eq_str(s, "Rust") {
        Some(AbiValue::Rust)
    } else if eq_str(s, "C") {
        Some(AbiValue::C { unwind: false })
    } else if eq_str(s, "C-unwind") {
        Some(AbiValue::C { unwind: true })
    } else if eq_str(s, "system") {
        Some(AbiValue::System { unwind: false })
    } else if eq_str(s, "system-unwind") {
        Some(AbiValue::System { unwind: true })
    } else if eq_str(s, "aapcs") {
        Some(AbiValue::Aapcs { unwind: false })
    } else if eq_str(s, "aapcs-unwind") {
        Some(AbiValue::Aapcs { unwind: true })
    } else if eq_str(s, "cdecl") {
        Some(AbiValue::Cdecl { unwind: false })
    } else if eq_str(s, "cdecl-unwind") {
        Some(AbiValue::Cdecl { unwind: true })
    } else if eq_str(s, "stdcall") {
        Some(AbiValue::Stdcall { unwind: false })
    } else if eq_str(s, "stdcall-unwind") {
        Some(AbiValue::Stdcall { unwind: true })
    } else if eq_str(s, "fastcall") {
        Some(AbiValue::Fastcall { unwind: false })
    } else if eq_str(s, "fastcall-unwind") {
        Some(AbiValue::Fastcall { unwind: true })
    } else if eq_str(s, "thiscall") {
        Some(AbiValue::Thiscall { unwind: false })
    } else if eq_str(s, "thiscall-unwind") {
        Some(AbiValue::Thiscall { unwind: true })
    } else if eq_str(s, "vectorcall") {
        Some(AbiValue::Vectorcall { unwind: false })
    } else if eq_str(s, "vectorcall-unwind") {
        Some(AbiValue::Vectorcall { unwind: true })
    } else if eq_str(s, "sysv64") {
        Some(AbiValue::SysV64 { unwind: false })
    } else if eq_str(s, "sysv64-unwind") {
        Some(AbiValue::SysV64 { unwind: true })
    } else if eq_str(s, "win64") {
        Some(AbiValue::Win64 { unwind: false })
    } else if eq_str(s, "win64-unwind") {
        Some(AbiValue::Win64 { unwind: true })
    } else {
        None
    }
}

/// Parse a token that is known to name a convention. Unknown tokens are
/// ruled out by the precondition; `parse` reports them as `None` instead.
pub fn parse_or_fail(s: &str) -> (r: AbiValue)
    requires
        parse_spec(s@) is Some,
    ensures
        Some(r) == parse_spec(s@),
{
    parse(s).unwrap()
}

/// The lengths of all canonical tokens, and one distinguishing character
/// for each pair of distinct tokens of equal length. Together these imply
/// that the 22 tokens of the parse table are pairwise distinct.
proof fn lemma_tokens_distinct()
    ensures
        ""@.len() == 0,
        "Rust"@.len() == 4,
        "C"@.len() == 1,
        "C-unwind"@.len() == 8,
        "system"@.len() == 6,
        "system-unwind"@.len() == 13,
        "aapcs"@.len() == 5,
        "aapcs-unwind"@.len() == 12,
        "cdecl"@.len() == 5,
        "cdecl-unwind"@.len() == 12,
        "stdcall"@.len() == 7,
        "stdcall-unwind"@.len() == 14,
        "fastcall"@.len() == 8,
        "fastcall-unwind"@.len() == 15,
        "thiscall"@.len() == 8,
        "thiscall-unwind"@.len() == 15,
        "vectorcall"@.len() == 10,
        "vectorcall-unwind"@.len() == 17,
        "sysv64"@.len() == 6,
        "sysv64-unwind"@.len() == 13,
        "win64"@.len() == 5,
        "win64-unwind"@.len() == 12,
        "aapcs"@ != "cdecl"@,
        "aapcs"@ != "win64"@,
        "cdecl"@ != "win64"@,
        "system"@ != "sysv64"@,
        "C-unwind"@ != "fastcall"@,
        "C-unwind"@ != "thiscall"@,
        "fastcall"@ != "thiscall"@,
        "aapcs-unwind"@ != "cdecl-unwind"@,
        "aapcs-unwind"@ != "win64-unwind"@,
        "cdecl-unwind"@ != "win64-unwind"@,
        "system-unwind"@ != "sysv64-unwind"@,
        "fastcall-unwind"@ != "thiscall-unwind"@,
{
    reveal_strlit("");
    reveal_strlit("Rust");
    reveal_strlit("C");
    reveal_strlit("C-unwind");
    reveal_strlit("system");
    reveal_strlit("system-unwind");
    reveal_strlit("aapcs");
    reveal_strlit("aapcs-unwind");
    reveal_strlit("cdecl");
    reveal_strlit("cdecl-unwind");
    reveal_strlit("stdcall");
    reveal_strlit("stdcall-unwind");
    reveal_strlit("fastcall");
    reveal_strlit("fastcall-unwind");
    reveal_strlit("thiscall");
    reveal_strlit("thiscall-unwind");
    reveal_strlit("vectorcall");
    reveal_strlit("vectorcall-unwind");
    reveal_strlit("sysv64");
    reveal_strlit("sysv64-unwind");
    reveal_strlit("win64");
    reveal_strlit("win64-unwind");
    assert("aapcs"@[0] != "cdecl"@[0]);
    assert("aapcs"@[0] != "win64"@[0]);
    assert("cdecl"@[0] != "win64"@[0]);
    assert("system"@[3] != "sysv64"@[3]);
    assert("C-unwind"@[0] != "fastcall"@[0]);
    assert("C-unwind"@[0] != "thiscall"@[0]);
    assert("fastcall"@[0] != "thiscall"@[0]);
    assert("aapcs-unwind"@[0] != "cdecl-unwind"@[0]);
    assert("aapcs-unwind"@[0] != "win64-unwind"@[0]);
    assert("cdecl-unwind"@[0] != "win64-unwind"@[0]);
    assert("system-unwind"@[3] != "sysv64-unwind"@[3]);
    assert("fastcall-unwind"@[0] != "thiscall-unwind"@[0]);
}

/// Every value's canonical token parses back to exactly that value.
pub proof fn lemma_parse_round_trip(v: AbiValue)
    ensures
        parse_spec(v.token_spec()) == Some(v),
{
    lemma_tokens_distinct();
}

/// The empty token is kept as an alias for the `Rust` convention.
pub proof fn lemma_parse_empty_is_rust()
    ensures
        parse_spec(""@) == Some(AbiValue::Rust),
{
}

/// A non-empty token that is no value's canonical token does not parse.
pub proof fn lemma_parse_unknown(s: Seq<char>)
    requires
        s != ""@,
        forall|v: AbiValue| s != #[trigger] v.token_spec(),
    ensures
        parse_spec(s) is None,
{
    assert(s != AbiValue::Rust.token_spec());
    assert(s != (AbiValue::C { unwind: false }).token_spec());
    assert(s != (AbiValue::C { unwind: true }).token_spec());
    assert(s != (AbiValue::System { unwind: false }).token_spec());
    assert(s != (AbiValue::System { unwind: true }).token_spec());
    assert(s != (AbiValue::Aapcs { unwind: false }).token_spec());
    assert(s != (AbiValue::Aapcs { unwind: true }).token_spec());
    assert(s != (AbiValue::Cdecl { unwind: false }).token_spec());
    assert(s != (AbiValue::Cdecl { unwind: true }).token_spec());
    assert(s != (AbiValue::Stdcall { unwind: false }).token_spec());
    assert(s != (AbiValue::Stdcall { unwind: true }).token_spec());
    assert(s != (AbiValue::Fastcall { unwind: false }).token_spec());
    assert(s != (AbiValue::Fastcall { unwind: true }).token_spec());
    assert(s != (AbiValue::Thiscall { unwind: false }).token_spec());
    assert(s != (AbiValue::Thiscall { unwind: true }).token_spec());
    assert(s != (AbiValue::Vectorcall { unwind: false }).token_spec());
    assert(s != (AbiValue::Vectorcall { unwind: true }).token_spec());
    assert(s != (AbiValue::SysV64 { unwind: false }).token_spec());
    assert(s != (AbiValue::SysV64 { unwind: true }).token_spec());
    assert(s != (AbiValue::Win64 { unwind: false }).token_spec());
    assert(s != (AbiValue::Win64 { unwind: true }).token_spec());
}

/// Distinct values have distinct canonical tokens: printing is injective.
pub proof fn lemma_token_injective(v: AbiValue, w: AbiValue)
    requires
        v.token_spec() == w.token_spec(),
    ensures
        v == w,
{
    lemma_parse_round_trip(v);
    lemma_parse_round_trip(w);
}

/// Canonicalization keeps the unwind permission: when a convention is
/// supported on a target, the convention it resolves to permits unwinding
/// exactly when the requested one does.
pub proof fn lemma_canonize_preserves_unwind(v: AbiValue, t: Target, has_c_varargs: bool)
    ensures
        v.canonize_spec(t, has_c_varargs) matches Some(w) ==> w.allows_unwind_spec()
            == v.allows_unwind_spec(),
{
}

/// Canonicalization is idempotent: what a convention resolves to on a
/// target resolves to itself on that target.
pub proof fn lemma_canonize_idempotent(v: AbiValue, t: Target, has_c_varargs: bool)
    ensures
        v.canonize_spec(t, has_c_varargs) matches Some(w) ==> w.canonize_spec(t, has_c_varargs)
            == Some(w),
{
}

} // verus!
