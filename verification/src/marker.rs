//! The calling-convention attribute of a function-pointer type, as marker
//! types: one empty type per value of [`AbiValue`], each carrying its
//! canonical token and its runtime value.

use crate::abi_value::AbiValue;
use vstd::prelude::*;

verus! {

/// Marker trait for the calling-convention attribute. Each implementor
/// stands for exactly one [`AbiValue`], and its token is that value's
/// canonical token.
pub trait Abi: Sized {
    /// The runtime value this marker stands for.
    spec fn value_spec() -> AbiValue;

    /// The canonical token of this marker.
    spec fn token_spec() -> Seq<char>;

    /// Returns the runtime value this marker stands for.
    fn value() -> (v: AbiValue)
        ensures
            v == Self::value_spec(),
    ;

    /// Returns the canonical token of this marker.
    fn token() -> (s: &'static str)
        ensures
            s@ == Self::token_spec(),
    ;

    /// The marker's token is the canonical token of the marker's value.
    proof fn token_consistent()
        ensures
            Self::token_spec() == Self::value_spec().token_spec(),
    ;
}

/// Marker type for the `Rust` convention.
#[derive(Clone, Copy, Debug, PartialEq, Eq, Hash, Structural)]
pub struct Rust;

/// Marker type for the `C` convention.
#[derive(Clone, Copy, Debug, PartialEq, Eq, Hash, Structural)]
pub struct C;

/// Marker type for the `C-unwind` convention.
#[derive(Clone, Copy, Debug, PartialEq, Eq, Hash, Structural)]
pub struct CUnwind;

/// Marker type for the `system` convention.
#[derive(Clone, Copy, Debug, PartialEq, Eq, Hash, Structural)]
pub struct System;

/// Marker type for the `system-unwind` convention.
#[derive(Clone, Copy, Debug, PartialEq, Eq, Hash, Structural)]
pub struct SystemUnwind;

/// Marker type for the `aapcs` convention.
#[derive(Clone, Copy, Debug, PartialEq, Eq, Hash, Structural)]
pub struct Aapcs;

/// Marker type for the `aapcs-unwind` convention.
#[derive(Clone, Copy, Debug, PartialEq, Eq, Hash, Structural)]
pub struct AapcsUnwind;

/// Marker type for the `cdecl` convention.
#[derive(Clone, Copy, Debug, PartialEq, Eq, Hash, Structural)]
pub struct Cdecl;

/// Marker type for the `cdecl-unwind` convention.
#[derive(Clone, Copy, Debug, PartialEq, Eq, Hash, Structural)]
pub struct CdeclUnwind;

/// Marker type for the `stdcall` convention.
#[derive(Clone, Copy, Debug, PartialEq, Eq, Hash, Structural)]
pub struct Stdcall;

/// Marker type for the `stdcall-unwind` convention.
#[derive(Clone, Copy, Debug, PartialEq, Eq, Hash, Structural)]
pub struct StdcallUnwind;

/// Marker type for the `fastcall` convention.
#[derive(Clone, Copy, Debug, PartialEq, Eq, Hash, Structural)]
pub struct Fastcall;

/// Marker type for the `fastcall-unwind` convention.
#[derive(Clone, Copy, Debug, PartialEq, Eq, Hash, Structural)]
pub struct FastcallUnwind;

/// Marker type for the `thiscall` convention.
#[derive(Clone, Copy, Debug, PartialEq, Eq, Hash, Structural)]
pub struct Thiscall;

/// Marker type for the `thiscall-unwind` convention.
#[derive(Clone, Copy, Debug, PartialEq, Eq, Hash, Structural)]
pub struct ThiscallUnwind;

/// Marker type for the `vectorcall` convention.
#[derive(Clone, Copy, Debug, PartialEq, Eq, Hash, Structural)]
pub struct Vectorcall;

/// Marker type for the `vectorcall-unwind` convention.
#[derive(Clone, Copy, Debug, PartialEq, Eq, Hash, Structural)]
pub struct VectorcallUnwind;

/// Marker type for the `sysv64` convention.
#[derive(Clone, Copy, Debug, PartialEq, Eq, Hash, Structural)]
pub struct SysV64;

/// Marker type for the `sysv64-unwind` convention.
#[derive(Clone, Copy, Debug, PartialEq, Eq, Hash, Structural)]
pub struct SysV64Unwind;

/// Marker type for the `win64` convention.
#[derive(Clone, Copy, Debug, PartialEq, Eq, Hash, Structural)]
pub struct Win64;

/// Marker type for the `win64-unwind` convention.
#[derive(Clone, Copy, Debug, PartialEq, Eq, Hash, Structural)]
pub struct Win64Unwind;

impl Abi for Rust {
    open spec fn value_spec() -> AbiValue {
        AbiValue::Rust
    }

    open spec fn token_spec() -> Seq<char> {
        "Rust"@
    }

    fn value() -> AbiValue {
        AbiValue::Rust
    }

    fn token() -> &'static str {
        "Rust"
    }

    proof fn token_consistent() {
    }
}

impl Abi for C {
    open spec fn value_spec() -> AbiValue {
        AbiValue::C { unwind: false }
    }

    open spec fn token_spec() -> Seq<char> {
        "C"@
    }

    fn value() -> AbiValue {
        AbiValue::C { unwind: false }
    }

    fn token() -> &'static str {
        "C"
    }

    proof fn token_consistent() {
    }
}

impl Abi for CUnwind {
    open spec fn value_spec() -> AbiValue {
        AbiValue::C { unwind: true }
    }

    open spec fn token_spec() -> Seq<char> {
        "C-unwind"@
    }

    fn value() -> AbiValue {
        AbiValue::C { unwind: true }
    }

    fn token() -> &'static str {
        "C-unwind"
    }

    proof fn token_consistent() {
    }
}

impl Abi for System {
    open spec fn value_spec() -> AbiValue {
        AbiValue::System { unwind: false }
    }

    open spec fn token_spec() -> Seq<char> {
        "system"@
    }

    fn value() -> AbiValue {
        AbiValue::System { unwind: false }
    }

    fn token() -> &'static str {
        "system"
    }

    proof fn token_consistent() {
    }
}

impl Abi for SystemUnwind {
    open spec fn value_spec() -> AbiValue {
        AbiValue::System { unwind: true }
    }

    open spec fn token_spec() -> Seq<char> {
        "system-unwind"@
    }

    fn value() -> AbiValue {
        AbiValue::System { unwind: true }
    }

    fn token() -> &'static str {
        "system-unwind"
    }

    proof fn token_consistent() {
    }
}

impl Abi for Aapcs {
    open spec fn value_spec() -> AbiValue {
        AbiValue::Aapcs { unwind: false }
    }

    open spec fn token_spec() -> Seq<char> {
        "aapcs"@
    }

    fn value() -> AbiValue {
        AbiValue::Aapcs { unwind: false }
    }

    fn token() -> &'static str {
        "aapcs"
    }

    proof fn token_consistent() {
    }
}

impl Abi for AapcsUnwind {
    open spec fn value_spec() -> AbiValue {
        AbiValue::Aapcs { unwind: true }
    }

    open spec fn token_spec() -> Seq<char> {
        "aapcs-unwind"@
    }

    fn value() -> AbiValue {
        AbiValue::Aapcs { unwind: true }
    }

    fn token() -> &'static str {
        "aapcs-unwind"
    }

    proof fn token_consistent() {
    }
}

impl Abi for Cdecl {
    open spec fn value_spec() -> AbiValue {
        AbiValue::Cdecl { unwind: false }
    }

    open spec fn token_spec() -> Seq<char> {
        "cdecl"@
    }

    fn value() -> AbiValue {
        AbiValue::Cdecl { unwind: false }
    }

    fn token() -> &'static str {
        "cdecl"
    }

    proof fn token_consistent() {
    }
}

impl Abi for CdeclUnwind {
    open spec fn value_spec() -> AbiValue {
        AbiValue::Cdecl { unwind: true }
    }

    open spec fn token_spec() -> Seq<char> {
        "cdecl-unwind"@
    }

    fn value() -> AbiValue {
        AbiValue::Cdecl { unwind: true }
    }

    fn token() -> &'static str {
        "cdecl-unwind"
    }

    proof fn token_consistent() {
    }
}

impl Abi for Stdcall {
    open spec fn value_spec() -> AbiValue {
        AbiValue::Stdcall { unwind: false }
    }

    open spec fn token_spec() -> Seq<char> {
        "stdcall"@
    }

    fn value() -> AbiValue {
        AbiValue::Stdcall { unwind: false }
    }

    fn token() -> &'static str {
        "stdcall"
    }

    proof fn token_consistent() {
    }
}

impl Abi for StdcallUnwind {
    open spec fn value_spec() -> AbiValue {
        AbiValue::Stdcall { unwind: true }
    }

    open spec fn token_spec() -> Seq<char> {
        "stdcall-unwind"@
    }

    fn value() -> AbiValue {
        AbiValue::Stdcall { unwind: true }
    }

    fn token() -> &'static str {
        "stdcall-unwind"
    }

    proof fn token_consistent() {
    }
}

impl Abi for Fastcall {
    open spec fn value_spec() -> AbiValue {
        AbiValue::Fastcall { unwind: false }
    }

    open spec fn token_spec() -> Seq<char> {
        "fastcall"@
    }

    fn value() -> AbiValue {
        AbiValue::Fastcall { unwind: false }
    }

    fn token() -> &'static str {
        "fastcall"
    }

    proof fn token_consistent() {
    }
}

impl Abi for FastcallUnwind {
    open spec fn value_spec() -> AbiValue {
        AbiValue::Fastcall { unwind: true }
    }

    open spec fn token_spec() -> Seq<char> {
        "fastcall-unwind"@
    }

    fn value() -> AbiValue {
        AbiValue::Fastcall { unwind: true }
    }

    fn token() -> &'static str {
        "fastcall-unwind"
    }

    proof fn token_consistent() {
    }
}

impl Abi for Thiscall {
    open spec fn value_spec() -> AbiValue {
        AbiValue::Thiscall { unwind: false }
    }

    open spec fn token_spec() -> Seq<char> {
        "thiscall"@
    }

    fn value() -> AbiValue {
        AbiValue::Thiscall { unwind: false }
    }

    fn token() -> &'static str {
        "thiscall"
    }

    proof fn token_consistent() {
    }
}

impl Abi for ThiscallUnwind {
    open spec fn value_spec() -> AbiValue {
        AbiValue::Thiscall { unwind: true }
    }

    open spec fn token_spec() -> Seq<char> {
        "thiscall-unwind"@
    }

    fn value() -> AbiValue {
        AbiValue::Thiscall { unwind: true }
    }

    fn token() -> &'static str {
        "thiscall-unwind"
    }

    proof fn token_consistent() {
    }
}

impl Abi for Vectorcall {
    open spec fn value_spec() -> AbiValue {
        AbiValue::Vectorcall { unwind: false }
    }

    open spec fn token_spec() -> Seq<char> {
        "vectorcall"@
    }

    fn value() -> AbiValue {
        AbiValue::Vectorcall { unwind: false }
    }

    fn token() -> &'static str {
        "vectorcall"
    }

    proof fn token_consistent() {
    }
}

impl Abi for VectorcallUnwind {
    open spec fn value_spec() -> AbiValue {
        AbiValue::Vectorcall { unwind: true }
    }

    open spec fn token_spec() -> Seq<char> {
        "vectorcall-unwind"@
    }

    fn value() -> AbiValue {
        AbiValue::Vectorcall { unwind: true }
    }

    fn token() -> &'static str {
        "vectorcall-unwind"
    }

    proof fn token_consistent() {
    }
}

impl Abi for SysV64 {
    open spec fn value_spec() -> AbiValue {
        AbiValue::SysV64 { unwind: false }
    }

    open spec fn token_spec() -> Seq<char> {
        "sysv64"@
    }

    fn value() -> AbiValue {
        AbiValue::SysV64 { unwind: false }
    }

    fn token() -> &'static str {
        "sysv64"
    }

    proof fn token_consistent() {
    }
}

impl Abi for SysV64Unwind {
    open spec fn value_spec() -> AbiValue {
        AbiValue::SysV64 { unwind: true }
    }

    open spec fn token_spec() -> Seq<char> {
        "sysv64-unwind"@
    }

    fn value() -> AbiValue {
        AbiValue::SysV64 { unwind: true }
    }

    fn token() -> &'static str {
        "sysv64-unwind"
    }

    proof fn token_consistent() {
    }
}

impl Abi for Win64 {
    open spec fn value_spec() -> AbiValue {
        AbiValue::Win64 { unwind: false }
    }

    open spec fn token_spec() -> Seq<char> {
        "win64"@
    }

    fn value() -> AbiValue {
        AbiValue::Win64 { unwind: false }
    }

    fn token() -> &'static str {
        "win64"
    }

    proof fn token_consistent() {
    }
}

impl Abi for Win64Unwind {
    open spec fn value_spec() -> AbiValue {
        AbiValue::Win64 { unwind: true }
    }

    open spec fn token_spec() -> Seq<char> {
        "win64-unwind"@
    }

    fn value() -> AbiValue {
        AbiValue::Win64 { unwind: true }
    }

    fn token() -> &'static str {
        "win64-unwind"
    }

    proof fn token_consistent() {
    }
}

} // verus!
