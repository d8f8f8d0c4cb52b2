use fn_ptr::{AbiValue, Target, TargetArch, TargetOs};

fn t(arch: TargetArch, os: TargetOs) -> Target {
    Target::new(arch, os)
}

#[test]
fn canonize_keeps_c_and_rust_everywhere() {
    for target in [
        t(TargetArch::X86, TargetOs::Windows),
        t(TargetArch::X86_64, TargetOs::Other),
        t(TargetArch::Arm, TargetOs::Vexos),
        t(TargetArch::Aarch64, TargetOs::Other),
        t(TargetArch::Other, TargetOs::Other),
    ] {
        for unwind in [false, true] {
            assert_eq!(
                AbiValue::C { unwind }.canonize(target, false),
                Some(AbiValue::C { unwind })
            );
        }
        assert_eq!(AbiValue::Rust.canonize(target, true), Some(AbiValue::Rust));
    }
}

#[test]
fn canonize_system_on_x86_windows_without_varargs_is_stdcall() {
    let target = t(TargetArch::X86, TargetOs::Windows);
    assert_eq!(
        AbiValue::System { unwind: false }.canonize(target, false),
        Some(AbiValue::Stdcall { unwind: false })
    );
    assert_eq!(
        AbiValue::System { unwind: true }.canonize(target, false),
        Some(AbiValue::Stdcall { unwind: true })
    );
    assert_eq!(
        AbiValue::System { unwind: false }.canonize(target, true),
        Some(AbiValue::C { unwind: false })
    );
}

#[test]
fn canonize_system_on_arm_vexos_is_aapcs() {
    let target = t(TargetArch::Arm, TargetOs::Vexos);
    assert_eq!(
        AbiValue::System { unwind: true }.canonize(target, false),
        Some(AbiValue::Aapcs { unwind: true })
    );
}

#[test]
fn canonize_system_elsewhere_is_c() {
    let target = t(TargetArch::X86_64, TargetOs::Other);
    assert_eq!(
        AbiValue::System { unwind: false }.canonize(target, false),
        Some(AbiValue::C { unwind: false })
    );
    let target = t(TargetArch::Aarch64, TargetOs::Vexos);
    assert_eq!(
        AbiValue::System { unwind: true }.canonize(target, false),
        Some(AbiValue::C { unwind: true })
    );
}

#[test]
fn canonize_aapcs_needs_arm() {
    assert_eq!(
        AbiValue::Aapcs { unwind: false }.canonize(t(TargetArch::Arm, TargetOs::Other), false),
        Some(AbiValue::Aapcs { unwind: false })
    );
    assert_eq!(
        AbiValue::Aapcs { unwind: true }.canonize(t(TargetArch::Aarch64, TargetOs::Other), false),
        Some(AbiValue::Aapcs { unwind: true })
    );
    assert_eq!(
        AbiValue::Aapcs { unwind: false }.canonize(t(TargetArch::X86, TargetOs::Other), false),
        None
    );
}

#[test]
fn canonize_cdecl_is_c_everywhere() {
    assert_eq!(
        AbiValue::Cdecl { unwind: false }.canonize(t(TargetArch::X86, TargetOs::Other), false),
        Some(AbiValue::C { unwind: false })
    );
    assert_eq!(
        AbiValue::Cdecl { unwind: true }.canonize(t(TargetArch::Other, TargetOs::Other), false),
        Some(AbiValue::C { unwind: true })
    );
}

#[test]
fn canonize_fastcall_and_stdcall_rows() {
    let x86 = t(TargetArch::X86, TargetOs::Other);
    let win64 = t(TargetArch::X86_64, TargetOs::Windows);
    let other = t(TargetArch::Other, TargetOs::Other);

    assert_eq!(
        AbiValue::Fastcall { unwind: false }.canonize(x86, false),
        Some(AbiValue::Fastcall { unwind: false })
    );
    assert_eq!(
        AbiValue::Fastcall { unwind: true }.canonize(win64, false),
        Some(AbiValue::C { unwind: true })
    );
    assert_eq!(AbiValue::Fastcall { unwind: false }.canonize(other, false), None);

    assert_eq!(
        AbiValue::Stdcall { unwind: false }.canonize(x86, false),
        Some(AbiValue::Stdcall { unwind: false })
    );
    assert_eq!(
        AbiValue::Stdcall { unwind: true }.canonize(win64, false),
        Some(AbiValue::C { unwind: true })
    );
    assert_eq!(AbiValue::Stdcall { unwind: false }.canonize(other, false), None);
}

#[test]
fn canonize_thiscall_needs_x86() {
    assert_eq!(
        AbiValue::Thiscall { unwind: false }.canonize(t(TargetArch::X86, TargetOs::Windows), false),
        Some(AbiValue::Thiscall { unwind: false })
    );
    assert_eq!(
        AbiValue::Thiscall { unwind: false }.canonize(
            t(TargetArch::X86_64, TargetOs::Windows),
            false
        ),
        None
    );
}

#[test]
fn canonize_vectorcall_needs_x86_family() {
    assert_eq!(
        AbiValue::Vectorcall { unwind: true }.canonize(t(TargetArch::X86, TargetOs::Other), false),
        Some(AbiValue::Vectorcall { unwind: true })
    );
    assert_eq!(
        AbiValue::Vectorcall { unwind: false }.canonize(
            t(TargetArch::X86_64, TargetOs::Other),
            false
        ),
        Some(AbiValue::Vectorcall { unwind: false })
    );
    assert_eq!(
        AbiValue::Vectorcall { unwind: false }.canonize(t(TargetArch::Arm, TargetOs::Other), false),
        None
    );
}

#[test]
fn canonize_sysv64_and_win64_need_x86_64() {
    let x64 = t(TargetArch::X86_64, TargetOs::Other);
    let x86 = t(TargetArch::X86, TargetOs::Other);
    assert_eq!(
        AbiValue::SysV64 { unwind: false }.canonize(x64, false),
        Some(AbiValue::SysV64 { unwind: false })
    );
    assert_eq!(
        AbiValue::Win64 { unwind: true }.canonize(x64, false),
        Some(AbiValue::Win64 { unwind: true })
    );
    assert_eq!(AbiValue::SysV64 { unwind: false }.canonize(x86, false), None);
    assert_eq!(AbiValue::Win64 { unwind: false }.canonize(x86, false), None);
}
