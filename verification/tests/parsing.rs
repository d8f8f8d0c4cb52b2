use fn_ptr::{parse, parse_or_fail, AbiValue};

fn all_values() -> Vec<AbiValue> {
    let mut v = Vec::new();
    v.push(AbiValue::Rust);
    for unwind in [false, true] {
        v.push(AbiValue::C { unwind });
        v.push(AbiValue::System { unwind });
        v.push(AbiValue::Aapcs { unwind });
        v.push(AbiValue::Cdecl { unwind });
        v.push(AbiValue::Stdcall { unwind });
        v.push(AbiValue::Fastcall { unwind });
        v.push(AbiValue::Thiscall { unwind });
        v.push(AbiValue::Vectorcall { unwind });
        v.push(AbiValue::SysV64 { unwind });
        v.push(AbiValue::Win64 { unwind });
    }
    v
}

#[test]
fn to_str_tokens_are_canonical() {
    assert_eq!(AbiValue::Rust.to_str(), "Rust");
    assert_eq!(AbiValue::C { unwind: false }.to_str(), "C");
    assert_eq!(AbiValue::C { unwind: true }.to_str(), "C-unwind");
    assert_eq!(AbiValue::System { unwind: false }.to_str(), "system");
    assert_eq!(AbiValue::System { unwind: true }.to_str(), "system-unwind");
    assert_eq!(AbiValue::Aapcs { unwind: false }.to_str(), "aapcs");
    assert_eq!(AbiValue::Aapcs { unwind: true }.to_str(), "aapcs-unwind");
    assert_eq!(AbiValue::Cdecl { unwind: false }.to_str(), "cdecl");
    assert_eq!(AbiValue::Cdecl { unwind: true }.to_str(), "cdecl-unwind");
    assert_eq!(AbiValue::Stdcall { unwind: false }.to_str(), "stdcall");
    assert_eq!(AbiValue::Stdcall { unwind: true }.to_str(), "stdcall-unwind");
    assert_eq!(AbiValue::Fastcall { unwind: false }.to_str(), "fastcall");
    assert_eq!(AbiValue::Fastcall { unwind: true }.to_str(), "fastcall-unwind");
    assert_eq!(AbiValue::Thiscall { unwind: false }.to_str(), "thiscall");
    assert_eq!(AbiValue::Thiscall { unwind: true }.to_str(), "thiscall-unwind");
    assert_eq!(AbiValue::Vectorcall { unwind: false }.to_str(), "vectorcall");
    assert_eq!(AbiValue::Vectorcall { unwind: true }.to_str(), "vectorcall-unwind");
    assert_eq!(AbiValue::SysV64 { unwind: false }.to_str(), "sysv64");
    assert_eq!(AbiValue::SysV64 { unwind: true }.to_str(), "sysv64-unwind");
    assert_eq!(AbiValue::Win64 { unwind: false }.to_str(), "win64");
    assert_eq!(AbiValue::Win64 { unwind: true }.to_str(), "win64-unwind");
}

#[test]
fn parse_round_trips_every_value() {
    for v in all_values() {
        assert_eq!(parse(v.to_str()), Some(v));
        assert_eq!(parse_or_fail(v.to_str()), v);
    }
}

#[test]
fn parse_empty_is_rust() {
    assert_eq!(parse(""), Some(AbiValue::Rust));
}

#[test]
fn parse_rejects_unknown_tokens() {
    assert_eq!(parse("Rust-unwind"), None);
    assert_eq!(parse("c"), None);
    assert_eq!(parse("C "), None);
    assert_eq!(parse("stdcal"), None);
    assert_eq!(parse("stdcallx"), None);
    assert_eq!(parse("unwind"), None);
    assert_eq!(parse("pascal"), None);
}

#[test]
fn allows_unwind_table() {
    assert!(AbiValue::Rust.allows_unwind());
    for v in all_values() {
        match v {
            AbiValue::Rust => assert!(v.allows_unwind()),
            AbiValue::C { unwind }
            | AbiValue::System { unwind }
            | AbiValue::Aapcs { unwind }
            | AbiValue::Cdecl { unwind }
            | AbiValue::Stdcall { unwind }
            | AbiValue::Fastcall { unwind }
            | AbiValue::Thiscall { unwind }
            | AbiValue::Vectorcall { unwind }
            | AbiValue::SysV64 { unwind }
            | AbiValue::Win64 { unwind } => assert_eq!(v.allows_unwind(), unwind),
        }
    }
    assert!(AbiValue::C { unwind: true }.allows_unwind());
    assert!(!AbiValue::C { unwind: false }.allows_unwind());
    assert!(AbiValue::Stdcall { unwind: true }.allows_unwind());
    assert!(!AbiValue::Win64 { unwind: false }.allows_unwind());
}
