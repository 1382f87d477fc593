use obscuravpn_client::os::windows::sddl::{encode_utf16, users_readable_dir_dacl, wide_nul, FileRights, Inherit, Trustee, DACL};

const PFN: &str = "ObscuraVPN.Client_8wekyb3d8bbwe";

#[test]
fn pipe_sddl_renders() {
    let s = DACL::new()
        .allow(FileRights::FullAccess, Trustee::local_system(), Inherit::ThisObjectOnly)
        .allow(FileRights::FullAccess, Trustee::builtin_administrators(), Inherit::ThisObjectOnly)
        .allow_packaged(FileRights::ReadWrite, PFN)
        .to_string();
    assert_eq!(
        s,
        format!("D:P(A;;FA;;;SY)(A;;FA;;;BA)(XA;;FRFW;;;WD;(WIN://SYSAPPID Contains \"{PFN}\"))")
    );
}

#[test]
fn debug_pipe_sddl_renders() {
    let s = DACL::new()
        .allow(FileRights::FullAccess, Trustee::local_system(), Inherit::ThisObjectOnly)
        .allow(FileRights::FullAccess, Trustee::builtin_administrators(), Inherit::ThisObjectOnly)
        .allow(FileRights::ReadWrite, Trustee::interactive(), Inherit::ThisObjectOnly)
        .to_string();
    assert_eq!(s, "D:P(A;;FA;;;SY)(A;;FA;;;BA)(A;;FRFW;;;IU)");
}

#[test]
fn inherit_flags_render_per_ace() {
    let s = DACL::new()
        .allow(FileRights::FullAccess, Trustee::owner_rights(), Inherit::DirsAndFiles)
        .allow(FileRights::ReadTraverse, Trustee::builtin_users(), Inherit::Dirs)
        .allow(FileRights::Read, Trustee::builtin_users(), Inherit::Files)
        .to_string();
    assert_eq!(s, "D:P(A;OICI;FA;;;OW)(A;CI;FRFX;;;BU)(A;OI;FR;;;BU)");
}

#[test]
fn empty_dacl_renders_protected_header() {
    assert_eq!(DACL::new().to_string(), "D:P");
}

#[test]
fn users_readable_dir_dacl_renders() {
    assert_eq!(
        users_readable_dir_dacl().to_string(),
        "D:P(A;OICI;FA;;;OW)(A;OICI;FA;;;SY)(A;OICI;FA;;;BA)(A;CI;FRFX;;;BU)(A;OI;FR;;;BU)"
    );
}

#[test]
fn sddl_parts_render() {
    assert_eq!(FileRights::FullAccess.as_sddl(), "FA");
    assert_eq!(FileRights::ReadWrite.as_sddl(), "FRFW");
    assert_eq!(FileRights::Read.as_sddl(), "FR");
    assert_eq!(FileRights::ReadTraverse.as_sddl(), "FRFX");
    assert_eq!(Inherit::ThisObjectOnly.as_sddl(), "");
    assert_eq!(Inherit::Dirs.as_sddl(), "CI");
    assert_eq!(Inherit::Files.as_sddl(), "OI");
    assert_eq!(Inherit::DirsAndFiles.as_sddl(), "OICI");
    assert_eq!(Trustee::local_system().as_sddl(), "SY");
    assert_eq!(Trustee::builtin_administrators().as_sddl(), "BA");
    assert_eq!(Trustee::builtin_users().as_sddl(), "BU");
    assert_eq!(Trustee::interactive().as_sddl(), "IU");
    assert_eq!(Trustee::owner_rights().as_sddl(), "OW");
}

#[test]
fn wide_nul_encodes_utf16_with_terminator() {
    assert_eq!(wide_nul("D:P"), vec![0x44, 0x3a, 0x50, 0]);
    assert_eq!(wide_nul(""), vec![0]);
    assert_eq!(wide_nul("é𝄞"), vec![0xe9, 0xd834, 0xdd1e, 0]);
}

#[test]
fn utf16_encoding_matches_std() {
    for s in ["", "abc", "größe", "\u{ffff}", "\u{10000}", "😀 x \u{10ffff}"] {
        assert_eq!(encode_utf16(s), s.encode_utf16().collect::<Vec<u16>>());
    }
}
