use injector_core::pe::{classify_image, get_dll_architecture, DllArch, PeError};

fn header_only_image(machine: u16, characteristics: u16) -> Vec<u8> {
    let mut b = vec![0u8; 0x60];
    b[0] = 0x4D;
    b[1] = 0x5A;
    b[0x3C..0x40].copy_from_slice(&0x40u32.to_le_bytes());
    b[0x40] = 0x50;
    b[0x41] = 0x45;
    b[0x44..0x46].copy_from_slice(&machine.to_le_bytes());
    b[0x56..0x58].copy_from_slice(&characteristics.to_le_bytes());
    b
}

#[test]
fn machine_words_classify_to_their_tags() {
    assert_eq!(classify_image(&header_only_image(0x8664, 0)), Ok(DllArch::Amd64));
    assert_eq!(classify_image(&header_only_image(0x014C, 0)), Ok(DllArch::I386));
    assert_eq!(classify_image(&header_only_image(0x0200, 0)), Ok(DllArch::Ia64));
}

#[test]
fn known_machines_win_over_the_32bit_flag() {
    assert_eq!(classify_image(&header_only_image(0x014C, 0x0100)), Ok(DllArch::I386));
}

#[test]
fn flagged_32bit_unknown_machine_classifies_as_bit32() {
    assert_eq!(classify_image(&header_only_image(0x01C4, 0x0100)), Ok(DllArch::Bit32));
}

#[test]
fn unknown_machine_without_flag_is_unknown() {
    assert_eq!(classify_image(&header_only_image(0x01C4, 0x0002)), Ok(DllArch::Unknown));
}

#[test]
fn non_pe_bytes_fail_to_parse() {
    assert_eq!(classify_image(b"this is not a PE file at all, sorry"), Err(PeError::Parse));
    assert_eq!(classify_image(&[]), Err(PeError::Parse));
    let mut no_sig = header_only_image(0x8664, 0);
    no_sig[0x40] = 0x51;
    assert_eq!(classify_image(&no_sig), Err(PeError::Parse));
}

#[test]
fn truncated_header_fails_to_parse() {
    let full = header_only_image(0x8664, 0);
    assert_eq!(classify_image(&full[..0x42]), Err(PeError::Parse));
}

#[test]
fn architecture_labels_match_the_picker_strings() {
    assert_eq!(get_dll_architecture(&header_only_image(0x8664, 0)), Ok("x64/AMD64".to_owned()));
    assert_eq!(get_dll_architecture(&header_only_image(0x014C, 0)), Ok("x86/I386".to_owned()));
    assert_eq!(get_dll_architecture(&header_only_image(0x0200, 0)), Ok("x64/IA64".to_owned()));
    assert_eq!(get_dll_architecture(&header_only_image(0x9999, 0x0100)), Ok("x32/32BIT".to_owned()));
    assert_eq!(get_dll_architecture(&header_only_image(0x9999, 0)), Ok("unknown".to_owned()));
    assert_eq!(get_dll_architecture(b"junk"), Err(PeError::Parse));
}
