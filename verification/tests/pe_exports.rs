use injector_core::pe::{classify_image, export_rva, DllArch, PeError};

fn put_u16(b: &mut [u8], off: usize, v: u16) {
    b[off..off + 2].copy_from_slice(&v.to_le_bytes());
}

fn put_u32(b: &mut [u8], off: usize, v: u32) {
    b[off..off + 4].copy_from_slice(&v.to_le_bytes());
}

/// A minimal PE32 image with one `.edata` section mapped at RVA 0x1000
/// (file offset 0x200) exporting `LoadLibraryW` at RVA 0x3000 and a
/// forwarder entry named `Forwarded`.
fn build_pe32_with_exports() -> Vec<u8> {
    let mut b = vec![0u8; 0x400];
    // DOS header
    b[0] = 0x4D;
    b[1] = 0x5A;
    put_u32(&mut b, 0x3C, 0x40);
    // PE signature and file header
    b[0x40] = 0x50;
    b[0x41] = 0x45;
    put_u16(&mut b, 0x44, 0x014C); // machine: i386
    put_u16(&mut b, 0x46, 1); // one section
    put_u16(&mut b, 0x54, 0xE0); // optional header size
    put_u16(&mut b, 0x56, 0x2102);
    // optional header (PE32)
    put_u16(&mut b, 0x58, 0x10B);
    put_u32(&mut b, 0x78, 0x1000); // section alignment
    put_u32(&mut b, 0x7C, 0x200); // file alignment
    put_u16(&mut b, 0x98, 4); // major subsystem version
    put_u32(&mut b, 0x90, 0x2000); // size of image
    put_u32(&mut b, 0x94, 0x200); // size of headers
    put_u32(&mut b, 0xB4, 16); // number of data directories
    put_u32(&mut b, 0xB8, 0x1000); // export directory RVA
    put_u32(&mut b, 0xBC, 0x100); // export directory size
    // section header
    b[0x138..0x140].copy_from_slice(b".edata\0\0");
    put_u32(&mut b, 0x138 + 8, 0x200); // virtual size
    put_u32(&mut b, 0x138 + 12, 0x1000); // virtual address
    put_u32(&mut b, 0x138 + 16, 0x200); // size of raw data
    put_u32(&mut b, 0x138 + 20, 0x200); // pointer to raw data
    put_u32(&mut b, 0x138 + 36, 0x4000_0040);
    // export directory at file offset 0x200 (RVA 0x1000)
    put_u32(&mut b, 0x200 + 12, 0x10A0); // dll name RVA
    put_u32(&mut b, 0x200 + 16, 1); // ordinal base
    put_u32(&mut b, 0x200 + 20, 2); // number of functions
    put_u32(&mut b, 0x200 + 24, 2); // number of names
    put_u32(&mut b, 0x200 + 28, 0x1040); // address table RVA
    put_u32(&mut b, 0x200 + 32, 0x1050); // name pointer table RVA
    put_u32(&mut b, 0x200 + 36, 0x1060); // ordinal table RVA
    // export address table
    put_u32(&mut b, 0x240, 0x3000);
    put_u32(&mut b, 0x244, 0x1070); // inside the export directory: forwarder
    // name pointers and ordinals; the name table is sorted, as the loader
    // expects ("Forwarded" before "LoadLibraryW")
    put_u32(&mut b, 0x250, 0x1090);
    put_u32(&mut b, 0x254, 0x1080);
    put_u16(&mut b, 0x260, 1);
    put_u16(&mut b, 0x262, 0);
    // strings
    b[0x270..0x270 + 11].copy_from_slice(b"OTHER.Func\0");
    b[0x280..0x280 + 13].copy_from_slice(b"LoadLibraryW\0");
    b[0x290..0x290 + 10].copy_from_slice(b"Forwarded\0");
    b[0x2A0..0x2A0 + 9].copy_from_slice(b"TEST.dll\0");
    b
}

#[test]
fn finds_the_loader_entry_rva() {
    let image = build_pe32_with_exports();
    assert_eq!(export_rva(&image, b"LoadLibraryW"), Ok(0x3000));
}

#[test]
fn matches_pelite_on_the_same_image() {
    let image = build_pe32_with_exports();
    let pe = pelite::PeFile::from_bytes(&image).unwrap();
    let export = pe.get_export_by_name("LoadLibraryW").unwrap();
    assert_eq!(export.symbol(), Some(0x3000));
    assert_eq!(export_rva(&image, b"LoadLibraryW").ok(), export.symbol());
    assert_eq!(pe.file_header().Machine, 0x014C);
    assert_eq!(classify_image(&image), Ok(DllArch::I386));
}

#[test]
fn forwarder_entries_have_no_address() {
    let image = build_pe32_with_exports();
    assert_eq!(export_rva(&image, b"Forwarded"), Err(PeError::ExportForwarded));
    let pe = pelite::PeFile::from_bytes(&image).unwrap();
    let export = pe.get_export_by_name("Forwarded").unwrap();
    assert_eq!(export.symbol(), None);
}

#[test]
fn missing_export_is_not_found() {
    let image = build_pe32_with_exports();
    assert_eq!(export_rva(&image, b"GetLastError"), Err(PeError::ExportNotFound));
}

#[test]
fn name_prefix_does_not_match() {
    let image = build_pe32_with_exports();
    assert_eq!(export_rva(&image, b"LoadLibrary"), Err(PeError::ExportNotFound));
}

#[test]
fn truncated_image_fails_to_parse() {
    let image = build_pe32_with_exports();
    assert_eq!(export_rva(&image[..0x150], b"LoadLibraryW"), Err(PeError::Parse));
    assert_eq!(export_rva(&[], b"LoadLibraryW"), Err(PeError::Parse));
}

#[test]
fn image_without_export_table_reports_not_found() {
    let mut image = build_pe32_with_exports();
    put_u32(&mut image, 0xB8, 0); // clear the export directory RVA
    assert_eq!(export_rva(&image, b"LoadLibraryW"), Err(PeError::ExportNotFound));
}

#[test]
fn ordinal_beyond_the_address_table_is_a_parse_failure() {
    let mut image = build_pe32_with_exports();
    put_u16(&mut image, 0x262, 9); // ordinal of LoadLibraryW, out of range
    assert_eq!(export_rva(&image, b"LoadLibraryW"), Err(PeError::Parse));
}
