use iced_x86::code_asm::{eax, CodeAssembler};
use injector_core::stub::assemble_stub;

fn reference_assembly(load_library_w: u32, dll_path_addr: u32, base: u64) -> Vec<u8> {
    let mut assembler = CodeAssembler::new(32).unwrap();
    assembler.mov(eax, dll_path_addr).unwrap();
    assembler.push(eax).unwrap();
    assembler.mov(eax, load_library_w).unwrap();
    assembler.call(eax).unwrap();
    assembler.ret_1(4).unwrap();
    assembler.assemble(base).unwrap()
}

#[test]
fn stub_has_expected_encoding() {
    let code = assemble_stub(0x11223344, 0x55667788, 0x1234_5678);
    assert_eq!(
        code,
        vec![
            0xB8, 0x88, 0x77, 0x66, 0x55, // mov eax, 0x55667788
            0x50, // push eax
            0xB8, 0x44, 0x33, 0x22, 0x11, // mov eax, 0x11223344
            0xFF, 0xD0, // call eax
            0xC2, 0x04, 0x00, // ret 4
        ]
    );
}

#[test]
fn stub_matches_reference_assembler() {
    let cases: [(u32, u32); 3] = [
        (0x7654_3210, 0x0004_0000),
        (0x0000_0001, 0xFFFF_FFFF),
        (0x1357_9BDF, 0x0BAD_F00D),
    ];
    for (ll, path) in cases {
        let ours = assemble_stub(ll, path, 0x1000_0000);
        let reference = reference_assembly(ll, path, 0x1000_0000);
        assert_eq!(ours, reference, "ll={ll:#x} path={path:#x}");
    }
}

#[test]
fn stub_is_position_independent() {
    let bases: [u32; 4] = [0, 0x1111_2222, 0x1234_5678, 0xFFFF_0000];
    let first = assemble_stub(0x7654_3210, 0x0004_0000, bases[0]);
    for b in bases {
        assert_eq!(assemble_stub(0x7654_3210, 0x0004_0000, b), first);
    }
}

#[test]
fn reference_assembler_is_position_independent_too() {
    let a = reference_assembly(0x7654_3210, 0x0004_0000, 0x1234_5678);
    let b = reference_assembly(0x7654_3210, 0x0004_0000, 0x1111_2222);
    assert_eq!(a, b);
}

#[test]
fn stub_length_is_sixteen() {
    assert_eq!(assemble_stub(0, 0, 0).len(), 16);
    assert_eq!(injector_core::stub::STUB_LEN, 16);
}
