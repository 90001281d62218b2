//! The 32-bit loader stub: a position-independent machine-code payload that,
//! executed in the target process, calls `LoadLibraryW` on a pre-written
//! wide-string argument and returns with stdcall cleanup.
//!
//! The five instructions have fixed one-byte opcodes with 32-bit immediate
//! operands (`mov eax, imm32` is `B8`, `push eax` is `50`, `call eax` is
//! `FF D0`, `ret imm16` is `C2`); no encoding carries a displacement relative
//! to the instruction pointer, which is what makes the stub independent of
//! the address it is assembled for.

use vstd::prelude::*;

use crate::bytes::{le32_bytes, push_u32_le};

verus! {

/// The length in bytes of the assembled stub.
pub const STUB_LEN: usize = 16;

/// The exact bytes of the stub:
/// `mov eax, dll_path_addr; push eax; mov eax, load_library_w_addr; call eax; ret 4`.
pub open spec fn stub_bytes(load_library_w_addr: u32, dll_path_addr: u32) -> Seq<u8> {
    seq![0xB8u8] + le32_bytes(dll_path_addr) + seq![0x50u8, 0xB8u8] + le32_bytes(
        load_library_w_addr,
    ) + seq![0xFFu8, 0xD0u8, 0xC2u8, 0x04u8, 0x00u8]
}

/// The stub as assembled for a nominal base address. Every operand is an
/// absolute immediate, so the base does not appear in the result.
pub open spec fn stub_bytes_at(load_library_w_addr: u32, dll_path_addr: u32, base: u32) -> Seq<
    u8,
> {
    stub_bytes(load_library_w_addr, dll_path_addr)
}

/// Emits the stub for the given absolute loader-entry and argument addresses,
/// as laid out for the nominal base address `base`.
pub fn assemble_stub(load_library_w_addr: u32, dll_path_addr: u32, base: u32) -> (code: Vec<u8>)
    ensures
        code@ == stub_bytes_at(load_library_w_addr, dll_path_addr, base),
        code@.len() == STUB_LEN,
{
    let mut code: Vec<u8> = Vec::new();
    code.push(0xB8);
    push_u32_le(&mut code, dll_path_addr);
    code.push(0x50);
    code.push(0xB8);
    push_u32_le(&mut code, load_library_w_addr);
    code.push(0xFF);
    code.push(0xD0);
    code.push(0xC2);
    code.push(0x04);
    code.push(0x00);
    proof {
        assert(code@ =~= stub_bytes_at(load_library_w_addr, dll_path_addr, base));
    }
    code
}

/// Position independence of the stub: for any loader-entry and argument
/// addresses, assembling at one nominal base yields the same bytes as
/// assembling at any other.
pub proof fn lemma_stub_position_independent(
    load_library_w_addr: u32,
    dll_path_addr: u32,
    base_x: u32,
    base_y: u32,
)
    ensures
        stub_bytes_at(load_library_w_addr, dll_path_addr, base_x) == stub_bytes_at(
            load_library_w_addr,
            dll_path_addr,
            base_y,
        ),
{
}

} // verus!
