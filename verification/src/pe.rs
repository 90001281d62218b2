//! PE image parsing: classifying an image's machine architecture from its
//! file header, and resolving a named export's RVA from the export table of
//! an on-disk image. Only the fields the injector needs are consumed: the
//! IMAGE_FILE_HEADER machine word and characteristics, and the export
//! directory reached through the section table.

use vstd::prelude::*;

use crate::bytes::{le16, le32, read_u16_le, read_u32_le};

verus! {

/// Machine word of a 64-bit x64 image.
pub const MACHINE_AMD64: u16 = 0x8664;

/// Machine word of a 32-bit x86 image.
pub const MACHINE_I386: u16 = 0x014C;

/// Machine word of an Itanium image.
pub const MACHINE_IA64: u16 = 0x0200;

/// Characteristics flag set on images flagged 32-bit capable.
pub const CHARACTERISTICS_32BIT: u16 = 0x0100;

/// Architecture tag of a candidate library, as read from its PE header.
#[derive(Clone, Copy, Debug, PartialEq, Eq, Structural)]
pub enum DllArch {
    Amd64,
    I386,
    Ia64,
    Bit32,
    Unknown,
}

/// Failure of PE parsing or of the export lookup.
#[derive(Clone, Copy, Debug, PartialEq, Eq, Structural)]
pub enum PeError {
    /// The bytes do not parse as the expected PE structure.
    Parse,
    /// The image has no export of the requested name.
    ExportNotFound,
    /// The export is a forwarder entry and has no address in this image.
    ExportForwarded,
}

/// The architecture tag for a machine word and characteristics pair: known
/// machine words take precedence, the 32-bit characteristics flag catches
/// otherwise unrecognized machines.
pub open spec fn classify_machine_spec(machine: u16, characteristics: u16) -> DllArch {
    if machine == MACHINE_AMD64 {
        DllArch::Amd64
    } else if machine == MACHINE_I386 {
        DllArch::I386
    } else if machine == MACHINE_IA64 {
        DllArch::Ia64
    } else if characteristics & CHARACTERISTICS_32BIT != 0 {
        DllArch::Bit32
    } else {
        DllArch::Unknown
    }
}

pub fn classify_machine(machine: u16, characteristics: u16) -> (r: DllArch)
    ensures
        r == classify_machine_spec(machine, characteristics),
{
    if machine == MACHINE_AMD64 {
        DllArch::Amd64
    } else if machine == MACHINE_I386 {
        DllArch::I386
    } else if machine == MACHINE_IA64 {
        DllArch::Ia64
    } else if characteristics & CHARACTERISTICS_32BIT != 0 {
        DllArch::Bit32
    } else {
        DllArch::Unknown
    }
}

/// Offset of the PE signature, read from the DOS header.
pub open spec fn pe_off(b: Seq<u8>) -> int {
    le32(b, 0x3C) as int
}

/// The DOS header is present and starts with the `MZ` magic.
pub open spec fn dos_ok(b: Seq<u8>) -> bool {
    b.len() >= 0x40 && b[0] == 0x4D && b[1] == 0x5A
}

/// The `PE\0\0` signature and the file header behind it are in bounds.
pub open spec fn pe_sig_ok(b: Seq<u8>) -> bool {
    &&& pe_off(b) + 24 <= b.len()
    &&& b[pe_off(b)] == 0x50
    &&& b[pe_off(b) + 1] == 0x45
    &&& b[pe_off(b) + 2] == 0
    &&& b[pe_off(b) + 3] == 0
}

/// The bytes carry a readable IMAGE_FILE_HEADER.
pub open spec fn file_header_wf(b: Seq<u8>) -> bool {
    dos_ok(b) && pe_sig_ok(b)
}

/// The machine word of the file header.
pub open spec fn machine_of(b: Seq<u8>) -> u16 {
    le16(b, pe_off(b) + 4)
}

/// The characteristics word of the file header.
pub open spec fn characteristics_of(b: Seq<u8>) -> u16 {
    le16(b, pe_off(b) + 22)
}

/// What classifying the image yields: its architecture tag, or a parse
/// failure when the header structure is absent.
pub open spec fn classify_spec(b: Seq<u8>) -> Result<DllArch, PeError> {
    if file_header_wf(b) {
        Ok(classify_machine_spec(machine_of(b), characteristics_of(b)))
    } else {
        Err(PeError::Parse)
    }
}

/// Classifies a PE image held in memory by its file-header machine word.
pub fn classify_image(b: &[u8]) -> (r: Result<DllArch, PeError>)
    ensures
        r == classify_spec(b@),
{
    if b.len() < 0x40 {
        return Err(PeError::Parse);
    }
    if !(b[0] == 0x4D && b[1] == 0x5A) {
        return Err(PeError::Parse);
    }
    let off32: u32 = read_u32_le(b, 0x3C);
    let off: usize = off32 as usize;
    if off > b.len() - 24 {
        return Err(PeError::Parse);
    }
    if !(b[off] == 0x50 && b[off + 1] == 0x45 && b[off + 2] == 0 && b[off + 3] == 0) {
        return Err(PeError::Parse);
    }
    let machine: u16 = read_u16_le(b, off + 4);
    let characteristics: u16 = read_u16_le(b, off + 22);
    Ok(classify_machine(machine, characteristics))
}

/// The display label of an architecture tag.
pub open spec fn arch_label_spec(a: DllArch) -> Seq<char> {
    match a {
        DllArch::Amd64 => "x64/AMD64"@,
        DllArch::I386 => "x86/I386"@,
        DllArch::Ia64 => "x64/IA64"@,
        DllArch::Bit32 => "x32/32BIT"@,
        DllArch::Unknown => "unknown"@,
    }
}

pub fn arch_label(a: DllArch) -> (r: String)
    ensures
        r@ == arch_label_spec(a),
{
    match a {
        DllArch::Amd64 => "x64/AMD64".to_owned(),
        DllArch::I386 => "x86/I386".to_owned(),
        DllArch::Ia64 => "x64/IA64".to_owned(),
        DllArch::Bit32 => "x32/32BIT".to_owned(),
        DllArch::Unknown => "unknown".to_owned(),
    }
}

/// Offset of the IMAGE_FILE_HEADER fields behind the PE signature.
pub open spec fn coff_off(b: Seq<u8>) -> int {
    pe_off(b) + 4
}

/// Number of entries of the section table.
pub open spec fn num_sections_of(b: Seq<u8>) -> int {
    le16(b, coff_off(b) + 2) as int
}

/// Declared size of the optional header.
pub open spec fn opt_size_of(b: Seq<u8>) -> int {
    le16(b, coff_off(b) + 16) as int
}

/// Offset of the optional header.
pub open spec fn opt_off(b: Seq<u8>) -> int {
    coff_off(b) + 20
}

/// Magic of the optional header: 0x10B for PE32, 0x20B for PE32+.
pub open spec fn opt_magic_of(b: Seq<u8>) -> u16 {
    le16(b, opt_off(b))
}

/// Offset of the export entry of the data directory, the directory's first.
pub open spec fn dd_export_off(b: Seq<u8>) -> int {
    opt_off(b) + if opt_magic_of(b) == 0x10B {
        96int
    } else {
        112int
    }
}

/// The data directory's declared entry count, stored just before its first
/// entry.
pub open spec fn num_rvas_of(b: Seq<u8>) -> int {
    le32(b, dd_export_off(b) - 4) as int
}

/// The optional header is in bounds, has a known magic, and reaches the
/// export entry of the data directory.
pub open spec fn opt_wf(b: Seq<u8>) -> bool {
    &&& opt_off(b) + opt_size_of(b) <= b.len()
    &&& opt_size_of(b) >= 2
    &&& (opt_magic_of(b) == 0x10B || opt_magic_of(b) == 0x20B)
    &&& opt_size_of(b) >= if opt_magic_of(b) == 0x10B {
        104int
    } else {
        120int
    }
    &&& num_rvas_of(b) >= 1
}

/// Offset of the section table.
pub open spec fn sections_off(b: Seq<u8>) -> int {
    opt_off(b) + opt_size_of(b)
}

/// The whole section table is in bounds.
pub open spec fn sections_wf(b: Seq<u8>) -> bool {
    sections_off(b) + 40 * num_sections_of(b) <= b.len()
}

/// VirtualAddress of section `i`.
pub open spec fn sec_va(b: Seq<u8>, i: int) -> u32 {
    le32(b, sections_off(b) + 40 * i + 12)
}

/// SizeOfRawData of section `i`.
pub open spec fn sec_rsz(b: Seq<u8>, i: int) -> u32 {
    le32(b, sections_off(b) + 40 * i + 16)
}

/// PointerToRawData of section `i`.
pub open spec fn sec_raw(b: Seq<u8>, i: int) -> u32 {
    le32(b, sections_off(b) + 40 * i + 20)
}

/// The first section at index `i` or later whose raw data covers `rva`.
pub open spec fn find_section(b: Seq<u8>, rva: u32, i: int) -> Option<int>
    decreases num_sections_of(b) - i,
{
    if i >= num_sections_of(b) {
        None
    } else if sec_va(b, i) <= rva < sec_va(b, i) + sec_rsz(b, i) {
        Some(i)
    } else {
        find_section(b, rva, i + 1)
    }
}

/// The file offset backing `rva`, through the section that covers it.
pub open spec fn off_of_rva(b: Seq<u8>, rva: u32) -> Option<int> {
    match find_section(b, rva, 0) {
        None => None,
        Some(i) => Some(sec_raw(b, i) + (rva - sec_va(b, i))),
    }
}

/// RVA of the export directory.
pub open spec fn export_dir_rva(b: Seq<u8>) -> u32 {
    le32(b, dd_export_off(b))
}

/// Declared size of the export directory, which delimits forwarder entries.
pub open spec fn export_dir_size(b: Seq<u8>) -> u32 {
    le32(b, dd_export_off(b) + 4)
}

/// File offset of the export directory.
pub open spec fn ed_off(b: Seq<u8>) -> int {
    off_of_rva(b, export_dir_rva(b)).unwrap()
}

/// NumberOfFunctions of the export directory.
pub open spec fn num_funcs_of(b: Seq<u8>) -> int {
    le32(b, ed_off(b) + 20) as int
}

/// NumberOfNames of the export directory.
pub open spec fn num_names_of(b: Seq<u8>) -> int {
    le32(b, ed_off(b) + 24) as int
}

/// RVA of the export address table.
pub open spec fn aof_rva(b: Seq<u8>) -> u32 {
    le32(b, ed_off(b) + 28)
}

/// RVA of the export name-pointer table.
pub open spec fn aon_rva(b: Seq<u8>) -> u32 {
    le32(b, ed_off(b) + 32)
}

/// RVA of the export ordinal table.
pub open spec fn aoo_rva(b: Seq<u8>) -> u32 {
    le32(b, ed_off(b) + 36)
}

/// File offset of the export address table.
pub open spec fn funcs_off(b: Seq<u8>) -> int {
    off_of_rva(b, aof_rva(b)).unwrap()
}

/// File offset of the export name-pointer table.
pub open spec fn names_off(b: Seq<u8>) -> int {
    off_of_rva(b, aon_rva(b)).unwrap()
}

/// File offset of the export ordinal table.
pub open spec fn ords_off(b: Seq<u8>) -> int {
    off_of_rva(b, aoo_rva(b)).unwrap()
}

/// The export directory and its three tables resolve to file offsets and lie
/// in bounds.
pub open spec fn export_tables_wf(b: Seq<u8>) -> bool {
    &&& off_of_rva(b, export_dir_rva(b)) is Some
    &&& ed_off(b) + 40 <= b.len()
    &&& off_of_rva(b, aof_rva(b)) is Some
    &&& funcs_off(b) + 4 * num_funcs_of(b) <= b.len()
    &&& off_of_rva(b, aon_rva(b)) is Some
    &&& names_off(b) + 4 * num_names_of(b) <= b.len()
    &&& off_of_rva(b, aoo_rva(b)) is Some
    &&& ords_off(b) + 2 * num_names_of(b) <= b.len()
}

/// A nul-terminated copy of `name` sits at offset `off` of `b`.
pub open spec fn cstr_matches(b: Seq<u8>, off: int, name: Seq<u8>) -> bool {
    &&& 0 <= off
    &&& off + name.len() + 1 <= b.len()
    &&& (forall|j: int| 0 <= j < name.len() ==> b[off + j] == name[j])
    &&& b[off + name.len()] == 0
}

/// RVA of the `i`-th entry of the name-pointer table.
pub open spec fn name_rva_at(b: Seq<u8>, i: int) -> u32 {
    le32(b, names_off(b) + 4 * i)
}

/// The `i`-th export name resolves and equals `name`.
pub open spec fn name_matches(b: Seq<u8>, name: Seq<u8>, i: int) -> bool {
    match off_of_rva(b, name_rva_at(b, i)) {
        None => false,
        Some(o) => cstr_matches(b, o, name),
    }
}

/// The first name-table index at `i` or later whose name equals `name`.
pub open spec fn find_name(b: Seq<u8>, name: Seq<u8>, i: int) -> Option<int>
    decreases num_names_of(b) - i,
{
    if i >= num_names_of(b) {
        None
    } else if name_matches(b, name, i) {
        Some(i)
    } else {
        find_name(b, name, i + 1)
    }
}

/// Ordinal-table entry `i`: an index into the export address table.
pub open spec fn ordinal_at(b: Seq<u8>, i: int) -> int {
    le16(b, ords_off(b) + 2 * i) as int
}

/// Export-address-table entry `o`.
pub open spec fn func_rva_at(b: Seq<u8>, o: int) -> u32 {
    le32(b, funcs_off(b) + 4 * o)
}

/// An address inside the export directory is a forwarder string, not code.
pub open spec fn is_forwarder(b: Seq<u8>, rva: u32) -> bool {
    export_dir_rva(b) <= rva < export_dir_rva(b) + export_dir_size(b)
}

/// What looking up `name` in the export table of `b` yields: the export's
/// RVA; `ExportNotFound` when the image exports nothing of that name;
/// `ExportForwarded` when the entry forwards to another module; `Parse` when
/// the structure itself cannot be walked.
pub open spec fn export_lookup(b: Seq<u8>, name: Seq<u8>) -> Result<u32, PeError> {
    if !(file_header_wf(b) && opt_wf(b) && sections_wf(b)) {
        Err(PeError::Parse)
    } else if export_dir_rva(b) == 0 {
        Err(PeError::ExportNotFound)
    } else if !export_tables_wf(b) {
        Err(PeError::Parse)
    } else {
        match find_name(b, name, 0) {
            None => Err(PeError::ExportNotFound),
            Some(i) => {
                if !(ordinal_at(b, i) < num_funcs_of(b)) {
                    Err(PeError::Parse)
                } else if is_forwarder(b, func_rva_at(b, ordinal_at(b, i))) {
                    Err(PeError::ExportForwarded)
                } else {
                    Ok(func_rva_at(b, ordinal_at(b, i)))
                }
            },
        }
    }
}

/// Resolves `rva` to a file offset through the section table.
fn off_for_rva(image: &[u8], soff: usize, nsec: u16, rva: u32) -> (r: Option<u64>)
    requires
        soff as int == sections_off(image@),
        nsec as int == num_sections_of(image@),
        sections_wf(image@),
    ensures
        match r {
            Some(o) => off_of_rva(image@, rva) == Some(o as int) && o < 0x2_0000_0000,
            None => off_of_rva(image@, rva) is None,
        },
{
    let len: usize = image.len();
    let mut i: u16 = 0;
    while i < nsec
        invariant
            0 <= i <= nsec,
            len == image@.len(),
            soff as int == sections_off(image@),
            nsec as int == num_sections_of(image@),
            sections_wf(image@),
            find_section(image@, rva, 0) == find_section(image@, rva, i as int),
        decreases nsec - i,
    {
        let entry: usize = soff + 40 * (i as usize);
        let va: u32 = read_u32_le(image, entry + 12);
        let rsz: u32 = read_u32_le(image, entry + 16);
        if va <= rva && rva - va < rsz {
            let raw: u32 = read_u32_le(image, entry + 20);
            assert(find_section(image@, rva, i as int) == Some(i as int));
            return Some(raw as u64 + (rva - va) as u64);
        }
        assert(find_section(image@, rva, i as int) == find_section(image@, rva, i as int + 1));
        i = i + 1;
    }
    None
}

/// Compares the nul-terminated string at offset `off` with `name`.
fn cstr_eq_at(image: &[u8], off: u64, name: &[u8]) -> (r: bool)
    ensures
        r == cstr_matches(image@, off as int, name@),
{
    let len: usize = image.len();
    if off >= len as u64 {
        return false;
    }
    if (name.len() as u64) > (len as u64) - off - 1 {
        return false;
    }
    let o: usize = off as usize;
    let n: usize = name.len();
    let mut j: usize = 0;
    while j < n
        invariant
            0 <= j <= n,
            n == name@.len(),
            o == off,
            len == image@.len(),
            o + n + 1 <= len,
            forall|k: int| 0 <= k < j ==> image@[o + k] == name@[k],
        decreases n - j,
    {
        if image[o + j] != name[j] {
            return false;
        }
        j = j + 1;
    }
    image[o + n] == 0
}

/// Looks up a named export in a PE image held in memory and returns its RVA.
pub fn export_rva(image: &[u8], export_name: &[u8]) -> (r: Result<u32, PeError>)
    ensures
        r == export_lookup(image@, export_name@),
{
    let len: usize = image.len();
    // IMAGE_FILE_HEADER
    if len < 0x40 {
        return Err(PeError::Parse);
    }
    if !(image[0] == 0x4D && image[1] == 0x5A) {
        return Err(PeError::Parse);
    }
    let poff32: u32 = read_u32_le(image, 0x3C);
    let poff: usize = poff32 as usize;
    if poff > len - 24 {
        return Err(PeError::Parse);
    }
    if !(image[poff] == 0x50 && image[poff + 1] == 0x45 && image[poff + 2] == 0 && image[poff + 3]
        == 0) {
        return Err(PeError::Parse);
    }
    assert(file_header_wf(image@));
    // optional header
    let coff: usize = poff + 4;
    let nsec: u16 = read_u16_le(image, coff + 2);
    let optsize16: u16 = read_u16_le(image, coff + 16);
    let optsize: usize = optsize16 as usize;
    let opt: usize = coff + 20;
    if optsize > len - opt {
        return Err(PeError::Parse);
    }
    if optsize < 2 {
        return Err(PeError::Parse);
    }
    let magic: u16 = read_u16_le(image, opt);
    if !(magic == 0x10B || magic == 0x20B) {
        return Err(PeError::Parse);
    }
    let need: usize = if magic == 0x10B {
        104
    } else {
        120
    };
    if optsize < need {
        return Err(PeError::Parse);
    }
    let ddoff: usize = opt + if magic == 0x10B {
        96
    } else {
        112
    };
    let nrvas: u32 = read_u32_le(image, ddoff - 4);
    if nrvas < 1 {
        return Err(PeError::Parse);
    }
    assert(opt_wf(image@));
    // section table
    let soff: usize = opt + optsize;
    if 40 * (nsec as usize) > len - soff {
        return Err(PeError::Parse);
    }
    assert(sections_wf(image@));
    // export directory
    let edrva: u32 = read_u32_le(image, ddoff);
    let edsize: u32 = read_u32_le(image, ddoff + 4);
    if edrva == 0 {
        return Err(PeError::ExportNotFound);
    }
    let edo64: u64 = match off_for_rva(image, soff, nsec, edrva) {
        None => {
            return Err(PeError::Parse);
        },
        Some(o) => o,
    };
    if edo64 + 40 > len as u64 {
        return Err(PeError::Parse);
    }
    let eoff: usize = edo64 as usize;
    let nfuncs: u32 = read_u32_le(image, eoff + 20);
    let nnames: u32 = read_u32_le(image, eoff + 24);
    let aof: u32 = read_u32_le(image, eoff + 28);
    let aon: u32 = read_u32_le(image, eoff + 32);
    let aoo: u32 = read_u32_le(image, eoff + 36);
    let fo64: u64 = match off_for_rva(image, soff, nsec, aof) {
        None => {
            return Err(PeError::Parse);
        },
        Some(o) => o,
    };
    if fo64 + 4 * (nfuncs as u64) > len as u64 {
        return Err(PeError::Parse);
    }
    let no64: u64 = match off_for_rva(image, soff, nsec, aon) {
        None => {
            return Err(PeError::Parse);
        },
        Some(o) => o,
    };
    if no64 + 4 * (nnames as u64) > len as u64 {
        return Err(PeError::Parse);
    }
    let oo64: u64 = match off_for_rva(image, soff, nsec, aoo) {
        None => {
            return Err(PeError::Parse);
        },
        Some(o) => o,
    };
    if oo64 + 2 * (nnames as u64) > len as u64 {
        return Err(PeError::Parse);
    }
    assert(export_tables_wf(image@));
    let fo: usize = fo64 as usize;
    let no: usize = no64 as usize;
    let oo: usize = oo64 as usize;
    // name scan
    let mut i: u32 = 0;
    let mut found: Option<u32> = None;
    while i < nnames && found.is_none()
        invariant
            0 <= i <= nnames,
            soff as int == sections_off(image@),
            nsec as int == num_sections_of(image@),
            sections_wf(image@),
            export_tables_wf(image@),
            nnames as int == num_names_of(image@),
            no as int == names_off(image@),
            len == image@.len(),
            match found {
                None => find_name(image@, export_name@, 0) == find_name(
                    image@,
                    export_name@,
                    i as int,
                ),
                Some(f) => find_name(image@, export_name@, 0) == Some(f as int) && f < nnames,
            },
        decreases
                nnames - i + if found is None {
                    1int
                } else {
                    0int
                },
    {
        let nrva: u32 = read_u32_le(image, no + 4 * (i as usize));
        assert(nrva == name_rva_at(image@, i as int));
        let matched: bool = match off_for_rva(image, soff, nsec, nrva) {
            None => false,
            Some(o) => cstr_eq_at(image, o, export_name),
        };
        assert(matched == name_matches(image@, export_name@, i as int));
        if matched {
            found = Some(i);
        } else {
            assert(find_name(image@, export_name@, i as int) == find_name(
                image@,
                export_name@,
                i as int + 1,
            ));
            i = i + 1;
        }
    }
    let f: u32 = match found {
        None => {
            return Err(PeError::ExportNotFound);
        },
        Some(f) => f,
    };
    // ordinal and address
    let ord: u16 = read_u16_le(image, oo + 2 * (f as usize));
    if !((ord as u32) < nfuncs) {
        return Err(PeError::Parse);
    }
    let frva: u32 = read_u32_le(image, fo + 4 * (ord as usize));
    if frva >= edrva && frva - edrva < edsize {
        return Err(PeError::ExportForwarded);
    }
    Ok(frva)
}

/// Classifies an image and renders the tag as its display label.
pub fn get_dll_architecture(b: &[u8]) -> (r: Result<String, PeError>)
    ensures
        match (r, classify_spec(b@)) {
            (Ok(s), Ok(a)) => s@ == arch_label_spec(a),
            (Err(e), Err(f)) => e == f,
            _ => false,
        },
{
    match classify_image(b) {
        Ok(a) => Ok(arch_label(a)),
        Err(e) => Err(e),
    }
}

} // verus!
