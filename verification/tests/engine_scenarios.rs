use injector_core::engine::{
    Action, Event, InjectError, InjectionEngine, ModuleLocation, Protection, RemoteRegion, Step,
};
use injector_core::process::{ProcessArch, ProcessDescriptor};

fn target(arch: ProcessArch, bits: u32) -> ProcessDescriptor {
    ProcessDescriptor {
        pid: 4242,
        ppid: 4,
        arch,
        bits,
        start_time: 1_000_000,
        path: "C:\\apps\\victim.exe".to_owned(),
        name: "victim.exe".to_owned(),
    }
}

fn put_u16(b: &mut [u8], off: usize, v: u16) {
    b[off..off + 2].copy_from_slice(&v.to_le_bytes());
}

fn put_u32(b: &mut [u8], off: usize, v: u32) {
    b[off..off + 4].copy_from_slice(&v.to_le_bytes());
}

/// A minimal 32-bit `kernel32.dll` stand-in exporting `LoadLibraryW` at
/// RVA 0x3000.
fn kernel32_image() -> Vec<u8> {
    let mut b = vec![0u8; 0x400];
    b[0] = 0x4D;
    b[1] = 0x5A;
    put_u32(&mut b, 0x3C, 0x40);
    b[0x40] = 0x50;
    b[0x41] = 0x45;
    put_u16(&mut b, 0x44, 0x014C);
    put_u16(&mut b, 0x46, 1);
    put_u16(&mut b, 0x54, 0xE0);
    put_u16(&mut b, 0x56, 0x2102);
    put_u16(&mut b, 0x58, 0x10B);
    put_u32(&mut b, 0x78, 0x1000);
    put_u32(&mut b, 0x7C, 0x200);
    put_u32(&mut b, 0x90, 0x2000);
    put_u32(&mut b, 0x94, 0x200);
    put_u32(&mut b, 0xB4, 16);
    put_u32(&mut b, 0xB8, 0x1000);
    put_u32(&mut b, 0xBC, 0x100);
    b[0x138..0x140].copy_from_slice(b".edata\0\0");
    put_u32(&mut b, 0x138 + 8, 0x200);
    put_u32(&mut b, 0x138 + 12, 0x1000);
    put_u32(&mut b, 0x138 + 16, 0x200);
    put_u32(&mut b, 0x138 + 20, 0x200);
    put_u32(&mut b, 0x200 + 12, 0x1090);
    put_u32(&mut b, 0x200 + 16, 1);
    put_u32(&mut b, 0x200 + 20, 1);
    put_u32(&mut b, 0x200 + 24, 1);
    put_u32(&mut b, 0x200 + 28, 0x1040);
    put_u32(&mut b, 0x200 + 32, 0x1050);
    put_u32(&mut b, 0x200 + 36, 0x1060);
    put_u32(&mut b, 0x240, 0x3000);
    put_u32(&mut b, 0x250, 0x1080);
    put_u16(&mut b, 0x260, 0);
    b[0x280..0x280 + 13].copy_from_slice(b"LoadLibraryW\0");
    b[0x290..0x290 + 13].copy_from_slice(b"KERNEL32.dll\0");
    b
}

fn expected_wide_bytes(path: &str) -> Vec<u8> {
    path.encode_utf16().chain(std::iter::once(0)).flat_map(|u| u.to_le_bytes()).collect()
}

const K32_BASE: u64 = 0x7600_0000;
const PATH_ADDR: u64 = 0x0002_0000;
const STUB_ADDR: u64 = 0x0003_0000;

/// Drives the slow path up to the point where the remote thread has been
/// spawned and signaled with `wait_code`, then runs the cleanup to the end.
fn run_slow_path(wait_code: u32, ntstatus: i32) -> (InjectionEngine, Step) {
    let dll = "C:\\tmp\\hello32.dll";
    let mut eng = InjectionEngine::new(target(ProcessArch::X86, 32), dll.to_owned());
    let s = eng.start();
    match &s {
        Step::Do(Action::AllocPath { len }) => {
            assert_eq!(*len, expected_wide_bytes(dll).len());
        },
        other => panic!("expected AllocPath, got {other:?}"),
    }
    let s = eng.on_event(Event::PathAllocated { address: Some(PATH_ADDR) });
    match &s {
        Step::Do(Action::WritePath { region, bytes }) => {
            assert_eq!(
                *region,
                RemoteRegion {
                    base: PATH_ADDR,
                    len: expected_wide_bytes(dll).len(),
                    prot: Protection::ReadWrite,
                }
            );
            assert_eq!(*bytes, expected_wide_bytes(dll));
        },
        other => panic!("expected WritePath, got {other:?}"),
    }
    let s = eng.on_event(Event::PathWritten { ok: true });
    match &s {
        Step::Do(Action::FindModule { module_name }) => {
            assert_eq!(module_name, "KERNEL32.DLL");
        },
        other => panic!("expected FindModule, got {other:?}"),
    }
    let s = eng.on_event(Event::ModuleLocated {
        module: Some(ModuleLocation {
            base: K32_BASE,
            image_path: "C:\\Windows\\SysWOW64\\kernel32.dll".to_owned(),
        }),
    });
    match &s {
        Step::Do(Action::ReadModuleImage { image_path }) => {
            assert_eq!(image_path, "C:\\Windows\\SysWOW64\\kernel32.dll");
        },
        other => panic!("expected ReadModuleImage, got {other:?}"),
    }
    let s = eng.on_event(Event::ImageRead { bytes: Some(kernel32_image()) });
    assert_eq!(s, Step::Do(Action::AllocStub { len: 16 }));
    let s = eng.on_event(Event::StubAllocated { address: Some(STUB_ADDR) });
    match &s {
        Step::Do(Action::WriteStub { region, bytes }) => {
            assert_eq!(
                *region,
                RemoteRegion { base: STUB_ADDR, len: 16, prot: Protection::ExecuteReadWrite }
            );
            // mov eax, path; push eax; mov eax, k32_base + rva; call eax; ret 4
            let ll: u32 = (K32_BASE as u32).wrapping_add(0x3000);
            let path32: u32 = PATH_ADDR as u32;
            let mut expected = vec![0xB8u8];
            expected.extend_from_slice(&path32.to_le_bytes());
            expected.push(0x50);
            expected.push(0xB8);
            expected.extend_from_slice(&ll.to_le_bytes());
            expected.extend_from_slice(&[0xFF, 0xD0, 0xC2, 0x04, 0x00]);
            assert_eq!(*bytes, expected);
        },
        other => panic!("expected WriteStub, got {other:?}"),
    }
    let s = eng.on_event(Event::StubWritten { ok: true });
    assert_eq!(s, Step::Do(Action::OpenTarget { pid: 4242 }));
    let s = eng.on_event(Event::TargetOpened { ok: true });
    assert_eq!(s, Step::Do(Action::SpawnThread { start_address: STUB_ADDR }));
    let s = eng.on_event(Event::ThreadSpawned { ntstatus });
    if !(0..=0x3FFF_FFFF).contains(&ntstatus) {
        // thread creation failed: no thread handle exists, so cleanup
        // starts with the process handle
        assert_eq!(s, Step::Do(Action::CloseTarget));
        let s = eng.on_event(Event::TargetClosed);
        let s = free_both_regions(&mut eng, s);
        return (eng, s);
    }
    assert_eq!(s, Step::Do(Action::AwaitThread));
    let s = eng.on_event(Event::ThreadSignaled { code: wait_code });
    assert_eq!(s, Step::Do(Action::CloseThread));
    let s = eng.on_event(Event::ThreadClosed);
    assert_eq!(s, Step::Do(Action::CloseTarget));
    let s = eng.on_event(Event::TargetClosed);
    let s = free_both_regions(&mut eng, s);
    (eng, s)
}

fn free_both_regions(eng: &mut InjectionEngine, s: Step) -> Step {
    match &s {
        Step::Do(Action::FreeStub { region }) => assert_eq!(region.base, STUB_ADDR),
        other => panic!("expected FreeStub, got {other:?}"),
    }
    let s = eng.on_event(Event::StubFreed);
    match &s {
        Step::Do(Action::FreePath { region }) => assert_eq!(region.base, PATH_ADDR),
        other => panic!("expected FreePath, got {other:?}"),
    }
    eng.on_event(Event::PathFreed)
}

#[test]
fn fast_path_succeeds_without_remote_memory() {
    let mut eng =
        InjectionEngine::new(target(ProcessArch::X64, 64), "C:\\tmp\\hello64.dll".to_owned());
    let s = eng.start();
    match &s {
        Step::Do(Action::LoadNative { dll_path }) => assert_eq!(dll_path, "C:\\tmp\\hello64.dll"),
        other => panic!("expected LoadNative, got {other:?}"),
    }
    let s = eng.on_event(Event::NativeLoaded { error: None });
    assert_eq!(s, Step::Done(Ok(())));
    assert_eq!(eng.counts(), (0, 0, 0, 0));
}

#[test]
fn fast_path_failure_carries_the_reason() {
    let mut eng = InjectionEngine::new(target(ProcessArch::X64, 64), "C:\\x.dll".to_owned());
    let _ = eng.start();
    let s = eng.on_event(Event::NativeLoaded { error: Some("no such process".to_owned()) });
    assert_eq!(s, Step::Done(Err(InjectError::NativeInject("no such process".to_owned()))));
}

#[test]
fn slow_path_success_balances_all_resources() {
    let (eng, s) = run_slow_path(0, 0);
    assert_eq!(s, Step::Done(Ok(())));
    assert_eq!(eng.counts(), (2, 2, 2, 2));
}

#[test]
fn wait_abandonment_is_reported_after_full_cleanup() {
    let (eng, s) = run_slow_path(0x0000_0080, 0);
    assert_eq!(s, Step::Done(Err(InjectError::Wait(0x0000_0080))));
    assert_eq!(eng.counts(), (2, 2, 2, 2));
}

#[test]
fn denied_thread_creation_releases_everything() {
    let status = 0xC000_0022u32 as i32;
    let (eng, s) = run_slow_path(0, status);
    assert_eq!(s, Step::Done(Err(InjectError::ThreadCreate(status))));
    assert_eq!(eng.counts(), (2, 2, 1, 1));
}

#[test]
fn unopenable_target_frees_both_regions() {
    let dll = "C:\\tmp\\hello32.dll";
    let mut eng = InjectionEngine::new(target(ProcessArch::X86, 32), dll.to_owned());
    let _ = eng.start();
    let _ = eng.on_event(Event::PathAllocated { address: Some(PATH_ADDR) });
    let _ = eng.on_event(Event::PathWritten { ok: true });
    let _ = eng.on_event(Event::ModuleLocated {
        module: Some(ModuleLocation { base: K32_BASE, image_path: "k32".to_owned() }),
    });
    let _ = eng.on_event(Event::ImageRead { bytes: Some(kernel32_image()) });
    let _ = eng.on_event(Event::StubAllocated { address: Some(STUB_ADDR) });
    let _ = eng.on_event(Event::StubWritten { ok: true });
    let s = eng.on_event(Event::TargetOpened { ok: false });
    let s = free_both_regions(&mut eng, s);
    assert_eq!(s, Step::Done(Err(InjectError::OpenProcess)));
    assert_eq!(eng.counts(), (2, 2, 0, 0));
}

#[test]
fn missing_kernel32_frees_the_path_region() {
    let mut eng = InjectionEngine::new(target(ProcessArch::X86, 32), "C:\\a.dll".to_owned());
    let _ = eng.start();
    let _ = eng.on_event(Event::PathAllocated { address: Some(PATH_ADDR) });
    let _ = eng.on_event(Event::PathWritten { ok: true });
    let s = eng.on_event(Event::ModuleLocated { module: None });
    match &s {
        Step::Do(Action::FreePath { region }) => assert_eq!(region.base, PATH_ADDR),
        other => panic!("expected FreePath, got {other:?}"),
    }
    let s = eng.on_event(Event::PathFreed);
    assert_eq!(s, Step::Done(Err(InjectError::ModuleNotFound)));
    assert_eq!(eng.counts(), (1, 1, 0, 0));
}

#[test]
fn failed_path_allocation_leaks_nothing() {
    let mut eng = InjectionEngine::new(target(ProcessArch::X86, 32), "C:\\a.dll".to_owned());
    let _ = eng.start();
    let s = eng.on_event(Event::PathAllocated { address: None });
    assert_eq!(s, Step::Done(Err(InjectError::Alloc)));
    assert_eq!(eng.counts(), (0, 0, 0, 0));
}

#[test]
fn unreadable_kernel32_image_frees_the_path_region() {
    let mut eng = InjectionEngine::new(target(ProcessArch::X86, 32), "C:\\a.dll".to_owned());
    let _ = eng.start();
    let _ = eng.on_event(Event::PathAllocated { address: Some(PATH_ADDR) });
    let _ = eng.on_event(Event::PathWritten { ok: true });
    let _ = eng.on_event(Event::ModuleLocated {
        module: Some(ModuleLocation { base: K32_BASE, image_path: "k32".to_owned() }),
    });
    let s = eng.on_event(Event::ImageRead { bytes: None });
    match &s {
        Step::Do(Action::FreePath { .. }) => {},
        other => panic!("expected FreePath, got {other:?}"),
    }
    let s = eng.on_event(Event::PathFreed);
    assert_eq!(s, Step::Done(Err(InjectError::PeParse)));
}

#[test]
fn garbage_kernel32_image_reports_parse_failure() {
    let mut eng = InjectionEngine::new(target(ProcessArch::X86, 32), "C:\\a.dll".to_owned());
    let _ = eng.start();
    let _ = eng.on_event(Event::PathAllocated { address: Some(PATH_ADDR) });
    let _ = eng.on_event(Event::PathWritten { ok: true });
    let _ = eng.on_event(Event::ModuleLocated {
        module: Some(ModuleLocation { base: K32_BASE, image_path: "k32".to_owned() }),
    });
    let s = eng.on_event(Event::ImageRead { bytes: Some(b"not a pe image".to_vec()) });
    match &s {
        Step::Do(Action::FreePath { .. }) => {},
        other => panic!("expected FreePath, got {other:?}"),
    }
    let s = eng.on_event(Event::PathFreed);
    assert_eq!(s, Step::Done(Err(InjectError::PeParse)));
}

#[test]
fn failed_path_write_frees_the_path_region() {
    let mut eng = InjectionEngine::new(target(ProcessArch::X86, 32), "C:\\a.dll".to_owned());
    let _ = eng.start();
    let _ = eng.on_event(Event::PathAllocated { address: Some(PATH_ADDR) });
    let s = eng.on_event(Event::PathWritten { ok: false });
    match &s {
        Step::Do(Action::FreePath { .. }) => {},
        other => panic!("expected FreePath, got {other:?}"),
    }
    let s = eng.on_event(Event::PathFreed);
    assert_eq!(s, Step::Done(Err(InjectError::Write)));
    assert_eq!(eng.counts(), (1, 1, 0, 0));
}

#[test]
fn unsupported_architecture_is_a_typed_error() {
    let mut eng = InjectionEngine::new(target(ProcessArch::Other, 64), "C:\\a.dll".to_owned());
    let s = eng.start();
    assert_eq!(s, Step::Done(Err(InjectError::UnsupportedArch)));
}

#[test]
fn nul_in_the_dll_path_is_rejected_up_front() {
    let mut eng =
        InjectionEngine::new(target(ProcessArch::X86, 32), "C:\\bro\u{0}ken.dll".to_owned());
    let s = eng.start();
    assert_eq!(s, Step::Done(Err(InjectError::PathEncode)));
    assert_eq!(eng.counts(), (0, 0, 0, 0));
}
