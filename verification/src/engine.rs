//! The injection engine: a verified state machine that drives one injection
//! of a library into a target process.
//!
//! The engine owns every decision of the protocol; the operating system work
//! is performed by an unverified collaborator. Each step hands the
//! collaborator an [`Action`] to perform; the collaborator reports what
//! happened as an [`Event`], and the engine answers with the next action or
//! with the final result. Targets matching the injector's bit width take the
//! fast path (one cross-process load delegated to a library routine);
//! 32-bit targets take the slow path: write the wide DLL path into the
//! target, locate the target's `kernel32.dll` and the RVA of `LoadLibraryW`
//! in its on-disk image, assemble the 32-bit stub, write it to executable
//! remote memory, spawn a remote thread at it, wait, and clean everything
//! up. Cleanup of every region and handle is unconditional once acquired,
//! on the failure paths as on the success path.

use vstd::prelude::*;

use crate::pe::{export_rva, PeError};
use crate::process::{ProcessArch, ProcessDescriptor};
use crate::stub::{assemble_stub, stub_bytes, STUB_LEN};
use crate::utf16::{encode_wide_nul, has_nul, utf16_units, wide_le_bytes, wide_to_bytes};

verus! {

/// Protection of a remote memory region.
#[derive(Clone, Copy, Debug, PartialEq, Eq, Structural)]
pub enum Protection {
    ReadWrite,
    ExecuteReadWrite,
}

/// Memory allocated inside the target process.
#[derive(Clone, Copy, Debug, PartialEq, Eq, Structural)]
pub struct RemoteRegion {
    /// Base address in the target's address space.
    pub base: u64,
    /// Requested length in bytes.
    pub len: usize,
    pub prot: Protection,
}

/// Why an injection failed.
#[derive(Clone, Debug, PartialEq, Eq)]
pub enum InjectError {
    /// A PE image could not be read or parsed.
    PeParse,
    /// Remote allocation failed.
    Alloc,
    /// A cross-process write failed.
    Write,
    /// The target has no module of the requested name.
    ModuleNotFound,
    /// The loader entry is not exported by the located module.
    ExportNotFound,
    /// The stub assembler refused the instruction sequence. The assembler in
    /// this library is total, so this error is never produced; the variant
    /// remains so that callers see the full taxonomy of injection failures.
    Assembly,
    /// No process handle with thread-creation rights could be obtained.
    OpenProcess,
    /// The thread-creation syscall returned a non-success NTSTATUS.
    ThreadCreate(i32),
    /// The wait on the remote thread signaled abandonment, timeout or failure.
    Wait(u32),
    /// The fast-path library routine failed, with its reason.
    NativeInject(String),
    /// The target's architecture is neither X86 nor X64.
    UnsupportedArch,
    /// The DLL path contains a nul and has no nul-terminated encoding.
    PathEncode,
}

/// A loaded module located in the target, with the on-disk image the remote
/// loader actually mapped (under `SysWOW64` for WoW64 targets).
#[derive(Clone, Debug, PartialEq, Eq)]
pub struct ModuleLocation {
    pub base: u64,
    pub image_path: String,
}

/// What the engine asks the collaborator to do next.
#[derive(Clone, Debug, PartialEq, Eq)]
pub enum Action {
    /// Fast path: load `dll_path` into the target through the standard
    /// cross-process load routine.
    LoadNative { dll_path: String },
    /// Allocate `len` read-write bytes in the target for the DLL path.
    AllocPath { len: usize },
    /// Write `bytes` into the path region.
    WritePath { region: RemoteRegion, bytes: Vec<u8> },
    /// Locate the named module in the target (case-insensitive).
    FindModule { module_name: String },
    /// Read the located module's on-disk image.
    ReadModuleImage { image_path: String },
    /// Allocate `len` executable read-write bytes in the target for the stub.
    AllocStub { len: usize },
    /// Write `bytes` into the stub region.
    WriteStub { region: RemoteRegion, bytes: Vec<u8> },
    /// Open the target process with thread-creation rights.
    OpenTarget { pid: u32 },
    /// Spawn a remote thread at `start_address` with a null parameter,
    /// through the lowest-level thread-creation syscall: full thread access,
    /// null object attributes, no creation flags, default stack sizes, no
    /// attribute list.
    SpawnThread { start_address: u64 },
    /// Wait on the spawned thread with an infinite timeout.
    AwaitThread,
    /// Close the thread handle.
    CloseThread,
    /// Close the process handle.
    CloseTarget,
    /// Free the stub region.
    FreeStub { region: RemoteRegion },
    /// Free the path region.
    FreePath { region: RemoteRegion },
}

/// What the collaborator reports back after performing an action.
#[derive(Clone, Debug, PartialEq, Eq)]
pub enum Event {
    /// Outcome of `LoadNative`: `None` on success, the routine's reason
    /// otherwise.
    NativeLoaded { error: Option<String> },
    /// Outcome of `AllocPath`: the region's base address, if any.
    PathAllocated { address: Option<u64> },
    /// Outcome of `WritePath`.
    PathWritten { ok: bool },
    /// Outcome of `FindModule`.
    ModuleLocated { module: Option<ModuleLocation> },
    /// Outcome of `ReadModuleImage`: the image bytes, if readable.
    ImageRead { bytes: Option<Vec<u8>> },
    /// Outcome of `AllocStub`.
    StubAllocated { address: Option<u64> },
    /// Outcome of `WriteStub`.
    StubWritten { ok: bool },
    /// Outcome of `OpenTarget`.
    TargetOpened { ok: bool },
    /// Outcome of `SpawnThread`: the syscall's NTSTATUS.
    ThreadSpawned { ntstatus: i32 },
    /// Outcome of `AwaitThread`: the wait code.
    ThreadSignaled { code: u32 },
    /// The thread handle is closed.
    ThreadClosed,
    /// The process handle is closed.
    TargetClosed,
    /// The stub region is freed.
    StubFreed,
    /// The path region is freed.
    PathFreed,
}

/// The engine's answer to an event: another action to perform, or the final
/// result of the injection.
#[derive(Debug, PartialEq, Eq)]
pub enum Step {
    Do(Action),
    Done(Result<(), InjectError>),
}

/// The kind of an emitted action, recorded in the engine's history.
#[derive(Clone, Copy, Debug, PartialEq, Eq, Structural)]
pub enum ActionKind {
    KLoadNative,
    KAllocPath,
    KWritePath,
    KFindModule,
    KReadImage,
    KAllocStub,
    KWriteStub,
    KOpenTarget,
    KSpawnThread,
    KAwaitThread,
    KCloseThread,
    KCloseTarget,
    KFreeStub,
    KFreePath,
}

/// The kind of an action.
pub open spec fn kind_of(a: Action) -> ActionKind {
    match a {
        Action::LoadNative { .. } => ActionKind::KLoadNative,
        Action::AllocPath { .. } => ActionKind::KAllocPath,
        Action::WritePath { .. } => ActionKind::KWritePath,
        Action::FindModule { .. } => ActionKind::KFindModule,
        Action::ReadModuleImage { .. } => ActionKind::KReadImage,
        Action::AllocStub { .. } => ActionKind::KAllocStub,
        Action::WriteStub { .. } => ActionKind::KWriteStub,
        Action::OpenTarget { .. } => ActionKind::KOpenTarget,
        Action::SpawnThread { .. } => ActionKind::KSpawnThread,
        Action::AwaitThread => ActionKind::KAwaitThread,
        Action::CloseThread => ActionKind::KCloseThread,
        Action::CloseTarget => ActionKind::KCloseTarget,
        Action::FreeStub { .. } => ActionKind::KFreeStub,
        Action::FreePath { .. } => ActionKind::KFreePath,
    }
}

/// The protocol stage of an action kind. Stages order the slow path: remote
/// writes precede the spawn, the spawn precedes the wait, the wait precedes
/// every release.
pub open spec fn stage(k: ActionKind) -> int {
    match k {
        ActionKind::KLoadNative => 0,
        ActionKind::KAllocPath => 1,
        ActionKind::KWritePath => 2,
        ActionKind::KFindModule => 3,
        ActionKind::KReadImage => 4,
        ActionKind::KAllocStub => 5,
        ActionKind::KWriteStub => 6,
        ActionKind::KOpenTarget => 7,
        ActionKind::KSpawnThread => 8,
        ActionKind::KAwaitThread => 9,
        ActionKind::KCloseThread => 10,
        ActionKind::KCloseTarget => 11,
        ActionKind::KFreeStub => 12,
        ActionKind::KFreePath => 13,
    }
}

/// The `i`-th action of the full slow path, in protocol order.
pub open spec fn slow_kind(i: int) -> ActionKind {
    if i == 0 {
        ActionKind::KAllocPath
    } else if i == 1 {
        ActionKind::KWritePath
    } else if i == 2 {
        ActionKind::KFindModule
    } else if i == 3 {
        ActionKind::KReadImage
    } else if i == 4 {
        ActionKind::KAllocStub
    } else if i == 5 {
        ActionKind::KWriteStub
    } else if i == 6 {
        ActionKind::KOpenTarget
    } else if i == 7 {
        ActionKind::KSpawnThread
    } else if i == 8 {
        ActionKind::KAwaitThread
    } else if i == 9 {
        ActionKind::KCloseThread
    } else if i == 10 {
        ActionKind::KCloseTarget
    } else if i == 11 {
        ActionKind::KFreeStub
    } else {
        ActionKind::KFreePath
    }
}

/// The first `n` actions of the full slow path.
pub open spec fn slow_prefix(n: int) -> Seq<ActionKind> {
    Seq::new(n as nat, |i: int| slow_kind(i))
}

/// The one-action history of the fast path.
pub open spec fn native_hist() -> Seq<ActionKind> {
    seq![ActionKind::KLoadNative]
}

/// Actions were emitted in strictly increasing protocol stage.
pub open spec fn stages_increasing(h: Seq<ActionKind>) -> bool {
    forall|i: int, j: int| 0 <= i < j < h.len() ==> stage(h[i]) < stage(h[j])
}

/// Every recorded stage lies below `b`.
pub open spec fn hist_stage_below(h: Seq<ActionKind>, b: int) -> bool {
    forall|i: int| 0 <= i < h.len() ==> stage(h[i]) < b
}

/// The UTF-8 name of the loader entry resolved in the target's
/// `kernel32.dll`.
pub open spec fn load_library_w_name() -> Seq<u8> {
    seq![76u8, 111u8, 97u8, 100u8, 76u8, 105u8, 98u8, 114u8, 97u8, 114u8, 121u8, 87u8]
}

/// The low 32 bits of `base + rva`: the loader-entry address as the 32-bit
/// target sees it.
pub open spec fn loader_addr(base: u64, rva: u32) -> u32 {
    ((base & 0xFFFF_FFFF) + rva) as u32
}

/// The low 32 bits of a remote address.
pub open spec fn low32(base: u64) -> u32 {
    (base & 0xFFFF_FFFF) as u32
}

/// Where the engine stands in the protocol.
#[derive(Clone, Copy, Debug, PartialEq, Eq, Structural)]
pub enum Phase {
    /// Created, not yet dispatched.
    Ready,
    /// Fast path: the native load is running.
    AwaitNative,
    AwaitPathAlloc,
    AwaitPathWrite,
    AwaitModule,
    AwaitImage,
    AwaitStubAlloc,
    AwaitStubWrite,
    AwaitOpen,
    AwaitSpawn,
    AwaitSignal,
    AwaitCloseThread,
    AwaitCloseTarget,
    AwaitFreeStub,
    AwaitFreePath,
    Finished,
}

/// One injection of one library into one target process.
pub struct InjectionEngine {
    phase: Phase,
    process: ProcessDescriptor,
    dll_path: String,
    wide_bytes: Vec<u8>,
    path_region: Option<RemoteRegion>,
    stub_region: Option<RemoteRegion>,
    kernel32_base: u64,
    export_rva_val: u32,
    stub_code: Vec<u8>,
    target_open: bool,
    thread_open: bool,
    outcome: Result<(), InjectError>,
    n_alloc_ok: u32,
    n_free: u32,
    n_open_ok: u32,
    n_close: u32,
    hist: Ghost<Seq<ActionKind>>,
}

impl InjectionEngine {
    /// Where the engine stands.
    pub closed spec fn state(self) -> Phase {
        self.phase
    }

    pub open spec fn ready(self) -> bool {
        self.state() == Phase::Ready
    }

    pub open spec fn finished(self) -> bool {
        self.state() == Phase::Finished
    }

    /// The target this engine injects into.
    pub closed spec fn process_desc(self) -> ProcessDescriptor {
        self.process
    }

    /// The library path this engine injects.
    pub closed spec fn dll_path_spec(self) -> String {
        self.dll_path
    }

    /// The kinds of the actions emitted so far, in order.
    pub closed spec fn history(self) -> Seq<ActionKind> {
        self.hist@
    }

    /// The final result; meaningful once the engine is finished.
    pub closed spec fn result_spec(self) -> Result<(), InjectError> {
        self.outcome
    }

    /// The nul-terminated wide encoding of the DLL path, as bytes.
    pub closed spec fn wide_bytes_spec(self) -> Seq<u8> {
        self.wide_bytes@
    }

    /// The path region, while allocated.
    pub closed spec fn path_region_spec(self) -> Option<RemoteRegion> {
        self.path_region
    }

    /// The stub region, while allocated.
    pub closed spec fn stub_region_spec(self) -> Option<RemoteRegion> {
        self.stub_region
    }

    /// The assembled stub.
    pub closed spec fn stub_code_spec(self) -> Seq<u8> {
        self.stub_code@
    }

    /// The located base of the target's `kernel32.dll`.
    pub closed spec fn k32_base_spec(self) -> u64 {
        self.kernel32_base
    }

    /// Successful remote allocations so far.
    pub closed spec fn alloc_count(self) -> u32 {
        self.n_alloc_ok
    }

    /// Remote regions freed so far.
    pub closed spec fn free_count(self) -> u32 {
        self.n_free
    }

    /// Handles obtained so far (process and thread).
    pub closed spec fn open_count(self) -> u32 {
        self.n_open_ok
    }

    /// Handles closed so far.
    pub closed spec fn close_count(self) -> u32 {
        self.n_close
    }

    /// How many remote regions the engine still holds.
    pub closed spec fn regions_held(self) -> int {
        (if self.path_region is Some {
            1int
        } else {
            0int
        }) + (if self.stub_region is Some {
            1int
        } else {
            0int
        })
    }

    /// How many handles the engine still holds.
    pub closed spec fn handles_held(self) -> int {
        (if self.target_open {
            1int
        } else {
            0int
        }) + (if self.thread_open {
            1int
        } else {
            0int
        })
    }

    /// Resource accounting: everything allocated is freed or still held,
    /// everything opened is closed or still held.
    closed spec fn counters_ok(self) -> bool {
        &&& self.n_alloc_ok as int == self.n_free as int + self.regions_held()
        &&& self.n_open_ok as int == self.n_close as int + self.handles_held()
        &&& self.n_alloc_ok <= 2
        &&& self.n_open_ok <= 2
    }

    /// Resources held in the straight-line phases before the spawn.
    closed spec fn holdings(
        self,
        path: bool,
        stub: bool,
        target: bool,
        thread: bool,
    ) -> bool {
        &&& self.path_region is Some <==> path
        &&& self.stub_region is Some <==> stub
        &&& self.target_open <==> target
        &&& self.thread_open <==> thread
    }

    /// The wide path bytes the slow path writes into the target.
    pub open spec fn encoded_path_ok(self) -> bool {
        self.wide_bytes_spec() == wide_le_bytes(
            utf16_units(self.dll_path_spec()@).push(0u16),
        )
    }

    /// The stub for the located loader entry and the allocated path region.
    pub open spec fn stub_code_ok(self) -> bool {
        self.stub_code_spec() == stub_bytes(
            loader_addr(self.k32_base_spec(), self.export_rva_spec()),
            low32(self.path_region_spec().unwrap().base),
        )
    }

    /// The RVA of the loader entry, as resolved from the image that was
    /// read.
    pub closed spec fn export_rva_spec(self) -> u32 {
        self.export_rva_val
    }

    /// Well-formedness: phase, held resources, accounting and history agree.
    pub closed spec fn wf(self) -> bool {
        &&& self.counters_ok()
        &&& stages_increasing(self.hist@)
        &&& match self.phase {
            Phase::Ready => {
                &&& self.holdings(false, false, false, false)
                &&& self.hist@ == Seq::<ActionKind>::empty()
                &&& self.n_free == 0 && self.n_close == 0
            },
            Phase::AwaitNative => {
                &&& self.holdings(false, false, false, false)
                &&& self.hist@ == native_hist()
                &&& self.n_free == 0 && self.n_close == 0
            },
            Phase::AwaitPathAlloc => {
                &&& self.holdings(false, false, false, false)
                &&& self.hist@ == slow_prefix(1)
                &&& self.n_free == 0 && self.n_close == 0
                &&& self.encoded_path_ok()
            },
            Phase::AwaitPathWrite => {
                &&& self.holdings(true, false, false, false)
                &&& self.hist@ == slow_prefix(2)
                &&& self.n_free == 0 && self.n_close == 0
                &&& self.encoded_path_ok()
            },
            Phase::AwaitModule => {
                &&& self.holdings(true, false, false, false)
                &&& self.hist@ == slow_prefix(3)
                &&& self.n_free == 0 && self.n_close == 0
            },
            Phase::AwaitImage => {
                &&& self.holdings(true, false, false, false)
                &&& self.hist@ == slow_prefix(4)
                &&& self.n_free == 0 && self.n_close == 0
            },
            Phase::AwaitStubAlloc => {
                &&& self.holdings(true, false, false, false)
                &&& self.hist@ == slow_prefix(5)
                &&& self.n_free == 0 && self.n_close == 0
                &&& self.stub_code_ok()
                &&& self.stub_code@.len() == STUB_LEN
            },
            Phase::AwaitStubWrite => {
                &&& self.holdings(true, true, false, false)
                &&& self.hist@ == slow_prefix(6)
                &&& self.n_free == 0 && self.n_close == 0
                &&& self.stub_code_ok()
                &&& self.stub_code@.len() == STUB_LEN
            },
            Phase::AwaitOpen => {
                &&& self.holdings(true, true, false, false)
                &&& self.hist@ == slow_prefix(7)
                &&& self.n_free == 0 && self.n_close == 0
            },
            Phase::AwaitSpawn => {
                &&& self.holdings(true, true, true, false)
                &&& self.hist@ == slow_prefix(8)
                &&& self.n_free == 0 && self.n_close == 0
            },
            Phase::AwaitSignal => {
                &&& self.holdings(true, true, true, true)
                &&& self.hist@ == slow_prefix(9)
                &&& self.n_free == 0 && self.n_close == 0
            },
            Phase::AwaitCloseThread => {
                &&& self.holdings(true, true, true, true)
                &&& self.cleanup_hist_ok(ActionKind::KCloseThread)
            },
            Phase::AwaitCloseTarget => {
                &&& self.thread_open == false
                &&& self.target_open == true
                &&& self.path_region is Some && self.stub_region is Some
                &&& self.cleanup_hist_ok(ActionKind::KCloseTarget)
            },
            Phase::AwaitFreeStub => {
                &&& self.thread_open == false && self.target_open == false
                &&& self.path_region is Some && self.stub_region is Some
                &&& self.cleanup_hist_ok(ActionKind::KFreeStub)
            },
            Phase::AwaitFreePath => {
                &&& self.thread_open == false && self.target_open == false
                &&& self.path_region is Some && self.stub_region is None
                &&& self.cleanup_hist_ok(ActionKind::KFreePath)
            },
            Phase::Finished => {
                &&& self.holdings(false, false, false, false)
                &&& (self.outcome is Ok ==> self.hist@ == native_hist() || self.hist@
                    == slow_prefix(13))
            },
        }
    }

    /// During cleanup: the history is stage-ordered, ends with the action
    /// this phase awaits, and on the success path is exactly the protocol
    /// prefix matching what is still held.
    closed spec fn cleanup_hist_ok(self, last: ActionKind) -> bool {
        &&& self.hist@.len() > 0
        &&& self.hist@.last() == last
        &&& (self.outcome is Ok ==> self.hist@ == slow_prefix(
            14 - self.regions_held() - self.handles_held(),
        ))
    }

    /// The engine awaits the answer to an action of kind `k`.
    pub open spec fn awaits(self, k: ActionKind) -> bool {
        match (self.state(), k) {
            (Phase::AwaitNative, ActionKind::KLoadNative) => true,
            (Phase::AwaitPathAlloc, ActionKind::KAllocPath) => true,
            (Phase::AwaitPathWrite, ActionKind::KWritePath) => true,
            (Phase::AwaitModule, ActionKind::KFindModule) => true,
            (Phase::AwaitImage, ActionKind::KReadImage) => true,
            (Phase::AwaitStubAlloc, ActionKind::KAllocStub) => true,
            (Phase::AwaitStubWrite, ActionKind::KWriteStub) => true,
            (Phase::AwaitOpen, ActionKind::KOpenTarget) => true,
            (Phase::AwaitSpawn, ActionKind::KSpawnThread) => true,
            (Phase::AwaitSignal, ActionKind::KAwaitThread) => true,
            (Phase::AwaitCloseThread, ActionKind::KCloseThread) => true,
            (Phase::AwaitCloseTarget, ActionKind::KCloseTarget) => true,
            (Phase::AwaitFreeStub, ActionKind::KFreeStub) => true,
            (Phase::AwaitFreePath, ActionKind::KFreePath) => true,
            _ => false,
        }
    }

    /// Which event the engine can take next.
    pub open spec fn expects(self, e: Event) -> bool {
        match (self.state(), e) {
            (Phase::AwaitNative, Event::NativeLoaded { .. }) => true,
            (Phase::AwaitPathAlloc, Event::PathAllocated { .. }) => true,
            (Phase::AwaitPathWrite, Event::PathWritten { .. }) => true,
            (Phase::AwaitModule, Event::ModuleLocated { .. }) => true,
            (Phase::AwaitImage, Event::ImageRead { .. }) => true,
            (Phase::AwaitStubAlloc, Event::StubAllocated { .. }) => true,
            (Phase::AwaitStubWrite, Event::StubWritten { .. }) => true,
            (Phase::AwaitOpen, Event::TargetOpened { .. }) => true,
            (Phase::AwaitSpawn, Event::ThreadSpawned { .. }) => true,
            (Phase::AwaitSignal, Event::ThreadSignaled { .. }) => true,
            (Phase::AwaitCloseThread, Event::ThreadClosed) => true,
            (Phase::AwaitCloseTarget, Event::TargetClosed) => true,
            (Phase::AwaitFreeStub, Event::StubFreed) => true,
            (Phase::AwaitFreePath, Event::PathFreed) => true,
            _ => false,
        }
    }

    /// Runtime counterpart of [`Self::expects`], for unverified callers.
    pub fn expects_event(&self, e: &Event) -> (r: bool)
        ensures
            r == self.expects(*e),
    {
        match (self.phase, e) {
            (Phase::AwaitNative, Event::NativeLoaded { .. }) => true,
            (Phase::AwaitPathAlloc, Event::PathAllocated { .. }) => true,
            (Phase::AwaitPathWrite, Event::PathWritten { .. }) => true,
            (Phase::AwaitModule, Event::ModuleLocated { .. }) => true,
            (Phase::AwaitImage, Event::ImageRead { .. }) => true,
            (Phase::AwaitStubAlloc, Event::StubAllocated { .. }) => true,
            (Phase::AwaitStubWrite, Event::StubWritten { .. }) => true,
            (Phase::AwaitOpen, Event::TargetOpened { .. }) => true,
            (Phase::AwaitSpawn, Event::ThreadSpawned { .. }) => true,
            (Phase::AwaitSignal, Event::ThreadSignaled { .. }) => true,
            (Phase::AwaitCloseThread, Event::ThreadClosed) => true,
            (Phase::AwaitCloseTarget, Event::TargetClosed) => true,
            (Phase::AwaitFreeStub, Event::StubFreed) => true,
            (Phase::AwaitFreePath, Event::PathFreed) => true,
            _ => false,
        }
    }

    /// Resource counters, in acquisition/release pairs: successful
    /// allocations, frees, handles obtained, handles closed.
    pub fn counts(&self) -> (r: (u32, u32, u32, u32))
        ensures
            r.0 == self.alloc_count(),
            r.1 == self.free_count(),
            r.2 == self.open_count(),
            r.3 == self.close_count(),
    {
        (self.n_alloc_ok, self.n_free, self.n_open_ok, self.n_close)
    }

    /// A fresh engine for one injection.
    pub fn new(process: ProcessDescriptor, dll_path: String) -> (r: InjectionEngine)
        ensures
            r.wf(),
            r.ready(),
            r.process_desc() == process,
            r.dll_path_spec() == dll_path,
            r.history() == Seq::<ActionKind>::empty(),
    {
        InjectionEngine {
            phase: Phase::Ready,
            process,
            dll_path,
            wide_bytes: Vec::new(),
            path_region: None,
            stub_region: None,
            kernel32_base: 0,
            export_rva_val: 0,
            stub_code: Vec::new(),
            target_open: false,
            thread_open: false,
            outcome: Ok(()),
            n_alloc_ok: 0,
            n_free: 0,
            n_open_ok: 0,
            n_close: 0,
            hist: Ghost(Seq::empty()),
        }
    }

    /// Dispatches the injection: the fast path for an X64 target, the slow
    /// path for an X86 target, and a typed error for anything else. Total:
    /// every descriptor yields an action or a typed error.
    pub fn start(&mut self) -> (s: Step)
        requires
            old(self).wf(),
            old(self).ready(),
        ensures
            final(self).wf(),
            final(self).process_desc() == old(self).process_desc(),
            final(self).dll_path_spec() == old(self).dll_path_spec(),
            match s {
                Step::Do(a) => {
                    &&& final(self).history() == old(self).history().push(kind_of(a))
                    &&& !final(self).finished()
                    &&& final(self).awaits(kind_of(a))
                },
                Step::Done(r) => {
                    &&& final(self).history() == old(self).history()
                    &&& final(self).finished()
                    &&& r == final(self).result_spec()
                },
            },
            old(self).process_desc().arch == ProcessArch::X64 ==> s == Step::Do(
                Action::LoadNative { dll_path: old(self).dll_path_spec() },
            ) && final(self).state() == Phase::AwaitNative,
            old(self).process_desc().arch == ProcessArch::X86 && !has_nul(
                old(self).dll_path_spec()@,
            ) ==> {
                &&& s == Step::Do(
                    Action::AllocPath {
                        len: wide_le_bytes(
                            utf16_units(old(self).dll_path_spec()@).push(0u16),
                        ).len() as usize,
                    },
                )
                &&& final(self).state() == Phase::AwaitPathAlloc
                &&& final(self).encoded_path_ok()
            },
            old(self).process_desc().arch == ProcessArch::X86 && has_nul(
                old(self).dll_path_spec()@,
            ) ==> s == Step::Done(Err(InjectError::PathEncode)),
            old(self).process_desc().arch == ProcessArch::Other ==> s == Step::Done(
                Err(InjectError::UnsupportedArch),
            ),
    {
        match self.process.arch {
            ProcessArch::X64 => {
                self.phase = Phase::AwaitNative;
                proof {
                    self.hist@ = self.hist@.push(ActionKind::KLoadNative);
                    assert(self.hist@ =~= native_hist());
                }
                Step::Do(Action::LoadNative { dll_path: self.dll_path.clone() })
            },
            ProcessArch::X86 => {
                match encode_wide_nul(self.dll_path.as_str()) {
                    None => {
                        self.phase = Phase::Finished;
                        self.outcome = Err(InjectError::PathEncode);
                        Step::Done(Err(InjectError::PathEncode))
                    },
                    Some(units) => {
                        let bytes = wide_to_bytes(&units);
                        let len = bytes.len();
                        self.wide_bytes = bytes;
                        self.phase = Phase::AwaitPathAlloc;
                        proof {
                            self.hist@ = self.hist@.push(ActionKind::KAllocPath);
                            assert(self.hist@ =~= slow_prefix(1));
                        }
                        Step::Do(Action::AllocPath { len })
                    },
                }
            },
            ProcessArch::Other => {
                self.phase = Phase::Finished;
                self.outcome = Err(InjectError::UnsupportedArch);
                Step::Done(Err(InjectError::UnsupportedArch))
            },
        }
    }

    /// The stage of the release that cleanup would perform next.
    closed spec fn next_cleanup_stage(self) -> int {
        if self.thread_open {
            10
        } else if self.target_open {
            11
        } else if self.stub_region is Some {
            12
        } else if self.path_region is Some {
            13
        } else {
            14
        }
    }

    /// Emits the next release for what is still held, in the fixed order
    /// thread handle, process handle, stub region, path region; with nothing
    /// left to release, reports the pending outcome.
    fn begin_cleanup(&mut self) -> (s: Step)
        requires
            old(self).counters_ok(),
            stages_increasing(old(self).history()),
            hist_stage_below(old(self).history(), old(self).next_cleanup_stage()),
            old(self).thread_open ==> old(self).target_open,
            old(self).target_open ==> old(self).stub_region_spec() is Some,
            old(self).stub_region_spec() is Some ==> old(self).path_region_spec() is Some,
            old(self).result_spec() is Ok ==> old(self).history() == slow_prefix(
                13 - old(self).regions_held() - old(self).handles_held(),
            ),
        ensures
            final(self).wf(),
            final(self).process_desc() == old(self).process_desc(),
            final(self).dll_path_spec() == old(self).dll_path_spec(),
            final(self).result_spec() == old(self).result_spec(),
            final(self).path_region_spec() == old(self).path_region_spec(),
            final(self).stub_region_spec() == old(self).stub_region_spec(),
            final(self).alloc_count() == old(self).alloc_count(),
            final(self).free_count() == old(self).free_count(),
            final(self).open_count() == old(self).open_count(),
            final(self).close_count() == old(self).close_count(),
            old(self).thread_open ==> s == Step::Do(Action::CloseThread) && final(self).state()
                == Phase::AwaitCloseThread,
            !old(self).thread_open && old(self).target_open ==> s == Step::Do(Action::CloseTarget)
                && final(self).state() == Phase::AwaitCloseTarget,
            !old(self).thread_open && !old(self).target_open && old(self).stub_region_spec()
                is Some ==> s == Step::Do(
                Action::FreeStub { region: old(self).stub_region_spec().unwrap() },
            ) && final(self).state() == Phase::AwaitFreeStub,
            !old(self).thread_open && !old(self).target_open && old(self).stub_region_spec()
                is None && old(self).path_region_spec() is Some ==> s == Step::Do(
                Action::FreePath { region: old(self).path_region_spec().unwrap() },
            ) && final(self).state() == Phase::AwaitFreePath,
            !old(self).thread_open && !old(self).target_open && old(self).stub_region_spec()
                is None && old(self).path_region_spec() is None ==> s == Step::Done(
                old(self).result_spec(),
            ) && final(self).state() == Phase::Finished,
            match s {
                Step::Do(a) => final(self).history() == old(self).history().push(kind_of(a))
                    && !final(self).finished() && final(self).awaits(kind_of(a)),
                Step::Done(r) => final(self).history() == old(self).history()
                    && final(self).finished() && r == final(self).result_spec(),
            },
    {
        if self.thread_open {
            self.phase = Phase::AwaitCloseThread;
            proof {
                lemma_increasing_push(self.hist@, ActionKind::KCloseThread);
                self.hist@ = self.hist@.push(ActionKind::KCloseThread);
                if self.outcome is Ok {
                    assert(self.hist@ =~= slow_prefix(10));
                }
            }
            Step::Do(Action::CloseThread)
        } else if self.target_open {
            self.phase = Phase::AwaitCloseTarget;
            proof {
                lemma_increasing_push(self.hist@, ActionKind::KCloseTarget);
                self.hist@ = self.hist@.push(ActionKind::KCloseTarget);
                if self.outcome is Ok {
                    assert(self.hist@ =~= slow_prefix(11));
                }
            }
            Step::Do(Action::CloseTarget)
        } else {
            match self.stub_region {
                Some(region) => {
                    self.phase = Phase::AwaitFreeStub;
                    proof {
                        lemma_increasing_push(self.hist@, ActionKind::KFreeStub);
                        self.hist@ = self.hist@.push(ActionKind::KFreeStub);
                        if self.outcome is Ok {
                            assert(self.hist@ =~= slow_prefix(12));
                        }
                    }
                    Step::Do(Action::FreeStub { region })
                },
                None => {
                    match self.path_region {
                        Some(region) => {
                            self.phase = Phase::AwaitFreePath;
                            proof {
                                lemma_increasing_push(self.hist@, ActionKind::KFreePath);
                                self.hist@ = self.hist@.push(ActionKind::KFreePath);
                                if self.outcome is Ok {
                                    assert(self.hist@ =~= slow_prefix(13));
                                }
                            }
                            Step::Do(Action::FreePath { region })
                        },
                        None => {
                            self.phase = Phase::Finished;
                            Step::Done(self.result_value())
                        },
                    }
                },
            }
        }
    }

    /// An owned copy of the pending outcome.
    fn result_value(&self) -> (r: Result<(), InjectError>)
        ensures
            r == self.result_spec(),
    {
        match &self.outcome {
            Ok(()) => {
                proof {
                    assert(self.outcome->Ok_0 == ());
                }
                Ok(())
            },
            Err(InjectError::PeParse) => Err(InjectError::PeParse),
            Err(InjectError::Alloc) => Err(InjectError::Alloc),
            Err(InjectError::Write) => Err(InjectError::Write),
            Err(InjectError::ModuleNotFound) => Err(InjectError::ModuleNotFound),
            Err(InjectError::ExportNotFound) => Err(InjectError::ExportNotFound),
            Err(InjectError::Assembly) => Err(InjectError::Assembly),
            Err(InjectError::ThreadCreate(n)) => Err(InjectError::ThreadCreate(*n)),
            Err(InjectError::Wait(c)) => Err(InjectError::Wait(*c)),
            Err(InjectError::NativeInject(msg)) => Err(InjectError::NativeInject(msg.clone())),
            Err(InjectError::OpenProcess) => Err(InjectError::OpenProcess),
            Err(InjectError::UnsupportedArch) => Err(InjectError::UnsupportedArch),
            Err(InjectError::PathEncode) => Err(InjectError::PathEncode),
        }
    }

    /// Takes the collaborator's report on the last action and answers with
    /// the next action or the final result. The transition relation below
    /// follows the protocol: each success advances one step; each failure
    /// records its error and releases, in order, whatever is still held.
    #[verifier::rlimit(100)]
    #[verifier::spinoff_prover]
    pub fn on_event(&mut self, e: Event) -> (s: Step)
        requires
            old(self).wf(),
            old(self).expects(e),
        ensures
            final(self).wf(),
            final(self).process_desc() == old(self).process_desc(),
            final(self).dll_path_spec() == old(self).dll_path_spec(),
            match s {
                Step::Do(a) => final(self).history() == old(self).history().push(kind_of(a))
                    && !final(self).finished() && final(self).awaits(kind_of(a)),
                Step::Done(r) => final(self).history() == old(self).history()
                    && final(self).finished() && r == final(self).result_spec(),
            },
            old(self).state() == Phase::AwaitNative ==> match e {
                Event::NativeLoaded { error } => match error {
                    None => s == Step::Done(Ok(())),
                    Some(msg) => s == Step::Done(Err(InjectError::NativeInject(msg))),
                },
                _ => false,
            },
            old(self).state() == Phase::AwaitPathAlloc ==> match e {
                Event::PathAllocated { address } => match address {
                    Some(a) => {
                        &&& final(self).state() == Phase::AwaitPathWrite
                        &&& final(self).path_region_spec() == Some(
                            RemoteRegion {
                                base: a,
                                len: old(self).wide_bytes_spec().len() as usize,
                                prot: Protection::ReadWrite,
                            },
                        )
                        &&& s matches Step::Do(
                            Action::WritePath { region, bytes },
                        ) && region == final(self).path_region_spec().unwrap()
                            && bytes@ == old(self).wide_bytes_spec()
                    },
                    None => s == Step::Done(Err(InjectError::Alloc)),
                },
                _ => false,
            },
            old(self).state() == Phase::AwaitPathWrite ==> match e {
                Event::PathWritten { ok } => if ok {
                    &&& final(self).state() == Phase::AwaitModule
                    &&& s matches Step::Do(
                        Action::FindModule { module_name },
                    ) && module_name@ == "KERNEL32.DLL"@
                } else {
                    &&& final(self).result_spec() == Err::<(), InjectError>(InjectError::Write)
                    &&& final(self).state() == Phase::AwaitFreePath
                    &&& s == Step::Do(
                        Action::FreePath { region: old(self).path_region_spec().unwrap() },
                    )
                },
                _ => false,
            },
            old(self).state() == Phase::AwaitModule ==> match e {
                Event::ModuleLocated { module } => match module {
                    Some(m) => {
                        &&& final(self).state() == Phase::AwaitImage
                        &&& final(self).k32_base_spec() == m.base
                        &&& s matches Step::Do(
                            Action::ReadModuleImage { image_path },
                        ) && image_path == m.image_path
                    },
                    None => {
                        &&& final(self).result_spec() == Err::<(), InjectError>(InjectError::ModuleNotFound)
                        &&& final(self).state() == Phase::AwaitFreePath
                        &&& s == Step::Do(
                            Action::FreePath { region: old(self).path_region_spec().unwrap() },
                        )
                    },
                },
                _ => false,
            },
            old(self).state() == Phase::AwaitImage ==> match e {
                Event::ImageRead { bytes } => match bytes {
                    Some(img) => match crate::pe::export_lookup(img@, load_library_w_name()) {
                        Ok(rva) => {
                            &&& final(self).state() == Phase::AwaitStubAlloc
                            &&& final(self).export_rva_spec() == rva
                            &&& final(self).stub_code_spec() == stub_bytes(
                                loader_addr(old(self).k32_base_spec(), rva),
                                low32(old(self).path_region_spec().unwrap().base),
                            )
                            &&& s == Step::Do(Action::AllocStub { len: STUB_LEN })
                        },
                        Err(err) => {
                            &&& final(self).result_spec() == Err::<(), InjectError>(
                                if err == PeError::Parse {
                                    InjectError::PeParse
                                } else {
                                    InjectError::ExportNotFound
                                },
                            )
                            &&& final(self).state() == Phase::AwaitFreePath
                            &&& s == Step::Do(
                                Action::FreePath { region: old(self).path_region_spec().unwrap() },
                            )
                        },
                    },
                    None => {
                        &&& final(self).result_spec() == Err::<(), InjectError>(InjectError::PeParse)
                        &&& final(self).state() == Phase::AwaitFreePath
                        &&& s == Step::Do(
                            Action::FreePath { region: old(self).path_region_spec().unwrap() },
                        )
                    },
                },
                _ => false,
            },
            old(self).state() == Phase::AwaitStubAlloc ==> match e {
                Event::StubAllocated { address } => match address {
                    Some(a) => {
                        &&& final(self).state() == Phase::AwaitStubWrite
                        &&& final(self).stub_region_spec() == Some(
                            RemoteRegion {
                                base: a,
                                len: STUB_LEN,
                                prot: Protection::ExecuteReadWrite,
                            },
                        )
                        &&& s matches Step::Do(
                            Action::WriteStub { region, bytes },
                        ) && region == final(self).stub_region_spec().unwrap()
                            && bytes@ == old(self).stub_code_spec()
                    },
                    None => {
                        &&& final(self).result_spec() == Err::<(), InjectError>(InjectError::Alloc)
                        &&& final(self).state() == Phase::AwaitFreePath
                        &&& s == Step::Do(
                            Action::FreePath { region: old(self).path_region_spec().unwrap() },
                        )
                    },
                },
                _ => false,
            },
            old(self).state() == Phase::AwaitStubWrite ==> match e {
                Event::StubWritten { ok } => if ok {
                    &&& final(self).state() == Phase::AwaitOpen
                    &&& s == Step::Do(
                        Action::OpenTarget { pid: old(self).process_desc().pid },
                    )
                } else {
                    &&& final(self).result_spec() == Err::<(), InjectError>(InjectError::Write)
                    &&& final(self).state() == Phase::AwaitFreeStub
                    &&& s == Step::Do(
                        Action::FreeStub { region: old(self).stub_region_spec().unwrap() },
                    )
                },
                _ => false,
            },
            old(self).state() == Phase::AwaitOpen ==> match e {
                Event::TargetOpened { ok } => if ok {
                    &&& final(self).state() == Phase::AwaitSpawn
                    &&& s == Step::Do(
                        Action::SpawnThread {
                            start_address: old(self).stub_region_spec().unwrap().base,
                        },
                    )
                } else {
                    &&& final(self).result_spec() == Err::<(), InjectError>(InjectError::OpenProcess)
                    &&& final(self).state() == Phase::AwaitFreeStub
                    &&& s == Step::Do(
                        Action::FreeStub { region: old(self).stub_region_spec().unwrap() },
                    )
                },
                _ => false,
            },
            old(self).state() == Phase::AwaitSpawn ==> match e {
                Event::ThreadSpawned { ntstatus } => if 0 <= ntstatus <= 0x3FFF_FFFF {
                    &&& final(self).state() == Phase::AwaitSignal
                    &&& s == Step::Do(Action::AwaitThread)
                } else {
                    &&& final(self).result_spec() == Err::<(), InjectError>(InjectError::ThreadCreate(ntstatus))
                    &&& final(self).state() == Phase::AwaitCloseTarget
                    &&& s == Step::Do(Action::CloseTarget)
                },
                _ => false,
            },
            old(self).state() == Phase::AwaitSignal ==> match e {
                Event::ThreadSignaled { code } => {
                    &&& final(self).result_spec() == (if code == 0 {
                        Ok(())
                    } else {
                        Err(InjectError::Wait(code))
                    })
                    &&& final(self).state() == Phase::AwaitCloseThread
                    &&& s == Step::Do(Action::CloseThread)
                },
                _ => false,
            },
            old(self).state() == Phase::AwaitCloseThread ==> {
                &&& final(self).state() == Phase::AwaitCloseTarget
                &&& s == Step::Do(Action::CloseTarget)
                &&& final(self).result_spec() == old(self).result_spec()
            },
            old(self).state() == Phase::AwaitCloseTarget ==> {
                &&& final(self).state() == Phase::AwaitFreeStub
                &&& s == Step::Do(
                    Action::FreeStub { region: old(self).stub_region_spec().unwrap() },
                )
                &&& final(self).result_spec() == old(self).result_spec()
            },
            old(self).state() == Phase::AwaitFreeStub ==> {
                &&& final(self).state() == Phase::AwaitFreePath
                &&& s == Step::Do(
                    Action::FreePath { region: old(self).path_region_spec().unwrap() },
                )
                &&& final(self).result_spec() == old(self).result_spec()
            },
            old(self).state() == Phase::AwaitFreePath ==> s == Step::Done(
                old(self).result_spec(),
            ),
    {
        match (self.phase, e) {
            (Phase::AwaitNative, Event::NativeLoaded { error }) => {
                self.phase = Phase::Finished;
                match error {
                    None => {
                        self.outcome = Ok(());
                        Step::Done(Ok(()))
                    },
                    Some(msg) => {
                        self.outcome = Err(InjectError::NativeInject(msg.clone()));
                        Step::Done(Err(InjectError::NativeInject(msg)))
                    },
                }
            },
            (Phase::AwaitPathAlloc, Event::PathAllocated { address }) => {
                match address {
                    Some(a) => {
                        let region = RemoteRegion {
                            base: a,
                            len: self.wide_bytes.len(),
                            prot: Protection::ReadWrite,
                        };
                        self.path_region = Some(region);
                        self.n_alloc_ok = self.n_alloc_ok + 1;
                        self.phase = Phase::AwaitPathWrite;
                        proof {
                            lemma_slow_prefix_ordered(2);
                            self.hist@ = self.hist@.push(ActionKind::KWritePath);
                            assert(self.hist@ =~= slow_prefix(2));
                        }
                        Step::Do(Action::WritePath { region, bytes: self.wide_bytes.clone() })
                    },
                    None => {
                        self.outcome = Err(InjectError::Alloc);
                        self.phase = Phase::Finished;
                        Step::Done(Err(InjectError::Alloc))
                    },
                }
            },
            (Phase::AwaitPathWrite, Event::PathWritten { ok }) => {
                if ok {
                    self.phase = Phase::AwaitModule;
                    proof {
                        lemma_slow_prefix_ordered(3);
                        self.hist@ = self.hist@.push(ActionKind::KFindModule);
                        assert(self.hist@ =~= slow_prefix(3));
                    }
                    Step::Do(Action::FindModule { module_name: "KERNEL32.DLL".to_owned() })
                } else {
                    self.outcome = Err(InjectError::Write);
                    proof {
                        lemma_slow_prefix_ordered(2);
                    }
                    self.begin_cleanup()
                }
            },
            (Phase::AwaitModule, Event::ModuleLocated { module }) => {
                match module {
                    Some(m) => {
                        self.kernel32_base = m.base;
                        self.phase = Phase::AwaitImage;
                        proof {
                            lemma_slow_prefix_ordered(4);
                            self.hist@ = self.hist@.push(ActionKind::KReadImage);
                            assert(self.hist@ =~= slow_prefix(4));
                        }
                        Step::Do(Action::ReadModuleImage { image_path: m.image_path })
                    },
                    None => {
                        self.outcome = Err(InjectError::ModuleNotFound);
                        proof {
                            lemma_slow_prefix_ordered(3);
                        }
                        self.begin_cleanup()
                    },
                }
            },
            (Phase::AwaitImage, Event::ImageRead { bytes }) => {
                match bytes {
                    Some(img) => {
                        let name: Vec<u8> = vec![
                            76u8,
                            111,
                            97,
                            100,
                            76,
                            105,
                            98,
                            114,
                            97,
                            114,
                            121,
                            87,
                        ];
                        proof {
                            assert(name@ =~= load_library_w_name());
                        }
                        match export_rva(img.as_slice(), name.as_slice()) {
                            Ok(rva) => {
                                self.export_rva_val = rva;
                                let kb: u64 = self.kernel32_base;
                                let masked: u64 = kb & 0xFFFF_FFFF;
                                assert(masked <= 0xFFFF_FFFF) by (bit_vector)
                                    requires
                                        masked == kb & 0xFFFF_FFFF,
                                ;
                                let ll: u32 = (masked + rva as u64) as u32;
                                let pbase: u64 = match self.path_region {
                                    Some(r) => r.base,
                                    None => 0,
                                };
                                let pmasked: u64 = pbase & 0xFFFF_FFFF;
                                assert(pmasked <= 0xFFFF_FFFF) by (bit_vector)
                                    requires
                                        pmasked == pbase & 0xFFFF_FFFF,
                                ;
                                let plo: u32 = pmasked as u32;
                                let code = assemble_stub(ll, plo, 0x1234_5678);
                                let check = assemble_stub(ll, plo, 0x1111_2222);
                                assert(code@ == check@);
                                self.stub_code = code;
                                self.phase = Phase::AwaitStubAlloc;
                                proof {
                                    lemma_slow_prefix_ordered(5);
                                    self.hist@ = self.hist@.push(ActionKind::KAllocStub);
                                    assert(self.hist@ =~= slow_prefix(5));
                                }
                                Step::Do(Action::AllocStub { len: STUB_LEN })
                            },
                            Err(err) => {
                                self.outcome = Err(
                                    match err {
                                        PeError::Parse => InjectError::PeParse,
                                        PeError::ExportNotFound => InjectError::ExportNotFound,
                                        PeError::ExportForwarded => InjectError::ExportNotFound,
                                    },
                                );
                                proof {
                                    lemma_slow_prefix_ordered(4);
                                }
                                self.begin_cleanup()
                            },
                        }
                    },
                    None => {
                        self.outcome = Err(InjectError::PeParse);
                        proof {
                            lemma_slow_prefix_ordered(4);
                        }
                        self.begin_cleanup()
                    },
                }
            },
            (Phase::AwaitStubAlloc, Event::StubAllocated { address }) => {
                match address {
                    Some(a) => {
                        let region = RemoteRegion {
                            base: a,
                            len: STUB_LEN,
                            prot: Protection::ExecuteReadWrite,
                        };
                        self.stub_region = Some(region);
                        self.n_alloc_ok = self.n_alloc_ok + 1;
                        self.phase = Phase::AwaitStubWrite;
                        proof {
                            lemma_slow_prefix_ordered(6);
                            self.hist@ = self.hist@.push(ActionKind::KWriteStub);
                            assert(self.hist@ =~= slow_prefix(6));
                        }
                        Step::Do(Action::WriteStub { region, bytes: self.stub_code.clone() })
                    },
                    None => {
                        self.outcome = Err(InjectError::Alloc);
                        proof {
                            lemma_slow_prefix_ordered(5);
                        }
                        self.begin_cleanup()
                    },
                }
            },
            (Phase::AwaitStubWrite, Event::StubWritten { ok }) => {
                if ok {
                    self.phase = Phase::AwaitOpen;
                    proof {
                        lemma_slow_prefix_ordered(7);
                        self.hist@ = self.hist@.push(ActionKind::KOpenTarget);
                        assert(self.hist@ =~= slow_prefix(7));
                    }
                    Step::Do(Action::OpenTarget { pid: self.process.pid })
                } else {
                    self.outcome = Err(InjectError::Write);
                    proof {
                        lemma_slow_prefix_ordered(6);
                    }
                    self.begin_cleanup()
                }
            },
            (Phase::AwaitOpen, Event::TargetOpened { ok }) => {
                if ok {
                    self.target_open = true;
                    self.n_open_ok = self.n_open_ok + 1;
                    self.phase = Phase::AwaitSpawn;
                    let start: u64 = match self.stub_region {
                        Some(r) => r.base,
                        None => 0,
                    };
                    proof {
                        lemma_slow_prefix_ordered(8);
                        self.hist@ = self.hist@.push(ActionKind::KSpawnThread);
                        assert(self.hist@ =~= slow_prefix(8));
                    }
                    Step::Do(Action::SpawnThread { start_address: start })
                } else {
                    self.outcome = Err(InjectError::OpenProcess);
                    proof {
                        lemma_slow_prefix_ordered(7);
                    }
                    self.begin_cleanup()
                }
            },
            (Phase::AwaitSpawn, Event::ThreadSpawned { ntstatus }) => {
                if 0 <= ntstatus && ntstatus <= 0x3FFF_FFFF {
                    self.thread_open = true;
                    self.n_open_ok = self.n_open_ok + 1;
                    self.phase = Phase::AwaitSignal;
                    proof {
                        lemma_slow_prefix_ordered(9);
                        self.hist@ = self.hist@.push(ActionKind::KAwaitThread);
                        assert(self.hist@ =~= slow_prefix(9));
                    }
                    Step::Do(Action::AwaitThread)
                } else {
                    self.outcome = Err(InjectError::ThreadCreate(ntstatus));
                    proof {
                        lemma_slow_prefix_ordered(8);
                    }
                    self.begin_cleanup()
                }
            },
            (Phase::AwaitSignal, Event::ThreadSignaled { code }) => {
                if code == 0 {
                    self.outcome = Ok(());
                } else {
                    self.outcome = Err(InjectError::Wait(code));
                }
                proof {
                    lemma_slow_prefix_ordered(9);
                }
                self.begin_cleanup()
            },
            (Phase::AwaitCloseThread, Event::ThreadClosed) => {
                self.thread_open = false;
                self.n_close = self.n_close + 1;
                proof {
                    lemma_below_from_increasing(self.hist@, 11);
                }
                self.begin_cleanup()
            },
            (Phase::AwaitCloseTarget, Event::TargetClosed) => {
                self.target_open = false;
                self.n_close = self.n_close + 1;
                proof {
                    lemma_below_from_increasing(self.hist@, 12);
                }
                self.begin_cleanup()
            },
            (Phase::AwaitFreeStub, Event::StubFreed) => {
                self.stub_region = None;
                self.n_free = self.n_free + 1;
                proof {
                    lemma_below_from_increasing(self.hist@, 13);
                }
                self.begin_cleanup()
            },
            (Phase::AwaitFreePath, Event::PathFreed) => {
                self.path_region = None;
                self.n_free = self.n_free + 1;
                proof {
                    lemma_below_from_increasing(self.hist@, 14);
                }
                self.begin_cleanup()
            },
            _ => {
                proof {
                    assert(false);
                }
                Step::Done(Ok(()))
            },
        }
    }
}

/// The first `n` protocol actions are stage-ordered, with every stage below
/// `n + 1`.
proof fn lemma_slow_prefix_ordered(n: int)
    requires
        0 <= n <= 13,
    ensures
        stages_increasing(slow_prefix(n)),
        hist_stage_below(slow_prefix(n), n + 1),
{
    assert forall|i: int| 0 <= i < n implies stage(#[trigger] slow_prefix(n)[i]) == i + 1 by {
        assert(slow_prefix(n)[i] == slow_kind(i));
    }
}

/// Appending an action of a later stage keeps the history stage-ordered.
proof fn lemma_increasing_push(h: Seq<ActionKind>, k: ActionKind)
    requires
        stages_increasing(h),
        hist_stage_below(h, stage(k)),
    ensures
        stages_increasing(h.push(k)),
{
    assert forall|i: int, j: int| 0 <= i < j < h.push(k).len() implies stage(h.push(k)[i]) < stage(
        h.push(k)[j],
    ) by {
        if j < h.len() {
            assert(stage(h[i]) < stage(h[j]));
        } else {
            assert(h.push(k)[j] == k);
            assert(stage(h[i]) < stage(k));
        }
    }
}

/// A stage-ordered history whose last stage lies below `b` lies wholly
/// below `b`.
proof fn lemma_below_from_increasing(h: Seq<ActionKind>, b: int)
    requires
        stages_increasing(h),
        h.len() > 0,
        stage(h.last()) < b,
    ensures
        hist_stage_below(h, b),
{
    assert forall|i: int| 0 <= i < h.len() implies stage(h[i]) < b by {
        if i < h.len() - 1 {
            assert(stage(h[i]) < stage(h[h.len() - 1]));
        }
    }
}

/// Balanced resources: once an injection has finished, every region that
/// was allocated in the target has been freed, and every handle that was
/// opened has been closed.
pub proof fn lemma_balanced_resources(e: &InjectionEngine)
    requires
        e.wf(),
        e.finished(),
    ensures
        e.alloc_count() == e.free_count(),
        e.open_count() == e.close_count(),
{
}

/// Protocol ordering: actions are emitted in strictly increasing stage, so
/// the stub is written before the remote thread is spawned, the spawn
/// precedes the wait, and the wait precedes every release.
pub proof fn lemma_protocol_order(e: &InjectionEngine, i: int, j: int)
    requires
        e.wf(),
        0 <= i < j < e.history().len(),
    ensures
        stage(e.history()[i]) < stage(e.history()[j]),
{
}

/// A successful slow-path run emits exactly the full protocol, in order:
/// both writes, the spawn, the wait, and all four releases.
pub proof fn lemma_successful_slow_run(e: &InjectionEngine)
    requires
        e.wf(),
        e.finished(),
        e.result_spec() is Ok,
        e.history() != native_hist(),
    ensures
        e.history() == slow_prefix(13),
{
}

} // verus!
