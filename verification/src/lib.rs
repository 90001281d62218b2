//! Core of a Windows DLL-injection engine.
//!
//! The library covers the decision logic of the injector: classifying a PE
//! image's architecture, resolving an export's RVA from the on-disk image,
//! assembling the 32-bit loader stub, encoding the wide-string DLL path, and
//! orchestrating a cross-process injection as a step-by-step protocol whose
//! remote-memory and handle bookkeeping is proved balanced. The operating
//! system itself (remote allocation, thread creation, waiting) is driven by an
//! unverified collaborator that performs each requested action and reports the
//! outcome back.

pub mod bytes;
pub mod dll_list;
pub mod engine;
pub mod pe;
pub mod process;
pub mod stub;
pub mod utf16;
