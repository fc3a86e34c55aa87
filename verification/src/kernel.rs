//! Kernel objects: interrupt state, memory blocks and modules, read from the
//! kernel's replies.
use vstd::prelude::*;
use crate::error::{NativeError, NativeResult, native_error, native_result, reply_error};

verus! {

/// The interrupt state saved when interrupts were suspended.
pub struct InterruptCtrlState(pub u32);

impl InterruptCtrlState {
    /// The saved state word.
    pub fn state(&self) -> (s: u32)
        ensures
            s == self.0,
    {
        self.0
    }

    /// Whether the saved state says interrupts were suspended, from the
    /// kernel's answer for it: anything but 1.
    pub fn interrupts_suspended(&self, reply: i32) -> (b: bool)
        ensures
            b == (reply != 1),
    {
        reply != 1
    }
}

/// Whether interrupts are enabled, from the kernel's answer: exactly 1.
pub fn interrupt_enabled(reply: i32) -> (b: bool)
    ensures
        b == (reply == 1),
{
    reply == 1
}

/// A block of memory allocated from a partition.
pub struct MemoryBlock {
    uid: i32,
}

impl MemoryBlock {
    /// The block's identifier.
    pub closed spec fn id(&self) -> i32 {
        self.uid
    }

    /// The address argument of an allocation: the requested address, or
    /// null for any.
    pub fn address_argument(address: Option<usize>) -> (a: usize)
        ensures
            a == match address {
                Some(addr) => addr,
                None => 0,
            },
    {
        match address {
            Some(addr) => addr,
            None => 0,
        }
    }

    /// The block the kernel allocated (`reply`, its identifier), or the
    /// error it reported.
    pub fn alloc_from_partition(reply: i32) -> (r: NativeResult<MemoryBlock>)
        ensures
            reply >= 0 ==> (r matches Ok(b) && b.id() == reply),
            reply < 0 ==> reply_error(r, reply),
    {
        match native_result(reply) {
            Ok(uid) => Ok(MemoryBlock { uid: uid as i32 }),
            Err(e) => Err(e),
        }
    }

    /// The block's identifier.
    pub fn uid(&self) -> (u: i32)
        ensures
            u == self.id(),
    {
        self.uid
    }
}

/// A loaded module.
pub struct ModuleUid {
    uid: i32,
}

impl ModuleUid {
    /// The module's identifier.
    pub closed spec fn id(&self) -> i32 {
        self.uid
    }

    /// The module the kernel loaded (`reply`, its identifier), or the error
    /// it reported; the same for every way of loading one.
    pub fn load(reply: i32) -> (r: NativeResult<ModuleUid>)
        ensures
            reply >= 0 ==> (r matches Ok(m) && m.id() == reply),
            reply < 0 ==> reply_error(r, reply),
    {
        match native_result(reply) {
            Ok(uid) => Ok(ModuleUid { uid: uid as i32 }),
            Err(e) => Err(e),
        }
    }

    /// The module the kernel loaded from a memory stick path.
    pub fn load_from_ms(reply: i32) -> (r: NativeResult<ModuleUid>)
        ensures
            reply >= 0 ==> (r matches Ok(m) && m.id() == reply),
            reply < 0 ==> reply_error(r, reply),
    {
        Self::load(reply)
    }

    /// The module the kernel loaded from an open file.
    pub fn load_from_file(reply: i32) -> (r: NativeResult<ModuleUid>)
        ensures
            reply >= 0 ==> (r matches Ok(m) && m.id() == reply),
            reply < 0 ==> reply_error(r, reply),
    {
        Self::load(reply)
    }

    /// The module's identifier.
    pub fn uid(&self) -> (u: i32)
        ensures
            u == self.id(),
    {
        self.uid
    }

    /// The module's start (or stop) status, once the kernel reported success
    /// (`status`).
    pub fn start(&self, status: i32, start_status: i32) -> (r: NativeResult<i32>)
        ensures
            status >= 0 ==> r == Ok::<i32, NativeError>(start_status),
            status < 0 ==> reply_error(r, status),
    {
        match native_error(status) {
            Ok(()) => Ok(start_status),
            Err(e) => Err(e),
        }
    }
}

impl ModuleUid {
    /// The module's stop status, once the kernel reported success (`status`).
    pub fn stop(&self, status: i32, stop_status: i32) -> (r: NativeResult<i32>)
        ensures
            status >= 0 ==> r == Ok::<i32, NativeError>(stop_status),
            status < 0 ==> reply_error(r, status),
    {
        self.start(status, stop_status)
    }
}

/// Stopping and unloading the running module: its stop status, once the
/// kernel reported success (`status`).
pub fn stop_unload_self_module(status: i32, stop_status: i32) -> (r: NativeResult<i32>)
    ensures
        status >= 0 ==> r == Ok::<i32, NativeError>(stop_status),
        status < 0 ==> reply_error(r, status),
{
    match native_error(status) {
        Ok(()) => Ok(stop_status),
        Err(e) => Err(e),
    }
}

/// Stopping and unloading the current module: success, or the error the
/// kernel reported.
pub fn stop_unload_current_module(status: i32) -> (r: NativeResult<()>)
    ensures
        status >= 0 ==> r is Ok,
        status < 0 ==> reply_error(r, status),
{
    native_error(status)
}

} // verus!
