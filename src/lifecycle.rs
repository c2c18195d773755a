use vstd::prelude::*;

use crate::call::{DelegateCall, InitializeCall};
use crate::error::HostError;

verus! {

/// The phases of hosting a runtime from one shared library.
#[derive(Debug, Clone, Copy, PartialEq, Eq, Structural)]
pub enum Phase {
    Unloaded,
    Loaded,
    Initialized,
    ShuttingDown,
    Shutdown,
}

/// The opaque pair that a successful initialize issues: the host pointer
/// (as an address) and the domain id.
#[derive(Debug, Clone, Copy, PartialEq, Eq, Structural)]
pub struct RuntimeHandle {
    pub host_pointer: usize,
    pub domain_id: u32,
}

/// A foreign function address for a managed method. Nothing here checks
/// what signature it has: calling it is the caller's own, unchecked claim.
#[derive(Debug, Clone, Copy, PartialEq, Eq, Structural)]
pub struct Delegate {
    pub address: usize,
}

/// How an attempt to call a foreign entry point came back: the export was
/// not found, or the call returned a status code.
#[derive(Debug, Clone, Copy, PartialEq, Eq, Structural)]
pub enum ForeignReturn {
    SymbolMissing,
    Returned(i32),
}

/// The abstract state of a host: its phase and the live runtime handle.
pub struct HostState {
    pub phase: Phase,
    pub handle: Option<RuntimeHandle>,
}

/// A handle is live exactly while the runtime is initialized or shutting down.
pub open spec fn state_wf(s: HostState) -> bool {
    (s.phase == Phase::Initialized || s.phase == Phase::ShuttingDown) <==> s.handle is Some
}

/// A runtime may be initialized once the library is loaded and no runtime is live.
pub open spec fn can_initialize(s: HostState) -> bool {
    s.phase == Phase::Loaded || s.phase == Phase::Shutdown
}

/// What recording the opening of the library gives.
pub open spec fn load_result(opened: bool) -> Result<(), HostError> {
    if opened {
        Ok(())
    } else {
        Err(HostError::Load)
    }
}

/// The state after recording the opening of the library.
pub open spec fn after_load(s: HostState, opened: bool) -> HostState {
    if opened {
        HostState { phase: Phase::Loaded, handle: None }
    } else {
        s
    }
}

/// What an initialize call gives, from how it came back and what it wrote.
pub open spec fn initialize_result(ret: ForeignReturn, host_pointer: usize, domain_id: u32) -> Result<
    RuntimeHandle,
    HostError,
> {
    match ret {
        ForeignReturn::SymbolMissing => Err(HostError::Symbol),
        ForeignReturn::Returned(code) => if code < 0 {
            Err(HostError::Native(code))
        } else {
            Ok(RuntimeHandle { host_pointer, domain_id })
        },
    }
}

/// The state after an initialize call.
pub open spec fn after_initialize(
    s: HostState,
    ret: ForeignReturn,
    host_pointer: usize,
    domain_id: u32,
) -> HostState {
    match initialize_result(ret, host_pointer, domain_id) {
        Ok(h) => HostState { phase: Phase::Initialized, handle: Some(h) },
        Err(_) => s,
    }
}

/// What a create-delegate call gives, from how it came back and what it wrote.
pub open spec fn delegate_result(ret: ForeignReturn, address: usize) -> Result<Delegate, HostError> {
    match ret {
        ForeignReturn::SymbolMissing => Err(HostError::Symbol),
        ForeignReturn::Returned(code) => if code < 0 {
            Err(HostError::Native(code))
        } else {
            Ok(Delegate { address })
        },
    }
}

/// The state once shutting down has begun.
pub open spec fn after_begin_shutdown(s: HostState) -> HostState {
    HostState { phase: Phase::ShuttingDown, handle: s.handle }
}

/// What a shutdown call gives: any failure is fatal.
pub open spec fn shutdown_result(ret: ForeignReturn) -> Result<(), HostError> {
    match ret {
        ForeignReturn::Returned(code) => if code < 0 {
            Err(HostError::Fatal)
        } else {
            Ok(())
        },
        ForeignReturn::SymbolMissing => Err(HostError::Fatal),
    }
}

/// The state after a shutdown call, whatever it returned.
pub open spec fn after_shutdown(s: HostState) -> HostState {
    HostState { phase: Phase::Shutdown, handle: None }
}

/// A successful initialize followed by a successful shutdown issues the
/// handle made of what the initialize call wrote, leaves no handle live
/// afterwards, and leaves the loaded library ready to host another runtime.
pub proof fn lemma_initialize_then_shutdown(
    s: HostState,
    init_ret: ForeignReturn,
    host_pointer: usize,
    domain_id: u32,
    shutdown_ret: ForeignReturn,
)
    requires
        state_wf(s),
        can_initialize(s),
        initialize_result(init_ret, host_pointer, domain_id) is Ok,
        shutdown_result(shutdown_ret) is Ok,
    ensures
        ({
            let running = after_initialize(s, init_ret, host_pointer, domain_id);
            let done = after_shutdown(after_begin_shutdown(running));
            &&& running.phase == Phase::Initialized
            &&& running.handle == Some(RuntimeHandle { host_pointer, domain_id })
            &&& state_wf(running)
            &&& done.phase == Phase::Shutdown
            &&& done.handle is None
            &&& state_wf(done)
            &&& can_initialize(done)
        }),
{
}

/// Shutdown begins at most once per initialize: once it has begun, and once
/// it has finished, the runtime is no longer initialized, which beginning a
/// shutdown requires.
pub proof fn lemma_shutdown_begins_once(s: HostState)
    requires
        state_wf(s),
        s.phase == Phase::Initialized,
    ensures
        after_begin_shutdown(s).phase != Phase::Initialized,
        after_shutdown(after_begin_shutdown(s)).phase != Phase::Initialized,
{
}

/// An initialize call that returns a negative status gives `Native` with
/// that status, issues no handle and leaves the state as it was.
pub proof fn lemma_failed_initialize_issues_no_handle(
    s: HostState,
    code: i32,
    host_pointer: usize,
    domain_id: u32,
)
    requires
        code < 0,
    ensures
        initialize_result(ForeignReturn::Returned(code), host_pointer, domain_id) == Err::<
            RuntimeHandle,
            HostError,
        >(HostError::Native(code)),
        after_initialize(s, ForeignReturn::Returned(code), host_pointer, domain_id) == s,
{
}

/// An entry point that the library does not export is always `Symbol`, for
/// initialize and for create-delegate alike, and issues nothing.
pub proof fn lemma_missing_export_is_symbol_error(
    s: HostState,
    host_pointer: usize,
    domain_id: u32,
    address: usize,
)
    ensures
        initialize_result(ForeignReturn::SymbolMissing, host_pointer, domain_id) == Err::<
            RuntimeHandle,
            HostError,
        >(HostError::Symbol),
        after_initialize(s, ForeignReturn::SymbolMissing, host_pointer, domain_id) == s,
        delegate_result(ForeignReturn::SymbolMissing, address) == Err::<Delegate, HostError>(
            HostError::Symbol,
        ),
{
}

/// The lifecycle of one hosted runtime, driven by the outcomes of the
/// foreign calls that the caller makes.
pub struct Host {
    phase: Phase,
    handle: Option<RuntimeHandle>,
}

impl View for Host {
    type V = HostState;

    closed spec fn view(&self) -> HostState {
        HostState { phase: self.phase, handle: self.handle }
    }
}

impl Host {
    /// A host whose library is not loaded yet.
    pub fn new() -> (h: Host)
        ensures
            h@ == (HostState { phase: Phase::Unloaded, handle: None }),
    {
        Host { phase: Phase::Unloaded, handle: None }
    }

    /// The current phase.
    pub fn phase(&self) -> (p: Phase)
        ensures
            p == self@.phase,
    {
        self.phase
    }

    /// The live runtime handle, if any.
    pub fn live_handle(&self) -> (h: Option<RuntimeHandle>)
        ensures
            h == self@.handle,
    {
        self.handle
    }

    /// Records whether opening the shared library succeeded: a failed open
    /// is `Load` and leaves the host unloaded.
    pub fn library_opened(&mut self, opened: bool) -> (r: Result<(), HostError>)
        requires
            old(self)@.phase == Phase::Unloaded,
            state_wf(old(self)@),
        ensures
            r == load_result(opened),
            final(self)@ == after_load(old(self)@, opened),
            state_wf(final(self)@),
    {
        if opened {
            self.phase = Phase::Loaded;
            self.handle = None;
            Ok(())
        } else {
            Err(HostError::Load)
        }
    }

    /// Takes back the inputs of an initialize call, releasing their buffers,
    /// together with how the call came back. A missing export is `Symbol`, a
    /// negative status `Native`; either leaves the state as it was. Any other
    /// status issues the runtime handle made of `host_pointer` and
    /// `domain_id`, and the runtime is initialized.
    pub fn finish_initialize(
        &mut self,
        call: InitializeCall,
        ret: ForeignReturn,
        host_pointer: usize,
        domain_id: u32,
    ) -> (r: Result<RuntimeHandle, HostError>)
        requires
            can_initialize(old(self)@),
            state_wf(old(self)@),
        ensures
            r == initialize_result(ret, host_pointer, domain_id),
            final(self)@ == after_initialize(old(self)@, ret, host_pointer, domain_id),
            state_wf(final(self)@),
    {
        match ret {
            ForeignReturn::SymbolMissing => Err(HostError::Symbol),
            ForeignReturn::Returned(code) => {
                if code < 0 {
                    Err(HostError::Native(code))
                } else {
                    let handle = RuntimeHandle { host_pointer, domain_id };
                    self.phase = Phase::Initialized;
                    self.handle = Some(handle);
                    Ok(handle)
                }
            },
        }
    }

    /// Takes back the inputs of a create-delegate call on the live handle,
    /// releasing their buffers, together with how the call came back. A
    /// missing export is `Symbol`, a negative status `Native`; any other
    /// status gives the delegate at `address`.
    pub fn finish_create_delegate(&self, call: DelegateCall, ret: ForeignReturn, address: usize) -> (r:
        Result<Delegate, HostError>)
        requires
            self@.phase == Phase::Initialized,
            self@.handle == Some(call.handle),
        ensures
            r == delegate_result(ret, address),
    {
        match ret {
            ForeignReturn::SymbolMissing => Err(HostError::Symbol),
            ForeignReturn::Returned(code) => {
                if code < 0 {
                    Err(HostError::Native(code))
                } else {
                    Ok(Delegate { address })
                }
            },
        }
    }

    /// Starts shutting the runtime down and gives the handle to pass to
    /// `coreclr_shutdown`. From here on no second shutdown can begin.
    pub fn begin_shutdown(&mut self) -> (h: RuntimeHandle)
        requires
            old(self)@.phase == Phase::Initialized,
            state_wf(old(self)@),
        ensures
            old(self)@.handle == Some(h),
            final(self)@ == after_begin_shutdown(old(self)@),
            state_wf(final(self)@),
    {
        self.phase = Phase::ShuttingDown;
        self.handle.unwrap()
    }

    /// Records how the shutdown call came back. The handle is given up
    /// either way; a missing export or a negative status is `Fatal`, which
    /// the caller must not survive.
    pub fn finish_shutdown(&mut self, ret: ForeignReturn) -> (r: Result<(), HostError>)
        requires
            old(self)@.phase == Phase::ShuttingDown,
            state_wf(old(self)@),
        ensures
            r == shutdown_result(ret),
            final(self)@ == after_shutdown(old(self)@),
            state_wf(final(self)@),
    {
        self.phase = Phase::Shutdown;
        self.handle = None;
        match ret {
            ForeignReturn::Returned(code) => {
                if code < 0 {
                    Err(HostError::Fatal)
                } else {
                    Ok(())
                }
            },
            ForeignReturn::SymbolMissing => Err(HostError::Fatal),
        }
    }
}

} // verus!
