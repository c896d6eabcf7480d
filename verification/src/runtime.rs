//! Runtime factory, per-run execution session, and resource governance.
//!
//! The engine, linker, store and WASI context come from the wasmtime and
//! wasmtime-wasi crates; each call into them stands behind a small trusted
//! wrapper whose contract Verus believes. The growth-authorization policy
//! itself is the library's own verified logic.

use vstd::prelude::*;
use crate::SandboxError;
use wasmtime_wasi::p2::pipe::MemoryOutputPipe;

verus! {

#[verifier::external_type_specification]
#[verifier::external_body]
pub struct ExEngine(wasmtime::Engine);

#[verifier::external_type_specification]
#[verifier::external_body]
#[verifier::reject_recursive_types(T)]
pub struct ExLinker<T>(wasmtime::Linker<T>);

#[verifier::external_type_specification]
#[verifier::external_body]
#[verifier::reject_recursive_types(T)]
pub struct ExStore<T: 'static>(wasmtime::Store<T>);

#[verifier::external_type_specification]
#[verifier::external_body]
pub struct ExModule(wasmtime::Module);

#[verifier::external_type_specification]
#[verifier::external_body]
pub struct ExInstance(wasmtime::Instance);

#[verifier::external_type_specification]
#[verifier::external_body]
pub struct ExStoreLimits(wasmtime::StoreLimits);

#[verifier::external_type_specification]
#[verifier::external_body]
pub struct ExWasiP1Ctx(wasmtime_wasi::p1::WasiP1Ctx);

#[verifier::external_type_specification]
#[verifier::external_body]
pub struct ExMemoryOutputPipe(MemoryOutputPipe);

/// Bytes each captured stream can accumulate during one run; writing past
/// this bound fails at the guest's write call site.
pub const CAPTURE_CAPACITY_BYTES: usize = 1024 * 1024;

/// Resource ceilings requested for one run; pure policy, no I/O. This is
/// the single decision rule for every growth-authorization request.
pub struct RunLimits {
    /// Maximum size in bytes a linear memory may grow to, if configured.
    pub memory_ceiling: Option<usize>,
    /// Maximum element count a table may grow to, if configured.
    pub table_ceiling: Option<usize>,
}

impl RunLimits {
    /// The growth-authorization rule: growth to `desired` is authorized
    /// unless it exceeds the configured ceiling or the instance's own
    /// declared maximum.
    pub open spec fn grow_allowed(ceiling: Option<usize>, desired: usize, maximum: Option<usize>) -> bool {
        &&& (ceiling matches Some(limit) ==> desired <= limit)
        &&& (maximum matches Some(max) ==> desired <= max)
    }

    /// Authorizes or denies a linear-memory growth request.
    pub fn memory_growing(&self, current: usize, desired: usize, maximum: Option<usize>) -> (r: bool)
        ensures
            r == Self::grow_allowed(self.memory_ceiling, desired, maximum),
    {
        let within_ceiling = match self.memory_ceiling {
            Some(limit) => desired <= limit,
            None => true,
        };
        let within_max = match maximum {
            Some(max) => desired <= max,
            None => true,
        };
        within_ceiling && within_max
    }

    /// Authorizes or denies a table growth request.
    pub fn table_growing(&self, current: usize, desired: usize, maximum: Option<usize>) -> (r: bool)
        ensures
            r == Self::grow_allowed(self.table_ceiling, desired, maximum),
    {
        let within_ceiling = match self.table_ceiling {
            Some(limit) => desired <= limit,
            None => true,
        };
        let within_max = match maximum {
            Some(max) => desired <= max,
            None => true,
        };
        within_ceiling && within_max
    }
}

/// One run's isolated context: the guest-facing WASI surface (stdio only,
/// no filesystem or network), the resource ceilings, and the two captured
/// I/O channels. One session serves exactly one run and is never reused.
pub struct WasmSession {
    wasi_ctx: wasmtime_wasi::p1::WasiP1Ctx,
    limits: wasmtime::StoreLimits,
    limits_policy: RunLimits,
    stdout_pipe: MemoryOutputPipe,
    stderr_pipe: MemoryOutputPipe,
}

impl WasmSession {
    /// The ceilings this session enforces.
    pub closed spec fn spec_limits(self) -> RunLimits {
        self.limits_policy
    }

    /// Builds a session whose guest reads `code` from standard input and
    /// whose standard output and error are fresh in-memory capture
    /// channels; growth requests are bounded by `memory_limit_bytes`, if
    /// given.
    pub fn new(memory_limit_bytes: Option<usize>, code: &str) -> (r: WasmSession)
        ensures
            r.spec_limits() == (RunLimits { memory_ceiling: memory_limit_bytes, table_ceiling: None }),
    {
        let (wasi_ctx, stdout_pipe, stderr_pipe) = build_wasi_context(code);
        let limits = build_store_limits(memory_limit_bytes);
        WasmSession {
            wasi_ctx,
            limits,
            limits_policy: RunLimits { memory_ceiling: memory_limit_bytes, table_ceiling: None },
            stdout_pipe,
            stderr_pipe,
        }
    }

    /// A shared handle onto this session's captured standard output; it
    /// stays readable after the session has been consumed by a run.
    pub fn stdout_handle(&self) -> (r: MemoryOutputPipe) {
        clone_pipe(&self.stdout_pipe)
    }

    /// A shared handle onto this session's captured standard error.
    pub fn stderr_handle(&self) -> (r: MemoryOutputPipe) {
        clone_pipe(&self.stderr_pipe)
    }

    /// Authorizes or denies a linear-memory growth request for this run.
    pub fn memory_growing(&self, current: usize, desired: usize, maximum: Option<usize>) -> (r: bool)
        ensures
            r == RunLimits::grow_allowed(self.spec_limits().memory_ceiling, desired, maximum),
    {
        self.limits_policy.memory_growing(current, desired, maximum)
    }

    /// Authorizes or denies a table growth request for this run.
    pub fn table_growing(&self, current: usize, desired: usize, maximum: Option<usize>) -> (r: bool)
        ensures
            r == RunLimits::grow_allowed(self.spec_limits().table_ceiling, desired, maximum),
    {
        self.limits_policy.table_growing(current, desired, maximum)
    }
}

/// Outcome of invoking the guest's entry point; none of these is an error
/// of the run, and captured output is harvested in every case.
pub enum CallOutcome {
    /// The entry point returned normally.
    Completed,
    /// Execution trapped because the CPU budget reached zero.
    BudgetExhausted,
    /// Execution trapped for some other guest-side reason.
    Faulted(String),
}

/// Process-wide factory owning the compiled-code engine; built once with
/// CPU-budget accounting enabled and asynchronous suspension disabled,
/// then shared read-only across runs.
pub struct WasmRuntime {
    engine: wasmtime::Engine,
}

impl WasmRuntime {
    /// Creates the engine; fails only if the host configuration is
    /// unsupported.
    pub fn new() -> (r: Result<WasmRuntime, SandboxError>)
        ensures
            r matches Err(e) ==> e matches SandboxError::Engine(_),
    {
        match build_engine() {
            Ok(engine) => Ok(WasmRuntime { engine }),
            Err(msg) => Err(SandboxError::Engine(msg)),
        }
    }

    /// The engine this runtime owns.
    pub fn engine(&self) -> (r: &wasmtime::Engine) {
        &self.engine
    }

    /// Builds a capability linker that resolves the guest's WASI imports
    /// (stdio, process exit) against the per-session context; fails if the
    /// guest's import set cannot be satisfied.
    pub fn create_linker(&self) -> (r: Result<wasmtime::Linker<WasmSession>, SandboxError>)
        ensures
            r matches Err(e) ==> e matches SandboxError::Runtime(_),
    {
        match build_linker(&self.engine) {
            Ok(linker) => Ok(linker),
            Err(msg) => Err(SandboxError::Runtime(msg)),
        }
    }

    /// Wraps a session in a fresh execution context with the session's
    /// limits installed as the growth authority.
    pub fn create_store(&self, session: WasmSession) -> (r: wasmtime::Store<WasmSession>) {
        make_store(&self.engine, session)
    }
}

impl Clone for WasmRuntime {
    /// The clone shares the same engine, which is internally
    /// reference-counted.
    fn clone(&self) -> (r: Self) {
        WasmRuntime { engine: clone_engine(&self.engine) }
    }
}

/// Relies on wasmtime::Config (consume_fuel, memory_reservation,
/// memory_guard_size, memory_reservation_for_growth) and
/// wasmtime::Engine::new: builds the engine with CPU-budget accounting
/// enabled and with modest address-space reservations per linear memory,
/// so the sandbox embeds in hosts with a restricted address space;
/// execution stays on the synchronous path, the engine's default.
#[verifier::external_body]
fn build_engine() -> (r: Result<wasmtime::Engine, String>) {
    let mut config = wasmtime::Config::new();
    config.consume_fuel(true);
    config.memory_reservation(16 * 1024 * 1024);
    config.memory_guard_size(1024 * 1024);
    config.memory_reservation_for_growth(16 * 1024 * 1024);
    wasmtime::Engine::new(&config).map_err(|e| e.to_string())
}

/// Relies on wasmtime::Engine::clone: the engine is reference-counted and
/// the clone shares it.
#[verifier::external_body]
fn clone_engine(engine: &wasmtime::Engine) -> (r: wasmtime::Engine) {
    engine.clone()
}

/// Relies on wasmtime::Linker::new and wasmtime_wasi::p1::add_to_linker_sync:
/// the linker resolves the guest's WASI preview1 imports against the
/// session's context; the closure only picks the session's wasi field.
#[verifier::external_body]
fn build_linker(engine: &wasmtime::Engine) -> (r: Result<wasmtime::Linker<WasmSession>, String>) {
    let mut linker = wasmtime::Linker::new(engine);
    match wasmtime_wasi::p1::add_to_linker_sync(&mut linker, |s: &mut WasmSession| &mut s.wasi_ctx) {
        Ok(()) => Ok(linker),
        Err(e) => Err(e.to_string()),
    }
}

/// Relies on wasmtime_wasi::WasiCtxBuilder (stdin, stdout, stderr,
/// build_p1) and the in-memory pipes of wasmtime_wasi::p2::pipe: the
/// guest's standard input holds exactly the bytes of `code`, and its
/// standard output and error are fresh in-memory capture buffers, each
/// returned as a shared handle alongside the context.
#[verifier::external_body]
fn build_wasi_context(code: &str) -> (r: (wasmtime_wasi::p1::WasiP1Ctx, MemoryOutputPipe, MemoryOutputPipe)) {
    let stdin = wasmtime_wasi::p2::pipe::MemoryInputPipe::new(code.as_bytes().to_vec());
    let stdout = MemoryOutputPipe::new(CAPTURE_CAPACITY_BYTES);
    let stderr = MemoryOutputPipe::new(CAPTURE_CAPACITY_BYTES);
    let mut builder = wasmtime_wasi::WasiCtxBuilder::new();
    builder.stdin(stdin).stdout(stdout.clone()).stderr(stderr.clone());
    (builder.build_p1(), stdout, stderr)
}

/// Relies on wasmtime::StoreLimitsBuilder::memory_size: the returned
/// StoreLimits, installed as the store's ResourceLimiter, denies every
/// linear-memory growth whose desired byte size exceeds the ceiling; with
/// no ceiling it denies nothing beyond the instance's declared maxima.
#[verifier::external_body]
fn build_store_limits(memory_limit_bytes: Option<usize>) -> (r: wasmtime::StoreLimits) {
    let builder = wasmtime::StoreLimitsBuilder::new();
    match memory_limit_bytes {
        Some(m) => builder.memory_size(m).build(),
        None => builder.build(),
    }
}

/// Relies on wasmtime::Store::new and Store::limiter: wraps the session in
/// a fresh execution context and installs the session's StoreLimits as the
/// authority consulted on every memory and table growth request; the
/// closure only picks the session's limits field.
#[verifier::external_body]
fn make_store(engine: &wasmtime::Engine, session: WasmSession) -> (r: wasmtime::Store<WasmSession>) {
    let mut store = wasmtime::Store::new(engine, session);
    store.limiter(|s| &mut s.limits as &mut dyn wasmtime::ResourceLimiter);
    store
}

/// Relies on wasmtime::Store::set_fuel: sets the run's remaining CPU
/// budget; fails only if the engine was built without fuel accounting.
#[verifier::external_body]
pub(crate) fn store_set_fuel(store: &mut wasmtime::Store<WasmSession>, fuel: u64) -> (r: Result<(), String>) {
    store.set_fuel(fuel).map_err(|e| e.to_string())
}

/// Relies on wasmtime::Module::new: compiles the guest module, given in
/// WebAssembly text form, for the given engine.
#[verifier::external_body]
pub(crate) fn compile_module(engine: &wasmtime::Engine, wasm: &str) -> (r: Result<wasmtime::Module, String>) {
    wasmtime::Module::new(engine, wasm).map_err(|e| e.to_string())
}

/// Relies on wasmtime::Linker::instantiate: binds the guest module's
/// imports against the execution context.
#[verifier::external_body]
pub(crate) fn instantiate_module(
    linker: &wasmtime::Linker<WasmSession>,
    store: &mut wasmtime::Store<WasmSession>,
    module: &wasmtime::Module,
) -> (r: Result<wasmtime::Instance, String>) {
    linker.instantiate(&mut *store, module).map_err(|e| e.to_string())
}

/// Relies on wasmtime::Instance::get_typed_func and TypedFunc::call: looks
/// up the guest's zero-argument entry point and invokes it synchronously
/// on the calling thread. A trap of wasmtime::Trap::OutOfFuel is reported
/// as budget exhaustion and any other trap as a guest fault; Err means the
/// entry point itself could not be resolved.
#[verifier::external_body]
pub(crate) fn invoke_entry(
    store: &mut wasmtime::Store<WasmSession>,
    instance: &wasmtime::Instance,
) -> (r: Result<CallOutcome, String>) {
    let func = match instance.get_typed_func::<(), ()>(&mut *store, "_start") {
        Ok(f) => f,
        Err(e) => return Err(e.to_string()),
    };
    match func.call(&mut *store, ()) {
        Ok(()) => Ok(CallOutcome::Completed),
        Err(e) if e.downcast_ref::<wasmtime::Trap>() == Some(&wasmtime::Trap::OutOfFuel) =>
            Ok(CallOutcome::BudgetExhausted),
        Err(e) => Ok(CallOutcome::Faulted(e.to_string())),
    }
}

/// Relies on MemoryOutputPipe::contents: returns a copy of everything
/// written to this capture channel so far; callable after the owning
/// session's run has completed.
#[verifier::external_body]
pub(crate) fn pipe_contents(pipe: &MemoryOutputPipe) -> (r: Vec<u8>) {
    pipe.contents().to_vec()
}

/// Relies on MemoryOutputPipe::clone: the clone shares its underlying
/// buffer with the pipe it was cloned from.
#[verifier::external_body]
fn clone_pipe(pipe: &MemoryOutputPipe) -> (r: MemoryOutputPipe) {
    pipe.clone()
}

} // verus!
