//! An embeddable sandbox that executes untrusted source snippets inside an
//! isolated WebAssembly guest with a bounded CPU budget and bounded memory,
//! returning the guest's captured standard output to the caller.
//!
//! Each run builds its own execution session — WASI context with captured
//! stdio, resource limiter, CPU budget — so no state leaks between runs.
//! Guest-side faults and budget exhaustion are absorbed: whatever output
//! was captured up to that point is still returned. Only engine, linker,
//! module or instantiation failures surface as errors.

use vstd::prelude::*;

pub mod guest;
pub mod runtime;
pub mod vfs;

use crate::runtime::{CallOutcome, RunLimits, WasmRuntime, WasmSession};
use crate::vfs::VirtualFS;

verus! {

/// Error classes surfaced to the sandbox's caller. Guest-side faults and
/// budget exhaustion are deliberately absent: they are absorbed by `run`.
#[derive(Debug)]
pub enum SandboxError {
    /// Engine setup failed at construction time: the host configuration is
    /// unsupported.
    Engine(String),
    /// Linker, module-load, budget-assignment or instantiation failure for
    /// one run: a host or build problem, not a guest-code problem.
    Runtime(String),
}

impl SandboxError {
    /// A human-readable description of the failure.
    pub fn message(&self) -> (r: &str) {
        match self {
            SandboxError::Engine(m) => m.as_str(),
            SandboxError::Runtime(m) => m.as_str(),
        }
    }
}

/// Caller-supplied, immutable configuration. An absent field means "no
/// explicit ceiling for that dimension".
#[derive(Clone, Copy)]
pub struct SandboxConfig {
    /// Ceiling on the guest's linear-memory growth, in megabytes.
    pub memory_limit_mb: Option<usize>,
    /// Bound on guest execution, in milliseconds, applied as a CPU budget.
    pub timeout_ms: Option<u64>,
}

/// CPU-budget units granted per configured millisecond of timeout. A
/// fixed policy constant, so behaviour is reproducible: the budget is
/// proportional to the configured timeout, not a wall-clock guarantee.
pub const FUEL_PER_MS: u64 = 1000;

impl SandboxConfig {
    /// Creates a configuration from the two optional ceilings.
    pub fn new(memory_limit_mb: Option<usize>, timeout_ms: Option<u64>) -> (r: SandboxConfig)
        ensures
            r.memory_limit_mb == memory_limit_mb,
            r.timeout_ms == timeout_ms,
    {
        SandboxConfig { memory_limit_mb, timeout_ms }
    }

    /// The configuration used when none is supplied: 512 MiB of guest
    /// memory and a 10000 ms budget.
    pub open spec fn spec_default() -> SandboxConfig {
        SandboxConfig { memory_limit_mb: Some(512usize), timeout_ms: Some(10000u64) }
    }

    /// The supplied configuration, or the default where none was given.
    pub open spec fn spec_or_default(config: Option<SandboxConfig>) -> SandboxConfig {
        match config {
            Some(c) => c,
            None => SandboxConfig::spec_default(),
        }
    }

    /// The memory ceiling in bytes: one megabyte is 1048576 bytes. A
    /// product beyond the machine's word saturates to `usize::MAX`, which
    /// authorizes every growth a host of that word size can represent.
    pub open spec fn spec_memory_limit_bytes(self) -> Option<usize> {
        match self.memory_limit_mb {
            None => None,
            Some(mb) => if mb * 1048576 <= usize::MAX {
                Some((mb * 1048576) as usize)
            } else {
                Some(usize::MAX)
            },
        }
    }

    /// Converts the configured memory ceiling to bytes.
    pub fn memory_limit_bytes(&self) -> (r: Option<usize>)
        ensures
            r == self.spec_memory_limit_bytes(),
    {
        match self.memory_limit_mb {
            None => None,
            Some(mb) => {
                if mb <= usize::MAX / 1048576 {
                    Some(mb * 1048576)
                } else {
                    Some(usize::MAX)
                }
            },
        }
    }
}

/// The CPU budget for a run: the configured milliseconds times
/// `FUEL_PER_MS`, saturating at `u64::MAX`; an absent timeout grants the
/// maximum representable budget, effectively unbounded.
pub open spec fn spec_fuel_for(timeout_ms: Option<u64>) -> u64 {
    match timeout_ms {
        None => u64::MAX,
        Some(ms) => if ms * FUEL_PER_MS <= u64::MAX {
            (ms * FUEL_PER_MS) as u64
        } else {
            u64::MAX
        },
    }
}

/// Translates the configured timeout into the run's CPU budget.
pub fn fuel_for(timeout_ms: Option<u64>) -> (r: u64)
    ensures
        r == spec_fuel_for(timeout_ms),
{
    match timeout_ms {
        None => u64::MAX,
        Some(ms) => {
            if ms <= u64::MAX / FUEL_PER_MS {
                ms * FUEL_PER_MS
            } else {
                u64::MAX
            }
        },
    }
}

/// Law: a larger configured timeout never yields a smaller CPU budget,
/// and an absent timeout yields the largest budget of all.
pub proof fn lemma_budget_monotone(t1: u64, t2: u64)
    requires
        t1 <= t2,
    ensures
        spec_fuel_for(Some(t1)) <= spec_fuel_for(Some(t2)),
        spec_fuel_for(Some(t1)) <= spec_fuel_for(None),
{
    assert(t1 * FUEL_PER_MS <= t2 * FUEL_PER_MS) by (nonlinear_arith)
        requires t1 <= t2;
}

/// Law: with a configured memory ceiling of `m` megabytes, a request to
/// grow linear memory beyond that many bytes is denied by the
/// growth-authorization rule, whatever the instance's declared maximum.
pub proof fn lemma_memory_limit_enforced(
    config: SandboxConfig,
    m: usize,
    desired: usize,
    maximum: Option<usize>,
)
    requires
        config.memory_limit_mb == Some(m),
        desired > m * 1048576,
    ensures
        !RunLimits::grow_allowed(config.spec_memory_limit_bytes(), desired, maximum),
{
}

/// A name for the bytes-to-text decoding the captured channel reports.
pub uninterp spec fn lossy_utf8(bytes: Seq<u8>) -> Seq<char>;

/// Relies on String::from_utf8_lossy: decodes bytes as UTF-8 with
/// replacement characters substituted for invalid sequences. The result
/// depends on the bytes alone, and ASCII bytes decode to their own
/// characters.
#[verifier::external_body]
fn lossy_string(bytes: &[u8]) -> (r: String)
    ensures
        r@ == lossy_utf8(bytes@),
        (forall|i: int| 0 <= i < bytes@.len() ==> bytes@[i] < 128)
            ==> r@ == Seq::new(bytes@.len(), |i: int| bytes@[i] as char),
{
    String::from_utf8_lossy(bytes).into_owned()
}

/// Public facade: owns one runtime, one virtual staging store, and one
/// configuration. `run` may be called repeatedly; each call builds an
/// independent execution session, so no captured output, memory or
/// capability leaks between runs.
pub struct Sandbox {
    runtime: WasmRuntime,
    vfs: VirtualFS,
    config: SandboxConfig,
}

impl Sandbox {
    /// The configuration this sandbox was built with.
    pub closed spec fn spec_config(self) -> SandboxConfig {
        self.config
    }

    /// The staging store's current contents.
    pub closed spec fn spec_vfs(self) -> Map<Seq<char>, Seq<u8>> {
        self.vfs@
    }

    /// Builds a sandbox from the given configuration, or from the default
    /// one where none is supplied; fails only if the engine cannot be
    /// created on this host.
    pub fn new(config: Option<SandboxConfig>) -> (r: Result<Sandbox, SandboxError>)
        ensures
            r matches Ok(s) ==> s.spec_config() == SandboxConfig::spec_or_default(config),
            r matches Ok(s) ==> s.spec_vfs() == Map::<Seq<char>, Seq<u8>>::empty(),
            r matches Err(e) ==> e matches SandboxError::Engine(_),
    {
        let chosen = match config {
            Some(c) => c,
            None => SandboxConfig { memory_limit_mb: Some(512), timeout_ms: Some(10000) },
        };
        match WasmRuntime::new() {
            Ok(rt) => Ok(Sandbox { runtime: rt, vfs: VirtualFS::new(), config: chosen }),
            Err(e) => Err(e),
        }
    }

    /// Runs the guest once over `code`. Builds a fresh session whose
    /// standard input is `code` and whose stdio is captured, obtains a
    /// linker, assigns the CPU budget that the configured timeout maps
    /// to, compiles and instantiates the embedded guest module, and
    /// invokes its entry point synchronously. Whatever the guest's
    /// outcome — completion, fault or budget exhaustion — the captured
    /// standard output is decoded and returned; only linker, budget,
    /// module or instantiation failures surface as errors.
    pub fn run(&self, code: String) -> (r: Result<String, SandboxError>)
        ensures
            r matches Err(e) ==> e matches SandboxError::Runtime(_),
    {
        let memory_bytes = self.config.memory_limit_bytes();
        let session = WasmSession::new(memory_bytes, code.as_str());
        let stdout_channel = session.stdout_handle();

        let linker = match self.runtime.create_linker() {
            Ok(l) => l,
            Err(e) => return Err(e),
        };
        let mut store = self.runtime.create_store(session);

        let fuel = fuel_for(self.config.timeout_ms);
        match crate::runtime::store_set_fuel(&mut store, fuel) {
            Ok(()) => {},
            Err(msg) => return Err(SandboxError::Runtime(msg)),
        }

        let module = match crate::runtime::compile_module(self.runtime.engine(), guest::GUEST_MODULE_TEXT) {
            Ok(m) => m,
            Err(msg) => return Err(SandboxError::Runtime(msg)),
        };
        let instance = match crate::runtime::instantiate_module(&linker, &mut store, &module) {
            Ok(i) => i,
            Err(msg) => return Err(SandboxError::Runtime(msg)),
        };

        let outcome = match crate::runtime::invoke_entry(&mut store, &instance) {
            Ok(o) => o,
            Err(msg) => return Err(SandboxError::Runtime(msg)),
        };
        match outcome {
            CallOutcome::Completed => {},
            CallOutcome::BudgetExhausted => {},
            CallOutcome::Faulted(_) => {},
        }

        let captured = crate::runtime::pipe_contents(&stdout_channel);
        Ok(lossy_string(captured.as_slice()))
    }

    /// The configuration this sandbox was built with.
    pub fn config(&self) -> (r: SandboxConfig)
        ensures
            r == self.spec_config(),
    {
        self.config
    }
}

} // verus!
