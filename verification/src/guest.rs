//! The embedded guest module: a fixed, pre-built WebAssembly artifact, not
//! user-supplied. It implements the minimal WASI surface the sandbox links
//! (stdio only), reads arbitrary bytes from its standard input — the
//! snippet — and writes its result bytes to its standard output, exposing
//! a single zero-argument `_start` entry point invoked once per run. This
//! guest echoes its standard input verbatim, so a run's output is the
//! snippet itself.

use vstd::prelude::*;

verus! {

/// WebAssembly text for the guest. One page of linear memory holds an
/// iovec at offset 0, the read and written byte counts at offsets 8 and
/// 12, and a 4096-byte transfer buffer at offset 64. The entry point
/// copies standard input to standard output chunk by chunk until the
/// input is exhausted or either stream reports an error.
pub const GUEST_MODULE_TEXT: &'static str = "
(module
  (import \"wasi_snapshot_preview1\" \"fd_read\"
    (func $fd_read (param i32 i32 i32 i32) (result i32)))
  (import \"wasi_snapshot_preview1\" \"fd_write\"
    (func $fd_write (param i32 i32 i32 i32) (result i32)))
  (memory (export \"memory\") 1)
  (func (export \"_start\")
    (block $done
      (loop $again
        (i32.store (i32.const 0) (i32.const 64))
        (i32.store (i32.const 4) (i32.const 4096))
        (br_if $done
          (call $fd_read (i32.const 0) (i32.const 0) (i32.const 1) (i32.const 8)))
        (br_if $done (i32.eqz (i32.load (i32.const 8))))
        (i32.store (i32.const 4) (i32.load (i32.const 8)))
        (br_if $done
          (call $fd_write (i32.const 1) (i32.const 0) (i32.const 1) (i32.const 12)))
        (br $again)))))
";

} // verus!
