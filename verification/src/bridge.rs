//! The external bridge: the entry points an embedding scripting runtime calls
//! to launch the windowed application.
//!
//! The bridge offers two factory calls that hand back opaque placeholder
//! tokens, and a launcher that delegates the actual run to one worker thread
//! and reports an integer exit status. Spawning and joining the worker is
//! process plumbing and stays outside this crate; the work the worker performs
//! and the mapping from its join outcome to the exit status are here, with
//! their contracts.

use vstd::prelude::*;

verus! {

/// Produce the token standing in for a launch context. The token is a
/// placeholder identifier, not a reusable context.
pub fn context_factory() -> (token: String)
    ensures
        token@ == "tauri_context"@,
{
    "tauri_context".to_owned()
}

/// Produce the token standing in for a configured builder. The token is a
/// placeholder identifier, not a reusable builder.
pub fn builder_factory() -> (token: String)
    ensures
        token@ == "tauri_builder"@,
{
    "tauri_builder".to_owned()
}

/// The work the bridge's worker thread performs. The windowed event loop is
/// not yet wired to this entry point, so the worker reports immediate
/// success; this is the launcher's deliberate stub state, kept explicit.
pub fn worker_body() -> (code: i32)
    ensures
        code == worker_success_code(),
{
    0
}

/// The status a normally completed worker yields.
pub open spec fn worker_success_code() -> i32 {
    0i32
}

/// The exit status the launcher reports for a given worker join outcome:
/// the worker's own code when the join succeeded, `1` when the worker
/// panicked and the join failed.
pub open spec fn spec_exit_status(join_outcome: Option<i32>) -> i32 {
    match join_outcome {
        Option::Some(code) => code,
        Option::None => 1i32,
    }
}

/// Map the outcome of joining the worker thread (`Some(code)` when the worker
/// ran to completion, `None` when it panicked) to the launcher's exit status.
pub fn exit_status(join_outcome: Option<i32>) -> (status: i32)
    ensures
        status == spec_exit_status(join_outcome),
{
    match join_outcome {
        Option::Some(code) => code,
        Option::None => 1,
    }
}

/// Law: when the worker is the bridge's own (its only normal result is the
/// success code), the launcher reports `0` exactly when the worker completed
/// normally, and `1` exactly when the worker panicked and the join failed.
pub proof fn lemma_exit_status_classifies(join_outcome: Option<i32>)
    requires
        join_outcome matches Some(code) ==> code == worker_success_code(),
    ensures
        spec_exit_status(join_outcome) == 0 <==> join_outcome == Some(0i32),
        spec_exit_status(join_outcome) == 1 <==> join_outcome is None,
{
}

} // verus!
