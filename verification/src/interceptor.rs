//! Hook point for splicing the runner into a host harness.
//!
//! Some hosts splice a custom runner into an existing harness by rewriting
//! the harness's entry point in executable memory. That technique is
//! unsafe and platform-specific, and stays outside this crate: the runner
//! here is handed its declarations explicitly, so there is nothing to
//! install and installation is a no-op.
use vstd::prelude::*;

verus! {

/// Install the entry-point hook. A no-op: see the module description.
pub fn install_interceptor() {
}

} // verus!
