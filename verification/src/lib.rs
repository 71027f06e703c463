//! Data-driven test discovery and expansion.
//!
//! The crate turns compact test declarations — a directory plus a filename
//! pattern plus argument templates, or a document holding a list of cases —
//! into a flat list of concrete, independently named test cases, ready to be
//! handed to a test executor.
use vstd::prelude::*;

pub mod data;
pub mod files;
pub mod interceptor;
pub mod pattern;
pub mod runner;
pub mod text;

pub use crate::data::{DataTestCase, DataTestCaseDesc, DataTestDesc, TestNameWithDefault};
pub use crate::files::{FileCase, FilesTestDesc};
pub use crate::interceptor::install_interceptor;
pub use crate::runner::{
    ConfigError, DatatestTestDesc, DeclInput, ExpandedCase, RegularShouldPanic, RegularTestDesc,
    RunPlan, TestDescriptor, TestOpts,
};

verus! {

/// The kind of test suite a source file belongs to, judged from its path.
#[derive(Clone, Copy, Debug, PartialEq, Eq, Structural)]
pub enum TestType {
    UnitTest,
    IntegrationTest,
    Unknown,
}

/// What `test_type` returns for a given path.
pub open spec fn spec_test_type(path: Seq<char>) -> TestType {
    if "tests"@.is_prefix_of(path) {
        TestType::IntegrationTest
    } else if "src"@.is_prefix_of(path) {
        TestType::UnitTest
    } else {
        TestType::Unknown
    }
}

/// Classify a source path the way the standard harness does: paths under
/// `src` hold unit tests, paths under `tests` hold integration tests.
pub fn test_type(path: &str) -> (t: TestType)
    ensures
        t == spec_test_type(path@),
{
    proof {
        reveal_strlit("src");
        reveal_strlit("tests");
    }
    if text::str_has_prefix(path, "tests") {
        TestType::IntegrationTest
    } else if text::str_has_prefix(path, "src") {
        TestType::UnitTest
    } else {
        TestType::Unknown
    }
}

} // verus!
