//! The tally of a run of the integration tests.

use crate::testing::QEMU_SUCCESS_STATUS;
use vstd::prelude::*;

verus! {

/// How one integration test ended.
#[derive(Debug, Clone, Copy, PartialEq, Eq, Structural)]
pub enum TestOutcome {
    /// The test binary could not be built.
    BuildFailed,
    /// The build left no binary for the test.
    BinaryMissing,
    /// QEMU ran the binary and ended with this status; a missing status
    /// counts as 1.
    Exited(i32),
}

impl TestOutcome {
    /// The test passed: QEMU ended with the status 33.
    pub open spec fn passed_spec(self) -> bool {
        self == TestOutcome::Exited(QEMU_SUCCESS_STATUS)
    }

    /// Whether the test passed.
    pub fn passed(self) -> (r: bool)
        ensures
            r == self.passed_spec(),
    {
        match self {
            TestOutcome::Exited(status) => status == QEMU_SUCCESS_STATUS,
            _ => false,
        }
    }
}

/// Number of outcomes in `outcomes` that are passes.
pub open spec fn count_passed(outcomes: Seq<TestOutcome>) -> nat
    decreases outcomes.len(),
{
    if outcomes.len() == 0 {
        0
    } else {
        count_passed(outcomes.drop_last()) + if outcomes.last().passed_spec() {
            1nat
        } else {
            0nat
        }
    }
}

/// The tally of a run.
#[derive(Debug, Clone, PartialEq, Eq)]
pub struct TestTally {
    /// Number of tests that passed.
    pub passed: usize,
    /// Number of tests that failed.
    pub failed: usize,
    /// Positions, in the run, of the tests that failed, in order.
    pub failed_tests: Vec<usize>,
}

/// Tallies the outcomes of a run. The run as a whole passes when no test
/// failed.
pub fn run_tests(outcomes: &Vec<TestOutcome>) -> (r: TestTally)
    ensures
        r.passed == count_passed(outcomes@),
        r.passed + r.failed == outcomes@.len(),
        r.failed == r.failed_tests@.len(),
        forall|k: int|
            0 <= k < r.failed_tests@.len() ==> 0 <= #[trigger] r.failed_tests@[k] < outcomes@.len()
                && !outcomes@[r.failed_tests@[k] as int].passed_spec(),
        forall|k: int, l: int|
            0 <= k < l < r.failed_tests@.len() ==> r.failed_tests@[k] < r.failed_tests@[l],
        forall|i: int|
            0 <= i < outcomes@.len() && !(#[trigger] outcomes@[i]).passed_spec()
                ==> r.failed_tests@.contains(i as usize),
{
    let mut passed: usize = 0;
    let mut failed: usize = 0;
    let mut failed_tests: Vec<usize> = Vec::new();
    let mut i: usize = 0;
    assert(outcomes@.take(0) =~= Seq::<TestOutcome>::empty());
    while i < outcomes.len()
        invariant
            i <= outcomes@.len(),
            passed == count_passed(outcomes@.take(i as int)),
            passed + failed == i,
            failed == failed_tests@.len(),
            forall|k: int|
                0 <= k < failed_tests@.len() ==> 0 <= #[trigger] failed_tests@[k] < i
                    && !outcomes@[failed_tests@[k] as int].passed_spec(),
            forall|k: int, l: int|
                0 <= k < l < failed_tests@.len() ==> failed_tests@[k] < failed_tests@[l],
            forall|j: int|
                0 <= j < i && !(#[trigger] outcomes@[j]).passed_spec() ==> failed_tests@.contains(
                    j as usize,
                ),
        decreases outcomes@.len() - i,
    {
        assert(outcomes@.take(i + 1).drop_last() =~= outcomes@.take(i as int));
        if outcomes[i].passed() {
            passed += 1;
        } else {
            let ghost before = failed_tests@;
            failed += 1;
            failed_tests.push(i);
            assert forall|j: int|
                0 <= j < i + 1 && !(#[trigger] outcomes@[j]).passed_spec() implies failed_tests@.contains(
                j as usize,
            ) by {
                if j < i {
                    let k = choose|k: int| 0 <= k < before.len() && before[k] == j as usize;
                    assert(failed_tests@[k] == j as usize);
                } else {
                    assert(failed_tests@[before.len() as int] == i);
                }
            }
        }
        i += 1;
    }
    assert(outcomes@.take(i as int) =~= outcomes@);
    TestTally { passed, failed, failed_tests }
}

} // verus!
