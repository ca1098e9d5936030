//! The time axis of the chart of speed over time.

use vstd::prelude::*;
use crate::type_test::TestDataPerSecond;

verus! {

/// Whether `second` is the latest second of `history`: zero for an empty
/// history, else a second of the history that none of it exceeds.
pub open spec fn is_max_time(history: Seq<TestDataPerSecond>, second: u64) -> bool {
    if history.len() == 0 {
        second == 0
    } else {
        &&& exists|i: int| 0 <= i < history.len() && (#[trigger] history[i]).timestamp == second
        &&& forall|i: int| 0 <= i < history.len() ==> (#[trigger] history[i]).timestamp <= second
    }
}

/// The latest second of `test_data_history`, where the time axis ends.
pub fn max_time(test_data_history: &[TestDataPerSecond]) -> (second: u64)
    ensures
        is_max_time(test_data_history@, second),
{
    let mut second: u64 = 0;
    let mut i: usize = 0;
    while i < test_data_history.len()
        invariant
            i <= test_data_history.len(),
            is_max_time(test_data_history@.take(i as int), second),
        decreases test_data_history.len() - i,
    {
        let ghost seen = test_data_history@.take(i as int);
        let ghost more = test_data_history@.take(i + 1);
        let stamp = test_data_history[i].timestamp;
        proof {
            assert(more[i as int] == test_data_history@[i as int]);
            assert(forall|j: int| 0 <= j < i ==> more[j] == seen[j]);
            if i > 0 {
                let w = choose|w: int| 0 <= w < seen.len() && (#[trigger] seen[w]).timestamp == second;
                assert(more[w].timestamp == second);
            }
        }
        if i == 0 || stamp > second {
            second = stamp;
        }
        i += 1;
    }
    assert(test_data_history@.take(test_data_history.len() as int) == test_data_history@);
    second
}

/// The three marks of the time axis: its start, its middle and its end.
pub fn time_axis_marks(max_time: u64) -> (marks: (u64, u64, u64))
    ensures
        marks == (0u64, (max_time / 2) as u64, max_time),
{
    (0, max_time / 2, max_time)
}

} // verus!
