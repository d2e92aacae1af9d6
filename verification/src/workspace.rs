//! Opportunistic access to the shared layout tree.
//!
//! Workspace commands run on the dispatch thread and must never block on
//! the tree, which other threads mutate concurrently.  The policy: try a
//! non-blocking exclusive acquisition; if the tree is busy, silently skip
//! the whole request — no retry, no queuing; if it was acquired but the
//! tree operation itself failed, report that failure and move on.  Nothing
//! here is ever fatal.

use vstd::prelude::*;
use vstd::string::StringExecFns;

verus! {

/// The character naming workspace `d`, for digits `0` through `9`.
pub open spec fn digit_char(d: u8) -> char {
    if d == 0 {
        '0'
    } else if d == 1 {
        '1'
    } else if d == 2 {
        '2'
    } else if d == 3 {
        '3'
    } else if d == 4 {
        '4'
    } else if d == 5 {
        '5'
    } else if d == 6 {
        '6'
    } else if d == 7 {
        '7'
    } else if d == 8 {
        '8'
    } else {
        '9'
    }
}

/// Distinct digits name distinct workspaces.
pub proof fn lemma_digit_char_injective(a: u8, b: u8)
    requires
        a <= 9,
        b <= 9,
        a != b,
    ensures
        digit_char(a) != digit_char(b),
{
}

/// The one-character label of workspace `d`, as a string slice.
pub fn digit_label(d: u8) -> (r: &'static str)
    requires
        d <= 9,
    ensures
        r@ == seq![digit_char(d)],
{
    if d == 0 {
        proof {
            reveal_strlit("0");
            assert("0"@ =~= seq![digit_char(0u8)]);
        }
        "0"
    } else if d == 1 {
        proof {
            reveal_strlit("1");
            assert("1"@ =~= seq![digit_char(1u8)]);
        }
        "1"
    } else if d == 2 {
        proof {
            reveal_strlit("2");
            assert("2"@ =~= seq![digit_char(2u8)]);
        }
        "2"
    } else if d == 3 {
        proof {
            reveal_strlit("3");
            assert("3"@ =~= seq![digit_char(3u8)]);
        }
        "3"
    } else if d == 4 {
        proof {
            reveal_strlit("4");
            assert("4"@ =~= seq![digit_char(4u8)]);
        }
        "4"
    } else if d == 5 {
        proof {
            reveal_strlit("5");
            assert("5"@ =~= seq![digit_char(5u8)]);
        }
        "5"
    } else if d == 6 {
        proof {
            reveal_strlit("6");
            assert("6"@ =~= seq![digit_char(6u8)]);
        }
        "6"
    } else if d == 7 {
        proof {
            reveal_strlit("7");
            assert("7"@ =~= seq![digit_char(7u8)]);
        }
        "7"
    } else if d == 8 {
        proof {
            reveal_strlit("8");
            assert("8"@ =~= seq![digit_char(8u8)]);
        }
        "8"
    } else {
        proof {
            reveal_strlit("9");
            assert("9"@ =~= seq![digit_char(9u8)]);
        }
        "9"
    }
}

/// The workspace id handed to the tree accessor's switch and send
/// operations: the digit as a one-character string.
pub fn workspace_id_string(d: u8) -> (r: String)
    requires
        d <= 9,
    ensures
        r@ == seq![digit_char(d)],
{
    String::from_str(digit_label(d))
}

/// How one opportunistic tree access ended.
#[derive(Clone, Copy, Debug, PartialEq, Eq, Structural)]
pub enum TreeOutcome {
    /// The lock was acquired and the operation succeeded.
    Applied,
    /// The lock was acquired but the tree operation failed; the failure is
    /// reported, never escalated.
    OperationFailed,
    /// The tree was busy on another thread; the request is dropped
    /// silently, without retry or queuing.
    SkippedLockBusy,
}

/// Resolve one opportunistic tree access from what the outside accessor
/// reported: whether the non-blocking lock was acquired, and — only then —
/// whether the tree operation succeeded.
pub fn tree_attempt_outcome(lock_acquired: bool, op_succeeded: bool) -> (r: TreeOutcome)
    ensures
        !lock_acquired ==> r == TreeOutcome::SkippedLockBusy,
        (lock_acquired && op_succeeded) ==> r == TreeOutcome::Applied,
        (lock_acquired && !op_succeeded) ==> r == TreeOutcome::OperationFailed,
{
    if !lock_acquired {
        TreeOutcome::SkippedLockBusy
    } else if op_succeeded {
        TreeOutcome::Applied
    } else {
        TreeOutcome::OperationFailed
    }
}

} // verus!
