//! Failure-class taxonomy and exit-code mapping.

use vstd::prelude::*;

verus! {

/// Classifies a plan-cycle run outcome into one of three severity levels.
///
/// | Variant  | Meaning                                                |
/// |----------|--------------------------------------------------------|
/// | `Green`  | Run succeeded (exit code 0).                           |
/// | `Orange` | Recoverable failure; retry is warranted (exit code 2). |
/// | `Red`    | Hard failure; no retry (exit code 3 or unknown).       |
#[derive(Debug, Clone, Copy, PartialEq, Eq, Structural)]
pub enum FailureClass {
    /// The plan cycle completed successfully.
    Green,
    /// The plan cycle failed in a recoverable way.
    Orange,
    /// The plan cycle failed in a non-recoverable way.
    Red,
}

/// The class of an executor exit code: `0` is Green, `2` is Orange, and
/// every other code (`3` included) is Red.
pub open spec fn class_of_exit_code(code: i32) -> FailureClass {
    if code == 0 {
        FailureClass::Green
    } else if code == 2 {
        FailureClass::Orange
    } else {
        FailureClass::Red
    }
}

/// The lowercase name of a class, as written in ledger lines and messages.
pub open spec fn class_label(c: FailureClass) -> Seq<char> {
    match c {
        FailureClass::Green => seq!['g', 'r', 'e', 'e', 'n'],
        FailureClass::Orange => seq!['o', 'r', 'a', 'n', 'g', 'e'],
        FailureClass::Red => seq!['r', 'e', 'd'],
    }
}

/// How severe a class is: Green 0, Orange 1, Red 2. This is also the exit
/// code of the command-line tool for a run of that class.
pub open spec fn severity(c: FailureClass) -> int {
    match c {
        FailureClass::Green => 0,
        FailureClass::Orange => 1,
        FailureClass::Red => 2,
    }
}

impl FailureClass {
    /// Maps a process exit code to a [`FailureClass`].
    ///
    /// - `0`  → [`Green`](FailureClass::Green)
    /// - `2`  → [`Orange`](FailureClass::Orange)
    /// - `3`  → [`Red`](FailureClass::Red)
    /// - any other value → [`Red`](FailureClass::Red)
    pub fn from_exit_code(code: i32) -> (c: FailureClass)
        ensures
            c == class_of_exit_code(code),
    {
        if code == 0 {
            FailureClass::Green
        } else if code == 2 {
            FailureClass::Orange
        } else if code == 3 {
            FailureClass::Red
        } else {
            FailureClass::Red
        }
    }

    /// The lowercase name of the class: `"green"`, `"orange"` or `"red"`.
    pub fn to_display_string(&self) -> (s: String)
        ensures
            s@ == class_label(*self),
    {
        let mut s = String::new();
        match self {
            FailureClass::Green => {
                crate::text::push_char(&mut s, 'g');
                crate::text::push_char(&mut s, 'r');
                crate::text::push_char(&mut s, 'e');
                crate::text::push_char(&mut s, 'e');
                crate::text::push_char(&mut s, 'n');
            },
            FailureClass::Orange => {
                crate::text::push_char(&mut s, 'o');
                crate::text::push_char(&mut s, 'r');
                crate::text::push_char(&mut s, 'a');
                crate::text::push_char(&mut s, 'n');
                crate::text::push_char(&mut s, 'g');
                crate::text::push_char(&mut s, 'e');
            },
            FailureClass::Red => {
                crate::text::push_char(&mut s, 'r');
                crate::text::push_char(&mut s, 'e');
                crate::text::push_char(&mut s, 'd');
            },
        }
        assert(s@ =~= class_label(*self));
        s
    }

    /// The severity of the class: 0 for Green, 1 for Orange, 2 for Red.
    pub fn severity(&self) -> (n: i32)
        ensures
            n == severity(*self),
    {
        match self {
            FailureClass::Green => 0,
            FailureClass::Orange => 1,
            FailureClass::Red => 2,
        }
    }
}

/// A run is Green exactly when the executor exited with code 0; an exit
/// code of 2 alone is Orange; every other code is Red.
pub proof fn lemma_green_iff_zero(code: i32)
    ensures
        (class_of_exit_code(code) == FailureClass::Green) <==> code == 0,
        (class_of_exit_code(code) == FailureClass::Orange) <==> code == 2,
        (class_of_exit_code(code) == FailureClass::Red) <==> (code != 0 && code != 2),
{
}

} // verus!
