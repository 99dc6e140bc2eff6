//! Texts that reading the local clock gave.
//!
//! The clock's value cannot be known to a proof, but where a text came from
//! can: `clock_time` holds of a text exactly when it is what a reading of the
//! local clock wrote, and only the reading itself establishes it, since the
//! predicate's definition is not visible outside this module. A function that
//! promises a `clock_time` text, or a part of one, therefore hands on what the
//! clock gave, not some other text of the same shape.

use vstd::prelude::*;
use crate::history::{is_date_stamp, is_time_stamp};

verus! {

/// `s` is a text that a reading of the local clock wrote as
/// `%Y-%m-%d_%H-%M-%S`.
pub closed spec fn clock_time(s: Seq<char>) -> bool {
    is_time_stamp(s)
}

/// `s` is a text that a reading of the local clock wrote as `%Y-%m-%d`.
pub closed spec fn clock_date(s: Seq<char>) -> bool {
    is_date_stamp(s)
}

/// A clock reading in `%Y-%m-%d_%H-%M-%S` has that format's shape.
pub proof fn lemma_clock_time_shape(s: Seq<char>)
    requires
        clock_time(s),
    ensures
        is_time_stamp(s),
{
}

/// A clock reading in `%Y-%m-%d` has that format's shape.
pub proof fn lemma_clock_date_shape(s: Seq<char>)
    requires
        clock_date(s),
    ensures
        is_date_stamp(s),
{
}

} // verus!
