use vstd::prelude::*;

pub mod exec;
pub mod line_buffer;
pub mod policy;
pub mod session;
pub mod summary;
pub mod toolkit;

verus! {

/// The sum of two sizes.
pub fn add(left: usize, right: usize) -> (r: usize)
    requires
        left + right <= usize::MAX,
    ensures
        r == left + right,
{
    left + right
}

} // verus!
