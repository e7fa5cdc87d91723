//! What the library asks of the allocator beyond what `Vec` already gives it.

use vstd::prelude::*;

verus! {

/// `Vec::as_ptr`: the address of the memory behind `buffer`, as an integer. The address is
/// the allocator's choice and differs from run to run, so all that is claimed is what the
/// standard library documents of every vector: its pointer is never null.
#[verifier::external_body]
pub(crate) fn buffer_address(buffer: &Vec<u8>) -> (address: isize)
    ensures
        address != 0,
{
    buffer.as_ptr() as isize
}

} // verus!
