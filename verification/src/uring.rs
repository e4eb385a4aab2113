use vstd::prelude::*;

verus! {

/// Whether the io_uring data path is built in; this build proxies through the
/// standard socket path.
pub fn is_available() -> (r: bool)
    ensures
        !r,
{
    false
}

} // verus!
