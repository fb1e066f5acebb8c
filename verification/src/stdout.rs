//! Standard-output accessor.

use vstd::prelude::*;
use crate::console::{StdOut, Transport};

verus! {

/// Returns a console façade over the given transport for standard output.
pub fn stdout<T: Transport>(transport: T) -> (s: StdOut<T>)
    ensures
        s.sent() == transport.sent(),
{
    StdOut::new(transport)
}

} // verus!
