use vstd::prelude::*;

verus! {

/// The scheme under which a backend is addressed.
#[derive(Debug, Clone, Copy, PartialEq, Eq, Structural)]
pub enum SgProtocol {
    Http,
    Https,
}

} // verus!
