use vstd::prelude::*;

verus! {

/// A message that a transport sends and delivers to listeners.
#[derive(Clone, Debug, Default, PartialEq, Eq)]
pub struct UMessage {
    pub payload: Option<Vec<u8>>,
}

} // verus!
