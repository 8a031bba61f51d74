//! The execution stack and its items.

use vstd::prelude::*;
use crate::data::Data;
use crate::data::Tagged;
use crate::local::Local;

verus! {

/// One slot of the execution stack.
#[derive(Debug)]
pub enum Item {
    /// An anonymous pushed value.
    Data(Tagged),
    /// A named binding; the value is owned by this slot.
    Local { local: Local, data: Data },
    /// A scope boundary marker; carries no data.
    Frame,
}

/// The execution stack: an ordered sequence of items, the last one on top.
pub type Stack = Vec<Item>;

} // verus!
