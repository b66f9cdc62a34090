//! The pages of the ready screen.

use vstd::prelude::Structural;
use vstd::prelude::verus;

verus! {

#[derive(Debug, Clone, Copy, PartialEq, Eq, Structural)]
pub enum View {
    Sessions,
    Settings,
    About,
    Devices,
}

} // verus!
