//! The screen shown while no device is connected.

use vstd::prelude::*;

verus! {

/// Why no device is connected.
#[derive(Debug, PartialEq, Eq)]
pub enum NoDevicesReason {
    /// A scan found none.
    NoneFound,
    /// A connected device stopped answering; a rescan starts when the
    /// countdown runs out.
    Lost { port_name: String, retry_in_secs: u64 },
}

/// The reason as a plain value.
pub enum NoDevicesView {
    NoneFound,
    Lost { port_name: Seq<char>, retry_in_secs: u64 },
}

impl View for NoDevicesReason {
    type V = NoDevicesView;

    open spec fn view(&self) -> NoDevicesView {
        match *self {
            NoDevicesReason::NoneFound => NoDevicesView::NoneFound,
            NoDevicesReason::Lost { port_name, retry_in_secs } => NoDevicesView::Lost {
                port_name: port_name@,
                retry_in_secs,
            },
        }
    }
}

} // verus!
