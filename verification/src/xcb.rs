//! Handing a connection's event queue to an XCB client.

use vstd::prelude::*;
use crate::protocol::{Reply, Request};
use crate::xlib::display::Display;

verus! {

/// Which client library reads the events of a shared connection.
#[derive(Clone, Copy, Debug, PartialEq, Eq, Structural)]
pub enum EventQueueOwner {
    XLibOwnsEventQueue,
    XCBOwnsEventQueue,
}

/// The XCB side of a connection, named by its address. It belongs to the
/// display it was taken from.
#[derive(Clone, Copy, Debug, PartialEq, Eq, Structural)]
pub struct XCBConnection(pub usize);

impl XCBConnection {
    /// The XCB connection that the server named, where it named one.
    pub fn from_reply(reply: Reply) -> (r: Option<XCBConnection>)
        ensures
            r == match reply {
                Reply::Handle(address) if address != 0 => Some(XCBConnection(address)),
                _ => None,
            },
    {
        match reply {
            Reply::Handle(address) if address != 0 => Some(XCBConnection(address)),
            _ => None,
        }
    }
}

/// Asks for the XCB connection that lies under a display.
/// [`XCBConnection::from_reply`] reads the answer.
pub fn get_xcb_connection(display: &Display) -> (r: Request)
    requires
        display.is_open(),
    ensures
        r == Request::GetXcbConnection,
{
    Request::GetXcbConnection
}

/// Says which client library reads the events of a display from now on.
pub fn set_event_queue_owner(display: &Display, owner: EventQueueOwner) -> (r: Request)
    requires
        display.is_open(),
    ensures
        r == (Request::SetEventQueueOwner { owner }),
{
    Request::SetEventQueueOwner { owner }
}

} // verus!
