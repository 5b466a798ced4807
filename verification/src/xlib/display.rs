use vstd::prelude::*;
use vstd::string::StringSliceAdditionalSpecFns;
use crate::error::Error;
use crate::protocol::{Reply, Request, ServerInfo};
use crate::util::{is_c_text, str_to_c_char};
use crate::xlib::raw::AsRaw;
use crate::xlib::screen::{Screen, ScreenInfo};

verus! {

/// The link to a display server, and the owner of it. Every other resource
/// belongs to one connection and must not outlive it.
///
/// A display keeps what the server said of itself when the connection was
/// made, so that asking for a default screen, a reserved pixel or the
/// vendor's name takes no further round trip. Once closed, its address is 0.
#[derive(Debug)]
pub struct Display {
    info: ServerInfo,
}

impl View for Display {
    type V = ServerInfo;

    /// What the server said of itself, with the address of the connection;
    /// the address is 0 once the display is closed.
    closed spec fn view(&self) -> ServerInfo {
        self.info
    }
}

impl Display {
    /// The default screen is one of the screens.
    pub open spec fn wf(&self) -> bool {
        0 <= self@.default_screen < self@.screens@.len()
    }

    #[verifier::type_invariant]
    spec fn inv(self) -> bool {
        self.wf()
    }

    /// Whether a connection block describes a usable connection: its address
    /// is not null and its default screen is one of its screens.
    pub open spec fn usable(info: ServerInfo) -> bool {
        info.handle != 0 && 0 <= info.default_screen < info.screens@.len()
    }

    pub open spec fn spec_is_open(&self) -> bool {
        self@.handle != 0
    }

    pub open spec fn spec_has_screen(&self, screen: Screen) -> bool {
        0 <= screen.raw() < self@.screens@.len()
    }

    /// What the server said of a screen.
    pub open spec fn screen_info(&self, screen: Screen) -> ScreenInfo
        recommends
            self.has_screen(screen),
    {
        self@.screens@[screen.raw() as int]
    }

    /// What closing asks of the server, and what is left of the connection
    /// block: an open connection is asked to close and its address becomes
    /// 0; of a closed one nothing is asked and nothing changes.
    pub open spec fn closing(info: ServerInfo) -> (Option<Request>, ServerInfo) {
        if info.handle != 0 {
            (Some(Request::CloseDisplay), ServerInfo { handle: 0, ..info })
        } else {
            (None, info)
        }
    }

    /// Asks for a connection to the named server, or to the one that the
    /// environment names where no name is given. A name that holds a zero
    /// byte can name no server: it is refused at once, and nothing is asked
    /// of any server. [`Display::from_reply`] reads the answer.
    pub fn open(display_name: Option<&str>) -> (r: Result<Request, Error>)
        ensures
            match display_name {
                None => r == Ok::<Request, Error>(Request::OpenDisplay { name: None }),
                Some(name) => if is_c_text(name.spec_bytes()) {
                    r matches Ok(Request::OpenDisplay { name: Some(bytes) }) && bytes@
                        == name.spec_bytes()
                } else {
                    r == Err::<Request, Error>(Error::ConnectionFailure)
                },
            },
    {
        match display_name {
            None => Ok(Request::OpenDisplay { name: None }),
            Some(name) => match str_to_c_char(name) {
                Some(bytes) => Ok(Request::OpenDisplay { name: Some(bytes) }),
                None => Err(Error::ConnectionFailure),
            },
        }
    }

    /// The display that an answer to [`Display::open`] stands for. There is
    /// one exactly where the server sent a usable connection block.
    pub fn from_reply(reply: Reply) -> (r: Result<Display, Error>)
        ensures
            match reply {
                Reply::Connection(Some(info)) if Self::usable(info) => r matches Ok(d) && d@
                    == info && d.is_open() && d.wf(),
                _ => r is Err && r->Err_0 == Error::ConnectionFailure,
            },
    {
        match reply {
            Reply::Connection(Some(info)) => Display::from_raw(info),
            _ => Err(Error::ConnectionFailure),
        }
    }

    /// Takes over a connection that was made elsewhere. The display owns it
    /// from then on and closes it.
    pub fn from_raw(info: ServerInfo) -> (r: Result<Display, Error>)
        ensures
            Self::usable(info) ==> (r matches Ok(d) && d@ == info && d.is_open() && d.wf()),
            !Self::usable(info) ==> (r is Err && r->Err_0 == Error::ConnectionFailure),
    {
        if info.handle != 0 && 0 <= info.default_screen && (info.default_screen as usize)
            < info.screens.len() {
            Ok(Display { info })
        } else {
            Err(Error::ConnectionFailure)
        }
    }

    /// Whether the connection is still there.
    #[verifier::when_used_as_spec(spec_is_open)]
    pub fn is_open(&self) -> (open: bool)
        ensures
            open == self.is_open(),
    {
        self.info.handle != 0
    }

    /// Whether the server has a screen of this index.
    #[verifier::when_used_as_spec(spec_has_screen)]
    pub fn has_screen(&self, screen: Screen) -> (has: bool)
        ensures
            has == self.has_screen(screen),
    {
        let index = screen.as_raw();
        0 <= index && (index as usize) < self.info.screens.len()
    }

    /// What the server said of a screen.
    pub fn screen(&self, screen: &Screen) -> (info: &ScreenInfo)
        requires
            self.has_screen(*screen),
        ensures
            *info == self.screen_info(*screen),
    {
        &self.info.screens[screen.as_raw() as usize]
    }

    /// The index of the default screen, which is one of the screens.
    pub fn default_screen_index(&self) -> (index: i32)
        ensures
            index == self@.default_screen,
            0 <= index < self@.screens@.len(),
    {
        proof {
            use_type_invariant(self);
        }
        self.info.default_screen
    }

    /// The name that the connection was made under.
    pub fn string(&self) -> (s: String)
        ensures
            s@ == self@.name@,
    {
        self.info.name.clone()
    }

    /// The major version of the protocol that the server speaks.
    pub fn protocol_version(&self) -> (v: i32)
        ensures
            v == self@.protocol_version,
    {
        self.info.protocol_version
    }

    /// The minor version of the protocol that the server speaks.
    pub fn revision_version(&self) -> (v: i32)
        ensures
            v == self@.protocol_revision,
    {
        self.info.protocol_revision
    }

    /// Who made the server.
    pub fn server_vendor(&self) -> (s: String)
        ensures
            s@ == self@.vendor@,
    {
        self.info.vendor.clone()
    }

    /// The vendor's release number of the server.
    pub fn vendor_release(&self) -> (v: i32)
        ensures
            v == self@.vendor_release,
    {
        self.info.vendor_release
    }

    /// Sends what the connection has buffered to the server.
    pub fn flush(&self) -> (r: Request)
        requires
            self.is_open(),
        ensures
            r == Request::Flush,
    {
        Request::Flush
    }

    /// Closes the connection. The first call on an open display hands back
    /// the request that closes it and marks the display closed; on a closed
    /// display nothing is left to do, and nothing is handed back.
    pub fn close(&mut self) -> (r: Option<Request>)
        ensures
            (r, final(self)@) == Self::closing(old(self)@),
            old(self).is_open() ==> r == Some(Request::CloseDisplay),
            !old(self).is_open() ==> r.is_none(),
            !final(self).is_open(),
    {
        proof {
            use_type_invariant(&*self);
        }
        if self.info.handle != 0 {
            self.info.handle = 0;
            Some(Request::CloseDisplay)
        } else {
            None
        }
    }
}

/// Closing closes once: whatever a display was, a second closing asks
/// nothing of the server and changes nothing.
pub proof fn lemma_close_twice_is_a_no_op(info: ServerInfo)
    ensures
        Display::closing(Display::closing(info).1) == (None::<Request>, Display::closing(info).1),
{
}

impl AsRaw<usize> for Display {
    /// The address of the connection; 0 once it is closed.
    open spec fn raw(&self) -> usize {
        self@.handle
    }

    fn as_raw(&self) -> usize {
        self.info.handle
    }
}

} // verus!
