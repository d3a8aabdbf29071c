//! Clients of the control sockets of the proxy and of the certificate
//! service, and the line framing their messages travel in.
use vstd::prelude::*;

verus! {

/// A client of the proxy's control socket.
#[derive(Clone, Debug)]
pub struct RadianceControlClient {
    socket_path: String,
}

impl RadianceControlClient {
    /// The path of the socket the client talks to.
    pub closed spec fn path_view(&self) -> Seq<char> {
        self.socket_path@
    }

    /// A client of the socket at the path.
    pub fn new(socket_path: String) -> (c: Self)
        ensures
            c.path_view() == socket_path@,
    {
        RadianceControlClient { socket_path }
    }

    /// The path of the socket the client talks to.
    pub fn socket_path(&self) -> (p: &String)
        ensures
            p@ == self.path_view(),
    {
        &self.socket_path
    }
}

/// A client of the certificate service's control socket.
#[derive(Clone, Debug)]
pub struct ZenithControlClient {
    socket_path: String,
}

impl ZenithControlClient {
    /// The path of the socket the client talks to.
    pub closed spec fn path_view(&self) -> Seq<char> {
        self.socket_path@
    }

    /// A client of the socket at the path.
    pub fn new(socket_path: String) -> (c: Self)
        ensures
            c.path_view() == socket_path@,
    {
        ZenithControlClient { socket_path }
    }

    /// The path of the socket the client talks to.
    pub fn socket_path(&self) -> (p: &String)
        ensures
            p@ == self.path_view(),
    {
        &self.socket_path
    }
}

/// A message as it travels on a control socket: its JSON text and a newline.
pub fn frame_line(json: &str) -> (line: String)
    ensures
        line@ == json@ + "\n"@,
{
    String::from_str(json).concat("\n")
}

} // verus!
