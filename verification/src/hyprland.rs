//! Hyprland IPC client pieces.
//!
//! The compositor's IPC sockets live under
//! `$XDG_RUNTIME_DIR/hypr/$HYPRLAND_INSTANCE_SIGNATURE/`.  The connection
//! types here carry the computed socket path; reading the environment and
//! talking to the sockets happens in the surrounding program, which hands
//! the two directory components in as plain strings.

use vstd::prelude::*;

pub mod data;
pub mod events;
pub mod types;

verus! {

/// The path of an IPC socket for a given Hyprland instance.
pub fn socket_path(rt_dir: &str, instance_signature: &str, socket_name: &str) -> (r: String)
    ensures
        r@ == rt_dir@ + "/hypr/"@ + instance_signature@ + "/"@ + socket_name@,
{
    String::from_str(rt_dir).concat("/hypr/").concat(instance_signature).concat("/").concat(
        socket_name,
    )
}

/// Connection to the command socket, answering queries with raw JSON.
#[derive(Debug)]
pub struct HyprlandConn {
    path: String,
}

impl View for HyprlandConn {
    type V = Seq<char>;

    closed spec fn view(&self) -> Seq<char> {
        self.path@
    }
}

impl HyprlandConn {
    /// Address the command socket of the given instance.
    pub fn new(rt_dir: &str, instance_signature: &str) -> (c: Self)
        ensures
            c@ == rt_dir@ + "/hypr/"@ + instance_signature@ + "/"@ + ".socket.sock"@,
    {
        HyprlandConn { path: socket_path(rt_dir, instance_signature, ".socket.sock") }
    }

    /// The socket path this connection talks to.
    pub fn path(&self) -> (r: &str)
        ensures
            r@ == self@,
    {
        self.path.as_str()
    }
}

/// A monitor as the command socket reports it.
#[derive(Debug, Clone, PartialEq, Eq)]
pub struct HLMonitor {
    pub id: i32,
    pub name: String,
    pub model: String,
    pub width: i32,
    pub height: i32,
    pub disabled: bool,
}

/// Client for the command socket, decoding data queries.
#[derive(Debug)]
pub struct HyprlandClient {
    path: String,
}

impl View for HyprlandClient {
    type V = Seq<char>;

    closed spec fn view(&self) -> Seq<char> {
        self.path@
    }
}

impl HyprlandClient {
    /// Address the command socket of the given instance.
    pub fn new(rt_dir: &str, instance_signature: &str) -> (c: Self)
        ensures
            c@ == rt_dir@ + "/hypr/"@ + instance_signature@ + "/"@ + ".socket.sock"@,
    {
        HyprlandClient { path: socket_path(rt_dir, instance_signature, ".socket.sock") }
    }

    /// The socket path this client talks to.
    pub fn path(&self) -> (r: &str)
        ensures
            r@ == self@,
    {
        self.path.as_str()
    }
}

/// Listener on the event socket, whose stream is decoded by
/// [`events::parse_event`].
#[derive(Debug)]
pub struct HyprlandListener {
    path: String,
}

impl View for HyprlandListener {
    type V = Seq<char>;

    closed spec fn view(&self) -> Seq<char> {
        self.path@
    }
}

impl HyprlandListener {
    /// Address the event socket of the given instance.
    pub fn new(rt_dir: &str, instance_signature: &str) -> (l: Self)
        ensures
            l@ == rt_dir@ + "/hypr/"@ + instance_signature@ + "/"@ + ".socket2.sock"@,
    {
        HyprlandListener { path: socket_path(rt_dir, instance_signature, ".socket2.sock") }
    }

    /// The socket path this listener reads from.
    pub fn path(&self) -> (r: &str)
        ensures
            r@ == self@,
    {
        self.path.as_str()
    }
}

} // verus!
