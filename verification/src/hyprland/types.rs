//! Shared Hyprland protocol types.

use vstd::prelude::*;

verus! {

/// A window address: the hexadecimal object id, `0x`-prefixed.
#[derive(Debug, Clone, Eq, PartialEq, Hash, Ord, PartialOrd)]
pub struct Address(String);

impl View for Address {
    type V = Seq<char>;

    closed spec fn view(&self) -> Seq<char> {
        self.0@
    }
}

impl Address {
    /// Prefix a raw hexadecimal string with `0x`.
    pub fn fmt_new(address: &str) -> (a: Self)
        ensures
            a@ == "0x"@ + address@,
    {
        Address(String::from_str("0x").concat(address))
    }

    /// Wrap an already-rendered address string.
    pub fn new(string: String) -> (a: Self)
        ensures
            a@ == string@,
    {
        Address(string)
    }

    /// The rendered address.
    pub fn text(&self) -> (r: &str)
        ensures
            r@ == self@,
    {
        self.0.as_str()
    }
}

/// Identifies a workspace.
pub type WorkspaceId = i32;

/// Identifies a monitor.
pub type MonitorId = i128;

/// Flag selecting the answer format of a command.
#[derive(Debug, Clone, Copy, PartialEq, Eq, Structural)]
pub enum CommandFlag {
    /// Ask for JSON.
    JSON,
    /// No flag.
    Empty,
}

impl Default for CommandFlag {
    /// Commands ask for JSON unless told otherwise.
    fn default() -> (f: Self)
        ensures
            f is JSON,
    {
        CommandFlag::JSON
    }
}

/// A command for the command socket: a format flag and a data string.
#[derive(Debug, Clone, PartialEq, Eq)]
pub struct CommandContent {
    /// The flag for the command.
    pub flag: CommandFlag,
    /// The data string for the command.
    pub data: String,
}

/// The wire rendering of a command: `j/` or `/`, then the data.
pub open spec fn spec_render(c: CommandContent) -> Seq<char> {
    match c.flag {
        CommandFlag::JSON => "j/"@ + c.data@,
        CommandFlag::Empty => "/"@ + c.data@,
    }
}

impl CommandContent {
    /// Render the command as a string.
    pub fn render(&self) -> (r: String)
        ensures
            r@ == spec_render(*self),
    {
        match self.flag {
            CommandFlag::JSON => String::from_str("j/").concat(self.data.as_str()),
            CommandFlag::Empty => String::from_str("/").concat(self.data.as_str()),
        }
    }

    /// The bytes written to the command socket: the UTF-8 encoding of the
    /// rendered command.
    pub fn as_bytes(&self) -> (r: Vec<u8>)
        ensures
            r@ == vstd::utf8::encode_utf8(spec_render(*self)),
    {
        let s = self.render();
        s.as_str().as_bytes_vec()
    }
}

} // verus!
