use vstd::prelude::*;

use crate::error::NetError;

verus! {

/// First id handed to datagram socket handles.
pub const FIRST_UDP_ID: u64 = 1;

/// First id handed to listener handles.
pub const FIRST_LISTENER_ID: u64 = 1000;

/// First id handed to stream handles.
pub const FIRST_STREAM_ID: u64 = 2000;

/// Default completion queue size.
pub const DEFAULT_CQ_ENTRIES: u32 = 4096;

/// Default submission queue size.
pub const DEFAULT_SQ_ENTRIES: u32 = 2048;

/// Queue sizes and polling modes of a completion-based runtime.
#[derive(Copy, Clone, Debug, PartialEq, Eq, Structural)]
pub struct RuntimeConfig {
    pub cq_entries: u32,
    pub sq_entries: u32,
    pub kernel_poll: bool,
    pub sq_poll: bool,
}

impl Default for RuntimeConfig {
    fn default() -> (r: Self)
        ensures
            r == (RuntimeConfig {
                cq_entries: DEFAULT_CQ_ENTRIES,
                sq_entries: DEFAULT_SQ_ENTRIES,
                kernel_poll: false,
                sq_poll: false,
            }),
    {
        RuntimeConfig {
            cq_entries: DEFAULT_CQ_ENTRIES,
            sq_entries: DEFAULT_SQ_ENTRIES,
            kernel_poll: false,
            sq_poll: false,
        }
    }
}

/// The kind of socket a handle stands for.
#[derive(Copy, Clone, Debug, PartialEq, Eq, Structural)]
pub enum HandleType {
    UdpSocket,
    TcpListener,
    TcpStream,
}

/// A handle that a runtime gives out for a socket: an id and a kind.
#[derive(Copy, Clone, Debug, PartialEq, Eq, Structural)]
pub struct NetHandle {
    id: u64,
    handle_type: HandleType,
}

/// The readable name of a handle kind.
pub open spec fn handle_type_name(t: HandleType) -> Seq<char> {
    match t {
        HandleType::UdpSocket => "UDP Socket"@,
        HandleType::TcpListener => "TCP Listener"@,
        HandleType::TcpStream => "TCP Stream"@,
    }
}

impl NetHandle {
    pub closed spec fn spec_id(&self) -> u64 {
        self.id
    }

    pub closed spec fn kind(&self) -> HandleType {
        self.handle_type
    }

    /// The id of the handle.
    pub fn id(&self) -> (r: u64)
        ensures
            r == self.spec_id(),
    {
        self.id
    }

    /// The readable name of the handle's kind.
    pub fn handle_type(&self) -> (r: &'static str)
        ensures
            r@ == handle_type_name(self.kind()),
    {
        match self.handle_type {
            HandleType::UdpSocket => {
                proof {
                    reveal_strlit("UDP Socket");
                }
                "UDP Socket"
            },
            HandleType::TcpListener => {
                proof {
                    reveal_strlit("TCP Listener");
                }
                "TCP Listener"
            },
            HandleType::TcpStream => {
                proof {
                    reveal_strlit("TCP Stream");
                }
                "TCP Stream"
            },
        }
    }
}

/// A completion-based runtime: it keeps its queue configuration and hands
/// out socket handles whose ids count up from a separate start per kind.
#[derive(Debug)]
pub struct Runtime {
    config: RuntimeConfig,
    next_udp: u64,
    next_listener: u64,
    next_stream: u64,
}

impl Runtime {
    pub closed spec fn config(&self) -> RuntimeConfig {
        self.config
    }

    /// The id the next handle of kind `t` gets.
    pub closed spec fn next_id(&self, t: HandleType) -> u64 {
        match t {
            HandleType::UdpSocket => self.next_udp,
            HandleType::TcpListener => self.next_listener,
            HandleType::TcpStream => self.next_stream,
        }
    }

    /// A runtime with the default queue sizes.
    pub fn new() -> (r: Result<Self, NetError>)
        ensures
            r matches Ok(rt) && rt.config() == (RuntimeConfig {
                cq_entries: DEFAULT_CQ_ENTRIES,
                sq_entries: DEFAULT_SQ_ENTRIES,
                kernel_poll: false,
                sq_poll: false,
            }) && rt.next_id(HandleType::UdpSocket) == FIRST_UDP_ID && rt.next_id(
                HandleType::TcpListener,
            ) == FIRST_LISTENER_ID && rt.next_id(HandleType::TcpStream) == FIRST_STREAM_ID,
    {
        Ok(
            Runtime {
                config: RuntimeConfig::default(),
                next_udp: FIRST_UDP_ID,
                next_listener: FIRST_LISTENER_ID,
                next_stream: FIRST_STREAM_ID,
            },
        )
    }

    /// A runtime with the given completion and submission queue sizes.
    pub fn with_capacity(cq_entries: u32, sq_entries: u32) -> (r: Result<Self, NetError>)
        ensures
            r matches Ok(rt) && rt.config() == (RuntimeConfig {
                cq_entries,
                sq_entries,
                kernel_poll: false,
                sq_poll: false,
            }) && rt.next_id(HandleType::UdpSocket) == FIRST_UDP_ID && rt.next_id(
                HandleType::TcpListener,
            ) == FIRST_LISTENER_ID && rt.next_id(HandleType::TcpStream) == FIRST_STREAM_ID,
    {
        Ok(
            Runtime {
                config: RuntimeConfig { cq_entries, sq_entries, ..RuntimeConfig::default() },
                next_udp: FIRST_UDP_ID,
                next_listener: FIRST_LISTENER_ID,
                next_stream: FIRST_STREAM_ID,
            },
        )
    }

    fn issue(&mut self, t: HandleType) -> (r: NetHandle)
        ensures
            r.spec_id() == old(self).next_id(t),
            r.kind() == t,
            final(self).config() == old(self).config(),
            forall|u: HandleType|
                #[trigger] final(self).next_id(u) == if u == t {
                    old(self).next_id(u).wrapping_add(1)
                } else {
                    old(self).next_id(u)
                },
    {
        let id = match t {
            HandleType::UdpSocket => {
                let id = self.next_udp;
                self.next_udp = id.wrapping_add(1);
                id
            },
            HandleType::TcpListener => {
                let id = self.next_listener;
                self.next_listener = id.wrapping_add(1);
                id
            },
            HandleType::TcpStream => {
                let id = self.next_stream;
                self.next_stream = id.wrapping_add(1);
                id
            },
        };
        NetHandle { id, handle_type: t }
    }

    /// A handle for a datagram socket, with the next datagram id.
    pub fn create_udp_handle(&mut self) -> (r: Result<NetHandle, NetError>)
        ensures
            r matches Ok(h) && h.spec_id() == old(self).next_id(HandleType::UdpSocket) && h.kind()
                == HandleType::UdpSocket,
            final(self).config() == old(self).config(),
            forall|u: HandleType|
                #[trigger] final(self).next_id(u) == if u == HandleType::UdpSocket {
                    old(self).next_id(u).wrapping_add(1)
                } else {
                    old(self).next_id(u)
                },
    {
        Ok(self.issue(HandleType::UdpSocket))
    }

    /// A handle for a listener, with the next listener id.
    pub fn create_tcp_listener_handle(&mut self) -> (r: Result<NetHandle, NetError>)
        ensures
            r matches Ok(h) && h.spec_id() == old(self).next_id(HandleType::TcpListener)
                && h.kind() == HandleType::TcpListener,
            final(self).config() == old(self).config(),
            forall|u: HandleType|
                #[trigger] final(self).next_id(u) == if u == HandleType::TcpListener {
                    old(self).next_id(u).wrapping_add(1)
                } else {
                    old(self).next_id(u)
                },
    {
        Ok(self.issue(HandleType::TcpListener))
    }

    /// A handle for a stream, with the next stream id.
    pub fn create_tcp_stream_handle(&mut self) -> (r: Result<NetHandle, NetError>)
        ensures
            r matches Ok(h) && h.spec_id() == old(self).next_id(HandleType::TcpStream) && h.kind()
                == HandleType::TcpStream,
            final(self).config() == old(self).config(),
            forall|u: HandleType|
                #[trigger] final(self).next_id(u) == if u == HandleType::TcpStream {
                    old(self).next_id(u).wrapping_add(1)
                } else {
                    old(self).next_id(u)
                },
    {
        Ok(self.issue(HandleType::TcpStream))
    }
}

} // verus!
