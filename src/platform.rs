use vstd::prelude::*;

verus! {

/// What one native socket API differs in from another.
///
/// The library holds no platform conditionals of its own: whoever drives it
/// describes the native API once, in a value of this type, and every decision
/// that depends on the platform reads it from here.
#[derive(Copy, Clone, Debug, PartialEq, Eq, Structural)]
pub struct Platform {
    /// Native tag of the IPv4 address family.
    pub af_inet: u16,
    /// Native tag of the IPv6 address family.
    pub af_inet6: u16,
    /// Address structures start with a length byte followed by a one-byte
    /// family tag (BSD layout); otherwise they start with a two-byte family tag.
    pub len_prefixed: bool,
    /// Multi-byte fields stored in host order are little-endian.
    pub little_endian: bool,
    /// The native error code that means "would block".
    pub would_block: i32,
    /// A multi-datagram receive primitive exists.
    pub batch_receive: bool,
    /// Port reuse can be requested.
    pub reuse_port: bool,
    /// Busy polling can be requested.
    pub busy_poll: bool,
    /// TCP quick acknowledgement can be requested.
    pub quick_ack: bool,
}

impl Platform {
    /// The two family tags can be told apart, and fit their field.
    pub open spec fn wf(&self) -> bool {
        &&& self.af_inet != self.af_inet6
        &&& self.len_prefixed ==> self.af_inet < 256 && self.af_inet6 < 256
    }

    /// Whether the description is well formed.
    pub fn is_valid(&self) -> (r: bool)
        ensures
            r == self.wf(),
    {
        self.af_inet != self.af_inet6 && (!self.len_prefixed || (self.af_inet < 256
            && self.af_inet6 < 256))
    }
}

} // verus!
