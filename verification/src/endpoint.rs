use vstd::prelude::*;

verus! {

/// Number of raw data bytes carried by a connect endpoint: a 16-bit port in
/// network byte order, then the host address bytes, then reserved padding.
pub const ENDPOINT_DATA_LEN: usize = 14;

/// The usual TLS destination port; connections to it are redirected.
pub const TLS_PORT: u16 = 443;

/// The port every redirected connection is sent to. It is itself a trigger,
/// so a destination already pointing there keeps being redirected.
pub const REDIRECT_PORT: u16 = 5555;

/// A destination endpoint as handed to the connect operation: the address
/// family tag and the raw data bytes (port, address, padding).
pub struct Endpoint {
    pub family: u16,
    pub data: Vec<u8>,
}

impl Endpoint {
    /// A well-formed endpoint carries exactly `ENDPOINT_DATA_LEN` data bytes.
    pub open spec fn wf(self) -> bool {
        self.data@.len() == ENDPOINT_DATA_LEN
    }

    /// The port this endpoint addresses.
    pub open spec fn spec_port(self) -> int {
        port_of(self.data@)
    }

    /// Reads the 16-bit port from the first two data bytes, most significant
    /// byte first.
    pub fn port(&self) -> (p: u16)
        requires
            self.wf(),
        ensures
            p == self.spec_port(),
    {
        (self.data[0] as u16) * 256 + (self.data[1] as u16)
    }
}

/// The 16-bit port held in the first two data bytes, most significant first.
pub open spec fn port_of(data: Seq<u8>) -> int
    recommends
        data.len() >= 2,
{
    data[0] * 256 + data[1]
}

/// The ports whose connections are redirected.
pub open spec fn is_trigger(port: int) -> bool {
    port == TLS_PORT || port == REDIRECT_PORT
}

/// Whether this port triggers redirection.
pub fn is_trigger_port(port: u16) -> (r: bool)
    ensures
        r == is_trigger(port as int),
{
    port == TLS_PORT || port == REDIRECT_PORT
}

/// An exact copy of a byte vector.
pub(crate) fn copy_bytes(v: &Vec<u8>) -> (r: Vec<u8>)
    ensures
        r@ == v@,
{
    let mut out: Vec<u8> = Vec::new();
    let mut i: usize = 0;
    while i < v.len()
        invariant
            i <= v@.len(),
            out@ == v@.take(i as int),
        decreases v@.len() - i,
    {
        out.push(v[i]);
        proof {
            assert(v@.take(i + 1 as int) =~= v@.take(i as int).push(v@[i as int]));
        }
        i += 1;
    }
    proof {
        assert(v@.take(v@.len() as int) =~= v@);
    }
    out
}

} // verus!
