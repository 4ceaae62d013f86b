use vstd::prelude::*;

use crate::endpoint::Endpoint;
use crate::endpoint::REDIRECT_PORT;
use crate::endpoint::copy_bytes;
use crate::endpoint::is_trigger;
use crate::endpoint::is_trigger_port;
use crate::endpoint::port_of;

verus! {

/// The data bytes after rewriting: the two port bytes now hold
/// `REDIRECT_PORT` in network byte order, the four address bytes the loopback
/// address 127.0.0.1, and every byte beyond them is unchanged.
pub open spec fn rewritten_data(data: Seq<u8>) -> Seq<u8>
    recommends
        data.len() >= 6,
{
    data.update(0, (REDIRECT_PORT / 256) as u8).update(1, (REDIRECT_PORT % 256) as u8).update(
        2,
        127u8,
    ).update(3, 0u8).update(4, 0u8).update(5, 1u8)
}

/// The data bytes the policy forwards: rewritten when the port is a trigger,
/// byte-identical to the input otherwise.
pub open spec fn forward_data(data: Seq<u8>) -> Seq<u8> {
    if is_trigger(port_of(data)) {
        rewritten_data(data)
    } else {
        data
    }
}

/// Law: rewriting is selective. An endpoint whose port is a trigger is
/// forwarded to the redirect target — port `REDIRECT_PORT`, loopback address
/// 127.0.0.1 — while any other endpoint is forwarded byte-identical to the
/// input.
pub proof fn lemma_selective_rewrite(data: Seq<u8>)
    requires
        data.len() >= 6,
    ensures
        is_trigger(port_of(data)) ==> {
            &&& port_of(forward_data(data)) == REDIRECT_PORT
            &&& forward_data(data)[2] == 127u8
            &&& forward_data(data)[3] == 0u8
            &&& forward_data(data)[4] == 0u8
            &&& forward_data(data)[5] == 1u8
        },
        !is_trigger(port_of(data)) ==> forward_data(data) == data,
{
}

/// Law: forwarding preserves the shape of the endpoint. The number of data
/// bytes never changes, and rewriting touches only the port and address
/// bytes: every byte beyond them is left exactly as the caller passed it.
pub proof fn lemma_forward_preserves_shape(data: Seq<u8>)
    requires
        data.len() >= 6,
    ensures
        forward_data(data).len() == data.len(),
        forall|i: int| 6 <= i < data.len() ==> forward_data(data)[i] == data[i],
{
}

/// The endpoint the policy hands to the call-through capability: the redirect
/// target when the port is a trigger, an exact copy of the input otherwise.
/// The address family tag and the byte count are always preserved.
pub fn forward_endpoint(endpoint: &Endpoint) -> (r: Endpoint)
    requires
        endpoint.wf(),
    ensures
        r.wf(),
        r.family == endpoint.family,
        r.data@.len() == endpoint.data@.len(),
        r.data@ == forward_data(endpoint.data@),
{
    let mut data = copy_bytes(&endpoint.data);
    let port = endpoint.port();
    if is_trigger_port(port) {
        data.set(0, (REDIRECT_PORT / 256) as u8);
        data.set(1, (REDIRECT_PORT % 256) as u8);
        data.set(2, 127);
        data.set(3, 0);
        data.set(4, 0);
        data.set(5, 1);
        proof {
            assert(data@ =~= rewritten_data(endpoint.data@));
        }
    }
    Endpoint { family: endpoint.family, data }
}

/// The replacement implementation for the connect operation: rewrites a
/// trigger endpoint to the redirect target, forwards everything else
/// untouched, and always goes through the call-through capability with the
/// caller's original endpoint length. The returned code is exactly a result
/// the call-through produced for the forwarded arguments: no error is
/// swallowed or translated.
pub fn on_connect<F: Fn(usize, Endpoint, i32) -> i32>(
    call_through: F,
    socket: usize,
    endpoint: &Endpoint,
    endpoint_length: i32,
) -> (code: i32)
    requires
        endpoint.wf(),
        forall|e: Endpoint, l: i32|
            e.wf() && l == endpoint_length ==> call_requires(call_through, (socket, e, l)),
    ensures
        exists|fwd: Endpoint|
            {
                &&& fwd.wf()
                &&& fwd.family == endpoint.family
                &&& fwd.data@ == forward_data(endpoint.data@)
                &&& call_ensures(call_through, (socket, fwd, endpoint_length), code)
            },
{
    let fwd = forward_endpoint(endpoint);
    let ghost witness = fwd;
    let code = call_through(socket, fwd, endpoint_length);
    proof {
        assert(witness.wf() && witness.family == endpoint.family && witness.data@ == forward_data(
            endpoint.data@,
        ) && call_ensures(call_through, (socket, witness, endpoint_length), code));
    }
    code
}

} // verus!
