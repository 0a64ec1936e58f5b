//! Network discovery packets
//!
//! Peers find each other by mDNS and, as a fallback, by UDP broadcast. The
//! broadcast packets are built and recognised here; the sockets and the mDNS
//! daemon belong to the application.

use vstd::prelude::*;
use vstd::utf8::*;
use vstd::string::*;
use vstd::slice::{slice_subrange, slice_to_vec};
use crate::text::utf8_string;

verus! {

/// The mDNS service type that servers advertise.
pub open spec fn service_type() -> Seq<char> {
    "_macwinshare._tcp.local."@
}

/// The mDNS service type that servers advertise.
pub fn mdns_service_type() -> (t: &'static str)
    ensures
        t@ == service_type(),
{
    "_macwinshare._tcp.local."
}

/// The UDP port on which servers answer discovery queries.
pub const UDP_DISCOVERY_PORT: u16 = 24801;

/// "MWSHARE1": the bytes that every discovery packet starts with.
pub open spec fn discovery_magic() -> Seq<u8> {
    seq![0x4Du8, 0x57, 0x53, 0x48, 0x41, 0x52, 0x45, 0x31]
}

/// "QUERY" and a NUL byte.
pub open spec fn query_tag() -> Seq<u8> {
    seq![0x51u8, 0x55, 0x45, 0x52, 0x59, 0x00]
}

/// "RESPONSE" and a NUL byte.
pub open spec fn response_tag() -> Seq<u8> {
    seq![0x52u8, 0x45, 0x53, 0x50, 0x4F, 0x4E, 0x53, 0x45, 0x00]
}

/// Whether `s` starts with `prefix`.
pub open spec fn starts_with(s: Seq<u8>, prefix: Seq<u8>) -> bool {
    s.len() >= prefix.len() && s.take(prefix.len() as int) == prefix
}

/// A discovery packet: longer than the magic, starting with it, and whose
/// remainder after the magic starts with `tag`.
pub open spec fn is_packet_with(packet: Seq<u8>, tag: Seq<u8>) -> bool {
    &&& packet.len() > discovery_magic().len()
    &&& starts_with(packet, discovery_magic())
    &&& starts_with(packet.skip(8), tag)
}

/// `s` without its trailing zero bytes.
pub open spec fn trim_trailing_zeros(s: Seq<u8>) -> Seq<u8>
    decreases s.len(),
{
    if s.len() > 0 && s.last() == 0 {
        trim_trailing_zeros(s.drop_last())
    } else {
        s
    }
}

fn push_all(out: &mut Vec<u8>, bytes: &[u8])
    ensures
        final(out)@ == old(out)@ + bytes@,
{
    let mut b = slice_to_vec(bytes);
    out.append(&mut b);
}

fn magic_bytes() -> (v: Vec<u8>)
    ensures
        v@ == discovery_magic(),
{
    let v: Vec<u8> = vec![0x4D, 0x57, 0x53, 0x48, 0x41, 0x52, 0x45, 0x31];
    assert(v@ =~= discovery_magic());
    v
}

fn has_prefix(s: &[u8], start: usize, prefix: &[u8]) -> (r: bool)
    requires
        start <= s@.len(),
    ensures
        r == starts_with(s@.skip(start as int), prefix@),
{
    if s.len() - start < prefix.len() {
        return false;
    }
    let n = s.len();
    let mut i: usize = 0;
    while i < prefix.len()
        invariant
            start + prefix@.len() <= s@.len(),
            s@.len() == n,
            i <= prefix@.len(),
            forall|j: int| 0 <= j < i ==> s@[start + j] == prefix@[j],
        decreases prefix@.len() - i,
    {
        if s[start + i] != prefix[i] {
            assert(s@.skip(start as int).take(prefix@.len() as int)[i as int] != prefix@[i as int]);
            return false;
        }
        i = i + 1;
    }
    assert(s@.skip(start as int).take(prefix@.len() as int) =~= prefix@);
    true
}

/// A server's response to a query carries the server's name back to the
/// asking client (for names whose UTF-8 bytes do not end in a zero byte),
/// and what the client broadcasts is recognised as a query.
pub proof fn lemma_discovery_roundtrip(machine_id: Seq<char>, machine_name: Seq<char>)
    requires
        encode_utf8(machine_name).len() == 0 || encode_utf8(machine_name).last() != 0,
    ensures
        is_packet_with(discovery_magic() + query_tag() + encode_utf8(machine_id), query_tag()),
        ({
            let p = discovery_magic() + response_tag() + encode_utf8(machine_name);
            &&& is_packet_with(p, response_tag())
            &&& valid_utf8(trim_trailing_zeros(p.skip(17)))
            &&& decode_utf8(trim_trailing_zeros(p.skip(17))) == machine_name
        }),
{
    let q = discovery_magic() + query_tag() + encode_utf8(machine_id);
    assert(q.take(8) =~= discovery_magic());
    assert(q.skip(8).take(6) =~= query_tag());
    let p = discovery_magic() + response_tag() + encode_utf8(machine_name);
    assert(p.take(8) =~= discovery_magic());
    assert(p.skip(8).take(9) =~= response_tag());
    assert(p.skip(17) =~= encode_utf8(machine_name));
    encode_utf8_valid_utf8(machine_name);
    encode_utf8_decode_utf8(machine_name);
}

/// A discovery query: the magic, "QUERY\0", then the asking machine's id.
pub fn build_query(machine_id: &str) -> (packet: Vec<u8>)
    ensures
        packet@ == discovery_magic() + query_tag() + encode_utf8(machine_id@),
{
    let mut msg = magic_bytes();
    let tag: Vec<u8> = vec![0x51, 0x55, 0x45, 0x52, 0x59, 0x00];
    assert(tag@ =~= query_tag());
    push_all(&mut msg, tag.as_slice());
    push_all(&mut msg, machine_id.as_bytes());
    msg
}

/// A discovery response: the magic, "RESPONSE\0", then the server's name.
pub fn build_response(machine_name: &str) -> (packet: Vec<u8>)
    ensures
        packet@ == discovery_magic() + response_tag() + encode_utf8(machine_name@),
{
    let mut msg = magic_bytes();
    let tag: Vec<u8> = vec![0x52, 0x45, 0x53, 0x50, 0x4F, 0x4E, 0x53, 0x45, 0x00];
    assert(tag@ =~= response_tag());
    push_all(&mut msg, tag.as_slice());
    push_all(&mut msg, machine_name.as_bytes());
    msg
}

/// Whether a received packet is a discovery query.
pub fn is_query(packet: &[u8]) -> (r: bool)
    ensures
        r == is_packet_with(packet@, query_tag()),
{
    let magic = magic_bytes();
    if packet.len() <= 8 || !has_prefix(packet, 0, magic.as_slice()) {
        assert(packet@.skip(0) =~= packet@);
        return false;
    }
    assert(packet@.skip(0) =~= packet@);
    let tag: Vec<u8> = vec![0x51, 0x55, 0x45, 0x52, 0x59, 0x00];
    assert(tag@ =~= query_tag());
    has_prefix(packet, 8, tag.as_slice())
}

/// The answer a server sends to a received packet: its response when the
/// packet is a query, nothing otherwise.
pub fn respond_to(packet: &[u8], machine_name: &str) -> (r: Option<Vec<u8>>)
    ensures
        match r {
            Some(p) => is_packet_with(packet@, query_tag()) && p@ == discovery_magic()
                + response_tag() + encode_utf8(machine_name@),
            None => !is_packet_with(packet@, query_tag()),
        },
{
    if is_query(packet) {
        Some(build_response(machine_name))
    } else {
        None
    }
}

/// The name that a discovery response carries, with trailing NUL characters
/// removed. `None` when the packet is no response or the name is not UTF-8.
/// (Trailing zero bytes are whole NUL characters in UTF-8, so removing them
/// before or after decoding gives the same name.)
pub fn parse_response(packet: &[u8]) -> (r: Option<String>)
    ensures
        match r {
            Some(name) => is_packet_with(packet@, response_tag()) && valid_utf8(
                trim_trailing_zeros(packet@.skip(17)),
            ) && name@ == decode_utf8(trim_trailing_zeros(packet@.skip(17))),
            None => !is_packet_with(packet@, response_tag()) || !valid_utf8(
                trim_trailing_zeros(packet@.skip(17)),
            ),
        },
{
    let magic = magic_bytes();
    if packet.len() <= 8 || !has_prefix(packet, 0, magic.as_slice()) {
        assert(packet@.skip(0) =~= packet@);
        return None;
    }
    assert(packet@.skip(0) =~= packet@);
    let tag: Vec<u8> = vec![0x52, 0x45, 0x53, 0x50, 0x4F, 0x4E, 0x53, 0x45, 0x00];
    assert(tag@ =~= response_tag());
    if !has_prefix(packet, 8, tag.as_slice()) {
        return None;
    }
    let mut end = packet.len();
    while end > 17 && packet[end - 1] == 0
        invariant
            17 <= end <= packet@.len(),
            trim_trailing_zeros(packet@.skip(17)) == trim_trailing_zeros(
                packet@.subrange(17, end as int),
            ),
        decreases end,
    {
        assert(packet@.subrange(17, end as int).drop_last() =~= packet@.subrange(17, end - 1));
        end = end - 1;
    }
    assert(packet@.skip(17) =~= packet@.subrange(17, packet@.len() as int));
    let name_bytes = slice_subrange(packet, 17, end);
    assert(trim_trailing_zeros(packet@.subrange(17, end as int)) == name_bytes@);
    utf8_string(name_bytes)
}

} // verus!
