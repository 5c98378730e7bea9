//! Receivers announced by the Android discovery listener: their addresses,
//! delivered as raw byte buffers, and their port.

use vstd::prelude::*;

verus! {

/// An address read from a discovery buffer.
pub enum DecodedAddress {
    V4(u8, u8, u8, u8),
    V6 { octets: Vec<u8>, scope_id: u32 },
}

/// What a decoded address is.
pub ghost enum AddressView {
    V4(u8, u8, u8, u8),
    V6 { octets: Seq<u8>, scope_id: u32 },
}

impl View for DecodedAddress {
    type V = AddressView;

    open spec fn view(&self) -> AddressView {
        match self {
            DecodedAddress::V4(a, b, c, d) => AddressView::V4(*a, *b, *c, *d),
            DecodedAddress::V6 { octets, scope_id } => AddressView::V6 { octets: octets@, scope_id: *scope_id },
        }
    }
}

/// The address a buffer holds: 4 bytes are an IPv4 address; 20 bytes an
/// IPv6 address followed by its scope id, little-endian; any other length
/// holds none.
pub open spec fn decode_spec(b: Seq<u8>) -> Option<AddressView> {
    if b.len() == 4 {
        Some(AddressView::V4(b[0], b[1], b[2], b[3]))
    } else if b.len() == 20 {
        Some(AddressView::V6 {
            octets: b.take(16),
            scope_id: (b[16] + 256 * b[17] + 65536 * b[18] + 16777216 * b[19]) as u32,
        })
    } else {
        None
    }
}

/// The address a buffer holds (see [`decode_spec`]).
pub fn decode_address(b: &[u8]) -> (r: Option<DecodedAddress>)
    ensures
        match r {
            Some(a) => decode_spec(b@) == Some(a@),
            None => decode_spec(b@) is None,
        },
{
    if b.len() == 4 {
        Some(DecodedAddress::V4(b[0], b[1], b[2], b[3]))
    } else if b.len() == 20 {
        let mut octets: Vec<u8> = Vec::new();
        let mut i: usize = 0;
        while i < 16
            invariant
                i <= 16,
                b@.len() == 20,
                octets@ == b@.take(i as int),
            decreases 16 - i,
        {
            octets.push(b[i]);
            proof {
                assert(b@.take(i + 1) =~= b@.take(i as int).push(b@[i as int]));
            }
            i = i + 1;
        }
        let scope_id: u32 = b[16] as u32 + 256 * (b[17] as u32) + 65536 * (b[18] as u32)
            + 16777216 * (b[19] as u32);
        Some(DecodedAddress::V6 { octets, scope_id })
    } else {
        None
    }
}

/// The addresses of a list of buffers, skipping those that hold none.
pub open spec fn decoded_all(bufs: Seq<Seq<u8>>) -> Seq<AddressView>
    decreases bufs.len(),
{
    if bufs.len() == 0 {
        Seq::empty()
    } else {
        let rest = decoded_all(bufs.drop_last());
        match decode_spec(bufs.last()) {
            Some(a) => rest.push(a),
            None => rest,
        }
    }
}

/// A receiver as the discovery listener announced it.
pub struct FoundService {
    pub name: String,
    pub addresses: Vec<DecodedAddress>,
    pub port: u16,
}

/// The views of buffers.
pub open spec fn buffer_views(bufs: Seq<Vec<u8>>) -> Seq<Seq<u8>> {
    bufs.map_values(|v: Vec<u8>| v@)
}

/// The views of addresses.
pub open spec fn address_views(s: Seq<DecodedAddress>) -> Seq<AddressView> {
    s.map_values(|a: DecodedAddress| a@)
}

/// A receiver announced under `name` with address buffers and a port (the
/// Java `int` taken as its low 16 bits): its readable addresses, in order.
pub fn service_found(name: String, buffers: &Vec<Vec<u8>>, port: i32) -> (f: FoundService)
    ensures
        f.name@ == name@,
        address_views(f.addresses@) == decoded_all(buffer_views(buffers@)),
        f.port == port as u16,
{
    let ghost bv = buffer_views(buffers@);
    let mut addresses: Vec<DecodedAddress> = Vec::new();
    let mut i: usize = 0;
    while i < buffers.len()
        invariant
            i <= buffers.len(),
            bv == buffer_views(buffers@),
            address_views(addresses@) == decoded_all(bv.take(i as int)),
        decreases buffers.len() - i,
    {
        proof {
            assert(bv.take(i + 1).drop_last() =~= bv.take(i as int));
            assert(bv.take(i + 1).last() == buffers@[i as int]@);
        }
        let ghost before = addresses@;
        match decode_address(buffers[i].as_slice()) {
            Some(a) => {
                addresses.push(a);
                proof {
                    assert(address_views(addresses@) =~= address_views(before).push(a@));
                }
            },
            None => {},
        }
        i = i + 1;
    }
    proof {
        assert(bv.take(buffers.len() as int) =~= bv);
    }
    FoundService { name, addresses, port: #[verifier::truncate] (port as u16) }
}

} // verus!
