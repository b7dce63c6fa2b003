//! Network addresses: where the gateway listens, and what it calls its peers.

use vstd::prelude::*;

use crate::text::{self, append_digits};

verus! {

/// An IP address, as the number that its bytes form in network order.
#[derive(Clone, Copy, Debug, PartialEq, Eq, Structural)]
pub enum IpAddress {
    V4(u32),
    V6(u128),
}

/// The leading 96 bits of an IPv6 address that stands for an IPv4 address
/// (`::ffff:a.b.c.d`).
pub const MAPPED_PREFIX: u128 = 0xffff;

impl IpAddress {
    /// The address that stands in an IPv4-mapped IPv6 address, and every other
    /// address itself.
    pub open spec fn spec_canonical(self) -> IpAddress {
        match self {
            IpAddress::V4(_) => self,
            IpAddress::V6(bits) => if bits / 0x1_0000_0000 == MAPPED_PREFIX {
                IpAddress::V4((bits % 0x1_0000_0000) as u32)
            } else {
                self
            },
        }
    }

    /// The address by which a peer is known: of an IPv4-mapped IPv6 address the
    /// IPv4 address, and every other address as it is.
    pub fn canonical(self) -> (address: IpAddress)
        ensures
            address == self.spec_canonical(),
    {
        match self {
            IpAddress::V4(_) => self,
            IpAddress::V6(bits) => {
                if bits / 0x1_0000_0000 == MAPPED_PREFIX {
                    IpAddress::V4((bits % 0x1_0000_0000) as u32)
                } else {
                    self
                }
            },
        }
    }
}

/// Every IPv4 address is what its IPv4-mapped form is known by.
pub proof fn mapped_address_is_known_as_ipv4(address: u32)
    ensures
        IpAddress::V6((MAPPED_PREFIX * 0x1_0000_0000 + address) as u128).spec_canonical()
            == IpAddress::V4(address),
{
}

/// The address by which a peer is known is known by itself.
pub proof fn canonical_address_is_fixed(address: IpAddress)
    ensures
        address.spec_canonical().spec_canonical() == address.spec_canonical(),
{
}

/// The dotted form of an IPv4 address: its four bytes in decimal.
pub open spec fn dotted(number: u32) -> Seq<char> {
    text::digits((number / 0x100_0000) as nat) + "."@ + text::digits(
        (number / 0x1_0000 % 0x100) as nat,
    ) + "."@ + text::digits((number / 0x100 % 0x100) as nat) + "."@ + text::digits(
        (number % 0x100) as nat,
    )
}

/// The dotted form of an IPv4 address.
pub fn ipv4_text(number: u32) -> (text: String)
    ensures
        text@ == dotted(number),
{
    let mut text = String::new();
    append_digits(&mut text, (number / 0x100_0000) as u64);
    text.append(".");
    append_digits(&mut text, (number / 0x1_0000 % 0x100) as u64);
    text.append(".");
    append_digits(&mut text, (number / 0x100 % 0x100) as u64);
    text.append(".");
    append_digits(&mut text, (number % 0x100) as u64);
    assert(text@ =~= dotted(number));
    text
}

/// The host part of the address that the gateway listens on.
pub open spec fn listen_host(use_local_host: bool) -> Seq<char> {
    if use_local_host {
        "127.0.0.1"@
    } else {
        "[::]"@
    }
}

/// The address that the gateway listens on for TCP connections: the loopback
/// address or all addresses, and the port.
pub fn tcp_listen_address(use_local_host: bool, port: u16) -> (address: String)
    ensures
        address@ == listen_host(use_local_host) + ":"@ + text::digits(port as nat),
{
    let mut address = String::new();
    if use_local_host {
        address.append("127.0.0.1");
    } else {
        address.append("[::]");
    }
    address.append(":");
    append_digits(&mut address, port as u64);
    assert(address@ =~= listen_host(use_local_host) + ":"@ + text::digits(port as nat));
    address
}

/// A peer is known by another address than its own only when that is an IPv6
/// address from `::ffff:0.0.0.0` to `::ffff:255.255.255.255`, and then by the IPv4
/// address that lies as far from the first of these as its own does.
pub proof fn only_mapped_addresses_are_renamed(v4: u32, v6: u128)
    ensures
        IpAddress::V4(v4).spec_canonical() == IpAddress::V4(v4),
        v6 < 0xffff_0000_0000 || v6 > 0xffff_ffff_ffff ==> IpAddress::V6(v6).spec_canonical()
            == IpAddress::V6(v6),
        0xffff_0000_0000 <= v6 <= 0xffff_ffff_ffff ==> IpAddress::V6(v6).spec_canonical()
            == IpAddress::V4((v6 - 0xffff_0000_0000) as u32),
{
}

/// The text of an IPv4 address is made of its four bytes, most significant first,
/// in decimal and with dots between them.
pub proof fn dotted_form_shows_the_bytes(a: u8, b: u8, c: u8, d: u8)
    ensures
        dotted((a * 0x100_0000 + b * 0x1_0000 + c * 0x100 + d) as u32) == text::digits(a as nat)
            + "."@ + text::digits(b as nat) + "."@ + text::digits(c as nat) + "."@ + text::digits(
            d as nat,
        ),
{
    let number = (a * 0x100_0000 + b * 0x1_0000 + c * 0x100 + d) as u32;
    bytes_of_number(a as int, b as int, c as int, d as int);
    assert(number / 0x100_0000 == a);
    assert(number / 0x1_0000 % 0x100 == b);
    assert(number / 0x100 % 0x100 == c);
    assert(number % 0x100 == d);
}

proof fn bytes_of_number(a: int, b: int, c: int, d: int)
    requires
        0 <= a < 0x100,
        0 <= b < 0x100,
        0 <= c < 0x100,
        0 <= d < 0x100,
    ensures
        ({
            let number = a * 0x100_0000 + b * 0x1_0000 + c * 0x100 + d;
            &&& 0 <= number < 0x1_0000_0000
            &&& number / 0x100_0000 == a
            &&& number / 0x1_0000 % 0x100 == b
            &&& number / 0x100 % 0x100 == c
            &&& number % 0x100 == d
        }),
{
    let number = a * 0x100_0000 + b * 0x1_0000 + c * 0x100 + d;
    assert(number / 0x100_0000 == a);
    assert(number / 0x1_0000 == a * 0x100 + b);
    assert(number / 0x100 == (a * 0x100 + b) * 0x100 + c);
}

/// A gateway that is told to be local listens on the loopback address alone, and
/// any other on all addresses.
pub proof fn local_gateway_listens_on_loopback()
    ensures
        listen_host(true) == "127.0.0.1"@,
        listen_host(false) == "[::]"@,
{
}

} // verus!
