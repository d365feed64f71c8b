//! Host and socket addresses, held as plain octets and a port.
//!
//! The provisioning engine never opens a connection: an address only reaches
//! the argument list in its dotted-decimal text, so the type holds the four
//! octets and the text is a proved function of them.

use vstd::prelude::*;
use crate::numerals::{dec_digits, u64_to_decimal};

verus! {

/// A version-four host address as its four octets.
#[derive(Clone, Copy, Debug, PartialEq, Eq, Structural)]
pub struct Ipv4Address {
    pub octet0: u8,
    pub octet1: u8,
    pub octet2: u8,
    pub octet3: u8,
}

impl Ipv4Address {
    /// The dotted-decimal text of the address.
    pub open spec fn spec_text(self) -> Seq<char> {
        dec_digits(self.octet0 as nat) + seq!['.'] + dec_digits(self.octet1 as nat) + seq!['.']
            + dec_digits(self.octet2 as nat) + seq!['.'] + dec_digits(self.octet3 as nat)
    }

    pub fn to_text(&self) -> (r: String)
        ensures
            r@ == self.spec_text(),
    {
        proof {
            reveal_strlit(".");
        }
        let mut r = u64_to_decimal(self.octet0 as u64);
        r.append(".");
        let part1 = u64_to_decimal(self.octet1 as u64);
        r.append(part1.as_str());
        r.append(".");
        let part2 = u64_to_decimal(self.octet2 as u64);
        r.append(part2.as_str());
        r.append(".");
        let part3 = u64_to_decimal(self.octet3 as u64);
        r.append(part3.as_str());
        proof {
            assert(r@ =~= self.spec_text());
        }
        r
    }
}

/// A host address with a port, written `host:port`.
#[derive(Clone, Copy, Debug, PartialEq, Eq, Structural)]
pub struct SocketAddress {
    pub ip: Ipv4Address,
    pub port: u16,
}

impl SocketAddress {
    /// The `host:port` text of the socket address.
    pub open spec fn spec_text(self) -> Seq<char> {
        self.ip.spec_text() + seq![':'] + dec_digits(self.port as nat)
    }

    pub fn to_text(&self) -> (r: String)
        ensures
            r@ == self.spec_text(),
    {
        proof {
            reveal_strlit(":");
        }
        let mut r = self.ip.to_text();
        r.append(":");
        let port_text = u64_to_decimal(self.port as u64);
        r.append(port_text.as_str());
        proof {
            assert(r@ =~= self.spec_text());
        }
        r
    }
}

} // verus!
