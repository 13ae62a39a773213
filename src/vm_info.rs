//! Virtual machine descriptors of a challenge and the network endpoint
//! derived from their first port mapping.

use vstd::prelude::*;
use crate::text::{decimal, owned, push_decimal, push_str, str_eq};

verus! {

/// One cell of a port-mapping row: the protocol name or a port number.
#[derive(Debug, Clone, PartialEq, Eq)]
pub enum PortMapping {
    Integer(i64),
    String(String),
}

/// A virtual machine as the platform describes it. Its CPU time, a float on
/// the wire, is not kept here.
#[derive(Debug, Clone)]
pub struct MachineInfo {
    pub id: String,
    pub state: String,
    pub memory: i64,
    pub swap: i64,
    pub starttime: String,
    pub endtime: String,
    pub host: String,
    pub port_mappings: Vec<Vec<PortMapping>>,
}

#[derive(Debug, Clone, Copy, PartialEq, Eq, Structural)]
pub enum Protocol {
    Unspecified,
    Tcp,
    Udp,
}

#[derive(Debug, Clone)]
pub struct NetworkInfo {
    pub protocol: Protocol,
    pub host: String,
    pub external: u16,
    pub internal: u16,
}

/// The protocol a port-mapping row names; unknown names give `Unspecified`.
pub open spec fn protocol_of(s: Seq<char>) -> Protocol {
    if s == "tcp"@ {
        Protocol::Tcp
    } else if s == "udp"@ {
        Protocol::Udp
    } else {
        Protocol::Unspecified
    }
}

/// A row of the shape `[protocol, external port, internal port]`.
pub open spec fn row_well_formed(row: Seq<PortMapping>) -> bool {
    row.len() >= 3 && row[0] is String && row[1] is Integer && row[2] is Integer
}

impl PortMapping {
    /// The port of a number cell, truncated to 16 bits as the wire allows
    /// any integer.
    pub fn get_port(&self) -> (r: u16)
        requires
            self is Integer,
        ensures
            r == self->Integer_0 as u16,
            0 <= self->Integer_0 <= u16::MAX ==> r == self->Integer_0,
    {
        match self {
            PortMapping::Integer(port) => {
                let p: i64 = *port;
                let r = p as u16;
                assert(0 <= p <= 0xffff ==> (p as u16) == p) by (bit_vector);
                r
            },
            PortMapping::String(_) => 0,
        }
    }

    pub fn get_protocol(&self) -> (r: String)
        requires
            self is String,
        ensures
            r == self->String_0,
    {
        match self {
            PortMapping::String(protocol) => protocol.clone(),
            PortMapping::Integer(_) => String::new(),
        }
    }
}

impl Protocol {
    pub fn from_str(protocol: &str) -> (r: Protocol)
        ensures
            r == protocol_of(protocol@),
    {
        if str_eq(protocol, "tcp") {
            Protocol::Tcp
        } else if str_eq(protocol, "udp") {
            Protocol::Udp
        } else {
            Protocol::Unspecified
        }
    }
}

/// The endpoint of a machine: from its first port-mapping row, when there is
/// one and it is well formed.
pub open spec fn network_info_of(m: MachineInfo) -> Option<NetworkInfo> {
    if m.port_mappings@.len() > 0 && row_well_formed(m.port_mappings@[0]@) {
        let row = m.port_mappings@[0]@;
        Some(NetworkInfo {
            protocol: protocol_of(row[0]->String_0@),
            host: m.host,
            external: row[1]->Integer_0 as u16,
            internal: row[2]->Integer_0 as u16,
        })
    } else {
        None
    }
}

impl MachineInfo {
    /// The network endpoint of the machine, from its first port mapping;
    /// none when the machine has no mapping.
    pub fn get_network_info(&self) -> (r: Option<NetworkInfo>)
        ensures
            r == network_info_of(*self),
            self.port_mappings@.len() == 0 ==> r is None,
    {
        if self.port_mappings.len() == 0 {
            return None;
        }
        let row = &self.port_mappings[0];
        if row.len() < 3 {
            return None;
        }
        match (&row[0], &row[1], &row[2]) {
            (PortMapping::String(protocol), PortMapping::Integer(_), PortMapping::Integer(_)) => {
                Some(NetworkInfo {
                    protocol: Protocol::from_str(protocol.as_str()),
                    host: self.host.clone(),
                    external: row[1].get_port(),
                    internal: row[2].get_port(),
                })
            },
            _ => None,
        }
    }
}

impl NetworkInfo {
    /// `host:port`, for a raw connection.
    pub open spec fn uri_pwn_spec(&self) -> Seq<char> {
        self.host@ + ":"@ + decimal(self.external as nat)
    }

    /// `http://host:port/`, for a browser.
    pub open spec fn uri_web_spec(&self) -> Seq<char> {
        "http://"@ + self.host@ + ":"@ + decimal(self.external as nat) + "/"@
    }

    pub fn get_uri_pwn(&self) -> (r: String)
        ensures
            r@ == self.uri_pwn_spec(),
    {
        let mut r = self.host.clone();
        push_str(&mut r, ":");
        push_decimal(&mut r, self.external as u64);
        r
    }

    pub fn get_uri_web(&self) -> (r: String)
        ensures
            r@ == self.uri_web_spec(),
    {
        let mut r = owned("http://");
        push_str(&mut r, self.host.as_str());
        push_str(&mut r, ":");
        push_decimal(&mut r, self.external as u64);
        push_str(&mut r, "/");
        r
    }
}

} // verus!
