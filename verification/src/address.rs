//! The network address of a client.

use axum::http::HeaderMap;
use vstd::prelude::*;

use crate::headers::{first_values, get_text, header_text};
use crate::text::{first_item, item_in_front, trimmed};

verus! {

/// An IP address: the four bytes of version 4 or the eight groups of version 6.
#[derive(Clone, Copy, Debug, PartialEq, Eq)]
pub enum IpAddress {
    V4([u8; 4]),
    V6([u16; 8]),
}

/// The loopback address `::1`.
pub open spec fn is_v6_loopback(groups: Seq<u16>) -> bool {
    groups =~= seq![0u16, 0, 0, 0, 0, 0, 0, 1]
}

/// An address of version 6 that stands for one of version 4: `::a.b.c.d` or `::ffff:a.b.c.d`.
pub open spec fn embeds_v4(groups: Seq<u16>) -> bool {
    &&& forall|i: int| 0 <= i < 5 ==> #[trigger] groups[i] == 0
    &&& (groups[5] == 0 || groups[5] == 0xffff)
}

/// The address of version 4 that one of version 6 stands for.
pub open spec fn embedded_v4(groups: Seq<u16>) -> Seq<u8> {
    seq![
        (groups[6] / 256) as u8,
        (groups[6] % 256) as u8,
        (groups[7] / 256) as u8,
        (groups[7] % 256) as u8,
    ]
}

/// `normal` is the form in which the address `ip` is recorded: that of version 4 where `ip` stands
/// for one, but for the loopback address.
pub open spec fn is_normal_form(ip: IpAddress, normal: IpAddress) -> bool {
    match ip {
        IpAddress::V6(groups) => if embeds_v4(groups@) && !is_v6_loopback(groups@) {
            normal matches IpAddress::V4(bytes) && bytes@ =~= embedded_v4(groups@)
        } else {
            normal == ip
        },
        IpAddress::V4(_) => normal == ip,
    }
}

/// The form in which an address is recorded.
pub fn normalize_ip(ip: IpAddress) -> (res: IpAddress)
    ensures
        is_normal_form(ip, res),
{
    match ip {
        IpAddress::V4(_) => ip,
        IpAddress::V6(g) => {
            let embeds = g[0] == 0 && g[1] == 0 && g[2] == 0 && g[3] == 0 && g[4] == 0 && (g[5] == 0
                || g[5] == 0xffff);
            let loopback = g[0] == 0 && g[1] == 0 && g[2] == 0 && g[3] == 0 && g[4] == 0 && g[5]
                == 0 && g[6] == 0 && g[7] == 1;
            if embeds && !loopback {
                IpAddress::V4(
                    [
                        (g[6] / 256) as u8,
                        (g[6] % 256) as u8,
                        (g[7] / 256) as u8,
                        (g[7] % 256) as u8,
                    ],
                )
            } else {
                ip
            }
        },
    }
}

/// The text that a proxy put down as the address of the client: the first item of the
/// `x-forwarded-for` header.
pub open spec fn forwarded(headers: Map<Seq<char>, Seq<u8>>) -> Option<Seq<char>> {
    match header_text(headers, "x-forwarded-for"@) {
        Some(text) => Some(trimmed(first_item(text, ','))),
        None => None,
    }
}

/// The text in which to look for the address of the client, if the proxy in front of the service
/// is trusted and gives one.
pub fn forwarded_for(headers: &HeaderMap, trusted_proxy: bool) -> (res: Option<String>)
    ensures
        match res {
            Some(text) => trusted_proxy && forwarded(first_values(*headers)) == Some(text@),
            None => !trusted_proxy || forwarded(first_values(*headers)) is None,
        },
{
    if !trusted_proxy {
        return None;
    }
    proof {
        reveal_strlit("x-forwarded-for");
    }
    match get_text(headers, "x-forwarded-for") {
        Some(text) => Some(item_in_front(text, ',').trim().to_owned()),
        None => None,
    }
}

/// The address to record for a client, given the address read out of what [`forwarded_for`] gives
/// (if it is one) and the address of the peer that the connection comes from.
pub fn client_ip(forwarded: Option<IpAddress>, peer: IpAddress) -> (res: IpAddress)
    ensures
        match forwarded {
            Some(ip) => is_normal_form(ip, res),
            None => is_normal_form(peer, res),
        },
{
    match forwarded {
        Some(ip) => normalize_ip(ip),
        None => normalize_ip(peer),
    }
}

} // verus!
