//! What holds of the addresses that are recorded.

use vstd::prelude::*;

use crate::address::{embedded_v4, is_normal_form, is_v6_loopback, IpAddress};

verus! {

/// An address of version 4 is recorded as it is.
pub proof fn law_v4_is_recorded_as_it_is(bytes: [u8; 4], normal: IpAddress)
    ensures
        is_normal_form(IpAddress::V4(bytes), normal) <==> normal == IpAddress::V4(bytes),
{
}

/// Two different addresses of version 4 are never recorded alike.
pub proof fn law_v4_addresses_are_told_apart(a: [u8; 4], b: [u8; 4], normal: IpAddress)
    requires
        is_normal_form(IpAddress::V4(a), normal),
        is_normal_form(IpAddress::V4(b), normal),
    ensures
        a == b,
{
}

/// `::ffff:a.b.c.d` is recorded as `a.b.c.d`, and so is `::a.b.c.d` but for `::1`.
pub proof fn law_mapped_v4_is_recorded_as_v4(
    groups: [u16; 8],
    a: u8,
    b: u8,
    c: u8,
    d: u8,
    normal: IpAddress,
)
    requires
        forall|i: int| 0 <= i < 5 ==> #[trigger] groups@[i] == 0,
        groups@[5] == 0xffff || groups@[5] == 0 && !(a == 0 && b == 0 && c == 0 && d == 1),
        groups@[6] == a * 256 + b,
        groups@[7] == c * 256 + d,
    ensures
        is_normal_form(IpAddress::V6(groups), normal) <==> (normal matches IpAddress::V4(bytes)
            && bytes@[0] == a && bytes@[1] == b && bytes@[2] == c && bytes@[3] == d),
{
    let g = groups@;
    assert(embedded_v4(g) =~= seq![a, b, c, d]);
    if is_v6_loopback(g) {
        assert(g[5] == seq![0u16, 0, 0, 0, 0, 0, 0, 1][5]);
        assert(g[6] == seq![0u16, 0, 0, 0, 0, 0, 0, 1][6]);
        assert(g[7] == seq![0u16, 0, 0, 0, 0, 0, 0, 1][7]);
    }
    if let IpAddress::V4(bytes) = normal {
        if bytes@[0] == a && bytes@[1] == b && bytes@[2] == c && bytes@[3] == d {
            assert(bytes@ =~= seq![a, b, c, d]);
        }
    }
}

/// Any other address of version 6, and the loopback address `::1`, is recorded as it is.
pub proof fn law_other_v6_is_recorded_as_it_is(groups: [u16; 8], normal: IpAddress)
    requires
        ({
            ||| exists|i: int| 0 <= i < 5 && #[trigger] groups@[i] != 0
            ||| groups@[5] != 0 && groups@[5] != 0xffff
            ||| {
                &&& forall|i: int| 0 <= i < 7 ==> #[trigger] groups@[i] == 0
                &&& groups@[7] == 1
            }
        }),
    ensures
        is_normal_form(IpAddress::V6(groups), normal) <==> normal == IpAddress::V6(groups),
{
    let g = groups@;
    if forall|i: int| 0 <= i < 7 ==> #[trigger] g[i] == 0 {
        if g[7] == 1 {
            assert(g =~= seq![0u16, 0, 0, 0, 0, 0, 0, 1]);
        }
    }
}

} // verus!
