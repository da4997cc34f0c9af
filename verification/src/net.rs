//! Choosing the address a server is queried at from what a name lookup gives.
use vstd::prelude::*;

verus! {

/// An address a name lookup gives: an IPv4 address by its four octets, or
/// an IPv6 address, which the queries do not use.
#[derive(Debug, Clone, Copy)]
pub enum LookedUpAddr {
    V4([u8; 4]),
    V6,
}

/// The first IPv4 address of a lookup, in the order the lookup gave them;
/// `None` when it gave none.
pub fn first_ipv4(addrs: &Vec<LookedUpAddr>) -> (r: Option<[u8; 4]>)
    ensures
        r is None <==> forall|j: int| 0 <= j < addrs@.len() ==> addrs@[j] is V6,
        r matches Some(o) ==> exists|i: int|
            0 <= i < addrs@.len() && addrs@[i] == LookedUpAddr::V4(o) && forall|j: int|
                0 <= j < i ==> addrs@[j] is V6,
{
    let mut i: usize = 0;
    while i < addrs.len()
        invariant
            i <= addrs@.len(),
            forall|j: int| 0 <= j < i ==> addrs@[j] is V6,
        decreases addrs@.len() - i,
    {
        match addrs[i] {
            LookedUpAddr::V4(o) => {
                assert(addrs@[i as int] == LookedUpAddr::V4(o));
                return Some(o);
            },
            LookedUpAddr::V6 => {},
        }
        i = i + 1;
    }
    None
}

} // verus!
