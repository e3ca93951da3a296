//! The addresses under which the share can be reached.
use vstd::prelude::*;

use crate::text::{decimal, u64_to_decimal};

verus! {

/// A network interface and its IPv4 address in dotted notation.
#[derive(Debug, PartialEq, Eq)]
pub struct NetworkInterfaceInfo {
    pub name: String,
    pub address: String,
}

/// Dotted decimal notation of an IPv4 address, as `Ipv4Addr` displays it.
pub open spec fn ipv4_text(a: u8, b: u8, c: u8, d: u8) -> Seq<char> {
    decimal(a as nat) + "."@ + decimal(b as nat) + "."@ + decimal(c as nat) + "."@ + decimal(
        d as nat,
    )
}

/// Writes an IPv4 address in dotted decimal notation.
pub fn ipv4_to_string(octets: [u8; 4]) -> (s: String)
    ensures
        s@ == ipv4_text(octets@[0], octets@[1], octets@[2], octets@[3]),
{
    let mut s = u64_to_decimal(octets[0] as u64);
    s.append(".");
    s.append(u64_to_decimal(octets[1] as u64).as_str());
    s.append(".");
    s.append(u64_to_decimal(octets[2] as u64).as_str());
    s.append(".");
    s.append(u64_to_decimal(octets[3] as u64).as_str());
    s
}

/// An interface address that can serve the share: IPv4 and outside the
/// loopback block 127.0.0.0/8.
pub open spec fn usable(address: Option<[u8; 4]>) -> bool {
    address matches Some(o) && o@[0] != 127
}

/// The usable addresses among `interfaces` (name and IPv4 octets, `None`
/// for another kind of address), in order.
pub open spec fn usable_interfaces(interfaces: Seq<(Seq<char>, Option<[u8; 4]>)>) -> Seq<(Seq<char>, Seq<char>)>
    decreases interfaces.len(),
{
    if interfaces.len() == 0 {
        seq![]
    } else {
        let rest = usable_interfaces(interfaces.drop_last());
        let (name, address) = interfaces.last();
        match address {
            Some(o) => if o@[0] != 127 {
                rest.push((name, ipv4_text(o@[0], o@[1], o@[2], o@[3])))
            } else {
                rest
            },
            None => rest,
        }
    }
}

/// The loopback entry offered when no interface is usable.
pub open spec fn loopback_entry() -> (Seq<char>, Seq<char>) {
    ("Local Loopback"@, "127.0.0.1"@)
}

/// The addresses offered to the user: the usable ones, or the loopback entry
/// when there is none.
pub open spec fn offered_addresses(interfaces: Seq<(Seq<char>, Option<[u8; 4]>)>) -> Seq<(Seq<char>, Seq<char>)> {
    let usable = usable_interfaces(interfaces);
    if usable.len() == 0 {
        seq![loopback_entry()]
    } else {
        usable
    }
}

/// Whether an interface entry has an IPv4 address outside 127.0.0.0/8.
pub open spec fn outside_loopback(e: (Seq<char>, Option<[u8; 4]>)) -> bool {
    e.1 matches Some(o) && o@[0] != 127
}

/// An interface entry as it is offered: its name and dotted address.
pub open spec fn offered_entry(e: (Seq<char>, Option<[u8; 4]>)) -> (Seq<char>, Seq<char>) {
    let o = e.1->0;
    (e.0, ipv4_text(o@[0], o@[1], o@[2], o@[3]))
}

/// The non-loopback entries, mapped to what is offered for them.
proof fn lemma_usable_is_filter(interfaces: Seq<(Seq<char>, Option<[u8; 4]>)>)
    ensures
        usable_interfaces(interfaces) == interfaces.filter(|e| outside_loopback(e)).map_values(
            |e| offered_entry(e),
        ),
    decreases interfaces.len(),
{
    reveal(Seq::filter);
    if interfaces.len() > 0 {
        lemma_usable_is_filter(interfaces.drop_last());
        let f = interfaces.drop_last().filter(|e| outside_loopback(e));
        if outside_loopback(interfaces.last()) {
            assert(f.push(interfaces.last()).map_values(|e| offered_entry(e)) =~= f.map_values(
                |e| offered_entry(e),
            ).push(offered_entry(interfaces.last())));
        }
    }
}

/// Every interface with an IPv4 address outside the loopback block is
/// offered, in the order of the interfaces, under its name and dotted
/// address, and nothing else is; only when no interface has such an address
/// is the loopback entry offered instead.
pub proof fn law_offers_every_non_loopback_address(interfaces: Seq<(Seq<char>, Option<[u8; 4]>)>)
    ensures
        ({
            let chosen = interfaces.filter(|e| outside_loopback(e));
            &&& chosen.len() > 0 ==> offered_addresses(interfaces) == chosen.map_values(
                |e| offered_entry(e),
            )
            &&& chosen.len() == 0 ==> offered_addresses(interfaces) == seq![
                ("Local Loopback"@, "127.0.0.1"@),
            ]
        }),
        forall|k: int|
            0 <= k < interfaces.len() && outside_loopback(#[trigger] interfaces[k])
                ==> offered_addresses(interfaces).contains(offered_entry(interfaces[k])),
{
    lemma_usable_is_filter(interfaces);
    let chosen = interfaces.filter(|e| outside_loopback(e));
    broadcast use vstd::seq_lib::group_filter_ensures;

    assert forall|k: int|
        0 <= k < interfaces.len() && outside_loopback(#[trigger] interfaces[k])
        implies offered_addresses(interfaces).contains(offered_entry(interfaces[k])) by {
        assert(chosen.contains(interfaces[k]));
        let j = choose|j: int| 0 <= j < chosen.len() && chosen[j] == interfaces[k];
        assert(chosen.map_values(|e| offered_entry(e))[j] == offered_entry(interfaces[k]));
    }
}

/// The view of an interface entry.
pub open spec fn interface_view(i: NetworkInterfaceInfo) -> (Seq<char>, Seq<char>) {
    (i.name@, i.address@)
}

/// The view of a raw interface list.
pub open spec fn raw_interfaces_view(interfaces: Seq<(String, Option<[u8; 4]>)>) -> Seq<(Seq<char>, Option<[u8; 4]>)> {
    interfaces.map_values(|e: (String, Option<[u8; 4]>)| (e.0@, e.1))
}

/// Gathers the IPv4 non-loopback addresses among the machine's interfaces,
/// falling back to the loopback address when there is none; the list is
/// never empty.
pub fn select_ipv4_addresses(interfaces: Vec<(String, Option<[u8; 4]>)>) -> (r: Vec<NetworkInterfaceInfo>)
    ensures
        r@.map_values(|i: NetworkInterfaceInfo| interface_view(i)) == offered_addresses(
            raw_interfaces_view(interfaces@),
        ),
        r@.len() > 0,
{
    let ghost raw = raw_interfaces_view(interfaces@);
    let mut out: Vec<NetworkInterfaceInfo> = Vec::new();
    let mut i: usize = 0;
    while i < interfaces.len()
        invariant
            i <= interfaces@.len(),
            raw == raw_interfaces_view(interfaces@),
            out@.map_values(|x: NetworkInterfaceInfo| interface_view(x)) == usable_interfaces(
                raw.take(i as int),
            ),
        decreases interfaces@.len() - i,
    {
        let ghost before = out@;
        assert(raw.take(i + 1).drop_last() =~= raw.take(i as int));
        assert(raw.take(i + 1).last() == raw[i as int]);
        match interfaces[i].1 {
            Some(o) => {
                if o[0] != 127 {
                    let address = ipv4_to_string(o);
                    out.push(
                        NetworkInterfaceInfo { name: interfaces[i].0.clone(), address: address },
                    );
                    assert(out@.map_values(|x: NetworkInterfaceInfo| interface_view(x)) =~= before.map_values(
                        |x: NetworkInterfaceInfo| interface_view(x),
                    ).push(interface_view(out@[out@.len() - 1])));
                }
            },
            None => {},
        }
        i = i + 1;
    }
    assert(raw.take(interfaces@.len() as int) =~= raw);
    if out.len() == 0 {
        out.push(
            NetworkInterfaceInfo {
                name: "Local Loopback".to_string(),
                address: "127.0.0.1".to_string(),
            },
        );
        assert(out@.map_values(|x: NetworkInterfaceInfo| interface_view(x)) =~= seq![
            loopback_entry(),
        ]);
    }
    out
}

} // verus!
