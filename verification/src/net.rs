//! The machine's network address, for the ready message.

use vstd::prelude::*;
use network_interface::NetworkInterfaceConfig;
use crate::text::{join, joined, same_text, texts_of};

verus! {

/// A network interface of the machine, with its addresses as text.
#[derive(Debug, Clone, PartialEq, Eq)]
pub struct Interface {
    pub name: String,
    pub addresses: Vec<String>,
}

/// A network interface as a mathematical value.
pub struct InterfaceView {
    pub name: Seq<char>,
    pub addresses: Seq<Seq<char>>,
}

impl View for Interface {
    type V = InterfaceView;

    open spec fn view(&self) -> InterfaceView {
        InterfaceView { name: self.name@, addresses: texts_of(self.addresses@) }
    }
}

/// The interfaces of `interfaces` as mathematical values.
pub open spec fn interfaces_view(interfaces: Seq<Interface>) -> Seq<InterfaceView> {
    interfaces.map_values(|interface: Interface| interface@)
}

/// The addresses of the interfaces called `name`, in the order given.
pub open spec fn addresses_of(interfaces: Seq<InterfaceView>, name: Seq<char>) -> Seq<Seq<char>>
    decreases interfaces.len(),
{
    if interfaces.len() == 0 {
        Seq::empty()
    } else if interfaces.last().name == name {
        addresses_of(interfaces.drop_last(), name) + interfaces.last().addresses
    } else {
        addresses_of(interfaces.drop_last(), name)
    }
}

/// Whether `c` can stand in an IP address written as text: a hexadecimal
/// digit, a dot or a colon.
pub open spec fn is_address_char(c: char) -> bool {
    let u = c as u32;
    ||| 0x30 <= u <= 0x39
    ||| 0x41 <= u <= 0x46
    ||| 0x61 <= u <= 0x66
    ||| u == 0x2e
    ||| u == 0x3a
}

/// Whether `text` is written as IP addresses are: not empty, in
/// hexadecimal digits, dots and colons.
pub open spec fn is_address_text(text: Seq<char>) -> bool {
    &&& text.len() > 0
    &&& forall|i: int| 0 <= i < text.len() ==> is_address_char(#[trigger] text[i])
}

/// Whether every address of every interface is written as IP addresses are.
pub open spec fn hold_addresses(interfaces: Seq<InterfaceView>) -> bool {
    forall|i: int, j: int|
        0 <= i < interfaces.len() && 0 <= j < interfaces[i].addresses.len() ==> is_address_text(
            #[trigger] interfaces[i].addresses[j],
        )
}

/// Whether `c` can stand in a list of IP addresses: in an address, or in
/// the comma and space between two.
pub open spec fn is_list_char(c: char) -> bool {
    is_address_char(c) || c == ',' || c == ' '
}

/// The addresses of the interfaces of one name are written as IP addresses
/// are, where those of all interfaces are.
proof fn lemma_addresses_of_are_texts(interfaces: Seq<InterfaceView>, name: Seq<char>)
    requires
        hold_addresses(interfaces),
    ensures
        forall|k: int|
            0 <= k < addresses_of(interfaces, name).len() ==> is_address_text(
                #[trigger] addresses_of(interfaces, name)[k],
            ),
    decreases interfaces.len(),
{
    if interfaces.len() > 0 {
        let earlier = interfaces.drop_last();
        assert(hold_addresses(earlier)) by {
            assert forall|i: int, j: int|
                0 <= i < earlier.len() && 0 <= j < earlier[i].addresses.len() implies is_address_text(
                #[trigger] earlier[i].addresses[j],
            ) by {
                assert(earlier[i] == interfaces[i]);
            }
        }
        lemma_addresses_of_are_texts(earlier, name);
        let last = interfaces.last();
        assert forall|k: int|
            0 <= k < addresses_of(interfaces, name).len() implies is_address_text(
            #[trigger] addresses_of(interfaces, name)[k],
        ) by {
            let before = addresses_of(earlier, name);
            if last.name == name && k >= before.len() {
                assert(addresses_of(interfaces, name)[k] == interfaces[interfaces.len()
                    - 1].addresses[k - before.len()]);
            }
        }
    }
}

/// A list of addresses holds nothing but what stands in addresses and
/// between them.
proof fn lemma_joined_addresses(items: Seq<Seq<char>>)
    requires
        forall|k: int| 0 <= k < items.len() ==> is_address_text(#[trigger] items[k]),
    ensures
        forall|i: int|
            0 <= i < joined(items, ", "@).len() ==> is_list_char(#[trigger] joined(items, ", "@)[i]),
    decreases items.len(),
{
    reveal_strlit(", ");
    if items.len() == 1 {
        assert(is_address_text(items[0]));
    } else if items.len() > 1 {
        let earlier = items.drop_last();
        assert forall|k: int| 0 <= k < earlier.len() implies is_address_text(
            #[trigger] earlier[k],
        ) by {
            assert(earlier[k] == items[k]);
        }
        lemma_joined_addresses(earlier);
        let head = joined(earlier, ", "@);
        let last = items.last();
        assert(is_address_text(items[items.len() - 1]));
        assert forall|i: int| 0 <= i < joined(items, ", "@).len() implies is_list_char(
            #[trigger] joined(items, ", "@)[i],
        ) by {
            let whole = head + ", "@ + last;
            assert(joined(items, ", "@) == whole);
            if i < head.len() {
                assert(whole[i] == head[i]);
            } else if i < head.len() + 2 {
                assert(whole[i] == ", "@[i - head.len()]);
            } else {
                assert(whole[i] == last[i - head.len() - 2]);
            }
        }
    }
}

/// Calls `NetworkInterface::show` of the crate `network_interface` and hands
/// out each interface's name with `Addr::ip` of each of its addresses,
/// printed as text. Where `show` fails there are none. Which interfaces
/// and addresses come back is what the machine has at the moment, so of
/// that nothing is promised. `Addr::ip` gives an `IpAddr` of the standard
/// library, which prints an address of version 4 as four decimal numbers
/// with dots between them and one of version 6 in groups of hexadecimal
/// digits with colons, the last two groups at times as an address of
/// version 4: so every address is written as IP addresses are.
#[verifier::external_body]
fn list_interfaces() -> (interfaces: Vec<Interface>)
    ensures
        hold_addresses(interfaces_view(interfaces@)),
{
    network_interface::NetworkInterface::show().unwrap_or_default().into_iter().map(
        |found| Interface {
            name: found.name,
            addresses: found.addr.into_iter().map(|address| address.ip().to_string()).collect(),
        },
    ).collect()
}

/// The addresses of the interfaces called `name`, with a comma and a space
/// between neighbours; empty where there is no such interface.
pub fn interface_addresses(interfaces: &Vec<Interface>, name: &str) -> (text: String)
    ensures
        text@ == joined(addresses_of(interfaces_view(interfaces@), name@), ", "@),
{
    let mut found: Vec<String> = Vec::new();
    let mut i: usize = 0;
    assert(interfaces_view(interfaces@).take(0) =~= Seq::<InterfaceView>::empty());
    assert(texts_of(found@) =~= Seq::<Seq<char>>::empty());
    while i < interfaces.len()
        invariant
            i <= interfaces.len(),
            texts_of(found@) == addresses_of(interfaces_view(interfaces@).take(i as int), name@),
        decreases interfaces.len() - i,
    {
        let ghost seen = interfaces_view(interfaces@).take(i + 1);
        assert(seen.drop_last() =~= interfaces_view(interfaces@).take(i as int));
        assert(seen.last() == interfaces@[i as int]@);
        let interface = &interfaces[i];
        if same_text(interface.name.as_str(), name) {
            let ghost before = texts_of(found@);
            let mut k: usize = 0;
            assert(texts_of(interface.addresses@).take(0) =~= Seq::<Seq<char>>::empty());
            while k < interface.addresses.len()
                invariant
                    k <= interface.addresses.len(),
                    texts_of(found@) == before + texts_of(interface.addresses@).take(k as int),
                decreases interface.addresses.len() - k,
            {
                let ghost earlier = found@;
                found.push(interface.addresses[k].clone());
                assert(texts_of(found@) =~= texts_of(earlier).push(interface.addresses@[k as int]@));
                assert(texts_of(interface.addresses@).take(k + 1) =~= texts_of(
                    interface.addresses@,
                ).take(k as int).push(interface.addresses@[k as int]@));
                k = k + 1;
            }
            assert(texts_of(interface.addresses@).take(interface.addresses@.len() as int)
                =~= texts_of(interface.addresses@));
        }
        i = i + 1;
    }
    assert(interfaces_view(interfaces@).take(interfaces@.len() as int) =~= interfaces_view(
        interfaces@,
    ));
    join(&found, ", ")
}

/// The addresses of the machine's interface `eth0`, with a comma and a space
/// between neighbours; empty where the machine has no such interface.
/// Which interfaces the machine has is for the machine to say: whatever
/// they are, their addresses are written as IP addresses are, and the
/// result is made of those that belong to `eth0`, in the order found. So
/// it holds nothing but hexadecimal digits, dots, colons, commas and
/// spaces.
pub fn get_eth0_ip_address() -> (address: String)
    ensures
        exists|interfaces: Seq<InterfaceView>| #[trigger]
            hold_addresses(interfaces) && address@ == joined(
                addresses_of(interfaces, "eth0"@),
                ", "@,
            ),
        forall|i: int| 0 <= i < address@.len() ==> is_list_char(#[trigger] address@[i]),
{
    let interfaces = list_interfaces();
    let address = interface_addresses(&interfaces, "eth0");
    proof {
        let found = interfaces_view(interfaces@);
        lemma_addresses_of_are_texts(found, "eth0"@);
        lemma_joined_addresses(addresses_of(found, "eth0"@));
        assert(hold_addresses(found) && address@ == joined(addresses_of(found, "eth0"@), ", "@));
    }
    address
}

} // verus!
