use vstd::prelude::*;
use vstd::string::*;

use crate::model::NetworkInterface;
use crate::registry::same_text;
use crate::tls::starts_with;

verus! {

/// Host addresses worth offering besides the two fixed choices: not the
/// loopback address and not an IPv4 link-local one.
pub open spec fn is_offered_address(ip: Seq<char>) -> bool {
    ip != "127.0.0.1"@ && !starts_with(ip, "169.254"@)
}

/// The display label of an interface: its name, then its address in
/// parentheses.
pub open spec fn interface_label(name: Seq<char>, ip: Seq<char>) -> Seq<char> {
    name + " ("@ + ip + ")"@
}

/// The (label, address) pairs offered for `(name, address)` pairs found on
/// the host: those with an offered address, in the order found.
pub open spec fn offered(found: Seq<(String, String)>) -> Seq<(Seq<char>, Seq<char>)> {
    found.filter(|f: (String, String)| is_offered_address(f.1@)).map_values(
        |f: (String, String)| (interface_label(f.0@, f.1@), f.1@),
    )
}

/// The two choices always offered: loopback and every interface.
pub open spec fn fixed_choices() -> Seq<(Seq<char>, Seq<char>)> {
    seq![("Localhost (127.0.0.1)"@, "127.0.0.1"@), ("All Interfaces (0.0.0.0)"@, "0.0.0.0"@)]
}

/// The (label, address) pairs of a list of interfaces.
pub open spec fn interface_views(s: Seq<NetworkInterface>) -> Seq<(Seq<char>, Seq<char>)> {
    s.map_values(|n: NetworkInterface| (n.name@, n.ip@))
}

/// Whether `text` opens with `head`.
pub fn text_starts_with(text: &str, head: &str) -> (r: bool)
    ensures
        r == starts_with(text@, head@),
{
    let n = head.unicode_len();
    if n > text.unicode_len() {
        return false;
    }
    let mut i: usize = 0;
    while i < n
        invariant
            n == head@.len(),
            n <= text@.len(),
            i <= n,
            forall|k: int| 0 <= k < i ==> text@[k] == head@[k],
        decreases n - i,
    {
        if text.get_char(i) != head.get_char(i) {
            assert(text@.subrange(0, n as int)[i as int] != head@[i as int]);
            return false;
        }
        i += 1;
    }
    assert(text@.subrange(0, n as int) =~= head@);
    true
}

/// The addresses a listener can be bound to: loopback, every interface,
/// then each interface found on the host, in the order found, that is
/// neither loopback nor link-local, labelled with its name and address.
pub fn network_interfaces(found: Vec<(String, String)>) -> (r: Vec<NetworkInterface>)
    ensures
        interface_views(r@) == fixed_choices() + offered(found@),
{
    let mut r: Vec<NetworkInterface> = Vec::new();
    r.push(NetworkInterface {
        name: String::from_str("Localhost (127.0.0.1)"),
        ip: String::from_str("127.0.0.1"),
    });
    r.push(NetworkInterface {
        name: String::from_str("All Interfaces (0.0.0.0)"),
        ip: String::from_str("0.0.0.0"),
    });
    proof {
        assert(interface_views(r@) =~= fixed_choices() + offered(found@.subrange(0, 0)));
    }
    let mut i: usize = 0;
    while i < found.len()
        invariant
            i <= found@.len(),
            interface_views(r@) == fixed_choices() + offered(found@.subrange(0, i as int)),
        decreases found@.len() - i,
    {
        let (name, ip) = &found[i];
        let keep = !same_text(ip.as_str(), "127.0.0.1") && !text_starts_with(ip.as_str(), "169.254");
        proof {
            let pre = found@.subrange(0, i as int);
            assert(found@.subrange(0, i + 1) =~= pre.push(found@[i as int]));
            pre.lemma_filter_push(found@[i as int], |f: (String, String)| is_offered_address(f.1@));
            let kept = pre.filter(|f: (String, String)| is_offered_address(f.1@));
            let g = |f: (String, String)| (interface_label(f.0@, f.1@), f.1@);
            assert(kept.push(found@[i as int]).map_values(g) =~= kept.map_values(g).push(g(found@[i as int])));
        }
        let ghost before = r@;
        if keep {
            let label = name.clone().concat(" (").concat(ip.as_str()).concat(")");
            r.push(NetworkInterface { name: label, ip: ip.clone() });
            proof {
                assert(interface_views(r@) =~= interface_views(before).push(
                    (interface_label(name@, ip@), ip@),
                ));
            }
        }
        i += 1;
    }
    proof {
        assert(found@.subrange(0, i as int) =~= found@);
    }
    r
}

} // verus!
