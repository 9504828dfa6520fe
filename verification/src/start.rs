//! Listen addresses of a starting node.

use crate::text::{chars_find, first_index_of, lemma_first_index_of, str_chars, string_from_range};
use vstd::prelude::*;

verus! {

/// The port part of a node address: what follows its first `:`, else the
/// default port of the scheme (`443` with TLS, `80` without).
pub open spec fn port_of(node_addr: Seq<char>, tls: bool) -> Seq<char> {
    let i = first_index_of(node_addr, ':');
    if i < node_addr.len() {
        node_addr.subrange(i + 1, node_addr.len() as int)
    } else if tls {
        "443"@
    } else {
        "80"@
    }
}

/// `<listen_addr>:<port>`, the port being taken from `node_addr`.
pub fn build_listen_addr(listen_addr: &str, node_addr: &str, tls: bool) -> (r: String)
    ensures
        r@ == listen_addr@ + ":"@ + port_of(node_addr@, tls),
{
    let cs = str_chars(node_addr);
    let i = chars_find(cs.as_slice(), ':');
    proof {
        lemma_first_index_of(node_addr@, ':');
    }
    let mut out = String::from_str(listen_addr);
    out.append(":");
    if i < cs.len() {
        let port = string_from_range(cs.as_slice(), i + 1, cs.len());
        out.append(port.as_str());
    } else if tls {
        out.append("443");
    } else {
        out.append("80");
    }
    out
}

} // verus!
