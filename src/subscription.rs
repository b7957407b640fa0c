//! Subscription links for V2Ray-style clients, and which configuration a
//! client asks for.

use vstd::prelude::*;
use base64::Engine;
use crate::panel::{Node, UserKeys};
use crate::text::{i64_text, int_text, text_is};

verus! {

/// The configuration dialects served to clients.
#[derive(Debug, Clone, Copy, PartialEq, Eq, Structural)]
pub enum ConfigFormat {
    Clash,
    V2ray,
    Singbox,
}

/// The format a client names; sing-box where it names none or another.
pub open spec fn format_spec(client: Option<Seq<char>>) -> ConfigFormat {
    match client {
        Some(c) => if c == "clash"@ {
            ConfigFormat::Clash
        } else if c == "v2ray"@ {
            ConfigFormat::V2ray
        } else {
            ConfigFormat::Singbox
        },
        None => ConfigFormat::Singbox,
    }
}

/// Chooses the configuration format from the `client` query parameter.
pub fn config_format(client: Option<&str>) -> (r: ConfigFormat)
    ensures
        r == format_spec(
            match client {
                Some(c) => Some(c@),
                None => None,
            },
        ),
{
    match client {
        Some(c) => if text_is(c, "clash") {
            ConfigFormat::Clash
        } else if text_is(c, "v2ray") {
            ConfigFormat::V2ray
        } else {
            ConfigFormat::Singbox
        },
        None => ConfigFormat::Singbox,
    }
}

/// Percent-encoding of a text's UTF-8 bytes.
pub uninterp spec fn url_encoded(s: Seq<char>) -> Seq<char>;

/// Standard base64, with padding, of a text's UTF-8 bytes.
pub uninterp spec fn base64_of(s: Seq<char>) -> Seq<char>;

/// Relies on `urlencoding::encode`: percent-encodes every byte but
/// alphanumerics and `-`, `_`, `.`, `~`.
#[verifier::external_body]
fn url_encode(s: &str) -> (r: String)
    ensures
        r@ == url_encoded(s@),
{
    urlencoding::encode(s).into_owned()
}

/// Relies on `base64::engine::general_purpose::STANDARD.encode`.
#[verifier::external_body]
fn base64_encode(s: &str) -> (r: String)
    ensures
        r@ == base64_of(s@),
{
    base64::engine::general_purpose::STANDARD.encode(s)
}

pub open spec fn opt_text(o: Option<String>, fallback: Seq<char>) -> Seq<char> {
    match o {
        Some(s) => s@,
        None => fallback,
    }
}

/// The display name of a node's link, before encoding.
pub open spec fn link_name(node: Node) -> Seq<char> {
    node.name@ + " VLESS"@
}

/// A VLESS link to `node` for `keys`, with `encoded_name` as its fragment.
pub open spec fn vless_link_spec(node: Node, keys: UserKeys, encoded_name: Seq<char>) -> Seq<char> {
    "vless://"@ + keys.user_uuid@ + "@"@ + node.ip@ + ":"@ + int_text(node.vpn_port as int)
        + "?encryption=none&flow=xtls-rprx-vision&security=reality&sni="@ + opt_text(
        node.domain,
        "www.google.com"@,
    ) + "&fp=chrome&pbk="@ + opt_text(node.reality_pub, Seq::empty()) + "&sid="@ + opt_text(
        node.short_id,
        Seq::empty(),
    ) + "&type=tcp#"@ + encoded_name
}

/// The links of `nodes`, one per line.
pub open spec fn links_text(nodes: Seq<Node>, keys: UserKeys) -> Seq<char>
    decreases nodes.len(),
{
    if nodes.len() == 0 {
        Seq::empty()
    } else if nodes.len() == 1 {
        vless_link_spec(nodes[0], keys, url_encoded(link_name(nodes[0])))
    } else {
        links_text(nodes.drop_last(), keys) + "\n"@ + vless_link_spec(
            nodes.last(),
            keys,
            url_encoded(link_name(nodes.last())),
        )
    }
}

fn push_opt(s: &mut String, o: &Option<String>, fallback: &str)
    ensures
        final(s)@ == old(s)@ + opt_text(*o, fallback@),
{
    match o {
        Some(v) => s.append(v.as_str()),
        None => s.append(fallback),
    }
}

/// The VLESS link to `node` for `keys`, given its encoded display name.
pub fn vless_link(node: &Node, keys: &UserKeys, encoded_name: &str) -> (r: String)
    ensures
        r@ == vless_link_spec(*node, *keys, encoded_name@),
{
    proof {
        reveal_strlit("");
    }
    let mut s = String::from_str("vless://");
    s.append(keys.user_uuid.as_str());
    s.append("@");
    s.append(node.ip.as_str());
    s.append(":");
    let port = i64_text(node.vpn_port);
    s.append(port.as_str());
    s.append("?encryption=none&flow=xtls-rprx-vision&security=reality&sni=");
    push_opt(&mut s, &node.domain, "www.google.com");
    s.append("&fp=chrome&pbk=");
    push_opt(&mut s, &node.reality_pub, "");
    s.append("&sid=");
    push_opt(&mut s, &node.short_id, "");
    s.append("&type=tcp#");
    s.append(encoded_name);
    assert(""@ =~= Seq::<char>::empty());
    assert(s@ =~= vless_link_spec(*node, *keys, encoded_name@));
    s
}

/// The links of all nodes, one per line.
pub fn v2ray_links(nodes: &Vec<Node>, keys: &UserKeys) -> (r: String)
    ensures
        r@ == links_text(nodes@, *keys),
{
    let mut out = String::new();
    let mut i: usize = 0;
    while i < nodes.len()
        invariant
            i <= nodes@.len(),
            out@ == links_text(nodes@.subrange(0, i as int), *keys),
        decreases nodes@.len() - i,
    {
        let node = &nodes[i];
        let mut name = String::from_str(node.name.as_str());
        name.append(" VLESS");
        let encoded = url_encode(name.as_str());
        let link = vless_link(node, keys, encoded.as_str());
        let ghost prev = nodes@.subrange(0, i as int);
        let ghost next = nodes@.subrange(0, i + 1);
        proof {
            assert(next.drop_last() =~= prev);
            assert(next.last() == *node);
        }
        if i > 0 {
            out.append("\n");
        }
        out.append(link.as_str());
        proof {
            if i == 0 {
                assert(prev =~= Seq::<Node>::empty());
            }
        }
        i = i + 1;
    }
    assert(nodes@.subrange(0, nodes@.len() as int) =~= nodes@);
    out
}

/// The V2Ray subscription: every node's link, one per line, in base64.
pub fn generate_v2ray_config(nodes: &Vec<Node>, keys: &UserKeys) -> (r: String)
    ensures
        r@ == base64_of(links_text(nodes@, *keys)),
{
    let links = v2ray_links(nodes, keys);
    base64_encode(links.as_str())
}

} // verus!
