//! Records exchanged between the subscription frontend and the panel.

use vstd::prelude::*;

verus! {

/// A subscription as the panel reports it.
#[derive(Debug, Clone)]
pub struct Subscription {
    pub id: i64,
    pub user_id: i64,
    pub status: String,
    pub used_traffic: i64,
    pub subscription_uuid: String,
}

/// A VPN node.
#[derive(Debug, Clone)]
pub struct Node {
    pub id: i64,
    pub name: String,
    pub ip: String,
    pub vpn_port: i64,
    pub reality_pub: Option<String>,
    pub short_id: Option<String>,
    pub domain: Option<String>,
    pub country_code: Option<String>,
}

/// A user's credentials on the nodes.
#[derive(Debug, Clone)]
pub struct UserKeys {
    pub user_uuid: String,
    pub hy2_password: String,
}

/// Traffic counters a frontend reports in its heartbeat.
#[derive(Debug, Clone, Copy, PartialEq, Eq, Structural)]
pub struct FrontendStats {
    pub requests_count: u64,
    pub bandwidth_used: u64,
}

/// Settings of a subscription frontend.
#[derive(Debug, Clone)]
pub struct FrontendConfig {
    pub domain: String,
    pub panel_url: String,
    pub auth_token: String,
    pub region: String,
    pub listen_port: u16,
}

/// Query parameters of a subscription request.
#[derive(Debug, Clone)]
pub struct SubParams {
    /// `clash`, `v2ray` or `singbox`.
    pub client: Option<String>,
}

/// Whether a subscription may be served.
pub fn is_active(sub: &Subscription) -> (r: bool)
    ensures
        r == (sub.status@ == "active"@),
{
    crate::text::text_is(sub.status.as_str(), "active")
}

} // verus!
