//! The Clash configuration that routes all traffic through the tunnel.
use crate::config::{Config, ConfigView};
use crate::support::text::views;
use vstd::prelude::*;

verus! {

/// A proxy entry of the Clash file.
#[derive(Debug)]
pub struct Proxy {
    pub name: String,
    pub proxy_type: String,
    pub server: String,
    pub port: u16,
}

/// A proxy group entry of the Clash file.
#[derive(Debug)]
pub struct ProxyGroup {
    pub name: String,
    pub group_type: String,
    pub proxies: Vec<String>,
}

/// The content of the generated Clash file.
#[derive(Debug)]
pub struct ClashConfig {
    pub port: u16,
    pub allow_lan: bool,
    pub mode: String,
    pub proxies: Vec<Proxy>,
    pub proxy_groups: Vec<ProxyGroup>,
    pub rules: Vec<String>,
}

pub struct ProxyView {
    pub name: Seq<char>,
    pub proxy_type: Seq<char>,
    pub server: Seq<char>,
    pub port: u16,
}

pub struct ProxyGroupView {
    pub name: Seq<char>,
    pub group_type: Seq<char>,
    pub proxies: Seq<Seq<char>>,
}

pub struct ClashView {
    pub port: u16,
    pub allow_lan: bool,
    pub mode: Seq<char>,
    pub proxies: Seq<ProxyView>,
    pub proxy_groups: Seq<ProxyGroupView>,
    pub rules: Seq<Seq<char>>,
}

impl View for Proxy {
    type V = ProxyView;

    open spec fn view(&self) -> ProxyView {
        ProxyView {
            name: self.name@,
            proxy_type: self.proxy_type@,
            server: self.server@,
            port: self.port,
        }
    }
}

impl View for ProxyGroup {
    type V = ProxyGroupView;

    open spec fn view(&self) -> ProxyGroupView {
        ProxyGroupView {
            name: self.name@,
            group_type: self.group_type@,
            proxies: views(self.proxies@),
        }
    }
}

impl View for ClashConfig {
    type V = ClashView;

    open spec fn view(&self) -> ClashView {
        ClashView {
            port: self.port,
            allow_lan: self.allow_lan,
            mode: self.mode@,
            proxies: self.proxies@.map_values(|p: Proxy| p@),
            proxy_groups: self.proxy_groups@.map_values(|g: ProxyGroup| g@),
            rules: views(self.rules@),
        }
    }
}

/// The Clash file for `c`: Clash listens on the local Clash port, LAN
/// access is off, and every connection goes (rule `MATCH,RESIP`, group
/// `RESIP`) to one HTTP proxy, named after the server, at the local end of
/// the SSH tunnel.
pub open spec fn clash_view(c: ConfigView) -> ClashView {
    ClashView {
        port: c.local_clash_port,
        allow_lan: false,
        mode: "Rule"@,
        proxies: seq![
            ProxyView {
                name: c.name,
                proxy_type: "http"@,
                server: c.local_tunnel_host,
                port: c.local_tunnel_port,
            },
        ],
        proxy_groups: seq![
            ProxyGroupView { name: "RESIP"@, group_type: "select"@, proxies: seq![c.name] },
        ],
        rules: seq!["MATCH,RESIP"@],
    }
}

/// Builds the Clash configuration for `config`.
pub fn clash_config(config: &Config) -> (r: ClashConfig)
    ensures
        r@ == clash_view(config@),
{
    let proxy_name = config.name.clone();
    let mut proxies: Vec<Proxy> = Vec::new();
    proxies.push(
        Proxy {
            name: proxy_name.clone(),
            proxy_type: String::from_str("http"),
            server: config.local_tunnel_host.clone(),
            port: config.local_tunnel_port,
        },
    );
    let mut members: Vec<String> = Vec::new();
    members.push(proxy_name);
    let mut proxy_groups: Vec<ProxyGroup> = Vec::new();
    proxy_groups.push(
        ProxyGroup {
            name: String::from_str("RESIP"),
            group_type: String::from_str("select"),
            proxies: members,
        },
    );
    let mut rules: Vec<String> = Vec::new();
    rules.push(String::from_str("MATCH,RESIP"));
    let r = ClashConfig {
        port: config.local_clash_port,
        allow_lan: false,
        mode: String::from_str("Rule"),
        proxies,
        proxy_groups,
        rules,
    };
    assert(r@.proxies =~= clash_view(config@).proxies);
    assert(r@.proxy_groups[0].proxies =~= seq![config.name@]);
    assert(r@.proxy_groups =~= clash_view(config@).proxy_groups);
    assert(r@.rules =~= clash_view(config@).rules);
    r
}

/// Law: the proxy that Clash is given is the local end of the SSH forward:
/// the forward starts with that proxy's `host:port`.
pub proof fn lemma_clash_proxy_is_tunnel_entry(c: ConfigView)
    ensures
        ({
            let p = clash_view(c).proxies[0];
            let entry = p.server.push(':') + crate::support::text::decimal(p.port as nat);
            &&& entry.len() <= crate::tunnel::forward_of(c).len()
            &&& crate::tunnel::forward_of(c).subrange(0, entry.len() as int) == entry
        }),
{
    let p = clash_view(c).proxies[0];
    let entry = p.server.push(':') + crate::support::text::decimal(p.port as nat);
    let f = crate::tunnel::forward_of(c);
    assert(f.subrange(0, entry.len() as int) =~= entry);
}

} // verus!
