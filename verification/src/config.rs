//! Wallet configuration: networks, saved contacts, preferences.
//!
//! Text fields are held as UTF-8 bytes; persistence to disk is the
//! caller's concern. The default configuration is pinned field by field:
//! three networks with their chain ids, the polygon token list, and the
//! burn contact.

use vstd::prelude::*;

use crate::address::Address;

verus! {

/// A known token on one network.
#[derive(Debug)]
pub struct Erc20TokenConfig {
    pub address: Address,
    pub name: Vec<u8>,
    pub symbol: Vec<u8>,
}

/// A saved contact.
#[derive(Debug)]
pub struct Contact {
    pub name: Vec<u8>,
    pub address: Address,
}

/// One EVM network; immutable once selected for a session.
#[derive(Debug)]
pub struct Network {
    pub rpc_url: Vec<u8>,
    pub explorer_url: Option<Vec<u8>>,
    pub chain_id: u64,
    pub currency_symbol: Vec<u8>,
    pub erc20_tokens: Vec<Erc20TokenConfig>,
}

/// A network under its configured name.
#[derive(Debug)]
pub struct NamedNetwork {
    pub name: Vec<u8>,
    pub network: Network,
}

/// A stored extended public key, kept in its textual encoding.
#[derive(Debug)]
pub struct Bip32XPub {
    pub encoded: Vec<u8>,
}

/// The whole configuration document.
#[derive(Debug)]
pub struct Config {
    pub accounts: Vec<(Vec<u8>, Bip32XPub)>,
    pub networks: Vec<NamedNetwork>,
    pub contacts: Vec<Contact>,
    pub debug: bool,
    pub proxy: Option<Vec<u8>>,
}

pub open spec fn name_mainnet() -> Seq<u8> {
    seq![0x6du8, 0x61u8, 0x69u8, 0x6eu8, 0x6eu8, 0x65u8, 0x74u8]
}

pub open spec fn name_polygon() -> Seq<u8> {
    seq![0x70u8, 0x6fu8, 0x6cu8, 0x79u8, 0x67u8, 0x6fu8, 0x6eu8]
}

pub open spec fn name_bsc() -> Seq<u8> {
    seq![0x62u8, 0x73u8, 0x63u8]
}

/// "mainnet" as bytes.
fn text_mainnet() -> (r: Vec<u8>)
    ensures
        r@ == name_mainnet(),
{
    let mut r: Vec<u8> = Vec::new();
    r.push(0x6d);
    r.push(0x61);
    r.push(0x69);
    r.push(0x6e);
    r.push(0x6e);
    r.push(0x65);
    r.push(0x74);
    proof {
        assert(r@ =~= name_mainnet());
    }
    r
}

/// "polygon" as bytes.
fn text_polygon() -> (r: Vec<u8>)
    ensures
        r@ == name_polygon(),
{
    let mut r: Vec<u8> = Vec::new();
    r.push(0x70);
    r.push(0x6f);
    r.push(0x6c);
    r.push(0x79);
    r.push(0x67);
    r.push(0x6f);
    r.push(0x6e);
    proof {
        assert(r@ =~= name_polygon());
    }
    r
}

/// "bsc" as bytes.
fn text_bsc() -> (r: Vec<u8>)
    ensures
        r@ == name_bsc(),
{
    let mut r: Vec<u8> = Vec::new();
    r.push(0x62);
    r.push(0x73);
    r.push(0x63);
    proof {
        assert(r@ =~= name_bsc());
    }
    r
}

impl Default for Config {
    /// The shipped configuration: mainnet (chain id 1), polygon
    /// (chain id 137, with its two known tokens) and bsc (chain id 56),
    /// one burn contact at the zero address, no accounts, a local
    /// socks proxy, debugging off.
    fn default() -> (r: Config)
        ensures
            r.accounts@.len() == 0,
            r.networks@.len() == 3,
            r.networks@[0].name@ == name_mainnet(),
            r.networks@[0].network.chain_id == 1,
            r.networks@[0].network.erc20_tokens@.len() == 0,
            r.networks@[1].name@ == name_polygon(),
            r.networks@[1].network.chain_id == 137,
            r.networks@[1].network.erc20_tokens@.len() == 2,
            r.networks@[2].name@ == name_bsc(),
            r.networks@[2].network.chain_id == 56,
            r.networks@[2].network.erc20_tokens@.len() == 0,
            r.contacts@.len() == 1,
            (forall|i: int| 0 <= i < 20 ==> r.contacts@[0].address.bytes@[i] == 0),
            r.contacts@[0].address.wf(),
            !r.debug,
            r.proxy is Some,
{
        let mainnet = Network {
            rpc_url: ascii_url_mainnet(),
            explorer_url: Some(ascii_explorer_mainnet()),
            chain_id: 1,
            currency_symbol: ascii_eth(),
            erc20_tokens: Vec::new(),
        };
        let mut polygon_tokens: Vec<Erc20TokenConfig> = Vec::new();
        polygon_tokens.push(usdc_token());
        polygon_tokens.push(busd_token());
        let polygon = Network {
            rpc_url: ascii_url_polygon(),
            explorer_url: Some(ascii_explorer_polygon()),
            chain_id: 137,
            currency_symbol: ascii_matic(),
            erc20_tokens: polygon_tokens,
        };
        let bsc = Network {
            rpc_url: ascii_url_bsc(),
            explorer_url: Some(ascii_explorer_bsc()),
            chain_id: 56,
            currency_symbol: ascii_bnb(),
            erc20_tokens: Vec::new(),
        };
        let mut networks: Vec<NamedNetwork> = Vec::new();
        networks.push(NamedNetwork { name: text_mainnet(), network: mainnet });
        networks.push(NamedNetwork { name: text_polygon(), network: polygon });
        networks.push(NamedNetwork { name: text_bsc(), network: bsc });
        let mut contacts: Vec<Contact> = Vec::new();
        contacts.push(Contact { name: ascii_burn(), address: Address::zero() });
        Config {
            accounts: Vec::new(),
            networks,
            contacts,
            debug: false,
            proxy: Some(ascii_default_proxy()),
        }
    }
}

fn ascii_url_mainnet() -> (r: Vec<u8>) {
    vec![0x68u8, 0x74u8, 0x74u8, 0x70u8, 0x73u8, 0x3au8, 0x2fu8, 0x2fu8, 0x61u8, 0x70u8, 0x69u8, 0x2eu8, 0x73u8, 0x65u8, 0x63u8, 0x75u8, 0x72u8, 0x65u8, 0x72u8, 0x70u8, 0x63u8, 0x2eu8, 0x63u8, 0x6fu8, 0x6du8, 0x2fu8, 0x76u8, 0x31u8]
}

fn ascii_explorer_mainnet() -> (r: Vec<u8>) {
    vec![0x68u8, 0x74u8, 0x74u8, 0x70u8, 0x73u8, 0x3au8, 0x2fu8, 0x2fu8, 0x65u8, 0x74u8, 0x68u8, 0x65u8, 0x72u8, 0x73u8, 0x63u8, 0x61u8, 0x6eu8, 0x2eu8, 0x69u8, 0x6fu8]
}

fn ascii_eth() -> (r: Vec<u8>) {
    vec![0x45u8, 0x54u8, 0x48u8]
}

fn ascii_url_polygon() -> (r: Vec<u8>) {
    vec![0x68u8, 0x74u8, 0x74u8, 0x70u8, 0x73u8, 0x3au8, 0x2fu8, 0x2fu8, 0x70u8, 0x6fu8, 0x6cu8, 0x79u8, 0x67u8, 0x6fu8, 0x6eu8, 0x2du8, 0x72u8, 0x70u8, 0x63u8, 0x2eu8, 0x63u8, 0x6fu8, 0x6du8]
}

fn ascii_explorer_polygon() -> (r: Vec<u8>) {
    vec![0x68u8, 0x74u8, 0x74u8, 0x70u8, 0x73u8, 0x3au8, 0x2fu8, 0x2fu8, 0x70u8, 0x6fu8, 0x6cu8, 0x79u8, 0x67u8, 0x6fu8, 0x6eu8, 0x73u8, 0x63u8, 0x61u8, 0x6eu8, 0x2eu8, 0x63u8, 0x6fu8, 0x6du8]
}

fn ascii_matic() -> (r: Vec<u8>) {
    vec![0x4du8, 0x41u8, 0x54u8, 0x49u8, 0x43u8]
}

fn ascii_url_bsc() -> (r: Vec<u8>) {
    vec![0x68u8, 0x74u8, 0x74u8, 0x70u8, 0x73u8, 0x3au8, 0x2fu8, 0x2fu8, 0x62u8, 0x73u8, 0x63u8, 0x72u8, 0x70u8, 0x63u8, 0x2eu8, 0x63u8, 0x6fu8, 0x6du8]
}

fn ascii_explorer_bsc() -> (r: Vec<u8>) {
    vec![0x68u8, 0x74u8, 0x74u8, 0x70u8, 0x73u8, 0x3au8, 0x2fu8, 0x2fu8, 0x62u8, 0x73u8, 0x63u8, 0x73u8, 0x63u8, 0x61u8, 0x6eu8, 0x2eu8, 0x63u8, 0x6fu8, 0x6du8]
}

fn ascii_bnb() -> (r: Vec<u8>) {
    vec![0x42u8, 0x4eu8, 0x42u8]
}

fn ascii_burn() -> (r: Vec<u8>) {
    vec![0x42u8, 0x75u8, 0x72u8, 0x6eu8]
}

fn ascii_default_proxy() -> (r: Vec<u8>) {
    vec![0x73u8, 0x6fu8, 0x63u8, 0x6bu8, 0x73u8, 0x35u8, 0x68u8, 0x3au8, 0x2fu8, 0x2fu8, 0x31u8, 0x32u8, 0x37u8, 0x2eu8, 0x30u8, 0x2eu8, 0x30u8, 0x2eu8, 0x31u8, 0x3au8, 0x39u8, 0x30u8, 0x35u8, 0x30u8]
}

/// How the RPC client of a session must be built.
#[derive(Debug, Clone, Copy, PartialEq, Eq, Structural)]
pub enum ClientPolicy {
    /// A proxy is configured: route everything through it, TLS only.
    ProxiedHttpsOnly,
    /// The endpoint is local: plain transport is acceptable.
    PlainLocal,
    /// No proxy, remote endpoint: TLS only.
    HttpsOnly,
}

/// The ASCII bytes of "localhost".
pub open spec fn name_localhost() -> Seq<u8> {
    seq![0x6cu8, 0x6fu8, 0x63u8, 0x61u8, 0x6cu8, 0x68u8, 0x6fu8, 0x73u8, 0x74u8]
}

pub open spec fn spec_client_policy(proxy: Option<Seq<u8>>, host: Option<Seq<u8>>) -> ClientPolicy {
    if proxy is Some {
        ClientPolicy::ProxiedHttpsOnly
    } else if host == Some(name_localhost()) {
        ClientPolicy::PlainLocal
    } else {
        ClientPolicy::HttpsOnly
    }
}

/// Decides how the chain client is built: a configured proxy wins,
/// a local endpoint may use plain transport, anything else is TLS only.
pub fn client_policy(proxy: &Option<Vec<u8>>, host: &Option<Vec<u8>>) -> (r: ClientPolicy)
    ensures
        r == spec_client_policy(
            (match proxy {
                Some(p) => Some(p@),
                None => None,
            }),
            (match host {
                Some(h) => Some(h@),
                None => None,
            }),
        ),
{
    if proxy.is_some() {
        return ClientPolicy::ProxiedHttpsOnly;
    }
    let local: Vec<u8> = vec![0x6cu8, 0x6fu8, 0x63u8, 0x61u8, 0x6cu8, 0x68u8, 0x6fu8, 0x73u8, 0x74u8];
    proof {
        assert(local@ =~= name_localhost());
    }
    match host {
        Some(h) => {
            if crate::session::bytes_equal(h, &local) {
                ClientPolicy::PlainLocal
            } else {
                ClientPolicy::HttpsOnly
            }
        },
        None => ClientPolicy::HttpsOnly,
    }
}

/// Two token entries hold the same data.
pub open spec fn token_eq(a: Erc20TokenConfig, b: Erc20TokenConfig) -> bool {
    &&& a.address.bytes@ == b.address.bytes@
    &&& a.name@ == b.name@
    &&& a.symbol@ == b.symbol@
}

/// Two networks hold the same data.
pub open spec fn network_eq(a: Network, b: Network) -> bool {
    &&& a.rpc_url@ == b.rpc_url@
    &&& (a.explorer_url is Some <==> b.explorer_url is Some)
    &&& (a.explorer_url is Some ==> a.explorer_url->0@ == b.explorer_url->0@)
    &&& a.chain_id == b.chain_id
    &&& a.currency_symbol@ == b.currency_symbol@
    &&& a.erc20_tokens@.len() == b.erc20_tokens@.len()
    &&& (forall|i: int|
        0 <= i < a.erc20_tokens@.len() ==> token_eq(
            #[trigger] a.erc20_tokens@[i],
            b.erc20_tokens@[i],
        ))
}

impl Erc20TokenConfig {
    /// An independent copy holding the same data.
    pub fn dup(&self) -> (r: Erc20TokenConfig)
        ensures
            token_eq(r, *self),
    {
        Erc20TokenConfig {
            address: self.address.dup(),
            name: vstd::slice::slice_to_vec(self.name.as_slice()),
            symbol: vstd::slice::slice_to_vec(self.symbol.as_slice()),
        }
    }
}

impl Network {
    /// An independent copy holding the same data.
    pub fn dup(&self) -> (r: Network)
        ensures
            network_eq(r, *self),
    {
        let explorer_url = match &self.explorer_url {
            Some(u) => Some(vstd::slice::slice_to_vec(u.as_slice())),
            None => None,
        };
        let mut erc20_tokens: Vec<Erc20TokenConfig> = Vec::new();
        let mut i: usize = 0;
        while i < self.erc20_tokens.len()
            invariant
                i <= self.erc20_tokens@.len(),
                erc20_tokens@.len() == i,
                forall|j: int|
                    0 <= j < i ==> token_eq(#[trigger] erc20_tokens@[j], self.erc20_tokens@[j]),
            decreases self.erc20_tokens@.len() - i,
        {
            erc20_tokens.push(self.erc20_tokens[i].dup());
            i = i + 1;
        }
        Network {
            rpc_url: vstd::slice::slice_to_vec(self.rpc_url.as_slice()),
            explorer_url,
            chain_id: self.chain_id,
            currency_symbol: vstd::slice::slice_to_vec(self.currency_symbol.as_slice()),
            erc20_tokens,
        }
    }
}

/// The USD Coin (PoS) token on polygon.
fn usdc_token() -> (r: Erc20TokenConfig) {
    let addr_bytes: Vec<u8> = vec![
        0x27u8, 0x91, 0xbc, 0xa1, 0xf2, 0xde, 0x46, 0x61, 0xed, 0x88, 0xa3, 0x0c, 0x99, 0xa7,
        0xa9, 0x44, 0x9a, 0xa8, 0x41, 0x74,
    ];
    Erc20TokenConfig {
        address: Address { bytes: addr_bytes },
        name: vec![0x55u8, 0x53u8, 0x44u8, 0x20u8, 0x43u8, 0x6fu8, 0x69u8, 0x6eu8, 0x20u8, 0x28u8, 0x50u8, 0x6fu8, 0x53u8, 0x29u8],
        symbol: vec![0x55u8, 0x53u8, 0x44u8, 0x43u8],
    }
}

/// The Binance-Peg BUSD token on polygon.
fn busd_token() -> (r: Erc20TokenConfig) {
    let addr_bytes: Vec<u8> = vec![
        0x9cu8, 0x9e, 0x5f, 0xd8, 0xbb, 0xc2, 0x59, 0x84, 0xb1, 0x78, 0xfd, 0xce, 0x61, 0x17,
        0xde, 0xfa, 0x39, 0xd2, 0xdb, 0x39,
    ];
    Erc20TokenConfig {
        address: Address { bytes: addr_bytes },
        name: vec![0x42u8, 0x69u8, 0x6eu8, 0x61u8, 0x6eu8, 0x63u8, 0x65u8, 0x2du8, 0x50u8, 0x65u8, 0x67u8, 0x20u8, 0x42u8, 0x55u8, 0x53u8, 0x44u8, 0x20u8, 0x54u8, 0x6fu8, 0x6bu8, 0x65u8, 0x6eu8],
        symbol: vec![0x42u8, 0x55u8, 0x53u8, 0x44u8],
    }
}

} // verus!
