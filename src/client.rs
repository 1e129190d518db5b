use vstd::prelude::*;
use vstd::string::StringExecFns;
use vstd::utf8::encode_utf8;

use crate::config::{default_endpoint_config, EndpointConfig};
use crate::error::Error;
use crate::execute::Execution;
use crate::ids::{check_address, is_node_address, AccountId, Timestamp, TransactionId};
use crate::network::{addresses_for, book_names, NetworkData};
use crate::networks::{
    has_builtin_nodes, lemma_builtin_nodes,
    localhost_mirror, localhost_nodes, mainnet_mirror, mainnet_nodes, previewnet_mirror, previewnet_nodes,
    testnet_mirror, testnet_nodes,
};

verus! {

/// Identifies a ledger: one byte for each of the public networks, any bytes for others.
#[derive(Clone, Debug, PartialEq, Eq)]
pub struct LedgerId {
    pub bytes: Vec<u8>,
}

impl LedgerId {
    pub fn mainnet() -> (r: LedgerId)
        ensures
            r.bytes@ == seq![0u8],
    {
        LedgerId { bytes: vec![0u8] }
    }

    pub fn testnet() -> (r: LedgerId)
        ensures
            r.bytes@ == seq![1u8],
    {
        LedgerId { bytes: vec![1u8] }
    }

    pub fn previewnet() -> (r: LedgerId)
        ensures
            r.bytes@ == seq![2u8],
    {
        LedgerId { bytes: vec![2u8] }
    }
}

/// An amount of the ledger's currency, in tinybars.
#[derive(Clone, Copy, Debug, PartialEq, Eq, Structural)]
pub struct Hbar {
    pub tinybars: i64,
}

impl Hbar {
    pub fn from_tinybars(tinybars: i64) -> (r: Hbar)
        ensures
            r.tinybars == tinybars,
    {
        Hbar { tinybars }
    }

    pub fn to_tinybars(&self) -> (r: i64)
        ensures
            r == self.tinybars,
    {
        self.tinybars
    }
}

/// The account that pays for requests by default, and the public key it signs with.
#[derive(Clone, Debug)]
pub struct Operator {
    pub account_id: AccountId,
    pub public_key: Vec<u8>,
}

/// Retry settings of each execute call. Durations are in milliseconds.
#[derive(Clone, Copy, Debug, PartialEq, Eq, Structural)]
pub struct ClientBackoff {
    pub max_backoff: u64,
    /// The first (and least) wait between rounds.
    pub initial_backoff: u64,
    pub max_attempts: usize,
    pub request_timeout: Option<u64>,
    pub grpc_timeout: Option<u64>,
}

impl Default for ClientBackoff {
    /// A quarter second up to eight seconds between rounds, ten rounds, no time limits.
    fn default() -> (r: ClientBackoff)
        ensures
            r == (ClientBackoff {
                max_backoff: 8_000,
                initial_backoff: 250,
                max_attempts: 10,
                request_timeout: None,
                grpc_timeout: None,
            }),
    {
        ClientBackoff { max_backoff: 8_000, initial_backoff: 250, max_attempts: 10, request_timeout: None, grpc_timeout: None }
    }
}

/// The public networks known by name.
#[derive(Clone, Copy, Debug, PartialEq, Eq, Structural)]
pub enum NetworkName {
    Mainnet,
    Testnet,
    Previewnet,
}

/// Where a client's nodes come from: a public network, or explicit addresses.
#[derive(Clone, Debug)]
pub enum ManagedNetworkBuilder {
    Mainnet,
    Testnet,
    Previewnet,
    Addresses(Vec<(String, AccountId)>),
}

/// `address` is a node address `host:port`.
pub open spec fn address_ok(address: String) -> bool {
    is_node_address(encode_utf8(address@))
}

/// Every address of `book` is a node address.
pub open spec fn book_ok(book: Seq<(String, AccountId)>) -> bool {
    forall|k: int| 0 <= k < book.len() ==> address_ok(#[trigger] book[k].0)
}

/// Whether every address of `book` is a node address.
pub fn check_book(book: &Vec<(String, AccountId)>) -> (r: bool)
    ensures
        r == book_ok(book@),
{
    let mut k: usize = 0;
    while k < book.len()
        invariant
            k <= book@.len(),
            forall|j: int| 0 <= j < k ==> address_ok(#[trigger] book@[j].0),
        decreases book@.len() - k,
    {
        if !check_address(book[k].0.as_str()) {
            return false;
        }
        k += 1;
    }
    true
}

/// How often the address book is refreshed by default: once a day, in milliseconds.
pub const DEFAULT_NETWORK_UPDATE_PERIOD: u64 = 86_400_000;

/// `b` holds the builder defaults in every field but its network and ledger id: no
/// connection settings, operator or fee limits, no checksum validation, transaction ids
/// regenerated, the address book refreshed, and the default backoff.
pub open spec fn builder_defaults(b: ClientBuilder) -> bool {
    &&& b.endpoint_config.is_none()
    &&& b.operator.is_none()
    &&& b.max_transaction_fee.is_none()
    &&& b.max_query_payment.is_none()
    &&& !b.auto_validate_checksums
    &&& b.regenerate_transaction_ids
    &&& b.update_network
    &&& b.backoff == default_backoff()
}

/// A quarter second up to eight seconds between rounds, ten rounds, no time limits.
pub open spec fn default_backoff() -> ClientBackoff {
    ClientBackoff { max_backoff: 8_000, initial_backoff: 250, max_attempts: 10, request_timeout: None, grpc_timeout: None }
}

/// `c` holds the default settings: unlimited fees, no checksum validation, transaction
/// ids regenerated, the default backoff, and a node backoff of a quarter second up to
/// eight seconds with no removal of failing nodes.
pub open spec fn settings_defaults(c: Client) -> bool {
    &&& c.max_transaction_fee_tinybar == 0
    &&& c.max_query_payment_tinybar == 0
    &&& !c.auto_validate_checksums
    &&& c.regenerate_transaction_ids
    &&& c.backoff == default_backoff()
    &&& c.network.min_backoff == 250 && c.network.max_backoff == 8_000
    &&& c.network.max_node_attempts.is_none()
}

/// The ledger id bytes of the public network `name`.
pub open spec fn ledger_bytes(name: NetworkName) -> Seq<u8> {
    match name {
        NetworkName::Mainnet => seq![0u8],
        NetworkName::Testnet => seq![1u8],
        NetworkName::Previewnet => seq![2u8],
    }
}

/// The mirror-node address of the public network `name`.
pub open spec fn mirror_address(name: NetworkName) -> Seq<char> {
    match name {
        NetworkName::Mainnet => "mainnet-public.mirrornode.hedera.com:443"@,
        NetworkName::Testnet => "testnet.mirrornode.hedera.com:443"@,
        NetworkName::Previewnet => "previewnet.mirrornode.hedera.com:443"@,
    }
}

/// `c` is a new client of the public network `name`: its built-in nodes, ledger id and
/// mirror, a daily address-book refresh, default connection settings, no operator and the
/// default settings.
pub open spec fn named_client(c: Client, name: NetworkName) -> bool {
    &&& c.wf()
    &&& settings_defaults(c)
    &&& c.operator.is_none()
    &&& c.endpoint_config == default_endpoint_config()
    &&& has_builtin_nodes(c.network, name)
    &&& c.ledger_id.is_some() && c.ledger_id.unwrap().bytes@ == ledger_bytes(name)
    &&& c.mirror_network@.len() == 1 && c.mirror_network@[0]@ == mirror_address(name)
    &&& c.network_update_period == Some(DEFAULT_NETWORK_UPDATE_PERIOD)
}

/// `c` has one node per account of `book`, with that account's addresses, fresh health,
/// no ledger id, no mirror and no address-book refresh.
pub open spec fn book_network(c: Client, book: Seq<(String, AccountId)>) -> bool {
    &&& c.wf()
    &&& forall|id: AccountId| c.network.knows(id) <==> book_names(book, id)
    &&& forall|i: int| 0 <= i < c.network.nodes@.len() ==> (#[trigger] c.network.nodes@[i]).addresses@
        == addresses_for(book, c.network.nodes@[i].account_id)
        && c.network.nodes@[i].unhealthy_until == 0 && c.network.nodes@[i].bad_count == 0
    &&& c.ledger_id.is_none()
    &&& c.mirror_network@.len() == 0
    &&& c.network_update_period.is_none()
}

/// Builder of a [`Client`]: where its nodes come from and its initial settings.
#[derive(Clone, Debug)]
pub struct ClientBuilder {
    pub endpoint_config: Option<EndpointConfig>,
    pub network: ManagedNetworkBuilder,
    pub operator: Option<Operator>,
    /// Tinybars; `None` is unlimited.
    pub max_transaction_fee: Option<u64>,
    /// Tinybars; `None` is unlimited.
    pub max_query_payment: Option<u64>,
    pub ledger_id: Option<LedgerId>,
    pub auto_validate_checksums: bool,
    pub regenerate_transaction_ids: bool,
    pub update_network: bool,
    pub backoff: ClientBackoff,
}

impl ClientBuilder {
    /// Defaults for a client of `network`: no operator, unlimited fees, no ledger id,
    /// no checksum validation, transaction ids regenerated, the address book refreshed,
    /// and the default backoff.
    pub fn new(network: ManagedNetworkBuilder) -> (r: ClientBuilder)
        ensures
            builder_defaults(r),
            r.network == network,
            r.ledger_id.is_none(),
    {
        ClientBuilder {
            endpoint_config: None,
            network,
            operator: None,
            max_transaction_fee: None,
            max_query_payment: None,
            ledger_id: None,
            auto_validate_checksums: false,
            regenerate_transaction_ids: true,
            update_network: true,
            backoff: ClientBackoff::default(),
        }
    }

    /// Defaults for a mainnet client.
    pub fn for_mainnet() -> (r: ClientBuilder)
        ensures
            builder_defaults(r),
            r.network is Mainnet,
            r.ledger_id.is_some() && r.ledger_id.unwrap().bytes@ == seq![0u8],
    {
        ClientBuilder::new(ManagedNetworkBuilder::Mainnet).ledger_id(Some(LedgerId::mainnet()))
    }

    /// Defaults for a previewnet client.
    pub fn for_previewnet() -> (r: ClientBuilder)
        ensures
            builder_defaults(r),
            r.network is Previewnet,
            r.ledger_id.is_some() && r.ledger_id.unwrap().bytes@ == seq![2u8],
    {
        ClientBuilder::new(ManagedNetworkBuilder::Previewnet).ledger_id(Some(LedgerId::previewnet()))
    }

    /// Defaults for a testnet client.
    pub fn for_testnet() -> (r: ClientBuilder)
        ensures
            builder_defaults(r),
            r.network is Testnet,
            r.ledger_id.is_some() && r.ledger_id.unwrap().bytes@ == seq![1u8],
    {
        ClientBuilder::new(ManagedNetworkBuilder::Testnet).ledger_id(Some(LedgerId::testnet()))
    }

    /// Sets non-default connection settings.
    pub fn endpoint_config(self, endpoint_config: EndpointConfig) -> (r: ClientBuilder)
        ensures
            r == (ClientBuilder { endpoint_config: Some(endpoint_config), ..self }),
    {
        ClientBuilder { endpoint_config: Some(endpoint_config), ..self }
    }

    /// Turns off the periodic address-book refresh.
    pub fn disable_network_updating(self) -> (r: ClientBuilder)
        ensures
            r == (ClientBuilder { update_network: false, ..self }),
    {
        ClientBuilder { update_network: false, ..self }
    }

    pub fn ledger_id(self, ledger_id: Option<LedgerId>) -> (r: ClientBuilder)
        ensures
            r == (ClientBuilder { ledger_id, ..self }),
    {
        ClientBuilder { ledger_id, ..self }
    }

    /// Builds the client: its nodes from the source's address book (fresh health, the
    /// default node backoff), the mirror network of a public source, the default
    /// connection settings unless others were set, and a daily address-book refresh
    /// unless turned off.
    pub fn build(self) -> (r: Result<Client, Error>)
        ensures
            r.is_ok(),
            ({
                let c = r.unwrap();
                &&& c.network.wf()
                &&& c.network.max_node_attempts.is_none()
                &&& c.network.min_backoff == 250 && c.network.max_backoff == 8_000
                &&& c.endpoint_config == match self.endpoint_config { Some(e) => e, None => default_endpoint_config() }
                &&& c.operator == self.operator
                &&& c.max_transaction_fee_tinybar == match self.max_transaction_fee { Some(v) => v, None => 0 }
                &&& c.max_query_payment_tinybar == match self.max_query_payment { Some(v) => v, None => 0 }
                &&& c.ledger_id == self.ledger_id
                &&& c.auto_validate_checksums == self.auto_validate_checksums
                &&& c.regenerate_transaction_ids == self.regenerate_transaction_ids
                &&& c.backoff == self.backoff
                &&& c.network_update_period == if self.update_network { Some(DEFAULT_NETWORK_UPDATE_PERIOD) } else { None }
                &&& match self.network {
                    ManagedNetworkBuilder::Addresses(book) => {
                        &&& forall|id: AccountId| c.network.knows(id) <==> book_names(book@, id)
                        &&& forall|i: int| 0 <= i < c.network.nodes@.len() ==> (#[trigger] c.network.nodes@[i]).addresses@
                            == addresses_for(book@, c.network.nodes@[i].account_id)
                            && c.network.nodes@[i].unhealthy_until == 0 && c.network.nodes@[i].bad_count == 0
                        &&& c.mirror_network@.len() == 0
                    },
                    ManagedNetworkBuilder::Mainnet => has_builtin_nodes(c.network, NetworkName::Mainnet) && c.mirror_network@.len() == 1 && c.mirror_network@[0]@ == "mainnet-public.mirrornode.hedera.com:443"@,
                    ManagedNetworkBuilder::Testnet => has_builtin_nodes(c.network, NetworkName::Testnet) && c.mirror_network@.len() == 1 && c.mirror_network@[0]@ == "testnet.mirrornode.hedera.com:443"@,
                    ManagedNetworkBuilder::Previewnet => has_builtin_nodes(c.network, NetworkName::Previewnet) && c.mirror_network@.len() == 1 && c.mirror_network@[0]@ == "previewnet.mirrornode.hedera.com:443"@,
                }
            }),
    {
        let endpoint_config = match self.endpoint_config {
            Some(e) => e,
            None => EndpointConfig::new(),
        };
        let ghost source = self.network;
        let (book, mirror) = match self.network {
            ManagedNetworkBuilder::Mainnet => (mainnet_nodes(), mainnet_mirror()),
            ManagedNetworkBuilder::Testnet => (testnet_nodes(), testnet_mirror()),
            ManagedNetworkBuilder::Previewnet => (previewnet_nodes(), previewnet_mirror()),
            ManagedNetworkBuilder::Addresses(book) => (book, Vec::new()),
        };
        let network = NetworkData::from_addresses(&book, 250, 8_000);
        proof {
            match source {
                ManagedNetworkBuilder::Mainnet => lemma_builtin_nodes(network, book@, NetworkName::Mainnet),
                ManagedNetworkBuilder::Testnet => lemma_builtin_nodes(network, book@, NetworkName::Testnet),
                ManagedNetworkBuilder::Previewnet => lemma_builtin_nodes(network, book@, NetworkName::Previewnet),
                ManagedNetworkBuilder::Addresses(_) => {},
            }
        }
        Ok(Client {
            network,
            mirror_network: mirror,
            endpoint_config,
            operator: self.operator,
            max_transaction_fee_tinybar: match self.max_transaction_fee {
                Some(v) => v,
                None => 0,
            },
            max_query_payment_tinybar: match self.max_query_payment {
                Some(v) => v,
                None => 0,
            },
            ledger_id: self.ledger_id,
            auto_validate_checksums: self.auto_validate_checksums,
            regenerate_transaction_ids: self.regenerate_transaction_ids,
            backoff: self.backoff,
            network_update_period: if self.update_network { Some(DEFAULT_NETWORK_UPDATE_PERIOD) } else { None },
        })
    }
}

/// The client's state: its network snapshot, mirror network, operator, default fees,
/// ledger id and retry settings. Durations are in milliseconds.
#[derive(Clone, Debug)]
pub struct Client {
    pub network: NetworkData,
    pub mirror_network: Vec<String>,
    pub endpoint_config: EndpointConfig,
    pub operator: Option<Operator>,
    /// Tinybars; zero is unlimited.
    pub max_transaction_fee_tinybar: u64,
    /// Tinybars; zero is unlimited.
    pub max_query_payment_tinybar: u64,
    pub ledger_id: Option<LedgerId>,
    pub auto_validate_checksums: bool,
    pub regenerate_transaction_ids: bool,
    pub backoff: ClientBackoff,
    pub network_update_period: Option<u64>,
}

/// The network part of a client configuration: explicit addresses, or a public network.
#[derive(Clone, Debug)]
pub enum ConfigNetwork {
    Addresses(Vec<(String, AccountId)>),
    Name(NetworkName),
}

/// The mirror part of a client configuration: explicit addresses, or a public network.
#[derive(Clone, Debug)]
pub enum ConfigMirror {
    Addresses(Vec<String>),
    Name(NetworkName),
}

/// A client configuration, as read from its textual form.
#[derive(Clone, Debug)]
pub struct ClientConfig {
    pub operator: Option<Operator>,
    pub network: ConfigNetwork,
    pub mirror_network: Option<ConfigMirror>,
}

impl Client {
    pub open spec fn wf(self) -> bool {
        self.network.wf()
    }

    /// A client of the nodes in `network`, with the address-book refresh turned off.
    pub fn for_network(network: Vec<(String, AccountId)>) -> (r: Result<Client, Error>)
        ensures
            r.is_ok(),
            book_network(r.unwrap(), network@),
            settings_defaults(r.unwrap()),
            r.unwrap().operator.is_none(),
            r.unwrap().endpoint_config == default_endpoint_config(),
    {
        ClientBuilder::new(ManagedNetworkBuilder::Addresses(network)).disable_network_updating().build()
    }

    /// As [`Client::for_network`], with the connection settings `config`.
    pub fn for_endpoints(config: EndpointConfig, network: Vec<(String, AccountId)>) -> (r: Result<Client, Error>)
        ensures
            r.is_ok(),
            book_network(r.unwrap(), network@),
            settings_defaults(r.unwrap()),
            r.unwrap().operator.is_none(),
            r.unwrap().endpoint_config == config,
    {
        ClientBuilder::new(ManagedNetworkBuilder::Addresses(network)).endpoint_config(config).disable_network_updating().build()
    }

    /// A client of mainnet.
    pub fn for_mainnet() -> (r: Result<Client, Error>)
        ensures
            r.is_ok(),
            named_client(r.unwrap(), NetworkName::Mainnet),
    {
        ClientBuilder::for_mainnet().build()
    }

    /// A client of testnet.
    pub fn for_testnet() -> (r: Result<Client, Error>)
        ensures
            r.is_ok(),
            named_client(r.unwrap(), NetworkName::Testnet),
    {
        ClientBuilder::for_testnet().build()
    }

    /// A client of previewnet.
    pub fn for_previewnet() -> (r: Result<Client, Error>)
        ensures
            r.is_ok(),
            named_client(r.unwrap(), NetworkName::Previewnet),
    {
        ClientBuilder::for_previewnet().build()
    }

    /// A client of the network called `name`: `mainnet`, `testnet`, `previewnet`, or
    /// `localhost` (one node, `127.0.0.1:50211` serving `0.0.3`, mirror at
    /// `127.0.0.1:5600`). Any other name is a `BasicParse` error.
    pub fn for_name(name: &str) -> (r: Result<Client, Error>)
        ensures
            name@ == "mainnet"@ ==> r.is_ok() && named_client(r.unwrap(), NetworkName::Mainnet),
            name@ == "testnet"@ ==> r.is_ok() && named_client(r.unwrap(), NetworkName::Testnet),
            name@ == "previewnet"@ ==> r.is_ok() && named_client(r.unwrap(), NetworkName::Previewnet),
            name@ == "localhost"@ ==> {
                &&& r.is_ok()
                &&& r.unwrap().network.nodes@.len() == 1
                &&& r.unwrap().network.nodes@[0].account_id == (AccountId { shard: 0, realm: 0, num: 3 })
                &&& r.unwrap().network.nodes@[0].addresses@.len() == 1
                &&& r.unwrap().network.nodes@[0].addresses@[0]@ == "127.0.0.1:50211"@
                &&& r.unwrap().mirror_network@.len() == 1
                &&& r.unwrap().mirror_network@[0]@ == "127.0.0.1:5600"@
                &&& r.unwrap().network_update_period.is_none()
                &&& r.unwrap().ledger_id.is_none()
                &&& r.unwrap().operator.is_none()
                &&& settings_defaults(r.unwrap())
            },
            name@ != "mainnet"@ && name@ != "testnet"@ && name@ != "previewnet"@ && name@ != "localhost"@
                ==> match r {
                    Err(Error::BasicParse(m)) => m@ == "Unknown network name "@ + name@,
                    _ => false,
                },
            r.is_ok() ==> r.unwrap().wf(),
    {
        proof {
            reveal_strlit("mainnet");
            reveal_strlit("testnet");
            reveal_strlit("previewnet");
            reveal_strlit("localhost");
            assert("testnet"@[0] != "mainnet"@[0]);
            assert("previewnet"@.len() != "mainnet"@.len());
            assert("previewnet"@.len() != "testnet"@.len());
            assert("localhost"@.len() != "mainnet"@.len());
            assert("localhost"@.len() != "testnet"@.len());
            assert("localhost"@.len() != "previewnet"@.len());
        }
        let given = name.to_owned();
        if given == "mainnet".to_owned() {
            Client::for_mainnet()
        } else if given == "testnet".to_owned() {
            Client::for_testnet()
        } else if given == "previewnet".to_owned() {
            Client::for_previewnet()
        } else if given == "localhost".to_owned() {
            let book = localhost_nodes();
            let mut client = match Client::for_network(book) {
                Ok(c) => c,
                Err(e) => {
                    return Err(e);
                },
            };
            proof {
                let c = client;
                assert(book_names(book@, book@[0].1)) by {
                    assert(book@[0].1 == book@[0].1);
                }
                assert(c.network.knows(book@[0].1));
                assert(c.network.nodes@.len() == 1) by {
                    assert forall|i: int| 0 <= i < c.network.nodes@.len() implies #[trigger] c.network.nodes@[i].account_id == book@[0].1 by {
                        assert(c.network.knows(c.network.nodes@[i].account_id));
                        assert(book_names(book@, c.network.nodes@[i].account_id));
                    }
                    if c.network.nodes@.len() > 1 {
                        assert(c.network.nodes@[0].account_id != c.network.nodes@[1].account_id);
                    }
                }
                assert(book@.drop_last() =~= Seq::<(String, AccountId)>::empty());
                let id = book@[0].1;
                assert(book@.drop_last() =~= Seq::<(String, AccountId)>::empty());
                assert(addresses_for(book@.drop_last(), id) =~= Seq::<String>::empty());
                assert(book@.last() == book@[0]);
                assert(addresses_for(book@, id) =~= seq![book@[0].0]);
                assert(c.network.nodes@[0].addresses@ == addresses_for(book@, c.network.nodes@[0].account_id));
            }
            client.set_mirror_network(localhost_mirror());
            Ok(client)
        } else {
            let message = <String as StringExecFns>::from_str("Unknown network name ").concat(name);
            Err(Error::BasicParse(message))
        }
    }

    /// A client as described by `config`: its network, its mirror network when given,
    /// and its operator when given.
    pub fn from_config_data(config: ClientConfig) -> (r: Result<Client, Error>)
        ensures
            r.is_ok(),
            r.unwrap().wf(),
            settings_defaults(r.unwrap()),
            r.unwrap().endpoint_config == default_endpoint_config(),
            r.unwrap().operator == config.operator,
            match config.network {
                ConfigNetwork::Addresses(book) => {
                    &&& forall|id: AccountId| r.unwrap().network.knows(id) <==> book_names(book@, id)
                    &&& forall|i: int| 0 <= i < r.unwrap().network.nodes@.len() ==> (#[trigger] r.unwrap().network.nodes@[i]).addresses@
                        == addresses_for(book@, r.unwrap().network.nodes@[i].account_id)
                    &&& r.unwrap().ledger_id.is_none()
                    &&& r.unwrap().network_update_period.is_none()
                },
                ConfigNetwork::Name(name) => {
                    &&& has_builtin_nodes(r.unwrap().network, name)
                    &&& r.unwrap().ledger_id.is_some() && r.unwrap().ledger_id.unwrap().bytes@ == ledger_bytes(name)
                    &&& r.unwrap().network_update_period == Some(DEFAULT_NETWORK_UPDATE_PERIOD)
                },
            },
            match config.mirror_network {
                Some(ConfigMirror::Addresses(v)) => r.unwrap().mirror_network == v,
                Some(ConfigMirror::Name(name)) => r.unwrap().mirror_network@.len() == 1
                    && r.unwrap().mirror_network@[0]@ == mirror_address(name),
                None => match config.network {
                    ConfigNetwork::Addresses(_) => r.unwrap().mirror_network@.len() == 0,
                    ConfigNetwork::Name(name) => r.unwrap().mirror_network@.len() == 1
                        && r.unwrap().mirror_network@[0]@ == mirror_address(name),
                },
            },
    {
        let mut client = match config.network {
            ConfigNetwork::Addresses(book) => Client::for_network(book),
            ConfigNetwork::Name(NetworkName::Mainnet) => Client::for_mainnet(),
            ConfigNetwork::Name(NetworkName::Testnet) => Client::for_testnet(),
            ConfigNetwork::Name(NetworkName::Previewnet) => Client::for_previewnet(),
        }.unwrap();
        match config.mirror_network {
            Some(ConfigMirror::Addresses(v)) => client.set_mirror_network(v),
            Some(ConfigMirror::Name(NetworkName::Mainnet)) => client.set_mirror_network(mainnet_mirror()),
            Some(ConfigMirror::Name(NetworkName::Testnet)) => client.set_mirror_network(testnet_mirror()),
            Some(ConfigMirror::Name(NetworkName::Previewnet)) => client.set_mirror_network(previewnet_mirror()),
            None => {},
        }
        client.operator = config.operator;
        Ok(client)
    }

    /// The mirror-node addresses.
    pub fn mirror_network(&self) -> (r: Vec<String>)
        ensures
            r@ == self.mirror_network@,
    {
        let r = self.mirror_network.clone();
        assert(r@ =~= self.mirror_network@);
        r
    }

    pub fn set_mirror_network(&mut self, addresses: Vec<String>)
        ensures
            *final(self) == (Client { mirror_network: addresses, ..*old(self) }),
    {
        self.mirror_network = addresses;
    }

    /// Replaces the nodes by those of `network`; nodes that stay keep their health.
    ///
    /// Fails with `BasicParse`, changing nothing, when an address is not `host:port`.
    pub fn set_network(&mut self, network: Vec<(String, AccountId)>) -> (r: Result<(), Error>)
        requires
            old(self).wf(),
        ensures
            r.is_ok() <==> book_ok(network@),
            r.is_err() ==> *final(self) == *old(self) && r.unwrap_err() is BasicParse,
            final(self).wf(),
            r.is_ok() ==> {
                &&& *final(self) == (Client { network: final(self).network, ..*old(self) })
                &&& final(self).network.min_backoff == old(self).network.min_backoff
                &&& final(self).network.max_backoff == old(self).network.max_backoff
                &&& final(self).network.max_node_attempts == old(self).network.max_node_attempts
                &&& forall|id: AccountId| final(self).network.knows(id) <==> book_names(network@, id)
                &&& forall|i: int| 0 <= i < final(self).network.nodes@.len()
                    ==> (#[trigger] final(self).network.nodes@[i]).addresses@
                        == addresses_for(network@, final(self).network.nodes@[i].account_id)
                &&& forall|i: int, j: int| 0 <= i < final(self).network.nodes@.len()
                    && #[trigger] old(self).network.index_of_id(j, final(self).network.nodes@[i].account_id)
                    ==> final(self).network.nodes@[i].unhealthy_until == old(self).network.nodes@[j].unhealthy_until
                        && final(self).network.nodes@[i].bad_count == old(self).network.nodes@[j].bad_count
                        && final(self).network.nodes@[i].current_backoff == old(self).network.nodes@[j].current_backoff
                &&& forall|i: int| 0 <= i < final(self).network.nodes@.len()
                    && !old(self).network.knows(#[trigger] final(self).network.nodes@[i].account_id)
                    ==> final(self).network.nodes@[i].unhealthy_until == 0 && final(self).network.nodes@[i].bad_count == 0
                        && final(self).network.nodes@[i].current_backoff == old(self).network.min_backoff
            },
    {
        if !check_book(&network) {
            return Err(Error::BasicParse("invalid node address: expected `host:port`".to_owned()));
        }
        self.network = self.network.update_from_addresses(&network);
        Ok(())
    }

    /// Every node address with its account id.
    pub fn network(&self) -> (r: Vec<(String, AccountId)>)
        ensures
            forall|k: int| 0 <= k < r@.len() ==> self.network.lists(#[trigger] r@[k]),
            forall|i: int, a: int| 0 <= i < self.network.nodes@.len() && 0 <= a < self.network.nodes@[i].addresses@.len()
                ==> r@.contains((#[trigger] self.network.nodes@[i].addresses@[a], self.network.nodes@[i].account_id)),
    {
        self.network.addresses()
    }

    pub fn max_node_attempts(&self) -> (r: Option<usize>)
        ensures
            r == self.network.max_node_attempts,
    {
        self.network.max_node_attempts
    }

    /// Sets how many bad outcomes in a row remove a node; zero means never.
    pub fn set_max_node_attempts(&mut self, attempts: usize)
        requires
            old(self).wf(),
        ensures
            final(self).wf(),
            final(self).network.max_node_attempts == if attempts == 0 { None } else { Some(attempts) },
            final(self).network.nodes == old(self).network.nodes,
    {
        self.network.max_node_attempts = if attempts == 0 { None } else { Some(attempts) };
    }

    pub fn max_node_backoff(&self) -> (r: u64)
        ensures
            r == self.network.max_backoff,
    {
        self.network.max_backoff
    }

    pub fn set_max_node_backoff(&mut self, max_node_backoff: u64)
        requires
            old(self).wf(),
        ensures
            final(self).wf(),
            final(self).network.max_backoff == max_node_backoff,
            final(self).network.min_backoff == old(self).network.min_backoff,
            final(self).network.nodes == old(self).network.nodes,
    {
        self.network.max_backoff = max_node_backoff;
    }

    pub fn min_node_backoff(&self) -> (r: u64)
        ensures
            r == self.network.min_backoff,
    {
        self.network.min_backoff
    }

    pub fn set_min_node_backoff(&mut self, min_node_backoff: u64)
        requires
            old(self).wf(),
        ensures
            final(self).wf(),
            final(self).network.min_backoff == min_node_backoff,
            final(self).network.max_backoff == old(self).network.max_backoff,
            final(self).network.nodes == old(self).network.nodes,
    {
        self.network.min_backoff = min_node_backoff;
    }

    pub fn ledger_id(&self) -> (r: &Option<LedgerId>)
        ensures
            *r == self.ledger_id,
    {
        &self.ledger_id
    }

    pub fn set_ledger_id(&mut self, ledger_id: Option<LedgerId>)
        ensures
            *final(self) == (Client { ledger_id, ..*old(self) }),
    {
        self.ledger_id = ledger_id;
    }

    pub fn auto_validate_checksums(&self) -> (r: bool)
        ensures
            r == self.auto_validate_checksums,
    {
        self.auto_validate_checksums
    }

    pub fn set_auto_validate_checksums(&mut self, value: bool)
        ensures
            *final(self) == (Client { auto_validate_checksums: value, ..*old(self) }),
    {
        self.auto_validate_checksums = value;
    }

    /// Whether expired transaction ids generated by an execute call are replaced.
    pub fn default_regenerate_transaction_id(&self) -> (r: bool)
        ensures
            r == self.regenerate_transaction_ids,
    {
        self.regenerate_transaction_ids
    }

    pub fn set_default_regenerate_transaction_id(&mut self, value: bool)
        ensures
            *final(self) == (Client { regenerate_transaction_ids: value, ..*old(self) }),
    {
        self.regenerate_transaction_ids = value;
    }

    /// Sets the account that pays by default, and the public key it signs with.
    pub fn set_operator(&mut self, id: AccountId, public_key: Vec<u8>)
        ensures
            *final(self) == (Client { operator: Some(Operator { account_id: id, public_key }), ..*old(self) }),
    {
        self.operator = Some(Operator { account_id: id, public_key });
    }

    pub fn get_operator_account_id(&self) -> (r: Option<AccountId>)
        ensures
            r == match self.operator { Some(o) => Some(o.account_id), None => None },
    {
        match &self.operator {
            Some(o) => Some(o.account_id),
            None => None,
        }
    }

    pub fn get_operator_public_key(&self) -> (r: Option<Vec<u8>>)
        ensures
            r.is_some() == self.operator.is_some(),
            r.is_some() ==> r.unwrap()@ == self.operator.unwrap().public_key@,
    {
        match &self.operator {
            Some(o) => {
                let key = o.public_key.clone();
                assert(key@ =~= o.public_key@);
                Some(key)
            },
            None => None,
        }
    }

    /// Sets the default maximum transaction fee; zero is unlimited.
    pub fn set_default_max_transaction_fee(&mut self, amount: Hbar)
        requires
            amount.tinybars >= 0,
        ensures
            *final(self) == (Client { max_transaction_fee_tinybar: amount.tinybars as u64, ..*old(self) }),
    {
        self.max_transaction_fee_tinybar = amount.tinybars as u64;
    }

    /// The default maximum transaction fee, or `None` when unlimited.
    pub fn default_max_transaction_fee(&self) -> (r: Option<Hbar>)
        ensures
            r == if self.max_transaction_fee_tinybar == 0 { None } else {
                Some(Hbar { tinybars: self.max_transaction_fee_tinybar as i64 })
            },
    {
        let val = self.max_transaction_fee_tinybar;
        if val > 0 { Some(Hbar::from_tinybars(val as i64)) } else { None }
    }

    /// The default maximum query payment, or `None` when unlimited.
    pub fn default_max_query_payment(&self) -> (r: Option<Hbar>)
        ensures
            r == if self.max_query_payment_tinybar == 0 { None } else {
                Some(Hbar { tinybars: self.max_query_payment_tinybar as i64 })
            },
    {
        let val = self.max_query_payment_tinybar;
        if val > 0 { Some(Hbar::from_tinybars(val as i64)) } else { None }
    }

    /// Sets the default maximum query payment; zero is unlimited.
    pub fn set_default_max_query_payment(&mut self, amount: Hbar)
        requires
            amount.tinybars >= 0,
        ensures
            *final(self) == (Client { max_query_payment_tinybar: amount.tinybars as u64, ..*old(self) }),
    {
        self.max_query_payment_tinybar = amount.tinybars as u64;
    }

    pub fn request_timeout(&self) -> (r: Option<u64>)
        ensures
            r == self.backoff.request_timeout,
    {
        self.backoff.request_timeout
    }

    pub fn set_request_timeout(&mut self, timeout: Option<u64>)
        ensures
            *final(self) == (Client { backoff: ClientBackoff { request_timeout: timeout, ..old(self).backoff }, ..*old(self) }),
    {
        self.backoff.request_timeout = timeout;
    }

    pub fn max_attempts(&self) -> (r: usize)
        ensures
            r == self.backoff.max_attempts,
    {
        self.backoff.max_attempts
    }

    pub fn set_max_attempts(&mut self, max_attempts: usize)
        ensures
            *final(self) == (Client { backoff: ClientBackoff { max_attempts, ..old(self).backoff }, ..*old(self) }),
    {
        self.backoff.max_attempts = max_attempts;
    }

    /// The first wait between rounds of an execute call.
    pub fn min_backoff(&self) -> (r: u64)
        ensures
            r == self.backoff.initial_backoff,
    {
        self.backoff.initial_backoff
    }

    pub fn set_min_backoff(&mut self, min_backoff: u64)
        ensures
            *final(self) == (Client { backoff: ClientBackoff { initial_backoff: min_backoff, ..old(self).backoff }, ..*old(self) }),
    {
        self.backoff.initial_backoff = min_backoff;
    }

    /// The longest wait between rounds of an execute call.
    pub fn max_backoff(&self) -> (r: u64)
        ensures
            r == self.backoff.max_backoff,
    {
        self.backoff.max_backoff
    }

    pub fn set_max_backoff(&mut self, max_backoff: u64)
        ensures
            *final(self) == (Client { backoff: ClientBackoff { max_backoff, ..old(self).backoff }, ..*old(self) }),
    {
        self.backoff.max_backoff = max_backoff;
    }

    pub fn backoff(&self) -> (r: ClientBackoff)
        ensures
            r == self.backoff,
    {
        self.backoff
    }

    /// How often the address book is refreshed, if at all.
    pub fn network_update_period(&self) -> (r: Option<u64>)
        ensures
            r == self.network_update_period,
    {
        self.network_update_period
    }

    pub fn set_network_update_period(&mut self, period: Option<u64>)
        ensures
            *final(self) == (Client { network_update_period: period, ..*old(self) }),
    {
        self.network_update_period = period;
    }

    /// A transaction id for the operator, valid from `now`, if there is an operator.
    pub fn generate_transaction_id(&self, now: Timestamp) -> (r: Option<TransactionId>)
        ensures
            r == match self.operator {
                Some(o) => Some(TransactionId { account_id: o.account_id, valid_start: now, scheduled: false, nonce: None }),
                None => None,
            },
    {
        match &self.operator {
            Some(o) => Some(TransactionId::with_valid_start(o.account_id, now)),
            None => None,
        }
    }

    /// Starts an execute call with this client's operator, attempt limit and
    /// regeneration setting.
    pub fn start_execution(
        &self,
        requires_transaction_id: bool,
        explicit_transaction_id: Option<TransactionId>,
        explicit_nodes: Option<Vec<AccountId>>,
        now: Timestamp,
    ) -> (r: Result<Execution, Error>)
        requires
            now.wf(),
            explicit_transaction_id.is_some() ==> explicit_transaction_id.unwrap().valid_start.wf(),
        ensures
            r.is_err() <==> requires_transaction_id && explicit_transaction_id.is_none() && self.operator.is_none(),
            r.is_ok() ==> {
                let e = r.unwrap();
                &&& e.wf() && e.ready() && e.attempt == 0
                &&& e.max_attempts == self.backoff.max_attempts
                &&& e.regenerate_transaction_ids == self.regenerate_transaction_ids
                &&& e.explicit_nodes == explicit_nodes
                &&& e.transaction_id == if !requires_transaction_id {
                    None
                } else if explicit_transaction_id.is_some() {
                    explicit_transaction_id
                } else {
                    Some(TransactionId { account_id: self.operator.unwrap().account_id, valid_start: now, scheduled: false, nonce: None })
                }
            },
    {
        let operator = match &self.operator {
            Some(o) => Some(o.account_id),
            None => None,
        };
        Execution::new(
            requires_transaction_id,
            explicit_transaction_id,
            operator,
            explicit_nodes,
            self.backoff.max_attempts,
            self.regenerate_transaction_ids,
            now,
        )
    }
}

} // verus!
