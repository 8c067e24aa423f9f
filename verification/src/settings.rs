use vstd::prelude::*;
use vstd::string::StringExecFns;

use crate::dummy_witness::WalletType;

verus! {

/// The Bitcoin network a transaction is built for. Addresses must belong
/// to it, and it selects the indexing-service endpoint used for
/// enrichment.
#[derive(Clone, Copy, Debug, PartialEq, Eq, Structural)]
pub enum Network {
    Bitcoin,
    Testnet,
    Signet,
    Regtest,
}

/// A small integer standing for the network in specifications.
pub open spec fn network_code(n: Network) -> int {
    match n {
        Network::Bitcoin => 0,
        Network::Testnet => 1,
        Network::Signet => 2,
        Network::Regtest => 3,
    }
}

/// The indexing-service endpoint consulted when enriching a transaction
/// for signing, one per network.
pub open spec fn esplora_base_url_spec(n: Network) -> Seq<char> {
    match n {
        Network::Bitcoin => "https://taprootwizards.mempool.space/api"@,
        Network::Testnet => "https://mempool.space/testnet/api"@,
        Network::Signet => "https://mempool.space/signet/api"@,
        Network::Regtest => "http:/localhost:6002/api"@,
    }
}

/// The indexing-service endpoint for a network.
pub fn esplora_base_url(n: Network) -> (r: &'static str)
    ensures
        r@ == esplora_base_url_spec(n),
{
    match n {
        Network::Bitcoin => "https://taprootwizards.mempool.space/api",
        Network::Testnet => "https://mempool.space/testnet/api",
        Network::Signet => "https://mempool.space/signet/api",
        Network::Regtest => "http:/localhost:6002/api",
    }
}

/// How inscription identifiers are resolved: a static table loaded from a
/// file, or a remote indexing service, chosen once at configuration time.
pub enum IdResolverConfiguration {
    Static { filename: String },
    OrdServer { url: Option<String> },
}

impl Default for IdResolverConfiguration {
    /// The starting configuration: a static table read from
    /// `inscription_id_map.json`.
    fn default() -> (r: Self)
        ensures
            r matches IdResolverConfiguration::Static { filename } && filename@
                == "inscription_id_map.json"@,
    {
        IdResolverConfiguration::Static {
            filename: String::from_str("inscription_id_map.json"),
        }
    }
}

/// Process-wide settings: the network, the wallet's signing scheme, and
/// the resolver configuration.
pub struct Settings {
    pub network: Network,
    pub wallet_type: WalletType,
    pub id_resolver: IdResolverConfiguration,
}

impl Default for Settings {
    /// The starting settings: regtest, a single-signer taproot wallet,
    /// and the default resolver configuration.
    fn default() -> (r: Self)
        ensures
            r.network == Network::Regtest,
            r.wallet_type == WalletType::SingleSigTaproot,
            r.id_resolver matches IdResolverConfiguration::Static { filename } && filename@
                == "inscription_id_map.json"@,
    {
        Settings {
            network: Network::Regtest,
            wallet_type: WalletType::SingleSigTaproot,
            id_resolver: Default::default(),
        }
    }
}

} // verus!
