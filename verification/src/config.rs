use vstd::prelude::*;

verus! {

/// Connection settings for the two chains: which home network to speak to,
/// the remote chain's RPC endpoint and signing secret, and an optional
/// override for the home chain's RPC route.
pub struct Config {
    pub testnet: bool,
    pub ethereum_rpc: String,
    pub ethereum_secret: String,
    pub themelio_rpc: Option<String>,
    pub themelio_url: String,
}

impl Config {
    /// Bundles the settings, each kept exactly as handed in.
    pub fn new(
        testnet: bool,
        ethereum_rpc: String,
        ethereum_secret: String,
        themelio_rpc: Option<String>,
        themelio_url: String,
    ) -> (r: Config)
        ensures
            r.testnet == testnet,
            r.ethereum_rpc == ethereum_rpc,
            r.ethereum_secret == ethereum_secret,
            r.themelio_rpc == themelio_rpc,
            r.themelio_url == themelio_url,
    {
        Config { testnet, ethereum_rpc, ethereum_secret, themelio_rpc, themelio_url }
    }
}

} // verus!
