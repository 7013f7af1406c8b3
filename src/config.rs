use vstd::prelude::*;

verus! {

/// The RPC address of a locally running sandbox node.
pub const DEFAULT_RPC_ADDRESS: &'static str = "http://localhost:3030";

/// Where the fungible token contract's compiled binary is looked for.
pub const FT_WASM_FILEPATH: &'static str =
    "./contracts/ft/target/wasm32-unknown-unknown/release/fungible_token.wasm";

/// Everything needed to reach a sandbox: built once at start and handed to
/// whatever needs it.
#[derive(Clone, Debug)]
pub struct SandboxConfig {
    pub rpc_address: String,
    /// The sandbox's home directory, which holds the validator key used for
    /// privileged operations.
    pub home_dir: String,
    pub wasm_path: String,
}

impl SandboxConfig {
    /// The configuration of the local sandbox at `home_dir`, with the default
    /// address and contract path.
    pub fn with_home_dir(home_dir: String) -> (r: SandboxConfig)
        ensures
            r.rpc_address@ == DEFAULT_RPC_ADDRESS@,
            r.home_dir == home_dir,
            r.wasm_path@ == FT_WASM_FILEPATH@,
    {
        SandboxConfig {
            rpc_address: DEFAULT_RPC_ADDRESS.to_owned(),
            home_dir,
            wasm_path: FT_WASM_FILEPATH.to_owned(),
        }
    }
}

} // verus!
