//! The configuration layer: values read once from the configuration file.
use vstd::prelude::*;

verus! {

/// Where the configuration file lives unless another path is given.
pub const CONFIG_PATH: &'static str = "~/.config/blaze/config.toml";

/// The text of a freshly generated configuration file.
pub const DEFAULT: &'static str = "
[config]
    private-key = \"\"
    default-user = \"ec2-user\"
    jumphost = \"\"
    port = 22
    address-type = \"private\"
";

/// Settings from the configuration file; each may be absent.
#[derive(Debug, Clone)]
pub struct Config {
    /// Remote user when none is given on the command line.
    pub default_user: Option<String>,
    /// Private key file when none is given on the command line.
    pub private_key: Option<String>,
    /// Host to jump through when none is given on the command line (the
    /// file's `jumphost` or `bastion`).
    pub bastion: Option<String>,
    pub port: Option<u16>,
    /// `public` or `private` when not given on the command line.
    pub address_type: Option<String>,
}

impl Config {
    /// The configuration file to read: `path` when given, else the default.
    pub fn get_config_path(path: Option<String>) -> (r: String)
        ensures
            r@ == match path {
                Some(p) => p@,
                None => CONFIG_PATH@,
            },
    {
        match path {
            Some(p) => p,
            None => String::from_str(CONFIG_PATH),
        }
    }
}

} // verus!
