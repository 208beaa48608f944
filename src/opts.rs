//! The options of one invocation, as the command line gives them.
use vstd::prelude::*;

use crate::text::copy_opt;

verus! {

/// Options of the `connect` and `print` operations.
#[derive(Debug, Clone)]
pub struct ConnectOptions {
    /// Substring to filter instance names by.
    pub search: Option<String>,
    /// Remote user name.
    pub user: Option<String>,
    /// Remote port.
    pub port: Option<u16>,
    /// Private key file.
    pub key: Option<String>,
    /// `public` or `private`: which address of the instance to use.
    pub address_type: Option<String>,
    /// Host to jump through.
    pub jumphost: Option<String>,
}

/// Options of the `list` operation.
#[derive(Debug, Clone)]
pub struct ListOptions {
    pub search: Option<String>,
}

/// The operation an invocation asks for.
#[derive(Debug, Clone)]
pub enum Operations {
    /// Select an instance and open a session to it.
    Connect(ConnectOptions),
    /// Print the filtered instances as a table.
    List(ListOptions),
    /// Select an instance and print the session command.
    Print(ConnectOptions),
    /// Write the default configuration file.
    Configure,
}

/// The options shared by every operation, and the operation.
#[derive(Debug, Clone)]
pub struct Opts {
    /// Fetch the instance list afresh instead of reading the cached one.
    pub no_cache: bool,
    /// Configuration file to read instead of the default one.
    pub config: Option<String>,
    pub operation: Operations,
}

impl ConnectOptions {
    /// An exact copy of these options.
    pub fn duplicate(&self) -> (r: Self)
        ensures
            r == *self,
    {
        ConnectOptions {
            search: copy_opt(&self.search),
            user: copy_opt(&self.user),
            port: self.port,
            key: copy_opt(&self.key),
            address_type: copy_opt(&self.address_type),
            jumphost: copy_opt(&self.jumphost),
        }
    }
}

} // verus!
