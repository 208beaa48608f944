//! The connection-spec resolver: merges command-line options, the
//! configuration layer and defaults field by field, and renders the session
//! command.
use vstd::prelude::*;

use crate::config::Config;
use crate::instance_details::InstanceDetails;
use crate::opts::ConnectOptions;
use crate::text::{copy_opt, opt_view, or_empty};

verus! {

/// Why no session command can be built.
#[derive(Debug, Clone, Copy, PartialEq, Eq, Structural)]
pub enum ResolveError {
    /// Neither the command line nor the configuration names a user.
    NoUser,
    /// The address type is neither `public` nor `private`.
    InvalidAddressType,
}

/// A command-line value counts as given when it is present and not empty.
pub open spec fn given(o: Option<Seq<char>>) -> Option<Seq<char>> {
    match o {
        Some(s) => if s.len() > 0 {
            Some(s)
        } else {
            None
        },
        None => None,
    }
}

/// The first present value of two layers, the first layer winning; an empty
/// value is present.
pub open spec fn first_present(first: Option<String>, second: Option<String>) -> Option<
    Seq<char>,
> {
    match opt_view(first) {
        Some(s) => Some(s),
        None => opt_view(second),
    }
}

/// The command line's value when given (present and not empty), else the
/// configuration's value when present, empty or not.
pub open spec fn cli_given_or(cli: Option<String>, config: Option<String>) -> Option<Seq<char>> {
    match given(opt_view(cli)) {
        Some(s) => Some(s),
        None => opt_view(config),
    }
}

/// The first present value of two layers, the first layer winning; an empty
/// value is present.
pub fn first_defined(first: &Option<String>, second: &Option<String>) -> (r: Option<String>)
    ensures
        opt_view(r) == first_present(*first, *second),
{
    match first {
        Some(s) => Some(s.clone()),
        None => copy_opt(second),
    }
}

/// The command line's value unless it is absent or empty, else the
/// configuration's value as it is.
pub fn cli_defined_or(cli: &Option<String>, config: &Option<String>) -> (r: Option<String>)
    ensures
        opt_view(r) == cli_given_or(*cli, *config),
{
    match cli {
        Some(s) if s.unicode_len() > 0 => Some(s.clone()),
        _ => copy_opt(config),
    }
}

/// The remote user: the command line's unless absent or empty, else the
/// configuration's (an empty one included).
pub open spec fn resolved_user(opts: ConnectOptions, config: Config) -> Option<Seq<char>> {
    cli_given_or(opts.user, config.default_user)
}

/// The address type: the command line's unless absent or empty, else the
/// configuration's (an empty one included), else `private`.
pub open spec fn resolved_address_type(opts: ConnectOptions, config: Config) -> Seq<char> {
    match cli_given_or(opts.address_type, config.address_type) {
        Some(t) => t,
        None => "private"@,
    }
}

/// The address of `instance` that the resolved address type picks (empty
/// when the record lacks it), or the error for an unknown type.
pub open spec fn resolved_address(
    opts: ConnectOptions,
    config: Config,
    instance: InstanceDetails,
) -> Result<Seq<char>, ResolveError> {
    let t = resolved_address_type(opts, config);
    if t == "public"@ {
        Ok(or_empty(instance.public_ip))
    } else if t == "private"@ {
        Ok(or_empty(instance.private_ip))
    } else {
        Err(ResolveError::InvalidAddressType)
    }
}

/// The key file as given: the command line's when present, else the
/// configuration's. An empty path is kept, and the command then carries a
/// bare `-i`.
pub open spec fn resolved_key_path(opts: ConnectOptions, config: Config) -> Option<Seq<char>> {
    first_present(opts.key, config.private_key)
}

/// The jump host: the command line's when present, else the
/// configuration's. An empty host is kept, and the command then carries a
/// bare `-J`.
pub open spec fn resolved_jump_host(opts: ConnectOptions, config: Config) -> Option<Seq<char>> {
    first_present(opts.jumphost, config.bastion)
}

/// The session command: `ssh -t user@address`, then `-i <key>` and
/// `-J <jump host>` where given, separated by single spaces.
pub open spec fn render(
    user: Seq<char>,
    address: Seq<char>,
    key_path: Option<Seq<char>>,
    jump_host: Option<Seq<char>>,
) -> Seq<char> {
    "ssh -t "@ + user + "@"@ + address + match key_path {
        Some(k) => " -i "@ + k,
        None => Seq::empty(),
    } + match jump_host {
        Some(j) => " -J "@ + j,
        None => Seq::empty(),
    }
}

/// What a home-directory expansion of `path` may give: a path that starts
/// with `~` alone, `~/` or `~\` may have the `~` replaced by a home
/// directory, or stays as it is; any other path stays as it is. (`~\` is
/// expanded on Windows only; elsewhere such a path stays as it is, which this
/// also allows.)
pub open spec fn tilde_outcome(path: Seq<char>, r: Seq<char>) -> bool {
    if path.len() > 0 && path[0] == '~' && (path.len() == 1 || path[1] == '/' || path[1]
        == '\\') {
        r == path || exists|home: Seq<char>| r == home + path.drop_first()
    } else {
        r == path
    }
}

/// Relies on shellexpand::tilde: replaces a leading `~` that stands alone or
/// before `/` (on Windows also before `\`) with the home directory when one
/// is known, and returns any other input unchanged.
#[verifier::external_body]
fn expand_tilde(path: &str) -> (r: String)
    ensures
        tilde_outcome(path@, r@),
{
    shellexpand::tilde(path).into_owned()
}

/// The session command for the given parts, exactly as `render` spells it.
pub fn render_command(
    user: &str,
    address: &str,
    key_path: &Option<String>,
    jump_host: &Option<String>,
) -> (r: String)
    ensures
        r@ == render(user@, address@, opt_view(*key_path), opt_view(*jump_host)),
{
    let mut r = String::from_str("ssh -t ");
    r.append(user);
    r.append("@");
    r.append(address);
    if let Some(k) = key_path {
        r.append(" -i ");
        r.append(k.as_str());
    }
    if let Some(j) = jump_host {
        r.append(" -J ");
        r.append(j.as_str());
    }
    assert(r@ =~= render(user@, address@, opt_view(*key_path), opt_view(*jump_host)));
    r
}

/// A selected instance together with the options and configuration that
/// decide how to reach it.
pub struct CommandGenerator {
    pub opts: ConnectOptions,
    pub config: Config,
    pub instance: InstanceDetails,
}

impl CommandGenerator {
    pub fn new(opts: &ConnectOptions, config: Config, instance: InstanceDetails) -> (r: Result<
        Self,
        ResolveError,
    >)
        ensures
            r matches Ok(g) && g.opts == *opts && g.config == config && g.instance == instance,
    {
        Ok(CommandGenerator { opts: opts.duplicate(), config, instance })
    }

    /// The remote user: `--user`, else the configuration's `default-user`,
    /// else `NoUser`.
    pub fn user(&self) -> (r: Result<String, ResolveError>)
        ensures
            match resolved_user(self.opts, self.config) {
                Some(u) => r matches Ok(s) && s@ == u,
                None => r == Err::<String, ResolveError>(ResolveError::NoUser),
            },
    {
        match cli_defined_or(&self.opts.user, &self.config.default_user) {
            Some(u) => Ok(u),
            None => Err(ResolveError::NoUser),
        }
    }

    /// The address to connect to, picked by `--address-type`, else the
    /// configuration's `address-type`, else `private`.
    pub fn address(&self) -> (r: Result<String, ResolveError>)
        ensures
            match resolved_address(self.opts, self.config, self.instance) {
                Ok(a) => r matches Ok(s) && s@ == a,
                Err(e) => r == Err::<String, ResolveError>(e),
            },
    {
        let t = match cli_defined_or(&self.opts.address_type, &self.config.address_type) {
            Some(t) => t,
            None => String::from_str("private"),
        };
        let public = String::from_str("public");
        let private = String::from_str("private");
        proof {
            reveal_strlit("");
            assert(""@ =~= Seq::<char>::empty());
        }
        if t == public {
            Ok(crate::text::unwrap_or_str(&self.instance.public_ip, ""))
        } else if t == private {
            Ok(crate::text::unwrap_or_str(&self.instance.private_ip, ""))
        } else {
            Err(ResolveError::InvalidAddressType)
        }
    }

    /// The key file, home directory expanded, when one is given.
    pub fn key(&self) -> (r: Option<String>)
        ensures
            match (resolved_key_path(self.opts, self.config), r) {
                (Some(k), Some(e)) => tilde_outcome(k, e@),
                (None, None) => true,
                _ => false,
            },
    {
        match first_defined(&self.opts.key, &self.config.private_key) {
            Some(k) => Some(expand_tilde(k.as_str())),
            None => None,
        }
    }

    /// The jump host, when one is given.
    pub fn jump_host(&self) -> (r: Option<String>)
        ensures
            opt_view(r) == resolved_jump_host(self.opts, self.config),
    {
        first_defined(&self.opts.jumphost, &self.config.bastion)
    }

    /// The session command for the selected instance. The user is resolved
    /// first, then the address; the first failure is returned.
    pub fn generate(&self) -> (r: Result<String, ResolveError>)
        ensures
            resolved_user(self.opts, self.config) is None ==> r == Err::<String, ResolveError>(
                ResolveError::NoUser,
            ),
            resolved_user(self.opts, self.config) is Some && resolved_address(
                self.opts,
                self.config,
                self.instance,
            ) is Err ==> r == Err::<String, ResolveError>(ResolveError::InvalidAddressType),
            match (
                resolved_user(self.opts, self.config),
                resolved_address(self.opts, self.config, self.instance),
            ) {
                (Some(u), Ok(a)) => r matches Ok(s) && exists|k: Option<Seq<char>>|
                    {
                        &&& match (resolved_key_path(self.opts, self.config), k) {
                            (Some(p), Some(e)) => tilde_outcome(p, e),
                            (None, None) => true,
                            _ => false,
                        }
                        &&& s@ == render(u, a, k, resolved_jump_host(self.opts, self.config))
                    },
                _ => true,
            },
    {
        let user = match self.user() {
            Ok(u) => u,
            Err(e) => {
                return Err(e);
            },
        };
        let address = match self.address() {
            Ok(a) => a,
            Err(e) => {
                return Err(e);
            },
        };
        let key = self.key();
        let jump = self.jump_host();
        let r = render_command(user.as_str(), address.as_str(), &key, &jump);
        assert(r@ == render(
            user@,
            address@,
            opt_view(key),
            resolved_jump_host(self.opts, self.config),
        ));
        Ok(r)
    }
}

} // verus!
