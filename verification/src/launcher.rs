//! Tunnel configuration and the invocation of the external binary: which
//! executable to run and with which arguments. Spawning itself is I/O and is
//! left to the driver; it must pass exactly the arguments built here.

use vstd::prelude::*;

use crate::text::{dec_str, u64_string};

verus! {

/// How a tunnel authenticates. A quick tunnel exposes a local port under an
/// ephemeral hostname; a named tunnel runs under a long-lived token whose
/// routing is configured out of band.
#[derive(Clone, Debug)]
pub enum TunnelMode {
    Quick,
    Named(String),
}

/// Mathematical image of a `TunnelMode`.
pub enum TunnelModeModel {
    Quick,
    Named(Seq<char>),
}

impl View for TunnelMode {
    type V = TunnelModeModel;

    open spec fn view(&self) -> TunnelModeModel {
        match self {
            TunnelMode::Quick => TunnelModeModel::Quick,
            TunnelMode::Named(t) => TunnelModeModel::Named(t@),
        }
    }
}

/// Configuration of one tunnel, immutable once handed to `connect`.
#[derive(Clone, Debug)]
pub struct TunnelConfig {
    pub id: String,
    pub mode: TunnelMode,
    pub local_port: u16,
}

/// Mathematical image of a `TunnelConfig`.
#[verifier::ext_equal]
pub struct TunnelConfigModel {
    pub id: Seq<char>,
    pub mode: TunnelModeModel,
    pub local_port: u16,
}

impl View for TunnelConfig {
    type V = TunnelConfigModel;

    open spec fn view(&self) -> TunnelConfigModel {
        TunnelConfigModel { id: self.id@, mode: self.mode@, local_port: self.local_port }
    }
}

/// How a launch can fail: the binary is absent, or the operating system
/// refused the spawn for another reason, reported as text.
#[derive(Clone, Debug)]
pub enum LaunchError {
    BinaryNotFound,
    Other(String),
}

/// Mathematical image of a `LaunchError`.
pub enum LaunchErrorModel {
    BinaryNotFound,
    Other(Seq<char>),
}

impl View for LaunchError {
    type V = LaunchErrorModel;

    open spec fn view(&self) -> LaunchErrorModel {
        match self {
            LaunchError::BinaryNotFound => LaunchErrorModel::BinaryNotFound,
            LaunchError::Other(t) => LaunchErrorModel::Other(t@),
        }
    }
}

/// Arguments of a quick tunnel exposing `port`.
pub open spec fn spec_quick_args(port: u16) -> Seq<Seq<char>> {
    seq!["tunnel"@, "--url"@, "http://localhost:"@ + dec_str(port as int)]
}

/// Arguments of the external binary for `c`. A named configuration whose
/// token is empty degrades to a quick tunnel.
pub open spec fn spec_args(c: TunnelConfigModel) -> Seq<Seq<char>> {
    match c.mode {
        TunnelModeModel::Quick => spec_quick_args(c.local_port),
        TunnelModeModel::Named(token) => if token.len() == 0 {
            spec_quick_args(c.local_port)
        } else {
            seq!["tunnel"@, "run"@, "--token"@, token]
        },
    }
}

/// Name of the external executable the supervisor drives.
pub fn binary_name() -> (r: &'static str)
    ensures
        r@ == "cloudflared"@,
{
    "cloudflared"
}

fn quick_args(port: u16) -> (r: Vec<String>)
    ensures
        r.deep_view() == spec_quick_args(port),
{
    let mut url = String::from_str("http://localhost:");
    let port_str = u64_string(port as u64);
    url.append(port_str.as_str());
    let mut args: Vec<String> = Vec::new();
    args.push(String::from_str("tunnel"));
    args.push(String::from_str("--url"));
    args.push(url);
    proof {
        assert(args.deep_view() =~= spec_quick_args(port));
    }
    args
}

/// The argument list for `config`, as `spec_args` states it.
pub fn build_args(config: &TunnelConfig) -> (r: Vec<String>)
    ensures
        r.deep_view() == spec_args(config@),
{
    match &config.mode {
        TunnelMode::Quick => quick_args(config.local_port),
        TunnelMode::Named(token) => {
            if token.as_str().is_empty() {
                quick_args(config.local_port)
            } else {
                let mut args: Vec<String> = Vec::new();
                args.push(String::from_str("tunnel"));
                args.push(String::from_str("run"));
                args.push(String::from_str("--token"));
                args.push(token.clone());
                proof {
                    assert(args.deep_view() =~= spec_args(config@));
                }
                args
            }
        },
    }
}

} // verus!
