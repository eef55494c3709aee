//! The configuration of the MQTT endpoint and what its TLS setup reads from
//! it.

use vstd::prelude::*;
use crate::plan::CommandSource;

verus! {

/// The MQTT endpoint's configuration.
pub struct Config {
    /// Serve without TLS.
    pub disable_tls: bool,
    /// The certificate chain to serve with.
    pub cert_bundle_file: Option<String>,
    /// The private key to serve with.
    pub key_file: Option<String>,
    /// Where the MQTT server listens, if not on its default address.
    pub bind_addr_mqtt: Option<String>,
    /// Where device commands are read from.
    pub command_source_kafka: CommandSource,
}

pub open spec fn opt_str(o: Option<&str>) -> Option<Seq<char>> {
    match o {
        Some(s) => Some(s@),
        None => None,
    }
}

fn as_opt_str(o: &Option<String>) -> (r: Option<&str>)
    ensures
        opt_str(r) == crate::cli::opt_view(*o),
{
    match o {
        Some(s) => Some(s.as_str()),
        None => None,
    }
}

impl Config {
    /// Whether TLS is switched off.
    pub fn is_disabled(&self) -> (b: bool)
        ensures
            b == self.disable_tls,
    {
        self.disable_tls
    }

    /// The private key file, if one is configured.
    pub fn key_file(&self) -> (r: Option<&str>)
        ensures
            opt_str(r) == crate::cli::opt_view(self.key_file),
    {
        as_opt_str(&self.key_file)
    }

    /// The certificate bundle file, if one is configured.
    pub fn cert_bundle_file(&self) -> (r: Option<&str>)
        ensures
            opt_str(r) == crate::cli::opt_view(self.cert_bundle_file),
    {
        as_opt_str(&self.cert_bundle_file)
    }

    /// The address the MQTT server binds to, if one is configured.
    pub fn bind_addr(&self) -> (r: Option<&str>)
        ensures
            opt_str(r) == crate::cli::opt_view(self.bind_addr_mqtt),
    {
        as_opt_str(&self.bind_addr_mqtt)
    }
}

} // verus!
