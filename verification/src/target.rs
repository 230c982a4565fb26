//! The request target: the components of an absolute `http` or `https`
//! URL that the engine reads.
//!
//! The engine never parses URL text itself; the caller hands the
//! components over (a URL library is the usual source) and this module
//! validates them and answers the questions the client asks: which
//! scheme, which host, which port.

use vstd::prelude::*;
use crate::report::ConfigError;

verus! {

/// The URL scheme of a target; only the two the engine can speak.
#[derive(Clone, Copy, Debug, PartialEq, Eq, Structural)]
pub enum Scheme {
    Http,
    Https,
}

/// The components of a target URL.
#[derive(Debug)]
pub struct Target {
    /// The scheme; decides TLS and the default port.
    pub scheme: Scheme,
    /// Host component, as written in the URL.
    pub host: String,
    /// Whether `host` is a domain name (usable for TLS server-name
    /// indication and certificate validation) rather than an address.
    pub host_is_domain: bool,
    /// Port, where the URL names one explicitly.
    pub port: Option<u16>,
    /// Path-and-query component; the request line carries this and
    /// nothing more, the authority lives in the established connection.
    pub path: String,
}

impl Target {
    /// A target the engine accepts: the host is present.
    pub open spec fn wf(self) -> bool {
        self.host@.len() > 0
    }

    /// The default port of a scheme, as the URL standard fixes it.
    pub open spec fn spec_default_port(scheme: Scheme) -> u16 {
        match scheme {
            Scheme::Http => 80,
            Scheme::Https => 443,
        }
    }

    /// The port a connection to this target uses: the explicit port of
    /// the URL where one is named, else the scheme's default.
    pub open spec fn spec_port(self) -> u16 {
        match self.port {
            Some(p) => p,
            None => Self::spec_default_port(self.scheme),
        }
    }

    /// Build a target from URL components, validating what the engine
    /// depends on.
    ///
    /// `scheme` is the scheme text of the URL; anything but `http` and
    /// `https` is refused.  An empty host is refused.  These are the
    /// only refusals: every other component combination is accepted as
    /// given.
    pub fn new(
        scheme: &str,
        host: String,
        host_is_domain: bool,
        port: Option<u16>,
        path: String,
    ) -> (r: Result<Target, ConfigError>)
        ensures
            scheme@ != "http"@ && scheme@ != "https"@ ==> r == Err::<Target, _>(
                ConfigError::BadScheme,
            ),
            (scheme@ == "http"@ || scheme@ == "https"@) && host@.len() == 0 ==> r == Err::<
                Target,
                _,
            >(ConfigError::MissingHost),
            (scheme@ == "http"@ || scheme@ == "https"@) && host@.len() > 0 ==> (r matches Ok(t) && {
                &&& t.scheme == (if scheme@ == "http"@ { Scheme::Http } else { Scheme::Https })
                &&& t.host == host
                &&& t.host_is_domain == host_is_domain
                &&& t.port == port
                &&& t.path == path
                &&& t.wf()
            }),
    {
        let scheme_owned: String = scheme.to_owned();
        let s: Scheme = if scheme_owned == String::from_str("http") {
            Scheme::Http
        } else if scheme_owned == String::from_str("https") {
            Scheme::Https
        } else {
            return Err(ConfigError::BadScheme);
        };
        if host.as_str().unicode_len() == 0 {
            return Err(ConfigError::MissingHost);
        }
        Ok(Target { scheme: s, host, host_is_domain, port, path })
    }

    /// The port a connection uses: explicit where the URL names one,
    /// else 80 for `http` and 443 for `https`.
    pub fn port_or_default(&self) -> (p: u16)
        ensures
            p == self.spec_port(),
    {
        match self.port {
            Some(p) => p,
            None => match self.scheme {
                Scheme::Http => 80,
                Scheme::Https => 443,
            },
        }
    }

    /// Whether connections to this target are wrapped in TLS.
    pub fn uses_tls(&self) -> (b: bool)
        ensures
            b == (self.scheme == Scheme::Https),
    {
        match self.scheme {
            Scheme::Https => true,
            Scheme::Http => false,
        }
    }
}

} // verus!
