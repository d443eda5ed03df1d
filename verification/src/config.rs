//! Runtime configuration resolution: the listening port is resolved from an
//! optional convenience source (a local environment file) and the required
//! process environment, and the listening address is always formed as
//! `0.0.0.0:<port>`.

use vstd::prelude::*;

verus! {

/// Errors that end server construction before any listener is bound.
#[derive(Clone, Copy, PartialEq, Eq, Structural, Debug)]
pub enum ConfigError {
    /// The required port value was absent from every configuration source.
    MissingConfiguration,
}

/// The port that resolution must yield: the process environment wins, the
/// optional file value is the fallback. Meaningful only when at least one
/// source holds a value.
pub open spec fn resolved_port(file_port: Option<Seq<char>>, env_port: Option<Seq<char>>) -> Seq<
    char,
> {
    match env_port {
        Some(p) => p,
        None => match file_port {
            Some(p) => p,
            None => Seq::empty(),
        },
    }
}

/// Two-step configuration resolution: the optional source is consulted only
/// when the required process environment holds no value, and construction
/// fails with `MissingConfiguration` exactly when both are absent.
pub fn resolve_port(file_port: Option<String>, env_port: Option<String>) -> (r: Result<
    String,
    ConfigError,
>)
    ensures
        r is Err <==> (file_port is None && env_port is None),
        r matches Err(e) ==> e == ConfigError::MissingConfiguration,
        r matches Ok(p) ==> p@ == resolved_port(
            match file_port {
                Some(f) => Some(f@),
                None => None,
            },
            match env_port {
                Some(v) => Some(v@),
                None => None,
            },
        ),
{
    match env_port {
        Some(p) => Ok(p),
        None => match file_port {
            Some(p) => Ok(p),
            None => Err(ConfigError::MissingConfiguration),
        },
    }
}

/// The listening address binds all interfaces: `0.0.0.0:` followed by the
/// resolved port, exactly.
pub fn listen_address(port: &String) -> (addr: String)
    ensures
        addr@ == "0.0.0.0:"@ + port@,
{
    let mut addr = String::from_str("0.0.0.0:");
    addr.append(port.as_str());
    addr
}

} // verus!
