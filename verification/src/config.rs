//! The decisions taken while reading the server and database settings.
use vstd::prelude::*;

verus! {

/// A graceful-shutdown timeout, as whole seconds and the nanoseconds beyond.
#[derive(Debug, Clone, Copy, PartialEq, Eq, Structural)]
pub struct ShutdownTimeout {
    pub secs: u64,
    pub nanos: u32,
}

/// A negative graceful-shutdown timeout was configured.
#[derive(Debug, Clone, Copy, PartialEq, Eq, Structural)]
pub struct NegativeShutdownTimeout;

impl NegativeShutdownTimeout {
    /// The error's text.
    pub fn message(&self) -> (r: String)
        ensures
            r@ == "graceful shutdown timeout must be positive"@,
    {
        "graceful shutdown timeout must be positive".to_owned()
    }
}

/// The timeout for a signed duration of `secs` seconds and `nanos`
/// nanoseconds: refused where either part is negative, kept as it is
/// otherwise.
pub fn shutdown_timeout(secs: i64, nanos: i32) -> (r: Result<ShutdownTimeout, NegativeShutdownTimeout>)
    ensures
        (secs < 0 || nanos < 0) <==> r is Err,
        r matches Ok(t) ==> t.secs == secs && t.nanos == nanos,
{
    if secs < 0 || nanos < 0 {
        Err(NegativeShutdownTimeout)
    } else {
        Ok(ShutdownTimeout { secs: secs as u64, nanos: nanos as u32 })
    }
}

/// How the database connection uses TLS.
#[derive(Debug, Clone, Copy, PartialEq, Eq, Structural)]
pub enum SslMode {
    /// Only a TLS connection.
    Require,
    /// TLS first, then a plain connection.
    Prefer,
}

/// The TLS mode for the database connection: required where the settings
/// ask for it, preferred otherwise.
pub fn ssl_mode_for(require_ssl: bool) -> (r: SslMode)
    ensures
        r == (if require_ssl { SslMode::Require } else { SslMode::Prefer }),
{
    if require_ssl {
        SslMode::Require
    } else {
        SslMode::Prefer
    }
}

} // verus!
