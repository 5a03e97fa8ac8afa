use vstd::prelude::*;
use vstd::string::StringExecFns;

verus! {

/// The settings of a scan. One value is made before the scan starts and
/// read, never changed, by every probe.
#[derive(Clone, Debug)]
pub struct ProbeConfig {
    /// The TCP port that is probed.
    pub port: u16,
    /// The path of the enrollment page, with its leading slash.
    pub path: String,
    /// Seconds allowed for the TCP connection.
    pub connect_timeout_secs: u64,
    /// Seconds allowed for the whole HTTP request.
    pub request_timeout_secs: u64,
    /// Whether the HTTP client follows redirects.
    pub follow_redirects: bool,
    /// Whether the HTTP client accepts certificates that do not validate.
    pub accept_invalid_certs: bool,
    /// The most probes that may be in flight at once; 0 sets no bound.
    pub max_in_flight: usize,
}

impl ProbeConfig {
    /// The default settings: port 80, the enrollment page
    /// `/certsrv/certfnsh.asp`, two seconds to connect, five for the
    /// request, redirects not followed, certificates not validated, and no
    /// bound on the probes in flight.
    pub open spec fn is_default(&self) -> bool {
        &&& self.port == 80
        &&& self.path@ == "/certsrv/certfnsh.asp"@
        &&& self.connect_timeout_secs == 2
        &&& self.request_timeout_secs == 5
        &&& !self.follow_redirects
        &&& self.accept_invalid_certs
        &&& self.max_in_flight == 0
    }
}

impl Default for ProbeConfig {
    fn default() -> (config: Self)
        ensures
            config.is_default(),
    {
        ProbeConfig {
            port: 80,
            path: String::from_str("/certsrv/certfnsh.asp"),
            connect_timeout_secs: 2,
            request_timeout_secs: 5,
            follow_redirects: false,
            accept_invalid_certs: true,
            max_in_flight: 0,
        }
    }
}

} // verus!
