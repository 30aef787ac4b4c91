//! Observability endpoint resolution.
//!
//! Exporter endpoints for traces, metrics and logs are derived from the
//! configuration: a signal-specific override is used as provided; a
//! shared observability endpoint is normalized per protocol — gRPC
//! exporters expect a base URL with no path components, HTTP exporters a
//! full URL ending in the signal's own path; and with nothing configured,
//! well-known local defaults apply.  URL parsing itself is the `url`
//! crate's work, reached through the trusted items below.

use vstd::prelude::*;

verus! {

/// The normalized serialization of the absolute URL written in `s`, if
/// `s` parses as one.
pub uninterp spec fn url_norm(s: Seq<char>) -> Option<Seq<char>>;

/// The serialization of the absolute URL written in `s` with its path
/// segments cleared — unchanged where the URL cannot be a base.
pub uninterp spec fn url_base(s: Seq<char>) -> Option<Seq<char>>;

/// The path component of the absolute URL written in `s`.
pub uninterp spec fn url_path(s: Seq<char>) -> Option<Seq<char>>;

/// Relies on `url::Url::parse` and `Url::as_str`: the normalized
/// serialization of the URL parsed from `s`, or `None` where `s` is not
/// an absolute URL.
#[verifier::external_body]
fn parse_normalized(s: &str) -> (r: Option<String>)
    ensures
        r matches Some(t) ==> url_norm(s@) == Some(t@),
        r is None <==> url_norm(s@) is None,
{
    match url::Url::parse(s) {
        Ok(u) => Some(u.as_str().to_string()),
        Err(_) => None,
    }
}

/// Relies on `url::Url::parse`, `Url::path_segments_mut` and
/// `Url::as_str`: the serialization of the parsed URL with its path
/// segments cleared, kept as parsed where the URL cannot be a base.
#[verifier::external_body]
fn parse_base(s: &str) -> (r: Option<String>)
    ensures
        r matches Some(t) ==> url_base(s@) == Some(t@),
        r is None <==> url_base(s@) is None,
{
    match url::Url::parse(s) {
        Ok(mut u) => {
            if let Ok(mut p) = u.path_segments_mut() {
                p.clear();
            }
            Some(u.as_str().to_string())
        },
        Err(_) => None,
    }
}

/// Relies on `url::Url::parse` and `Url::path`: the path component of
/// the parsed URL.
#[verifier::external_body]
fn parse_path(s: &str) -> (r: Option<String>)
    ensures
        r matches Some(t) ==> url_path(s@) == Some(t@),
        r is None <==> url_path(s@) is None,
{
    match url::Url::parse(s) {
        Ok(u) => Some(u.path().to_string()),
        Err(_) => None,
    }
}

/// `s` with every trailing `/` removed.
pub open spec fn rstrip_slash(s: Seq<char>) -> Seq<char>
    decreases s.len(),
{
    if s.len() > 0 && s.last() == '/' {
        rstrip_slash(s.drop_last())
    } else {
        s
    }
}

/// Characterizes `rstrip_slash` by the index where the trailing slashes
/// start.
proof fn lemma_rstrip_indices(s: Seq<char>, end: int)
    requires
        0 <= end <= s.len(),
        forall|i: int| end <= i < s.len() ==> s[i] == '/',
        end > 0 ==> s[end - 1] != '/',
    ensures
        rstrip_slash(s) =~= s.subrange(0, end),
    decreases s.len(),
{
    if s.len() > 0 && s.last() == '/' {
        assert(end < s.len());
        assert(forall|i: int|
            end <= i < s.drop_last().len() ==> s.drop_last()[i] == s[i] && s[i] == '/');
        assert(end > 0 ==> s.drop_last()[end - 1] == s[end - 1]);
        lemma_rstrip_indices(s.drop_last(), end);
        assert(s.drop_last().subrange(0, end) =~= s.subrange(0, end));
    } else {
        assert(end == s.len()) by {
            if end < s.len() {
                assert(s[s.len() - 1] == '/');
            }
        }
        assert(rstrip_slash(s) =~= s.subrange(0, end));
    }
}

/// `s` with trailing slashes removed.
fn trim_end_slashes(s: &str) -> (r: String)
    ensures
        r@ == rstrip_slash(s@),
{
    let n = s.unicode_len();
    let mut end: usize = n;
    while end > 0 && s.get_char(end - 1) == '/'
        invariant
            0 <= end <= n,
            n == s@.len(),
            forall|i: int| end <= i < n ==> s@[i] == '/',
        decreases end,
    {
        end = end - 1;
    }
    let out = s.substring_char(0, end);
    proof {
        lemma_rstrip_indices(s@, end as int);
    }
    String::from_str(out)
}

/// One of the three OpenTelemetry signals.
#[derive(Debug, Clone, Copy, PartialEq, Eq, Structural)]
pub enum OtelSignal {
    Traces,
    Metrics,
    Logs,
}

/// The URL path a signal's HTTP exporter expects.
pub open spec fn spec_signal_path(sig: OtelSignal) -> Seq<char> {
    match sig {
        OtelSignal::Traces => "/v1/traces"@,
        OtelSignal::Metrics => "/v1/metrics"@,
        OtelSignal::Logs => "/v1/logs"@,
    }
}

impl OtelSignal {
    /// The URL path this signal's HTTP exporter expects.
    pub fn path(&self) -> (r: &'static str)
        ensures
            r@ == spec_signal_path(*self),
    {
        match self {
            OtelSignal::Traces => "/v1/traces",
            OtelSignal::Metrics => "/v1/metrics",
            OtelSignal::Logs => "/v1/logs",
        }
    }
}

/// Whether telemetry is exported over HTTP or gRPC.
#[derive(Debug, Clone, Copy, PartialEq, Eq, Structural)]
pub enum OtelProtocol {
    Grpc,
    Http,
}

impl Default for OtelProtocol {
    /// HTTP is the default transport.
    fn default() -> (r: Self)
        ensures
            r == OtelProtocol::Http,
    {
        OtelProtocol::Http
    }
}

impl OtelProtocol {
    /// Reads a protocol name; exactly `http` and `grpc` are accepted,
    /// case-sensitively, and the error names the rejected protocol.
    pub fn parse(s: &str) -> (r: Result<OtelProtocol, String>)
        ensures
            s@ == "http"@ ==> r == Ok::<OtelProtocol, String>(OtelProtocol::Http),
            s@ == "grpc"@ ==> r == Ok::<OtelProtocol, String>(OtelProtocol::Grpc),
            s@ != "http"@ && s@ != "grpc"@ ==> (r matches Err(m) && m@
                == "unsupported protocol: \""@ + s@ + "\", did you mean 'http' or 'grpc'?"@),
    {
        proof {
            reveal_strlit("http");
            reveal_strlit("grpc");
            assert("http"@[0] == 'h' && "grpc"@[0] == 'g');
        }
        if crate::json::str_eq(s, "http") {
            Ok(OtelProtocol::Http)
        } else if crate::json::str_eq(s, "grpc") {
            Ok(OtelProtocol::Grpc)
        } else {
            let mut m = String::from_str("unsupported protocol: \"");
            m.append(s);
            m.append("\", did you mean 'http' or 'grpc'?");
            Err(m)
        }
    }
}

impl core::str::FromStr for OtelProtocol {
    type Err = String;

    fn from_str(s: &str) -> Result<Self, String> {
        OtelProtocol::parse(s)
    }
}

/// The view of an optional string.
pub open spec fn opt_str_view(o: &Option<String>) -> Option<Seq<char>> {
    match *o {
        Some(s) => Some(s@),
        None => None,
    }
}

/// The endpoint a shared observability URL yields for gRPC exporters:
/// the base URL with path components cleared and trailing slashes
/// trimmed, or the URL as written where it does not parse.
pub open spec fn spec_grpc_endpoint(e: Seq<char>) -> Seq<char> {
    match url_base(e) {
        Some(b) => rstrip_slash(b),
        None => e,
    }
}

/// The endpoint a shared observability URL yields for one signal's HTTP
/// exporter: with no path configured, the signal's path is appended to
/// the normalized URL; a URL that carries a path, or does not parse, is
/// used as written.
pub open spec fn spec_http_endpoint(e: Seq<char>, sig: OtelSignal) -> Seq<char> {
    match (url_norm(e), url_path(e)) {
        (Some(n), Some(p)) => if p == "/"@ {
            rstrip_slash(n) + spec_signal_path(sig)
        } else {
            e
        },
        _ => e,
    }
}

/// The endpoint one signal resolves to: a signal-specific override as
/// provided; else the shared observability endpoint, normalized per
/// protocol; else the well-known local default.
pub open spec fn spec_resolve(
    protocol: OtelProtocol,
    obs: Option<Seq<char>>,
    over: Option<Seq<char>>,
    sig: OtelSignal,
) -> Seq<char> {
    match over {
        Some(e) => e,
        None => match obs {
            Some(e) => match protocol {
                OtelProtocol::Grpc => spec_grpc_endpoint(e),
                OtelProtocol::Http => spec_http_endpoint(e, sig),
            },
            None => match protocol {
                OtelProtocol::Grpc => "http://127.0.0.1:4317"@,
                OtelProtocol::Http => "http://127.0.0.1:4318"@ + spec_signal_path(sig),
            },
        },
    }
}

/// Configuration values for telemetry export.
///
/// Exporter-setup concerns whose values are filesystem paths or live with
/// the exporter itself (additional certificate authorities, the tracing
/// level) belong to the surrounding application, not to this derivation.
#[derive(Debug, Clone)]
pub struct OtelConfig {
    /// Whether observability should be enabled at all.
    pub enable_observability: bool,
    /// Whether traces should be enabled, overriding the global switch.
    pub enable_traces: Option<bool>,
    /// Whether metrics should be enabled, overriding the global switch.
    pub enable_metrics: Option<bool>,
    /// Whether logs should be enabled, overriding the global switch.
    pub enable_logs: Option<bool>,
    /// Overrides the telemetry endpoint for all signals.
    pub observability_endpoint: Option<String>,
    /// Overrides the telemetry endpoint for traces.
    pub traces_endpoint: Option<String>,
    /// Overrides the telemetry endpoint for metrics.
    pub metrics_endpoint: Option<String>,
    /// Overrides the telemetry endpoint for logs.
    pub logs_endpoint: Option<String>,
    /// Whether HTTP or gRPC is used for exporting the telemetry.
    pub protocol: OtelProtocol,
    /// The sampler to use for traces, if overridden.
    pub traces_sampler: Option<String>,
    /// An additional argument to pass to the sampler.
    pub traces_sampler_arg: Option<String>,
    /// The maximum number of tracing events buffered before export.
    pub max_batch_queue_size: Option<usize>,
    /// The maximum number of concurrent export threads.
    pub concurrent_exports: Option<usize>,
}

impl Default for OtelConfig {
    /// Everything off, nothing overridden, HTTP transport.
    fn default() -> (r: OtelConfig)
        ensures
            !r.enable_observability,
            r.enable_traces is None && r.enable_metrics is None && r.enable_logs is None,
            r.observability_endpoint is None && r.traces_endpoint is None
                && r.metrics_endpoint is None && r.logs_endpoint is None,
            r.protocol == OtelProtocol::Http,
            r.traces_sampler is None && r.traces_sampler_arg is None,
            r.max_batch_queue_size is None && r.concurrent_exports is None,
    {
        OtelConfig {
            enable_observability: false,
            enable_traces: None,
            enable_metrics: None,
            enable_logs: None,
            observability_endpoint: None,
            traces_endpoint: None,
            metrics_endpoint: None,
            logs_endpoint: None,
            protocol: OtelProtocol::Http,
            traces_sampler: None,
            traces_sampler_arg: None,
            max_batch_queue_size: None,
            concurrent_exports: None,
        }
    }
}

impl OtelConfig {
    /// The endpoint the logs exporter should use.
    pub fn logs_endpoint(&self) -> (r: String)
        ensures
            r@ == spec_resolve(
                self.protocol,
                opt_str_view(&self.observability_endpoint),
                opt_str_view(&self.logs_endpoint),
                OtelSignal::Logs,
            ),
    {
        let e = self.logs_endpoint.clone();
        self.resolve_endpoint(OtelSignal::Logs, e)
    }

    /// The endpoint the metrics exporter should use.
    pub fn metrics_endpoint(&self) -> (r: String)
        ensures
            r@ == spec_resolve(
                self.protocol,
                opt_str_view(&self.observability_endpoint),
                opt_str_view(&self.metrics_endpoint),
                OtelSignal::Metrics,
            ),
    {
        let e = self.metrics_endpoint.clone();
        self.resolve_endpoint(OtelSignal::Metrics, e)
    }

    /// The endpoint the traces exporter should use.
    pub fn traces_endpoint(&self) -> (r: String)
        ensures
            r@ == spec_resolve(
                self.protocol,
                opt_str_view(&self.observability_endpoint),
                opt_str_view(&self.traces_endpoint),
                OtelSignal::Traces,
            ),
    {
        let e = self.traces_endpoint.clone();
        self.resolve_endpoint(OtelSignal::Traces, e)
    }

    /// Whether logs should be exported.
    pub fn logs_enabled(&self) -> (r: bool)
        ensures
            r == match self.enable_logs {
                Some(b) => b,
                None => self.enable_observability,
            },
    {
        match self.enable_logs {
            Some(b) => b,
            None => self.enable_observability,
        }
    }

    /// Whether metrics should be exported.
    pub fn metrics_enabled(&self) -> (r: bool)
        ensures
            r == match self.enable_metrics {
                Some(b) => b,
                None => self.enable_observability,
            },
    {
        match self.enable_metrics {
            Some(b) => b,
            None => self.enable_observability,
        }
    }

    /// Whether traces should be exported.
    pub fn traces_enabled(&self) -> (r: bool)
        ensures
            r == match self.enable_traces {
                Some(b) => b,
                None => self.enable_observability,
            },
    {
        match self.enable_traces {
            Some(b) => b,
            None => self.enable_observability,
        }
    }

    /// Resolves one signal's endpoint: a signal-specific override is
    /// used as provided; else the shared observability endpoint,
    /// normalized per protocol; else the well-known local default.
    pub fn resolve_endpoint(&self, signal: OtelSignal, signal_endpoint_override: Option<
        String,
    >) -> (r: String)
        ensures
            r@ == spec_resolve(
                self.protocol,
                opt_str_view(&self.observability_endpoint),
                opt_str_view(&signal_endpoint_override),
                signal,
            ),
    {
        if let Some(endpoint) = signal_endpoint_override {
            return endpoint;
        }
        if let Some(endpoint) = &self.observability_endpoint {
            let e = endpoint.clone();
            return match self.protocol {
                OtelProtocol::Grpc => self.resolve_grpc_endpoint(e),
                OtelProtocol::Http => self.resolve_http_endpoint(signal, e),
            };
        }
        match self.protocol {
            OtelProtocol::Grpc => String::from_str("http://127.0.0.1:4317"),
            OtelProtocol::Http => {
                let mut s = String::from_str("http://127.0.0.1:4318");
                s.append(signal.path());
                s
            },
        }
    }

    /// gRPC exporters expect the endpoint without path components: the
    /// parsed URL's base, trailing slashes trimmed; an endpoint that
    /// does not parse is returned as provided.
    pub fn resolve_grpc_endpoint(&self, endpoint: String) -> (r: String)
        ensures
            r@ == spec_grpc_endpoint(endpoint@),
    {
        match parse_base(endpoint.as_str()) {
            Some(b) => trim_end_slashes(b.as_str()),
            None => endpoint,
        }
    }

    /// HTTP exporters expect the endpoint fully configured, path
    /// included: a URL with no path yet gets the signal's path appended;
    /// one that carries a path, or does not parse, is returned as
    /// provided.
    pub fn resolve_http_endpoint(&self, signal: OtelSignal, endpoint: String) -> (r: String)
        ensures
            r@ == spec_http_endpoint(endpoint@, signal),
    {
        let norm = parse_normalized(endpoint.as_str());
        let path = parse_path(endpoint.as_str());
        match (norm, path) {
            (Some(n), Some(p)) => {
                if crate::json::str_eq(p.as_str(), "/") {
                    let mut s = trim_end_slashes(n.as_str());
                    s.append(signal.path());
                    s
                } else {
                    endpoint
                }
            },
            _ => endpoint,
        }
    }
}

} // verus!
