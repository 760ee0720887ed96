//! Probing a service and recording what came of it: the probe plan for a
//! service, the outcome of each kind of probe, the status built from it, and
//! the sweep that checks every enabled service in turn.

use vstd::prelude::*;
use crate::http_status::{status_display, status_is_redirection, status_is_success, status_text};
use crate::service::{enabled_of, ServiceConfig, ServiceRegistry, ServiceType};
use crate::text::{decimal, push_decimal};

verus! {

/// How long one probe may take, in milliseconds.
pub const CHECK_TIMEOUT_MS: u64 = 5000;

/// The URL that an HTTP probe of `host` on `port` requests: plain `https`
/// on 443, plain `http` on 80, and `http` with the port spelled out
/// otherwise.
pub open spec fn http_url_of(host: Seq<char>, port: u16) -> Seq<char> {
    if port == 443 {
        "https://"@ + host
    } else if port == 80 {
        "http://"@ + host
    } else {
        "http://"@ + host + ":"@ + decimal(port as nat)
    }
}

/// The `host:port` address that a TCP probe connects to.
pub open spec fn tcp_address_of(host: Seq<char>, port: u16) -> Seq<char> {
    host + ":"@ + decimal(port as nat)
}

/// What to do to probe a service.
#[derive(Debug)]
pub enum ProbePlan {
    /// Request `url` and accept a success or redirection status.
    Http { url: String },
    /// Open a TCP connection to `address`.
    Tcp { address: String },
}

/// The URL an HTTP probe requests.
pub fn http_url(host: &String, port: u16) -> (r: String)
    ensures
        r@ == http_url_of(host@, port),
{
    if port == 443 {
        let mut u = String::from_str("https://");
        u.append(host.as_str());
        u
    } else if port == 80 {
        let mut u = String::from_str("http://");
        u.append(host.as_str());
        u
    } else {
        let mut u = String::from_str("http://");
        u.append(host.as_str());
        u.append(":");
        push_decimal(&mut u, port);
        u
    }
}

/// The address a TCP probe connects to.
pub fn tcp_address(host: &String, port: u16) -> (r: String)
    ensures
        r@ == tcp_address_of(host@, port),
{
    let mut a = host.clone();
    a.append(":");
    push_decimal(&mut a, port);
    a
}

/// The probe that checks `service`: by its type, an HTTP request to its URL
/// or a TCP connection to its address.
pub fn probe_plan(service: &ServiceConfig) -> (r: ProbePlan)
    ensures
        match service.service_type {
            ServiceType::Web => r matches ProbePlan::Http { url } && url@ == http_url_of(
                service.host@,
                service.port,
            ),
            ServiceType::Tcp => r matches ProbePlan::Tcp { address } && address@
                == tcp_address_of(service.host@, service.port),
        },
{
    match service.service_type {
        ServiceType::Web => ProbePlan::Http { url: http_url(&service.host, service.port) },
        ServiceType::Tcp => ProbePlan::Tcp { address: tcp_address(&service.host, service.port) },
    }
}

/// What a TCP probe came to.
#[derive(Debug)]
pub enum TcpProbe {
    /// The connection opened after `elapsed_ms` milliseconds.
    Connected { elapsed_ms: u64 },
    /// The connection was refused or failed; `reason` describes why.
    Failed { reason: String },
    /// No answer within the timeout.
    TimedOut,
}

/// What an HTTP probe came to.
#[derive(Debug)]
pub enum HttpProbe {
    /// The HTTP client could not be built; `reason` describes why.
    ClientFailed { reason: String },
    /// The request could not be sent or answered; `reason` describes why.
    RequestFailed { reason: String },
    /// The server answered with `status`, `elapsed_ms` milliseconds after
    /// the probe began.
    Responded { status: u16, elapsed_ms: u64 },
    /// No answer within the timeout.
    TimedOut,
}

/// The result of a TCP probe: the response time, or the message for the
/// failure.
pub open spec fn tcp_result_of(p: TcpProbe) -> Result<u64, Seq<char>> {
    match p {
        TcpProbe::Connected { elapsed_ms } => Ok(elapsed_ms),
        TcpProbe::Failed { reason } => Err("连接失败: "@ + reason@),
        TcpProbe::TimedOut => Err("连接超时"@),
    }
}

/// The result of an HTTP probe: the response time when the server answered
/// with a success or redirection status, else the message for the failure.
pub open spec fn http_result_of(p: HttpProbe) -> Result<u64, Seq<char>> {
    match p {
        HttpProbe::ClientFailed { reason } => Err("创建客户端失败: "@ + reason@),
        HttpProbe::RequestFailed { reason } => Err("请求失败: "@ + reason@),
        HttpProbe::Responded { status, elapsed_ms } => if 200 <= status < 400 {
            Ok(elapsed_ms)
        } else {
            Err("HTTP 错误: "@ + status_text(status))
        },
        HttpProbe::TimedOut => Err("请求超时"@),
    }
}

/// `r` carries what `spec` says, its error text taken by its characters.
pub open spec fn same_result(r: Result<u64, String>, spec: Result<u64, Seq<char>>) -> bool {
    match (r, spec) {
        (Ok(a), Ok(b)) => a == b,
        (Err(e), Err(m)) => e@ == m,
        _ => false,
    }
}

/// The URL of an HTTP probe: `https://host` on port 443, `http://host` on
/// port 80, and `http://host:port` with the port in decimal on any other.
pub proof fn law_http_url(host: Seq<char>, port: u16)
    ensures
        port == 443 ==> http_url_of(host, port) == "https://"@ + host,
        port == 80 ==> http_url_of(host, port) == "http://"@ + host,
        port != 443 && port != 80 ==> http_url_of(host, port) == "http://"@ + host + ":"@
            + decimal(port as nat),
        tcp_address_of(host, port) == host + ":"@ + decimal(port as nat),
{
}

/// An HTTP probe that got an answer succeeds exactly when the status is a
/// success or a redirection (200 to 399), with the measured time; every
/// other status, and every probe without an answer, is a failure.
pub proof fn law_http_result(p: HttpProbe)
    ensures
        p matches HttpProbe::Responded { status, elapsed_ms } ==> (200 <= status < 400
            ==> http_result_of(p) == Ok::<u64, Seq<char>>(elapsed_ms)),
        p matches HttpProbe::Responded { status, .. } ==> (!(200 <= status < 400)
            ==> http_result_of(p) is Err),
        !(p is Responded) ==> http_result_of(p) is Err,
{
}

/// A TCP probe succeeds exactly when the connection opened, with the
/// measured time.
pub proof fn law_tcp_result(p: TcpProbe)
    ensures
        p matches TcpProbe::Connected { elapsed_ms } ==> tcp_result_of(p) == Ok::<
            u64,
            Seq<char>,
        >(elapsed_ms),
        !(p is Connected) ==> tcp_result_of(p) is Err,
{
}

/// `prefix` followed by `detail`.
fn prefixed(prefix: &str, detail: &String) -> (r: String)
    ensures
        r@ == prefix@ + detail@,
{
    let mut s = String::from_str(prefix);
    s.append(detail.as_str());
    s
}

/// The result of a TCP probe.
pub fn tcp_probe_result(p: TcpProbe) -> (r: Result<u64, String>)
    ensures
        same_result(r, tcp_result_of(p)),
        p matches TcpProbe::Connected { elapsed_ms } ==> r == Ok::<u64, String>(elapsed_ms),
        !(p is Connected) ==> r is Err,
{
    match p {
        TcpProbe::Connected { elapsed_ms } => Ok(elapsed_ms),
        TcpProbe::Failed { reason } => Err(prefixed("连接失败: ", &reason)),
        TcpProbe::TimedOut => Err(String::from_str("连接超时")),
    }
}

/// The result of an HTTP probe.
pub fn http_probe_result(p: HttpProbe) -> (r: Result<u64, String>)
    requires
        p matches HttpProbe::Responded { status, .. } ==> 100 <= status <= 999,
    ensures
        same_result(r, http_result_of(p)),
        p matches HttpProbe::Responded { status, elapsed_ms } ==> (200 <= status < 400 ==> r
            == Ok::<u64, String>(elapsed_ms)),
        p matches HttpProbe::Responded { status, .. } ==> (!(200 <= status < 400) ==> r is Err),
        !(p is Responded) ==> r is Err,
{
    match p {
        HttpProbe::ClientFailed { reason } => Err(prefixed("创建客户端失败: ", &reason)),
        HttpProbe::RequestFailed { reason } => Err(prefixed("请求失败: ", &reason)),
        HttpProbe::Responded { status, elapsed_ms } => {
            if status_is_success(status) || status_is_redirection(status) {
                Ok(elapsed_ms)
            } else {
                let text = status_display(status);
                Err(prefixed("HTTP 错误: ", &text))
            }
        },
        HttpProbe::TimedOut => Err(String::from_str("请求超时")),
    }
}

/// An instant in UTC: whole seconds since the Unix epoch and the
/// nanoseconds past that second, as chrono's `DateTime<Utc>` reads it
/// (`timestamp` and `timestamp_subsec_nanos`).
#[derive(PartialEq, Eq, Structural, Clone, Copy, Debug)]
pub struct Timestamp {
    pub secs: i64,
    pub nanos: u32,
}

/// The recorded state of one service after a check.
#[derive(Debug)]
pub struct ServiceStatus {
    pub service_id: String,
    pub is_online: bool,
    /// Milliseconds the probe took; 0 when it failed.
    pub response_time: u64,
    /// When the check finished.
    pub last_checked: Timestamp,
    /// Why the service counts as offline.
    pub error_message: Option<String>,
}

/// The status of service `id` whose probe gave `result`, checked at
/// `checked_at`.
pub open spec fn status_of(id: String, result: Result<u64, String>, checked_at: Timestamp) -> ServiceStatus {
    match result {
        Ok(t) => ServiceStatus {
            service_id: id,
            is_online: true,
            response_time: t,
            last_checked: checked_at,
            error_message: None,
        },
        Err(e) => ServiceStatus {
            service_id: id,
            is_online: false,
            response_time: 0,
            last_checked: checked_at,
            error_message: Some(e),
        },
    }
}

/// The message recorded for a service that could not be checked at all.
pub open spec fn check_failed_text() -> Seq<char> {
    "检查失败"@
}

/// The status of service `id` that could not be checked at all, stamped
/// `checked_at`.
pub open spec fn is_check_failed_status(s: ServiceStatus, id: String, checked_at: Timestamp) -> bool {
    &&& s.service_id == id
    &&& !s.is_online
    &&& s.response_time == 0
    &&& s.last_checked == checked_at
    &&& s.error_message matches Some(m) && m@ == check_failed_text()
}

/// The status of service `id` whose probe gave `result`, checked at
/// `checked_at`.
pub fn status_from_check(id: String, result: Result<u64, String>, checked_at: Timestamp) -> (r:
    ServiceStatus)
    ensures
        r == status_of(id, result, checked_at),
{
    match result {
        Ok(t) => ServiceStatus {
            service_id: id,
            is_online: true,
            response_time: t,
            last_checked: checked_at,
            error_message: None,
        },
        Err(e) => ServiceStatus {
            service_id: id,
            is_online: false,
            response_time: 0,
            last_checked: checked_at,
            error_message: Some(e),
        },
    }
}

/// The status of service `id` that could not be checked at all, stamped
/// `checked_at`.
pub fn check_failed_status(id: String, checked_at: Timestamp) -> (r: ServiceStatus)
    ensures
        is_check_failed_status(r, id, checked_at),
{
    ServiceStatus {
        service_id: id,
        is_online: false,
        response_time: 0,
        last_checked: checked_at,
        error_message: Some(String::from_str("检查失败")),
    }
}

/// The ids of the services that a sweep over `s` checks, in order.
pub open spec fn sweep_targets_of(s: Seq<ServiceConfig>) -> Seq<Seq<char>> {
    enabled_of(s).map_values(|c: ServiceConfig| c.id@)
}

/// A check of every enabled service, one after the other: the ids to check
/// and the statuses recorded so far. The statuses recorded belong, one for
/// one and in order, to the first ids.
pub struct StatusSweep {
    targets: Vec<String>,
    statuses: Vec<ServiceStatus>,
}

impl StatusSweep {
    #[verifier::type_invariant]
    spec fn statuses_match_targets(&self) -> bool {
        &&& self.statuses@.len() <= self.targets@.len()
        &&& forall|i: int|
            0 <= i < self.statuses@.len() ==> #[trigger] self.statuses@[i].service_id
                == self.targets@[i]
    }

    /// The ids of the services to check, in order.
    pub closed spec fn targets(&self) -> Seq<Seq<char>> {
        self.targets@.map_values(|t: String| t@)
    }

    /// The `k`-th id to check, as the string that the sweep holds.
    pub closed spec fn target_string(&self, k: int) -> String {
        self.targets@[k]
    }

    /// The statuses recorded so far, in order.
    pub closed spec fn statuses(&self) -> Seq<ServiceStatus> {
        self.statuses@
    }

    /// Every target has its status.
    pub open spec fn done(&self) -> bool {
        self.statuses().len() == self.targets().len()
    }

    /// A sweep over the enabled services of `registry`, nothing recorded yet.
    pub fn new(registry: &ServiceRegistry) -> (r: StatusSweep)
        ensures
            r.targets() == sweep_targets_of(registry@),
            r.statuses() == Seq::<ServiceStatus>::empty(),
    {
        let enabled = registry.enabled_services();
        let n = enabled.len();
        let mut targets: Vec<String> = Vec::new();
        let mut i: usize = 0;
        while i < n
            invariant
                n == enabled@.len(),
                enabled@ == enabled_of(registry@),
                i <= n,
                targets@.len() == i,
                forall|k: int| 0 <= k < i ==> #[trigger] targets@[k]@ == enabled@[k].id@,
            decreases n - i,
        {
            targets.push(enabled[i].id.clone());
            i = i + 1;
        }
        let r = StatusSweep { targets, statuses: Vec::new() };
        proof {
            assert(r.targets() =~= sweep_targets_of(registry@));
        }
        r
    }

    /// Whether every target has its status.
    pub fn is_done(&self) -> (r: bool)
        ensures
            r == self.done(),
    {
        proof {
            assert(self.targets().len() == self.targets@.len());
        }
        self.statuses.len() == self.targets.len()
    }

    /// The id to check next, if any is left.
    pub fn next_target(&self) -> (r: Option<String>)
        ensures
            self.done() ==> r is None,
            !self.done() ==> (r matches Some(id) && id@ == self.targets()[self.statuses().len()
                as int]),
    {
        proof {
            use_type_invariant(self);
        }
        let k = self.statuses.len();
        if k < self.targets.len() {
            Some(self.targets[k].clone())
        } else {
            None
        }
    }

    /// Records the outcome for the next target, checked at `checked_at`:
    /// `None` where the service was gone by the time it was to be checked,
    /// else the probe's result.
    pub fn record(&mut self, outcome: Option<Result<u64, String>>, checked_at: Timestamp)
        requires
            !old(self).done(),
        ensures
            final(self).targets() == old(self).targets(),
            final(self).statuses().len() == old(self).statuses().len() + 1,
            final(self).statuses().drop_last() == old(self).statuses(),
            final(self).statuses().last().service_id@ == old(self).targets()[old(
                self,
            ).statuses().len() as int],
            ({
                let s = final(self).statuses().last();
                let id = old(self).target_string(old(self).statuses().len() as int);
                match outcome {
                    Some(result) => s == status_of(id, result, checked_at),
                    None => is_check_failed_status(s, id, checked_at),
                }
            }),
    {
        proof {
            use_type_invariant(&*self);
        }
        let k = self.statuses.len();
        let id = self.targets[k].clone();
        let status = match outcome {
            Some(result) => status_from_check(id, result, checked_at),
            None => check_failed_status(id, checked_at),
        };
        let mut statuses: Vec<ServiceStatus> = Vec::new();
        std::mem::swap(&mut statuses, &mut self.statuses);
        statuses.push(status);
        self.statuses = statuses;
        proof {
            assert(self.statuses@.drop_last() =~= old(self).statuses@);
        }
    }

    /// The statuses recorded, in order. They belong, one for one and in
    /// order, to the first targets; once the sweep is done there is exactly
    /// one per enabled service, each under that service's id.
    pub fn into_statuses(self) -> (r: Vec<ServiceStatus>)
        ensures
            r@ == self.statuses(),
            r@.len() <= self.targets().len(),
            forall|i: int| 0 <= i < r@.len() ==> #[trigger] r@[i].service_id@ == self.targets()[i],
            self.done() ==> r@.map_values(|s: ServiceStatus| s.service_id@) == self.targets(),
    {
        proof {
            use_type_invariant(&self);
            assert(self.done() ==> self.statuses@.map_values(|s: ServiceStatus| s.service_id@)
                =~= self.targets());
        }
        self.statuses
    }
}

/// A status counts a service online exactly when it carries no error, and
/// an offline service has no response time.
pub proof fn law_status_shape(id: String, result: Result<u64, String>, checked_at: Timestamp)
    ensures
        status_of(id, result, checked_at).is_online <==> status_of(
            id,
            result,
            checked_at,
        ).error_message is None,
        !status_of(id, result, checked_at).is_online ==> status_of(
            id,
            result,
            checked_at,
        ).response_time == 0,
        status_of(id, result, checked_at).service_id == id,
        status_of(id, result, checked_at).is_online <==> result is Ok,
        status_of(id, result, checked_at).last_checked == checked_at,
        result matches Ok(t) ==> status_of(id, result, checked_at).response_time == t,
        result matches Err(e) ==> status_of(id, result, checked_at).error_message == Some(e),
{
}

} // verus!
