use crate::config::{Reporter, ReporterView};
use crate::interval::Interval;
use vstd::prelude::*;
use vstd::string::*;

verus! {

/// The base of the collection endpoint.
pub const REPORT_URL: &'static str = "https://report.crisp.watch/v1";

/// The name and version that identify this reporter to the endpoint.
pub const USER_AGENT: &'static str = "rs-crisp-status-reporter/1.2.0";

/// The HTTP status of an accepted report.
pub const STATUS_OK: u16 = 200;

/// The Base64 text (standard alphabet, padded) of the UTF-8 bytes of `text`.
pub uninterp spec fn base64_of_text(text: Seq<char>) -> Seq<char>;

/// Relies on base64::encode: the standard, padded Base64 text of the bytes
/// handed to it, here the UTF-8 bytes of `text`.
#[verifier::external_body]
fn base64_encode(text: &str) -> (r: String)
    ensures
        r@ == base64_of_text(text@),
{
    base64::encode(text)
}

/// The endpoint that receives the reports of `node_id` of `service_id`.
pub open spec fn report_url_of(service_id: Seq<char>, node_id: Seq<char>) -> Seq<char> {
    REPORT_URL@ + "/report/"@ + service_id + "/"@ + node_id + "/"@
}

/// The value of the Basic authorization header for `token`: an empty user
/// name and `token` as password.
pub open spec fn authorization_of(token: Seq<char>) -> Seq<char> {
    "Basic "@ + base64_of_text(":"@ + token)
}

/// Composes the endpoint that receives the reports of `node_id` of `service_id`.
pub fn report_url(service_id: &str, node_id: &str) -> (r: String)
    ensures
        r@ == report_url_of(service_id@, node_id@),
{
    let mut url = String::from_str(REPORT_URL);
    url.append("/report/");
    url.append(service_id);
    url.append("/");
    url.append(node_id);
    url.append("/");
    url
}

/// The value of the authorization header sent with each report.
pub fn authorization(token: &str) -> (r: String)
    ensures
        r@ == authorization_of(token@),
{
    let credentials = String::from_str(":").concat(token);
    String::from_str("Basic ").concat(base64_encode(credentials.as_str()).as_str())
}

/// The value of the user agent header sent with each report.
pub fn user_agent() -> (r: String)
    ensures
        r@ == USER_AGENT@,
{
    String::from_str(USER_AGENT)
}

/// The immutable state of a running reporting loop.
pub struct ReporterManager {
    /// Where each report is sent.
    pub report_url: String,
    /// The replica named in each report.
    pub replica_id: String,
    /// The time between two cycles of the loop.
    pub interval: Interval,
}

impl<'a> Reporter<'a> {
    /// The state of the reporting loop of this configuration, or `None`
    /// where the configuration lacks an identity field.
    pub fn manager(&self) -> (r: Option<ReporterManager>)
        ensures
            r is Some <==> self@.is_complete(),
            r matches Some(m) ==> {
                &&& m.report_url@ == report_url_of(
                    self@.service_id->Some_0,
                    self@.node_id->Some_0,
                )
                &&& m.replica_id@ == self@.replica_id->Some_0
                &&& m.interval@ == self@.interval
            },
    {
        match (self.service_id(), self.node_id(), self.replica_id()) {
            (Some(service_id), Some(node_id), Some(replica_id)) => Some(
                ReporterManager {
                    report_url: report_url(service_id, node_id),
                    replica_id: String::from_str(replica_id),
                    interval: self.interval(),
                },
            ),
            _ => None,
        }
    }

    /// The value of the authorization header for this configuration.
    pub fn authorization(&self) -> (r: String)
        ensures
            r@ == authorization_of(self@.token),
    {
        authorization(self.token())
    }
}

/// Classifies the outcome of one report request: `Ok` with the HTTP status
/// where the request reached the endpoint, `Err` where the transport failed.
/// Only the status 200 counts as success.
pub fn classify_response(outcome: Result<u16, ()>) -> (r: Result<(), ()>)
    ensures
        r is Ok <==> outcome == Ok::<u16, ()>(STATUS_OK),
{
    match outcome {
        Ok(status) => if status == STATUS_OK {
            Ok(())
        } else {
            Err(())
        },
        Err(()) => Err(()),
    }
}

/// The divisor of the one-minute load average that gives the CPU load:
/// the logical core count, at least one.  `None` where the core count or the
/// load average could not be read: the CPU load is then zero.
pub fn cpu_load_divisor(core_count: Option<u32>, load_average_read: bool) -> (r: Option<u32>)
    ensures
        r == (match core_count {
            Some(c) if load_average_read => Some(if c == 0 { 1u32 } else { c }),
            _ => None,
        }),
{
    match core_count {
        Some(c) if load_average_read => Some(if c > 1 { c } else { 1 }),
        _ => None,
    }
}

} // verus!
