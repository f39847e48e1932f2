//! Checking that a Prometheus data source answers: which URL is asked and how the
//! answer is judged.
use vstd::prelude::*;
use crate::error::{OSLOError, OSLOErrorView};
use crate::resources::{ConnectionDetailsView, DataSourceConnectionDetails, PrometheusConnectionDetails};
use crate::text::{decimal, u32_to_decimal};

verus! {

/// The text that the derived `Debug` of `DataSourceConnectionDetails` writes for a value.
pub uninterp spec fn connection_details_debug(details: ConnectionDetailsView) -> Seq<char>;

/// Writes the connection details with their derived `Debug` (`format!("{:?}", ..)`).
/// The result is named `connection_details_debug` of the details and is not spelled out.
#[verifier::external_body]
fn debug_connection_details(details: &DataSourceConnectionDetails) -> (s: String)
    ensures
        s@ == connection_details_debug(details@),
{
    format!("{:?}", details)
}

/// The reason phrase that `http::StatusCode::canonical_reason` gives for a status code,
/// or `<unknown status code>` where it gives none.
pub uninterp spec fn canonical_reason_text(code: u16) -> Seq<char>;

/// Writes a status code as `reqwest::StatusCode` (`http::StatusCode`) displays it: the
/// number, a space and the reason phrase. `StatusCode::from_u16` accepts exactly the
/// codes from 100 to 999.
#[verifier::external_body]
fn status_code_text(code: u16) -> (s: String)
    requires
        100 <= code <= 999,
    ensures
        s@ == decimal(code as nat) + " "@ + canonical_reason_text(code),
{
    match reqwest::StatusCode::from_u16(code) {
        Ok(status) => status.to_string(),
        Err(_) => String::new(),
    }
}

/// A client for a Prometheus data source.
#[derive(Clone, Debug)]
pub struct PrometheusProvider {
    pub config: PrometheusConnectionDetails,
}

/// The message with which a provider refuses connection details of another kind.
pub open spec fn unsupported_details_message(details: ConnectionDetailsView) -> Seq<char> {
    "parse incorrect, "@ + connection_details_debug(details)
}

impl PrometheusProvider {
    /// A provider for Prometheus connection details; other details are refused with a
    /// provider error that shows them.
    pub fn new(details: DataSourceConnectionDetails) -> (r: Result<PrometheusProvider, OSLOError>)
        ensures
            match details {
                DataSourceConnectionDetails::PrometheusConnectionDetails(config) => r == Ok::<PrometheusProvider, OSLOError>(PrometheusProvider { config }),
                DataSourceConnectionDetails::DatadogConnectionDetails(_) => r matches Err(e)
                    && e@ == OSLOErrorView::ProviderError(unsupported_details_message(details@)),
            },
    {
        match details {
            DataSourceConnectionDetails::PrometheusConnectionDetails(config) => Ok(PrometheusProvider { config }),
            _ => {
                let shown = debug_connection_details(&details);
                Err(OSLOError::ProviderError(String::from_str("parse incorrect, ").concat(shown.as_str())))
            },
        }
    }

    /// The URL asked to check the server: its URL followed by the status-config path.
    pub fn status_config_url(&self) -> (url: String)
        ensures
            url@ == self.config.url@ + self.config.paths.status_config@,
    {
        self.config.url.clone().concat(self.config.paths.status_config.as_str())
    }
}

/// How a connection check of a data source begins.
#[derive(Clone, Debug)]
pub enum CheckStart {
    /// Ask the server at this URL for its configuration status.
    Probe(String),
    /// The check is over before any request: `None` when fine, else the error.
    Done(Option<OSLOError>),
}

/// Begins the connection check of a data source: Prometheus details are probed at
/// their status-config URL; other details end the check at once with the provider's
/// refusal.
pub fn start_check(details: DataSourceConnectionDetails) -> (s: CheckStart)
    ensures
        match details {
            DataSourceConnectionDetails::PrometheusConnectionDetails(c) => s matches CheckStart::Probe(url)
                && url@ == c.url@ + c.paths.status_config@,
            DataSourceConnectionDetails::DatadogConnectionDetails(_) => s matches CheckStart::Done(Some(e))
                && e@ == OSLOErrorView::ProviderError(unsupported_details_message(details@)),
        },
{
    match PrometheusProvider::new(details) {
        Ok(provider) => CheckStart::Probe(provider.status_config_url()),
        Err(e) => CheckStart::Done(Some(e)),
    }
}

/// What happened while asking a Prometheus server for its configuration status.
#[derive(Clone, Debug)]
pub enum ProbeEvent {
    /// The request could not be sent; the error's message.
    SendFailed(String),
    /// The server answered with this HTTP status code.
    Responded(u16),
    /// The answer's body was read; the `status` field it holds.
    BodyRead(String),
    /// The answer's body could not be read; the error's message.
    BodyUnreadable(String),
}

/// What to do next while checking a Prometheus server.
#[derive(Clone, Debug)]
pub enum ProbeAction {
    /// Read the body of the answer.
    ReadBody,
    /// The check is over: `None` when the server is fine, else the error found.
    Finish(Option<OSLOError>),
}

/// The next step of a check, with errors as plain text.
pub enum ProbeActionView {
    ReadBody,
    Finish(Option<OSLOErrorView>),
}

impl View for ProbeAction {
    type V = ProbeActionView;

    open spec fn view(&self) -> ProbeActionView {
        match self {
            ProbeAction::ReadBody => ProbeActionView::ReadBody,
            ProbeAction::Finish(None) => ProbeActionView::Finish(None),
            ProbeAction::Finish(Some(e)) => ProbeActionView::Finish(Some(e@)),
        }
    }
}

/// The HTTP status code of a successful answer.
pub const HTTP_OK: u16 = 200;

/// A check that ends with a Prometheus error of the given detail.
pub open spec fn probe_failure(detail: Seq<char>) -> ProbeActionView {
    ProbeActionView::Finish(Some(OSLOErrorView::PrometheusError(detail)))
}

/// How a check goes on after each event: an answer other than 200 fails the check
/// with its status; a 200 answer has its body read; the body's status must be
/// `success`, else the check fails with that status.
pub open spec fn probe_next(event: ProbeEvent) -> ProbeActionView {
    match event {
        ProbeEvent::SendFailed(err) => probe_failure("Connection error: "@ + err@),
        ProbeEvent::Responded(code) => if code == HTTP_OK {
            ProbeActionView::ReadBody
        } else {
            probe_failure("Response code is incorrect "@ + decimal(code as nat) + " "@ + canonical_reason_text(code) + "."@)
        },
        ProbeEvent::BodyRead(status) => if status@ == "success"@ {
            ProbeActionView::Finish(None)
        } else {
            probe_failure("Prometheus configuration is unsucceed. Status "@ + status@)
        },
        ProbeEvent::BodyUnreadable(err) => probe_failure("Parse error: "@ + err@),
    }
}

/// HTTP status codes are between 100 and 999.
pub open spec fn valid_probe_event(event: ProbeEvent) -> bool {
    event matches ProbeEvent::Responded(code) ==> 100 <= code <= 999
}

/// The next step of a check after `event`.
pub fn probe_step(event: ProbeEvent) -> (action: ProbeAction)
    requires
        valid_probe_event(event),
    ensures
        action@ == probe_next(event),
{
    match event {
        ProbeEvent::SendFailed(err) => ProbeAction::Finish(Some(OSLOError::PrometheusError(
            String::from_str("Connection error: ").concat(err.as_str()),
        ))),
        ProbeEvent::Responded(code) => {
            if code == HTTP_OK {
                ProbeAction::ReadBody
            } else {
                let text = status_code_text(code);
                let detail = String::from_str("Response code is incorrect ").concat(text.as_str()).concat(".");
                assert(detail@ =~= "Response code is incorrect "@ + decimal(code as nat) + " "@ + canonical_reason_text(code) + "."@);
                ProbeAction::Finish(Some(OSLOError::PrometheusError(detail)))
            }
        },
        ProbeEvent::BodyRead(status) => {
            let success = String::from_str("success");
            if status == success {
                ProbeAction::Finish(None)
            } else {
                ProbeAction::Finish(Some(OSLOError::PrometheusError(
                    String::from_str("Prometheus configuration is unsucceed. Status ").concat(status.as_str()),
                )))
            }
        },
        ProbeEvent::BodyUnreadable(err) => ProbeAction::Finish(Some(OSLOError::PrometheusError(
            String::from_str("Parse error: ").concat(err.as_str()),
        ))),
    }
}

/// A check takes at most two steps: only a 200 answer has the body read, and every
/// event about the body ends the check.
pub proof fn lemma_probe_ends(event: ProbeEvent)
    ensures
        (probe_next(event) is ReadBody) == (event == ProbeEvent::Responded(HTTP_OK)),
        (event is BodyRead || event is BodyUnreadable) ==> probe_next(event) is Finish,
{
}

/// A check succeeds only on a body whose status is exactly `success`.
pub proof fn lemma_probe_success(event: ProbeEvent)
    ensures
        (probe_next(event) == ProbeActionView::Finish(None))
            == (event matches ProbeEvent::BodyRead(status) && status@ == "success"@),
{
}

} // verus!
