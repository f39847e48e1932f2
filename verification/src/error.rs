//! Errors met while checking a data source.
use vstd::prelude::*;

verus! {

/// An error met while checking a data source.
#[derive(Clone, Debug)]
pub enum OSLOError {
    PrometheusError(String),
    ProviderError(String),
}

/// An error with its detail as plain text.
pub enum OSLOErrorView {
    PrometheusError(Seq<char>),
    ProviderError(Seq<char>),
}

impl View for OSLOError {
    type V = OSLOErrorView;

    open spec fn view(&self) -> OSLOErrorView {
        match self {
            OSLOError::PrometheusError(s) => OSLOErrorView::PrometheusError(s@),
            OSLOError::ProviderError(s) => OSLOErrorView::ProviderError(s@),
        }
    }
}

/// The message of an error: `Prometheus: <detail>` or `Provider: <detail>`.
pub open spec fn error_text(e: OSLOErrorView) -> Seq<char> {
    match e {
        OSLOErrorView::PrometheusError(s) => "Prometheus: "@ + s,
        OSLOErrorView::ProviderError(s) => "Provider: "@ + s,
    }
}

impl OSLOError {
    /// The message of the error.
    pub fn to_string(&self) -> (s: String)
        ensures
            s@ == error_text(self@),
    {
        match self {
            OSLOError::PrometheusError(detail) => String::from_str("Prometheus: ").concat(detail.as_str()),
            OSLOError::ProviderError(detail) => String::from_str("Provider: ").concat(detail.as_str()),
        }
    }
}

} // verus!
