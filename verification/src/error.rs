//! The failures that the engine reports.

use vstd::prelude::*;
use vstd::string::StringExecFns;
use crate::decimal::{decimal_digits, push_decimal};

verus! {

#[derive(Debug)]
pub enum AppError {
    /// The inventory client itself failed; holds its raw diagnostic text.
    UpstreamQueryFailure(String),
    /// A query result was not well-formed JSON.
    Json(String),
    /// The operating system refused an operation.
    Io(String),
    /// No instance's name holds the pattern.
    NoInstance(String),
    /// More than one instance's name holds the pattern.
    MultipleInstances { pattern: String, matches: usize },
    /// Every resolution strategy was exhausted.
    NoPathFound { host: String },
    /// No connected relay may reach the target.
    NoHopAvailable { host: String },
    /// The local port already accepts connections.
    PortAlreadyInUse(u16),
    /// The local port did not open within the time allowed.
    PortNeverOpened(u16),
    /// The local port opened, but the remote end did not answer.
    RemoteUnreachable(u16),
    /// Every relay that was tried failed.
    AggregateFallbackFailure { attempts: usize, host: String, port: u16 },
    /// The VPN could not be set up or brought up.
    Vpn(String),
    /// The sign-on for the VPN did not come through.
    SamlAuth(String),
    /// The browser that signs on could not be driven.
    Browser(String),
}

pub enum AppErrorView {
    UpstreamQueryFailure(Seq<char>),
    Json(Seq<char>),
    Io(Seq<char>),
    NoInstance(Seq<char>),
    MultipleInstances { pattern: Seq<char>, matches: usize },
    NoPathFound { host: Seq<char> },
    NoHopAvailable { host: Seq<char> },
    PortAlreadyInUse(u16),
    PortNeverOpened(u16),
    RemoteUnreachable(u16),
    AggregateFallbackFailure { attempts: usize, host: Seq<char>, port: u16 },
    Vpn(Seq<char>),
    SamlAuth(Seq<char>),
    Browser(Seq<char>),
}

impl View for AppError {
    type V = AppErrorView;

    open spec fn view(&self) -> AppErrorView {
        match self {
            AppError::UpstreamQueryFailure(s) => AppErrorView::UpstreamQueryFailure(s@),
            AppError::Json(s) => AppErrorView::Json(s@),
            AppError::Io(s) => AppErrorView::Io(s@),
            AppError::NoInstance(s) => AppErrorView::NoInstance(s@),
            AppError::MultipleInstances { pattern, matches } => AppErrorView::MultipleInstances {
                pattern: pattern@,
                matches: *matches,
            },
            AppError::NoPathFound { host } => AppErrorView::NoPathFound { host: host@ },
            AppError::NoHopAvailable { host } => AppErrorView::NoHopAvailable { host: host@ },
            AppError::PortAlreadyInUse(p) => AppErrorView::PortAlreadyInUse(*p),
            AppError::PortNeverOpened(p) => AppErrorView::PortNeverOpened(*p),
            AppError::RemoteUnreachable(p) => AppErrorView::RemoteUnreachable(*p),
            AppError::AggregateFallbackFailure {
                attempts,
                host,
                port,
            } => AppErrorView::AggregateFallbackFailure {
                attempts: *attempts,
                host: host@,
                port: *port,
            },
            AppError::Vpn(s) => AppErrorView::Vpn(s@),
            AppError::SamlAuth(s) => AppErrorView::SamlAuth(s@),
            AppError::Browser(s) => AppErrorView::Browser(s@),
        }
    }
}

/// The message that a failure is reported with.
pub open spec fn message_of(e: AppErrorView) -> Seq<char> {
    match e {
        AppErrorView::UpstreamQueryFailure(s) => "AWS CLI error: "@ + s,
        AppErrorView::Json(s) => "JSON parse error: "@ + s,
        AppErrorView::Io(s) => "IO error: "@ + s,
        AppErrorView::NoInstance(s) => "No instance found matching: "@ + s,
        AppErrorView::MultipleInstances { pattern, matches } => "Multiple instances found matching: "@
            + pattern + " ("@ + decimal_digits(matches as nat) + " matches)"@,
        AppErrorView::NoPathFound { host } => "No SSM-online bastions found for "@ + host,
        AppErrorView::NoHopAvailable { host } => "No connected relay may reach "@ + host,
        AppErrorView::PortAlreadyInUse(p) => "Port "@ + decimal_digits(p as nat)
            + " already in use"@,
        AppErrorView::PortNeverOpened(p) => "Port "@ + decimal_digits(p as nat)
            + " is not open after timeout"@,
        AppErrorView::RemoteUnreachable(p) =>
            "Tunnel error: Remote service unreachable - no response on port "@ + decimal_digits(
            p as nat,
        ) + " within 5 s"@,
        AppErrorView::AggregateFallbackFailure { attempts, host, port } => "Tunnel error: All "@
            + decimal_digits(attempts as nat) + " bastion(s) failed to tunnel to "@ + host + ":"@
            + decimal_digits(port as nat),
        AppErrorView::Vpn(s) => "VPN error: "@ + s,
        AppErrorView::SamlAuth(s) => "SAML authentication error: "@ + s,
        AppErrorView::Browser(s) => "Browser error: "@ + s,
    }
}

impl AppError {
    /// The message that the failure is reported with.
    pub fn message(&self) -> (m: String)
        ensures
            m@ == message_of(self@),
    {
        match self {
            AppError::UpstreamQueryFailure(s) => String::from_str("AWS CLI error: ").concat(
                s.as_str(),
            ),
            AppError::Json(s) => String::from_str("JSON parse error: ").concat(s.as_str()),
            AppError::Io(s) => String::from_str("IO error: ").concat(s.as_str()),
            AppError::NoInstance(s) => String::from_str("No instance found matching: ").concat(
                s.as_str(),
            ),
            AppError::MultipleInstances { pattern, matches } => {
                let mut m = String::from_str("Multiple instances found matching: ");
                m.append(pattern.as_str());
                m.append(" (");
                push_decimal(&mut m, *matches as u64);
                m.append(" matches)");
                m
            },
            AppError::NoPathFound { host } => String::from_str(
                "No SSM-online bastions found for ",
            ).concat(host.as_str()),
            AppError::NoHopAvailable { host } => String::from_str(
                "No connected relay may reach ",
            ).concat(host.as_str()),
            AppError::PortAlreadyInUse(p) => {
                let mut m = String::from_str("Port ");
                push_decimal(&mut m, *p as u64);
                m.append(" already in use");
                m
            },
            AppError::PortNeverOpened(p) => {
                let mut m = String::from_str("Port ");
                push_decimal(&mut m, *p as u64);
                m.append(" is not open after timeout");
                m
            },
            AppError::RemoteUnreachable(p) => {
                let mut m = String::from_str(
                    "Tunnel error: Remote service unreachable - no response on port ",
                );
                push_decimal(&mut m, *p as u64);
                m.append(" within 5 s");
                m
            },
            AppError::AggregateFallbackFailure { attempts, host, port } => {
                let mut m = String::from_str("Tunnel error: All ");
                push_decimal(&mut m, *attempts as u64);
                m.append(" bastion(s) failed to tunnel to ");
                m.append(host.as_str());
                m.append(":");
                push_decimal(&mut m, *port as u64);
                m
            },
            AppError::Vpn(s) => String::from_str("VPN error: ").concat(s.as_str()),
            AppError::SamlAuth(s) => String::from_str("SAML authentication error: ").concat(
                s.as_str(),
            ),
            AppError::Browser(s) => String::from_str("Browser error: ").concat(s.as_str()),
        }
    }
}

} // verus!
