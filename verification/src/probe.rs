use vstd::prelude::*;
use vstd::string::StringExecFns;
use crate::classify::{
    body_has_signature,
    classify_status,
    has_signature,
    response_outcome,
    status_class,
    StatusClass,
};
use crate::config::ProbeConfig;
use crate::outcome::ProbeOutcome;
use crate::report::{
    confirmed_line,
    invalid_line,
    potential_line,
    write_confirmed_line,
    write_invalid_line,
    write_potential_line,
};
use crate::text::{decimal, push_decimal};

verus! {

/// Where the probe of one host stands.
#[derive(Clone, Copy, Debug, PartialEq, Eq, Structural)]
pub enum ProbePhase {
    /// The TCP connection has to be tried.
    Connecting,
    /// The port answered; the HTTP request has to be sent.
    Requesting,
    /// A success status came back; the page has to be read.
    ReadingBody,
    /// The probe has its outcome.
    Finished(ProbeOutcome),
    /// The caller reported something that cannot follow what was asked of
    /// it. The probe ends without an outcome.
    Aborted,
}

/// What the caller observed when it did what the probe asked for.
#[derive(Clone, Debug, PartialEq, Eq)]
pub enum ProbeEvent {
    /// The TCP connection was made.
    Connected,
    /// The TCP connection was refused, or did not complete in time.
    ConnectFailed,
    /// A response arrived, with this status code.
    Status(u16),
    /// The page of the response was read.
    Body(String),
    /// The request or the reading of the page failed.
    TransportError,
}

/// A `ProbeEvent` as contracts see it.
pub enum ProbeEventView {
    Connected,
    ConnectFailed,
    Status(u16),
    Body(Seq<char>),
    TransportError,
}

impl View for ProbeEvent {
    type V = ProbeEventView;

    open spec fn view(&self) -> ProbeEventView {
        match self {
            ProbeEvent::Connected => ProbeEventView::Connected,
            ProbeEvent::ConnectFailed => ProbeEventView::ConnectFailed,
            ProbeEvent::Status(code) => ProbeEventView::Status(*code),
            ProbeEvent::Body(page) => ProbeEventView::Body(page@),
            ProbeEvent::TransportError => ProbeEventView::TransportError,
        }
    }
}

/// What the probe asks of the caller next.
#[derive(Clone, Debug, PartialEq, Eq)]
pub enum ProbeAction {
    /// Try a TCP connection to `address`, for at most `timeout_secs` seconds.
    Connect { address: String, timeout_secs: u64 },
    /// Send one GET request to `url`.
    Request { url: String },
    /// Read the page of the response that arrived.
    ReadBody,
    /// Nothing more: the probe ended, with this outcome or, after an abort,
    /// with none.
    Done(Option<ProbeOutcome>),
}

/// A `ProbeAction` as contracts see it.
pub enum ProbeActionView {
    Connect { address: Seq<char>, timeout_secs: u64 },
    Request { url: Seq<char> },
    ReadBody,
    Done(Option<ProbeOutcome>),
}

impl View for ProbeAction {
    type V = ProbeActionView;

    open spec fn view(&self) -> ProbeActionView {
        match self {
            ProbeAction::Connect { address, timeout_secs } => ProbeActionView::Connect {
                address: address@,
                timeout_secs: *timeout_secs,
            },
            ProbeAction::Request { url } => ProbeActionView::Request { url: url@ },
            ProbeAction::ReadBody => ProbeActionView::ReadBody,
            ProbeAction::Done(outcome) => ProbeActionView::Done(*outcome),
        }
    }
}

impl ProbeActionView {
    /// The action has the caller touch the network.
    pub open spec fn uses_network(self) -> bool {
        !(self is Done)
    }
}

/// The text that names the TCP endpoint: the address, a colon, the port.
pub open spec fn connect_address(address: Seq<char>, port: u16) -> Seq<char> {
    address + ":"@ + decimal(port as nat)
}

/// The URL that is requested: the scheme, the address, a colon, the port,
/// the path.
pub open spec fn request_url(address: Seq<char>, port: u16, path: Seq<char>) -> Seq<char> {
    "http://"@ + address + ":"@ + decimal(port as nat) + path
}

/// Writes the text that names the TCP endpoint.
pub fn write_connect_address(address: &str, port: u16) -> (text: String)
    ensures
        text@ == connect_address(address@, port),
{
    let mut text = String::from_str(address);
    text.append(":");
    push_decimal(&mut text, port as u64);
    text
}

/// Writes the URL that is requested.
pub fn write_request_url(address: &str, port: u16, path: &str) -> (url: String)
    ensures
        url@ == request_url(address@, port, path@),
{
    let mut url = String::from_str("http://");
    url.append(address);
    url.append(":");
    push_decimal(&mut url, port as u64);
    url.append(path);
    url
}

/// The phase that follows `phase` when the caller reports `event`.
///
/// A failed connection ends the probe as unreachable. A refusal (401, 403)
/// ends it as potential, a success status asks for the page, any other
/// status ends it as absent. The page decides between confirmed and absent.
/// A transport error after the connection ends it as absent. A finished
/// probe stays as it is; any other event out of turn aborts the probe.
pub open spec fn next_phase(phase: ProbePhase, event: ProbeEventView) -> ProbePhase {
    match phase {
        ProbePhase::Connecting => match event {
            ProbeEventView::Connected => ProbePhase::Requesting,
            ProbeEventView::ConnectFailed => ProbePhase::Finished(ProbeOutcome::Unreachable),
            _ => ProbePhase::Aborted,
        },
        ProbePhase::Requesting => match event {
            ProbeEventView::Status(code) => match status_class(code) {
                StatusClass::Denied => ProbePhase::Finished(ProbeOutcome::Potential),
                StatusClass::Success => ProbePhase::ReadingBody,
                StatusClass::Other => ProbePhase::Finished(ProbeOutcome::Absent),
            },
            ProbeEventView::TransportError => ProbePhase::Finished(ProbeOutcome::Absent),
            _ => ProbePhase::Aborted,
        },
        ProbePhase::ReadingBody => match event {
            ProbeEventView::Body(page) => ProbePhase::Finished(
                if has_signature(page) {
                    ProbeOutcome::Confirmed
                } else {
                    ProbeOutcome::Absent
                },
            ),
            ProbeEventView::TransportError => ProbePhase::Finished(ProbeOutcome::Absent),
            _ => ProbePhase::Aborted,
        },
        ProbePhase::Finished(outcome) => ProbePhase::Finished(outcome),
        ProbePhase::Aborted => ProbePhase::Aborted,
    }
}

/// A probe as contracts see it.
pub struct ProbeView {
    /// The host text as it was given.
    pub host: Seq<char>,
    /// The address as it was parsed and written again, where the host text
    /// is an IP address.
    pub address: Option<Seq<char>>,
    /// Where the probe stands.
    pub phase: ProbePhase,
    /// The status code of the response, once one has arrived.
    pub status: Option<u16>,
}

impl ProbeView {
    /// A probe that was just made for `host`.
    pub open spec fn start(host: Seq<char>, address: Option<Seq<char>>) -> ProbeView {
        ProbeView {
            host,
            address,
            phase: if address is Some {
                ProbePhase::Connecting
            } else {
                ProbePhase::Finished(ProbeOutcome::Invalid)
            },
            status: None,
        }
    }

    /// The probe after the caller reported `event`.
    pub open spec fn advance(self, event: ProbeEventView) -> ProbeView {
        ProbeView {
            host: self.host,
            address: self.address,
            phase: next_phase(self.phase, event),
            status: if self.phase == ProbePhase::Requesting && event is Status {
                Some(event->Status_0)
            } else {
                self.status
            },
        }
    }

    /// The probe after the caller reported `events`, one after the other.
    pub open spec fn run(self, events: Seq<ProbeEventView>) -> ProbeView
        decreases events.len(),
    {
        if events.len() == 0 {
            self
        } else {
            self.advance(events.first()).run(events.drop_first())
        }
    }

    /// What holds of every probe that was started and advanced: only a host
    /// that is no address is invalid, and a phase that rests on a status
    /// code has that code.
    pub open spec fn wf(self) -> bool {
        &&& self.address is None <==> self.phase == ProbePhase::Finished(ProbeOutcome::Invalid)
        &&& self.phase == ProbePhase::ReadingBody ==> self.status is Some && status_class(
            self.status->0,
        ) == StatusClass::Success
        &&& self.phase == ProbePhase::Finished(ProbeOutcome::Potential) ==> self.status is Some
            && status_class(self.status->0) == StatusClass::Denied
    }

    /// What the probe asks of the caller.
    pub open spec fn action(self, config: ProbeConfig) -> ProbeActionView {
        match self.phase {
            ProbePhase::Connecting => ProbeActionView::Connect {
                address: connect_address(self.address->0, config.port),
                timeout_secs: config.connect_timeout_secs,
            },
            ProbePhase::Requesting => ProbeActionView::Request {
                url: request_url(self.address->0, config.port, config.path@),
            },
            ProbePhase::ReadingBody => ProbeActionView::ReadBody,
            ProbePhase::Finished(outcome) => ProbeActionView::Done(Some(outcome)),
            ProbePhase::Aborted => ProbeActionView::Done(None),
        }
    }

    /// The outcome, once the probe has one.
    pub open spec fn outcome(self) -> Option<ProbeOutcome> {
        match self.phase {
            ProbePhase::Finished(outcome) => Some(outcome),
            _ => None,
        }
    }

    /// The line that tells the operator of the probe's outcome: one for a
    /// confirmed endpoint, one for a potential endpoint, one for a host that
    /// is no address, none otherwise.
    pub open spec fn line(self, config: ProbeConfig) -> Option<Seq<char>> {
        match self.phase {
            ProbePhase::Finished(ProbeOutcome::Confirmed) => Some(
                confirmed_line(self.address->0, config.path@),
            ),
            ProbePhase::Finished(ProbeOutcome::Potential) => Some(
                potential_line(self.address->0, config.path@, self.status->0),
            ),
            ProbePhase::Finished(ProbeOutcome::Invalid) => Some(invalid_line(self.host)),
            _ => None,
        }
    }
}

/// The probe of one host: a state machine that the caller drives. The caller
/// does what `action` asks for, reports what it observed to `advance`, and
/// stops at `Done`.
#[derive(Debug)]
pub struct Probe {
    host: String,
    address: Option<String>,
    phase: ProbePhase,
    status: Option<u16>,
}

impl View for Probe {
    type V = ProbeView;

    closed spec fn view(&self) -> ProbeView {
        ProbeView {
            host: self.host@,
            address: match self.address {
                Some(address) => Some(address@),
                None => None,
            },
            phase: self.phase,
            status: self.status,
        }
    }
}

impl Probe {
    /// Starts the probe of `host`. `address` is the host as the caller's IP
    /// address parser read and wrote it again, or `None` where the host text
    /// is no IP address: the probe then ends at once as invalid, and never
    /// asks for the network.
    pub fn new(host: String, address: Option<String>) -> (probe: Probe)
        ensures
            probe@ == ProbeView::start(
                host@,
                match address {
                    Some(text) => Some(text@),
                    None => None,
                },
            ),
            probe@.wf(),
    {
        let phase = if address.is_some() {
            ProbePhase::Connecting
        } else {
            ProbePhase::Finished(ProbeOutcome::Invalid)
        };
        Probe { host, address, phase, status: None }
    }

    /// Where the probe stands.
    pub fn phase(&self) -> (phase: ProbePhase)
        ensures
            phase == self@.phase,
    {
        self.phase
    }

    /// The outcome, once the probe has one.
    pub fn outcome(&self) -> (outcome: Option<ProbeOutcome>)
        ensures
            outcome == self@.outcome(),
    {
        match self.phase {
            ProbePhase::Finished(outcome) => Some(outcome),
            _ => None,
        }
    }

    /// The status code of the response, once one has arrived.
    pub fn status(&self) -> (status: Option<u16>)
        ensures
            status == self@.status,
    {
        self.status
    }

    /// What the caller has to do next.
    pub fn action(&self, config: &ProbeConfig) -> (action: ProbeAction)
        requires
            self@.wf(),
        ensures
            action@ == self@.action(*config),
    {
        match self.phase {
            ProbePhase::Connecting => {
                let text = match &self.address {
                    Some(address) => write_connect_address(address.as_str(), config.port),
                    None => String::new(),
                };
                ProbeAction::Connect { address: text, timeout_secs: config.connect_timeout_secs }
            },
            ProbePhase::Requesting => {
                let url = match &self.address {
                    Some(address) => write_request_url(
                        address.as_str(),
                        config.port,
                        config.path.as_str(),
                    ),
                    None => String::new(),
                };
                ProbeAction::Request { url }
            },
            ProbePhase::ReadingBody => ProbeAction::ReadBody,
            ProbePhase::Finished(outcome) => ProbeAction::Done(Some(outcome)),
            ProbePhase::Aborted => ProbeAction::Done(None),
        }
    }

    /// Takes in what the caller observed.
    pub fn advance(&mut self, event: &ProbeEvent)
        requires
            old(self)@.wf(),
        ensures
            final(self)@ == old(self)@.advance(event@),
            final(self)@.wf(),
    {
        match self.phase {
            ProbePhase::Connecting => match event {
                ProbeEvent::Connected => {
                    self.phase = ProbePhase::Requesting;
                },
                ProbeEvent::ConnectFailed => {
                    self.phase = ProbePhase::Finished(ProbeOutcome::Unreachable);
                },
                _ => {
                    self.phase = ProbePhase::Aborted;
                },
            },
            ProbePhase::Requesting => match event {
                ProbeEvent::Status(code) => {
                    self.status = Some(*code);
                    self.phase = match classify_status(*code) {
                        StatusClass::Denied => ProbePhase::Finished(ProbeOutcome::Potential),
                        StatusClass::Success => ProbePhase::ReadingBody,
                        StatusClass::Other => ProbePhase::Finished(ProbeOutcome::Absent),
                    };
                },
                ProbeEvent::TransportError => {
                    self.phase = ProbePhase::Finished(ProbeOutcome::Absent);
                },
                _ => {
                    self.phase = ProbePhase::Aborted;
                },
            },
            ProbePhase::ReadingBody => match event {
                ProbeEvent::Body(page) => {
                    self.phase = ProbePhase::Finished(
                        if body_has_signature(page.as_str()) {
                            ProbeOutcome::Confirmed
                        } else {
                            ProbeOutcome::Absent
                        },
                    );
                },
                ProbeEvent::TransportError => {
                    self.phase = ProbePhase::Finished(ProbeOutcome::Absent);
                },
                _ => {
                    self.phase = ProbePhase::Aborted;
                },
            },
            ProbePhase::Finished(_) => {},
            ProbePhase::Aborted => {},
        }
    }

    /// The line that tells the operator of the outcome, where there is one
    /// to tell.
    pub fn line(&self, config: &ProbeConfig) -> (line: Option<String>)
        requires
            self@.wf(),
        ensures
            line is Some <==> self@.line(*config) is Some,
            line is Some ==> line->0@ == self@.line(*config)->0,
    {
        match self.phase {
            ProbePhase::Finished(ProbeOutcome::Confirmed) => match &self.address {
                Some(address) => Some(write_confirmed_line(address.as_str(), config.path.as_str())),
                None => None,
            },
            ProbePhase::Finished(ProbeOutcome::Potential) => match (&self.address, self.status) {
                (Some(address), Some(code)) => Some(
                    write_potential_line(address.as_str(), config.path.as_str(), code),
                ),
                _ => None,
            },
            ProbePhase::Finished(ProbeOutcome::Invalid) => Some(
                write_invalid_line(self.host.as_str()),
            ),
            _ => None,
        }
    }
}

/// A probe that has ended stays as it is, whatever is reported to it, and
/// never asks for the network again.
pub proof fn lemma_ended_probe_rests(
    probe: ProbeView,
    events: Seq<ProbeEventView>,
    config: ProbeConfig,
)
    requires
        probe.phase is Finished || probe.phase is Aborted,
    ensures
        probe.run(events) == probe,
        !probe.run(events).action(config).uses_network(),
    decreases events.len(),
{
    if events.len() > 0 {
        assert(probe.advance(events.first()) == probe);
        lemma_ended_probe_rests(probe, events.drop_first(), config);
    }
}

/// A host whose text is no IP address is invalid from the start: whatever
/// is reported, its outcome is `Invalid`, and at no point is the caller
/// asked to touch the network.
pub proof fn lemma_invalid_host_stays_off_network(
    host: Seq<char>,
    events: Seq<ProbeEventView>,
    config: ProbeConfig,
)
    ensures
        ProbeView::start(host, None).run(events).outcome() == Some(ProbeOutcome::Invalid),
        forall|n: int|
            0 <= n <= events.len() ==> !(#[trigger] ProbeView::start(host, None).run(
                events.take(n),
            )).action(config).uses_network(),
{
    let probe = ProbeView::start(host, None);
    lemma_ended_probe_rests(probe, events, config);
    assert forall|n: int| 0 <= n <= events.len() implies !(#[trigger] probe.run(
        events.take(n),
    )).action(config).uses_network() by {
        lemma_ended_probe_rests(probe, events.take(n), config);
    }
}

/// A host whose TCP connection fails is unreachable, whatever is reported
/// after that, and no request is ever asked for.
pub proof fn lemma_failed_connection_is_unreachable(
    host: Seq<char>,
    address: Seq<char>,
    later: Seq<ProbeEventView>,
    config: ProbeConfig,
)
    ensures
        ({
            let probe = ProbeView::start(host, Some(address)).advance(
                ProbeEventView::ConnectFailed,
            );
            &&& probe.run(later).outcome() == Some(ProbeOutcome::Unreachable)
            &&& !probe.run(later).action(config).uses_network()
        }),
{
    let probe = ProbeView::start(host, Some(address)).advance(ProbeEventView::ConnectFailed);
    lemma_ended_probe_rests(probe, later, config);
}

/// Once the port has answered, the response decides: a status that is no
/// success ends the probe with what `response_outcome` says of it, whatever
/// the page would be; a success status asks for the page, and the page
/// ends the probe with what `response_outcome` says of both.
pub proof fn lemma_response_decides(
    host: Seq<char>,
    address: Seq<char>,
    code: u16,
    page: Seq<char>,
)
    ensures
        ({
            let answered = ProbeView::start(host, Some(address)).advance(
                ProbeEventView::Connected,
            ).advance(ProbeEventView::Status(code));
            if status_class(code) == StatusClass::Success {
                &&& answered.phase == ProbePhase::ReadingBody
                &&& answered.advance(ProbeEventView::Body(page)).outcome() == Some(
                    response_outcome(code, page),
                )
            } else {
                answered.outcome() == Some(response_outcome(code, page))
            }
        }),
{
}

/// A transport error after the connection, in the request or while the page
/// is read, ends the probe as absent.
pub proof fn lemma_transport_error_is_absent(probe: ProbeView)
    requires
        probe.phase == ProbePhase::Requesting || probe.phase == ProbePhase::ReadingBody,
    ensures
        probe.advance(ProbeEventView::TransportError).outcome() == Some(ProbeOutcome::Absent),
{
}

/// Every probe that was started and advanced is well-formed.
pub proof fn lemma_probe_stays_well_formed(
    host: Seq<char>,
    address: Option<Seq<char>>,
    events: Seq<ProbeEventView>,
)
    ensures
        ProbeView::start(host, address).run(events).wf(),
{
    lemma_run_keeps_well_formed(ProbeView::start(host, address), events);
}

/// Reports keep a well-formed probe well-formed.
proof fn lemma_run_keeps_well_formed(probe: ProbeView, events: Seq<ProbeEventView>)
    requires
        probe.wf(),
    ensures
        probe.run(events).wf(),
    decreases events.len(),
{
    if events.len() > 0 {
        lemma_run_keeps_well_formed(probe.advance(events.first()), events.drop_first());
    }
}

} // verus!
