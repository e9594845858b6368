//! Breach lookups: what is asked of the breach provider for one address, and
//! how its answers are judged. A provider that limits the rate is waited for
//! once and asked once more, never more often.

use vstd::prelude::*;
use crate::http::{
    Header, HeaderView, Method, Request, RequestView, Response, TransportError,
    TransportErrorView, NOT_FOUND, OK, TOO_MANY_REQUESTS,
};
use crate::retry_after::{parse_seconds, seconds_of};
use crate::text::{append_decimal, decimal};

verus! {

/// One known data breach, as the breach provider reports it.
#[derive(Debug, Clone, PartialEq, Eq)]
pub struct Breach {
    pub name: String,
    pub title: String,
    pub domain: String,
    pub breach_date: String,
    pub added_date: String,
    pub modified_date: String,
    pub pwn_count: i32,
    pub description: String,
    pub data_classes: Vec<String>,
    pub is_verified: bool,
    pub is_fabricated: bool,
    pub is_sensitive: bool,
    pub is_retired: bool,
    pub is_spam_list: bool,
    pub logo_path: String,
}

/// A failure reported by the breach provider: the status it answered with and
/// a description.
#[derive(Debug, Clone, PartialEq, Eq)]
pub struct HIBPError {
    pub message: String,
    pub status_code: u16,
}

/// The model of an [`HIBPError`].
pub ghost struct HIBPErrorView {
    pub message: Seq<char>,
    pub status_code: u16,
}

impl View for HIBPError {
    type V = HIBPErrorView;

    open spec fn view(&self) -> HIBPErrorView {
        HIBPErrorView { message: self.message@, status_code: self.status_code }
    }
}

impl HIBPError {
    pub fn new(message: String, status_code: u16) -> (e: Self)
        ensures
            e.message == message,
            e.status_code == status_code,
    {
        HIBPError { message, status_code }
    }

    /// The failure in words: the status, then the description.
    pub fn to_text(&self) -> (text: String)
        ensures
            text@ == decimal(self.status_code as nat) + " - "@ + self.message@,
    {
        let mut text = String::new();
        append_decimal(&mut text, self.status_code);
        text.append(" - ");
        text.append(self.message.as_str());
        text
    }
}

/// Why a lookup yielded no list of breaches: the provider refused, or it
/// could not be talked to.
#[derive(Debug, Clone, PartialEq, Eq)]
pub enum LookupFailure {
    Lookup(HIBPError),
    Transport(TransportError),
}

/// The model of a [`LookupFailure`].
pub ghost enum LookupFailureView {
    Lookup(HIBPErrorView),
    Transport(TransportErrorView),
}

impl View for LookupFailure {
    type V = LookupFailureView;

    open spec fn view(&self) -> LookupFailureView {
        match *self {
            LookupFailure::Lookup(e) => LookupFailureView::Lookup(e@),
            LookupFailure::Transport(e) => LookupFailureView::Transport(e@),
        }
    }
}

/// The model of what a lookup ends with.
pub open spec fn outcome_view(outcome: Result<Vec<Breach>, LookupFailure>) -> Result<
    Seq<Breach>,
    LookupFailureView,
> {
    match outcome {
        Ok(breaches) => Ok(breaches@),
        Err(e) => Err(e@),
    }
}

/// The description that every refusal of the breach provider carries.
pub open spec fn refusal_text() -> Seq<char> {
    "Failed to get breaches."@
}

/// The failure that stands for a refusal with the given status.
pub open spec fn refusal(status: u16) -> LookupFailureView {
    LookupFailureView::Lookup(HIBPErrorView { message: refusal_text(), status_code: status })
}

/// Where the breaches of an address are asked for.
pub open spec fn breaches_url(host: Seq<char>, email_address: Seq<char>) -> Seq<char> {
    host + "/api/v3/breachedaccount/"@ + email_address + "?truncateResponse=false"@
}

/// The request that asks for the breaches of an address.
pub open spec fn breaches_request(host: Seq<char>, token: Seq<char>, email_address: Seq<char>)
    -> RequestView {
    RequestView {
        method: Method::Get,
        url: breaches_url(host, email_address),
        headers: seq![
            HeaderView { name: "hibp-api-key"@, value: token },
            HeaderView { name: "user-agent"@, value: "has-my-alias-been-pwned"@ },
        ],
    }
}

/// Access to the breach provider: where it is and the key it is asked with.
#[derive(Debug, Clone, PartialEq, Eq)]
pub struct HIBP {
    pub token: String,
    pub host: String,
}

impl HIBP {
    /// Access to haveibeenpwned.com with the given key.
    pub fn new(token: String) -> (hibp: Self)
        ensures
            hibp.token == token,
            hibp.host@ == "https://haveibeenpwned.com"@,
    {
        HIBP { token, host: String::from_str("https://haveibeenpwned.com") }
    }

    /// The request that asks for the breaches of an address.
    pub fn breaches_request(&self, email_address: &str) -> (request: Request)
        ensures
            request@ == breaches_request(self.host@, self.token@, email_address@),
    {
        let mut url = self.host.clone();
        url.append("/api/v3/breachedaccount/");
        url.append(email_address);
        url.append("?truncateResponse=false");
        let mut headers: Vec<Header> = Vec::new();
        headers.push(Header::new("hibp-api-key", self.token.as_str()));
        headers.push(Header::new("user-agent", "has-my-alias-been-pwned"));
        let request = Request { method: Method::Get, url, headers };
        assert(request@.headers =~= breaches_request(
            self.host@,
            self.token@,
            email_address@,
        ).headers);
        request
    }

    /// Begins a lookup for an address. The lookup's request is to be sent;
    /// what comes back is handed to [`BreachLookup::step`].
    pub fn get_breaches(&self, email_address: &str) -> (lookup: BreachLookup)
        ensures
            lookup@ == start(breaches_request(self.host@, self.token@, email_address@)),
    {
        BreachLookup {
            request: self.breaches_request(email_address),
            phase: LookupPhase::Requesting,
            waited: None,
        }
    }
}

/// How far a lookup has come.
#[derive(Debug, Clone, Copy, PartialEq, Eq)]
pub enum LookupPhase {
    /// The request is out for the first time.
    Requesting,
    /// The provider limited the rate; the wait it asked for is running.
    Waiting,
    /// The request is out for the second and last time.
    RetryRequesting,
    /// The provider answered with a list; its body is being decoded.
    Decoding,
    /// The lookup has returned.
    Done,
}

/// What happened to a lookup's last instruction.
#[derive(Debug, Clone, PartialEq, Eq)]
pub enum LookupEvent {
    /// The provider answered the request.
    Response(Response),
    /// The request or the decoding failed.
    Failed(TransportError),
    /// The wait is over.
    Waited,
    /// The body was decoded.
    Body(Vec<Breach>),
}

/// The model of a [`LookupEvent`].
pub ghost enum LookupEventView {
    Response { status: u16, retry_after: Option<Seq<u8>> },
    Failed(TransportErrorView),
    Waited,
    Body(Seq<Breach>),
}

impl View for LookupEvent {
    type V = LookupEventView;

    open spec fn view(&self) -> LookupEventView {
        match *self {
            LookupEvent::Response(r) => LookupEventView::Response {
                status: r@.status,
                retry_after: r@.retry_after,
            },
            LookupEvent::Failed(e) => LookupEventView::Failed(e@),
            LookupEvent::Waited => LookupEventView::Waited,
            LookupEvent::Body(b) => LookupEventView::Body(b@),
        }
    }
}

/// What a lookup asks to be done next.
#[derive(Debug, PartialEq, Eq)]
pub enum LookupAction {
    /// Send the lookup's request.
    Send,
    /// Let this many seconds pass.
    Wait(u64),
    /// Decode the body of the response just handed in.
    Decode,
    /// The lookup is over, with this outcome.
    Return(Result<Vec<Breach>, LookupFailure>),
}

/// The model of a [`LookupAction`].
pub ghost enum LookupActionView {
    Send,
    Wait(u64),
    Decode,
    Return(Result<Seq<Breach>, LookupFailureView>),
}

impl View for LookupAction {
    type V = LookupActionView;

    open spec fn view(&self) -> LookupActionView {
        match *self {
            LookupAction::Send => LookupActionView::Send,
            LookupAction::Wait(seconds) => LookupActionView::Wait(seconds),
            LookupAction::Decode => LookupActionView::Decode,
            LookupAction::Return(outcome) => LookupActionView::Return(outcome_view(outcome)),
        }
    }
}

/// One lookup in progress.
#[derive(Debug, Clone, PartialEq, Eq)]
pub struct BreachLookup {
    request: Request,
    phase: LookupPhase,
    waited: Option<u64>,
}

/// The model of a [`BreachLookup`].
pub ghost struct LookupView {
    pub request: RequestView,
    pub phase: LookupPhase,
    /// The seconds waited for on the provider's demand, once it made one.
    pub waited: Option<u64>,
}

/// A lookup whose request has just gone out.
pub open spec fn start(request: RequestView) -> LookupView {
    LookupView { request, phase: LookupPhase::Requesting, waited: None }
}

/// The events that a lookup can take in a phase. A rate-limited first answer
/// has to say how long to wait.
pub open spec fn expects(phase: LookupPhase, event: LookupEventView) -> bool {
    match phase {
        LookupPhase::Requesting => match event {
            LookupEventView::Response { status, retry_after } => status == TOO_MANY_REQUESTS
                ==> retry_after is Some,
            LookupEventView::Failed(_) => true,
            _ => false,
        },
        LookupPhase::Waiting => event is Waited,
        LookupPhase::RetryRequesting => event is Response || event is Failed,
        LookupPhase::Decoding => event is Body || event is Failed,
        LookupPhase::Done => false,
    }
}

/// How the first answer is judged.
pub open spec fn judge_first(s: LookupView, status: u16, retry_after: Option<Seq<u8>>) -> (
    LookupView,
    LookupActionView,
) {
    if status == NOT_FOUND {
        (LookupView { phase: LookupPhase::Done, ..s }, LookupActionView::Return(Ok(seq![])))
    } else if status == TOO_MANY_REQUESTS {
        match seconds_of(retry_after->0) {
            Some(seconds) => (
                LookupView { phase: LookupPhase::Waiting, waited: Some(seconds), ..s },
                LookupActionView::Wait(seconds),
            ),
            None => (
                LookupView { phase: LookupPhase::Done, ..s },
                LookupActionView::Return(
                    Err(LookupFailureView::Transport(TransportErrorView::RetryAfter(retry_after->0))),
                ),
            ),
        }
    } else if status == OK {
        (LookupView { phase: LookupPhase::Decoding, ..s }, LookupActionView::Decode)
    } else {
        (LookupView { phase: LookupPhase::Done, ..s }, LookupActionView::Return(Err(refusal(status))))
    }
}

/// How the answer to the second request is judged: a further demand to wait
/// is a refusal like any other.
pub open spec fn judge_retry(s: LookupView, status: u16) -> (LookupView, LookupActionView) {
    if status == NOT_FOUND {
        (LookupView { phase: LookupPhase::Done, ..s }, LookupActionView::Return(Ok(seq![])))
    } else if status == OK {
        (LookupView { phase: LookupPhase::Decoding, ..s }, LookupActionView::Decode)
    } else {
        (LookupView { phase: LookupPhase::Done, ..s }, LookupActionView::Return(Err(refusal(status))))
    }
}

/// The lookup after an event, and what it asks for next.
pub open spec fn lookup_step(s: LookupView, event: LookupEventView) -> (
    LookupView,
    LookupActionView,
) {
    match event {
        LookupEventView::Response { status, retry_after } => if s.phase
            == LookupPhase::Requesting {
            judge_first(s, status, retry_after)
        } else {
            judge_retry(s, status)
        },
        LookupEventView::Failed(e) => (
            LookupView { phase: LookupPhase::Done, ..s },
            LookupActionView::Return(Err(LookupFailureView::Transport(e))),
        ),
        LookupEventView::Waited => (
            LookupView { phase: LookupPhase::RetryRequesting, ..s },
            LookupActionView::Send,
        ),
        LookupEventView::Body(breaches) => (
            LookupView { phase: LookupPhase::Done, ..s },
            LookupActionView::Return(Ok(breaches)),
        ),
    }
}

impl View for BreachLookup {
    type V = LookupView;

    closed spec fn view(&self) -> LookupView {
        LookupView { request: self.request@, phase: self.phase, waited: self.waited }
    }
}

impl BreachLookup {
    /// The request that this lookup sends, the second time as the first.
    pub fn request(&self) -> (request: &Request)
        ensures
            request@ == self@.request,
    {
        &self.request
    }

    pub fn phase(&self) -> (phase: LookupPhase)
        ensures
            phase == self@.phase,
    {
        self.phase
    }

    /// The seconds that the provider asked to wait for, once it has asked.
    pub fn waited(&self) -> (waited: Option<u64>)
        ensures
            waited == self@.waited,
    {
        self.waited
    }

    /// Whether the lookup has returned.
    pub fn is_done(&self) -> (done: bool)
        ensures
            done == (self@.phase == LookupPhase::Done),
    {
        match self.phase {
            LookupPhase::Done => true,
            _ => false,
        }
    }

    /// Whether the lookup can take the event in its present phase.
    pub fn expects(&self, event: &LookupEvent) -> (b: bool)
        ensures
            b == expects(self@.phase, event@),
    {
        match self.phase {
            LookupPhase::Requesting => match event {
                LookupEvent::Response(r) => r.status != TOO_MANY_REQUESTS || r.retry_after.is_some(),
                LookupEvent::Failed(_) => true,
                _ => false,
            },
            LookupPhase::Waiting => match event {
                LookupEvent::Waited => true,
                _ => false,
            },
            LookupPhase::RetryRequesting => match event {
                LookupEvent::Response(_) => true,
                LookupEvent::Failed(_) => true,
                _ => false,
            },
            LookupPhase::Decoding => match event {
                LookupEvent::Body(_) => true,
                LookupEvent::Failed(_) => true,
                _ => false,
            },
            LookupPhase::Done => false,
        }
    }

    /// Takes what happened to the last instruction, and gives the lookup
    /// after it with what is to be done next.
    pub fn step(self, event: LookupEvent) -> (next: (Self, LookupAction))
        requires
            expects(self@.phase, event@),
        ensures
            (next.0@, next.1@) == lookup_step(self@, event@),
    {
        let BreachLookup { request, phase, waited } = self;
        match event {
            LookupEvent::Response(response) => {
                let first = match phase {
                    LookupPhase::Requesting => true,
                    _ => false,
                };
                if response.status == NOT_FOUND {
                    let none: Vec<Breach> = Vec::new();
                    (
                        BreachLookup { request, phase: LookupPhase::Done, waited },
                        LookupAction::Return(Ok(none)),
                    )
                } else if first && response.status == TOO_MANY_REQUESTS {
                    let value = response.retry_after.unwrap();
                    match parse_seconds(value.as_slice()) {
                        Some(seconds) => (
                            BreachLookup {
                                request,
                                phase: LookupPhase::Waiting,
                                waited: Some(seconds),
                            },
                            LookupAction::Wait(seconds),
                        ),
                        None => (
                            BreachLookup { request, phase: LookupPhase::Done, waited },
                            LookupAction::Return(
                                Err(LookupFailure::Transport(TransportError::RetryAfter(value))),
                            ),
                        ),
                    }
                } else if response.status == OK {
                    (BreachLookup { request, phase: LookupPhase::Decoding, waited }, LookupAction::Decode)
                } else {
                    (
                        BreachLookup { request, phase: LookupPhase::Done, waited },
                        LookupAction::Return(Err(LookupFailure::Lookup(refuse(response.status)))),
                    )
                }
            },
            LookupEvent::Failed(e) => (
                BreachLookup { request, phase: LookupPhase::Done, waited },
                LookupAction::Return(Err(LookupFailure::Transport(e))),
            ),
            LookupEvent::Waited => (
                BreachLookup { request, phase: LookupPhase::RetryRequesting, waited },
                LookupAction::Send,
            ),
            LookupEvent::Body(breaches) => (
                BreachLookup { request, phase: LookupPhase::Done, waited },
                LookupAction::Return(Ok(breaches)),
            ),
        }
    }

    /// Takes the event if the lookup can take it in its present phase, as
    /// [`BreachLookup::step`] does; otherwise hands both back as they came.
    pub fn try_step(self, event: LookupEvent) -> (next: Result<
        (Self, LookupAction),
        (Self, LookupEvent),
    >)
        ensures
            match next {
                Ok(taken) => expects(self@.phase, event@) && (taken.0@, taken.1@) == lookup_step(
                    self@,
                    event@,
                ),
                Err(back) => !expects(self@.phase, event@) && back.0 == self && back.1 == event,
            },
    {
        if self.expects(&event) {
            Ok(self.step(event))
        } else {
            Err((self, event))
        }
    }
}

/// The provider's refusal, with the status it came with.
fn refuse(status: u16) -> (e: HIBPError)
    ensures
        LookupFailureView::Lookup(e@) == refusal(status),
{
    HIBPError::new(String::from_str("Failed to get breaches."), status)
}

} // verus!
