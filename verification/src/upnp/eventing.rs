//! GENA events: the subscription, its renewal, the notifications, and the polling
//! that takes their place when they fail to come.

use crate::text::{decimal, number, opt, same, trim, trimmed};
use crate::time::{Timestamp, MAX_SECS};
use crate::upnp::xml::{element_value, in_order, tags_in_order, value_of};
use vstd::prelude::*;
use vstd::string::*;

verus! {

/// For how long a subscription is asked for, in seconds.
pub const SUBSCRIPTION_SECS: u32 = 1800;

/// How long the gateway may be silent before it is polled, in milliseconds.
pub const SILENCE_MILLIS: u64 = 600_000;

// ---------------------------------------------------------------------------
// Requests
// ---------------------------------------------------------------------------

/// A request of the eventing protocol.
#[derive(Debug, Clone)]
pub struct GenaRequest {
    pub method: String,
    pub url: String,
    /// Names and values of the headers.
    pub headers: Vec<(String, String)>,
}

/// The view of a [`GenaRequest`].
pub struct GenaRequestView {
    pub method: Seq<char>,
    pub url: Seq<char>,
    pub headers: Seq<(Seq<char>, Seq<char>)>,
}

impl View for GenaRequest {
    type V = GenaRequestView;

    open spec fn view(&self) -> GenaRequestView {
        GenaRequestView {
            method: self.method@,
            url: self.url@,
            headers: self.headers@.map_values(|h: (String, String)| (h.0@, h.1@)),
        }
    }
}

/// The value of the `TIMEOUT` header.
pub open spec fn timeout_header(secs: nat) -> Seq<char> {
    "Second-"@ + decimal(secs)
}

/// The request for a new subscription: events are to be sent to `callback_url`.
pub fn subscribe(event_url: &str, callback_url: &str, timeout_secs: u32) -> (request: GenaRequest)
    ensures
        request@.method == "SUBSCRIBE"@,
        request@.url == event_url@,
        request@.headers == seq![
            ("NT"@, "upnp:event"@),
            ("CALLBACK"@, "<"@ + callback_url@ + ">"@),
            ("TIMEOUT"@, timeout_header(timeout_secs as nat)),
        ],
{
    let mut headers: Vec<(String, String)> = Vec::new();
    headers.push(("NT".to_owned(), "upnp:event".to_owned()));
    headers.push(("CALLBACK".to_owned(), "<".to_owned().concat(callback_url).concat(">")));
    headers.push(
        ("TIMEOUT".to_owned(), "Second-".to_owned().concat(number(timeout_secs as u64).as_str())),
    );
    GenaRequest { method: "SUBSCRIBE".to_owned(), url: event_url.to_owned(), headers }
}

/// The request that renews the subscription `sid`.
pub fn renew_subscription(event_url: &str, sid: &str, timeout_secs: u32) -> (request: GenaRequest)
    ensures
        request@.method == "SUBSCRIBE"@,
        request@.url == event_url@,
        request@.headers == seq![
            ("SID"@, sid@),
            ("TIMEOUT"@, timeout_header(timeout_secs as nat)),
        ],
{
    let mut headers: Vec<(String, String)> = Vec::new();
    headers.push(("SID".to_owned(), sid.to_owned()));
    headers.push(
        ("TIMEOUT".to_owned(), "Second-".to_owned().concat(number(timeout_secs as u64).as_str())),
    );
    GenaRequest { method: "SUBSCRIBE".to_owned(), url: event_url.to_owned(), headers }
}

/// The request that ends the subscription `sid`.
pub fn unsubscribe(event_url: &str, sid: &str) -> (request: GenaRequest)
    ensures
        request@.method == "UNSUBSCRIBE"@,
        request@.url == event_url@,
        request@.headers == seq![("SID"@, sid@)],
{
    let mut headers: Vec<(String, String)> = Vec::new();
    headers.push(("SID".to_owned(), sid.to_owned()));
    GenaRequest { method: "UNSUBSCRIBE".to_owned(), url: event_url.to_owned(), headers }
}

// ---------------------------------------------------------------------------
// Answers
// ---------------------------------------------------------------------------

/// The `SID` header of an answer.
#[derive(Debug, Clone)]
pub enum SidHeader {
    Missing,
    /// It is there but is no text.
    Invalid,
    Value(String),
}

/// What came of an eventing request.
#[derive(Debug, Clone)]
pub enum GenaReply {
    /// The request could not be sent.
    NotSent,
    /// The answer, with its status as text and whether that is a success.
    Answer { success: bool, status: String, sid: SidHeader },
}

/// Why an eventing request failed.
#[derive(Debug, Clone)]
pub enum EventingError {
    SubscribeNotSent,
    SubscribeRefused(String),
    NoSid,
    InvalidSid,
    RenewalNotSent,
    RenewalRefused(String),
    UnsubscribeNotSent,
}

/// The view of an [`EventingError`].
pub enum EventingErrorView {
    SubscribeNotSent,
    SubscribeRefused(Seq<char>),
    NoSid,
    InvalidSid,
    RenewalNotSent,
    RenewalRefused(Seq<char>),
    UnsubscribeNotSent,
}

impl View for EventingError {
    type V = EventingErrorView;

    open spec fn view(&self) -> EventingErrorView {
        match *self {
            EventingError::SubscribeNotSent => EventingErrorView::SubscribeNotSent,
            EventingError::SubscribeRefused(status) => EventingErrorView::SubscribeRefused(status@),
            EventingError::NoSid => EventingErrorView::NoSid,
            EventingError::InvalidSid => EventingErrorView::InvalidSid,
            EventingError::RenewalNotSent => EventingErrorView::RenewalNotSent,
            EventingError::RenewalRefused(status) => EventingErrorView::RenewalRefused(status@),
            EventingError::UnsubscribeNotSent => EventingErrorView::UnsubscribeNotSent,
        }
    }
}

impl EventingError {
    /// The message for the log.
    pub fn message(&self) -> (text: String)
        ensures
            text@ == match self@ {
                EventingErrorView::SubscribeNotSent => "SUBSCRIBE request failed"@,
                EventingErrorView::SubscribeRefused(status) => "SUBSCRIBE failed with status "@
                    + status,
                EventingErrorView::NoSid => "No SID in SUBSCRIBE response"@,
                EventingErrorView::InvalidSid => "Invalid SID header"@,
                EventingErrorView::RenewalNotSent => "SUBSCRIBE renewal failed"@,
                EventingErrorView::RenewalRefused(status) => "SUBSCRIBE renewal failed: "@ + status,
                EventingErrorView::UnsubscribeNotSent => "UNSUBSCRIBE failed"@,
            },
    {
        match self {
            EventingError::SubscribeNotSent => "SUBSCRIBE request failed".to_owned(),
            EventingError::SubscribeRefused(status) => "SUBSCRIBE failed with status ".to_owned().concat(
            status.as_str()),
            EventingError::NoSid => "No SID in SUBSCRIBE response".to_owned(),
            EventingError::InvalidSid => "Invalid SID header".to_owned(),
            EventingError::RenewalNotSent => "SUBSCRIBE renewal failed".to_owned(),
            EventingError::RenewalRefused(status) => "SUBSCRIBE renewal failed: ".to_owned().concat(
                status.as_str(),
            ),
            EventingError::UnsubscribeNotSent => "UNSUBSCRIBE failed".to_owned(),
        }
    }
}

/// The identifier of the subscription that an answer grants.
pub open spec fn granted_sid(reply: GenaReply) -> Result<Seq<char>, EventingErrorView> {
    match reply {
        GenaReply::NotSent => Err(EventingErrorView::SubscribeNotSent),
        GenaReply::Answer { success, status, sid } => if !success {
            Err(EventingErrorView::SubscribeRefused(status@))
        } else {
            match sid {
                SidHeader::Missing => Err(EventingErrorView::NoSid),
                SidHeader::Invalid => Err(EventingErrorView::InvalidSid),
                SidHeader::Value(value) => Ok(value@),
            }
        },
    }
}

/// The identifier of the new subscription, from the answer to [`subscribe`].
pub fn subscribed(reply: GenaReply) -> (r: Result<String, EventingError>)
    ensures
        match r {
            Ok(sid) => granted_sid(reply) == Ok::<Seq<char>, EventingErrorView>(sid@),
            Err(e) => granted_sid(reply) == Err::<Seq<char>, EventingErrorView>(e@),
        },
{
    match reply {
        GenaReply::NotSent => Err(EventingError::SubscribeNotSent),
        GenaReply::Answer { success, status, sid } => {
            if !success {
                Err(EventingError::SubscribeRefused(status))
            } else {
                match sid {
                    SidHeader::Missing => Err(EventingError::NoSid),
                    SidHeader::Invalid => Err(EventingError::InvalidSid),
                    SidHeader::Value(value) => Ok(value),
                }
            }
        },
    }
}

/// Whether the subscription was renewed, from the answer to [`renew_subscription`].
pub fn renewed(reply: GenaReply) -> (r: Result<(), EventingError>)
    ensures
        match reply {
            GenaReply::NotSent => r matches Err(e) && e@ == EventingErrorView::RenewalNotSent,
            GenaReply::Answer { success, status, sid } => if success {
                r is Ok
            } else {
                r matches Err(e) && e@ == EventingErrorView::RenewalRefused(status@)
            },
        },
{
    match reply {
        GenaReply::NotSent => Err(EventingError::RenewalNotSent),
        GenaReply::Answer { success, status, sid: _ } => {
            if success {
                Ok(())
            } else {
                Err(EventingError::RenewalRefused(status))
            }
        },
    }
}

/// Whether the request of [`unsubscribe`] got through. Any answer will do.
pub fn unsubscribed(reply: GenaReply) -> (r: Result<(), EventingError>)
    ensures
        match reply {
            GenaReply::NotSent => r matches Err(e) && e@ == EventingErrorView::UnsubscribeNotSent,
            GenaReply::Answer { success, status, sid } => r is Ok,
        },
{
    match reply {
        GenaReply::NotSent => Err(EventingError::UnsubscribeNotSent),
        GenaReply::Answer { success: _, status: _, sid: _ } => Ok(()),
    }
}

// ---------------------------------------------------------------------------
// Notifications
// ---------------------------------------------------------------------------

/// The value of `tag` without the white space around it, unless nothing is left.
pub open spec fn notified_value(xml: Seq<char>, tag: Seq<char>) -> Option<Seq<char>> {
    match element_value(xml, tag) {
        Some(value) => if trim(value).len() > 0 {
            Some(trim(value))
        } else {
            None
        },
        None => None,
    }
}

/// The external address in a notification: `NewExternalIPAddress`, or else
/// `ExternalIPAddress`.
pub open spec fn notified_ip(xml: Seq<char>) -> Option<Seq<char>> {
    match notified_value(xml, "NewExternalIPAddress"@) {
        Some(value) => Some(value),
        None => notified_value(xml, "ExternalIPAddress"@),
    }
}

/// Every value that has to be cut out of `xml` on the way to [`notified_ip`] can be.
pub open spec fn notify_readable(xml: Seq<char>) -> bool {
    &&& tags_in_order(xml, "NewExternalIPAddress"@)
    &&& notified_value(xml, "NewExternalIPAddress"@) is None ==> tags_in_order(
        xml,
        "ExternalIPAddress"@,
    )
}

/// The value of `tag` without the white space around it, unless nothing is left.
fn nonempty_value(xml: &str, tag: &str) -> (r: Option<String>)
    requires
        tags_in_order(xml@, tag@),
    ensures
        opt(r) == notified_value(xml@, tag@),
{
    match value_of(xml, tag) {
        Some(value) => {
            let value = trimmed(value);
            if value.is_empty() {
                None
            } else {
                Some(value.to_owned())
            }
        },
        None => None,
    }
}

/// Whether the address can be cut out of a notification.
pub fn can_read_notify(xml: &str) -> (r: bool)
    ensures
        r == notify_readable(xml@),
{
    in_order(xml, "NewExternalIPAddress") && (nonempty_value(xml, "NewExternalIPAddress").is_some()
        || in_order(xml, "ExternalIPAddress"))
}

/// Reads the external address from the body of a GENA NOTIFY request.
pub fn parse_notify_body(xml: &str) -> (r: Option<String>)
    requires
        notify_readable(xml@),
    ensures
        opt(r) == notified_ip(xml@),
{
    match nonempty_value(xml, "NewExternalIPAddress") {
        Some(value) => Some(value),
        None => nonempty_value(xml, "ExternalIPAddress"),
    }
}

// ---------------------------------------------------------------------------
// State
// ---------------------------------------------------------------------------

/// A live subscription.
#[derive(Debug, Clone)]
pub struct GenaSubscription {
    pub sid: String,
    pub expiry: Timestamp,
}

/// What is known of the gateway from its events.
#[derive(Debug, Clone)]
pub struct EventingState {
    pub subscription: Option<GenaSubscription>,
    /// When the last notification with an address came, in milliseconds of a clock
    /// that only runs forward.
    pub last_notify: Option<u64>,
    pub current_external_ip: Option<String>,
}

/// The view of a [`EventingState`].
pub struct EventingStateView {
    /// The identifier of the subscription and when it expires.
    pub subscription: Option<(Seq<char>, Timestamp)>,
    pub last_notify: Option<u64>,
    pub current_external_ip: Option<Seq<char>>,
}

impl View for EventingState {
    type V = EventingStateView;

    open spec fn view(&self) -> EventingStateView {
        EventingStateView {
            subscription: match self.subscription {
                Some(s) => Some((s.sid@, s.expiry)),
                None => None,
            },
            last_notify: self.last_notify,
            current_external_ip: opt(self.current_external_ip),
        }
    }
}

/// The state before anything is known.
pub open spec fn nothing_known() -> EventingStateView {
    EventingStateView { subscription: None, last_notify: None, current_external_ip: None }
}

/// The state once the external address is known to be `ip`.
pub open spec fn with_external_ip(state: EventingStateView, ip: Seq<char>) -> EventingStateView {
    EventingStateView { current_external_ip: Some(ip), ..state }
}

/// The state after a notification with the body `xml`.
pub open spec fn after_notify(state: EventingStateView, xml: Seq<char>, now: u64) -> EventingStateView {
    match notified_ip(xml) {
        Some(ip) => EventingStateView {
            last_notify: Some(now),
            current_external_ip: Some(ip),
            ..state
        },
        None => state,
    }
}

/// The state after a subscription has been granted, until `expiry`.
pub open spec fn after_subscribe(state: EventingStateView, sid: Seq<char>, expiry: Timestamp) -> EventingStateView {
    EventingStateView { subscription: Some((sid, expiry)), ..state }
}

/// The state after an attempt to renew the subscription: a renewed one expires at
/// `expiry`, and one that could not be renewed is dropped.
pub open spec fn after_renewal(state: EventingStateView, ok: bool, expiry: Timestamp) -> EventingStateView {
    EventingStateView {
        subscription: match state.subscription {
            Some((sid, _)) => if ok {
                Some((sid, expiry))
            } else {
                None
            },
            None => None,
        },
        ..state
    }
}

/// The gateway has to be polled: there is no subscription, or no notification has
/// ever come, or none for more than ten minutes.
pub open spec fn polling_needed(state: EventingStateView, now: u64) -> bool {
    ||| state.subscription is None
    ||| state.last_notify is None
    ||| now - state.last_notify->0 > SILENCE_MILLIS
}

/// What a notification told.
#[derive(Debug, Clone, Copy, PartialEq, Eq, Structural)]
pub enum Notified {
    /// No address.
    Nothing,
    /// The address that was known already.
    SameAddress,
    /// Another address.
    NewAddress,
}

impl EventingState {
    pub fn new() -> (state: Self)
        ensures
            state@ == nothing_known(),
    {
        EventingState { subscription: None, last_notify: None, current_external_ip: None }
    }

    /// Takes over the external address. Tells whether it is another one than before.
    pub fn set_external_ip(&mut self, ip: String) -> (changed: bool)
        ensures
            final(self)@ == with_external_ip(old(self)@, ip@),
            changed == (old(self)@.current_external_ip != Some(ip@)),
    {
        let changed = match &self.current_external_ip {
            Some(current) => !same(current.as_str(), ip.as_str()),
            None => true,
        };
        self.current_external_ip = Some(ip);
        changed
    }

    /// Takes in a notification that came at `now`.
    pub fn notify(&mut self, body: &str, now: u64) -> (told: Notified)
        requires
            notify_readable(body@),
        ensures
            final(self)@ == after_notify(old(self)@, body@, now),
            told == match notified_ip(body@) {
                None => Notified::Nothing,
                Some(ip) => if old(self)@.current_external_ip == Some(ip) {
                    Notified::SameAddress
                } else {
                    Notified::NewAddress
                },
            },
    {
        match parse_notify_body(body) {
            Some(ip) => {
                let changed = self.set_external_ip(ip);
                self.last_notify = Some(now);
                if changed {
                    Notified::NewAddress
                } else {
                    Notified::SameAddress
                }
            },
            None => Notified::Nothing,
        }
    }

    /// Keeps a subscription granted at `now` for `ttl_secs`.
    pub fn start_subscription(&mut self, sid: String, now: Timestamp, ttl_secs: u32)
        requires
            now.wf(),
            now.secs + ttl_secs <= MAX_SECS,
        ensures
            final(self)@ == after_subscribe(old(self)@, sid@, now.later(ttl_secs as nat)),
    {
        let expiry = now.plus_seconds(ttl_secs);
        self.subscription = Some(GenaSubscription { sid, expiry });
    }

    /// The subscription to renew now, if there is one.
    pub fn due_for_renewal(&self) -> (sid: Option<String>)
        ensures
            opt(sid) == match self@.subscription {
                Some((sid, _)) => Some(sid),
                None => None,
            },
    {
        match &self.subscription {
            Some(s) => Some(s.sid.clone()),
            None => None,
        }
    }

    /// Takes in how the renewal went, at `now`, of a subscription for `ttl_secs`.
    pub fn finish_renewal(&mut self, ok: bool, now: Timestamp, ttl_secs: u32)
        requires
            ok ==> now.wf() && now.secs + ttl_secs <= MAX_SECS,
        ensures
            final(self)@ == after_renewal(old(self)@, ok, now.later(ttl_secs as nat)),
    {
        if ok {
            let expiry = now.plus_seconds(ttl_secs);
            if let Some(s) = self.subscription.take() {
                self.subscription = Some(GenaSubscription { sid: s.sid, expiry });
            }
        } else {
            self.subscription = None;
        }
    }

    /// Whether to poll the gateway at `now`.
    pub fn should_poll(&self, now: u64) -> (r: bool)
        ensures
            r == polling_needed(self@, now),
    {
        if self.subscription.is_none() {
            return true;
        }
        match self.last_notify {
            None => true,
            Some(last) => last < now && now - last > SILENCE_MILLIS,
        }
    }
}

/// The seconds between renewals: half of what a subscription lives.
pub fn renewal_interval_secs(ttl_secs: u32) -> (secs: u64)
    ensures
        secs == ttl_secs / 2,
{
    (ttl_secs / 2) as u64
}

/// A subscription is renewed before it expires.
pub proof fn law_renewed_before_it_expires(
    state: EventingStateView,
    sid: Seq<char>,
    now: Timestamp,
    ttl_secs: u32,
)
    requires
        now.wf(),
        now.secs + ttl_secs <= MAX_SECS,
        ttl_secs > 0,
    ensures
        after_subscribe(state, sid, now.later(ttl_secs as nat)).subscription matches Some(granted)
            && now.later((ttl_secs / 2) as nat).total_nanos() < granted.1.total_nanos(),
{
}

/// A subscription that could not be renewed leaves the gateway to be polled.
pub proof fn law_failed_renewal_polls(state: EventingStateView, expiry: Timestamp, now: u64)
    ensures
        polling_needed(after_renewal(state, false, expiry), now),
{
}

/// A gateway that has notified its address over a live subscription is not polled for
/// ten minutes, and then it is.
pub proof fn law_polled_after_ten_silent_minutes(
    state: EventingStateView,
    xml: Seq<char>,
    then: u64,
    now: u64,
)
    requires
        state.subscription is Some,
        notified_ip(xml) is Some,
        then <= now,
    ensures
        polling_needed(after_notify(state, xml, then), now) == (now - then > 10 * 60 * 1000),
{
}

/// The address that was last heard of, from a notification or from polling, is the one
/// that is known; a notification without an address changes nothing.
pub proof fn law_last_address_is_known(
    state: EventingStateView,
    xml: Seq<char>,
    now: u64,
    ip: Seq<char>,
)
    ensures
        with_external_ip(state, ip).current_external_ip == Some(ip),
        notified_ip(xml) is Some ==> after_notify(state, xml, now).current_external_ip
            == notified_ip(xml),
        notified_ip(xml) is None ==> after_notify(state, xml, now) == state,
        after_notify(state, xml, now).subscription == state.subscription,
{
}

} // verus!
