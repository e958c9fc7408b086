//! What is sent to the gateway and what is made of its replies, stated of the calls that
//! do it.

use crate::config::parse_host;
use crate::laws::discovery::{elements, lacks, last_text, law_absolute, law_gateway_is_discovered};
use crate::laws::gateway::{
    law_add_arguments, law_end_of_entries, law_external_address, law_granted_subscription,
    law_notified_address, law_polled_while_silent, law_request_is_addressed,
    law_value_needs_both_tags,
};
use crate::text::{decimal, has, occurs_at, opt, opt_str, split, trim};
use crate::time::{Timestamp, MAX_SECS};
use crate::upnp::discovery::{
    absolute, base_url, base_url_from, discover_gateway, document_tokens, first_location,
    parse_root_desc, services_in, ssdp_location, token_views, DiscoveryError, GatewayServices,
    ServiceScan, XmlToken, XmlTokenView,
};
use crate::upnp::eventing::{
    can_read_notify, notify_readable, parse_notify_body, renew_subscription,
    renewal_interval_secs, renewed, subscribe, subscribed, unsubscribe, unsubscribed,
    EventingError, EventingState, GenaReply, GenaRequest, Notified, SidHeader,
};
use crate::upnp::port_mapping::{
    action_text, add_arguments, added_lease, can_read_entry, can_read_entry_in,
    can_read_external_ip, deleted, entries, entry_from, entry_of, entry_readable, error_message,
    external_ip_from, extract_xml_value, parse_external_ip, parse_port_mapping_entry, soap_text,
    ListingView, MappingList, PortMappingEntry, SoapReply, SoapRequest, UpnpClient, UpnpError,
    UpnpErrorView,
};
use crate::upnp::xml::{element_value, in_order, tags_in_order, value_of};
use vstd::prelude::*;
use vstd::string::*;

verus! {

// ---------------------------------------------------------------------------
// Root descriptions
// ---------------------------------------------------------------------------

/// Inside a service, text goes where the last start tag says and nowhere else: a type
/// under `serviceType`, URLs under `controlURL` and `eventSubURL`. Outside, it goes
/// nowhere.
pub proof fn law_fed_text(scan: &mut ServiceScan, token: XmlToken, text: String, base: &str)
    requires
        call_ensures(ServiceScan::feed, (scan, &token, base), ()),
        token matches XmlToken::Text(Some(t)) && t == text,
    ensures
        final(scan)@.services == old(scan)@.services,
        final(scan)@.in_service == old(scan)@.in_service,
        final(scan)@.tag == old(scan)@.tag,
        ({
            let inside = old(scan)@.in_service;
            let tag = old(scan)@.tag;
            &&& final(scan)@.service_type == if inside && tag == "serviceType"@ {
                text@
            } else {
                old(scan)@.service_type
            }
            &&& final(scan)@.control_url == if inside && tag == "controlURL"@ {
                text@
            } else {
                old(scan)@.control_url
            }
            &&& final(scan)@.event_url == if inside && tag == "eventSubURL"@ {
                text@
            } else {
                old(scan)@.event_url
            }
        }),
{
    reveal_strlit("serviceType");
    reveal_strlit("controlURL");
    reveal_strlit("eventSubURL");
    assert("controlURL"@.len() == 10 && "eventSubURL"@.len() == 11);
    assert("serviceType"@.len() == 11);
    assert("eventSubURL"@[0] != "serviceType"@[0]);
}

/// A start tag is remembered. One of a service begins with nothing known of it; any other
/// changes nothing else.
pub proof fn law_fed_start_tag(scan: &mut ServiceScan, token: XmlToken, name: String, base: &str)
    requires
        call_ensures(ServiceScan::feed, (scan, &token, base), ()),
        token == XmlToken::Start(name),
    ensures
        final(scan)@.services == old(scan)@.services,
        final(scan)@.tag == name@,
        name@ == "service"@ ==> final(scan)@.in_service && final(scan)@.service_type.len() == 0
            && final(scan)@.control_url.len() == 0 && final(scan)@.event_url.len() == 0,
        name@ != "service"@ ==> {
            &&& final(scan)@.in_service == old(scan)@.in_service
            &&& final(scan)@.service_type == old(scan)@.service_type
            &&& final(scan)@.control_url == old(scan)@.control_url
            &&& final(scan)@.event_url == old(scan)@.event_url
        },
{
}

/// The end of a service counts it by its type, with its URLs completed. Any other end tag
/// changes nothing.
pub proof fn law_fed_end_tag(scan: &mut ServiceScan, token: XmlToken, name: String, base: &str)
    requires
        call_ensures(ServiceScan::feed, (scan, &token, base), ()),
        token == XmlToken::End(name),
    ensures
        ({
            let was = old(scan)@;
            let is = final(scan)@;
            let ends = name@ == "service"@ && was.in_service;
            let ip = ends && has(was.service_type, "WANIPConnection"@);
            let ppp = ends && !ip && has(was.service_type, "WANPPPConnection"@);
            let control = Some(
                if was.control_url.len() > 0 && was.control_url[0] == '/' {
                    base@ + was.control_url
                } else {
                    was.control_url
                },
            );
            let event = Some(
                if was.event_url.len() > 0 && was.event_url[0] == '/' {
                    base@ + was.event_url
                } else {
                    was.event_url
                },
            );
            &&& is.services.root_url == was.services.root_url
            &&& is.in_service == (was.in_service && !ends)
            &&& ip ==> is.services.wan_ip_control_url == control && is.services.wan_ip_event_url
                == event
            &&& !ip ==> is.services.wan_ip_control_url == was.services.wan_ip_control_url
                && is.services.wan_ip_event_url == was.services.wan_ip_event_url
            &&& ppp ==> is.services.wan_ppp_control_url == control && is.services.wan_ppp_event_url
                == event
            &&& !ppp ==> is.services.wan_ppp_control_url == was.services.wan_ppp_control_url
                && is.services.wan_ppp_event_url == was.services.wan_ppp_event_url
            &&& !ends ==> is == was
        }),
{
    law_absolute(base@, old(scan)@.control_url);
    law_absolute(base@, old(scan)@.event_url);
}

/// A scan begins with nothing found but the URL of the description, and ends with what it
/// has found.
pub proof fn law_scan_of_nothing(
    root_url: &str,
    scan: ServiceScan,
    ended: ServiceScan,
    services: GatewayServices,
)
    requires
        call_ensures(ServiceScan::new, (root_url,), scan),
        call_ensures(ServiceScan::finish, (ended,), services),
    ensures
        scan@.services.root_url == root_url@,
        scan@.services.wan_ip_control_url is None && scan@.services.wan_ip_event_url is None,
        scan@.services.wan_ppp_control_url is None && scan@.services.wan_ppp_event_url is None,
        !scan@.in_service,
        services@ == ended@.services,
{
}

/// A description with one service for IP connections gives the gateway's URLs, whatever
/// else stands in it, completed by the place of the description.
pub proof fn law_described_gateway(
    xml: &str,
    base: &str,
    root_url: &str,
    before: Seq<XmlTokenView>,
    fields: Seq<(Seq<char>, Seq<char>)>,
    after: Seq<XmlTokenView>,
    r: Result<GatewayServices, DiscoveryError>,
)
    requires
        call_ensures(parse_root_desc, (xml, base, root_url), r),
        document_tokens(xml@) == before + (seq![XmlTokenView::Start("service"@)] + elements(fields)
            + seq![XmlTokenView::End("service"@)]) + after,
        lacks(fields, "service"@),
        has(last_text(fields, "serviceType"@), "WANIPConnection"@),
        forall|i: int|
            0 <= i < before.len() ==> #[trigger] before[i] != XmlTokenView::Start("service"@)
                && !(before[i] is Malformed),
        forall|i: int|
            0 <= i < after.len() ==> #[trigger] after[i] != XmlTokenView::Start("service"@)
                && !(after[i] is Malformed),
    ensures
        r matches Ok(services) && services.root_url@ == root_url@ && opt(
            services.wan_ip_control_url,
        ) == Some(absolute(base@, last_text(fields, "controlURL"@))) && opt(
            services.wan_ip_event_url,
        ) == Some(absolute(base@, last_text(fields, "eventSubURL"@)))
            && services.wan_ppp_control_url is None && services.wan_ppp_event_url is None,
{
    law_gateway_is_discovered(before, fields, after, base@, root_url@);
}

/// A description that is read token by token, and one that is discovered, give what one
/// that is parsed gives.
pub proof fn law_descriptions_agree(
    xml: &str,
    base: &str,
    root_url: &str,
    tokens: Vec<XmlToken>,
    parsed: Result<GatewayServices, DiscoveryError>,
    scanned: Result<GatewayServices, DiscoveryError>,
    discovered: Result<GatewayServices, DiscoveryError>,
)
    requires
        call_ensures(parse_root_desc, (xml, base, root_url), parsed),
        call_ensures(services_in, (&tokens, base, root_url), scanned),
        call_ensures(discover_gateway, (root_url, xml), discovered),
        token_views(tokens@) == document_tokens(xml@),
    ensures
        parsed is Ok <==> scanned is Ok,
        parsed matches Ok(services) ==> scanned->Ok_0@ == services@,
        parsed matches Err(DiscoveryError::Malformed(what)) ==> (
        scanned matches Err(DiscoveryError::Malformed(same)) && same@ == what@),
        base@ == base_url(root_url@) ==> {
            &&& parsed is Ok <==> discovered is Ok
            &&& parsed matches Ok(services) ==> discovered->Ok_0@ == services@
            &&& parsed matches Err(DiscoveryError::Malformed(what)) ==> (
            discovered matches Err(DiscoveryError::Malformed(same)) && same@ == what@)
        },
{
}

/// The URLs of the IP service go before those of the PPP service.
pub proof fn law_urls_of_services(
    services: GatewayServices,
    control: Option<&str>,
    event: Option<&str>,
)
    requires
        call_ensures(GatewayServices::control_url, (&services,), control),
        call_ensures(GatewayServices::event_url, (&services,), event),
    ensures
        opt_str(control) == (if services.wan_ip_control_url is Some {
            opt(services.wan_ip_control_url)
        } else {
            opt(services.wan_ppp_control_url)
        }),
        opt_str(event) == (if services.wan_ip_event_url is Some {
            opt(services.wan_ip_event_url)
        } else {
            opt(services.wan_ppp_event_url)
        }),
{
}

// ---------------------------------------------------------------------------
// Events
// ---------------------------------------------------------------------------

/// The requests for events: each goes to the event URL, and names what it is about.
pub proof fn law_event_requests(
    url: &str,
    callback: &str,
    sid: &str,
    secs: u32,
    first: GenaRequest,
    again: GenaRequest,
    last: GenaRequest,
)
    requires
        call_ensures(subscribe, (url, callback, secs), first),
        call_ensures(renew_subscription, (url, sid, secs), again),
        call_ensures(unsubscribe, (url, sid), last),
    ensures
        first.url@ == url@ && again.url@ == url@ && last.url@ == url@,
        first.method@ == "SUBSCRIBE"@,
        again.method@ == "SUBSCRIBE"@,
        last.method@ == "UNSUBSCRIBE"@,
        first@.headers == seq![
            ("NT"@, "upnp:event"@),
            ("CALLBACK"@, "<"@ + callback@ + ">"@),
            ("TIMEOUT"@, "Second-"@ + decimal(secs as nat)),
        ],
        again@.headers == seq![("SID"@, sid@), ("TIMEOUT"@, "Second-"@ + decimal(secs as nat))],
        last@.headers == seq![("SID"@, sid@)],
{
}

/// A subscription is granted by an answer that succeeds and names it, renewed by one that
/// succeeds, and ended by any answer.
pub proof fn law_event_replies(
    reply: GenaReply,
    granted: Result<String, EventingError>,
    again: Result<(), EventingError>,
    ended: Result<(), EventingError>,
)
    requires
        call_ensures(subscribed, (reply,), granted),
        call_ensures(renewed, (reply,), again),
        call_ensures(unsubscribed, (reply,), ended),
    ensures
        match reply {
            GenaReply::NotSent => granted == Err::<String, EventingError>(
                EventingError::SubscribeNotSent,
            ) && again == Err::<(), EventingError>(EventingError::RenewalNotSent) && ended == Err::<
                (),
                EventingError,
            >(EventingError::UnsubscribeNotSent),
            GenaReply::Answer { success, status, sid } => {
                &&& ended is Ok
                &&& again is Ok <==> success
                &&& !success ==> (again matches Err(EventingError::RenewalRefused(s)) && s@
                    == status@)
                &&& !success ==> (granted matches Err(EventingError::SubscribeRefused(s)) && s@
                    == status@)
                &&& success ==> match sid {
                    SidHeader::Value(value) => granted matches Ok(s) && s@ == value@,
                    SidHeader::Missing => granted == Err::<String, EventingError>(
                        EventingError::NoSid,
                    ),
                    SidHeader::Invalid => granted == Err::<String, EventingError>(
                        EventingError::InvalidSid,
                    ),
                }
            },
        },
{
    law_granted_subscription(reply);
}

/// The messages of requests for events that failed.
pub proof fn law_event_messages(error: EventingError, text: String)
    requires
        call_ensures(EventingError::message, (&error,), text),
    ensures
        text@ == (match error {
            EventingError::SubscribeNotSent => "SUBSCRIBE request failed"@,
            EventingError::SubscribeRefused(status) => "SUBSCRIBE failed with status "@ + status@,
            EventingError::NoSid => "No SID in SUBSCRIBE response"@,
            EventingError::InvalidSid => "Invalid SID header"@,
            EventingError::RenewalNotSent => "SUBSCRIBE renewal failed"@,
            EventingError::RenewalRefused(status) => "SUBSCRIBE renewal failed: "@ + status@,
            EventingError::UnsubscribeNotSent => "UNSUBSCRIBE failed"@,
        }),
{
}

/// A notification tells the first address that it names, without the white space around
/// it.
pub proof fn law_told_address(xml: &str, r: Option<String>)
    requires
        call_ensures(parse_notify_body, (xml,), r),
    ensures
        ({
            let new = element_value(xml@, "NewExternalIPAddress"@);
            let plain = element_value(xml@, "ExternalIPAddress"@);
            if new matches Some(value) && trim(value).len() > 0 {
                opt(r) == Some(trim(new->0))
            } else if plain matches Some(value) && trim(value).len() > 0 {
                opt(r) == Some(trim(plain->0))
            } else {
                r is None
            }
        }),
{
    law_notified_address(xml@);
}

/// A notification with an address is kept with its time, and is told apart by whether the
/// address was known. One without changes nothing.
pub proof fn law_kept_notification(
    state: &mut EventingState,
    body: &str,
    now: u64,
    told: Notified,
    r: Option<String>,
)
    requires
        call_ensures(EventingState::notify, (state, body, now), told),
        call_ensures(parse_notify_body, (body,), r),
    ensures
        final(state)@.subscription == old(state)@.subscription,
        r is None ==> final(state)@ == old(state)@ && told is Nothing,
        r matches Some(ip) ==> {
            &&& final(state)@.current_external_ip == Some(ip@)
            &&& final(state)@.last_notify == Some(now)
            &&& told is SameAddress <==> old(state)@.current_external_ip == Some(ip@)
            &&& told is NewAddress <==> old(state)@.current_external_ip != Some(ip@)
        },
{
}

/// A polled address is kept, and whether it is new is told.
pub proof fn law_kept_address(state: &mut EventingState, ip: String, changed: bool)
    requires
        call_ensures(EventingState::set_external_ip, (state, ip), changed),
    ensures
        final(state)@.current_external_ip == Some(ip@),
        final(state)@.last_notify == old(state)@.last_notify,
        final(state)@.subscription == old(state)@.subscription,
        changed <==> old(state)@.current_external_ip != Some(ip@),
{
}

/// A granted subscription is kept under its name until its time is over.
pub proof fn law_kept_subscription(
    fresh: EventingState,
    state: &mut EventingState,
    sid: String,
    now: Timestamp,
    ttl_secs: u32,
)
    requires
        call_ensures(EventingState::new, (), fresh),
        call_ensures(EventingState::start_subscription, (state, sid, now, ttl_secs), ()),
        now.wf(),
        now.secs + ttl_secs <= MAX_SECS,
    ensures
        fresh.subscription is None && fresh.last_notify is None
            && fresh.current_external_ip is None,
        final(state)@.subscription matches Some((name, expiry)) && name == sid@
            && expiry.total_nanos() == now.total_nanos() + ttl_secs * 1_000_000_000,
        final(state)@.last_notify == old(state)@.last_notify,
        final(state)@.current_external_ip == old(state)@.current_external_ip,
{
}

/// A renewed subscription keeps its name and runs anew from now; one that was not renewed
/// is gone. Without one there is none afterwards either.
pub proof fn law_renewed_subscription(
    state: &mut EventingState,
    ok: bool,
    now: Timestamp,
    ttl_secs: u32,
)
    requires
        call_ensures(EventingState::finish_renewal, (state, ok, now, ttl_secs), ()),
        now.wf(),
        now.secs + ttl_secs <= MAX_SECS,
    ensures
        final(state)@.subscription is Some <==> ok && old(state)@.subscription is Some,
        final(state)@.subscription matches Some((name, expiry)) ==> name
            == (old(state)@.subscription->0).0 && expiry.total_nanos() == now.total_nanos()
            + ttl_secs * 1_000_000_000,
        final(state)@.last_notify == old(state)@.last_notify,
        final(state)@.current_external_ip == old(state)@.current_external_ip,
{
}

/// The subscription that there is has to be renewed, when half its time is over. The
/// gateway is polled unless there is one and it told an address within ten minutes.
pub proof fn law_due_events(
    state: EventingState,
    now: u64,
    poll: bool,
    sid: Option<String>,
    ttl_secs: u32,
    secs: u64,
)
    requires
        call_ensures(EventingState::should_poll, (&state, now), poll),
        call_ensures(EventingState::due_for_renewal, (&state,), sid),
        call_ensures(renewal_interval_secs, (ttl_secs,), secs),
    ensures
        !poll <==> state.subscription is Some && (state.last_notify matches Some(then) && now - then
            <= 10 * 60 * 1000),
        sid is Some <==> state.subscription is Some,
        sid matches Some(s) ==> s@ == state.subscription->0.sid@,
        2 * secs <= ttl_secs < 2 * secs + 2,
{
    law_polled_while_silent(state@, now);
}

// ---------------------------------------------------------------------------
// Actions
// ---------------------------------------------------------------------------

/// The requests for actions: each goes to the control URL and names its action and its
/// arguments.
pub proof fn law_action_requests(
    url: String,
    client: UpnpClient,
    external_port: u16,
    host: &str,
    internal_port: u16,
    protocol: &str,
    description: &str,
    lease: u32,
    index: u32,
    add: SoapRequest,
    delete: SoapRequest,
    ask: SoapRequest,
    get: SoapRequest,
)
    requires
        call_ensures(UpnpClient::new, (url,), client),
        call_ensures(
            UpnpClient::add_port_mapping,
            (&client, external_port, host, internal_port, protocol, description, lease),
            add,
        ),
        call_ensures(UpnpClient::delete_port_mapping, (&client, external_port, protocol), delete),
        call_ensures(UpnpClient::get_external_ip, (&client,), ask),
        call_ensures(UpnpClient::get_generic_port_mapping_entry, (&client, index), get),
    ensures
        is_action(
            add,
            url@,
            "AddPortMapping"@,
            seq![
                ("NewRemoteHost"@, Seq::<char>::empty()),
                ("NewExternalPort"@, decimal(external_port as nat)),
                ("NewProtocol"@, protocol@),
                ("NewInternalPort"@, decimal(internal_port as nat)),
                ("NewInternalClient"@, host@),
                ("NewEnabled"@, "1"@),
                ("NewPortMappingDescription"@, description@),
                ("NewLeaseDuration"@, decimal(lease as nat)),
            ],
        ),
        is_action(
            delete,
            url@,
            "DeletePortMapping"@,
            seq![
                ("NewRemoteHost"@, Seq::<char>::empty()),
                ("NewExternalPort"@, decimal(external_port as nat)),
                ("NewProtocol"@, protocol@),
            ],
        ),
        is_action(ask, url@, "GetExternalIPAddress"@, Seq::empty()),
        is_action(
            get,
            url@,
            "GetGenericPortMappingEntry"@,
            seq![("NewPortMappingIndex"@, decimal(index as nat))],
        ),
{
    let args = add_arguments(
        external_port as nat,
        host@,
        internal_port as nat,
        protocol@,
        description@,
        lease as nat,
    );
    law_add_arguments(
        external_port as nat,
        host@,
        internal_port as nat,
        protocol@,
        description@,
        lease as nat,
    );
    assert(args =~= seq![
        ("NewRemoteHost"@, Seq::<char>::empty()),
        ("NewExternalPort"@, decimal(external_port as nat)),
        ("NewProtocol"@, protocol@),
        ("NewInternalPort"@, decimal(internal_port as nat)),
        ("NewInternalClient"@, host@),
        ("NewEnabled"@, "1"@),
        ("NewPortMappingDescription"@, description@),
        ("NewLeaseDuration"@, decimal(lease as nat)),
    ]);
    assert(args.take(3) =~= seq![
        ("NewRemoteHost"@, Seq::<char>::empty()),
        ("NewExternalPort"@, decimal(external_port as nat)),
        ("NewProtocol"@, protocol@),
    ]);
}

/// A request to an address, for an action with arguments.
pub open spec fn is_action(
    request: SoapRequest,
    url: Seq<char>,
    action: Seq<char>,
    args: Seq<(Seq<char>, Seq<char>)>,
) -> bool {
    &&& request.url@ == url
    &&& request.content_type@ == "text/xml; charset=utf-8"@
    &&& request.soap_action@ == "\""@ + "urn:schemas-upnp-org:service:WANIPConnection:1"@ + "#"@
        + action + "\""@
    &&& request.body@ == "<?xml version=\"1.0\"?>\n"@
        + "<s:Envelope xmlns:s=\"http://schemas.xmlsoap.org/soap/envelope/\"\n"@
        + "            s:encodingStyle=\"http://schemas.xmlsoap.org/soap/encoding/\">\n"@
        + "  <s:Body>"@ + action_text(action, args) + "</s:Body>\n</s:Envelope>"@
}

/// Only the text of an answer that succeeds is used. An addition that succeeds has the
/// lease that was asked for.
pub proof fn law_action_replies(
    reply: SoapReply,
    text: Result<String, UpnpError>,
    lease_duration: u32,
    lease: Result<u32, UpnpError>,
    gone: Result<(), UpnpError>,
)
    requires
        call_ensures(soap_text, (reply,), text),
        call_ensures(added_lease, (reply, lease_duration), lease),
        call_ensures(deleted, (reply,), gone),
    ensures
        match reply {
            SoapReply::Answer { success, status, text: t } => if success {
                &&& text matches Ok(s) && s@ == t@
                &&& lease == Ok::<u32, UpnpError>(lease_duration)
                &&& gone is Ok
            } else {
                let refused = UpnpErrorView::Soap { status: status@, text: t@ };
                &&& text matches Err(e) && e@ == refused
                &&& lease matches Err(e) && e@ == refused
                &&& gone matches Err(e) && e@ == refused
            },
            SoapReply::NotSent => {
                &&& text matches Err(e) && e@ is NotSent
                &&& lease matches Err(e) && e@ is NotSent
                &&& gone matches Err(e) && e@ is NotSent
            },
            SoapReply::Unreadable => {
                &&& text matches Err(e) && e@ is Unreadable
                &&& lease matches Err(e) && e@ is Unreadable
                &&& gone matches Err(e) && e@ is Unreadable
            },
        },
{
}

/// The external address is what a successful answer says it is.
pub proof fn law_asked_address(reply: SoapReply, readable: bool, r: Result<String, UpnpError>)
    requires
        call_ensures(can_read_external_ip, (&reply,), readable),
        call_ensures(external_ip_from, (reply,), r),
    ensures
        match reply {
            SoapReply::Answer { success, status, text } => if success {
                &&& readable == tags_in_order(text@, "NewExternalIPAddress"@)
                &&& match element_value(text@, "NewExternalIPAddress"@) {
                    Some(ip) => r matches Ok(s) && s@ == ip,
                    None => r matches Err(e) && e@ is NoExternalIp,
                }
            } else {
                readable && (r matches Err(e) && e@ == UpnpErrorView::Soap {
                    status: status@,
                    text: text@,
                })
            },
            SoapReply::NotSent => readable && (r matches Err(e) && e@ is NotSent),
            SoapReply::Unreadable => readable && (r matches Err(e) && e@ is Unreadable),
        },
{
    law_external_address(reply);
}

/// An entry is what a successful answer says it is. A refusal that names the index ends
/// the listing, and any other fails it.
pub proof fn law_asked_entry(
    reply: SoapReply,
    readable: bool,
    r: Result<Option<PortMappingEntry>, UpnpError>,
)
    requires
        call_ensures(can_read_entry_in, (&reply,), readable),
        call_ensures(entry_from, (reply,), r),
    ensures
        match reply {
            SoapReply::Answer { success, status, text } => if success {
                &&& readable == entry_readable(text@)
                &&& match entry_of(text@) {
                    Ok(entry) => r matches Ok(Some(e)) && e@ == entry,
                    Err(error) => r matches Err(e) && e@ == error,
                }
            } else {
                let message = "SOAP error "@ + status@ + ": "@ + text@;
                let ends = has(message, "713"@) || has(message, "SpecifiedArrayIndexInvalid"@);
                &&& readable
                &&& ends ==> (r matches Ok(None))
                &&& !ends ==> (r matches Err(e) && e@ == UpnpErrorView::Soap {
                    status: status@,
                    text: text@,
                })
            },
            SoapReply::NotSent => readable && (r matches Err(e) && e@ is NotSent),
            SoapReply::Unreadable => readable && (r matches Err(e) && e@ is Unreadable),
        },
{
    law_end_of_entries(reply);
}

/// A listing begins with nothing found, and asks for the entry behind those that it has.
pub proof fn law_listing_asks(
    url: String,
    client: UpnpClient,
    fresh: MappingList,
    list: MappingList,
    index: Option<u32>,
    request: Option<SoapRequest>,
)
    requires
        call_ensures(UpnpClient::new, (url,), client),
        call_ensures(MappingList::new, (), fresh),
        call_ensures(MappingList::next_index, (&list,), index),
        call_ensures(UpnpClient::list_port_mappings, (&client, &list), request),
    ensures
        fresh@ matches ListingView::Asking(found) && found.len() == 0,
        match list@ {
            ListingView::Asking(found) => {
                &&& index matches Some(i) && i == found.len()
                &&& request matches Some(r) && is_action(
                    r,
                    url@,
                    "GetGenericPortMappingEntry"@,
                    seq![("NewPortMappingIndex"@, decimal(found.len()))],
                )
            },
            _ => index is None && request is None,
        },
{
}

/// A listing goes on with every entry that it is told, and ends with all of them at the
/// first reply that holds none, or with its error. Then it stays as it is.
pub proof fn law_listing_advances(
    list: &mut MappingList,
    reply: SoapReply,
    r: Result<Option<PortMappingEntry>, UpnpError>,
)
    requires
        call_ensures(MappingList::advance, (list, reply), ()),
        call_ensures(entry_from, (reply,), r),
    ensures
        match old(list)@ {
            ListingView::Asking(found) => match r {
                Ok(Some(entry)) => final(list)@ == ListingView::Asking(found.push(entry@)),
                Ok(None) => final(list)@ == ListingView::Complete(found),
                Err(e) => final(list)@ == ListingView::Failed(e@),
            },
            _ => final(list)@ == old(list)@,
        },
{
}

/// A listing gives what it has found once it is complete, and its error once it failed.
pub proof fn law_listing_ends(
    list: MappingList,
    r: Option<Result<Vec<PortMappingEntry>, UpnpError>>,
)
    requires
        call_ensures(MappingList::finish, (list,), r),
    ensures
        match list@ {
            ListingView::Asking(_) => r is None,
            ListingView::Complete(found) => r matches Some(Ok(mappings)) && mappings@.len()
                == found.len() && forall|i: int|
                0 <= i < found.len() ==> (#[trigger] mappings@[i])@ == found[i],
            ListingView::Failed(e) => r matches Some(Err(error)) && error@ == e,
        },
{
    if let ListingView::Complete(found) = list@ {
        let mappings = r->0->Ok_0;
        assert(entries(mappings@) == found);
        assert(entries(mappings@).len() == mappings@.len());
        assert forall|i: int| 0 <= i < found.len() implies (#[trigger] mappings@[i])@
            == found[i] by {
            assert(entries(mappings@)[i] == mappings@[i]@);
        }
    }
}

// ---------------------------------------------------------------------------
// Elements and URLs
// ---------------------------------------------------------------------------

/// The text of an element is what stands between its tags; without both there is none.
pub proof fn law_read_element(
    xml: &str,
    tag: &str,
    ok: bool,
    value: Option<&str>,
    r: Result<String, UpnpError>,
)
    requires
        call_ensures(in_order, (xml, tag), ok),
        call_ensures(value_of, (xml, tag), value),
        call_ensures(extract_xml_value, (xml, tag), r),
    ensures
        ok == tags_in_order(xml@, tag@),
        opt_str(value) == element_value(xml@, tag@),
        r is Ok <==> has(xml@, "<"@ + tag@ + ">"@) && has(xml@, "</"@ + tag@ + ">"@),
        r matches Ok(text) ==> element_value(xml@, tag@) == Some(text@),
        r matches Err(e) ==> e@ == UpnpErrorView::TagNotFound(tag@),
{
    law_value_needs_both_tags(xml@, tag@);
}

/// What is read of an answer without its reply is what is read of the reply.
pub proof fn law_read_answers(
    xml: &str,
    ip: Result<String, UpnpError>,
    entry: Result<PortMappingEntry, UpnpError>,
    readable: bool,
    notified: bool,
)
    requires
        call_ensures(parse_external_ip, (xml,), ip),
        call_ensures(parse_port_mapping_entry, (xml,), entry),
        call_ensures(can_read_entry, (xml,), readable),
        call_ensures(can_read_notify, (xml,), notified),
    ensures
        match element_value(xml@, "NewExternalIPAddress"@) {
            Some(value) => ip matches Ok(text) && text@ == value,
            None => ip matches Err(e) && e@ is NoExternalIp,
        },
        match entry_of(xml@) {
            Ok(e) => entry matches Ok(found) && found@ == e,
            Err(e) => entry matches Err(error) && error@ == e,
        },
        readable == entry_readable(xml@),
        notified == notify_readable(xml@),
{
}

/// A URL is read for its base and its host, an answer to a search line by line for the
/// place that it names.
pub proof fn law_read_urls(
    url: &str,
    base: String,
    host: Option<String>,
    response: &str,
    location: Option<String>,
)
    requires
        call_ensures(base_url_from, (url,), base),
        call_ensures(parse_host, (url,), host),
        call_ensures(ssdp_location, (response,), location),
    ensures
        base@ == base_url(url@),
        opt(host) == crate::config::host(url@),
        opt(location) == first_location(split(response@, '\n')),
{
}

/// The messages of what could not be read, and the request for any action.
pub proof fn law_gateway_messages(
    error: UpnpError,
    text: String,
    what: DiscoveryError,
    why: String,
    url: String,
    client: UpnpClient,
    action: &str,
    body: &str,
    request: SoapRequest,
)
    requires
        call_ensures(UpnpError::message, (&error,), text),
        call_ensures(DiscoveryError::message, (&what,), why),
        call_ensures(UpnpClient::new, (url,), client),
        call_ensures(UpnpClient::soap_action, (&client, action, body), request),
    ensures
        text@ == error_message(error@),
        what matches DiscoveryError::Malformed(w) && why@ == "XML parse error: "@ + w@,
        request.url@ == url@,
        request.content_type@ == "text/xml; charset=utf-8"@,
        request.soap_action@ == "\""@ + "urn:schemas-upnp-org:service:WANIPConnection:1"@ + "#"@
            + action@ + "\""@,
        has(request.body@, body@),
{
    let b = request.body@;
    let head = "<?xml version=\"1.0\"?>\n"@
        + "<s:Envelope xmlns:s=\"http://schemas.xmlsoap.org/soap/envelope/\"\n"@
        + "            s:encodingStyle=\"http://schemas.xmlsoap.org/soap/encoding/\">\n"@
        + "  <s:Body>"@;
    law_request_is_addressed(url@, action@, body@);
    assert(b == head + body@ + "</s:Body>\n</s:Envelope>"@);
    assert(b.subrange(head.len() as int, (head.len() + body@.len()) as int) =~= body@);
    assert(occurs_at(b, body@, head.len() as int));
}

} // verus!
