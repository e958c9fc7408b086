//! What is sent to the gateway and what its answers and notifications mean.

use crate::text::{clear_of, decimal, has, lemma_position, parse_unsigned, trim};
use crate::time::Timestamp;
use crate::upnp::eventing::{
    after_notify, after_renewal, after_subscribe, granted_sid, notified_ip, polling_needed,
    timeout_header, with_external_ip, EventingErrorView, EventingStateView, GenaReply,
    SidHeader,
};
use crate::upnp::port_mapping::{
    action_text, add_arguments, arguments_text, delete_arguments, entry_in, entry_of, envelope,
    error_message, external_ip_of, is_argument_name, law_request_reads_back, reply_text,
    soap_request, PortMappingEntryView, SoapReply, UpnpErrorView,
};
use crate::upnp::xml::{element_value, lemma_value_between};
use vstd::prelude::*;
use vstd::string::*;

verus! {

// ---------------------------------------------------------------------------
// Elements
// ---------------------------------------------------------------------------

/// An element has a value exactly where both its tags are there.
pub proof fn law_value_needs_both_tags(xml: Seq<char>, tag: Seq<char>)
    ensures
        element_value(xml, tag) is Some <==> has(xml, "<"@ + tag + ">"@) && has(
            xml,
            "</"@ + tag + ">"@,
        ),
{
    lemma_position(xml, "<"@ + tag + ">"@);
    lemma_position(xml, "</"@ + tag + ">"@);
}

/// The value of an element is what stands between its tags.
pub proof fn law_value_between_tags(
    before: Seq<char>,
    tag: Seq<char>,
    value: Seq<char>,
    after: Seq<char>,
)
    requires
        clear_of(before, "<"@ + tag + ">"@),
        clear_of(before + ("<"@ + tag + ">"@) + value, "</"@ + tag + ">"@),
    ensures
        element_value(
            before + ("<"@ + tag + ">"@) + value + ("</"@ + tag + ">"@) + after,
            tag,
        ) == Some(value),
{
    lemma_value_between(before, tag, value, after);
}

// ---------------------------------------------------------------------------
// Requests
// ---------------------------------------------------------------------------

/// A request goes to the control URL, as XML, under the action's name.
pub proof fn law_request_is_addressed(url: Seq<char>, action: Seq<char>, body: Seq<char>)
    ensures
        ({
            let r = soap_request(url, action, body);
            &&& r.url == url
            &&& r.content_type == "text/xml; charset=utf-8"@
            &&& r.soap_action == "\""@ + "urn:schemas-upnp-org:service:WANIPConnection:1"@ + "#"@
                + action + "\""@
            &&& r.body == "<?xml version=\"1.0\"?>\n"@
                + "<s:Envelope xmlns:s=\"http://schemas.xmlsoap.org/soap/envelope/\"\n"@
                + "            s:encodingStyle=\"http://schemas.xmlsoap.org/soap/encoding/\">\n"@
                + "  <s:Body>"@ + body + "</s:Body>\n</s:Envelope>"@
        }),
{
}

/// An action is written as one element, with its arguments on lines of their own, names
/// and values as they are.
pub proof fn law_action_is_written(
    action: Seq<char>,
    args: Seq<(Seq<char>, Seq<char>)>,
    name: Seq<char>,
    value: Seq<char>,
)
    ensures
        arguments_text(Seq::empty()) == Seq::<char>::empty(),
        arguments_text(args.push((name, value))) == arguments_text(args) + ("\n  "@ + ("<"@ + name
            + ">"@) + value + ("</"@ + name + ">"@)),
        action_text(action, Seq::empty()) == "<u:"@ + action + " xmlns:u=\""@
            + "urn:schemas-upnp-org:service:WANIPConnection:1"@ + "\">"@ + "</u:"@ + action + ">"@,
        action_text(action, args.push((name, value))) == "<u:"@ + action + " xmlns:u=\""@
            + "urn:schemas-upnp-org:service:WANIPConnection:1"@ + "\">"@ + arguments_text(
            args.push((name, value)),
        ) + "\n"@ + "</u:"@ + action + ">"@,
{
    assert(args.push((name, value)).drop_last() =~= args);
    let none = Seq::<(Seq<char>, Seq<char>)>::empty();
    assert(arguments_text(none) =~= Seq::<char>::empty());
    let open = "<u:"@ + action + " xmlns:u=\""@
        + "urn:schemas-upnp-org:service:WANIPConnection:1"@ + "\">"@;
    assert(open + Seq::<char>::empty() + Seq::<char>::empty() =~= open);
}

/// A request for a mapping has the mapping as its arguments: the external port and the own
/// port each under its own name, for any remote host, enabled.
pub proof fn law_add_arguments(
    external_port: nat,
    internal_host: Seq<char>,
    internal_port: nat,
    protocol: Seq<char>,
    description: Seq<char>,
    lease_duration: nat,
)
    ensures
        ({
            let args = add_arguments(
                external_port,
                internal_host,
                internal_port,
                protocol,
                description,
                lease_duration,
            );
            &&& args.len() == 8
            &&& args[0] == ("NewRemoteHost"@, Seq::<char>::empty())
            &&& args[1] == ("NewExternalPort"@, decimal(external_port))
            &&& args[2] == ("NewProtocol"@, protocol)
            &&& args[3] == ("NewInternalPort"@, decimal(internal_port))
            &&& args[4] == ("NewInternalClient"@, internal_host)
            &&& args[5] == ("NewEnabled"@, "1"@)
            &&& args[6] == ("NewPortMappingDescription"@, description)
            &&& args[7] == ("NewLeaseDuration"@, decimal(lease_duration))
            &&& delete_arguments(external_port, protocol) == args.take(3)
        }),
{
    let args = add_arguments(
        external_port,
        internal_host,
        internal_port,
        protocol,
        description,
        lease_duration,
    );
    assert(delete_arguments(external_port, protocol) =~= args.take(3));
}

/// A request for an entry carries the index of that entry.
pub proof fn law_entry_request_reads_back(index: u32)
    ensures
        element_value(
            envelope(
                action_text(
                    "GetGenericPortMappingEntry"@,
                    seq![("NewPortMappingIndex"@, decimal(index as nat))],
                ),
            ),
            "NewPortMappingIndex"@,
        ) == Some(decimal(index as nat)),
{
    let action = "GetGenericPortMappingEntry"@;
    let args = seq![("NewPortMappingIndex"@, decimal(index as nat))];
    assert(!action.contains('<')) by {
        reveal_strlit("GetGenericPortMappingEntry");
    }
    assert(is_argument_name("NewPortMappingIndex"@)) by {
        reveal_strlit("NewPortMappingIndex");
    }
    crate::text::lemma_decimal(index as nat);
    assert forall|k: int| 0 <= k < decimal(index as nat).len() implies decimal(index as nat)[k]
        != '<' by {
        assert(crate::text::is_digit(decimal(index as nat)[k]));
    }
    law_request_reads_back(action, args, 0);
}

// ---------------------------------------------------------------------------
// Answers
// ---------------------------------------------------------------------------

/// Only the text of a successful answer is used; a refusal is kept with its status and
/// its text.
pub proof fn law_only_success_is_used(reply: SoapReply)
    ensures
        match reply {
            SoapReply::NotSent => reply_text(reply) == Err::<Seq<char>, UpnpErrorView>(
                UpnpErrorView::NotSent,
            ),
            SoapReply::Unreadable => reply_text(reply) == Err::<Seq<char>, UpnpErrorView>(
                UpnpErrorView::Unreadable,
            ),
            SoapReply::Answer { success, status, text } => reply_text(reply) == (if success {
                Ok(text@)
            } else {
                Err(UpnpErrorView::Soap { status: status@, text: text@ })
            }),
        },
{
}

/// The messages of errors.
pub proof fn law_error_messages(status: Seq<char>, text: Seq<char>, tag: Seq<char>)
    ensures
        error_message(UpnpErrorView::Soap { status, text }) == "SOAP error "@ + status + ": "@
            + text,
        error_message(UpnpErrorView::TagNotFound(tag)) == "Tag "@ + tag + " not found in XML"@,
        error_message(UpnpErrorView::NotSent) == "SOAP request failed"@,
        error_message(UpnpErrorView::Unreadable) == "Failed to read SOAP response"@,
        error_message(UpnpErrorView::NoExternalIp) == "ExternalIPAddress not found in response"@,
        error_message(UpnpErrorView::InvalidExternalPort) == "Invalid external port"@,
        error_message(UpnpErrorView::InvalidInternalPort) == "Invalid internal port"@,
{
}

/// The external address of an answer is the value of its element, as it stands.
pub proof fn law_external_address(reply: SoapReply)
    ensures
        match external_ip_of(reply) {
            Ok(ip) => reply_text(reply) matches Ok(text) && element_value(
                text,
                "NewExternalIPAddress"@,
            ) == Some(ip),
            Err(e) => match reply_text(reply) {
                Ok(text) => e is NoExternalIp && element_value(text, "NewExternalIPAddress"@) is None,
                Err(refused) => e == refused,
            },
        },
{
}

/// The number of an element: its value, where that is a number up to `max`.
pub open spec fn number_in(xml: Seq<char>, tag: Seq<char>, max: nat) -> Option<nat> {
    match element_value(xml, tag) {
        Some(value) => parse_unsigned(value, max),
        None => None,
    }
}

/// An entry says what its elements say. It is there exactly where both ports are port
/// numbers and the protocol and the client are named; a description that is missing is
/// empty, a lease that is no number is none, and only `1` is enabled.
pub proof fn law_entry_says_its_elements(xml: Seq<char>)
    ensures
        match entry_of(xml) {
            Ok(e) => {
                &&& number_in(xml, "NewExternalPort"@, 65535) == Some(e.external_port)
                &&& number_in(xml, "NewInternalPort"@, 65535) == Some(e.internal_port)
                &&& element_value(xml, "NewProtocol"@) == Some(e.protocol)
                &&& element_value(xml, "NewInternalClient"@) == Some(e.internal_client)
                &&& e.description == (match element_value(xml, "NewPortMappingDescription"@) {
                    Some(text) => text,
                    None => Seq::empty(),
                })
                &&& e.enabled == (element_value(xml, "NewEnabled"@) == Some("1"@))
                &&& e.lease_duration == (match number_in(xml, "NewLeaseDuration"@, 0xffff_ffff) {
                    Some(secs) => secs,
                    None => 0,
                })
            },
            Err(e) => {
                ||| e == UpnpErrorView::TagNotFound("NewExternalPort"@) && element_value(
                    xml,
                    "NewExternalPort"@,
                ) is None
                ||| e is InvalidExternalPort && element_value(xml, "NewExternalPort"@) is Some
                    && number_in(xml, "NewExternalPort"@, 65535) is None
                ||| number_in(xml, "NewExternalPort"@, 65535) is Some && {
                    ||| e == UpnpErrorView::TagNotFound("NewProtocol"@) && element_value(
                        xml,
                        "NewProtocol"@,
                    ) is None
                    ||| element_value(xml, "NewProtocol"@) is Some && {
                        ||| e == UpnpErrorView::TagNotFound("NewInternalClient"@) && element_value(
                            xml,
                            "NewInternalClient"@,
                        ) is None
                        ||| element_value(xml, "NewInternalClient"@) is Some && {
                            ||| e == UpnpErrorView::TagNotFound("NewInternalPort"@)
                                && element_value(xml, "NewInternalPort"@) is None
                            ||| e is InvalidInternalPort && element_value(
                                xml,
                                "NewInternalPort"@,
                            ) is Some && number_in(xml, "NewInternalPort"@, 65535) is None
                        }
                    }
                }
            },
        },
{
}

/// The entries end where the gateway refuses and its status or text names the error 713 or
/// its description. No other answer ends them.
pub proof fn law_end_of_entries(reply: SoapReply)
    ensures
        match reply {
            SoapReply::NotSent => entry_in(reply) == Err::<
                Option<PortMappingEntryView>,
                UpnpErrorView,
            >(UpnpErrorView::NotSent),
            SoapReply::Unreadable => entry_in(reply) == Err::<
                Option<PortMappingEntryView>,
                UpnpErrorView,
            >(UpnpErrorView::Unreadable),
            SoapReply::Answer { success, status, text } => if success {
                match entry_of(text@) {
                    Ok(e) => entry_in(reply) == Ok::<Option<PortMappingEntryView>, UpnpErrorView>(
                        Some(e),
                    ),
                    Err(e) => entry_in(reply) == Err::<Option<PortMappingEntryView>, UpnpErrorView>(
                        e,
                    ),
                }
            } else {
                let message = "SOAP error "@ + status@ + ": "@ + text@;
                if has(message, "713"@) || has(message, "SpecifiedArrayIndexInvalid"@) {
                    entry_in(reply) == Ok::<Option<PortMappingEntryView>, UpnpErrorView>(None)
                } else {
                    entry_in(reply) == Err::<Option<PortMappingEntryView>, UpnpErrorView>(
                        UpnpErrorView::Soap { status: status@, text: text@ },
                    )
                }
            },
        },
{
    reveal_strlit("SOAP request failed");
    reveal_strlit("Failed to read SOAP response");
    reveal_strlit("713");
    reveal_strlit("SpecifiedArrayIndexInvalid");
    let first = "SOAP request failed"@;
    let second = "Failed to read SOAP response"@;
    lemma_lacks(first, "713"@, '7');
    lemma_lacks(second, "713"@, '7');
    assert(!first.contains('7'));
    assert(!second.contains('7'));
    assert(!first.contains('I'));
    assert(!second.contains('I'));
    lemma_lacks_at(first, "SpecifiedArrayIndexInvalid"@, 14);
    lemma_lacks_at(second, "SpecifiedArrayIndexInvalid"@, 14);
}

/// A text without the first character of a pattern does not hold the pattern.
proof fn lemma_lacks(text: Seq<char>, pat: Seq<char>, c: char)
    requires
        pat.len() > 0,
        pat[0] == c,
    ensures
        !text.contains(c) ==> has(text, pat) == false,
{
    lemma_lacks_at(text, pat, 0);
}

/// A text without some character of a pattern does not hold the pattern.
proof fn lemma_lacks_at(text: Seq<char>, pat: Seq<char>, k: int)
    requires
        0 <= k < pat.len(),
    ensures
        !text.contains(pat[k]) ==> has(text, pat) == false,
{
    if has(text, pat) {
        let i = choose|i: int| crate::text::occurs_at(text, pat, i);
        assert(text.subrange(i, i + pat.len())[k] == text[i + k]);
        assert(text.contains(text[i + k]));
    }
}

// ---------------------------------------------------------------------------
// Events
// ---------------------------------------------------------------------------

/// A subscription is granted by a success that names it, and by nothing else.
pub proof fn law_granted_subscription(reply: GenaReply)
    ensures
        match reply {
            GenaReply::NotSent => granted_sid(reply) == Err::<Seq<char>, EventingErrorView>(
                EventingErrorView::SubscribeNotSent,
            ),
            GenaReply::Answer { success, status, sid } => if !success {
                granted_sid(reply) == Err::<Seq<char>, EventingErrorView>(
                    EventingErrorView::SubscribeRefused(status@),
                )
            } else {
                match sid {
                    SidHeader::Value(value) => granted_sid(reply) == Ok::<
                        Seq<char>,
                        EventingErrorView,
                    >(value@),
                    SidHeader::Missing => granted_sid(reply) == Err::<Seq<char>, EventingErrorView>(
                        EventingErrorView::NoSid,
                    ),
                    SidHeader::Invalid => granted_sid(reply) == Err::<Seq<char>, EventingErrorView>(
                        EventingErrorView::InvalidSid,
                    ),
                }
            },
        },
{
}

/// The duration of a subscription is asked for in seconds.
pub proof fn law_timeout_header(secs: nat)
    ensures
        timeout_header(secs) == "Second-"@ + decimal(secs),
{
}

/// The address of a notification is the value of its element without white space around
/// it. The one named as new comes first; an empty one counts as none.
pub proof fn law_notified_address(xml: Seq<char>)
    ensures
        ({
            let new = element_value(xml, "NewExternalIPAddress"@);
            let plain = element_value(xml, "ExternalIPAddress"@);
            if new matches Some(value) && trim(value).len() > 0 {
                notified_ip(xml) == Some(trim(new->0))
            } else if plain matches Some(value) && trim(value).len() > 0 {
                notified_ip(xml) == Some(trim(plain->0))
            } else {
                notified_ip(xml) is None
            }
        }),
{
}

/// A notification with an address makes that address the known one and counts as a sign of
/// life; one without changes nothing. The subscription stays either way.
pub proof fn law_notification_is_kept(state: EventingStateView, xml: Seq<char>, now: u64)
    ensures
        notified_ip(xml) matches Some(ip) ==> after_notify(state, xml, now) == (EventingStateView {
            subscription: state.subscription,
            last_notify: Some(now),
            current_external_ip: Some(ip),
        }),
        notified_ip(xml) is None ==> after_notify(state, xml, now) == state,
{
}

/// An address from polling makes that address the known one and changes nothing else.
pub proof fn law_polled_address_is_kept(state: EventingStateView, ip: Seq<char>)
    ensures
        with_external_ip(state, ip) == (EventingStateView {
            subscription: state.subscription,
            last_notify: state.last_notify,
            current_external_ip: Some(ip),
        }),
{
}

/// A subscription is kept from when it is granted; a renewal moves its end and a failed
/// one drops it. Nothing else changes, and without a subscription nothing is renewed.
pub proof fn law_subscription_is_kept(
    state: EventingStateView,
    sid: Seq<char>,
    expiry: Timestamp,
    later: Timestamp,
)
    ensures
        ({
            let granted = after_subscribe(state, sid, expiry);
            let renewed = after_renewal(granted, true, later);
            let dropped = after_renewal(granted, false, later);
            &&& granted.subscription == Some((sid, expiry))
            &&& renewed.subscription == Some((sid, later))
            &&& dropped.subscription is None
            &&& after_renewal(dropped, true, later) == dropped
            &&& granted.last_notify == state.last_notify && renewed.last_notify
                == state.last_notify && dropped.last_notify == state.last_notify
            &&& granted.current_external_ip == state.current_external_ip
                && renewed.current_external_ip == state.current_external_ip
                && dropped.current_external_ip == state.current_external_ip
        }),
{
}

/// The gateway is polled exactly while no live subscription has brought an address within
/// the last ten minutes.
pub proof fn law_polled_while_silent(state: EventingStateView, now: u64)
    ensures
        !polling_needed(state, now) <==> state.subscription is Some && (
        state.last_notify matches Some(then) && now - then <= 10 * 60 * 1000),
{
}

} // verus!
