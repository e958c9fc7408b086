//! What is found in a root description, and how its URLs are completed.

use crate::laws::text::{all_white, has_dark_ends, law_split_once, law_trim};
use crate::text::{
    first_of, has, lemma_char_position_is, lemma_char_position_none, lemma_position,
    lemma_position_is, occurs_at, same_letters,
};
use crate::upnp::discovery::{
    absolute, base_url, first_location, law_scan_goes_on, location_in, scan_start, scan_step,
    scan_tokens, services_of, with_service, GatewayServicesView, ServiceScanView, XmlTokenView,
};
use vstd::prelude::*;
use vstd::string::*;

verus! {

// ---------------------------------------------------------------------------
// Services
// ---------------------------------------------------------------------------

/// The tokens of text elements, one after the other.
pub open spec fn elements(fields: Seq<(Seq<char>, Seq<char>)>) -> Seq<XmlTokenView>
    decreases fields.len(),
{
    if fields.len() == 0 {
        Seq::empty()
    } else {
        elements(fields.drop_last()) + seq![
            XmlTokenView::Start(fields.last().0),
            XmlTokenView::Text(Some(fields.last().1)),
            XmlTokenView::End(fields.last().0),
        ]
    }
}

/// The text of the last element with a name; empty where there is none.
pub open spec fn last_text(fields: Seq<(Seq<char>, Seq<char>)>, name: Seq<char>) -> Seq<char>
    decreases fields.len(),
{
    if fields.len() == 0 {
        Seq::empty()
    } else if fields.last().0 == name {
        fields.last().1
    } else {
        last_text(fields.drop_last(), name)
    }
}

/// No element has the name.
pub open spec fn lacks(fields: Seq<(Seq<char>, Seq<char>)>, name: Seq<char>) -> bool {
    forall|i: int| 0 <= i < fields.len() ==> (#[trigger] fields[i]).0 != name
}

/// The names of the elements that matter differ.
proof fn lemma_names_differ()
    ensures
        "service"@ != "serviceType"@,
        "service"@ != "controlURL"@,
        "service"@ != "eventSubURL"@,
        "serviceType"@ != "controlURL"@,
        "serviceType"@ != "eventSubURL"@,
        "controlURL"@ != "eventSubURL"@,
{
    reveal_strlit("service");
    reveal_strlit("serviceType");
    reveal_strlit("controlURL");
    reveal_strlit("eventSubURL");
    assert("serviceType"@.len() == 11 && "service"@.len() == 7);
    assert("controlURL"@.len() == 10 && "eventSubURL"@.len() == 11);
    assert("eventSubURL"@[0] != "serviceType"@[0]);
}

/// A scan of one text element inside a service.
proof fn lemma_scan_element(
    scan: ServiceScanView,
    name: Seq<char>,
    text: Seq<char>,
    base: Seq<char>,
)
    requires
        scan.in_service,
        name != "service"@,
    ensures
        scan_tokens(
            scan,
            seq![
                XmlTokenView::Start(name),
                XmlTokenView::Text(Some(text)),
                XmlTokenView::End(name),
            ],
            base,
        ) == Ok::<ServiceScanView, Seq<char>>(
            ServiceScanView {
                services: scan.services,
                in_service: true,
                tag: name,
                service_type: if name == "serviceType"@ {
                    text
                } else {
                    scan.service_type
                },
                control_url: if name == "controlURL"@ {
                    text
                } else {
                    scan.control_url
                },
                event_url: if name == "eventSubURL"@ {
                    text
                } else {
                    scan.event_url
                },
            },
        ),
{
    lemma_names_differ();
    reveal_with_fuel(scan_tokens, 4);
}

/// A scan of text elements inside a service.
proof fn lemma_scan_elements(
    scan: ServiceScanView,
    fields: Seq<(Seq<char>, Seq<char>)>,
    base: Seq<char>,
)
    requires
        scan.in_service,
        scan.service_type == Seq::<char>::empty(),
        scan.control_url == Seq::<char>::empty(),
        scan.event_url == Seq::<char>::empty(),
        lacks(fields, "service"@),
    ensures
        scan_tokens(scan, elements(fields), base) matches Ok(next) && next.in_service
            && next.services == scan.services && next.service_type == last_text(
            fields,
            "serviceType"@,
        ) && next.control_url == last_text(fields, "controlURL"@) && next.event_url == last_text(
            fields,
            "eventSubURL"@,
        ),
    decreases fields.len(),
{
    if fields.len() > 0 {
        let first = fields.drop_last();
        assert forall|i: int| 0 <= i < first.len() implies (#[trigger] first[i]).0
            != "service"@ by {
            assert(first[i] == fields[i]);
        }
        lemma_scan_elements(scan, first, base);
        let next = scan_tokens(scan, elements(first), base)->Ok_0;
        let (name, text) = fields.last();
        assert(fields[fields.len() - 1].0 != "service"@);
        lemma_scan_element(next, name, text, base);
        law_scan_goes_on(
            scan,
            elements(first),
            seq![
                XmlTokenView::Start(name),
                XmlTokenView::Text(Some(text)),
                XmlTokenView::End(name),
            ],
            base,
        );
    }
}

/// A service element with text elements in it, in any order and of any other names beside,
/// is found: its type is the text under `serviceType`, and its URLs are the texts under
/// `controlURL` and `eventSubURL`, whatever else stands in it.
pub proof fn law_service_with_any_elements_is_found(
    scan: ServiceScanView,
    fields: Seq<(Seq<char>, Seq<char>)>,
    base: Seq<char>,
)
    requires
        lacks(fields, "service"@),
    ensures
        scan_tokens(
            scan,
            seq![XmlTokenView::Start("service"@)] + elements(fields) + seq![
                XmlTokenView::End("service"@),
            ],
            base,
        ) matches Ok(next) && !next.in_service && next.services == with_service(
            scan.services,
            last_text(fields, "serviceType"@),
            absolute(base, last_text(fields, "controlURL"@)),
            absolute(base, last_text(fields, "eventSubURL"@)),
        ),
{
    let start = seq![XmlTokenView::Start("service"@)];
    let end = seq![XmlTokenView::End("service"@)];
    let opened = scan_step(scan, XmlTokenView::Start("service"@), base);
    assert(scan_tokens(scan, start, base) == Ok::<ServiceScanView, Seq<char>>(opened)) by {
        reveal_with_fuel(scan_tokens, 2);
    }
    lemma_scan_elements(opened, fields, base);
    let filled = scan_tokens(opened, elements(fields), base)->Ok_0;
    assert(scan_tokens(filled, end, base) == Ok::<ServiceScanView, Seq<char>>(
        scan_step(filled, XmlTokenView::End("service"@), base),
    )) by {
        reveal_with_fuel(scan_tokens, 2);
    }
    law_scan_goes_on(scan, start, elements(fields), base);
    law_scan_goes_on(scan, start + elements(fields), end, base);
}

/// Elements of other names do not change the last text under a name.
proof fn lemma_last_text(
    a: Seq<(Seq<char>, Seq<char>)>,
    b: Seq<(Seq<char>, Seq<char>)>,
    name: Seq<char>,
)
    requires
        lacks(b, name),
    ensures
        last_text(a + b, name) == last_text(a, name),
    decreases b.len(),
{
    if b.len() == 0 {
        assert(a + b =~= a);
    } else {
        assert((a + b).last() == b[b.len() - 1]);
        assert((a + b).drop_last() =~= a + b.drop_last());
        assert forall|i: int| 0 <= i < b.drop_last().len() implies (#[trigger] b.drop_last()[i]).0
            != name by {
            assert(b.drop_last()[i] == b[i]);
        }
        lemma_last_text(a, b.drop_last(), name);
    }
}

/// The elements are of none of the names that matter.
pub open spec fn are_further(fields: Seq<(Seq<char>, Seq<char>)>) -> bool {
    lacks(fields, "service"@) && lacks(fields, "serviceType"@) && lacks(fields, "controlURL"@)
        && lacks(fields, "eventSubURL"@)
}

/// Further elements before, between and after the three that matter change nothing: the
/// service is found with that type, that control URL and that event URL.
pub proof fn law_further_elements_change_nothing(
    scan: ServiceScanView,
    a: Seq<(Seq<char>, Seq<char>)>,
    service_type: Seq<char>,
    b: Seq<(Seq<char>, Seq<char>)>,
    control_url: Seq<char>,
    c: Seq<(Seq<char>, Seq<char>)>,
    event_url: Seq<char>,
    d: Seq<(Seq<char>, Seq<char>)>,
    base: Seq<char>,
)
    requires
        are_further(a),
        are_further(b),
        are_further(c),
        are_further(d),
    ensures
        scan_tokens(
            scan,
            seq![XmlTokenView::Start("service"@)] + elements(
                a + seq![("serviceType"@, service_type)] + b + seq![("controlURL"@, control_url)]
                    + c + seq![("eventSubURL"@, event_url)] + d,
            ) + seq![XmlTokenView::End("service"@)],
            base,
        ) matches Ok(next) && next.services == with_service(
            scan.services,
            service_type,
            absolute(base, control_url),
            absolute(base, event_url),
        ),
{
    lemma_names_differ();
    let x = seq![("serviceType"@, service_type)];
    let y = seq![("controlURL"@, control_url)];
    let z = seq![("eventSubURL"@, event_url)];
    let f1 = a + x;
    let f2 = f1 + b + y;
    let f3 = f2 + c + z;
    let fields = a + x + b + y + c + z + d;
    assert(fields =~= f3 + d);
    assert(f1.last() == x[0]);
    assert(f2.last() == y[0]);
    assert(f3.last() == z[0]);
    lemma_last_text(f3, d, "serviceType"@);
    lemma_last_text(f2 + c, z, "serviceType"@);
    lemma_last_text(f2, c, "serviceType"@);
    lemma_last_text(f1 + b, y, "serviceType"@);
    lemma_last_text(f1, b, "serviceType"@);
    lemma_last_text(f3, d, "controlURL"@);
    lemma_last_text(f2 + c, z, "controlURL"@);
    lemma_last_text(f2, c, "controlURL"@);
    lemma_last_text(f3, d, "eventSubURL"@);
    assert forall|i: int| 0 <= i < fields.len() implies (#[trigger] fields[i]).0 != "service"@ by {
        let n1 = a.len() as int;
        let n2 = n1 + 1 + b.len();
        let n3 = n2 + 1 + c.len();
        if i < n1 {
            assert(fields[i] == a[i]);
        } else if i == n1 {
            assert(fields[i] == x[0]);
        } else if i < n2 {
            assert(fields[i] == b[i - n1 - 1]);
        } else if i == n2 {
            assert(fields[i] == y[0]);
        } else if i < n3 {
            assert(fields[i] == c[i - n2 - 1]);
        } else if i == n3 {
            assert(fields[i] == z[0]);
        } else {
            assert(fields[i] == d[i - n3 - 1]);
        }
    }
    law_service_with_any_elements_is_found(scan, fields, base);
}

/// Text that could not be read counts as none, and comments, empty elements and the like
/// are passed over.
pub proof fn law_other_tokens(scan: ServiceScanView, base: Seq<char>)
    ensures
        scan_step(scan, XmlTokenView::Other, base) == scan,
        scan_step(scan, XmlTokenView::Eof, base) == scan,
        scan_step(scan, XmlTokenView::Text(None), base) == scan_step(
            scan,
            XmlTokenView::Text(Some(Seq::empty())),
            base,
        ),
{
}

/// Outside service elements nothing is found.
pub proof fn law_nothing_found_outside_services(
    scan: ServiceScanView,
    tokens: Seq<XmlTokenView>,
    base: Seq<char>,
)
    requires
        !scan.in_service,
        forall|i: int|
            0 <= i < tokens.len() ==> #[trigger] tokens[i] != XmlTokenView::Start("service"@),
    ensures
        scan_tokens(scan, tokens, base) matches Ok(next) ==> next.services == scan.services
            && !next.in_service,
    decreases tokens.len(),
{
    if tokens.len() > 0 {
        assert(tokens[0] != XmlTokenView::Start("service"@));
        assert forall|i: int| 0 <= i < tokens.skip(1).len() implies #[trigger] tokens.skip(1)[i]
            != XmlTokenView::Start("service"@) by {
            assert(tokens.skip(1)[i] == tokens[i + 1]);
        }
        law_nothing_found_outside_services(
            scan_step(scan, tokens[0], base),
            tokens.skip(1),
            base,
        );
    }
}

/// A document is refused exactly where it is not well-formed, for the first such place.
pub proof fn law_refused_where_malformed(
    scan: ServiceScanView,
    tokens: Seq<XmlTokenView>,
    base: Seq<char>,
)
    ensures
        match scan_tokens(scan, tokens, base) {
            Ok(_) => forall|i: int|
                0 <= i < tokens.len() ==> !((#[trigger] tokens[i]) is Malformed),
            Err(what) => exists|i: int|
                0 <= i < tokens.len() && #[trigger] tokens[i] == XmlTokenView::Malformed(what)
                    && forall|j: int| 0 <= j < i ==> !((#[trigger] tokens[j]) is Malformed),
        },
    decreases tokens.len(),
{
    if tokens.len() > 0 && !(tokens[0] is Malformed) {
        let rest = tokens.skip(1);
        let next = scan_step(scan, tokens[0], base);
        law_refused_where_malformed(next, rest, base);
        match scan_tokens(next, rest, base) {
            Ok(_) => {
                assert forall|i: int| 0 <= i < tokens.len() implies !(
                (#[trigger] tokens[i]) is Malformed) by {
                    if i > 0 {
                        assert(tokens[i] == rest[i - 1]);
                    }
                }
            },
            Err(what) => {
                let i = choose|i: int|
                    0 <= i < rest.len() && #[trigger] rest[i] == XmlTokenView::Malformed(what)
                        && forall|j: int| 0 <= j < i ==> !((#[trigger] rest[j]) is Malformed);
                assert(tokens[i + 1] == rest[i]);
                assert forall|j: int| 0 <= j < i + 1 implies !(
                (#[trigger] tokens[j]) is Malformed) by {
                    if j > 0 {
                        assert(tokens[j] == rest[j - 1]);
                    }
                }
            },
        }
    } else if tokens.len() > 0 {
        assert(tokens[0] == XmlTokenView::Malformed(tokens[0]->Malformed_0));
    }
}

/// A service counts by its type: a WANIPConnection gives the URLs of that kind, else a
/// WANPPPConnection those of the other, and any other type none. The URLs of the other
/// kind and the root URL stay.
pub proof fn law_service_counts_by_type(
    services: GatewayServicesView,
    service_type: Seq<char>,
    control_url: Seq<char>,
    event_url: Seq<char>,
)
    ensures
        ({
            let found = with_service(services, service_type, control_url, event_url);
            let ip = has(service_type, "WANIPConnection"@);
            let ppp = !ip && has(service_type, "WANPPPConnection"@);
            &&& found.root_url == services.root_url
            &&& ip ==> found.wan_ip_control_url == Some(control_url) && found.wan_ip_event_url
                == Some(event_url)
            &&& !ip ==> found.wan_ip_control_url == services.wan_ip_control_url
                && found.wan_ip_event_url == services.wan_ip_event_url
            &&& ppp ==> found.wan_ppp_control_url == Some(control_url)
                && found.wan_ppp_event_url == Some(event_url)
            &&& !ppp ==> found.wan_ppp_control_url == services.wan_ppp_control_url
                && found.wan_ppp_event_url == services.wan_ppp_event_url
        }),
{
}

/// What is found belongs to the root description that was read.
proof fn lemma_root_url_stays(scan: ServiceScanView, tokens: Seq<XmlTokenView>, base: Seq<char>)
    ensures
        scan_tokens(scan, tokens, base) matches Ok(next) ==> next.services.root_url
            == scan.services.root_url,
    decreases tokens.len(),
{
    if tokens.len() > 0 {
        lemma_root_url_stays(scan_step(scan, tokens[0], base), tokens.skip(1), base);
    }
}

/// A description without services gives none, and what is found names the root description
/// that it was found in.
pub proof fn law_description(tokens: Seq<XmlTokenView>, base: Seq<char>, root_url: Seq<char>)
    ensures
        services_of(tokens, base, root_url) matches Ok(services) ==> services.root_url == root_url,
        services_of(Seq::empty(), base, root_url) == Ok::<GatewayServicesView, Seq<char>>(
            GatewayServicesView {
                root_url,
                wan_ip_control_url: None,
                wan_ip_event_url: None,
                wan_ppp_control_url: None,
                wan_ppp_event_url: None,
            },
        ),
{
    lemma_root_url_stays(scan_start(root_url), tokens, base);
}

/// A description whose only service is a WANIPConnection gives its two URLs, each made
/// absolute, whatever stands before and after it and beside its three elements.
pub proof fn law_gateway_is_discovered(
    before: Seq<XmlTokenView>,
    fields: Seq<(Seq<char>, Seq<char>)>,
    after: Seq<XmlTokenView>,
    base: Seq<char>,
    root_url: Seq<char>,
)
    requires
        lacks(fields, "service"@),
        has(last_text(fields, "serviceType"@), "WANIPConnection"@),
        forall|i: int|
            0 <= i < before.len() ==> #[trigger] before[i] != XmlTokenView::Start("service"@)
                && !(before[i] is Malformed),
        forall|i: int|
            0 <= i < after.len() ==> #[trigger] after[i] != XmlTokenView::Start("service"@)
                && !(after[i] is Malformed),
    ensures
        services_of(
            before + (seq![XmlTokenView::Start("service"@)] + elements(fields) + seq![
                XmlTokenView::End("service"@),
            ]) + after,
            base,
            root_url,
        ) == Ok::<GatewayServicesView, Seq<char>>(
            GatewayServicesView {
                root_url,
                wan_ip_control_url: Some(absolute(base, last_text(fields, "controlURL"@))),
                wan_ip_event_url: Some(absolute(base, last_text(fields, "eventSubURL"@))),
                wan_ppp_control_url: None,
                wan_ppp_event_url: None,
            },
        ),
{
    let start = scan_start(root_url);
    let element = seq![XmlTokenView::Start("service"@)] + elements(fields) + seq![
        XmlTokenView::End("service"@),
    ];
    law_refused_where_malformed(start, before, base);
    law_nothing_found_outside_services(start, before, base);
    let s1 = scan_tokens(start, before, base)->Ok_0;
    law_service_with_any_elements_is_found(s1, fields, base);
    let s2 = scan_tokens(s1, element, base)->Ok_0;
    law_refused_where_malformed(s2, after, base);
    law_nothing_found_outside_services(s2, after, base);
    law_scan_goes_on(start, before, element, base);
    law_scan_goes_on(start, before + element, after, base);
}

// ---------------------------------------------------------------------------
// URLs
// ---------------------------------------------------------------------------

/// A URL that begins with a slash is a place on the gateway; any other is taken as it is.
pub proof fn law_absolute(base: Seq<char>, url: Seq<char>)
    ensures
        absolute(base, url) == (if url.len() > 0 && url[0] == '/' {
            base + url
        } else {
            url
        }),
{
    reveal_strlit("/");
    if url.len() > 0 {
        assert(url.subrange(0, 1)[0] == url[0]);
        if url[0] == '/' {
            assert(url.subrange(0, 1) =~= "/"@);
        }
    }
}

/// The base of a URL is its scheme, host and port: all before the first slash behind
/// `://`. A URL without such a slash, or without a scheme, is its own base.
pub proof fn law_base_url(scheme: Seq<char>, host: Seq<char>, path: Seq<char>)
    requires
        !scheme.contains(':'),
        !host.contains('/'),
    ensures
        base_url(scheme + "://"@ + host + "/"@ + path) == scheme + "://"@ + host,
        base_url(scheme + "://"@ + host) == scheme + "://"@ + host,
        base_url(scheme) == scheme,
{
    reveal_strlit("://");
    reveal_strlit("/");
    let at = scheme.len() as int;
    let short = scheme + "://"@ + host;
    let full = short + "/"@ + path;
    assert forall|k: int| 0 <= k < at implies scheme[k] != ':' by {
        assert(scheme.contains(scheme[k]));
    }
    assert forall|k: int| 0 <= k < host.len() implies host[k] != '/' by {
        assert(host.contains(host[k]));
    }
    assert(short.subrange(at, at + 3) =~= "://"@);
    assert(full.subrange(at, at + 3) =~= "://"@);
    assert forall|j: int| 0 <= j < at implies !occurs_at(short, "://"@, j) && !occurs_at(
        full,
        "://"@,
        j,
    ) by {
        assert(short[j] == scheme[j] && full[j] == scheme[j]);
        if j + 3 <= short.len() {
            assert(short.subrange(j, j + 3)[0] == short[j]);
        }
        assert(full.subrange(j, j + 3)[0] == full[j]);
    }
    lemma_position_is(short, "://"@, at);
    lemma_position_is(full, "://"@, at);
    assert(short.skip(at + 3) =~= host);
    lemma_char_position_none(host, '/');
    let rest = full.skip(at + 3);
    assert(rest =~= host + "/"@ + path);
    lemma_char_position_is(rest, '/', host.len() as int);
    assert(full.take(at + 3 + host.len()) =~= short);
    lemma_position(scheme, "://"@);
    if has(scheme, "://"@) {
        let i = choose|i: int| occurs_at(scheme, "://"@, i);
        assert(scheme.subrange(i, i + 3)[0] == scheme[i]);
    }
}

/// The first of two values that is there.
pub proof fn law_first_of(a: Option<Seq<char>>, b: Option<Seq<char>>)
    ensures
        a is Some ==> first_of(a, b) == a,
        a is None ==> first_of(a, b) == b,
{
}

/// The location of an answer to a search is the first that a line names: `LOCATION`, a
/// colon, and the URL, with white space around it.
pub proof fn law_location(left: Seq<char>, url: Seq<char>, right: Seq<char>, rest: Seq<Seq<char>>)
    requires
        all_white(left),
        all_white(right),
        has_dark_ends(url),
    ensures
        first_location(seq!["LOCATION"@ + ":"@ + (left + url + right)] + rest) == Some(url),
        first_location(Seq::empty()) is None,
{
    reveal_strlit("LOCATION");
    reveal_strlit(":");
    let name = "LOCATION"@;
    let value = left + url + right;
    let line = name + ":"@ + value;
    assert(":"@ =~= seq![':']);
    law_split_once(name, ':', value);
    law_trim(left, url, right);
    let none = Seq::<char>::empty();
    law_trim(none, name, none);
    assert(none + name + none =~= name);
    assert(same_letters(name, name));
    assert(location_in(line) == Some(url));
    assert((seq![line] + rest)[0] == line);
}

} // verus!
