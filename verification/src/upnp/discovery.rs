//! The gateway's root description: which of its services can be asked for port
//! mappings and external address, and under which URLs.

use crate::text::{
    alike, begins_with, char_position, contains, cut_once, either, find, first_of, has,
    lemma_char_position, lemma_position, occurs_at, opt, opt_str, pieces, position, same, same_letters, split,
    split_once, strip_prefix, trim, trimmed, views,
};
use quick_xml::events::Event;
use quick_xml::Reader;
use vstd::prelude::*;
use vstd::string::*;

verus! {

// ---------------------------------------------------------------------------
// Reading XML
// ---------------------------------------------------------------------------

/// One item of an XML document, as far as a root description needs it.
#[derive(Debug, Clone)]
pub enum XmlToken {
    /// A start tag, by its name.
    Start(String),
    /// Character data, unescaped; `None` where an escape in it is not known.
    Text(Option<String>),
    /// An end tag, by its name.
    End(String),
    /// Anything else: a comment, an empty element, a declaration.
    Other,
    /// A place that is not well-formed, with what is wrong there.
    Malformed(String),
    /// The end of the document.
    Eof,
}

/// The view of an [`XmlToken`].
pub enum XmlTokenView {
    Start(Seq<char>),
    Text(Option<Seq<char>>),
    End(Seq<char>),
    Other,
    Malformed(Seq<char>),
    Eof,
}

impl View for XmlToken {
    type V = XmlTokenView;

    open spec fn view(&self) -> XmlTokenView {
        match *self {
            XmlToken::Start(name) => XmlTokenView::Start(name@),
            XmlToken::Text(text) => XmlTokenView::Text(opt(text)),
            XmlToken::End(name) => XmlTokenView::End(name@),
            XmlToken::Other => XmlTokenView::Other,
            XmlToken::Malformed(what) => XmlTokenView::Malformed(what@),
            XmlToken::Eof => XmlTokenView::Eof,
        }
    }
}

/// `quick_xml::Reader`, the pull parser that the root description is read with.
#[verifier::external_type_specification]
#[verifier::external_body]
#[verifier::reject_recursive_types(R)]
pub struct ExReader<R>(quick_xml::Reader<R>);

/// The tokens that `quick_xml` reads from a document, with the text between tags
/// trimmed, up to the end of the document.
pub uninterp spec fn document_tokens(xml: Seq<char>) -> Seq<XmlTokenView>;

/// The tokens that a reader has yet to hand out before the end of its document.
pub uninterp spec fn unread_tokens(reader: quick_xml::Reader<&[u8]>) -> Seq<XmlTokenView>;

/// A reader at the start of a document, set to trim text.
///
/// Calls `quick_xml::Reader::from_str` and sets `trim_text` in the reader's
/// configuration. Nothing has been read yet, so all of the document's tokens are
/// still to come.
#[verifier::external_body]
fn open_document<'a>(xml: &'a str) -> (reader: Reader<&'a [u8]>)
    ensures
        unread_tokens(reader) == document_tokens(xml@),
{
    let mut reader = Reader::from_str(xml);
    reader.config_mut().trim_text(true);
    reader
}

/// The next token of a document.
///
/// Calls `quick_xml::Reader::read_event`, which takes the events of a document
/// one by one and keeps answering `Eof` once there are none left. Names are UTF-8,
/// as the document is; text is unescaped with the predefined entities.
#[verifier::external_body]
fn read_token(reader: &mut Reader<&[u8]>) -> (token: XmlToken)
    ensures
        unread_tokens(*old(reader)).len() == 0 ==> token@ is Eof && unread_tokens(*final(reader))
            == unread_tokens(*old(reader)),
        unread_tokens(*old(reader)).len() > 0 ==> !(token@ is Eof) && token@ == unread_tokens(
            *old(reader),
        )[0] && unread_tokens(*final(reader)) == unread_tokens(*old(reader)).skip(1),
{
    match reader.read_event() {
        Ok(Event::Start(e)) => XmlToken::Start(String::from_utf8_lossy(e.name().as_ref()).into_owned()),
        Ok(Event::Text(e)) => XmlToken::Text(e.unescape().ok().map(|text| text.into_owned())),
        Ok(Event::End(e)) => XmlToken::End(String::from_utf8_lossy(e.name().as_ref()).into_owned()),
        Ok(Event::Eof) => XmlToken::Eof,
        Ok(_) => XmlToken::Other,
        Err(e) => XmlToken::Malformed(e.to_string()),
    }
}

// ---------------------------------------------------------------------------
// Gateway services
// ---------------------------------------------------------------------------

/// The services of a gateway that this controller talks to.
#[derive(Debug, Clone)]
pub struct GatewayServices {
    pub root_url: String,
    pub wan_ip_control_url: Option<String>,
    pub wan_ip_event_url: Option<String>,
    pub wan_ppp_control_url: Option<String>,
    pub wan_ppp_event_url: Option<String>,
}

/// The view of [`GatewayServices`].
pub struct GatewayServicesView {
    pub root_url: Seq<char>,
    pub wan_ip_control_url: Option<Seq<char>>,
    pub wan_ip_event_url: Option<Seq<char>>,
    pub wan_ppp_control_url: Option<Seq<char>>,
    pub wan_ppp_event_url: Option<Seq<char>>,
}

impl View for GatewayServices {
    type V = GatewayServicesView;

    open spec fn view(&self) -> GatewayServicesView {
        GatewayServicesView {
            root_url: self.root_url@,
            wan_ip_control_url: opt(self.wan_ip_control_url),
            wan_ip_event_url: opt(self.wan_ip_event_url),
            wan_ppp_control_url: opt(self.wan_ppp_control_url),
            wan_ppp_event_url: opt(self.wan_ppp_event_url),
        }
    }
}

impl GatewayServices {
    /// The best available control URL (WANIPConnection preferred over WANPPPConnection).
    pub fn control_url(&self) -> (url: Option<&str>)
        ensures
            opt_str(url) == first_of(self@.wan_ip_control_url, self@.wan_ppp_control_url),
    {
        either(&self.wan_ip_control_url, &self.wan_ppp_control_url)
    }

    /// The best available event subscription URL.
    pub fn event_url(&self) -> (url: Option<&str>)
        ensures
            opt_str(url) == first_of(self@.wan_ip_event_url, self@.wan_ppp_event_url),
    {
        either(&self.wan_ip_event_url, &self.wan_ppp_event_url)
    }
}

/// Why a root description could not be used.
#[derive(Debug, Clone)]
pub enum DiscoveryError {
    /// The document is not well-formed XML; the reason is the parser's.
    Malformed(String),
}

impl DiscoveryError {
    /// The message for the log.
    pub fn message(&self) -> (text: String)
        ensures
            match *self {
                DiscoveryError::Malformed(what) => text@ == "XML parse error: "@ + what@,
            },
    {
        match self {
            DiscoveryError::Malformed(what) => "XML parse error: ".to_owned().concat(what.as_str()),
        }
    }
}

/// The scheme, host and port of `url`: what stands before the first slash behind
/// `://`. A URL without such a slash is taken whole.
pub open spec fn base_url(url: Seq<char>) -> Seq<char> {
    match position(url, "://"@) {
        Some(idx) => match char_position(url.skip(idx + 3), '/') {
            Some(slash) => url.take(idx + 3 + slash),
            None => url,
        },
        None => url,
    }
}

/// Extracts `http://host:port` from a URL.
pub fn base_url_from(url: &str) -> (base: String)
    ensures
        base@ == base_url(url@),
{
    proof {
        reveal_strlit("://");
        lemma_position(url@, "://"@);
    }
    let size: usize = url.unicode_len();
    if let Some(idx) = find(url, "://") {
        let after_scheme = url.substring_char(idx + 3, size);
        assert(after_scheme@ =~= url@.skip(idx + 3));
        if let Some((host_port, _)) = cut_once(after_scheme, '/') {
            proof {
                lemma_char_position(after_scheme@, '/');
            }
            let mut base = url.substring_char(0, idx).to_owned();
            base.append("://");
            base.append(host_port);
            assert(occurs_at(url@, "://"@, idx as int));
            assert(base@ =~= base_url(url@)) by {
                assert(url@.subrange(idx as int, idx + 3) == "://"@);
                assert(forall|k: int| 0 <= k < 3 ==> url@[idx + k] == #[trigger] url@.subrange(idx as int, idx + 3)[k]);
            }
            return base;
        }
    }
    url.to_owned()
}

/// A URL from a root description: a path stands for a place on the gateway itself.
pub open spec fn absolute(base: Seq<char>, url: Seq<char>) -> Seq<char> {
    if begins_with(url, "/"@) {
        base + url
    } else {
        url
    }
}

/// The URL that a service entry stands for.
fn absolute_url(base_url: &str, url: &str) -> (r: String)
    ensures
        r@ == absolute(base_url@, url@),
{
    if strip_prefix(url, "/").is_some() {
        base_url.to_owned().concat(url)
    } else {
        url.to_owned()
    }
}

// ---------------------------------------------------------------------------
// Scanning a root description
// ---------------------------------------------------------------------------

/// How far the scan of a root description has come.
pub struct ServiceScan {
    services: GatewayServices,
    service_type: String,
    control_url: String,
    event_url: String,
    in_service: bool,
    tag: String,
}

/// The view of a [`ServiceScan`].
pub struct ServiceScanView {
    /// The services found so far.
    pub services: GatewayServicesView,
    /// What the current service element has said of itself so far.
    pub service_type: Seq<char>,
    pub control_url: Seq<char>,
    pub event_url: Seq<char>,
    /// Whether the scan is inside a service element.
    pub in_service: bool,
    /// The name of the last start tag.
    pub tag: Seq<char>,
}

impl View for ServiceScan {
    type V = ServiceScanView;

    closed spec fn view(&self) -> ServiceScanView {
        ServiceScanView {
            services: self.services@,
            service_type: self.service_type@,
            control_url: self.control_url@,
            event_url: self.event_url@,
            in_service: self.in_service,
            tag: self.tag@,
        }
    }
}

/// A gateway of which nothing but its root URL is known.
pub open spec fn no_services(root_url: Seq<char>) -> GatewayServicesView {
    GatewayServicesView {
        root_url,
        wan_ip_control_url: None,
        wan_ip_event_url: None,
        wan_ppp_control_url: None,
        wan_ppp_event_url: None,
    }
}

/// The services once one more of type `service_type` has been found: it takes the
/// place of an earlier one of its type, and other types are passed over.
pub open spec fn with_service(
    services: GatewayServicesView,
    service_type: Seq<char>,
    control_url: Seq<char>,
    event_url: Seq<char>,
) -> GatewayServicesView {
    if has(service_type, "WANIPConnection"@) {
        GatewayServicesView {
            wan_ip_control_url: Some(control_url),
            wan_ip_event_url: Some(event_url),
            ..services
        }
    } else if has(service_type, "WANPPPConnection"@) {
        GatewayServicesView {
            wan_ppp_control_url: Some(control_url),
            wan_ppp_event_url: Some(event_url),
            ..services
        }
    } else {
        services
    }
}

/// The scan of a root description before its first token.
pub open spec fn scan_start(root_url: Seq<char>) -> ServiceScanView {
    ServiceScanView {
        services: no_services(root_url),
        service_type: Seq::empty(),
        control_url: Seq::empty(),
        event_url: Seq::empty(),
        in_service: false,
        tag: Seq::empty(),
    }
}

/// The scan after one more token.
pub open spec fn scan_step(scan: ServiceScanView, token: XmlTokenView, base: Seq<char>) -> ServiceScanView {
    match token {
        XmlTokenView::Start(name) => if name == "service"@ {
            ServiceScanView {
                services: scan.services,
                service_type: Seq::empty(),
                control_url: Seq::empty(),
                event_url: Seq::empty(),
                in_service: true,
                tag: name,
            }
        } else {
            ServiceScanView { tag: name, ..scan }
        },
        XmlTokenView::Text(content) => {
            let text = match content {
                Some(t) => t,
                None => Seq::empty(),
            };
            if !scan.in_service {
                scan
            } else if scan.tag == "serviceType"@ {
                ServiceScanView { service_type: text, ..scan }
            } else if scan.tag == "controlURL"@ {
                ServiceScanView { control_url: text, ..scan }
            } else if scan.tag == "eventSubURL"@ {
                ServiceScanView { event_url: text, ..scan }
            } else {
                scan
            }
        },
        XmlTokenView::End(name) => if name == "service"@ && scan.in_service {
            ServiceScanView {
                services: with_service(
                    scan.services,
                    scan.service_type,
                    absolute(base, scan.control_url),
                    absolute(base, scan.event_url),
                ),
                in_service: false,
                ..scan
            }
        } else {
            scan
        },
        _ => scan,
    }
}

/// The scan after a run of tokens; the reason where the run comes to a place that
/// is not well-formed.
pub open spec fn scan_tokens(
    scan: ServiceScanView,
    tokens: Seq<XmlTokenView>,
    base: Seq<char>,
) -> Result<ServiceScanView, Seq<char>>
    decreases tokens.len(),
{
    if tokens.len() == 0 {
        Ok(scan)
    } else {
        match tokens[0] {
            XmlTokenView::Malformed(what) => Err(what),
            token => scan_tokens(scan_step(scan, token, base), tokens.skip(1), base),
        }
    }
}

impl ServiceScan {
    /// A scan before its first token.
    pub fn new(root_url: &str) -> (scan: Self)
        ensures
            scan@ == scan_start(root_url@),
    {
        ServiceScan {
            services: GatewayServices {
                root_url: root_url.to_owned(),
                wan_ip_control_url: None,
                wan_ip_event_url: None,
                wan_ppp_control_url: None,
                wan_ppp_event_url: None,
            },
            service_type: String::new(),
            control_url: String::new(),
            event_url: String::new(),
            in_service: false,
            tag: String::new(),
        }
    }

    /// Takes in the next token. Relative URLs are completed with `base_url`.
    pub fn feed(&mut self, token: &XmlToken, base_url: &str)
        ensures
            final(self)@ == scan_step(old(self)@, token@, base_url@),
    {
        match token {
            XmlToken::Start(name) => {
                if same(name.as_str(), "service") {
                    self.in_service = true;
                    self.service_type = String::new();
                    self.control_url = String::new();
                    self.event_url = String::new();
                }
                self.tag = name.clone();
            },
            XmlToken::Text(content) => {
                let text = match content {
                    Some(t) => t.clone(),
                    None => String::new(),
                };
                if self.in_service {
                    if same(self.tag.as_str(), "serviceType") {
                        self.service_type = text;
                    } else if same(self.tag.as_str(), "controlURL") {
                        self.control_url = text;
                    } else if same(self.tag.as_str(), "eventSubURL") {
                        self.event_url = text;
                    }
                }
            },
            XmlToken::End(name) => {
                if same(name.as_str(), "service") && self.in_service {
                    let control = absolute_url(base_url, self.control_url.as_str());
                    let event = absolute_url(base_url, self.event_url.as_str());
                    if contains(self.service_type.as_str(), "WANIPConnection") {
                        self.services.wan_ip_control_url = Some(control);
                        self.services.wan_ip_event_url = Some(event);
                    } else if contains(self.service_type.as_str(), "WANPPPConnection") {
                        self.services.wan_ppp_control_url = Some(control);
                        self.services.wan_ppp_event_url = Some(event);
                    }
                    self.in_service = false;
                }
            },
            _ => {},
        }
    }

    /// What the scan has found.
    pub fn finish(self) -> (services: GatewayServices)
        ensures
            services@ == self@.services,
    {
        self.services
    }
}

/// The views of a list of tokens.
pub open spec fn token_views(tokens: Seq<XmlToken>) -> Seq<XmlTokenView> {
    tokens.map_values(|t: XmlToken| t@)
}

/// The services that a scan of `tokens` comes to, or the first place that is not
/// well-formed.
pub open spec fn services_of(
    tokens: Seq<XmlTokenView>,
    base_url: Seq<char>,
    root_url: Seq<char>,
) -> Result<GatewayServicesView, Seq<char>> {
    match scan_tokens(scan_start(root_url), tokens, base_url) {
        Ok(scan) => Ok(scan.services),
        Err(what) => Err(what),
    }
}

/// Finds the gateway's services in the tokens of its root description.
pub fn services_in(tokens: &Vec<XmlToken>, base_url: &str, root_url: &str) -> (r: Result<
    GatewayServices,
    DiscoveryError,
>)
    ensures
        match r {
            Ok(services) => services_of(token_views(tokens@), base_url@, root_url@) == Ok::<
                GatewayServicesView,
                Seq<char>,
            >(services@),
            Err(DiscoveryError::Malformed(what)) => services_of(
                token_views(tokens@),
                base_url@,
                root_url@,
            ) == Err::<GatewayServicesView, Seq<char>>(what@),
        },
{
    let ghost all = token_views(tokens@);
    let mut scan = ServiceScan::new(root_url);
    let mut i: usize = 0;
    assert(all.skip(0) =~= all);
    while i < tokens.len()
        invariant
            i <= tokens.len(),
            all == token_views(tokens@),
            scan_tokens(scan@, all.skip(i as int), base_url@) == scan_tokens(
                scan_start(root_url@),
                all,
                base_url@,
            ),
        decreases tokens.len() - i,
    {
        assert(all.skip(i as int)[0] == tokens[i as int]@);
        assert(all.skip(i as int).skip(1) =~= all.skip(i + 1));
        match &tokens[i] {
            XmlToken::Malformed(what) => {
                return Err(DiscoveryError::Malformed(what.clone()));
            },
            token => {
                scan.feed(token, base_url);
            },
        }
        i += 1;
    }
    Ok(scan.finish())
}

/// The tokens of a document, up to its end.
fn read_document(xml: &str) -> (tokens: Vec<XmlToken>)
    ensures
        token_views(tokens@) == document_tokens(xml@),
{
    let mut reader = open_document(xml);
    let mut tokens: Vec<XmlToken> = Vec::new();
    assert(token_views(tokens@) + unread_tokens(reader) =~= document_tokens(xml@));
    loop
        invariant
            token_views(tokens@) + unread_tokens(reader) == document_tokens(xml@),
        decreases unread_tokens(reader).len(),
    {
        let ghost unread = unread_tokens(reader);
        let ghost earlier = tokens@;
        match read_token(&mut reader) {
            XmlToken::Eof => {
                assert(token_views(tokens@) =~= token_views(tokens@) + unread);
                return tokens;
            },
            token => {
                tokens.push(token);
                assert(token_views(tokens@) =~= token_views(earlier).push(unread[0]));
                assert(token_views(tokens@) + unread.skip(1) =~= token_views(earlier) + unread);
            },
        }
    }
}

/// Finds the gateway's services in its root description.
pub fn parse_root_desc(xml: &str, base_url: &str, root_url: &str) -> (r: Result<
    GatewayServices,
    DiscoveryError,
>)
    ensures
        match r {
            Ok(services) => services_of(document_tokens(xml@), base_url@, root_url@) == Ok::<
                GatewayServicesView,
                Seq<char>,
            >(services@),
            Err(DiscoveryError::Malformed(what)) => services_of(
                document_tokens(xml@),
                base_url@,
                root_url@,
            ) == Err::<GatewayServicesView, Seq<char>>(what@),
        },
{
    services_in(&read_document(xml), base_url, root_url)
}

/// Finds the services of the gateway whose root description at `root_desc_url` is `xml`.
pub fn discover_gateway(root_desc_url: &str, xml: &str) -> (r: Result<
    GatewayServices,
    DiscoveryError,
>)
    ensures
        match r {
            Ok(services) => services_of(
                document_tokens(xml@),
                base_url(root_desc_url@),
                root_desc_url@,
            ) == Ok::<GatewayServicesView, Seq<char>>(services@),
            Err(DiscoveryError::Malformed(what)) => services_of(
                document_tokens(xml@),
                base_url(root_desc_url@),
                root_desc_url@,
            ) == Err::<GatewayServicesView, Seq<char>>(what@),
        },
{
    parse_root_desc(xml, base_url_from(root_desc_url).as_str(), root_desc_url)
}

/// The tokens of an element with nothing but text in it.
pub open spec fn text_element(name: Seq<char>, text: Seq<char>) -> Seq<XmlTokenView> {
    seq![XmlTokenView::Start(name), XmlTokenView::Text(Some(text)), XmlTokenView::End(name)]
}

/// The tokens of an element that describes a service.
pub open spec fn service_element(
    service_type: Seq<char>,
    control_url: Seq<char>,
    event_url: Seq<char>,
) -> Seq<XmlTokenView> {
    seq![XmlTokenView::Start("service"@)] + text_element("serviceType"@, service_type)
        + text_element("controlURL"@, control_url) + text_element("eventSubURL"@, event_url)
        + seq![XmlTokenView::End("service"@)]
}

/// A scan of two runs of tokens goes on with the second where the first has led.
pub proof fn law_scan_goes_on(
    scan: ServiceScanView,
    first: Seq<XmlTokenView>,
    second: Seq<XmlTokenView>,
    base: Seq<char>,
)
    ensures
        scan_tokens(scan, first + second, base) == (match scan_tokens(scan, first, base) {
            Ok(next) => scan_tokens(next, second, base),
            Err(what) => Err(what),
        }),
    decreases first.len(),
{
    if first.len() == 0 {
        assert(first + second =~= second);
    } else {
        assert((first + second).skip(1) =~= first.skip(1) + second);
        assert((first + second)[0] == first[0]);
        match first[0] {
            XmlTokenView::Malformed(_) => {},
            token => {
                law_scan_goes_on(scan_step(scan, token, base), first.skip(1), second, base);
            },
        }
    }
}

/// An element that describes a service is found, whatever stood before it: its URLs,
/// made absolute, are those of its type.
#[verifier::rlimit(40)]
pub proof fn law_service_is_found(
    scan: ServiceScanView,
    service_type: Seq<char>,
    control_url: Seq<char>,
    event_url: Seq<char>,
    base: Seq<char>,
)
    ensures
        scan_tokens(scan, service_element(service_type, control_url, event_url), base) matches Ok(
            next,
        ) && next.services == with_service(
            scan.services,
            service_type,
            absolute(base, control_url),
            absolute(base, event_url),
        ) && !next.in_service,
{
    reveal_strlit("service");
    reveal_strlit("serviceType");
    reveal_strlit("controlURL");
    reveal_strlit("eventSubURL");
    assert("serviceType"@.len() != "service"@.len());
    assert("controlURL"@.len() != "service"@.len());
    assert("eventSubURL"@.len() != "service"@.len());
    assert("controlURL"@[0] != "serviceType"@[0]);
    assert("eventSubURL"@[0] != "serviceType"@[0]);
    assert("eventSubURL"@[0] != "controlURL"@[0]);
    reveal_with_fuel(scan_tokens, 12);
}

// ---------------------------------------------------------------------------
// Finding the gateway
// ---------------------------------------------------------------------------

/// The address to which a search for gateways is sent.
pub const SSDP_ADDRESS: &'static str = "239.255.255.250:1900";

/// A search for gateways.
pub const SSDP_SEARCH: &'static str = "M-SEARCH * HTTP/1.1\r\nHOST: 239.255.255.250:1900\r\nMAN: \"ssdp:discover\"\r\nMX: 2\r\nST: urn:schemas-upnp-org:device:InternetGatewayDevice:1\r\n\r\n";

/// The location that a header line names: `LOCATION`, in letters of either case, then a
/// colon and the URL.
pub open spec fn location_in(line: Seq<char>) -> Option<Seq<char>> {
    match split_once(line, ':') {
        Some((name, value)) => if same_letters(trim(name), "LOCATION"@) {
            Some(trim(value))
        } else {
            None
        },
        None => None,
    }
}

/// The location that the first line to name one names.
pub open spec fn first_location(lines: Seq<Seq<char>>) -> Option<Seq<char>>
    decreases lines.len(),
{
    if lines.len() == 0 {
        None
    } else {
        match location_in(lines[0]) {
            Some(url) => Some(url),
            None => first_location(lines.skip(1)),
        }
    }
}

/// The URL of the root description, from a gateway's answer to a search.
pub fn ssdp_location(response: &str) -> (url: Option<String>)
    ensures
        opt(url) == first_location(split(response@, '\n')),
{
    let lines = pieces(response, '\n');
    let ghost all = views(lines@);
    let mut i: usize = 0;
    assert(all.skip(0) =~= all);
    while i < lines.len()
        invariant
            i <= lines.len(),
            all == views(lines@),
            all == split(response@, '\n'),
            first_location(all) == first_location(all.skip(i as int)),
        decreases lines.len() - i,
    {
        assert(all.skip(i as int)[0] == lines[i as int]@);
        assert(all.skip(i as int).skip(1) =~= all.skip(i + 1));
        if let Some((name, value)) = cut_once(lines[i].as_str(), ':') {
            if alike(trimmed(name), "LOCATION") {
                return Some(trimmed(value).to_owned());
            }
        }
        i += 1;
    }
    None
}

} // verus!
