//! SOAP requests for port mappings, and what the gateway answers.

use crate::text::{
    clear_of, contains, decimal, differs_at, has, is_digit, law_decimal_reads_back,
    lemma_clear_parts, lemma_decimal, number, parse_u16, parse_u32, parse_unsigned, same,
};
use crate::upnp::xml::{
    close_tag, element_value, in_order, lemma_value_between, open_tag, tags_in_order, value_of,
};
use vstd::prelude::*;
use vstd::string::*;

verus! {

/// The service type that all requests are addressed to.
pub const SOAP_NAMESPACE: &'static str = "urn:schemas-upnp-org:service:WANIPConnection:1";

// ---------------------------------------------------------------------------
// Errors
// ---------------------------------------------------------------------------

/// Why a request to the gateway gave no answer that can be used.
#[derive(Debug, Clone)]
pub enum UpnpError {
    /// The request could not be sent.
    NotSent,
    /// The answer could not be read.
    Unreadable,
    /// The gateway answered with a status that is no success.
    Soap { status: String, text: String },
    /// An element is missing in the answer.
    TagNotFound(String),
    /// The answer names no external address.
    NoExternalIp,
    /// The external port in the answer is no port number.
    InvalidExternalPort,
    /// The internal port in the answer is no port number.
    InvalidInternalPort,
}

/// The view of a [`UpnpError`].
pub enum UpnpErrorView {
    NotSent,
    Unreadable,
    Soap { status: Seq<char>, text: Seq<char> },
    TagNotFound(Seq<char>),
    NoExternalIp,
    InvalidExternalPort,
    InvalidInternalPort,
}

impl View for UpnpError {
    type V = UpnpErrorView;

    open spec fn view(&self) -> UpnpErrorView {
        match *self {
            UpnpError::NotSent => UpnpErrorView::NotSent,
            UpnpError::Unreadable => UpnpErrorView::Unreadable,
            UpnpError::Soap { status, text } => UpnpErrorView::Soap { status: status@, text: text@ },
            UpnpError::TagNotFound(tag) => UpnpErrorView::TagNotFound(tag@),
            UpnpError::NoExternalIp => UpnpErrorView::NoExternalIp,
            UpnpError::InvalidExternalPort => UpnpErrorView::InvalidExternalPort,
            UpnpError::InvalidInternalPort => UpnpErrorView::InvalidInternalPort,
        }
    }
}

/// The message of an error.
pub open spec fn error_message(error: UpnpErrorView) -> Seq<char> {
    match error {
        UpnpErrorView::NotSent => "SOAP request failed"@,
        UpnpErrorView::Unreadable => "Failed to read SOAP response"@,
        UpnpErrorView::Soap { status, text } => "SOAP error "@ + status + ": "@ + text,
        UpnpErrorView::TagNotFound(tag) => "Tag "@ + tag + " not found in XML"@,
        UpnpErrorView::NoExternalIp => "ExternalIPAddress not found in response"@,
        UpnpErrorView::InvalidExternalPort => "Invalid external port"@,
        UpnpErrorView::InvalidInternalPort => "Invalid internal port"@,
    }
}

impl UpnpError {
    /// The message for the log and for the status of a port mapping.
    pub fn message(&self) -> (text: String)
        ensures
            text@ == error_message(self@),
    {
        match self {
            UpnpError::NotSent => "SOAP request failed".to_owned(),
            UpnpError::Unreadable => "Failed to read SOAP response".to_owned(),
            UpnpError::Soap { status, text } => "SOAP error ".to_owned().concat(
                status.as_str(),
            ).concat(": ").concat(text.as_str()),
            UpnpError::TagNotFound(tag) => "Tag ".to_owned().concat(tag.as_str()).concat(
                " not found in XML",
            ),
            UpnpError::NoExternalIp => "ExternalIPAddress not found in response".to_owned(),
            UpnpError::InvalidExternalPort => "Invalid external port".to_owned(),
            UpnpError::InvalidInternalPort => "Invalid internal port".to_owned(),
        }
    }
}

// ---------------------------------------------------------------------------
// Reading answers
// ---------------------------------------------------------------------------

/// The value of `tag`, or that it is missing.
pub open spec fn required_value(xml: Seq<char>, tag: Seq<char>) -> Result<Seq<char>, UpnpErrorView> {
    match element_value(xml, tag) {
        Some(value) => Ok(value),
        None => Err(UpnpErrorView::TagNotFound(tag)),
    }
}

/// The text between the first `<tag>` and the first `</tag>`.
pub fn extract_xml_value(xml: &str, tag: &str) -> (r: Result<String, UpnpError>)
    requires
        tags_in_order(xml@, tag@),
    ensures
        match r {
            Ok(value) => required_value(xml@, tag@) == Ok::<Seq<char>, UpnpErrorView>(value@),
            Err(e) => required_value(xml@, tag@) == Err::<Seq<char>, UpnpErrorView>(e@),
        },
{
    match value_of(xml, tag) {
        Some(value) => Ok(value.to_owned()),
        None => Err(UpnpError::TagNotFound(tag.to_owned())),
    }
}

/// The external address that an answer names.
pub open spec fn external_ip(xml: Seq<char>) -> Result<Seq<char>, UpnpErrorView> {
    match element_value(xml, "NewExternalIPAddress"@) {
        Some(value) => Ok(value),
        None => Err(UpnpErrorView::NoExternalIp),
    }
}

/// Reads the external address from the answer to `GetExternalIPAddress`.
pub fn parse_external_ip(xml: &str) -> (r: Result<String, UpnpError>)
    requires
        tags_in_order(xml@, "NewExternalIPAddress"@),
    ensures
        match r {
            Ok(value) => external_ip(xml@) == Ok::<Seq<char>, UpnpErrorView>(value@),
            Err(e) => external_ip(xml@) == Err::<Seq<char>, UpnpErrorView>(e@),
        },
{
    match extract_xml_value(xml, "NewExternalIPAddress") {
        Ok(value) => Ok(value),
        Err(_) => Err(UpnpError::NoExternalIp),
    }
}

/// One of the port mappings that the gateway holds.
#[derive(Debug, Clone)]
pub struct PortMappingEntry {
    pub external_port: u16,
    pub protocol: String,
    pub internal_client: String,
    pub internal_port: u16,
    pub description: String,
    pub enabled: bool,
    pub lease_duration: u32,
}

/// The view of a [`PortMappingEntry`].
pub struct PortMappingEntryView {
    pub external_port: nat,
    pub protocol: Seq<char>,
    pub internal_client: Seq<char>,
    pub internal_port: nat,
    pub description: Seq<char>,
    pub enabled: bool,
    pub lease_duration: nat,
}

impl View for PortMappingEntry {
    type V = PortMappingEntryView;

    open spec fn view(&self) -> PortMappingEntryView {
        PortMappingEntryView {
            external_port: self.external_port as nat,
            protocol: self.protocol@,
            internal_client: self.internal_client@,
            internal_port: self.internal_port as nat,
            description: self.description@,
            enabled: self.enabled,
            lease_duration: self.lease_duration as nat,
        }
    }
}

/// The port that the value of `tag` denotes.
pub open spec fn port_value(
    xml: Seq<char>,
    tag: Seq<char>,
    invalid: UpnpErrorView,
) -> Result<nat, UpnpErrorView> {
    match required_value(xml, tag) {
        Ok(value) => match parse_unsigned(value, u16::MAX as nat) {
            Some(port) => Ok(port),
            None => Err(invalid),
        },
        Err(e) => Err(e),
    }
}

/// The lease duration of an entry: zero where there is none that is a number.
pub open spec fn lease_value(xml: Seq<char>) -> nat {
    match element_value(xml, "NewLeaseDuration"@) {
        Some(value) => match parse_unsigned(value, u32::MAX as nat) {
            Some(secs) => secs,
            None => 0,
        },
        None => 0,
    }
}

/// The entry that an answer describes. The ports, the protocol and the client have
/// to be there, and the first that is missing or wrong is reported; the rest has
/// defaults.
pub open spec fn entry_of(xml: Seq<char>) -> Result<PortMappingEntryView, UpnpErrorView> {
    match port_value(xml, "NewExternalPort"@, UpnpErrorView::InvalidExternalPort) {
        Err(e) => Err(e),
        Ok(external_port) => match required_value(xml, "NewProtocol"@) {
            Err(e) => Err(e),
            Ok(protocol) => match required_value(xml, "NewInternalClient"@) {
                Err(e) => Err(e),
                Ok(internal_client) => match port_value(
                    xml,
                    "NewInternalPort"@,
                    UpnpErrorView::InvalidInternalPort,
                ) {
                    Err(e) => Err(e),
                    Ok(internal_port) => Ok(
                        PortMappingEntryView {
                            external_port,
                            protocol,
                            internal_client,
                            internal_port,
                            description: match element_value(xml, "NewPortMappingDescription"@) {
                                Some(value) => value,
                                None => Seq::empty(),
                            },
                            enabled: element_value(xml, "NewEnabled"@) == Some("1"@),
                            lease_duration: lease_value(xml),
                        },
                    ),
                },
            },
        },
    }
}

/// Every value that has to be cut out of `xml` on the way to [`entry_of`] can be.
pub open spec fn entry_readable(xml: Seq<char>) -> bool {
    &&& tags_in_order(xml, "NewExternalPort"@)
    &&& port_value(xml, "NewExternalPort"@, UpnpErrorView::InvalidExternalPort) is Ok ==> {
        &&& tags_in_order(xml, "NewProtocol"@)
        &&& required_value(xml, "NewProtocol"@) is Ok ==> {
            &&& tags_in_order(xml, "NewInternalClient"@)
            &&& required_value(xml, "NewInternalClient"@) is Ok ==> {
                &&& tags_in_order(xml, "NewInternalPort"@)
                &&& port_value(xml, "NewInternalPort"@, UpnpErrorView::InvalidInternalPort) is Ok ==> {
                    &&& tags_in_order(xml, "NewPortMappingDescription"@)
                    &&& tags_in_order(xml, "NewEnabled"@)
                    &&& tags_in_order(xml, "NewLeaseDuration"@)
                }
            }
        }
    }
}

/// The port that the value of `tag` denotes, or `invalid`.
fn read_port(xml: &str, tag: &str, invalid: UpnpError) -> (r: Result<u16, UpnpError>)
    requires
        tags_in_order(xml@, tag@),
    ensures
        match r {
            Ok(port) => port_value(xml@, tag@, invalid@) == Ok::<nat, UpnpErrorView>(port as nat),
            Err(e) => port_value(xml@, tag@, invalid@) == Err::<nat, UpnpErrorView>(e@),
        },
{
    match extract_xml_value(xml, tag) {
        Ok(value) => match parse_u16(value.as_str()) {
            Some(port) => Ok(port),
            None => Err(invalid),
        },
        Err(e) => Err(e),
    }
}

/// Whether the entry in `xml` can be read.
pub fn can_read_entry(xml: &str) -> (r: bool)
    ensures
        r == entry_readable(xml@),
{
    if !in_order(xml, "NewExternalPort") {
        return false;
    }
    if read_port(xml, "NewExternalPort", UpnpError::InvalidExternalPort).is_err() {
        return true;
    }
    if !in_order(xml, "NewProtocol") {
        return false;
    }
    if extract_xml_value(xml, "NewProtocol").is_err() {
        return true;
    }
    if !in_order(xml, "NewInternalClient") {
        return false;
    }
    if extract_xml_value(xml, "NewInternalClient").is_err() {
        return true;
    }
    if !in_order(xml, "NewInternalPort") {
        return false;
    }
    if read_port(xml, "NewInternalPort", UpnpError::InvalidInternalPort).is_err() {
        return true;
    }
    in_order(xml, "NewPortMappingDescription") && in_order(xml, "NewEnabled") && in_order(
        xml,
        "NewLeaseDuration",
    )
}

/// Reads one port mapping from the answer to `GetGenericPortMappingEntry`.
pub fn parse_port_mapping_entry(xml: &str) -> (r: Result<PortMappingEntry, UpnpError>)
    requires
        entry_readable(xml@),
    ensures
        match r {
            Ok(entry) => entry_of(xml@) == Ok::<PortMappingEntryView, UpnpErrorView>(entry@),
            Err(e) => entry_of(xml@) == Err::<PortMappingEntryView, UpnpErrorView>(e@),
        },
{
    let external_port = match read_port(xml, "NewExternalPort", UpnpError::InvalidExternalPort) {
        Ok(port) => port,
        Err(e) => return Err(e),
    };
    let protocol = match extract_xml_value(xml, "NewProtocol") {
        Ok(value) => value,
        Err(e) => return Err(e),
    };
    let internal_client = match extract_xml_value(xml, "NewInternalClient") {
        Ok(value) => value,
        Err(e) => return Err(e),
    };
    let internal_port = match read_port(xml, "NewInternalPort", UpnpError::InvalidInternalPort) {
        Ok(port) => port,
        Err(e) => return Err(e),
    };
    let description = match value_of(xml, "NewPortMappingDescription") {
        Some(value) => value.to_owned(),
        None => String::new(),
    };
    let enabled = match value_of(xml, "NewEnabled") {
        Some(value) => same(value, "1"),
        None => false,
    };
    let lease_duration = match value_of(xml, "NewLeaseDuration") {
        Some(value) => match parse_u32(value) {
            Some(secs) => secs,
            None => 0,
        },
        None => 0,
    };
    Ok(
        PortMappingEntry {
            external_port,
            protocol,
            internal_client,
            internal_port,
            description,
            enabled,
            lease_duration,
        },
    )
}

// ---------------------------------------------------------------------------
// Writing requests
// ---------------------------------------------------------------------------

/// An argument of a SOAP action.
struct Argument {
    name: String,
    value: String,
}

/// The view of the arguments of a SOAP action: names and values.
spec fn arguments(args: Seq<Argument>) -> Seq<(Seq<char>, Seq<char>)> {
    args.map_values(|a: Argument| (a.name@, a.value@))
}

/// An argument on a line of its own.
pub open spec fn argument_text(arg: (Seq<char>, Seq<char>)) -> Seq<char> {
    "\n  "@ + open_tag(arg.0) + arg.1 + close_tag(arg.0)
}

/// The arguments of an action, one after the other.
pub open spec fn arguments_text(args: Seq<(Seq<char>, Seq<char>)>) -> Seq<char>
    decreases args.len(),
{
    if args.len() == 0 {
        Seq::empty()
    } else {
        arguments_text(args.drop_last()) + argument_text(args.last())
    }
}

/// The element that calls `action` with `args`.
pub open spec fn action_text(action: Seq<char>, args: Seq<(Seq<char>, Seq<char>)>) -> Seq<char> {
    "<u:"@ + action + " xmlns:u=\""@ + SOAP_NAMESPACE@ + "\">"@ + arguments_text(args) + (if args.len()
        > 0 {
        "\n"@
    } else {
        Seq::empty()
    }) + "</u:"@ + action + ">"@
}

/// What stands before the action in a SOAP envelope.
pub open spec fn envelope_head() -> Seq<char> {
    "<?xml version=\"1.0\"?>\n"@
        + "<s:Envelope xmlns:s=\"http://schemas.xmlsoap.org/soap/envelope/\"\n"@
        + "            s:encodingStyle=\"http://schemas.xmlsoap.org/soap/encoding/\">\n"@
        + "  <s:Body>"@
}

/// The SOAP envelope around a body.
pub open spec fn envelope(body: Seq<char>) -> Seq<char> {
    envelope_head() + body + "</s:Body>\n</s:Envelope>"@
}

/// The value of the `SOAPAction` header for `action`.
pub open spec fn soap_action_header(action: Seq<char>) -> Seq<char> {
    "\""@ + SOAP_NAMESPACE@ + "#"@ + action + "\""@
}

/// A request to be posted to the gateway.
#[derive(Debug, Clone)]
pub struct SoapRequest {
    pub url: String,
    /// The `Content-Type` header.
    pub content_type: String,
    /// The `SOAPAction` header.
    pub soap_action: String,
    pub body: String,
}

/// The view of a [`SoapRequest`].
pub struct SoapRequestView {
    pub url: Seq<char>,
    pub content_type: Seq<char>,
    pub soap_action: Seq<char>,
    pub body: Seq<char>,
}

impl View for SoapRequest {
    type V = SoapRequestView;

    open spec fn view(&self) -> SoapRequestView {
        SoapRequestView {
            url: self.url@,
            content_type: self.content_type@,
            soap_action: self.soap_action@,
            body: self.body@,
        }
    }
}

/// The request that calls `action` with `body` at `url`.
pub open spec fn soap_request(url: Seq<char>, action: Seq<char>, body: Seq<char>) -> SoapRequestView {
    SoapRequestView {
        url,
        content_type: "text/xml; charset=utf-8"@,
        soap_action: soap_action_header(action),
        body: envelope(body),
    }
}

/// The arguments of `AddPortMapping`.
pub open spec fn add_arguments(
    external_port: nat,
    internal_host: Seq<char>,
    internal_port: nat,
    protocol: Seq<char>,
    description: Seq<char>,
    lease_duration: nat,
) -> Seq<(Seq<char>, Seq<char>)> {
    seq![
        ("NewRemoteHost"@, Seq::<char>::empty()),
        ("NewExternalPort"@, decimal(external_port)),
        ("NewProtocol"@, protocol),
        ("NewInternalPort"@, decimal(internal_port)),
        ("NewInternalClient"@, internal_host),
        ("NewEnabled"@, "1"@),
        ("NewPortMappingDescription"@, description),
        ("NewLeaseDuration"@, decimal(lease_duration)),
    ]
}

/// The arguments of `DeletePortMapping`.
pub open spec fn delete_arguments(external_port: nat, protocol: Seq<char>) -> Seq<
    (Seq<char>, Seq<char>),
> {
    seq![
        ("NewRemoteHost"@, Seq::<char>::empty()),
        ("NewExternalPort"@, decimal(external_port)),
        ("NewProtocol"@, protocol),
    ]
}

/// An argument with its value.
fn argument(name: &str, value: &str) -> (a: Argument)
    ensures
        a.name@ == name@,
        a.value@ == value@,
{
    Argument { name: name.to_owned(), value: value.to_owned() }
}

/// Writes out the element that calls `action` with `args`.
fn write_action(action: &str, args: &Vec<Argument>) -> (text: String)
    ensures
        text@ == action_text(action@, arguments(args@)),
{
    let mut text = "<u:".to_owned().concat(action).concat(" xmlns:u=\"").concat(
        SOAP_NAMESPACE,
    ).concat("\">");
    let ghost head = text@;
    let ghost views = arguments(args@);
    let mut i: usize = 0;
    assert(views.take(0) =~= Seq::<(Seq<char>, Seq<char>)>::empty());
    assert(text@ =~= head + arguments_text(views.take(0)));
    while i < args.len()
        invariant
            i <= args@.len(),
            views == arguments(args@),
            text@ == head + arguments_text(views.take(i as int)),
        decreases args@.len() - i,
    {
        let name = args[i].name.as_str();
        let value = args[i].value.as_str();
        text.append("\n  <");
        text.append(name);
        text.append(">");
        text.append(value);
        text.append("</");
        text.append(name);
        text.append(">");
        proof {
            reveal_strlit("\n  <");
            reveal_strlit("\n  ");
            reveal_strlit("<");
            let next = views.take(i + 1);
            assert(next.drop_last() =~= views.take(i as int));
            assert(next.last() == (name@, value@));
            assert("\n  <"@ =~= "\n  "@ + "<"@);
            assert(text@ =~= head + arguments_text(next));
        }
        i += 1;
    }
    assert(views.take(i as int) =~= views);
    if args.len() > 0 {
        text.append("\n");
    }
    text.append("</u:");
    text.append(action);
    text.append(">");
    assert(text@ =~= action_text(action@, views));
    text
}

/// The client of the gateway's control URL.
pub struct UpnpClient {
    control_url: String,
}

impl View for UpnpClient {
    type V = Seq<char>;

    /// The control URL.
    closed spec fn view(&self) -> Seq<char> {
        self.control_url@
    }
}

impl UpnpClient {
    pub fn new(control_url: String) -> (client: Self)
        ensures
            client@ == control_url@,
    {
        UpnpClient { control_url }
    }

    /// The request that calls `action` with `body`.
    pub fn soap_action(&self, action: &str, body: &str) -> (request: SoapRequest)
        ensures
            request@ == soap_request(self@, action@, body@),
    {
        let text = "<?xml version=\"1.0\"?>\n".to_owned().concat(
            "<s:Envelope xmlns:s=\"http://schemas.xmlsoap.org/soap/envelope/\"\n",
        ).concat(
            "            s:encodingStyle=\"http://schemas.xmlsoap.org/soap/encoding/\">\n",
        ).concat("  <s:Body>").concat(body).concat("</s:Body>\n</s:Envelope>");
        SoapRequest {
            url: self.control_url.clone(),
            content_type: "text/xml; charset=utf-8".to_owned(),
            soap_action: "\"".to_owned().concat(SOAP_NAMESPACE).concat("#").concat(action).concat(
                "\"",
            ),
            body: text,
        }
    }

    /// The request that adds or renews a port mapping.
    pub fn add_port_mapping(
        &self,
        external_port: u16,
        internal_host: &str,
        internal_port: u16,
        protocol: &str,
        description: &str,
        lease_duration: u32,
    ) -> (request: SoapRequest)
        ensures
            request@ == soap_request(
                self@,
                "AddPortMapping"@,
                action_text(
                    "AddPortMapping"@,
                    add_arguments(
                        external_port as nat,
                        internal_host@,
                        internal_port as nat,
                        protocol@,
                        description@,
                        lease_duration as nat,
                    ),
                ),
            ),
    {
        let mut args: Vec<Argument> = Vec::new();
        args.push(argument("NewRemoteHost", String::new().as_str()));
        args.push(argument("NewExternalPort", number(external_port as u64).as_str()));
        args.push(argument("NewProtocol", protocol));
        args.push(argument("NewInternalPort", number(internal_port as u64).as_str()));
        args.push(argument("NewInternalClient", internal_host));
        args.push(argument("NewEnabled", "1"));
        args.push(argument("NewPortMappingDescription", description));
        args.push(argument("NewLeaseDuration", number(lease_duration as u64).as_str()));
        assert(arguments(args@) =~= add_arguments(
            external_port as nat,
            internal_host@,
            internal_port as nat,
            protocol@,
            description@,
            lease_duration as nat,
        ));
        self.soap_action("AddPortMapping", write_action("AddPortMapping", &args).as_str())
    }

    /// The request that deletes a port mapping.
    pub fn delete_port_mapping(&self, external_port: u16, protocol: &str) -> (request: SoapRequest)
        ensures
            request@ == soap_request(
                self@,
                "DeletePortMapping"@,
                action_text(
                    "DeletePortMapping"@,
                    delete_arguments(external_port as nat, protocol@),
                ),
            ),
    {
        let mut args: Vec<Argument> = Vec::new();
        args.push(argument("NewRemoteHost", String::new().as_str()));
        args.push(argument("NewExternalPort", number(external_port as u64).as_str()));
        args.push(argument("NewProtocol", protocol));
        assert(arguments(args@) =~= delete_arguments(external_port as nat, protocol@));
        self.soap_action("DeletePortMapping", write_action("DeletePortMapping", &args).as_str())
    }

    /// The request for the current external (WAN) address.
    pub fn get_external_ip(&self) -> (request: SoapRequest)
        ensures
            request@ == soap_request(
                self@,
                "GetExternalIPAddress"@,
                action_text("GetExternalIPAddress"@, Seq::empty()),
            ),
    {
        let args: Vec<Argument> = Vec::new();
        assert(arguments(args@) =~= Seq::empty());
        self.soap_action(
            "GetExternalIPAddress",
            write_action("GetExternalIPAddress", &args).as_str(),
        )
    }

    /// The request for the port mapping with the given index.
    pub fn get_generic_port_mapping_entry(&self, index: u32) -> (request: SoapRequest)
        ensures
            request@ == soap_request(
                self@,
                "GetGenericPortMappingEntry"@,
                action_text(
                    "GetGenericPortMappingEntry"@,
                    seq![("NewPortMappingIndex"@, decimal(index as nat))],
                ),
            ),
    {
        let mut args: Vec<Argument> = Vec::new();
        args.push(argument("NewPortMappingIndex", number(index as u64).as_str()));
        assert(arguments(args@) =~= seq![("NewPortMappingIndex"@, decimal(index as nat))]);
        self.soap_action(
            "GetGenericPortMappingEntry",
            write_action("GetGenericPortMappingEntry", &args).as_str(),
        )
    }

    /// The request with which the gathering of all port mappings goes on: that for the
    /// next entry of `list`, and none once it has ended.
    pub fn list_port_mappings(&self, list: &MappingList) -> (request: Option<SoapRequest>)
        requires
            list.wf(),
        ensures
            match next_asked(list@) {
                Some(index) => request matches Some(r) && r@ == soap_request(
                    self@,
                    "GetGenericPortMappingEntry"@,
                    action_text(
                        "GetGenericPortMappingEntry"@,
                        seq![("NewPortMappingIndex"@, decimal(index))],
                    ),
                ),
                None => request is None,
            },
    {
        match list.next_index() {
            Some(index) => Some(self.get_generic_port_mapping_entry(index)),
            None => None,
        }
    }
}

// ---------------------------------------------------------------------------
// Answers of the gateway
// ---------------------------------------------------------------------------

/// What came of a posted request.
#[derive(Debug, Clone)]
pub enum SoapReply {
    /// The request could not be sent.
    NotSent,
    /// There was an answer, but its text could not be read.
    Unreadable,
    /// The answer, with its status as text and whether that is a success.
    Answer { success: bool, status: String, text: String },
}

/// The text of a successful answer.
pub open spec fn reply_text(reply: SoapReply) -> Result<Seq<char>, UpnpErrorView> {
    match reply {
        SoapReply::NotSent => Err(UpnpErrorView::NotSent),
        SoapReply::Unreadable => Err(UpnpErrorView::Unreadable),
        SoapReply::Answer { success, status, text } => if success {
            Ok(text@)
        } else {
            Err(UpnpErrorView::Soap { status: status@, text: text@ })
        },
    }
}

/// The text of a successful answer; an error for anything else.
pub fn soap_text(reply: SoapReply) -> (r: Result<String, UpnpError>)
    ensures
        match r {
            Ok(text) => reply_text(reply) == Ok::<Seq<char>, UpnpErrorView>(text@),
            Err(e) => reply_text(reply) == Err::<Seq<char>, UpnpErrorView>(e@),
        },
{
    match reply {
        SoapReply::NotSent => Err(UpnpError::NotSent),
        SoapReply::Unreadable => Err(UpnpError::Unreadable),
        SoapReply::Answer { success, status, text } => {
            if success {
                Ok(text)
            } else {
                Err(UpnpError::Soap { status, text })
            }
        },
    }
}

/// What an `AddPortMapping` request brought: the lease duration that was asked for,
/// where the gateway accepted it (0 is a permanent mapping).
pub fn added_lease(reply: SoapReply, lease_duration: u32) -> (r: Result<u32, UpnpError>)
    ensures
        match r {
            Ok(secs) => reply_text(reply) is Ok && secs == lease_duration,
            Err(e) => reply_text(reply) == Err::<Seq<char>, UpnpErrorView>(e@),
        },
{
    match soap_text(reply) {
        Ok(_) => Ok(lease_duration),
        Err(e) => Err(e),
    }
}

/// What a `DeletePortMapping` request brought.
pub fn deleted(reply: SoapReply) -> (r: Result<(), UpnpError>)
    ensures
        match r {
            Ok(_) => reply_text(reply) is Ok,
            Err(e) => reply_text(reply) == Err::<Seq<char>, UpnpErrorView>(e@),
        },
{
    match soap_text(reply) {
        Ok(_) => Ok(()),
        Err(e) => Err(e),
    }
}

/// What a `GetExternalIPAddress` request brought.
pub open spec fn external_ip_of(reply: SoapReply) -> Result<Seq<char>, UpnpErrorView> {
    match reply_text(reply) {
        Ok(text) => external_ip(text),
        Err(e) => Err(e),
    }
}

/// Whether the external address can be cut out of the answer, where there is one.
pub fn can_read_external_ip(reply: &SoapReply) -> (r: bool)
    ensures
        r == (reply_text(*reply) matches Ok(text) ==> tags_in_order(text, "NewExternalIPAddress"@)),
{
    match reply {
        SoapReply::Answer { success, status: _, text } => !*success || in_order(
            text.as_str(),
            "NewExternalIPAddress",
        ),
        _ => true,
    }
}

/// The external address that a `GetExternalIPAddress` request brought.
pub fn external_ip_from(reply: SoapReply) -> (r: Result<String, UpnpError>)
    requires
        reply_text(reply) matches Ok(text) ==> tags_in_order(text, "NewExternalIPAddress"@),
    ensures
        match r {
            Ok(ip) => external_ip_of(reply) == Ok::<Seq<char>, UpnpErrorView>(ip@),
            Err(e) => external_ip_of(reply) == Err::<Seq<char>, UpnpErrorView>(e@),
        },
{
    match soap_text(reply) {
        Ok(text) => parse_external_ip(text.as_str()),
        Err(e) => Err(e),
    }
}

/// An error that says that there is no entry with the requested index.
pub open spec fn past_the_end(error: UpnpErrorView) -> bool {
    has(error_message(error), "SpecifiedArrayIndexInvalid"@) || has(error_message(error), "713"@)
}

/// What a `GetGenericPortMappingEntry` request brought: an entry, or `None` past the
/// last one.
pub open spec fn entry_in(reply: SoapReply) -> Result<Option<PortMappingEntryView>, UpnpErrorView> {
    match reply_text(reply) {
        Ok(text) => match entry_of(text) {
            Ok(entry) => Ok(Some(entry)),
            Err(e) => Err(e),
        },
        Err(e) => if past_the_end(e) {
            Ok(None)
        } else {
            Err(e)
        },
    }
}

/// Whether the entry can be cut out of the answer, where there is one.
pub fn can_read_entry_in(reply: &SoapReply) -> (r: bool)
    ensures
        r == (reply_text(*reply) matches Ok(text) ==> entry_readable(text)),
{
    match reply {
        SoapReply::Answer { success, status: _, text } => !*success || can_read_entry(text.as_str()),
        _ => true,
    }
}

/// The entry that a `GetGenericPortMappingEntry` request brought.
pub fn entry_from(reply: SoapReply) -> (r: Result<Option<PortMappingEntry>, UpnpError>)
    requires
        reply_text(reply) matches Ok(text) ==> entry_readable(text),
    ensures
        match r {
            Ok(Some(entry)) => entry_in(reply) == Ok::<
                Option<PortMappingEntryView>,
                UpnpErrorView,
            >(Some(entry@)),
            Ok(None) => entry_in(reply) == Ok::<Option<PortMappingEntryView>, UpnpErrorView>(None),
            Err(e) => entry_in(reply) == Err::<Option<PortMappingEntryView>, UpnpErrorView>(e@),
        },
{
    match soap_text(reply) {
        Ok(text) => match parse_port_mapping_entry(text.as_str()) {
            Ok(entry) => Ok(Some(entry)),
            Err(e) => Err(e),
        },
        Err(e) => {
            let message = e.message();
            if contains(message.as_str(), "SpecifiedArrayIndexInvalid") || contains(
                message.as_str(),
                "713",
            ) {
                Ok(None)
            } else {
                Err(e)
            }
        },
    }
}

/// The view of a list of entries.
pub open spec fn entries(v: Seq<PortMappingEntry>) -> Seq<PortMappingEntryView> {
    v.map_values(|e: PortMappingEntry| e@)
}

/// How far the gathering of all entries has come.
pub enum ListingView {
    /// These have been found, and more may follow.
    Asking(Seq<PortMappingEntryView>),
    /// These are all.
    Complete(Seq<PortMappingEntryView>),
    /// An answer could not be used.
    Failed(UpnpErrorView),
}

/// The gathering before the first answer.
pub open spec fn listing_start() -> ListingView {
    ListingView::Asking(Seq::empty())
}

/// The index of the entry to ask for next: the number of those found so far.
pub open spec fn next_asked(listing: ListingView) -> Option<nat> {
    match listing {
        ListingView::Asking(found) => Some(found.len()),
        _ => None,
    }
}

/// The gathering after one more answer. An entry is added, the answer that there is none
/// completes the list, and an error ends the gathering without a list.
pub open spec fn listing_step(listing: ListingView, reply: SoapReply) -> ListingView {
    match listing {
        ListingView::Asking(found) => match entry_in(reply) {
            Ok(Some(entry)) => ListingView::Asking(found.push(entry)),
            Ok(None) => ListingView::Complete(found),
            Err(e) => ListingView::Failed(e),
        },
        _ => listing,
    }
}

/// Where a gathering stands.
#[derive(Debug)]
enum Progress {
    Asking,
    Complete,
    Failed(UpnpError),
}

/// The mappings of the gateway, gathered entry by entry.
pub struct MappingList {
    mappings: Vec<PortMappingEntry>,
    index: u32,
    progress: Progress,
}

impl View for MappingList {
    type V = ListingView;

    closed spec fn view(&self) -> ListingView {
        match self.progress {
            Progress::Asking => ListingView::Asking(entries(self.mappings@)),
            Progress::Complete => ListingView::Complete(entries(self.mappings@)),
            Progress::Failed(e) => ListingView::Failed(e@),
        }
    }
}

impl MappingList {
    /// The next index is the number of entries gathered so far.
    pub closed spec fn wf(&self) -> bool {
        self.index == self.mappings@.len()
    }

    pub fn new() -> (list: Self)
        ensures
            list.wf(),
            list@ == listing_start(),
    {
        let list = MappingList { mappings: Vec::new(), index: 0, progress: Progress::Asking };
        assert(entries(list.mappings@) =~= Seq::empty());
        list
    }

    /// The index of the entry to ask for next; `None` once the gathering has ended.
    pub fn next_index(&self) -> (index: Option<u32>)
        requires
            self.wf(),
        ensures
            match index {
                Some(i) => next_asked(self@) == Some(i as nat),
                None => next_asked(self@) is None,
            },
    {
        match self.progress {
            Progress::Asking => Some(self.index),
            _ => None,
        }
    }

    /// Takes in the answer for [`MappingList::next_index`].
    pub fn advance(&mut self, reply: SoapReply)
        requires
            old(self).wf(),
            old(self)@ matches ListingView::Asking(found) ==> found.len() < u32::MAX,
            reply_text(reply) matches Ok(text) ==> entry_readable(text),
        ensures
            final(self).wf(),
            final(self)@ == listing_step(old(self)@, reply),
    {
        if self.next_index().is_none() {
            return;
        }
        match entry_from(reply) {
            Ok(Some(entry)) => {
                self.mappings.push(entry);
                self.index = self.index + 1;
                assert(entries(self.mappings@) =~= entries(old(self).mappings@).push(entry@));
            },
            Ok(None) => {
                self.progress = Progress::Complete;
            },
            Err(e) => {
                self.progress = Progress::Failed(e);
            },
        }
    }

    /// All entries, in the order of their indices, or the error that ended the
    /// gathering; `None` while it has not ended.
    pub fn finish(self) -> (r: Option<Result<Vec<PortMappingEntry>, UpnpError>>)
        ensures
            match self@ {
                ListingView::Asking(_) => r is None,
                ListingView::Complete(found) => r matches Some(Ok(mappings)) && entries(mappings@)
                    == found,
                ListingView::Failed(e) => r matches Some(Err(error)) && error@ == e,
            },
    {
        match self.progress {
            Progress::Asking => None,
            Progress::Complete => Some(Ok(self.mappings)),
            Progress::Failed(e) => Some(Err(e)),
        }
    }
}

/// The gathering after a run of answers.
pub open spec fn listing_after(replies: Seq<SoapReply>) -> ListingView
    decreases replies.len(),
{
    if replies.len() == 0 {
        listing_start()
    } else {
        listing_step(listing_after(replies.drop_last()), replies.last())
    }
}

/// The indices that have been asked for when a run of answers has come, in order.
pub open spec fn asked(replies: Seq<SoapReply>) -> Seq<nat>
    decreases replies.len(),
{
    if replies.len() == 0 {
        Seq::empty()
    } else {
        match next_asked(listing_after(replies.drop_last())) {
            Some(index) => asked(replies.drop_last()).push(index),
            None => asked(replies.drop_last()),
        }
    }
}

/// Answers that all hold an entry leave the gathering with these entries.
proof fn lemma_listing_goes_on(replies: Seq<SoapReply>, found: Seq<PortMappingEntryView>)
    requires
        replies.len() == found.len(),
        forall|k: int|
            0 <= k < found.len() ==> entry_in(#[trigger] replies[k]) == Ok::<
                Option<PortMappingEntryView>,
                UpnpErrorView,
            >(Some(found[k])),
    ensures
        listing_after(replies) == ListingView::Asking(found),
        asked(replies) == Seq::new(found.len(), |k: int| k as nat),
    decreases replies.len(),
{
    if replies.len() == 0 {
        assert(found =~= Seq::empty());
        assert(asked(replies) =~= Seq::new(found.len(), |k: int| k as nat));
    } else {
        let first = replies.drop_last();
        assert forall|k: int| 0 <= k < found.drop_last().len() implies entry_in(
            #[trigger] first[k],
        ) == Ok::<Option<PortMappingEntryView>, UpnpErrorView>(Some(found.drop_last()[k])) by {
            assert(first[k] == replies[k]);
        }
        lemma_listing_goes_on(first, found.drop_last());
        assert(replies.last() == replies[replies.len() - 1]);
        assert(found.drop_last().push(found.last()) =~= found);
        assert(asked(replies) =~= Seq::new(found.len(), |k: int| k as nat));
    }
}

/// The whole gathering. Where the first `found.len()` answers hold the entries `found`
/// and the next holds none, the indices from zero to that one have been asked for, once
/// each and in order. If that answer says that there is no further entry, the list is
/// complete and in the order of the indices; if it is an error, there is that error and
/// no list. Nothing that comes later changes it.
pub proof fn law_listing(replies: Seq<SoapReply>, found: Seq<PortMappingEntryView>)
    requires
        found.len() < replies.len(),
        forall|k: int|
            0 <= k < found.len() ==> entry_in(#[trigger] replies[k]) == Ok::<
                Option<PortMappingEntryView>,
                UpnpErrorView,
            >(Some(found[k])),
        !(entry_in(replies[found.len() as int]) matches Ok(Some(_))),
    ensures
        listing_after(replies) == (match entry_in(replies[found.len() as int]) {
            Err(e) => ListingView::Failed(e),
            _ => ListingView::Complete(found),
        }),
        asked(replies) == Seq::new(found.len() + 1, |k: int| k as nat),
    decreases replies.len(),
{
    let first = replies.drop_last();
    assert forall|k: int| 0 <= k < found.len() implies entry_in(#[trigger] first[k]) == Ok::<
        Option<PortMappingEntryView>,
        UpnpErrorView,
    >(Some(found[k])) by {
        assert(first[k] == replies[k]);
    }
    if replies.len() == found.len() + 1 {
        lemma_listing_goes_on(first, found);
        assert(asked(replies) =~= Seq::new(found.len() + 1, |k: int| k as nat));
    } else {
        assert(first[found.len() as int] == replies[found.len() as int]);
        law_listing(first, found);
    }
}

// ---------------------------------------------------------------------------
// What requests carry
// ---------------------------------------------------------------------------

/// A name that an argument can have: it begins as all of them do, and holds no
/// bracket.
pub open spec fn is_argument_name(name: Seq<char>) -> bool {
    name.len() > 0 && name[0] == 'N' && !name.contains('<') && !name.contains('>')
}

/// Arguments that can be told apart in a request: proper names, each once, and values
/// without markup.
pub open spec fn plain_arguments(args: Seq<(Seq<char>, Seq<char>)>) -> bool {
    &&& forall|i: int|
        0 <= i < args.len() ==> is_argument_name((#[trigger] args[i]).0) && !args[i].1.contains('<')
    &&& forall|i: int, j: int|
        0 <= i < j < args.len() ==> (#[trigger] args[i]).0 != (#[trigger] args[j]).0
}

/// Text without `<` is clear of every tag.
proof fn lemma_plain_is_clear(s: Seq<char>, tag: Seq<char>)
    requires
        !s.contains('<'),
        tag.len() > 0,
        tag[0] == '<',
    ensures
        clear_of(s, tag),
{
    assert forall|k: int| 0 <= k < s.len() implies #[trigger] differs_at(s, tag, k) by {
        assert(s[k] != '<');
        assert(s[k + 0] != tag[0]);
    }
}

/// Text in which `<` stands only at the start, before a character that is not the
/// second one of the tag, is clear of the tag.
proof fn lemma_other_element_is_clear(s: Seq<char>, tag: Seq<char>)
    requires
        s.len() > 1,
        !s.skip(1).contains('<'),
        tag.len() > 1,
        tag[0] == '<',
        s[1] != tag[1],
    ensures
        clear_of(s, tag),
{
    assert forall|k: int| 0 <= k < s.len() implies #[trigger] differs_at(s, tag, k) by {
        if k == 0 {
            assert(s[k + 1] != tag[1]);
        } else {
            assert(s.skip(1)[k - 1] == s[k]);
            assert(s[k + 0] != tag[0]);
        }
    }
}

/// A tag is clear of the same kind of tag of another name.
proof fn lemma_other_tag_is_clear(start: Seq<char>, name: Seq<char>, other: Seq<char>)
    requires
        is_argument_name(name),
        is_argument_name(other),
        name != other,
        start.len() > 0,
        start[0] == '<',
        !start.skip(1).contains('<'),
    ensures
        clear_of(start + other + ">"@, start + name + ">"@),
{
    reveal_strlit(">");
    let s = start + other + ">"@;
    let tag = start + name + ">"@;
    let n = start.len() as int;
    assert forall|k: int| 0 <= k < s.len() implies #[trigger] differs_at(s, tag, k) by {
        if k > 0 {
            if k < n {
                assert(start.skip(1)[k - 1] == start[k]);
            } else if k < n + other.len() {
                assert(other[k - n] == s[k]);
            }
            assert(s[k + 0] != tag[0]);
        } else if other.len() < name.len() {
            let m = n + other.len();
            assert(name[other.len() as int] != '>');
            assert(s[k + m] != tag[m]);
        } else if name.len() < other.len() {
            let m = n + name.len();
            assert(other[name.len() as int] != '>');
            assert(s[k + m] != tag[m]);
        } else {
            if forall|i: int| 0 <= i < name.len() ==> name[i] == other[i] {
                assert(name =~= other);
            }
            let i = choose|i: int| 0 <= i < name.len() && name[i] != other[i];
            assert(s[k + (n + i)] != tag[n + i]);
        }
    }
}

/// A line with another argument is clear of both tags of an argument.
proof fn lemma_other_line_is_clear(arg: (Seq<char>, Seq<char>), name: Seq<char>)
    requires
        is_argument_name(name),
        is_argument_name(arg.0),
        name != arg.0,
        !arg.1.contains('<'),
    ensures
        clear_of(argument_text(arg), open_tag(name)),
        clear_of(argument_text(arg), close_tag(name)),
{
    reveal_strlit("\n  ");
    reveal_strlit("<");
    reveal_strlit("</");
    reveal_strlit(">");
    let gap = "\n  "@;
    let open = open_tag(arg.0);
    let close = close_tag(arg.0);
    assert(!"<"@.skip(1).contains('<'));
    assert(!"</"@.skip(1).contains('<'));
    lemma_other_tag_is_clear("<"@, name, arg.0);
    lemma_other_tag_is_clear("</"@, name, arg.0);
    lemma_plain_is_clear(gap, open_tag(name));
    lemma_plain_is_clear(gap, close_tag(name));
    lemma_plain_is_clear(arg.1, open_tag(name));
    lemma_plain_is_clear(arg.1, close_tag(name));
    assert(!open.skip(1).contains('<')) by {
        assert forall|k: int| 0 <= k < open.skip(1).len() implies open.skip(1)[k] != '<' by {
            if k < arg.0.len() {
                assert(open.skip(1)[k] == arg.0[k]);
            }
        }
    }
    assert(!close.skip(1).contains('<')) by {
        assert forall|k: int| 0 <= k < close.skip(1).len() implies close.skip(1)[k] != '<' by {
            if 1 <= k < arg.0.len() + 1 {
                assert(close.skip(1)[k] == arg.0[k - 1]);
            }
        }
    }
    assert(open[1] == arg.0[0]);
    assert(open_tag(name)[1] == name[0]);
    lemma_other_element_is_clear(open, close_tag(name));
    lemma_other_element_is_clear(close, open_tag(name));
    lemma_clear_parts(gap, open, open_tag(name));
    lemma_clear_parts(gap + open, arg.1, open_tag(name));
    lemma_clear_parts(gap + open + arg.1, close, open_tag(name));
    lemma_clear_parts(gap, open, close_tag(name));
    lemma_clear_parts(gap + open, arg.1, close_tag(name));
    lemma_clear_parts(gap + open + arg.1, close, close_tag(name));
}

/// Lines with other arguments are clear of both tags of an argument.
proof fn lemma_other_lines_are_clear(args: Seq<(Seq<char>, Seq<char>)>, name: Seq<char>)
    requires
        is_argument_name(name),
        forall|i: int|
            0 <= i < args.len() ==> is_argument_name((#[trigger] args[i]).0) && args[i].0 != name
                && !args[i].1.contains('<'),
    ensures
        clear_of(arguments_text(args), open_tag(name)),
        clear_of(arguments_text(args), close_tag(name)),
    decreases args.len(),
{
    if args.len() > 0 {
        lemma_other_lines_are_clear(args.drop_last(), name);
        lemma_other_line_is_clear(args.last(), name);
        let earlier = arguments_text(args.drop_last());
        lemma_clear_parts(earlier, argument_text(args.last()), open_tag(name));
        lemma_clear_parts(earlier, argument_text(args.last()), close_tag(name));
    }
}

/// What stands before the arguments of a request.
spec fn request_head(action: Seq<char>) -> Seq<char> {
    envelope_head() + ("<u:"@ + action + " xmlns:u=\""@ + SOAP_NAMESPACE@ + "\">"@)
}

/// What stands before the arguments is clear of the tags of an argument.
#[verifier::rlimit(40)]
proof fn lemma_head_is_clear(action: Seq<char>, tag: Seq<char>)
    requires
        !action.contains('<'),
        tag.len() > 1,
        tag[0] == '<',
        tag[1] == 'N' || tag[1] == '/',
    ensures
        clear_of(request_head(action), tag),
{
    let declaration = "<?xml version=\"1.0\"?>\n"@;
    let start = "<s:Envelope xmlns:s=\"http://schemas.xmlsoap.org/soap/envelope/\"\n"@;
    let encoding = "            s:encodingStyle=\"http://schemas.xmlsoap.org/soap/encoding/\">\n"@;
    let gap = "  "@;
    let body = "<s:Body>"@;
    let call = "<u:"@;
    let attribute = " xmlns:u=\""@;
    let end = "\">"@;
    assert("  <s:Body>"@ =~= gap + body) by {
        reveal_strlit("  <s:Body>");
        reveal_strlit("  ");
        reveal_strlit("<s:Body>");
    }
    assert(declaration.len() > 1 && declaration[1] == '?' && !declaration.skip(1).contains('<')) by {
        reveal_strlit("<?xml version=\"1.0\"?>\n");
    }
    assert(start.len() > 1 && start[1] == 's' && !start.skip(1).contains('<')) by {
        reveal_strlit("<s:Envelope xmlns:s=\"http://schemas.xmlsoap.org/soap/envelope/\"\n");
    }
    assert(!encoding.contains('<')) by {
        reveal_strlit(
            "            s:encodingStyle=\"http://schemas.xmlsoap.org/soap/encoding/\">\n",
        );
    }
    assert(!gap.contains('<')) by {
        reveal_strlit("  ");
    }
    assert(body.len() > 1 && body[1] == 's' && !body.skip(1).contains('<')) by {
        reveal_strlit("<s:Body>");
    }
    assert(call.len() > 1 && call[1] == 'u' && !call.skip(1).contains('<')) by {
        reveal_strlit("<u:");
    }
    assert(!attribute.contains('<')) by {
        reveal_strlit(" xmlns:u=\"");
    }
    assert(!SOAP_NAMESPACE@.contains('<')) by {
        reveal_strlit("urn:schemas-upnp-org:service:WANIPConnection:1");
    }
    assert(!end.contains('<')) by {
        reveal_strlit("\">");
    }
    lemma_other_element_is_clear(declaration, tag);
    lemma_other_element_is_clear(start, tag);
    lemma_plain_is_clear(encoding, tag);
    lemma_plain_is_clear(gap, tag);
    lemma_other_element_is_clear(body, tag);
    lemma_other_element_is_clear(call, tag);
    lemma_plain_is_clear(action, tag);
    lemma_plain_is_clear(attribute, tag);
    lemma_plain_is_clear(SOAP_NAMESPACE@, tag);
    lemma_plain_is_clear(end, tag);
    lemma_clear_parts(declaration, start, tag);
    lemma_clear_parts(declaration + start, encoding, tag);
    lemma_clear_parts(gap, body, tag);
    lemma_clear_parts(declaration + start + encoding, gap + body, tag);
    lemma_clear_parts(call, action, tag);
    lemma_clear_parts(call + action, attribute, tag);
    lemma_clear_parts(call + action + attribute, SOAP_NAMESPACE@, tag);
    lemma_clear_parts(call + action + attribute + SOAP_NAMESPACE@, end, tag);
    lemma_clear_parts(
        envelope_head(),
        call + action + attribute + SOAP_NAMESPACE@ + end,
        tag,
    );
}

/// The lines of the first arguments stand at the start of all lines.
proof fn lemma_lines_split(args: Seq<(Seq<char>, Seq<char>)>, n: int) -> (rest: Seq<char>)
    requires
        0 <= n <= args.len(),
    ensures
        arguments_text(args) == arguments_text(args.take(n)) + rest,
    decreases args.len() - n,
{
    if n == args.len() {
        assert(args.take(n) =~= args);
        assert(arguments_text(args) =~= arguments_text(args.take(n)) + Seq::<char>::empty());
        Seq::empty()
    } else {
        let rest = lemma_lines_split(args, n + 1);
        assert(args.take(n + 1).drop_last() =~= args.take(n));
        assert(args.take(n + 1).last() == args[n]);
        let line = argument_text(args[n]);
        assert(arguments_text(args.take(n)) + line + rest =~= arguments_text(args.take(n)) + (line
            + rest));
        line + rest
    }
}

/// What stands before the value of an argument in a request: its start tag, and before
/// that nothing that could be taken for it.
spec fn before_argument(
    action: Seq<char>,
    args: Seq<(Seq<char>, Seq<char>)>,
    i: int,
) -> Seq<char> {
    request_head(action) + arguments_text(args.take(i)) + "\n  "@
}

/// Four texts behind another can be joined first.
proof fn lemma_join_four(a: Seq<char>, b: Seq<char>, c: Seq<char>, d: Seq<char>, e: Seq<char>)
    ensures
        a + b + c + d + e == a + (b + c + d + e),
{
    assert(a + b + c + d + e =~= a + (b + c + d + e));
}

/// A text and what follows it can be joined first.
proof fn lemma_join_behind(a: Seq<char>, b: Seq<char>, c: Seq<char>, d: Seq<char>)
    ensures
        a + (b + c) + d == a + b + (c + d),
        a + (b + c) == a + b + c,
{
    assert(a + (b + c) + d =~= a + b + (c + d));
    assert(a + (b + c) =~= a + b + c);
}

/// What stands around an argument in a request.
#[verifier::rlimit(40)]
proof fn lemma_request_around(
    action: Seq<char>,
    args: Seq<(Seq<char>, Seq<char>)>,
    i: int,
) -> (tail: Seq<char>)
    requires
        0 <= i < args.len(),
    ensures
        envelope(action_text(action, args)) == before_argument(action, args, i) + open_tag(
            args[i].0,
        ) + args[i].1 + close_tag(args[i].0) + tail,
{
    let call = "<u:"@ + action + " xmlns:u=\""@ + SOAP_NAMESPACE@ + "\">"@;
    let lines = arguments_text(args);
    let end = "\n"@ + "</u:"@ + action + ">"@;
    let foot = "</s:Body>\n</s:Envelope>"@;
    lemma_join_four(call + lines, "\n"@, "</u:"@, action, ">"@);
    assert(action_text(action, args) == call + lines + end);
    lemma_join_behind(envelope_head(), call + lines, end, foot);
    lemma_join_behind(envelope_head(), call, lines, foot);
    let head = request_head(action);
    assert(envelope(action_text(action, args)) == head + lines + (end + foot));

    let rest = lemma_lines_split(args, i + 1);
    assert(args.take(i + 1).drop_last() =~= args.take(i));
    assert(args.take(i + 1).last() == args[i]);
    let earlier = arguments_text(args.take(i));
    let line = argument_text(args[i]);
    assert(lines == earlier + line + rest);
    let tail = rest + (end + foot);
    lemma_join_behind(head, earlier + line, rest, end + foot);
    lemma_join_behind(head, earlier, line, tail);
    assert(envelope(action_text(action, args)) == head + earlier + line + tail);
    lemma_join_four(head + earlier, "\n  "@, open_tag(args[i].0), args[i].1, close_tag(args[i].0));
    tail
}

/// What stands before an argument is clear of both its tags.
proof fn lemma_before_is_clear(action: Seq<char>, args: Seq<(Seq<char>, Seq<char>)>, i: int)
    requires
        !action.contains('<'),
        plain_arguments(args),
        0 <= i < args.len(),
    ensures
        clear_of(before_argument(action, args, i), open_tag(args[i].0)),
        clear_of(before_argument(action, args, i), close_tag(args[i].0)),
{
    let name = args[i].0;
    let open = open_tag(name);
    let close = close_tag(name);
    assert(open.len() > 1 && open[0] == '<' && open[1] == 'N') by {
        reveal_strlit("<");
        assert(open[1] == name[0]);
    }
    assert(close.len() > 1 && close[0] == '<' && close[1] == '/') by {
        reveal_strlit("</");
    }
    let gap = "\n  "@;
    assert(!gap.contains('<')) by {
        reveal_strlit("\n  ");
    }
    let first = args.take(i);
    assert forall|k: int| 0 <= k < first.len() implies is_argument_name((#[trigger] first[k]).0)
        && first[k].0 != name && !first[k].1.contains('<') by {
        assert(first[k] == args[k]);
        assert(args[k].0 != args[i].0);
    }
    lemma_head_is_clear(action, open);
    lemma_head_is_clear(action, close);
    lemma_other_lines_are_clear(first, name);
    lemma_plain_is_clear(gap, open);
    lemma_plain_is_clear(gap, close);
    let head = request_head(action);
    let earlier = arguments_text(first);
    lemma_clear_parts(head, earlier, open);
    lemma_clear_parts(head + earlier, gap, open);
    lemma_clear_parts(head, earlier, close);
    lemma_clear_parts(head + earlier, gap, close);
}

/// A start tag is clear of the end tag.
proof fn lemma_open_is_clear_of_close(name: Seq<char>)
    requires
        is_argument_name(name),
    ensures
        clear_of(open_tag(name), close_tag(name)),
        close_tag(name).len() > 0,
        close_tag(name)[0] == '<',
{
    reveal_strlit("<");
    reveal_strlit("</");
    reveal_strlit(">");
    let open = open_tag(name);
    assert forall|k: int| 0 <= k < open.skip(1).len() implies open.skip(1)[k] != '<' by {
        if k < name.len() {
            assert(open.skip(1)[k] == name[k]);
        }
    }
    assert(open[1] == name[0]);
    assert(close_tag(name)[1] == '/');
    lemma_other_element_is_clear(open, close_tag(name));
}

/// Whoever reads the body of a request by its tags gets every argument with its value.
pub proof fn law_request_reads_back(
    action: Seq<char>,
    args: Seq<(Seq<char>, Seq<char>)>,
    i: int,
)
    requires
        !action.contains('<'),
        plain_arguments(args),
        0 <= i < args.len(),
    ensures
        element_value(envelope(action_text(action, args)), args[i].0) == Some(args[i].1),
        tags_in_order(envelope(action_text(action, args)), args[i].0),
{
    let (name, value) = args[i];
    let before = before_argument(action, args, i);
    let close = close_tag(name);
    lemma_before_is_clear(action, args, i);
    lemma_open_is_clear_of_close(name);
    lemma_plain_is_clear(value, close);
    lemma_clear_parts(before, open_tag(name), close);
    lemma_clear_parts(before + open_tag(name), value, close);
    let tail = lemma_request_around(action, args, i);
    lemma_value_between(before, name, value, tail);
}

/// Decimal notation holds no markup.
proof fn lemma_decimal_is_plain(n: nat)
    ensures
        !decimal(n).contains('<'),
{
    lemma_decimal(n);
    assert forall|k: int| 0 <= k < decimal(n).len() implies decimal(n)[k] != '<' by {
        assert(is_digit(decimal(n)[k]));
    }
}

/// The arguments of `AddPortMapping` can be told apart.
#[verifier::rlimit(40)]
proof fn lemma_add_arguments_are_plain(
    external_port: nat,
    internal_host: Seq<char>,
    internal_port: nat,
    protocol: Seq<char>,
    description: Seq<char>,
    lease_duration: nat,
)
    requires
        !internal_host.contains('<'),
        !protocol.contains('<'),
        !description.contains('<'),
    ensures
        plain_arguments(
            add_arguments(
                external_port,
                internal_host,
                internal_port,
                protocol,
                description,
                lease_duration,
            ),
        ),
{
    reveal_strlit("NewRemoteHost");
    reveal_strlit("NewExternalPort");
    reveal_strlit("NewProtocol");
    reveal_strlit("NewInternalPort");
    reveal_strlit("NewInternalClient");
    reveal_strlit("NewEnabled");
    reveal_strlit("NewPortMappingDescription");
    reveal_strlit("NewLeaseDuration");
    reveal_strlit("1");
    lemma_decimal_is_plain(external_port);
    lemma_decimal_is_plain(internal_port);
    lemma_decimal_is_plain(lease_duration);
    let args = add_arguments(
        external_port,
        internal_host,
        internal_port,
        protocol,
        description,
        lease_duration,
    );
    assert(is_argument_name("NewRemoteHost"@));
    assert(is_argument_name("NewExternalPort"@));
    assert(is_argument_name("NewProtocol"@));
    assert(is_argument_name("NewInternalPort"@));
    assert(is_argument_name("NewInternalClient"@));
    assert(is_argument_name("NewEnabled"@));
    assert(is_argument_name("NewPortMappingDescription"@));
    assert(is_argument_name("NewLeaseDuration"@));
    assert("NewExternalPort"@[3] != "NewInternalPort"@[3]);
    assert("NewRemoteHost"@.len() == 13);
    assert("NewExternalPort"@.len() == 15);
    assert("NewProtocol"@.len() == 11);
    assert("NewInternalPort"@.len() == 15);
    assert("NewInternalClient"@.len() == 17);
    assert("NewEnabled"@.len() == 10);
    assert("NewPortMappingDescription"@.len() == 25);
    assert("NewLeaseDuration"@.len() == 16);
    assert forall|i: int, j: int| 0 <= i < j < args.len() implies (#[trigger] args[i]).0 != (
    #[trigger] args[j]).0 by {}
}

/// A request for a mapping carries the whole mapping: read as an entry, its body gives
/// back the ports, the protocol, the client, the description and the lease.
#[verifier::rlimit(40)]
pub proof fn law_added_mapping_reads_back(
    url: Seq<char>,
    external_port: u16,
    internal_host: Seq<char>,
    internal_port: u16,
    protocol: Seq<char>,
    description: Seq<char>,
    lease_duration: u32,
)
    requires
        !internal_host.contains('<'),
        !protocol.contains('<'),
        !description.contains('<'),
    ensures
        ({
            let args = add_arguments(
                external_port as nat,
                internal_host,
                internal_port as nat,
                protocol,
                description,
                lease_duration as nat,
            );
            let request = soap_request(
                url,
                "AddPortMapping"@,
                action_text("AddPortMapping"@, args),
            );
            &&& entry_readable(request.body)
            &&& entry_of(request.body) == Ok::<PortMappingEntryView, UpnpErrorView>(
                PortMappingEntryView {
                    external_port: external_port as nat,
                    protocol,
                    internal_client: internal_host,
                    internal_port: internal_port as nat,
                    description,
                    enabled: true,
                    lease_duration: lease_duration as nat,
                },
            )
        }),
{
    let action = "AddPortMapping"@;
    assert(!action.contains('<')) by {
        reveal_strlit("AddPortMapping");
    }
    let args = add_arguments(
        external_port as nat,
        internal_host,
        internal_port as nat,
        protocol,
        description,
        lease_duration as nat,
    );
    lemma_add_arguments_are_plain(
        external_port as nat,
        internal_host,
        internal_port as nat,
        protocol,
        description,
        lease_duration as nat,
    );
    law_request_reads_back(action, args, 1);
    law_request_reads_back(action, args, 2);
    law_request_reads_back(action, args, 3);
    law_request_reads_back(action, args, 4);
    law_request_reads_back(action, args, 5);
    law_request_reads_back(action, args, 6);
    law_request_reads_back(action, args, 7);
    law_decimal_reads_back(external_port as nat, u16::MAX as nat);
    law_decimal_reads_back(internal_port as nat, u16::MAX as nat);
    law_decimal_reads_back(lease_duration as nat, u32::MAX as nat);
}

/// A request to delete a mapping carries the port and the protocol of that mapping.
#[verifier::rlimit(40)]
pub proof fn law_deleted_mapping_reads_back(
    url: Seq<char>,
    external_port: u16,
    protocol: Seq<char>,
)
    requires
        !protocol.contains('<'),
    ensures
        ({
            let request = soap_request(
                url,
                "DeletePortMapping"@,
                action_text(
                    "DeletePortMapping"@,
                    delete_arguments(external_port as nat, protocol),
                ),
            );
            &&& port_value(
                request.body,
                "NewExternalPort"@,
                UpnpErrorView::InvalidExternalPort,
            ) == Ok::<nat, UpnpErrorView>(external_port as nat)
            &&& required_value(request.body, "NewProtocol"@) == Ok::<Seq<char>, UpnpErrorView>(
                protocol,
            )
        }),
{
    let action = "DeletePortMapping"@;
    assert(!action.contains('<')) by {
        reveal_strlit("DeletePortMapping");
    }
    let args = delete_arguments(external_port as nat, protocol);
    let full = add_arguments(
        external_port as nat,
        Seq::empty(),
        0,
        protocol,
        Seq::empty(),
        0,
    );
    lemma_add_arguments_are_plain(
        external_port as nat,
        Seq::empty(),
        0,
        protocol,
        Seq::empty(),
        0,
    );
    assert forall|i: int| 0 <= i < args.len() implies #[trigger] args[i] == full[i] by {}
    law_request_reads_back(action, args, 1);
    law_request_reads_back(action, args, 2);
    law_decimal_reads_back(external_port as nat, u16::MAX as nat);
}

} // verus!
