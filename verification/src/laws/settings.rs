//! Settings, and what the controller decides when it starts and stops.

use crate::config::{callback_url, host, settings, ConfigView};
use crate::entries::{lookup, EntryView};
use crate::laws::text::law_split_once;
use crate::lifecycle::{deletion_of, Listed};
use crate::text::{decimal, parse_unsigned};
use vstd::prelude::*;
use vstd::string::*;

verus! {

/// The number of a variable, or what stands for it where it is unset or holds none.
pub open spec fn number_or(
    vars: Seq<EntryView>,
    name: Seq<char>,
    max: nat,
    default: nat,
) -> nat {
    if lookup(vars, name) matches Some(value) && parse_unsigned(value, max) is Some {
        parse_unsigned(lookup(vars, name)->0, max)->0
    } else {
        default
    }
}

/// The text of a variable, or what stands for it where it is unset.
pub open spec fn set_or(vars: Seq<EntryView>, name: Seq<char>, default: Seq<char>) -> Seq<char> {
    if lookup(vars, name) is Some {
        lookup(vars, name)->0
    } else {
        default
    }
}

/// Every setting comes from its own variable, and has its own default.
pub proof fn law_settings(vars: Seq<EntryView>)
    ensures
        ({
            let cfg = settings(vars);
            &&& cfg.gateway_url == Some(
                set_or(vars, "GATEWAY_URL"@, "http://192.168.0.1:5000/rootDesc.xml"@),
            )
            &&& cfg.notify_port == number_or(vars, "NOTIFY_PORT"@, 65535, 9091)
            &&& cfg.metrics_port == number_or(vars, "METRICS_PORT"@, 65535, 9090)
            &&& cfg.poll_interval_secs == number_or(
                vars,
                "POLL_INTERVAL_SECS"@,
                0xffff_ffff_ffff_ffff,
                300,
            )
            &&& cfg.poll_interval_fast_secs == number_or(
                vars,
                "POLL_INTERVAL_FAST_SECS"@,
                0xffff_ffff_ffff_ffff,
                10,
            )
            &&& cfg.gena_enabled == !(lookup(vars, "GENA_ENABLED"@) == Some("false"@) || lookup(
                vars,
                "GENA_ENABLED"@,
            ) == Some("0"@))
            &&& cfg.log_level == set_or(vars, "LOG_LEVEL"@, "warn"@)
            &&& cfg.leader_election_namespace == set_or(
                vars,
                "LEADER_ELECTION_NAMESPACE"@,
                "upnp-controller"@,
            )
            &&& cfg.pod_ip == lookup(vars, "POD_IP"@)
            &&& cfg.lan_ip is None
        }),
{
}

/// The gateway is told to send its events to the controller's LAN address where it is
/// known, else to the pod's, and else to the loopback address, on the port for them.
pub proof fn law_callback_url(cfg: ConfigView)
    ensures
        cfg.lan_ip matches Some(ip) ==> callback_url(cfg) == "http://"@ + ip + ":"@ + decimal(
            cfg.notify_port as nat,
        ) + "/notify"@,
        cfg.lan_ip is None ==> (cfg.pod_ip matches Some(ip) ==> callback_url(cfg) == "http://"@
            + ip + ":"@ + decimal(cfg.notify_port as nat) + "/notify"@),
        cfg.lan_ip is None && cfg.pod_ip is None ==> callback_url(cfg) == "http://"@
            + "127.0.0.1"@ + ":"@ + decimal(cfg.notify_port as nat) + "/notify"@,
{
}

/// What stands behind the scheme decides the host.
proof fn lemma_host(scheme: Seq<char>, rest: Seq<char>)
    requires
        scheme == "http://"@ || scheme == "https://"@,
    ensures
        host(scheme + rest) == Some(
            crate::text::before(crate::text::before(rest, '/'), ':'),
        ),
{
    reveal_strlit("http://");
    reveal_strlit("https://");
    let url = scheme + rest;
    assert(url.subrange(0, scheme.len() as int) =~= scheme);
    assert(url.skip(scheme.len() as int) =~= rest);
    if scheme == "https://"@ {
        assert(url[4] == 's');
        if crate::text::begins_with(url, "http://"@) {
            assert(url.subrange(0, 7)[4] == url[4]);
        }
    }
}

/// The host of a URL is what stands between its scheme and the port or the path. What has
/// no such scheme has no host.
pub proof fn law_host(name: Seq<char>, port: Seq<char>, path: Seq<char>, secure: bool)
    requires
        !name.contains('/'),
        !name.contains(':'),
        !port.contains('/'),
    ensures
        ({
            let scheme = if secure { "https://"@ } else { "http://"@ };
            &&& host(scheme + name) == Some(name)
            &&& host(scheme + (name + seq!['/'] + path)) == Some(name)
            &&& host(scheme + (name + seq![':'] + port)) == Some(name)
            &&& host(scheme + (name + seq![':'] + port + seq!['/'] + path)) == Some(name)
            &&& host(name) is None
        }),
{
    let scheme = if secure { "https://"@ } else { "http://"@ };
    let with_port = name + seq![':'] + port;
    assert(!with_port.contains('/')) by {
        assert forall|i: int| 0 <= i < with_port.len() implies with_port[i] != '/' by {
            if i < name.len() {
                assert(name.contains(name[i]));
            } else if i > name.len() {
                assert(port.contains(port[i - name.len() - 1]));
            }
        }
    }
    lemma_host(scheme, name);
    lemma_host(scheme, name + seq!['/'] + path);
    lemma_host(scheme, with_port);
    lemma_host(scheme, with_port + seq!['/'] + path);
    law_split_once(name, '/', path);
    law_split_once(name, ':', port);
    law_split_once(with_port, '/', path);
    reveal_strlit("http://");
    reveal_strlit("https://");
    if crate::text::begins_with(name, "http://"@) {
        assert(name.subrange(0, 7)[5] == name[5]);
        assert(name.contains(name[5]));
    }
    if crate::text::begins_with(name, "https://"@) {
        assert(name.subrange(0, 8)[6] == name[6]);
        assert(name.contains(name[6]));
    }
}

/// A mapping is deleted under its own namespace and name.
pub proof fn law_deletion(listed: Listed)
    ensures
        listed.namespace matches Some(ns) ==> deletion_of(listed).0 == ns@,
        listed.namespace is None ==> deletion_of(listed).0 == "default"@,
        listed.name matches Some(name) ==> deletion_of(listed).1 == name@,
        listed.name is None ==> deletion_of(listed).1 == "?"@,
{
}

} // verus!
