//! Decisions about `DNSEndpoint` resources: those that carry the managed annotation get
//! the external address as the target of their A records.

use crate::entries::{entry_views, find_entry, lookup, Entry, EntryView};
use crate::text::{opt, same, views};
use vstd::prelude::*;
use vstd::string::*;

verus! {

/// The annotation by which a resource asks to be managed.
pub const MANAGED_ANNOTATION: &'static str = "upnp-controller.io/managed";

/// The name of the resource definition without which there is nothing to manage.
pub const CRD_NAME: &'static str = "dnsendpoints.externaldns.k8s.io";

/// Seconds until a resource is looked at again.
pub const REQUEUE_SECS: u64 = 60;

/// Seconds until a resource is looked at again while no external address is known.
pub const ADDRESS_REQUEUE_SECS: u64 = 10;

/// Seconds until a failed reconciliation is tried again.
pub const ERROR_REQUEUE_SECS: u64 = 30;

/// The records of a `DNSEndpoint`.
#[derive(Debug, Clone)]
pub struct DNSEndpointSpec {
    pub endpoints: Vec<Endpoint>,
}

/// One record.
#[derive(Debug, Clone)]
pub struct Endpoint {
    pub dns_name: String,
    pub record_type: String,
    pub record_ttl: Option<i64>,
    pub targets: Vec<String>,
}

/// The view of an [`Endpoint`].
pub struct EndpointView {
    pub dns_name: Seq<char>,
    pub record_type: Seq<char>,
    pub record_ttl: Option<i64>,
    pub targets: Seq<Seq<char>>,
}

impl View for Endpoint {
    type V = EndpointView;

    open spec fn view(&self) -> EndpointView {
        EndpointView {
            dns_name: self.dns_name@,
            record_type: self.record_type@,
            record_ttl: self.record_ttl,
            targets: views(self.targets@),
        }
    }
}

impl View for DNSEndpointSpec {
    type V = Seq<EndpointView>;

    open spec fn view(&self) -> Seq<EndpointView> {
        self.endpoints@.map_values(|e: Endpoint| e@)
    }
}

/// A record that is to point to the external address.
pub open spec fn is_a_record(e: EndpointView) -> bool {
    e.record_type == "A"@
}

/// The record needs no change: it is no A record, or its only target is `ip`.
pub open spec fn is_correct(e: EndpointView, ip: Seq<char>) -> bool {
    !is_a_record(e) || e.targets == seq![ip]
}

/// No record needs a change.
pub open spec fn all_correct(endpoints: Seq<EndpointView>, ip: Seq<char>) -> bool {
    forall|i: int| 0 <= i < endpoints.len() ==> is_correct(#[trigger] endpoints[i], ip)
}

/// The record with `ip` as the only target of an A record.
pub open spec fn retargeted(e: EndpointView, ip: Seq<char>) -> EndpointView {
    if is_a_record(e) {
        EndpointView { targets: seq![ip], ..e }
    } else {
        e
    }
}

/// The records, with `ip` as the only target of every A record.
pub open spec fn all_retargeted(endpoints: Seq<EndpointView>, ip: Seq<char>) -> Seq<EndpointView> {
    endpoints.map_values(|e: EndpointView| retargeted(e, ip))
}

/// What to do about a `DNSEndpoint`.
#[derive(Debug, Clone)]
pub enum DnsPlan {
    /// Nothing until it changes.
    Leave,
    /// Look again after so many seconds.
    Requeue(u64),
    /// Write these records, and look again after [`REQUEUE_SECS`].
    Patch(DNSEndpointSpec),
}

/// The view of a [`DnsPlan`].
pub enum DnsPlanView {
    Leave,
    Requeue(u64),
    Patch(Seq<EndpointView>),
}

impl View for DnsPlan {
    type V = DnsPlanView;

    open spec fn view(&self) -> DnsPlanView {
        match *self {
            DnsPlan::Leave => DnsPlanView::Leave,
            DnsPlan::Requeue(secs) => DnsPlanView::Requeue(secs),
            DnsPlan::Patch(spec) => DnsPlanView::Patch(spec@),
        }
    }
}

/// The seconds after which a resource is looked at again once the plan has been carried
/// out; `None` where that is only when it changes.
pub open spec fn dns_requeue(plan: DnsPlanView) -> Option<u64> {
    match plan {
        DnsPlanView::Leave => None,
        DnsPlanView::Requeue(secs) => Some(secs),
        DnsPlanView::Patch(_) => Some(REQUEUE_SECS),
    }
}

impl DnsPlan {
    /// The seconds after which the resource is looked at again; `None` where that is
    /// only when it changes.
    pub fn requeue_after(&self) -> (secs: Option<u64>)
        ensures
            secs == dns_requeue(self@),
    {
        match self {
            DnsPlan::Leave => None,
            DnsPlan::Requeue(secs) => Some(*secs),
            DnsPlan::Patch(_) => Some(REQUEUE_SECS),
        }
    }
}

/// The annotations ask for the resource to be managed.
pub open spec fn is_managed(annotations: Seq<EntryView>) -> bool {
    lookup(annotations, MANAGED_ANNOTATION@) == Some("true"@)
}

/// What to do about a `DNSEndpoint`.
pub open spec fn dns_plan(
    annotations: Seq<EntryView>,
    endpoints: Seq<EndpointView>,
    wan_ip: Option<Seq<char>>,
) -> DnsPlanView {
    if !is_managed(annotations) {
        DnsPlanView::Leave
    } else {
        match wan_ip {
            None => DnsPlanView::Requeue(ADDRESS_REQUEUE_SECS),
            Some(ip) => if all_correct(endpoints, ip) {
                DnsPlanView::Requeue(REQUEUE_SECS)
            } else {
                DnsPlanView::Patch(all_retargeted(endpoints, ip))
            },
        }
    }
}

impl Endpoint {
    /// The record needs no change.
    fn correct(&self, ip: &str) -> (r: bool)
        ensures
            r == is_correct(self@, ip@),
    {
        if !same(self.record_type.as_str(), "A") {
            return true;
        }
        if self.targets.len() != 1 {
            assert(views(self.targets@).len() != seq![ip@].len());
            return false;
        }
        let r = same(self.targets[0].as_str(), ip);
        assert(views(self.targets@)[0] == self.targets[0]@);
        assert(r ==> views(self.targets@) =~= seq![ip@]);
        r
    }

    /// A copy of the record, with `ip` as the only target of an A record.
    fn retarget(&self, ip: &str) -> (e: Endpoint)
        ensures
            e@ == retargeted(self@, ip@),
    {
        let mut targets: Vec<String> = Vec::new();
        if same(self.record_type.as_str(), "A") {
            targets.push(ip.to_owned());
            assert(views(targets@) =~= seq![ip@]);
        } else {
            let mut i: usize = 0;
            while i < self.targets.len()
                invariant
                    i <= self.targets.len(),
                    views(targets@) =~= views(self.targets@).take(i as int),
                decreases self.targets.len() - i,
            {
                let ghost earlier = targets@;
                targets.push(self.targets[i].clone());
                assert(views(targets@) =~= views(earlier).push(self.targets[i as int]@));
                i += 1;
            }
            assert(views(targets@) =~= views(self.targets@));
        }
        Endpoint {
            dns_name: self.dns_name.clone(),
            record_type: self.record_type.clone(),
            record_ttl: self.record_ttl,
            targets,
        }
    }
}

/// Decides what to do about a `DNSEndpoint` while `wan_ip` is the external address.
pub fn reconcile(
    annotations: &Vec<Entry>,
    spec: &DNSEndpointSpec,
    wan_ip: &Option<String>,
) -> (plan: DnsPlan)
    ensures
        plan@ == dns_plan(entry_views(annotations@), spec@, opt(*wan_ip)),
{
    let managed = match find_entry(annotations, MANAGED_ANNOTATION) {
        Some(value) => same(value, "true"),
        None => false,
    };
    if !managed {
        return DnsPlan::Leave;
    }
    let ip = match wan_ip {
        Some(ip) => ip.as_str(),
        None => {
            return DnsPlan::Requeue(ADDRESS_REQUEUE_SECS);
        },
    };
    let mut already_correct = true;
    let mut endpoints: Vec<Endpoint> = Vec::new();
    let mut i: usize = 0;
    while i < spec.endpoints.len()
        invariant
            i <= spec.endpoints.len(),
            already_correct == all_correct(spec@.take(i as int), ip@),
            endpoints@.map_values(|e: Endpoint| e@) =~= all_retargeted(spec@.take(i as int), ip@),
        decreases spec.endpoints.len() - i,
    {
        let endpoint = &spec.endpoints[i];
        let correct = endpoint.correct(ip);
        let ghost earlier = endpoints@;
        proof {
            let done = spec@.take(i as int);
            let next = spec@.take(i + 1);
            assert(next =~= done.push(endpoint@));
            assert(all_correct(next, ip@) == (all_correct(done, ip@) && is_correct(
                endpoint@,
                ip@,
            ))) by {
                if all_correct(next, ip@) {
                    assert forall|k: int| 0 <= k < done.len() implies is_correct(
                        #[trigger] done[k],
                        ip@,
                    ) by {
                        assert(done[k] == next[k]);
                    }
                    assert(next[i as int] == endpoint@);
                }
            }
        }
        already_correct = already_correct && correct;
        endpoints.push(endpoint.retarget(ip));
        assert(endpoints@.map_values(|e: Endpoint| e@) =~= earlier.map_values(
            |e: Endpoint| e@,
        ).push(retargeted(endpoint@, ip@)));
        i += 1;
    }
    assert(spec@.take(i as int) =~= spec@);
    if already_correct {
        DnsPlan::Requeue(REQUEUE_SECS)
    } else {
        DnsPlan::Patch(DNSEndpointSpec { endpoints })
    }
}

/// Whether a resource definition that has appeared is the one that is waited for.
pub fn is_awaited_crd(name: &Option<String>) -> (r: bool)
    ensures
        r == (opt(*name) == Some(CRD_NAME@)),
{
    match name {
        Some(n) => same(n.as_str(), CRD_NAME),
        None => false,
    }
}

/// The field selector for the resource definition that is waited for.
pub fn crd_selector() -> (selector: String)
    ensures
        selector@ == "metadata.name="@ + CRD_NAME@,
{
    "metadata.name=".to_owned().concat(CRD_NAME)
}

/// Records that have been written need no further change while the address stays.
pub proof fn law_patched_is_settled(
    annotations: Seq<EntryView>,
    endpoints: Seq<EndpointView>,
    ip: Seq<char>,
)
    requires
        is_managed(annotations),
    ensures
        dns_plan(annotations, all_retargeted(endpoints, ip), Some(ip)) == DnsPlanView::Requeue(
            REQUEUE_SECS,
        ),
{
    let written = all_retargeted(endpoints, ip);
    assert forall|i: int| 0 <= i < written.len() implies is_correct(#[trigger] written[i], ip) by {
        assert(written[i] == retargeted(endpoints[i], ip));
    }
}

/// A patch changes nothing but the targets of A records.
pub proof fn law_only_targets_change(
    annotations: Seq<EntryView>,
    endpoints: Seq<EndpointView>,
    wan_ip: Option<Seq<char>>,
    i: int,
)
    requires
        0 <= i < endpoints.len(),
        dns_plan(annotations, endpoints, wan_ip) is Patch,
    ensures
        ({
            let written = dns_plan(annotations, endpoints, wan_ip)->Patch_0;
            &&& written.len() == endpoints.len()
            &&& written[i].dns_name == endpoints[i].dns_name
            &&& written[i].record_type == endpoints[i].record_type
            &&& written[i].record_ttl == endpoints[i].record_ttl
            &&& !is_a_record(endpoints[i]) ==> written[i] == endpoints[i]
            &&& is_a_record(endpoints[i]) ==> Some(written[i].targets) == (match wan_ip {
                Some(ip) => Some(seq![ip]),
                None => None,
            })
        }),
{
}

} // verus!
