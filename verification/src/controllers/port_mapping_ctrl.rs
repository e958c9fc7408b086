//! Decisions about `PortMapping` resources: when a mapping is added or renewed on the
//! router, and what its status says.

use crate::crds::port_mapping::{
    Condition, ConditionView, PortMappingSpec, PortMappingSpecView, PortMappingStatus,
    PortMappingStatusView,
};
use crate::lists::{lemma_push, lemma_remove};
use crate::text::{opt, same};
use crate::time::{whole_seconds, Timestamp, MAX_SECS};
use crate::upnp::port_mapping::{
    action_text, add_arguments, delete_arguments, entry_of, error_message,
    law_added_mapping_reads_back, law_deleted_mapping_reads_back, port_value, required_value,
    soap_request, PortMappingEntryView, SoapRequestView, UpnpError, UpnpErrorView,
};
use vstd::prelude::*;
use vstd::string::*;

verus! {

/// The finalizer that keeps a resource until its mapping is off the router.
pub const FINALIZER: &'static str = "upnp-controller.io/cleanup";

/// The lease that is asked for, in seconds.
pub const DEFAULT_LEASE_SECS: u32 = 3600;

/// How many seconds before its expiry a lease is renewed.
pub const RENEWAL_BUFFER_SECS: i64 = 30;

/// Seconds until a mapping that could not be added is tried again.
pub const FAILURE_REQUEUE_SECS: u64 = 60;

/// The reason under which such a failure is counted.
pub const ADD_FAILED_REASON: &'static str = "add_failed";

/// Seconds until a permanent mapping is added again.
pub const PERMANENT_REQUEUE_SECS: u64 = 3600;

/// Seconds until a failed reconciliation is tried again.
pub const ERROR_REQUEUE_SECS: u64 = 30;

// ---------------------------------------------------------------------------
// Adding and renewing a mapping
// ---------------------------------------------------------------------------

/// A mapping to be put on the router.
#[derive(Debug, Clone)]
pub struct AddMapping {
    pub external_port: u16,
    pub internal_host: String,
    pub internal_port: u16,
    pub protocol: String,
    pub description: String,
    pub lease_secs: u32,
}

/// The view of an [`AddMapping`].
pub struct AddMappingView {
    pub external_port: u16,
    pub internal_host: Seq<char>,
    pub internal_port: u16,
    pub protocol: Seq<char>,
    pub description: Seq<char>,
    pub lease_secs: u32,
}

impl View for AddMapping {
    type V = AddMappingView;

    open spec fn view(&self) -> AddMappingView {
        AddMappingView {
            external_port: self.external_port,
            internal_host: self.internal_host@,
            internal_port: self.internal_port,
            protocol: self.protocol@,
            description: self.description@,
            lease_secs: self.lease_secs,
        }
    }
}

/// What to do with a `PortMapping` that is to be on the router.
#[derive(Debug, Clone)]
pub enum ApplyPlan {
    /// Nothing: the controller is shutting down.
    Leave,
    /// Nothing yet: look again after so many seconds.
    Wait(u64),
    /// Put the mapping on the router.
    Add(AddMapping),
}

/// The view of an [`ApplyPlan`].
pub enum ApplyPlanView {
    Leave,
    Wait(u64),
    Add(AddMappingView),
}

impl View for ApplyPlan {
    type V = ApplyPlanView;

    open spec fn view(&self) -> ApplyPlanView {
        match *self {
            ApplyPlan::Leave => ApplyPlanView::Leave,
            ApplyPlan::Wait(secs) => ApplyPlanView::Wait(secs),
            ApplyPlan::Add(add) => ApplyPlanView::Add(add@),
        }
    }
}

/// The view of an optional status.
pub open spec fn status_view(status: Option<PortMappingStatus>) -> Option<PortMappingStatusView> {
    match status {
        Some(s) => Some(s@),
        None => None,
    }
}

/// The lease expiry of a mapping that is on the router.
pub open spec fn active_lease(status: Option<PortMappingStatusView>) -> Option<Timestamp> {
    match status {
        Some(s) => if s.active {
            s.lease_expiry
        } else {
            None
        },
        None => None,
    }
}

/// The whole seconds that are left of a lease.
pub open spec fn seconds_left(expiry: Timestamp, now: Timestamp) -> int {
    whole_seconds(expiry.total_nanos() - now.total_nanos())
}

/// The lease of an active mapping has more than the renewal buffer left.
pub open spec fn lease_is_fresh(status: Option<PortMappingStatusView>, now: Timestamp) -> bool {
    active_lease(status) matches Some(expiry) && seconds_left(expiry, now) > RENEWAL_BUFFER_SECS
}

/// The mapping that `spec` asks for. It is described by the resource's name where the
/// resource has no description.
pub open spec fn wanted_mapping(name: Seq<char>, spec: PortMappingSpecView) -> AddMappingView {
    AddMappingView {
        external_port: spec.external_port,
        internal_host: spec.internal_host,
        internal_port: spec.internal_port,
        protocol: spec.protocol.name(),
        description: match spec.description {
            Some(text) => text,
            None => name,
        },
        lease_secs: DEFAULT_LEASE_SECS,
    }
}

/// What to do with a `PortMapping` at `now`: wait until the renewal buffer before the
/// expiry of a fresh lease, and add the mapping otherwise. During a shutdown nothing is
/// added.
pub open spec fn apply_plan(
    name: Seq<char>,
    spec: PortMappingSpecView,
    status: Option<PortMappingStatusView>,
    now: Timestamp,
    shutting_down: bool,
) -> ApplyPlanView {
    if lease_is_fresh(status, now) {
        ApplyPlanView::Wait(
            (seconds_left(active_lease(status)->0, now) - RENEWAL_BUFFER_SECS) as u64,
        )
    } else if shutting_down {
        ApplyPlanView::Leave
    } else {
        ApplyPlanView::Add(wanted_mapping(name, spec))
    }
}

/// Decides what to do at `now` with a `PortMapping` that is to be on the router.
pub fn reconcile_apply(
    name: &str,
    spec: &PortMappingSpec,
    status: &Option<PortMappingStatus>,
    now: Timestamp,
    shutting_down: bool,
) -> (plan: ApplyPlan)
    requires
        now.wf(),
        active_lease(status_view(*status)) matches Some(expiry) ==> expiry.wf(),
    ensures
        plan@ == apply_plan(name@, spec@, status_view(*status), now, shutting_down),
{
    if let Some(status) = status {
        if status.active {
            if let Some(expiry) = status.lease_expiry {
                let left: i64 = expiry.seconds_since(&now);
                if left > RENEWAL_BUFFER_SECS {
                    return ApplyPlan::Wait((left - RENEWAL_BUFFER_SECS) as u64);
                }
            }
        }
    }
    if shutting_down {
        return ApplyPlan::Leave;
    }
    let description = match &spec.description {
        Some(text) => text.clone(),
        None => name.to_owned(),
    };
    ApplyPlan::Add(
        AddMapping {
            external_port: spec.external_port,
            internal_host: spec.internal_host.clone(),
            internal_port: spec.internal_port,
            protocol: spec.protocol.to_string(),
            description,
            lease_secs: DEFAULT_LEASE_SECS,
        },
    )
}

/// A mapping that the router has just accepted.
#[derive(Debug, Clone, Copy)]
pub struct Established {
    pub renewed: Timestamp,
    /// `None` for a permanent mapping.
    pub lease_expiry: Option<Timestamp>,
}

impl Established {
    /// The instants lie in the calendar.
    pub open spec fn wf(self) -> bool {
        self.renewed.wf() && (self.lease_expiry matches Some(expiry) ==> expiry.wf())
    }
}

/// The expiry of a lease of `secs` seconds from `now`; a lease of zero seconds does
/// not expire.
pub open spec fn lease_end(now: Timestamp, secs: u32) -> Option<Timestamp> {
    if secs > 0 {
        Some(now.later(secs as nat))
    } else {
        None
    }
}

/// The condition on which a status rests.
pub open spec fn active_condition(
    status: Seq<char>,
    reason: Seq<char>,
    message: Option<Seq<char>>,
    now: Timestamp,
) -> ConditionView {
    ConditionView { type_: "Active"@, status, reason, message, last_transition_time: Some(now) }
}

/// The status of a mapping that is on the router.
pub open spec fn established_status(e: Established, external_ip: Option<Seq<char>>) -> PortMappingStatusView {
    PortMappingStatusView {
        active: true,
        external_ip,
        lease_expiry: e.lease_expiry,
        last_renewal: Some(e.renewed),
        conditions: seq![active_condition("True"@, "MappingEstablished"@, None, e.renewed)],
    }
}

/// The status of a mapping that could not be added.
pub open spec fn failed_status(message: Seq<char>, now: Timestamp) -> PortMappingStatusView {
    PortMappingStatusView {
        active: false,
        external_ip: None,
        lease_expiry: None,
        last_renewal: None,
        conditions: seq![active_condition("False"@, "AddFailed"@, Some(message), now)],
    }
}

/// The seconds until a mapping on the router is looked at again: until the renewal
/// buffer before its expiry, but at least ten.
pub open spec fn requeue_secs(e: Established, now: Timestamp) -> int {
    match e.lease_expiry {
        Some(expiry) => if seconds_left(expiry, now) - RENEWAL_BUFFER_SECS > 10 {
            seconds_left(expiry, now) - RENEWAL_BUFFER_SECS
        } else {
            10
        },
        None => PERMANENT_REQUEUE_SECS as int,
    }
}

/// What came of putting a mapping on the router.
#[derive(Debug, Clone)]
pub enum AddOutcome {
    /// It is there; the status follows once the external address has been asked for.
    Established(Established),
    /// It is not; this is the status to write. It is tried again after
    /// [`FAILURE_REQUEUE_SECS`].
    Failed(PortMappingStatus),
}

/// A list of one condition.
fn only_condition(
    status: &str,
    reason: &str,
    message: Option<String>,
    now: Timestamp,
) -> (conditions: Vec<Condition>)
    ensures
        conditions@.map_values(|c: Condition| c@) == seq![
            active_condition(status@, reason@, opt(message), now),
        ],
{
    let mut conditions: Vec<Condition> = Vec::new();
    conditions.push(
        Condition {
            type_: "Active".to_owned(),
            status: status.to_owned(),
            reason: reason.to_owned(),
            message,
            last_transition_time: Some(now),
        },
    );
    assert(conditions@.map_values(|c: Condition| c@) =~= seq![
        active_condition(status@, reason@, opt(message), now),
    ]);
    conditions
}

/// Takes in what the router answered, at `now`, to the request for a mapping.
pub fn after_add(result: Result<u32, UpnpError>, now: Timestamp) -> (outcome: AddOutcome)
    requires
        now.wf(),
        result matches Ok(lease) ==> now.secs + lease <= MAX_SECS,
    ensures
        outcome.wf(),
        match result {
            Ok(lease) => outcome == AddOutcome::Established(
                Established { renewed: now, lease_expiry: lease_end(now, lease) },
            ),
            Err(e) => outcome matches AddOutcome::Failed(status) && status@ == failed_status(
                error_message(e@),
                now,
            ),
        },
{
    match result {
        Ok(lease) => {
            let lease_expiry = if lease > 0 {
                Some(now.plus_seconds(lease))
            } else {
                None
            };
            AddOutcome::Established(Established { renewed: now, lease_expiry })
        },
        Err(e) => AddOutcome::Failed(
            PortMappingStatus {
                active: false,
                external_ip: None,
                lease_expiry: None,
                last_renewal: None,
                conditions: only_condition("False", "AddFailed", Some(e.message()), now),
            },
        ),
    }
}

impl Established {
    /// The status to write, with the external address if it could be read.
    pub fn status(&self, external_ip: Option<String>) -> (status: PortMappingStatus)
        ensures
            status@ == established_status(*self, opt(external_ip)),
    {
        PortMappingStatus {
            active: true,
            external_ip,
            lease_expiry: self.lease_expiry,
            last_renewal: Some(self.renewed),
            conditions: only_condition("True", "MappingEstablished", None, self.renewed),
        }
    }

    /// The seconds until the mapping is looked at again, counted at `now`.
    pub fn requeue_after(&self, now: Timestamp) -> (secs: u64)
        requires
            self.wf(),
            now.wf(),
        ensures
            secs == requeue_secs(*self, now),
    {
        match self.lease_expiry {
            Some(expiry) => {
                let secs: i64 = expiry.seconds_since(&now) - RENEWAL_BUFFER_SECS;
                if secs > 10 {
                    secs as u64
                } else {
                    10
                }
            },
            None => PERMANENT_REQUEUE_SECS,
        }
    }
}

impl AddOutcome {
    /// The instants lie in the calendar.
    pub open spec fn wf(self) -> bool {
        self matches AddOutcome::Established(e) ==> e.wf()
    }

    /// The seconds until the resource is looked at again, counted at `now`.
    pub fn requeue_after(&self, now: Timestamp) -> (secs: u64)
        requires
            self.wf(),
            now.wf(),
        ensures
            match *self {
                AddOutcome::Established(e) => secs == requeue_secs(e, now),
                AddOutcome::Failed(_) => secs == FAILURE_REQUEUE_SECS,
            },
    {
        match self {
            AddOutcome::Established(e) => e.requeue_after(now),
            AddOutcome::Failed(_) => FAILURE_REQUEUE_SECS,
        }
    }
}

/// A mapping to be taken off the router.
#[derive(Debug, Clone)]
pub struct DeleteMapping {
    pub external_port: u16,
    pub protocol: String,
}

/// The mapping to take off the router when its resource goes.
pub fn reconcile_cleanup(spec: &PortMappingSpec) -> (delete: DeleteMapping)
    ensures
        delete.external_port == spec.external_port,
        delete.protocol@ == spec.protocol.name(),
{
    DeleteMapping { external_port: spec.external_port, protocol: spec.protocol.to_string() }
}

/// What follows the request to take a mapping off the router.
#[derive(Debug, Clone, Copy, PartialEq, Eq, Structural)]
pub struct CleanupOutcome {
    /// The finalizer is removed, and nothing more is done until the resource changes.
    pub may_go: bool,
    /// The mapping still counts among those that are on the router.
    pub still_counted: bool,
}

/// Takes in what the router answered to the request to delete a mapping. The resource
/// may go whatever the answer is, as the router may have let the lease expire already;
/// the mapping is counted no longer once the router has deleted it.
pub fn after_cleanup(result: &Result<(), UpnpError>) -> (outcome: CleanupOutcome)
    ensures
        outcome.may_go,
        outcome.still_counted == (result is Err),
{
    CleanupOutcome { may_go: true, still_counted: result.is_err() }
}

/// A mapping that is waited for is renewed before its lease ends: when the wait is
/// over the plan is to add it, and the renewal buffer is still left.
pub proof fn law_renewed_before_expiry(
    name: Seq<char>,
    spec: PortMappingSpecView,
    status: Option<PortMappingStatusView>,
    now: Timestamp,
    wait: u64,
)
    requires
        now.wf(),
        active_lease(status) matches Some(expiry) ==> expiry.wf(),
        apply_plan(name, spec, status, now, false) == ApplyPlanView::Wait(wait),
    ensures
        wait > 0,
        apply_plan(name, spec, status, now.later(wait as nat), false) == ApplyPlanView::Add(
            wanted_mapping(name, spec),
        ),
        seconds_left(active_lease(status)->0, now.later(wait as nat)) == RENEWAL_BUFFER_SECS,
{
}

/// A mapping with ten seconds of its lease left is looked at again before the lease
/// ends, and then renewed. With forty seconds left or more, that is when the renewal
/// buffer is reached.
pub proof fn law_requeued_for_renewal(
    name: Seq<char>,
    spec: PortMappingSpecView,
    e: Established,
    external_ip: Option<Seq<char>>,
    now: Timestamp,
)
    requires
        e.wf(),
        now.wf(),
        e.lease_expiry matches Some(expiry) && seconds_left(expiry, now) >= 10,
    ensures
        ({
            let then = now.later(requeue_secs(e, now) as nat);
            let status = Some(established_status(e, external_ip));
            &&& then.total_nanos() <= e.lease_expiry->0.total_nanos()
            &&& apply_plan(name, spec, status, then, false) == ApplyPlanView::Add(
                wanted_mapping(name, spec),
            )
            &&& seconds_left(e.lease_expiry->0, now) >= 40 ==> seconds_left(
                e.lease_expiry->0,
                then,
            ) == RENEWAL_BUFFER_SECS
        }),
{
}

/// A mapping whose addition failed is tried again: its status is not active, so the
/// plan at any later time is to add it.
pub proof fn law_failure_is_retried(
    name: Seq<char>,
    spec: PortMappingSpecView,
    message: Seq<char>,
    now: Timestamp,
    later: Timestamp,
)
    ensures
        apply_plan(name, spec, Some(failed_status(message, now)), later, false)
            == ApplyPlanView::Add(wanted_mapping(name, spec)),
{
}

/// Neither protocol's name holds markup.
proof fn lemma_protocol_is_plain(spec: PortMappingSpecView)
    ensures
        !spec.protocol.name().contains('<'),
{
    reveal_strlit("TCP");
    reveal_strlit("UDP");
}

/// The request for a wanted mapping.
pub open spec fn add_request(url: Seq<char>, add: AddMappingView) -> SoapRequestView {
    soap_request(
        url,
        "AddPortMapping"@,
        action_text(
            "AddPortMapping"@,
            add_arguments(
                add.external_port as nat,
                add.internal_host,
                add.internal_port as nat,
                add.protocol,
                add.description,
                add.lease_secs as nat,
            ),
        ),
    )
}

/// What a resource asks for arrives at the router: the request for its mapping, read as
/// an entry, has the ports, the host and the protocol of the resource, its description
/// or its name, and the lease that is asked for.
pub proof fn law_resource_reaches_the_router(
    url: Seq<char>,
    name: Seq<char>,
    spec: PortMappingSpecView,
)
    requires
        !name.contains('<'),
        !spec.internal_host.contains('<'),
        spec.description matches Some(text) ==> !text.contains('<'),
    ensures
        entry_of(add_request(url, wanted_mapping(name, spec)).body) == Ok::<
            PortMappingEntryView,
            UpnpErrorView,
        >(
            PortMappingEntryView {
                external_port: spec.external_port as nat,
                protocol: spec.protocol.name(),
                internal_client: spec.internal_host,
                internal_port: spec.internal_port as nat,
                description: match spec.description {
                    Some(text) => text,
                    None => name,
                },
                enabled: true,
                lease_duration: DEFAULT_LEASE_SECS as nat,
            },
        ),
{
    let wanted = wanted_mapping(name, spec);
    lemma_protocol_is_plain(spec);
    law_added_mapping_reads_back(
        url,
        wanted.external_port,
        wanted.internal_host,
        wanted.internal_port,
        wanted.protocol,
        wanted.description,
        wanted.lease_secs,
    );
}

/// The cleanup of a resource deletes the mapping that was added for it: the request
/// names its external port and its protocol.
pub proof fn law_cleanup_deletes_what_was_added(url: Seq<char>, spec: PortMappingSpecView)
    ensures
        ({
            let body = soap_request(
                url,
                "DeletePortMapping"@,
                action_text(
                    "DeletePortMapping"@,
                    delete_arguments(spec.external_port as nat, spec.protocol.name()),
                ),
            ).body;
            &&& port_value(body, "NewExternalPort"@, UpnpErrorView::InvalidExternalPort) == Ok::<
                nat,
                UpnpErrorView,
            >(spec.external_port as nat)
            &&& required_value(body, "NewProtocol"@) == Ok::<Seq<char>, UpnpErrorView>(
                spec.protocol.name(),
            )
        }),
{
    lemma_protocol_is_plain(spec);
    law_deleted_mapping_reads_back(url, spec.external_port, spec.protocol.name());
}

// ---------------------------------------------------------------------------
// Errors
// ---------------------------------------------------------------------------

/// Why a reconciliation failed.
#[derive(Debug, Clone)]
pub enum ReconcileError {
    /// The cluster refused a request.
    Kube(String),
    /// The gateway refused a request.
    Upnp(String),
    Other(String),
}

impl ReconcileError {
    /// The message for the log.
    pub fn message(&self) -> (text: String)
        ensures
            text@ == match *self {
                ReconcileError::Kube(cause) => "Kube error: "@ + cause@,
                ReconcileError::Upnp(cause) => "UPnP error: "@ + cause@,
                ReconcileError::Other(cause) => cause@,
            },
    {
        match self {
            ReconcileError::Kube(cause) => "Kube error: ".to_owned().concat(cause.as_str()),
            ReconcileError::Upnp(cause) => "UPnP error: ".to_owned().concat(cause.as_str()),
            ReconcileError::Other(cause) => cause.clone(),
        }
    }
}

// ---------------------------------------------------------------------------
// Active mappings
// ---------------------------------------------------------------------------

/// A resource by its namespace and its name.
#[derive(Debug, Clone)]
struct MappingKey {
    namespace: String,
    name: String,
}

impl View for MappingKey {
    type V = (Seq<char>, Seq<char>);

    closed spec fn view(&self) -> (Seq<char>, Seq<char>) {
        (self.namespace@, self.name@)
    }
}

/// The resources whose mappings are on the router.
pub struct ActiveMappings {
    keys: Vec<MappingKey>,
}

/// The views of a list of keys.
spec fn key_views(keys: Seq<MappingKey>) -> Seq<(Seq<char>, Seq<char>)> {
    keys.map_values(|k: MappingKey| k@)
}

impl View for ActiveMappings {
    /// Namespaces and names.
    type V = Set<(Seq<char>, Seq<char>)>;

    closed spec fn view(&self) -> Set<(Seq<char>, Seq<char>)> {
        key_views(self.keys@).to_set()
    }
}

/// The resources that are counted after the cleanup of one of them.
pub open spec fn counted_after_cleanup(
    active: Set<(Seq<char>, Seq<char>)>,
    key: (Seq<char>, Seq<char>),
    outcome: CleanupOutcome,
) -> Set<(Seq<char>, Seq<char>)> {
    if outcome.still_counted {
        active
    } else {
        active.remove(key)
    }
}

/// The number of active mappings drops by one when one of them has been deleted from the
/// router, and stays when the router refused.
pub proof fn law_cleanup_is_counted(
    active: Set<(Seq<char>, Seq<char>)>,
    key: (Seq<char>, Seq<char>),
    outcome: CleanupOutcome,
)
    requires
        active.finite(),
        active.contains(key),
    ensures
        counted_after_cleanup(active, key, outcome).len() == if outcome.still_counted {
            active.len() as int
        } else {
            active.len() - 1
        },
{
}

impl ActiveMappings {
    /// Every resource is listed once.
    pub closed spec fn wf(self) -> bool {
        key_views(self.keys@).no_duplicates()
    }

    /// No mapping is on the router.
    pub fn new() -> (active: ActiveMappings)
        ensures
            active.wf(),
            active@ == Set::<(Seq<char>, Seq<char>)>::empty(),
    {
        let active = ActiveMappings { keys: Vec::new() };
        assert(active@ =~= Set::<(Seq<char>, Seq<char>)>::empty());
        active
    }

    /// The place of a resource in the list.
    fn index_of(&self, namespace: &str, name: &str) -> (r: Option<usize>)
        ensures
            match r {
                Some(i) => i < self.keys@.len() && self.keys@[i as int]@ == (namespace@, name@),
                None => !self@.contains((namespace@, name@)),
            },
    {
        let ghost all = key_views(self.keys@);
        let mut i: usize = 0;
        while i < self.keys.len()
            invariant
                i <= self.keys.len(),
                all == key_views(self.keys@),
                forall|k: int| 0 <= k < i ==> #[trigger] all[k] != (namespace@, name@),
            decreases self.keys.len() - i,
        {
            assert(all[i as int] == self.keys@[i as int]@);
            if same(self.keys[i].namespace.as_str(), namespace) && same(
                self.keys[i].name.as_str(),
                name,
            ) {
                return Some(i);
            }
            i += 1;
        }
        None
    }

    /// Takes in whether the mapping of a resource is on the router.
    pub fn observe(&mut self, namespace: &str, name: &str, active: bool)
        requires
            old(self).wf(),
        ensures
            final(self).wf(),
            final(self)@ == if active {
                old(self)@.insert((namespace@, name@))
            } else {
                old(self)@.remove((namespace@, name@))
            },
    {
        let ghost key = (namespace@, name@);
        let ghost before = key_views(self.keys@);
        match self.index_of(namespace, name) {
            Some(i) => {
                assert(before[i as int] == key);
                assert(before.to_set().contains(key));
                if active {
                    assert(before.to_set().insert(key) =~= before.to_set());
                } else {
                    self.keys.remove(i);
                    proof {
                        assert(key_views(self.keys@) =~= before.remove(i as int));
                        lemma_remove(before, i as int);
                    }
                }
            },
            None => {
                if active {
                    self.keys.push(
                        MappingKey { namespace: namespace.to_owned(), name: name.to_owned() },
                    );
                    proof {
                        assert(key_views(self.keys@) =~= before.push(key));
                        lemma_push(before, key);
                    }
                } else {
                    assert(before.to_set().remove(key) =~= before.to_set());
                }
            },
        }
    }

    /// Takes in the cleanup of a resource.
    pub fn cleaned_up(&mut self, namespace: &str, name: &str, outcome: CleanupOutcome)
        requires
            old(self).wf(),
        ensures
            final(self).wf(),
            final(self)@ == counted_after_cleanup(old(self)@, (namespace@, name@), outcome),
    {
        if !outcome.still_counted {
            self.observe(namespace, name, false);
        }
    }

    /// How many mappings are on the router.
    pub fn count(&self) -> (n: usize)
        requires
            self.wf(),
        ensures
            n == self@.len(),
            self@.finite(),
    {
        proof {
            key_views(self.keys@).unique_seq_to_set();
        }
        self.keys.len()
    }
}

} // verus!
