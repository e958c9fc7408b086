//! The annotation of the controller's node with the external address.

use crate::config::NodeSettings;
use crate::text::opt;
use vstd::prelude::*;
use vstd::string::*;

verus! {

/// The annotation from which external-dns takes the external address.
pub const ANNOTATION_KEY: &'static str = "external-dns.alpha.kubernetes.io/target";

/// A change to one annotation of a node.
#[derive(Debug, Clone)]
pub struct NodePatch {
    pub node_name: String,
    pub key: String,
    /// The value to set; `None` takes the annotation away.
    pub value: Option<String>,
}

/// The view of a [`NodePatch`].
pub struct NodePatchView {
    pub node_name: Seq<char>,
    pub key: Seq<char>,
    pub value: Option<Seq<char>>,
}

impl View for NodePatch {
    type V = NodePatchView;

    open spec fn view(&self) -> NodePatchView {
        NodePatchView { node_name: self.node_name@, key: self.key@, value: opt(self.value) }
    }
}

/// The patch that annotates a node with the external address.
pub fn annotate_node_with_wan_ip(node_name: &str, wan_ip: &str) -> (patch: NodePatch)
    ensures
        patch@ == (NodePatchView {
            node_name: node_name@,
            key: ANNOTATION_KEY@,
            value: Some(wan_ip@),
        }),
{
    NodePatch {
        node_name: node_name.to_owned(),
        key: ANNOTATION_KEY.to_owned(),
        value: Some(wan_ip.to_owned()),
    }
}

/// The patch that takes the annotation away.
pub fn remove_node_annotation(node_name: &str) -> (patch: NodePatch)
    ensures
        patch@ == (NodePatchView { node_name: node_name@, key: ANNOTATION_KEY@, value: None }),
{
    NodePatch { node_name: node_name.to_owned(), key: ANNOTATION_KEY.to_owned(), value: None }
}

/// The patch for the controller's node: there is one where annotation is on, the node's
/// name is known and the external address is known.
pub fn annotation_patch(settings: &NodeSettings, wan_ip: &Option<String>) -> (patch: Option<
    NodePatch,
>)
    ensures
        match patch {
            Some(p) => settings.annotate_nodes && settings.node_name is Some && wan_ip is Some
                && p@ == (NodePatchView {
                node_name: settings.node_name->0@,
                key: ANNOTATION_KEY@,
                value: Some(wan_ip->0@),
            }),
            None => !(settings.annotate_nodes && settings.node_name is Some && wan_ip is Some),
        },
{
    if !settings.annotate_nodes {
        return None;
    }
    match (&settings.node_name, wan_ip) {
        (Some(node_name), Some(ip)) => Some(
            annotate_node_with_wan_ip(node_name.as_str(), ip.as_str()),
        ),
        _ => None,
    }
}

} // verus!
