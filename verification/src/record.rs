//! Node records: one line of the status listing, as typed fields.

use crate::text::{contains_text, str_contains};
use vstd::prelude::*;

verus! {

/// The fields of a record as character sequences.
pub struct RecordView {
    pub name: Seq<char>,
    pub ip: Seq<char>,
    pub suggested_user: Seq<char>,
    pub status: Seq<char>,
}

/// A node of the status listing. A record never changes once it is made,
/// and its name and address are never empty.
#[derive(Debug, PartialEq, Eq)]
pub struct NodeRecord {
    name: String,
    ip: String,
    suggested_user: String,
    status: String,
}

impl View for NodeRecord {
    type V = RecordView;

    closed spec fn view(&self) -> RecordView {
        RecordView {
            name: self.name@,
            ip: self.ip@,
            suggested_user: self.suggested_user@,
            status: self.status@,
        }
    }
}

impl Clone for NodeRecord {
    /// A copy of the record, field by field.
    fn clone(&self) -> (r: NodeRecord)
        ensures
            r@ == self@,
    {
        self.duplicate()
    }
}

/// The views of a sequence of records.
pub open spec fn record_views(nodes: Seq<NodeRecord>) -> Seq<RecordView> {
    nodes.map_values(|n: NodeRecord| n@)
}

impl RecordView {
    /// A record is valid when it has a name and an address.
    pub open spec fn valid(self) -> bool {
        self.name.len() > 0 && self.ip.len() > 0
    }

    /// A node counts as reachable when its status holds the word `active`
    /// anywhere.
    pub open spec fn active(self) -> bool {
        contains_text(self.status, "active"@)
    }
}

impl NodeRecord {
    #[verifier::type_invariant]
    spec fn named_and_addressed(&self) -> bool {
        self@.valid()
    }

    /// Makes a record from its four fields; there is none for an empty name
    /// or an empty address.
    pub fn new(name: String, ip: String, suggested_user: String, status: String) -> (r: Option<
        NodeRecord,
    >)
        ensures
            r is Some <==> name@.len() > 0 && ip@.len() > 0,
            r matches Some(n) ==> n@ == (RecordView {
                name: name@,
                ip: ip@,
                suggested_user: suggested_user@,
                status: status@,
            }),
    {
        if name.as_str().is_empty() || ip.as_str().is_empty() {
            None
        } else {
            Some(NodeRecord { name, ip, suggested_user, status })
        }
    }

    /// The host name, by which a record is shown and filtered.
    pub fn name(&self) -> (s: &str)
        ensures
            s@ == self@.name,
            s@.len() > 0,
    {
        proof {
            use_type_invariant(self);
        }
        self.name.as_str()
    }

    /// The address of the node.
    pub fn ip(&self) -> (s: &str)
        ensures
            s@ == self@.ip,
            s@.len() > 0,
    {
        proof {
            use_type_invariant(self);
        }
        self.ip.as_str()
    }

    /// The user that the listing suggests, as it stood there; may be empty.
    pub fn suggested_user(&self) -> (s: &str)
        ensures
            s@ == self@.suggested_user,
    {
        self.suggested_user.as_str()
    }

    /// The connection status, as it stood in the listing.
    pub fn status(&self) -> (s: &str)
        ensures
            s@ == self@.status,
    {
        self.status.as_str()
    }

    /// Whether the record has this name, letter for letter.
    pub fn has_name(&self, name: &String) -> (same: bool)
        ensures
            same == (self@.name == name@),
    {
        self.name == *name
    }

    /// Whether the node counts as reachable.
    pub fn is_active(&self) -> (active: bool)
        ensures
            active == self@.active(),
    {
        str_contains(self.status.as_str(), "active")
    }

    /// A copy of the record that shares nothing with it.
    pub fn duplicate(&self) -> (r: NodeRecord)
        ensures
            r@ == self@,
    {
        proof {
            use_type_invariant(self);
        }
        NodeRecord {
            name: self.name.clone(),
            ip: self.ip.clone(),
            suggested_user: self.suggested_user.clone(),
            status: self.status.clone(),
        }
    }
}

} // verus!
