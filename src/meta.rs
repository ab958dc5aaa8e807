//! Object metadata shared by every resource: identity, labels and ownership.

use std::collections::BTreeMap;
use vstd::prelude::*;

verus! {

/// Label key/value pairs. Keys are unique; their order carries no meaning.
pub type Labels = BTreeMap<String, String>;

/// Names the object that is responsible for a resource, so that the control
/// plane's garbage collector deletes the resource along with its owner.
#[derive(Clone, Debug, PartialEq, Eq)]
pub struct OwnerReference {
    pub api_version: String,
    pub kind: String,
    pub name: String,
    pub uid: String,
    pub controller: Option<bool>,
    pub block_owner_deletion: Option<bool>,
}

impl OwnerReference {
    /// A field-by-field copy.
    pub fn duplicate(&self) -> (r: OwnerReference)
        ensures
            r == *self,
    {
        OwnerReference {
            api_version: self.api_version.clone(),
            kind: self.kind.clone(),
            name: self.name.clone(),
            uid: self.uid.clone(),
            controller: self.controller,
            block_owner_deletion: self.block_owner_deletion,
        }
    }
}

/// The sequence of owner references that an optional list holds.
pub open spec fn owners_view(o: Option<Vec<OwnerReference>>) -> Option<Seq<OwnerReference>> {
    match o {
        Some(v) => Some(v@),
        None => None,
    }
}

/// Copies an optional list of owner references, keeping its order.
pub fn copy_owners(o: &Option<Vec<OwnerReference>>) -> (r: Option<Vec<OwnerReference>>)
    ensures
        owners_view(r) == owners_view(*o),
{
    match o {
        None => None,
        Some(v) => {
            let mut out: Vec<OwnerReference> = Vec::new();
            let mut i: usize = 0;
            while i < v.len()
                invariant
                    i <= v@.len(),
                    out@ == v@.subrange(0, i as int),
                decreases v@.len() - i,
            {
                out.push(v[i].duplicate());
                i = i + 1;
            }
            assert(out@ == v@);
            Some(out)
        },
    }
}

/// Identity, labels and ownership of a resource.
#[derive(Clone, Debug, PartialEq, Eq)]
pub struct ObjectMeta {
    pub name: String,
    pub labels: Labels,
    pub owner_references: Option<Vec<OwnerReference>>,
}

/// The mathematical content of an [`ObjectMeta`].
pub ghost struct ObjectMetaView {
    pub name: Seq<char>,
    pub labels: Map<String, String>,
    pub owner_references: Option<Seq<OwnerReference>>,
}

impl View for ObjectMeta {
    type V = ObjectMetaView;

    open spec fn view(&self) -> ObjectMetaView {
        ObjectMetaView {
            name: self.name@,
            labels: self.labels@,
            owner_references: owners_view(self.owner_references),
        }
    }
}

impl ObjectMeta {
    /// Metadata carrying the given name, labels and owners, copied.
    pub fn from_parts(
        name: &String,
        labels: &Labels,
        owners: &Option<Vec<OwnerReference>>,
    ) -> (r: ObjectMeta)
        ensures
            r@ == (ObjectMetaView { name: name@, labels: labels@, owner_references: owners_view(*owners) }),
    {
        ObjectMeta { name: name.clone(), labels: labels.clone(), owner_references: copy_owners(owners) }
    }
}

} // verus!
