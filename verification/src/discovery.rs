//! The table of resource types that one discovery run found in a cluster.

use vstd::prelude::*;
use crate::identity::{GroupVersionKind, Gvk};

verus! {

/// Whether objects of a type live in a namespace or in the cluster at large.
#[derive(Debug, Clone, Copy, PartialEq, Eq)]
pub enum Scope {
    Namespaced,
    Cluster,
}

/// The mathematical value of a discovered type.
pub struct Api {
    pub gvk: Gvk,
    pub plural: Seq<char>,
    pub scope: Scope,
}

/// One discovered type: how requests for it are formed (the plural name under
/// which the cluster serves it) and its scope.
#[derive(Debug, PartialEq, Eq)]
pub struct ApiEntry {
    pub gvk: GroupVersionKind,
    pub plural: String,
    pub scope: Scope,
}

impl View for ApiEntry {
    type V = Api;

    open spec fn view(&self) -> Api {
        Api { gvk: self.gvk@, plural: self.plural@, scope: self.scope }
    }
}

impl Clone for ApiEntry {
    fn clone(&self) -> (r: Self)
        ensures
            r == *self,
    {
        ApiEntry { gvk: self.gvk.clone(), plural: self.plural.clone(), scope: self.scope }
    }
}

/// The values of a list of discovered types, in order.
pub open spec fn apis_of(v: Seq<ApiEntry>) -> Seq<Api> {
    Seq::new(v.len(), |i: int| v[i]@)
}

/// The first entry at or after `from` that describes `gvk`.
pub open spec fn find_api_from(apis: Seq<Api>, gvk: Gvk, from: int) -> Option<Api>
    decreases apis.len() - from,
{
    if from < 0 || from >= apis.len() {
        None
    } else if apis[from].gvk == gvk {
        Some(apis[from])
    } else {
        find_api_from(apis, gvk, from + 1)
    }
}

/// The first entry of the table that describes `gvk`.
pub open spec fn find_api(apis: Seq<Api>, gvk: Gvk) -> Option<Api> {
    find_api_from(apis, gvk, 0)
}

/// The value of an optional entry.
pub open spec fn api_of(entry: Option<ApiEntry>) -> Option<Api> {
    match entry {
        Some(e) => Some(e@),
        None => None,
    }
}

/// Looks `gvk` up in a discovery table.
pub fn lookup_api(table: &Vec<ApiEntry>, gvk: &GroupVersionKind) -> (r: Option<ApiEntry>)
    ensures
        api_of(r) == find_api(apis_of(table@), gvk@),
{
    let mut i: usize = 0;
    while i < table.len()
        invariant
            i <= table.len(),
            find_api(apis_of(table@), gvk@) == find_api_from(apis_of(table@), gvk@, i as int),
        decreases table.len() - i,
    {
        if table[i].gvk.same_as(gvk) {
            return Some(table[i].clone());
        }
        i += 1;
    }
    None
}

} // verus!
