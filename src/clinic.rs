//! Clinic capabilities and the links between clinics and capabilities: the
//! body and row types of those endpoints and the rules they apply.

use vstd::prelude::*;
use crate::paging::ListQuery;
use crate::session::RequestError;
use crate::text::{normalize_name, trimmed};

verus! {

broadcast use vstd::seq_lib::group_to_multiset_ensures;

/// A capability a clinic can offer; `last_modified_on` is a unix timestamp in
/// seconds.
#[derive(Clone, Debug)]
pub struct ClinicCapability {
    pub id: i32,
    pub name: String,
    pub active: bool,
    pub last_modified_by: String,
    pub last_modified_on: i64,
}

/// A link between a clinic and a capability.
#[derive(Clone, Copy, Debug)]
pub struct ClinicCapabilitiesList {
    pub id: i32,
    pub clinic_id: i32,
    pub capability_id: i32,
}

/// Query of the capability listing.
#[derive(Clone, Debug)]
pub struct ClinicCapabilityListQuery {
    pub base: ListQuery,
}

/// Body of a capability creation.
#[derive(Clone, Debug)]
pub struct CreateClinicCapabilityPayload {
    pub name: String,
    pub active: Option<bool>,
}

/// Body of a capability update; absent fields stay as they are.
#[derive(Clone, Debug)]
pub struct PatchClinicCapabilityPayload {
    pub name: Option<String>,
    pub active: Option<bool>,
}

/// The stored fields of a capability about to be created.
#[derive(Clone, Debug)]
pub struct ClinicCapabilityFields {
    pub name: String,
    pub active: bool,
}

/// A clinic's link to a capability, with the capability if it exists.
#[derive(Clone, Debug)]
pub struct ClinicCapabilityLinkRow {
    pub id: i32,
    pub clinic_id: i32,
    pub capability_id: i32,
    pub capability: Option<ClinicCapability>,
}

/// Body that adds one capability to a clinic.
#[derive(Clone, Copy, Debug)]
pub struct AddClinicCapabilityBody {
    pub capability_id: i32,
}

/// Body that replaces the capabilities of a clinic.
#[derive(Clone, Debug)]
pub struct SetClinicCapabilitiesBody {
    pub capability_ids: Vec<i32>,
}

/// The row for `link`, with the capability it names if that was found.
pub fn to_row(link: ClinicCapabilitiesList, cap: Option<ClinicCapability>) -> (r:
    ClinicCapabilityLinkRow)
    ensures
        r.id == link.id,
        r.clinic_id == link.clinic_id,
        r.capability_id == link.capability_id,
        r.capability == cap,
{
    ClinicCapabilityLinkRow {
        id: link.id,
        clinic_id: link.clinic_id,
        capability_id: link.capability_id,
        capability: cap,
    }
}

impl CreateClinicCapabilityPayload {
    /// The capability to create: its name trimmed and not blank, active
    /// unless asked otherwise.
    pub fn validate(&self) -> (r: Result<ClinicCapabilityFields, RequestError>)
        ensures
            match r {
                Ok(f) => trimmed(self.name@).len() > 0 && f.name@ == trimmed(self.name@) && f.active
                    == match self.active {
                    Some(a) => a,
                    None => true,
                },
                Err(e) => e == RequestError::BadRequest && trimmed(self.name@).len() == 0,
            },
    {
        let name = match normalize_name(self.name.as_str()) {
            Some(n) => n,
            None => return Err(RequestError::BadRequest),
        };
        let active = match self.active {
            Some(a) => a,
            None => true,
        };
        Ok(ClinicCapabilityFields { name, active })
    }
}

/// An id in a path must be positive.
pub fn check_row_id(id: i32) -> (r: Result<(), RequestError>)
    ensures
        r == if id > 0 {
            Ok::<(), RequestError>(())
        } else {
            Err::<(), RequestError>(RequestError::BadRequest)
        },
{
    if id > 0 {
        Ok(())
    } else {
        Err(RequestError::BadRequest)
    }
}

impl PatchClinicCapabilityPayload {
    /// `cap` with the patch applied and the audit fields set to `editor` and
    /// `now`; a name that is blank once trimmed is a bad request.
    pub fn apply(&self, cap: &ClinicCapability, editor: &str, now: i64) -> (r: Result<
        ClinicCapability,
        RequestError,
    >)
        ensures
            match r {
                Ok(updated) => {
                    &&& !(self.name is Some && trimmed(self.name->Some_0@).len() == 0)
                    &&& updated.id == cap.id
                    &&& updated.name@ == match self.name {
                        Some(n) => trimmed(n@),
                        None => cap.name@,
                    }
                    &&& updated.active == match self.active {
                        Some(a) => a,
                        None => cap.active,
                    }
                    &&& updated.last_modified_by@ == editor@
                    &&& updated.last_modified_on == now
                },
                Err(e) => e == RequestError::BadRequest && self.name is Some && trimmed(
                    self.name->Some_0@,
                ).len() == 0,
            },
    {
        let name = match &self.name {
            Some(n) => match normalize_name(n.as_str()) {
                Some(t) => t,
                None => return Err(RequestError::BadRequest),
            },
            None => cap.name.clone(),
        };
        let active = match self.active {
            Some(a) => a,
            None => cap.active,
        };
        Ok(
            ClinicCapability {
                id: cap.id,
                name,
                active,
                last_modified_by: editor.to_owned(),
                last_modified_on: now,
            },
        )
    }
}

/// `s` is in ascending order.
pub open spec fn sorted_ids(s: Seq<i32>) -> bool {
    forall|a: int, b: int| 0 <= a <= b < s.len() ==> #[trigger] s[a] <= #[trigger] s[b]
}

/// `s` is in strictly ascending order.
pub open spec fn strictly_ascending(s: Seq<i32>) -> bool {
    forall|a: int, b: int| 0 <= a < b < s.len() ==> #[trigger] s[a] < #[trigger] s[b]
}

/// Relies on `slice::sort_unstable`: the same items, in ascending order.
#[verifier::external_body]
fn sort_ids(v: &mut Vec<i32>)
    ensures
        final(v)@.to_multiset() == old(v)@.to_multiset(),
        sorted_ids(final(v)@),
{
    v.sort_unstable()
}

impl SetClinicCapabilitiesBody {
    /// The capability ids of the body, each once, in ascending order.
    pub fn distinct_ids(&self) -> (r: Vec<i32>)
        ensures
            strictly_ascending(r@),
            forall|x: i32| r@.contains(x) <==> self.capability_ids@.contains(x),
    {
        let mut ids = self.capability_ids.clone();
        sort_ids(&mut ids);
        proof {
            assert forall|x: i32| ids@.contains(x) <==> self.capability_ids@.contains(x) by {
                assert(ids@.to_multiset().count(x) == self.capability_ids@.to_multiset().count(x));
            }
        }
        let mut out: Vec<i32> = Vec::new();
        let mut i: usize = 0;
        while i < ids.len()
            invariant
                i <= ids@.len(),
                sorted_ids(ids@),
                strictly_ascending(out@),
                out@.len() > 0 ==> i > 0 && out@.last() == ids@[i - 1],
                i > 0 ==> out@.len() > 0,
                forall|x: i32| out@.contains(x) <==> ids@.subrange(0, i as int).contains(x),
            decreases ids@.len() - i,
        {
            let x = ids[i];
            let ghost before = out@;
            assert(forall|y: i32|
                #[trigger] before.contains(y) <==> ids@.subrange(0, i as int).contains(y));
            if out.len() == 0 || out[out.len() - 1] != x {
                out.push(x);
                proof {
                    assert forall|a: int, b: int| 0 <= a < b < out@.len() implies out@[a] < out@[b] by {
                        if b == out@.len() - 1 && a < b {
                            assert(before[a] <= before.last());
                            assert(ids@[i - 1] <= ids@[i as int]);
                        }
                    }
                }
            }
            proof {
                let pre = ids@.subrange(0, i as int);
                let post = ids@.subrange(0, i as int + 1);
                assert(post == pre.push(x));
                assert forall|y: i32| out@.contains(y) <==> post.contains(y) by {
                    if out@.contains(y) {
                        let k = choose|k: int| 0 <= k < out@.len() && #[trigger] out@[k] == y;
                        if k < before.len() {
                            assert(before[k] == y);
                            assert(before.contains(y));
                            let m = choose|m: int| 0 <= m < pre.len() && #[trigger] pre[m] == y;
                            assert(post[m] == y);
                        } else {
                            assert(post[i as int] == y);
                        }
                    }
                    if post.contains(y) {
                        let k = choose|k: int| 0 <= k < post.len() && #[trigger] post[k] == y;
                        if k < i {
                            assert(pre[k] == y);
                            assert(pre.contains(y));
                            assert(before.contains(y));
                            let m = choose|m: int| 0 <= m < before.len() && #[trigger] before[m] == y;
                            assert(out@[m] == y);
                        } else {
                            assert(out@[out@.len() - 1] == y);
                        }
                    }
                }
            }
            i += 1;
        }
        proof {
            assert(ids@.subrange(0, ids@.len() as int) == ids@);
        }
        out
    }
}

} // verus!
