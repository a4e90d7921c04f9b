//! Regions, states and cities: the row, query and body types of those
//! endpoints, and the rules their updates follow.

use vstd::prelude::*;
use crate::paging::ListQuery;
use crate::session::RequestError;

verus! {

/// A region as listed.
#[derive(Clone, Debug)]
pub struct RegionRow {
    pub id: i32,
    pub name: String,
}

/// A state, inside a region.
#[derive(Clone, Debug)]
pub struct StateRow {
    pub id: i32,
    pub name: String,
    pub region_id: i32,
}

/// A city, inside a state.
#[derive(Clone, Debug)]
pub struct CityRow {
    pub id: i32,
    pub name: String,
    pub state_id: i32,
}

/// Query of the region listing.
#[derive(Clone, Debug)]
pub struct RegionListQuery {
    pub base: ListQuery,
}

/// Query of the state listing, optionally within one region.
#[derive(Clone, Debug)]
pub struct StateListQuery {
    pub base: ListQuery,
    pub region_id: Option<i32>,
}

/// Query of the city listing, optionally within one state or one region.
#[derive(Clone, Debug)]
pub struct CityListQuery {
    pub base: ListQuery,
    pub state_id: Option<i32>,
    pub region_id: Option<i32>,
}

/// Body of a region creation.
#[derive(Clone, Debug)]
pub struct CreateRegionRequest {
    pub name: String,
}

/// Body of a region update.
#[derive(Clone, Debug)]
pub struct PatchRegionRequest {
    pub name: Option<String>,
}

/// Body of a state creation.
#[derive(Clone, Debug)]
pub struct CreateStateRequest {
    pub name: String,
    pub region_id: i32,
}

/// Body of a state update.
#[derive(Clone, Debug)]
pub struct PatchStateRequest {
    pub name: Option<String>,
    pub region_id: Option<i32>,
}

/// Body of a city creation.
#[derive(Clone, Debug)]
pub struct CreateCityRequest {
    pub name: String,
    pub state_id: i32,
}

/// Body of a city update.
#[derive(Clone, Debug)]
pub struct PatchCityRequest {
    pub name: Option<String>,
    pub state_id: Option<i32>,
}

/// The text a patch field sets, or the old one.
pub open spec fn kept_or(field: Option<String>, old: Seq<char>) -> Seq<char> {
    match field {
        Some(v) => v@,
        None => old,
    }
}

fn take_or(field: &Option<String>, old: &String) -> (r: String)
    ensures
        r@ == kept_or(*field, old@),
{
    match field {
        Some(v) => v.clone(),
        None => old.clone(),
    }
}

/// A row may point only to a parent that exists.
pub fn check_parent(parent_exists: bool) -> (r: Result<(), RequestError>)
    ensures
        r == if parent_exists {
            Ok::<(), RequestError>(())
        } else {
            Err::<(), RequestError>(RequestError::BadRequest)
        },
{
    if parent_exists {
        Ok(())
    } else {
        Err(RequestError::BadRequest)
    }
}

impl PatchRegionRequest {
    /// `region` with the patch applied.
    pub fn apply(&self, region: &RegionRow) -> (r: RegionRow)
        ensures
            r.id == region.id,
            r.name@ == kept_or(self.name, region.name@),
    {
        RegionRow { id: region.id, name: take_or(&self.name, &region.name) }
    }
}

impl PatchStateRequest {
    /// `state` with the patch applied; `region_exists` tells whether the new
    /// region, if one is given, exists.
    pub fn apply(&self, state: &StateRow, region_exists: bool) -> (r: Result<StateRow, RequestError>)
        ensures
            match r {
                Ok(updated) => (self.region_id is None || region_exists) && updated.id == state.id
                    && updated.name@ == kept_or(self.name, state.name@) && updated.region_id == match self.region_id {
                    Some(id) => id,
                    None => state.region_id,
                },
                Err(e) => e == RequestError::BadRequest && self.region_id is Some && !region_exists,
            },
    {
        let region_id = match self.region_id {
            Some(id) => {
                if !region_exists {
                    return Err(RequestError::BadRequest);
                }
                id
            },
            None => state.region_id,
        };
        Ok(StateRow { id: state.id, name: take_or(&self.name, &state.name), region_id })
    }
}

impl PatchCityRequest {
    /// `city` with the patch applied; `state_exists` tells whether the new
    /// state, if one is given, exists.
    pub fn apply(&self, city: &CityRow, state_exists: bool) -> (r: Result<CityRow, RequestError>)
        ensures
            match r {
                Ok(updated) => (self.state_id is None || state_exists) && updated.id == city.id
                    && updated.name@ == kept_or(self.name, city.name@) && updated.state_id == match self.state_id {
                    Some(id) => id,
                    None => city.state_id,
                },
                Err(e) => e == RequestError::BadRequest && self.state_id is Some && !state_exists,
            },
    {
        let state_id = match self.state_id {
            Some(id) => {
                if !state_exists {
                    return Err(RequestError::BadRequest);
                }
                id
            },
            None => city.state_id,
        };
        Ok(CityRow { id: city.id, name: take_or(&self.name, &city.name), state_id })
    }
}

} // verus!
