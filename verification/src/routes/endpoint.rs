//! The endpoints of the service and the status that each answers with.

use crate::routes::route_option::Rejection;
use crate::routes::route_option::CREATED;
use crate::routes::route_option::NO_CONTENT;
use crate::routes::route_option::OK;
use vstd::prelude::*;

verus! {

/// The endpoints of the service.
#[derive(Debug, Clone, Copy, PartialEq, Eq, Structural)]
pub enum Endpoint {
    /// `POST /register`
    Register,
    /// `POST /login`
    Login,
    /// `GET /travelplan`
    GetTravelPlans,
    /// `GET /travelplan/{id}`
    GetTravelPlanById,
    /// `POST /travelplan`
    CreateTravelPlan,
    /// `PUT /travelplan/{id}`
    UpdateTravelPlan,
    /// `DELETE /travelplan/{id}`
    DeleteTravelPlan,
    /// `GET /travelplan/{id}/routes`
    GetRouteOptions,
    /// `POST /travelplan/{id}/routes/generate`
    GenerateRouteOptions,
    /// `GET /travelplan/{plan_id}/routes/{route_id}`
    GetRouteOptionById,
    /// `DELETE /travelplan/{plan_id}/routes/{route_id}`
    DeleteRouteOption,
    /// `DELETE /travelplan/{id}/routes`
    DeleteAllRouteOptions,
}

/// The status that an endpoint answers success with: `CREATED` where it
/// made a user or a plan, `NO_CONTENT` where it deleted a plan and has
/// nothing to show, `OK` everywhere else.
pub open spec fn success_status(endpoint: Endpoint) -> u16 {
    match endpoint {
        Endpoint::Register => CREATED,
        Endpoint::CreateTravelPlan => CREATED,
        Endpoint::DeleteTravelPlan => NO_CONTENT,
        _ => OK,
    }
}

/// Whether an endpoint's answer of success carries a body: every one does
/// but the deletion of a plan.
pub open spec fn shows_body(endpoint: Endpoint) -> bool {
    endpoint != Endpoint::DeleteTravelPlan
}

impl Endpoint {
    /// The status that this endpoint answers success with.
    pub fn success(&self) -> (status: u16)
        ensures
            status == success_status(*self),
    {
        match self {
            Endpoint::Register => CREATED,
            Endpoint::CreateTravelPlan => CREATED,
            Endpoint::DeleteTravelPlan => NO_CONTENT,
            _ => OK,
        }
    }

    /// Whether this endpoint's answer of success carries a body.
    pub fn has_body(&self) -> (shown: bool)
        ensures
            shown == shows_body(*self),
    {
        match self {
            Endpoint::DeleteTravelPlan => false,
            _ => true,
        }
    }

    /// The status of an answer of this endpoint: that of success, or the
    /// status of the refusal.
    pub fn status_of<T>(&self, answer: &Result<T, Rejection>) -> (status: u16)
        ensures
            status == match answer {
                Ok(_) => success_status(*self),
                Err(r) => r.status,
            },
    {
        match answer {
            Ok(_) => self.success(),
            Err(r) => r.status,
        }
    }
}

} // verus!
