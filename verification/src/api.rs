//! The HTTP interface as a table: for each route its method, its path and
//! the status that answers an outcome.
//!
//! A failure is answered by a status alone. Which error it was decides
//! nothing: the status of a failure depends on the route only.

use crate::model::RepoError;
use vstd::prelude::*;

verus! {

#[derive(Clone, Copy, Debug, PartialEq, Eq, Structural)]
pub enum Method {
    Get,
    Post,
    Delete,
}

/// The routes of the interface.
#[derive(Clone, Copy, Debug, PartialEq, Eq, Structural)]
pub enum Route {
    /// `GET /persons`
    ListPeople,
    /// `POST /person`
    CreatePerson,
    /// `GET /cards`
    ListCards,
    /// `POST /card`
    CreateCard,
    /// `DELETE /card/{id}`
    DeleteCard,
    /// `POST /punch`
    CreatePunch,
}

pub open spec fn method_of(route: Route) -> Method {
    match route {
        Route::ListPeople | Route::ListCards => Method::Get,
        Route::CreatePerson | Route::CreateCard | Route::CreatePunch => Method::Post,
        Route::DeleteCard => Method::Delete,
    }
}

/// The path under which a route is mounted. The identity of the card to
/// delete follows the path of `DeleteCard` as one more segment.
pub open spec fn path_of(route: Route) -> Seq<char> {
    match route {
        Route::ListPeople => "/persons"@,
        Route::CreatePerson => "/person"@,
        Route::ListCards => "/cards"@,
        Route::CreateCard | Route::DeleteCard => "/card"@,
        Route::CreatePunch => "/punch"@,
    }
}

/// The status of a success: 204 for a deletion, which has no body, and 200
/// otherwise.
pub open spec fn success_status(route: Route) -> u16 {
    match route {
        Route::DeleteCard => 204,
        _ => 200,
    }
}

/// The status of a failure: 404 for a deletion and 400 otherwise.
pub open spec fn failure_status(route: Route) -> u16 {
    match route {
        Route::DeleteCard => 404,
        _ => 400,
    }
}

/// Whether a client takes `code` as the success of `route`: the status of
/// success of that route, and for a new punch also 201.
pub open spec fn accepted(route: Route, code: u16) -> bool {
    code == success_status(route) || (route == Route::CreatePunch && code == 201)
}

impl Route {
    pub fn method(self) -> (method: Method)
        ensures
            method == method_of(self),
    {
        match self {
            Route::ListPeople | Route::ListCards => Method::Get,
            Route::CreatePerson | Route::CreateCard | Route::CreatePunch => Method::Post,
            Route::DeleteCard => Method::Delete,
        }
    }

    pub fn path(self) -> (path: &'static str)
        ensures
            path@ == path_of(self),
    {
        match self {
            Route::ListPeople => "/persons",
            Route::CreatePerson => "/person",
            Route::ListCards => "/cards",
            Route::CreateCard | Route::DeleteCard => "/card",
            Route::CreatePunch => "/punch",
        }
    }

    /// The status that answers `outcome` on this route.
    pub fn status<T>(self, outcome: &Result<T, RepoError>) -> (code: u16)
        ensures
            code == if outcome is Ok {
                success_status(self)
            } else {
                failure_status(self)
            },
    {
        match (self, outcome) {
            (Route::DeleteCard, Ok(_)) => 204,
            (Route::DeleteCard, Err(_)) => 404,
            (_, Ok(_)) => 200,
            (_, Err(_)) => 400,
        }
    }

    /// Whether a client takes `code` as the success of this route.
    pub fn accepts(self, code: u16) -> (yes: bool)
        ensures
            yes == accepted(self, code),
    {
        match self {
            Route::DeleteCard => code == 204,
            Route::CreatePunch => code == 200 || code == 201,
            _ => code == 200,
        }
    }
}

/// No status answers both a success and a failure, and no client takes the
/// status of a failure for a success.
pub proof fn law_statuses_tell_success_from_failure(route: Route)
    ensures
        failure_status(route) != success_status(route),
        accepted(route, success_status(route)),
        !accepted(route, failure_status(route)),
{
}

} // verus!
