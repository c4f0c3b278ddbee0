//! The course of a handler: which request it makes next, and the reply it
//! ends with.
//!
//! A handler makes its requests one after the other. A request that needs
//! what an earlier one brought is made only when that is there: the calendar
//! asks for the number of races first, and for the races only if it got the
//! number. The requests themselves are made elsewhere; what comes next is
//! decided here.

use crate::api::{failure, ApiResult, ApiResultValue, FailureKind, Request, RequestValue};
use crate::commands::f1::{
    bound_in, constructor_standings, constructor_standings_reply, driver_standings,
    driver_standings_reply, recent_race_results, recent_race_results_reply, season_bound,
    season_calendar, season_calendar_reply, CONSTRUCTOR_STANDINGS_URL, DRIVER_STANDINGS_URL,
    LAST_RESULTS_URL, SEASON_URL,
};
use crate::commands::util::{generate_message, ping, ping_text};
use crate::dispatch::{fallback_text, Route};
use crate::reply::{Reply, ReplyValue};
use vstd::prelude::*;

verus! {

/// What a handler does next, as a mathematical value.
pub enum NextValue {
    Fetch(RequestValue),
    Answer(ReplyValue),
    Converse,
}

/// What a handler does next.
#[derive(Debug, PartialEq, Eq)]
pub enum Next {
    /// Make this request and come back with its outcome.
    Fetch(Request),
    /// Send this reply: the handler is done.
    Answer(Reply),
    /// Hold the exchange with the language model, which takes steps of its
    /// own.
    Converse,
}

impl View for Next {
    type V = NextValue;

    open spec fn view(&self) -> NextValue {
        match self {
            Next::Fetch(r) => NextValue::Fetch(r@),
            Next::Answer(r) => NextValue::Answer(r@),
            Next::Converse => NextValue::Converse,
        }
    }
}

/// The values of a sequence of outcomes.
pub open spec fn result_values(results: Seq<ApiResult>) -> Seq<ApiResultValue> {
    Seq::new(results.len(), |i: int| results[i]@)
}

/// What a handler with one request does next: the request, and then the
/// reply to its outcome.
pub open spec fn after_one(
    url: Seq<char>,
    results: Seq<ApiResultValue>,
    reply: spec_fn(ApiResultValue) -> ReplyValue,
) -> NextValue {
    if results.len() == 0 {
        NextValue::Fetch(RequestValue::get(url))
    } else {
        NextValue::Answer(reply(results[0]))
    }
}

/// What the handler of the calendar does next: the request for the number
/// of races; then, if that brought the number, the request for the races,
/// and else the reply that tells of the failure; then the reply to both.
pub open spec fn calendar_next(results: Seq<ApiResultValue>) -> NextValue {
    if results.len() == 0 {
        NextValue::Fetch(RequestValue::get(SEASON_URL@))
    } else if results.len() == 1 {
        match bound_in(results[0]) {
            Ok(_) => NextValue::Fetch(RequestValue::get(SEASON_URL@)),
            Err(k) => NextValue::Answer(failure(k)),
        }
    } else {
        NextValue::Answer(season_calendar_reply(results[0], results[1]))
    }
}

/// What the handler of a route does next, given the outcomes of the
/// requests it has made so far, in order.
pub open spec fn next_of(route: Route, results: Seq<ApiResultValue>) -> NextValue {
    match route {
        Route::Ping => NextValue::Answer(ReplyValue::Text(ping_text())),
        Route::Prompt => NextValue::Converse,
        Route::Constructors => after_one(
            CONSTRUCTOR_STANDINGS_URL@,
            results,
            |r: ApiResultValue| constructor_standings_reply(r),
        ),
        Route::Drivers => after_one(
            DRIVER_STANDINGS_URL@,
            results,
            |r: ApiResultValue| driver_standings_reply(r),
        ),
        Route::Calendar => calendar_next(results),
        Route::RecentRaceResults => after_one(
            LAST_RESULTS_URL@,
            results,
            |r: ApiResultValue| recent_race_results_reply(r),
        ),
        Route::InvalidOption => NextValue::Answer(ReplyValue::Text(fallback_text(route)->0)),
        Route::NotImplemented => NextValue::Answer(ReplyValue::Text(fallback_text(route)->0)),
    }
}

/// Decides what the handler of a route does next, given the outcomes of the
/// requests it has made so far, in order.
pub fn advance(route: Route, results: &Vec<ApiResult>) -> (r: Next)
    ensures
        r@ == next_of(route, result_values(results@)),
{
    let made = results.len();
    match route {
        Route::Ping => Next::Answer(ping()),
        Route::Prompt => Next::Converse,
        Route::Constructors => {
            if made == 0 {
                Next::Fetch(Request::get(CONSTRUCTOR_STANDINGS_URL))
            } else {
                Next::Answer(constructor_standings(&results[0]))
            }
        },
        Route::Drivers => {
            if made == 0 {
                Next::Fetch(Request::get(DRIVER_STANDINGS_URL))
            } else {
                Next::Answer(driver_standings(&results[0]))
            }
        },
        Route::Calendar => {
            if made == 0 {
                Next::Fetch(Request::get(SEASON_URL))
            } else if made == 1 {
                match season_bound(&results[0]) {
                    Ok(_) => Next::Fetch(Request::get(SEASON_URL)),
                    Err(k) => Next::Answer(k.reply()),
                }
            } else {
                Next::Answer(season_calendar(&results[0], &results[1]))
            }
        },
        Route::RecentRaceResults => {
            if made == 0 {
                Next::Fetch(Request::get(LAST_RESULTS_URL))
            } else {
                Next::Answer(recent_race_results(&results[0]))
            }
        },
        Route::InvalidOption => Next::Answer(generate_message("Invalid option".to_owned())),
        Route::NotImplemented => Next::Answer(generate_message("Not implemented :(".to_owned())),
    }
}

// ---------------------------------------------------------------------------
// Laws of the course of a handler
// ---------------------------------------------------------------------------

/// No handler makes more than two requests: with two outcomes in hand every
/// route but the prompt has its reply.
pub proof fn law_two_requests_at_most(route: Route, results: Seq<ApiResultValue>)
    requires
        results.len() >= 2,
    ensures
        route != Route::Prompt ==> next_of(route, results) is Answer,
        route == Route::Prompt ==> next_of(route, results) is Converse,
{
}

/// A handler whose first request failed makes no other request: it answers
/// with the text that tells of the failure.
pub proof fn law_failed_request_is_told(
    route: Route,
    kind: FailureKind,
    detail: Seq<char>,
    results: Seq<ApiResultValue>,
)
    requires
        results.len() >= 1,
        results[0] == ApiResultValue::Failure(kind, detail),
        next_of(route, Seq::empty()) is Fetch,
    ensures
        next_of(route, results) == NextValue::Answer(failure(kind.kind())),
{
}

/// The calendar asks for the races only after the number of races is
/// there.
pub proof fn law_bound_before_list(results: Seq<ApiResultValue>)
    requires
        results.len() >= 1,
        next_of(Route::Calendar, results) is Fetch,
    ensures
        results.len() == 1,
        bound_in(results[0]) is Ok,
{
}

} // verus!
