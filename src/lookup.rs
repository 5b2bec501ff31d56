use vstd::prelude::*;
use vstd::string::StringExecFns;

use crate::query::{query_encode, query_encoded};
use crate::weather::{location_text, not_found_text, CouldNotFindLocation, Forecast, Location};

verus! {

/// The provider's location search endpoint.
pub const LOCATION_REQUEST: &'static str = "http://dataservice.accuweather.com/locations/v1/cities/search";

/// The provider's one-day forecast endpoint; the location key follows it.
pub const DAY_REQUEST: &'static str = "http://dataservice.accuweather.com/forecasts/v1/daily/1day/";

/// The request that searches for `place`: `<search endpoint>?apikey=<key>&q=<place>`,
/// the key and the place written as query values.
pub open spec fn location_search_url(api_key: Seq<char>, place: Seq<char>) -> Seq<char> {
    LOCATION_REQUEST@ + "?apikey="@ + query_encoded(api_key) + "&q="@ + query_encoded(place)
}

/// The request for a location's forecast: `<forecast endpoint><location key>?apikey=<key>`,
/// the provider key written as a query value.
pub open spec fn forecast_url(location_key: Seq<char>, api_key: Seq<char>) -> Seq<char> {
    DAY_REQUEST@ + location_key + "?apikey="@ + query_encoded(api_key)
}

/// Why one outbound request gave no usable answer, as the transport reports it.
#[derive(Debug, Clone)]
pub enum RequestFailure {
    /// The request could not be sent, or the provider could not be reached.
    Transport(String),
    /// The answer did not have the expected shape.
    Decode(String),
}

/// The stage of a lookup at which a request failed.
#[derive(Debug, Clone, Copy, PartialEq, Eq, Structural)]
pub enum Stage {
    Resolve,
    Fetch,
}

/// Why a lookup gave no forecast.
#[derive(Debug, Clone)]
pub enum LookupError {
    /// The location search matched nothing.
    NotFound(CouldNotFindLocation),
    /// A request of the given stage could not be sent or answered.
    Transport(Stage, String),
    /// The answer to a request of the given stage had an unexpected shape.
    Decode(Stage, String),
}

/// The error of a lookup whose request at `stage` failed with `failure`.
pub open spec fn stage_error(stage: Stage, failure: RequestFailure) -> LookupError {
    match failure {
        RequestFailure::Transport(cause) => LookupError::Transport(stage, cause),
        RequestFailure::Decode(cause) => LookupError::Decode(stage, cause),
    }
}

fn classify(stage: Stage, failure: RequestFailure) -> (r: LookupError)
    ensures
        r == stage_error(stage, failure),
{
    match failure {
        RequestFailure::Transport(cause) => LookupError::Transport(stage, cause),
        RequestFailure::Decode(cause) => LookupError::Decode(stage, cause),
    }
}

/// Picks the canonical match of a location search: the first location found.
///
/// No ranking takes place. An empty search result is an error that names the
/// place that was searched for.
pub fn resolve(place: &str, locations: Vec<Location>) -> (r: Result<Location, CouldNotFindLocation>)
    ensures
        locations@.len() > 0 ==> r == Ok::<Location, CouldNotFindLocation>(locations@[0]),
        locations@.len() == 0 ==> r is Err && r->Err_0.place@ == place@,
{
    let mut locations = locations;
    if locations.len() == 0 {
        Err(CouldNotFindLocation::new(place))
    } else {
        Ok(locations.swap_remove(0))
    }
}

/// A lookup that waits for the answer to its location search.
///
/// This is the first stage of a lookup: `url` gives the request to send, and
/// `on_response` takes what came back. Only a successful search leads to the
/// second stage, so no forecast is ever requested for a failed search.
pub struct LocationSearch {
    pub place: String,
    pub api_key: String,
}

/// A lookup whose location is resolved and that waits for the forecast.
///
/// Only a successful location search makes one, so a forecast is requested
/// only for a location that the search found.
pub struct ForecastFetch {
    location: Location,
    api_key: String,
}

impl LocationSearch {
    /// Starts a lookup of `place` with the provider key `api_key`.
    pub fn new(place: &str, api_key: &str) -> (r: LocationSearch)
        ensures
            r.place@ == place@,
            r.api_key@ == api_key@,
    {
        LocationSearch { place: String::from_str(place), api_key: String::from_str(api_key) }
    }

    /// The location search request to send.
    pub fn url(&self) -> (r: String)
        ensures
            r@ == location_search_url(self.api_key@, self.place@),
    {
        let mut s = String::from_str(LOCATION_REQUEST);
        s.append("?apikey=");
        s.append(query_encode(self.api_key.as_str()).as_str());
        s.append("&q=");
        s.append(query_encode(self.place.as_str()).as_str());
        s
    }

    /// Takes the outcome of the location search.
    ///
    /// A failed request ends the lookup with its error, classified as of the
    /// resolve stage; an empty result ends it as not found. Otherwise the first
    /// location moves on, unchanged, to the forecast stage.
    pub fn on_response(self, outcome: Result<Vec<Location>, RequestFailure>) -> (r: Result<
        ForecastFetch,
        LookupError,
    >)
        ensures
            r is Ok <==> (outcome is Ok && outcome->Ok_0@.len() > 0),
            outcome is Err ==> r->Err_0 == stage_error(Stage::Resolve, outcome->Err_0),
            outcome is Ok && outcome->Ok_0@.len() == 0 ==> r->Err_0 is NotFound
                && r->Err_0->NotFound_0.place@ == self.place@,
            r is Ok ==> r->Ok_0.spec_location() == outcome->Ok_0@[0] && r->Ok_0.spec_api_key() == self.api_key,
    {
        match outcome {
            Err(failure) => Err(classify(Stage::Resolve, failure)),
            Ok(locations) => match resolve(self.place.as_str(), locations) {
                Ok(location) => Ok(ForecastFetch { location, api_key: self.api_key }),
                Err(not_found) => Err(LookupError::NotFound(not_found)),
            },
        }
    }
}

impl ForecastFetch {
    /// The location that the search resolved.
    pub closed spec fn spec_location(&self) -> Location {
        self.location
    }

    /// The provider key of the lookup.
    pub closed spec fn spec_api_key(&self) -> String {
        self.api_key
    }

    /// The location that the search resolved.
    pub fn location(&self) -> (r: &Location)
        ensures
            *r == self.spec_location(),
    {
        &self.location
    }

    /// The forecast request to send, addressed by the resolved location's key.
    pub fn url(&self) -> (r: String)
        ensures
            r@ == forecast_url(self.spec_location().key@, self.spec_api_key()@),
    {
        let mut s = String::from_str(DAY_REQUEST);
        s.append(self.location.key.as_str());
        s.append("?apikey=");
        s.append(query_encode(self.api_key.as_str()).as_str());
        s
    }

    /// Takes the outcome of the forecast request and ends the lookup.
    ///
    /// On success the resolved location and the forecast come back as they
    /// are; on failure only the error does, classified as of the fetch stage.
    pub fn on_response(self, outcome: Result<Forecast, RequestFailure>) -> (r: Result<
        (Location, Forecast),
        LookupError,
    >)
        ensures
            outcome is Ok ==> r == Ok::<(Location, Forecast), LookupError>(
                (self.spec_location(), outcome->Ok_0),
            ),
            outcome is Err ==> r == Err::<(Location, Forecast), LookupError>(
                stage_error(Stage::Fetch, outcome->Err_0),
            ),
    {
        match outcome {
            Ok(forecast) => Ok((self.location, forecast)),
            Err(failure) => Err(classify(Stage::Fetch, failure)),
        }
    }
}

/// How a stage is named in a message to a user.
pub open spec fn stage_text(stage: Stage) -> Seq<char> {
    match stage {
        Stage::Resolve => "resolving the location"@,
        Stage::Fetch => "fetching the forecast"@,
    }
}

/// The message that tells a user why a lookup gave no forecast.
pub open spec fn error_text(e: LookupError) -> Seq<char> {
    match e {
        LookupError::NotFound(n) => not_found_text(n.place@),
        LookupError::Transport(stage, cause) => "Could not reach the weather service while "@
            + stage_text(stage) + ": "@ + cause@,
        LookupError::Decode(stage, cause) => "Unexpected answer from the weather service while "@
            + stage_text(stage) + ": "@ + cause@,
    }
}

/// The message that gives a user a forecast: `"<overview> in <name>, <country code>"`.
pub open spec fn forecast_text(location: Location, forecast: Forecast) -> Seq<char> {
    forecast.headline.overview@ + " in "@ + location_text(
        location.localized_name@,
        location.country.id@,
    )
}

/// The single reply to a lookup, whether it succeeded or not.
pub open spec fn reply_text(result: Result<(Location, Forecast), LookupError>) -> Seq<char> {
    match result {
        Ok((location, forecast)) => forecast_text(location, forecast),
        Err(e) => error_text(e),
    }
}

impl Stage {
    /// The stage as named in a message to a user.
    pub fn to_string(&self) -> (r: String)
        ensures
            r@ == stage_text(*self),
    {
        match self {
            Stage::Resolve => String::from_str("resolving the location"),
            Stage::Fetch => String::from_str("fetching the forecast"),
        }
    }
}

impl LookupError {
    /// The message that tells a user why the lookup gave no forecast.
    pub fn to_string(&self) -> (r: String)
        ensures
            r@ == error_text(*self),
    {
        match self {
            LookupError::NotFound(n) => n.to_string(),
            LookupError::Transport(stage, cause) => {
                let mut s = String::from_str("Could not reach the weather service while ");
                s.append(stage.to_string().as_str());
                s.append(": ");
                s.append(cause.as_str());
                s
            },
            LookupError::Decode(stage, cause) => {
                let mut s = String::from_str("Unexpected answer from the weather service while ");
                s.append(stage.to_string().as_str());
                s.append(": ");
                s.append(cause.as_str());
                s
            },
        }
    }
}

/// Turns the result of a lookup into the one text that answers the user.
///
/// Errors are recovered here: each becomes a message rather than a fault.
pub fn lookup_reply(result: &Result<(Location, Forecast), LookupError>) -> (r: String)
    ensures
        r@ == reply_text(*result),
{
    match result {
        Ok((location, forecast)) => {
            let mut s = forecast.headline.overview.clone();
            s.append(" in ");
            s.append(location.to_string().as_str());
            s
        },
        Err(e) => e.to_string(),
    }
}

} // verus!
