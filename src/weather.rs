use vstd::prelude::*;
use vstd::string::StringExecFns;

verus! {

/// A place as the weather provider's location search reports it.
///
/// The key is assigned by the provider; this library only carries it
/// from the search into the forecast request.
#[derive(Debug, Clone)]
pub struct Location {
    pub key: String,
    pub localized_name: String,
    pub country: Country,
}

/// The country a location lies in, by its code.
#[derive(Debug, Clone)]
pub struct Country {
    pub id: String,
}

/// The provider's forecast for the current day.
#[derive(Debug, Clone)]
pub struct Forecast {
    pub headline: Headline,
}

/// The headline of a forecast: a one-line overview of the day.
#[derive(Debug, Clone)]
pub struct Headline {
    pub overview: String,
}

/// The error of a location search that matched no place.
#[derive(Debug, Clone)]
pub struct CouldNotFindLocation {
    pub place: String,
}

/// How a location is shown to a user: its name and its country code.
pub open spec fn location_text(name: Seq<char>, country_id: Seq<char>) -> Seq<char> {
    name + ", "@ + country_id
}

/// The message of a search that found nothing for `place`.
pub open spec fn not_found_text(place: Seq<char>) -> Seq<char> {
    "Could not find location '"@ + place + "'"@
}

impl Location {
    /// The location as shown to a user, `"<name>, <country code>"`.
    pub fn to_string(&self) -> (r: String)
        ensures
            r@ == location_text(self.localized_name@, self.country.id@),
    {
        let mut s = self.localized_name.clone();
        s.append(", ");
        s.append(self.country.id.as_str());
        s
    }
}

impl CouldNotFindLocation {
    pub fn new(place: &str) -> (r: CouldNotFindLocation)
        ensures
            r.place@ == place@,
    {
        CouldNotFindLocation { place: String::from_str(place) }
    }

    /// The message shown to a user, `"Could not find location '<place>'"`.
    pub fn to_string(&self) -> (r: String)
        ensures
            r@ == not_found_text(self.place@),
    {
        let mut s = String::from_str("Could not find location '");
        s.append(self.place.as_str());
        s.append("'");
        s
    }
}

} // verus!
