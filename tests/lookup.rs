use weather_bot::lookup::{
    lookup_reply, resolve, LocationSearch, LookupError, RequestFailure, Stage,
};
use weather_bot::weather::{Country, CouldNotFindLocation, Forecast, Headline, Location};

fn location(key: &str, name: &str, country: &str) -> Location {
    Location {
        key: key.to_string(),
        localized_name: name.to_string(),
        country: Country { id: country.to_string() },
    }
}

fn forecast(text: &str) -> Forecast {
    Forecast { headline: Headline { overview: text.to_string() } }
}

#[test]
fn resolve_picks_first_location() {
    let found = vec![location("123", "Paris", "FR"), location("456", "Paris", "US")];
    let first = resolve("Paris", found).unwrap();
    assert_eq!(first.key, "123");
    assert_eq!(first.localized_name, "Paris");
    assert_eq!(first.country.id, "FR");
}

#[test]
fn resolve_empty_is_not_found_with_query() {
    let err = resolve("Atlantis", Vec::new()).unwrap_err();
    assert_eq!(err.place, "Atlantis");
    assert_eq!(err.to_string(), "Could not find location 'Atlantis'");
}

#[test]
fn location_display() {
    assert_eq!(location("123", "Paris", "FR").to_string(), "Paris, FR");
}

#[test]
fn not_found_message() {
    assert_eq!(CouldNotFindLocation::new("Oz").to_string(), "Could not find location 'Oz'");
}

#[test]
fn search_url_carries_key_and_place() {
    let search = LocationSearch::new("Paris", "k");
    assert_eq!(
        search.url(),
        "http://dataservice.accuweather.com/locations/v1/cities/search?apikey=k&q=Paris"
    );
}

#[test]
fn paris_lookup_renders_all_facts() {
    let search = LocationSearch::new("Paris", "k");
    let fetch = search.on_response(Ok(vec![location("123", "Paris", "FR")])).ok().unwrap();
    assert_eq!(
        fetch.url(),
        "http://dataservice.accuweather.com/forecasts/v1/daily/1day/123?apikey=k"
    );
    assert_eq!(fetch.location().localized_name, "Paris");
    let result = fetch.on_response(Ok(forecast("Sunny")));
    let (loc, fc) = result.as_ref().unwrap();
    assert_eq!(loc.country.id, "FR");
    assert_eq!(loc.key, "123");
    assert_eq!(fc.headline.overview, "Sunny");
    let text = lookup_reply(&result);
    assert_eq!(text, "Sunny in Paris, FR");
    assert!(text.contains("Sunny") && text.contains("Paris") && text.contains("FR"));
}

#[test]
fn failed_search_requests_no_forecast() {
    let search = LocationSearch::new("Paris", "k");
    match search.on_response(Err(RequestFailure::Transport("refused".to_string()))) {
        Err(LookupError::Transport(Stage::Resolve, cause)) => assert_eq!(cause, "refused"),
        _ => panic!("the search failure must end the lookup"),
    }
    let search = LocationSearch::new("Paris", "k");
    match search.on_response(Err(RequestFailure::Decode("bad json".to_string()))) {
        Err(LookupError::Decode(Stage::Resolve, cause)) => assert_eq!(cause, "bad json"),
        _ => panic!("the search failure must end the lookup"),
    }
    let search = LocationSearch::new("Nowhere", "k");
    match search.on_response(Ok(Vec::new())) {
        Err(LookupError::NotFound(n)) => assert_eq!(n.place, "Nowhere"),
        _ => panic!("an empty search must end the lookup"),
    }
}

#[test]
fn failed_fetch_discards_location() {
    let search = LocationSearch::new("Paris", "k");
    let fetch = search.on_response(Ok(vec![location("123", "Paris", "FR")])).ok().unwrap();
    let result = fetch.on_response(Err(RequestFailure::Transport("timeout".to_string())));
    match &result {
        Err(LookupError::Transport(Stage::Fetch, cause)) => assert_eq!(cause, "timeout"),
        _ => panic!("the fetch failure must be returned"),
    }
    assert_eq!(
        lookup_reply(&result),
        "Could not reach the weather service while fetching the forecast: timeout"
    );
    let search = LocationSearch::new("Paris", "k");
    let fetch = search.on_response(Ok(vec![location("123", "Paris", "FR")])).ok().unwrap();
    let result = fetch.on_response(Err(RequestFailure::Decode("missing Headline".to_string())));
    assert_eq!(
        lookup_reply(&result),
        "Unexpected answer from the weather service while fetching the forecast: missing Headline"
    );
}

#[test]
fn error_messages_name_the_stage() {
    let e = LookupError::Transport(Stage::Resolve, "down".to_string());
    assert_eq!(
        e.to_string(),
        "Could not reach the weather service while resolving the location: down"
    );
    let e = LookupError::Decode(Stage::Resolve, "x".to_string());
    assert_eq!(
        e.to_string(),
        "Unexpected answer from the weather service while resolving the location: x"
    );
    let e = LookupError::NotFound(CouldNotFindLocation::new("Oz"));
    assert_eq!(lookup_reply(&Err(e)), "Could not find location 'Oz'");
}

#[test]
fn search_url_encodes_reserved_characters() {
    let search = LocationSearch::new("A&B #\u{e9}", "k");
    assert_eq!(
        search.url(),
        "http://dataservice.accuweather.com/locations/v1/cities/search?apikey=k&q=A%26B%20%23%C3%A9"
    );
    let search = LocationSearch::new("A&B", "k");
    assert!(search.url().ends_with("?apikey=k&q=A%26B"));
}

#[test]
fn forecast_url_encodes_key() {
    let search = LocationSearch::new("Paris", "k+1/2");
    assert!(search.url().ends_with("?apikey=k%2B1%2F2&q=Paris"));
    let fetch = search.on_response(Ok(vec![location("123", "Paris", "FR")])).ok().unwrap();
    assert_eq!(
        fetch.url(),
        "http://dataservice.accuweather.com/forecasts/v1/daily/1day/123?apikey=k%2B1%2F2"
    );
}
