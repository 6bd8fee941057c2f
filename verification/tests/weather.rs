use data_fetcher::weather::{int_to_bool, weather_url, InvalidFlag};

#[test]
fn zero_is_false() {
    assert_eq!(int_to_bool(0), Ok(false));
}

#[test]
fn one_is_true() {
    assert_eq!(int_to_bool(1), Ok(true));
}

#[test]
fn other_numbers_are_refused() {
    assert_eq!(int_to_bool(2), Err(InvalidFlag { value: 2 }));
    assert_eq!(int_to_bool(255), Err(InvalidFlag { value: 255 }));
}

#[test]
fn flag_round_trip() {
    for b in [false, true] {
        assert_eq!(int_to_bool(b as u8), Ok(b));
    }
}

#[test]
fn weather_url_layout() {
    assert_eq!(
        weather_url("KEY123", "Pittsburgh"),
        "https://api.weatherapi.com/v1/forecast.json?key=KEY123&q=Pittsburgh&days=1&aqi=yes&alerts=yes"
    );
}
