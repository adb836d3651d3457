use vstd::prelude::*;

verus! {

/// The city a forecast is for.
#[derive(Debug, Clone, PartialEq, Eq)]
pub struct CityInfo {
    pub city: String,
    pub citykey: String,
    pub parent: String,
    pub update_time: String,
}

/// The forecast of one day.
#[derive(Debug, Clone, PartialEq, Eq)]
pub struct Forecast {
    pub date: String,
    pub high: String,
    pub low: String,
    pub ymd: String,
    pub week: String,
    pub sunrise: String,
    pub sunset: String,
    pub aqi: i64,
    pub fx: String,
    pub fl: String,
    pub type_field: String,
    pub notice: String,
}

/// Yesterday's weather.
#[derive(Debug, Clone, PartialEq, Eq)]
pub struct Yesterday {
    pub date: String,
    pub high: String,
    pub low: String,
    pub ymd: String,
    pub week: String,
    pub sunrise: String,
    pub sunset: String,
    pub aqi: i64,
    pub fx: String,
    pub fl: String,
    pub type_field: String,
    pub notice: String,
}

} // verus!
