//! The plain-value model of the weather provider's response: exactly the
//! fields the pipeline reads. The surrounding program decodes the provider's
//! JSON (floating-point temperatures included), rounds each "feels like"
//! reading to an integer, and hands over a value of this shape.

use vstd::prelude::*;

verus! {

/// One weather condition reported by the provider; `id` is the
/// condition code the precipitation flags are derived from.
pub struct Weather {
    pub id: i64,
    pub main: String,
    pub description: String,
    pub icon: String,
}

/// Per-minute precipitation forecast; carried through, never read
/// by the pipeline.
pub struct Minutely {
    pub dt: i64,
    pub precipitation: i64,
}

/// A weather alert issued by the provider; carried through, never read
/// by the pipeline.
pub struct Alert {
    pub sender_name: String,
    pub event: String,
    pub start: i64,
    pub end: i64,
    pub description: String,
    pub tags: Vec<String>,
}

/// One point of the forecast: the perceived temperature, already rounded
/// to the nearest integer, and the condition codes in force.
pub struct Reading {
    pub feels_like: i32,
    pub weather: Vec<Weather>,
}

/// The provider response reduced to plain values: current conditions,
/// the hourly forecast, and the daily forecast.
pub struct Root {
    pub current: Reading,
    pub hourly: Vec<Reading>,
    pub daily: Vec<Reading>,
    pub minutely: Vec<Minutely>,
    pub alerts: Vec<Alert>,
}

} // verus!
