//! Verified core of a home-automation data fetcher: the rules that turn the
//! replies of a trash-pickup service, an Italian word-of-the-day feed and a
//! weather service into the small records shown on a display board.
pub mod italian;
pub mod trash;
pub mod weather;
