# data_fetcher

A small home-automation service that gathers trash pickup dates, an Italian
word of the day and a weather forecast for a display board.

- `src/` is the verified library (Verus): the request addresses, the reduction
  of the pickup reply, the reading of the word-of-the-day feed and its
  description table, and the reading of the weather service's 0/1 flags.
- `app/` is the server around it: configuration, HTTP requests, JSON
  (de)serialisation, the weather record (floating point) and the axum route.
- `tests/` exercises the library with the real rss and scraper crates.
