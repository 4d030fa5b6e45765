# gwmc_admin

The logic of a back office for court-auction cars ("跟我买车"), written in
Verus. The functions in `src/` carry contracts that Verus proves, except the
few `#[verifier::external_body]` wrappers that call std, `base64`, `rand` and
`chrono` (`push_char`, `sample_alphanumeric`, `base64_encode`,
`base64_decode`, `utf8_text`, `parse_date_time`, `parse_date`), the names
`base64_decoded`, `form_time_parsed` and `form_date_parsed` for what
`base64::decode` and chrono's parsers give, and the declaration of chrono's
`NaiveDateTime`: their contracts are trusted, not proved, and each says in
its doc comment what it claims of the outside code.

Dates are held as day numbers (1 January of year 1 is day 1, as chrono's
`num_days_from_ce` counts them) and times as a day, a second since midnight
and a nanosecond, so that contracts can speak of them.

- `src/forms.rs`: the posted forms, their checks, and the records made from them.
- `src/session.rs`: the session cookie, its Base64 value, the per-request
  cookie check, login decisions, and where refused requests go.
- `src/path.rs`: the key of a request path that rights are granted on.
- `src/ids.rs`, `src/text.rs`: comma-separated id lists, decimal numbers,
  splitting and trimming text.
- `src/rights.rs`: the role editor's check boxes.
- `src/stock.rs`: the daily rise and fall counts.
- `src/reptile.rs`, `src/autocar.rs`: scraped auctions, recommended cars and
  their photos.
- `src/paging.rs`, `src/cache.rs`, `src/chat.rs`, `src/upload.rs`,
  `src/visits.rs`: listing pages, the menus cache, the chat room, upload
  replies and visit counts.

`app/` holds the web side (warp, serde, the clock, files, websockets), and the
forms whose prices are floating-point numbers.
