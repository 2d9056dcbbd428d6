# cio

Record keeping for a company's operations data, verified with Verus.

- `src/text.rs`: character-level string operations (trimming, prefix and
  suffix tests, truncation), each stated over `Seq<char>`.
- `src/dates.rs`: the time values the records carry.
- `src/meetings.rs`: which calendar events hold a meeting recording, the
  record kept for each, how stored and Airtable transcripts are merged, and
  when a recording is sent for transcription.
- `src/meeting_sync.rs`: the sync of one calendar event as a step
  function from state and input to next state and action.
- `src/travel.rs`: the record kept for each travel booking.
- `src/templates.rs`: the nginx and Cloudflare terraform files generated for
  short URLs, rendered with `handlebars`.
- `app/`: the sync jobs that talk to Google Calendar, Google Drive, Rev.ai,
  TripActions and the configuration repository, and call the library for
  every decision.
- `tests/`: tests of the library on concrete values.
