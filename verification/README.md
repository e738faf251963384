# map_rotation

A Telegram bot that tells which maps of a battle royale game are in rotation in a region,
read from the map rotation page of a statistics site; and the verified library at its core.

- `src/` — the library, verified with Verus:
  - `text` — character-level search, containment and replacement;
  - `json` — JSON documents as the logic reads them (`serde_json` reads the text);
  - `moment` — instants, times of day, week days and the weekly schedule arithmetic
    (`chrono` reads dates and times);
  - `page` — finding the rotation script in a page (`scraper` parses the HTML), cutting the
    patches object out of it and undoing its escapes;
  - `rotation` — the rotation data of a patch, the patch in play, and the maps in play at a
    moment;
  - `message` — the bot's messages and the outcome of asking for a region's rotation;
  - `laws` — properties proved across these functions.
- `tests/` — tests of the library.
- `app/` — the bot itself: fetching the page, Telegram handling, and turning probabilities
  into percentages.
