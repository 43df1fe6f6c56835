# obsidian_ai_agent

A Telegram agent that turns text, voice, photo, PDF and link messages into
entries of an Obsidian daily note, keeps a per-asset finance ledger, and
syncs the vault with git.

## Layout

- `src/` — the library, verified with Verus: daily-note layout (section
  insertion, entry replacement, Moment.js date formats, templates),
  frontmatter splitting, merging, framing and update over a plain YAML
  value model, note entries and replies,
  link detection and page extraction, caption parsing, AI request bodies
  and answer reading, the retry policy, the git command protocol of a sync
  and its debounce schedule, the conflict dialogue texts, configuration
  assembly, and the finance bot's prompts and decisions. Calls into
  outside crates (linkify, url, scraper, regex, uuid, base64, chrono,
  serde_yml, kamadak-exif) sit behind small trusted wrappers whose contracts are stated
  next to them.
- `app/` — the program around it: Telegram dispatch, HTTP clients for the
  AI providers, file and process I/O, the web interface, and the loop that
  runs git commands for the library's sync protocol.
- `tests/` — tests of the library on concrete values.
