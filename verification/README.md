# vtmtools

Companion logic for Vampire: The Masquerade 5th Edition tables: resonance and
dice rolls, V5 skill checks, character-sheet field routing, the bridge that
mirrors Roll20 and Foundry characters, the GM-screen modifier push, and the
advantage/dyscrasia library.

Layout:

- `src/` — the library, written and proved with Verus. Each module states its
  model (spec functions and views) and the contract of every public function;
  laws that span several functions are public proof functions next to them.
  - `dice`, `resonance`, `v5/` — rolls, temperament and resonance, pools,
    interpretation of results, difficulty and messages.
  - `canonical_fields` — the canonical field names and how a write lands in a
    Foundry or Roll20 sheet.
  - `bridge/` — canonical characters and rolls, how each VTT's data maps onto them,
    the roll history, the bridge state machine and the Foundry action
    payloads.
  - `modifier`, `tools/` — character modifiers and templates, the GM-screen
    push plan, character edits (fields and advantages).
  - `library`, `export`, `saved` — advantage library rules, seed data,
    Markdown export, saved-character helpers.
  - `json`, `text`, `random` — a small JSON value model, string helpers, and
    the random sources the rolls draw from.
- `tests/` — tests run against the compiled library.
- `app/` — the program around the library: database access, the WebSocket
  servers, TLS, serialisation and the command layer.
