# scriba

The terminal interface of Scriba, a recorder that transcribes what it hears and
answers questions about it, as a verified library.

- `src/` holds the library. Every screen is a state with a mathematical view; a
  key, a click or a piece of news takes one state to the next, and the screen is
  a function of the state. Each function states which one it is, and Verus
  proves it.
- `app/` is the program around it: it draws with `ratatui`, reads keys with
  `crossterm`, and does the chores that the library asks for.
- `tests/` runs the library on concrete values.

| Part | Modules |
| --- | --- |
| Text and layout | `text`, `numbers`, `times`, `json`, `wrap`, `style`, `geometry`, `center`, `keys`, `markdown` |
| Chat | `chat`, `chat_lines`, `chat_view`, `chat_keys`, `chat_laws`, `home` |
| Recordings | `recordings`, `browse`, `browse_view`, `transcript`, `recording`, `jobs`, `voice` |
| Settings | `config`, `providers`, `settings`, `settings_text`, `settings_view`, `settings_laws` |
| Entities | `entities`, `entities_view` |
| First run | `onboarding`, `onboarding_tick`, `onboarding_view`, `ollama` |
| All together | `dashboard`, `dashboard_tick`, `dashboard_view`, `update` |
