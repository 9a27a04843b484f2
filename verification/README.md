# yuuka

The core of the Yuuka bot: its settings, its notifications, the schedules of its resident
services, the Instagram feed that it forwards to Discord, and what it decides at the start.
Everything under `src/` is proved with Verus.

| module | what it holds |
| --- | --- |
| `text` | trimming, splitting, joining, decimal numbers |
| `clock` | instants, the two time layouts, the expiry of a token |
| `json`, `yaml`, `db`, `http` | JSON values, YAML mappings, SQLite errors, failed HTTP calls |
| `ids`, `notifier`, `notify_bridge` | identifiers, notifications, what the messenger is asked to send |
| `schedule`, `services` | schedules, the loop of a resident service, which services run |
| `config`, `boot`, `turns` | settings, start-up decisions, turns outside a conversation |
| `instagram::media`, `select`, `unsent`, `graph` | posts and their messages, which posts are new and which still unsent, the Graph API |
| `instagram::account`, `settings`, `service` | the stored link, its settings, the service |
| `instagram::poll`, `poll_laws` | one look for new posts as a machine, and what holds of every look |

Properties that span several functions are public proof functions named `law_...`.

`app/` is the process around the library: HTTP, SQLite, timers, signals. `tests/` runs the
library with the real outside crates.
