# domain_manager

The core of a domain and DNS manager, verified with Verus: DNS record
models and their conversions for the Aliyun and Cloudflare services, the
request builders and answer checks of their clients, the agent registry and
hub protocol, configuration helpers, the state transitions of the
manager's event handlers, the single-window manager's step function, the
steps of writing an edited record through to its provider, and what the
domain list, the account rows and the console tabs show.

Layout:

- `src/` – the verified library. Functions carry `requires` / `ensures`
  contracts; proof functions named `lemma_*` and marked `pub` state the
  library's laws (round trips of record conversions and number texts,
  bounded console logs, unique account names, distinct domain names,
  registry lookups, help-page round trips). Work outside the process
  (store, cloud APIs, window, timers) is described by returned effects or
  actions, and the answers come back as messages or events.
- `tests/` – tests of the library on concrete values.
- `app/` – the program around the library: reading the settings files,
  installing the logging, printing the help table, reading saved service
  answers, and running the messages of both managers, carrying out the
  effects this build can perform (settings, browser, timers, and the
  lookups and synchronisation the handlers answer with sample data).
