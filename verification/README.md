# ligate_node

The core of a Ligate rollup node, verified with Verus.

- `src/bech32m_encoded.rs`, `src/text_codec.rs`, `src/borsh_codec.rs`: the identifiers of the
  chain (`ltx1...`, `lblk1...`, `lsr1...`, `lba1...`, `lsch1...`, `lbz1...`) and their text,
  serialized and Borsh forms.
- `src/state_machine/`: the aliases of those identifiers and the execution modes.
- `src/sequencer/`: the preferred sequencer. `event_plan` says which side effects the events
  of the executor have and in which order, `side_effects_task` performs them one by one and
  handles changes of role, `heartbeat_task` keeps, wins and loses leadership.
  `side_effects_laws` states what holds of the task over many steps.
- `app/`: the formats of serde, Borsh, JSON schema and the like for the types of the library,
  and the asynchronous tasks around its state machines.
- `tests/`: tests of the compiled library.

The calls into `hex`, `bech32` and `borsh`, and the one that hands a text to a formatter, are
the only parts of `src/` that are taken on trust; each is a small function whose comment says
what is claimed of it.
