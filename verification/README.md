# netssh_core

SSH automation for network devices (Cisco IOS, IOS-XE, NX-OS, ASA, IOS-XR,
Juniper JUNOS), with its decisions verified by Verus.

## Layout

- `src/` is the verified library: Verus proves every function there against
  its contract, save the small trusted wrappers named below. It holds the
  state machines and rules of the library:
  - `session`, `channel`, `retry`: what an interactive session decides (which
    pattern ends a read, how prompts and echoes are stripped, when a read loop
    stops, how timed-out operations are retried);
  - `juniper`: what a Junos session reads from the device (base prompt,
    configuration mode, commit failures) and the commit-or-roll-back run of
    a configuration set;
  - `autodetect`: device type detection as a session that is fed the device's
    replies;
  - `command_result` and `command_result::utils`: results of commands and
    batches, their counters, filters, groupings, CSV and table output;
  - `parallel_execution`: running a device's commands under a failure
    strategy and gathering the results of many devices;
  - `pool`: the bookkeeping of a pool of device connections (lending,
    giving back, expiry);
  - `semaphore`, `buffer_pool`, `settings`, `config`, `device`,
    `vendor_error_patterns`, `api`, `keyed`, `text`, `error`.
  Calls into `regex`, `serde_json`, `rand` and the standard library that the
  logic needs stand behind small trusted wrappers, each with a doc comment that
  says what its contract claims.
- `app/` is the program around the library: the SSH transport (`ssh2`), the
  read loops with their pauses, running devices in parallel on `tokio`, the
  REST server (`actix-web`), logging and settings files. It hands the library
  plain values and acts on what the library decides.
- `tests/` exercises the library on concrete values.
