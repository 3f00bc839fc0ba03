# beryl_metadata

The decisions of a metadata service for a distributed file system, verified with Verus.

- `src/` is the library. It holds the domain values and their wire forms, the registry of
  write sessions, placement, the stages of every file system operation, and what the service
  answers to workers. It does no I/O: what storage, replication and workers say comes in as
  arguments, and so does the time.
- `tests/` runs the library on concrete values.
- `app/` is the runtime around it: locks, clocks, async drivers, serde and error types.

## Layout of the library

| module | what it holds |
| --- | --- |
| `text`, `ids`, `lease`, `fs`, `layout`, `location`, `worker_info`, `group_watermark` | domain values and their texts |
| `outside_uuid` | the calls into the `uuid` crate |
| `rpc_error`, `error`, `header` | what callers are told, and who they are |
| `proto` | wire messages and conversions |
| `session` | the write session registry: its model, its indexed tables, its operations and their laws |
| `inode`, `placement` | stored files, and the choice of workers |
| `filesystem` | the stages of namespace, write, publication and read operations |
| `worker` | registrations, heartbeats and block reports of workers |
| `wire` | request contexts and response headers |

An operation of the service is a sequence of stages. Each stage is a function from what is
known to the next step or to the failure that the caller is told; its contract is a spec
function over the views of its arguments. What lies between two stages (a proposal, a read,
a wait) is done by the drivers in `app/`. Whoever holds an opening, a reservation or a
publication across such a gap gives it up on every failure, and the contracts say so. The
one exception is a publication that was submitted: its command may still apply, so its
session stays until a lease end behind it rules that out.
