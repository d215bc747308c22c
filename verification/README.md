# superplan_commit

Commits a completed plan to a thread: the plan and the conversation that led to
it become part of what the model sees, of the thread's recorded history, and of
what clients are told. A repeated request is recognised and changes nothing.

The library is written in Verus. Every function in `src/` carries a contract,
and `src/laws/` states and proves what holds of commits as a whole.

| Module | Holds |
| --- | --- |
| `protocol` | requests, answers, events and notifications, with their views |
| `validation` | which requests are refused |
| `hash`, `text` | the hash of identifiers; digits and white space |
| `ids` | the identifiers of a commit's turns and of its plan item |
| `context` | what the model is given |
| `rollout` | what is recorded, and how an earlier commit is found |
| `notifications` | what clients are told |
| `commit` | the course of a commit, from state and event to state and action |
| `laws` | identifiers, recording and course: the laws |

Two things are taken on trust: what `str::trim` removes, and that the system
clock (`chrono::Utc::now`) may show any time.

`app/` carries out the library's decisions on a `CodexThread` of the app server.
