# sanitization

The logic of page-mapped secrets, written and proved in Verus: the policy that
protects them, the order in which an owner is set up and cleaned up, and the
instruments that watch it.

The library makes no system call. It does not map, lock or unmap memory: an
owner works in place on a slice that its caller supplies, which stands for the
data pages of the mapping. What the system answers to each step, the cleanup
included, comes in beforehand as a value, and every contract holds for every
such value. An owner is cleaned up by its `release`, not by going out of scope.

- `src/policy.rs`: requests for protection and reports on what is in force.
- `src/setup.rs`: the order of the protection controls, and what setting an
  owner up comes to for every answer of the system.
- `src/mapped.rs`: `GuardedSecretVec` and `LockedSecretVec`.
- `src/probe.rs`: an observer that injects a failure into one control and
  judges what the backend did.
- `src/trace.rs`: runs of calls on one observer.
- `src/oracle.rs`: the decisions of the fork oracle.
- `src/pages.rs`: arithmetic on whole pages.
- `src/laws.rs`: what holds of all these together.
- `app/`: the observation of a thread, the target system and the system calls.
