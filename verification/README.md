# vmx_bringup

Brings up Intel VMX on one processor: it enters VMX operation, makes a VMCS current, fills it in so
that a guest runs with the state of the host, launches that guest once, reports what came of it and
leaves VMX operation again.

The library touches no hardware. A `Session` hands out one `Action` at a time, and goes on with the
`Reply` to it; a driver performs the actions. This is what makes every decision a function with a
contract, which Verus proves.

- `src/machine.rs`: actions, replies, and the memory that the processor is given
- `src/adjust.rs`, `src/segment.rs`: register values and descriptors
- `src/enable.rs`, `src/init.rs`, `src/launch.rs`: the parts of the bring-up, in their order
- `src/session.rs`: the bring-up from end to end
- `src/msr.rs`, `src/vmcs/`: register addresses and field encodings
- `src/arch.rs`: calls into the `x86` and `x86_64` crates, whose contracts are believed
- `src/model.rs`, `src/laws/`: a processor as the bring-up sees it, and what holds of runs on it
- `app/`: the driver, for a kernel at CPL 0
