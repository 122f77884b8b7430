# rf_a

The verified core of an Arm BL31 runtime firmware, written in Verus.

`src/` holds the logic, each function with a contract that Verus proves:

- `smccc`: SMC Calling Convention function IDs and return values.
- `services`: dispatch of SMCs to the Arm architecture, PSCI, FF-A and RMM services;
  `services::psci` holds the PSCI power state rules and the PSCI state machine, over the power
  domain tree of `services::psci::power_domain_tree`, whose coordination keeps every power
  domain in the shallowest state that its CPUs request for it.
- `context`, `exceptions`: CPU contexts of the three worlds and the writing back of SMC results.
- `gpt`: Granule Protection Table descriptor formats.
- `gicv3`, `pagetable`, `logger`, `semihosting`, `sysregs`: configuration values computed for
  the hardware.
- `platform`, `fvp_bl31`, `qemu_bl31`, `builders`: platform descriptions, core numbering,
  power state encodings and power controller sequences.
- `stf`: the decisions of the secure test framework's payloads: the FF-A version and partition
  ID negotiation before any test, the answers of the fake SPMC, and the order of the tests.

Each platform method of the PSCI platform interface extends the platform's own record of the
requests it has received, with what it was handed and what it answered; the PSCI contracts speak
of that record, so they say what the platform was asked for and which of its answers is
returned, as well as how the power domain tree changes. The test platform keeps the record and
also the kinds of the requests, which the tests read.

Calls into the `arm-ffa` crate, and the few calls into `std` for output, go through trusted
wrappers whose contracts state what the crates' sources show. Parse errors for which the crate's
error conversion does not return are told apart by their variants and never converted.

`tests/` runs the library on concrete values. `app/` is a host-side driver that dispatches an
SMC given on the command line and prints the registers it returns.
