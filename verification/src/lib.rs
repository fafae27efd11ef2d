//! Bring-up of Intel VMX on one processor: enabling VMX operation, loading a virtual-machine
//! control structure, filling it in so that a guest runs in the host's own address space, and
//! launching that guest once.

pub mod adjust;
pub mod arch;
pub mod enable;
pub mod init;
pub mod launch;
pub mod laws;
pub mod machine;
pub mod model;
pub mod msr;
pub mod segment;
pub mod session;
pub mod vmcs;
