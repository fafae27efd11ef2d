//! What the bring-up asks of the processor, and what the processor answers.
//!
//! The bring-up itself touches no hardware. It hands out one [`Action`] at a time; whoever drives
//! it performs the action and hands back the [`Reply`].

use vstd::prelude::*;

verus! {

/// Address at which the kernel image is linked. Its physical addresses count from here.
pub const KERNEL_CODE_BASE: u64 = 0xffff_ffff_8000_0000;

/// A register that is read as one 64-bit value.
#[derive(Clone, Copy, Debug, PartialEq, Eq)]
pub enum Register {
    /// CR0, with the bits that have no name cleared.
    Cr0,
    /// CR3.
    Cr3,
    /// CR4, with the bits that have no name cleared.
    Cr4,
    /// CR4 as it is read in order to be written back: every architectural flag.
    Cr4Flags,
    /// Base address of the global descriptor table.
    GdtBase,
    /// Base address of the interrupt descriptor table.
    IdtBase,
    /// The model-specific register at this address.
    Msr(u32),
}

/// A segment register, or the task register.
#[derive(Clone, Copy, Debug, PartialEq, Eq)]
pub enum Segment {
    Es,
    Cs,
    Ss,
    Ds,
    Fs,
    Gs,
    Tr,
}

/// A system-segment descriptor of the global descriptor table, 16 bytes in 64-bit mode, field by
/// field in the order in which they lie in memory.
#[derive(Clone, Copy, Debug, PartialEq, Eq)]
pub struct Descriptor64 {
    pub limit: u16,
    pub base0: u16,
    pub base1: u8,
    pub pad1: u8,
    pub pad2: u8,
    pub base2: u8,
    pub base3: u32,
    pub zero1: u32,
}

/// How a VMX instruction fails.
#[derive(Clone, Copy, Debug, PartialEq, Eq)]
pub enum VmFail {
    /// There is a current VMCS, and its VM-instruction error field says what went wrong.
    Valid,
    /// There is no current VMCS.
    Invalid,
}

/// One operation on the processor.
#[derive(Clone, Copy, Debug, PartialEq, Eq)]
pub enum Action {
    /// Read a register; answered by [`Reply::Value`].
    Read(Register),
    /// Write the value to the MSR at the address; answered by [`Reply::Done`].
    WriteMsr(u32, u64),
    /// Write CR0; answered by [`Reply::Done`].
    WriteCr0(u64),
    /// Write the architectural flags of CR4 and leave its other bits; answered by
    /// [`Reply::Done`].
    WriteCr4Flags(u64),
    /// Read the selector of a segment register; answered by [`Reply::Selector`].
    ReadSelector(Segment),
    /// Read the descriptor at this linear address; answered by [`Reply::Descriptor`].
    ReadDescriptor(u64),
    /// Store the revision identifier in the VMXON region and execute VMXON on the physical
    /// address; answered by [`Reply::Instruction`].
    Vmxon { address: u64, revision: u32 },
    /// Store the revision identifier in the VMCS region and execute VMCLEAR on the physical
    /// address; answered by [`Reply::Instruction`].
    Vmclear { address: u64, revision: u32 },
    /// Execute VMPTRLD on the physical address; answered by [`Reply::Instruction`].
    Vmptrld { address: u64 },
    /// Execute VMREAD of a field; answered by [`Reply::Field`].
    VmRead(u32),
    /// Execute VMWRITE of a value to a field; answered by [`Reply::Instruction`].
    VmWrite(u32, u64),
    /// Run the guest until it exits; answered by [`Reply::Value`], the flags register afterwards.
    RunGuest,
    /// Execute VMXOFF; answered by [`Reply::Done`].
    Vmxoff,
}

/// The answer to an [`Action`].
#[derive(Clone, Copy, Debug, PartialEq, Eq)]
pub enum Reply {
    /// The action was performed.
    Done,
    /// The value that was read.
    Value(u64),
    /// The selector that was read.
    Selector(u16),
    /// The descriptor that was read.
    Descriptor(Descriptor64),
    /// How a VMX instruction that returns nothing ended.
    Instruction(Result<(), VmFail>),
    /// How VMREAD ended.
    Field(Result<u64, VmFail>),
}

impl Reply {
    /// A VMX instruction that returns nothing was executed, and succeeded.
    pub open spec fn instruction_succeeded(self) -> bool {
        self matches Reply::Instruction(Ok(_))
    }
}

/// Linear addresses of the memory that the bring-up hands to the processor.
#[derive(Clone, Copy, Debug, PartialEq, Eq)]
pub struct Regions {
    /// The VMXON region.
    pub vmxon: u64,
    /// The VMCS region.
    pub vmcs: u64,
    /// The stack that the guest starts on.
    pub guest_stack: u64,
    /// The first instruction of the guest.
    pub guest_code: u64,
}

impl Regions {
    /// Both regions that the processor addresses physically lie in the kernel image.
    pub open spec fn wf(self) -> bool {
        &&& self.vmxon >= KERNEL_CODE_BASE
        &&& self.vmcs >= KERNEL_CODE_BASE
    }

    /// Whether [`physical_address`] exists for both regions that need one.
    pub fn in_kernel_image(&self) -> (inside: bool)
        ensures
            inside == self.wf(),
    {
        self.vmxon >= KERNEL_CODE_BASE && self.vmcs >= KERNEL_CODE_BASE
    }
}

/// The physical address of a linear address inside the kernel image.
pub open spec fn physical_of(linear: u64) -> int {
    linear - KERNEL_CODE_BASE
}

/// The physical address of a linear address inside the kernel image.
pub fn physical_address(linear: u64) -> (physical: u64)
    requires
        linear >= KERNEL_CODE_BASE,
    ensures
        physical == linear - KERNEL_CODE_BASE,
        physical == physical_of(linear),
{
    linear - KERNEL_CODE_BASE
}

/// What VMREAD is taken to have read: 0 where it failed.
pub open spec fn field_value(result: Result<u64, VmFail>) -> u64 {
    match result {
        Ok(value) => value,
        Err(_) => 0,
    }
}

/// The value that VMREAD gave back, or 0 where it failed.
pub fn vmread(result: Result<u64, VmFail>) -> (value: u64)
    ensures
        value == field_value(result),
{
    match result {
        Ok(value) => value,
        Err(_) => 0,
    }
}

} // verus!
