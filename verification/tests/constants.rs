//! The constants of the library against those of the `x86` and `x86_64` crates.

use vmx_bringup::arch::{CR0_FLAGS, CR4_VMXE, FLAGS_CF, FLAGS_ZF};
use vmx_bringup::msr;
use vmx_bringup::vmcs::{control, guest, host, ro};
use x86::vmx::vmcs as reference;

#[test]
fn msr_addresses_are_those_of_x86() {
    assert_eq!(msr::IA32_FEATURE_CONTROL, x86::msr::IA32_FEATURE_CONTROL);
    assert_eq!(msr::SYSENTER_CS_MSR, x86::msr::SYSENTER_CS_MSR);
    assert_eq!(msr::SYSENTER_ESP_MSR, x86::msr::SYSENTER_ESP_MSR);
    assert_eq!(msr::SYSENTER_EIP_MSR, x86::msr::SYSENTER_EIP_MSR);
    assert_eq!(msr::IA32_VMX_BASIC, x86::msr::IA32_VMX_BASIC);
    assert_eq!(msr::IA32_VMX_PINBASED_CTLS, x86::msr::IA32_VMX_PINBASED_CTLS);
    assert_eq!(msr::IA32_VMX_PROCBASED_CTLS, x86::msr::IA32_VMX_PROCBASED_CTLS);
    assert_eq!(msr::IA32_VMX_EXIT_CTLS, x86::msr::IA32_VMX_EXIT_CTLS);
    assert_eq!(msr::IA32_VMX_ENTRY_CTLS, x86::msr::IA32_VMX_ENTRY_CTLS);
    assert_eq!(msr::IA32_VMX_CR0_FIXED0, x86::msr::IA32_VMX_CR0_FIXED0);
    assert_eq!(msr::IA32_VMX_CR0_FIXED1, x86::msr::IA32_VMX_CR0_FIXED1);
    assert_eq!(msr::IA32_VMX_PROCBASED_CTLS2, x86::msr::IA32_VMX_PROCBASED_CTLS2);
    assert_eq!(msr::IA32_VMX_TRUE_PINBASED_CTLS, x86::msr::IA32_VMX_TRUE_PINBASED_CTLS);
    assert_eq!(msr::IA32_VMX_TRUE_PROCBASED_CTLS, x86::msr::IA32_VMX_TRUE_PROCBASED_CTLS);
    assert_eq!(msr::IA32_VMX_TRUE_EXIT_CTLS, x86::msr::IA32_VMX_TRUE_EXIT_CTLS);
    assert_eq!(msr::IA32_VMX_TRUE_ENTRY_CTLS, x86::msr::IA32_VMX_TRUE_ENTRY_CTLS);
    assert_eq!(msr::IA32_FS_BASE, x86::msr::IA32_FS_BASE);
    assert_eq!(msr::IA32_GS_BASE, x86::msr::IA32_GS_BASE);
}

#[test]
fn control_fields_are_those_of_x86() {
    assert_eq!(control::VPID, reference::control::VPID);
    assert_eq!(control::PINBASED_EXEC_CONTROLS, reference::control::PINBASED_EXEC_CONTROLS);
    assert_eq!(control::PRIMARY_PROCBASED_EXEC_CONTROLS, reference::control::PRIMARY_PROCBASED_EXEC_CONTROLS);
    assert_eq!(control::EXCEPTION_BITMAP, reference::control::EXCEPTION_BITMAP);
    assert_eq!(control::VMEXIT_CONTROLS, reference::control::VMEXIT_CONTROLS);
    assert_eq!(control::VMENTRY_CONTROLS, reference::control::VMENTRY_CONTROLS);
    assert_eq!(control::SECONDARY_PROCBASED_EXEC_CONTROLS, reference::control::SECONDARY_PROCBASED_EXEC_CONTROLS);
}

#[test]
fn host_fields_are_those_of_x86() {
    assert_eq!(host::ES_SELECTOR, reference::host::ES_SELECTOR);
    assert_eq!(host::CS_SELECTOR, reference::host::CS_SELECTOR);
    assert_eq!(host::SS_SELECTOR, reference::host::SS_SELECTOR);
    assert_eq!(host::DS_SELECTOR, reference::host::DS_SELECTOR);
    assert_eq!(host::FS_SELECTOR, reference::host::FS_SELECTOR);
    assert_eq!(host::GS_SELECTOR, reference::host::GS_SELECTOR);
    assert_eq!(host::TR_SELECTOR, reference::host::TR_SELECTOR);
    assert_eq!(host::IA32_PAT_FULL, reference::host::IA32_PAT_FULL);
    assert_eq!(host::IA32_EFER_FULL, reference::host::IA32_EFER_FULL);
    assert_eq!(host::IA32_PERF_GLOBAL_CTRL_FULL, reference::host::IA32_PERF_GLOBAL_CTRL_FULL);
    assert_eq!(host::IA32_SYSENTER_CS, reference::host::IA32_SYSENTER_CS);
    assert_eq!(host::CR0, reference::host::CR0);
    assert_eq!(host::CR3, reference::host::CR3);
    assert_eq!(host::CR4, reference::host::CR4);
    assert_eq!(host::FS_BASE, reference::host::FS_BASE);
    assert_eq!(host::GS_BASE, reference::host::GS_BASE);
    assert_eq!(host::TR_BASE, reference::host::TR_BASE);
    assert_eq!(host::GDTR_BASE, reference::host::GDTR_BASE);
    assert_eq!(host::IDTR_BASE, reference::host::IDTR_BASE);
    assert_eq!(host::IA32_SYSENTER_ESP, reference::host::IA32_SYSENTER_ESP);
    assert_eq!(host::IA32_SYSENTER_EIP, reference::host::IA32_SYSENTER_EIP);
}

#[test]
fn guest_fields_are_those_of_x86() {
    assert_eq!(guest::ES_SELECTOR, reference::guest::ES_SELECTOR);
    assert_eq!(guest::CS_SELECTOR, reference::guest::CS_SELECTOR);
    assert_eq!(guest::SS_SELECTOR, reference::guest::SS_SELECTOR);
    assert_eq!(guest::DS_SELECTOR, reference::guest::DS_SELECTOR);
    assert_eq!(guest::FS_SELECTOR, reference::guest::FS_SELECTOR);
    assert_eq!(guest::GS_SELECTOR, reference::guest::GS_SELECTOR);
    assert_eq!(guest::LDTR_SELECTOR, reference::guest::LDTR_SELECTOR);
    assert_eq!(guest::TR_SELECTOR, reference::guest::TR_SELECTOR);
    assert_eq!(guest::INTERRUPT_STATUS, reference::guest::INTERRUPT_STATUS);
    assert_eq!(guest::PML_INDEX, reference::guest::PML_INDEX);
    assert_eq!(guest::LINK_PTR_FULL, reference::guest::LINK_PTR_FULL);
    assert_eq!(guest::IA32_DEBUGCTL_FULL, reference::guest::IA32_DEBUGCTL_FULL);
    assert_eq!(guest::IA32_PAT_FULL, reference::guest::IA32_PAT_FULL);
    assert_eq!(guest::IA32_EFER_FULL, reference::guest::IA32_EFER_FULL);
    assert_eq!(guest::IA32_PERF_GLOBAL_CTRL_FULL, reference::guest::IA32_PERF_GLOBAL_CTRL_FULL);
    assert_eq!(guest::ES_LIMIT, reference::guest::ES_LIMIT);
    assert_eq!(guest::CS_LIMIT, reference::guest::CS_LIMIT);
    assert_eq!(guest::SS_LIMIT, reference::guest::SS_LIMIT);
    assert_eq!(guest::DS_LIMIT, reference::guest::DS_LIMIT);
    assert_eq!(guest::FS_LIMIT, reference::guest::FS_LIMIT);
    assert_eq!(guest::GS_LIMIT, reference::guest::GS_LIMIT);
    assert_eq!(guest::LDTR_LIMIT, reference::guest::LDTR_LIMIT);
    assert_eq!(guest::TR_LIMIT, reference::guest::TR_LIMIT);
    assert_eq!(guest::GDTR_LIMIT, reference::guest::GDTR_LIMIT);
    assert_eq!(guest::IDTR_LIMIT, reference::guest::IDTR_LIMIT);
    assert_eq!(guest::ES_ACCESS_RIGHTS, reference::guest::ES_ACCESS_RIGHTS);
    assert_eq!(guest::CS_ACCESS_RIGHTS, reference::guest::CS_ACCESS_RIGHTS);
    assert_eq!(guest::SS_ACCESS_RIGHTS, reference::guest::SS_ACCESS_RIGHTS);
    assert_eq!(guest::DS_ACCESS_RIGHTS, reference::guest::DS_ACCESS_RIGHTS);
    assert_eq!(guest::FS_ACCESS_RIGHTS, reference::guest::FS_ACCESS_RIGHTS);
    assert_eq!(guest::GS_ACCESS_RIGHTS, reference::guest::GS_ACCESS_RIGHTS);
    assert_eq!(guest::LDTR_ACCESS_RIGHTS, reference::guest::LDTR_ACCESS_RIGHTS);
    assert_eq!(guest::TR_ACCESS_RIGHTS, reference::guest::TR_ACCESS_RIGHTS);
    assert_eq!(guest::INTERRUPTIBILITY_STATE, reference::guest::INTERRUPTIBILITY_STATE);
    assert_eq!(guest::ACTIVITY_STATE, reference::guest::ACTIVITY_STATE);
    assert_eq!(guest::IA32_SYSENTER_CS, reference::guest::IA32_SYSENTER_CS);
    assert_eq!(guest::VMX_PREEMPTION_TIMER_VALUE, reference::guest::VMX_PREEMPTION_TIMER_VALUE);
    assert_eq!(guest::CR0, reference::guest::CR0);
    assert_eq!(guest::CR3, reference::guest::CR3);
    assert_eq!(guest::CR4, reference::guest::CR4);
    assert_eq!(guest::ES_BASE, reference::guest::ES_BASE);
    assert_eq!(guest::CS_BASE, reference::guest::CS_BASE);
    assert_eq!(guest::SS_BASE, reference::guest::SS_BASE);
    assert_eq!(guest::DS_BASE, reference::guest::DS_BASE);
    assert_eq!(guest::FS_BASE, reference::guest::FS_BASE);
    assert_eq!(guest::GS_BASE, reference::guest::GS_BASE);
    assert_eq!(guest::LDTR_BASE, reference::guest::LDTR_BASE);
    assert_eq!(guest::TR_BASE, reference::guest::TR_BASE);
    assert_eq!(guest::GDTR_BASE, reference::guest::GDTR_BASE);
    assert_eq!(guest::IDTR_BASE, reference::guest::IDTR_BASE);
    assert_eq!(guest::RSP, reference::guest::RSP);
    assert_eq!(guest::RIP, reference::guest::RIP);
    assert_eq!(guest::RFLAGS, reference::guest::RFLAGS);
    assert_eq!(guest::IA32_SYSENTER_ESP, reference::guest::IA32_SYSENTER_ESP);
    assert_eq!(guest::IA32_SYSENTER_EIP, reference::guest::IA32_SYSENTER_EIP);
}

#[test]
fn ro_fields_are_those_of_x86() {
    assert_eq!(ro::VM_INSTRUCTION_ERROR, reference::ro::VM_INSTRUCTION_ERROR);
    assert_eq!(ro::EXIT_REASON, reference::ro::EXIT_REASON);
}

#[test]
fn register_flags_are_those_of_the_crates() {
    assert_eq!(CR0_FLAGS, x86::controlregs::Cr0::all().bits() as u64);
    assert_eq!(
        CR4_VMXE,
        x86_64::registers::control::Cr4Flags::VIRTUAL_MACHINE_EXTENSIONS.bits()
    );
    assert_eq!(FLAGS_CF, x86::current::rflags::RFlags::FLAGS_CF.bits());
    assert_eq!(FLAGS_ZF, x86::current::rflags::RFlags::FLAGS_ZF.bits());
}

#[test]
fn modelled_cr4_masks_are_those_of_the_crates() {
    assert_eq!(
        vmx_bringup::model::CR4_FLAGS,
        x86_64::registers::control::Cr4Flags::all().bits()
    );
    assert_eq!(vmx_bringup::model::CR4_NAMED, x86::controlregs::Cr4::all().bits() as u64);
}
