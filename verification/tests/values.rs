//! Register values, descriptors and launch outcomes on concrete inputs.

use vmx_bringup::adjust::{
    adjust_cr0, adjust_feature_control_msr, adjust_vmx_control, capability_msr, cr4_vmx_enable,
    revision_id, VmxControl,
};
use vmx_bringup::enable::{classify_vmx, enable_vmx, EnableVmx, VmxSupport};
use vmx_bringup::init::access_rights;
use vmx_bringup::launch::{
    vm_exit_reason, vm_succeed, LaunchNext, LaunchReport, LaunchVm, VmOutcome,
};
use vmx_bringup::machine::{physical_address, vmread, Descriptor64, Regions, Reply, VmFail};
use vmx_bringup::msr;
use vmx_bringup::segment::{
    get_cpl, get_tr_base, get_tr_base2, tr_descriptor_address, tr_descriptor_address2,
};

#[test]
fn cr0_gets_its_fixed_bits() {
    // The values of a real processor: PE, NE and PG have to be 1, the upper half has to be 0.
    assert_eq!(adjust_cr0(0x8001_0013, 0x8000_0021, 0xffff_ffff), 0x8001_0033);
    assert_eq!(adjust_cr0(0x8001_0033, 0x8000_0021, 0xffff_ffff), 0x8001_0033);
    assert_eq!(adjust_cr0(0xe005_003f, 0x8000_0021, 0x8000_0021), 0x8000_0021);
    assert_eq!(adjust_cr0(0, 0, u64::MAX), 0);
}

#[test]
fn cr0_loses_its_nameless_bits() {
    assert_eq!(adjust_cr0(u64::MAX, 0, u64::MAX), 0xe005_003f);
    assert_eq!(adjust_cr0(0, u64::MAX, u64::MAX), 0xe005_003f);
    assert_eq!(adjust_cr0(0x40, 0x80, 0xffff), 0);
}

#[test]
fn cr0_bit_fixed_both_ways_is_set() {
    assert_eq!(adjust_cr0(0, 0x1, 0), 0x1);
}

#[test]
fn cr4_gets_vmx_enabled() {
    assert_eq!(cr4_vmx_enable(0), 0x2000);
    assert_eq!(cr4_vmx_enable(0x6f8), 0x26f8);
    assert_eq!(cr4_vmx_enable(0x26f8), 0x26f8);
    assert_eq!(cr4_vmx_enable(1 << 40), (1 << 40) | 0x2000);
}

#[test]
fn feature_control_is_written_only_while_unlocked() {
    assert_eq!(adjust_feature_control_msr(0), Some(0x5));
    assert_eq!(adjust_feature_control_msr(0xff00), Some(0xff05));
    assert_eq!(adjust_feature_control_msr(0x4), Some(0x5));
    assert_eq!(adjust_feature_control_msr(0x1), None);
    assert_eq!(adjust_feature_control_msr(0x5), None);
}

#[test]
fn feature_control_is_not_written_twice() {
    let written = adjust_feature_control_msr(0xff00).unwrap();
    assert_eq!(adjust_feature_control_msr(written), None);
}

#[test]
fn capability_msr_follows_vmx_basic() {
    let with_true = 1 << 55;
    let without_true = !(1u64 << 55);
    let cases = [
        (VmxControl::PinBased, msr::IA32_VMX_TRUE_PINBASED_CTLS, msr::IA32_VMX_PINBASED_CTLS),
        (
            VmxControl::ProcessorBased,
            msr::IA32_VMX_TRUE_PROCBASED_CTLS,
            msr::IA32_VMX_PROCBASED_CTLS,
        ),
        (
            VmxControl::ProcessorBased2,
            msr::IA32_VMX_PROCBASED_CTLS2,
            msr::IA32_VMX_PROCBASED_CTLS2,
        ),
        (VmxControl::VmExit, msr::IA32_VMX_TRUE_EXIT_CTLS, msr::IA32_VMX_EXIT_CTLS),
        (VmxControl::VmEntry, msr::IA32_VMX_TRUE_ENTRY_CTLS, msr::IA32_VMX_ENTRY_CTLS),
    ];
    for (control, true_msr, plain_msr) in cases {
        assert_eq!(capability_msr(control, with_true), true_msr);
        assert_eq!(capability_msr(control, without_true), plain_msr);
    }
}

#[test]
fn controls_are_adjusted_to_their_capabilities() {
    // Pin-based controls of a real processor: bits 1, 2 and 4 have to be 1, bits 0 to 6 may be.
    let capabilities = 0x0000_007f_0000_0016;
    assert_eq!(adjust_vmx_control(capabilities, 0), 0x16);
    assert_eq!(adjust_vmx_control(capabilities, 0x1), 0x17);
    assert_eq!(adjust_vmx_control(capabilities, 0x200), 0x16);
    assert_eq!(adjust_vmx_control(capabilities, 0xffff_ffff), 0x7f);
    assert_eq!(adjust_vmx_control(capabilities, 0x17), 0x17);
}

#[test]
fn controls_that_are_not_allowed_are_left_out_even_when_required() {
    assert_eq!(adjust_vmx_control(0x0000_0000_0000_0001, 0), 0);
}

#[test]
fn controls_keep_the_requested_address_space_size() {
    let exit = 0x01ff_ffff_0003_6dff;
    assert_eq!(adjust_vmx_control(exit, 0x200), 0x3_6fff);
}

#[test]
fn revision_is_the_lower_half_of_vmx_basic() {
    assert_eq!(revision_id(0x00da_0400_0000_0004), 4);
    assert_eq!(revision_id(0xffff_ffff_8000_0001), 0x8000_0001);
}

#[test]
fn cpl_is_the_low_bits_of_cs() {
    assert_eq!(get_cpl(0x08), 0);
    assert_eq!(get_cpl(0x33), 3);
    assert_eq!(get_cpl(0xfffe), 2);
}

#[test]
fn tr_descriptor_lies_at_its_index() {
    assert_eq!(tr_descriptor_address(0xffff_8000_0000_1000, 0x28), 0xffff_8000_0000_1028);
    // The three low bits of the selector are no part of the index.
    assert_eq!(tr_descriptor_address(0x1000, 0x2b), 0x1028);
    assert_eq!(tr_descriptor_address2(0x1000, 0x28), 0x1028);
    assert_eq!(tr_descriptor_address2(0x1000, 0x2b), 0x102b);
    assert_eq!(tr_descriptor_address2(u64::MAX - 0x28, 0x28), u64::MAX);
}

#[test]
fn tr_descriptor_is_put_together_from_its_halves() {
    assert_eq!(get_tr_base(0x5678_0067, 0x1200_8b34), 0x1200_8b34_5678_0067);
    assert_eq!(get_tr_base(0xffff_ffff, 0), 0xffff_ffff);
}

#[test]
fn tr_base_is_read_back_from_its_descriptor() {
    let descriptor = Descriptor64 {
        limit: 0x67,
        base0: 0xcdef,
        base1: 0xab,
        pad1: 0x8b,
        pad2: 0xff,
        base2: 0x89,
        base3: 0xffff_8001,
        zero1: 0xffff_ffff,
    };
    assert_eq!(get_tr_base2(descriptor), 0xffff_8001_89ab_cdef);
}

#[test]
fn null_selectors_have_no_access() {
    assert_eq!(access_rights(0), 0x1_0000);
    assert_eq!(access_rights(0x10), 0xc093);
    assert_eq!(access_rights(1), 0xc093);
}

#[test]
fn vmread_gives_zero_on_failure() {
    assert_eq!(vmread(Ok(7)), 7);
    assert_eq!(vmread(Err(VmFail::Valid)), 0);
    assert_eq!(vmread(Err(VmFail::Invalid)), 0);
}

#[test]
fn exit_reason_keeps_sixteen_bits() {
    assert_eq!(vm_exit_reason(Ok(10)), 10);
    assert_eq!(vm_exit_reason(Ok(0x8000_0021)), 0x21);
    assert_eq!(vm_exit_reason(Ok(0xffff_ffff_ffff_0002)), 2);
    assert_eq!(vm_exit_reason(Err(VmFail::Invalid)), 0);
}

#[test]
fn zero_flag_goes_before_carry_flag() {
    assert_eq!(vm_succeed(0x2), VmOutcome::Succeed);
    assert_eq!(vm_succeed(0x42), VmOutcome::FailValid);
    assert_eq!(vm_succeed(0x3), VmOutcome::FailInvalid);
    assert_eq!(vm_succeed(0x43), VmOutcome::FailValid);
    assert_eq!(vm_succeed(!0x41), VmOutcome::Succeed);
}

#[test]
fn launch_reads_what_its_outcome_calls_for() {
    let launch = LaunchVm::RunGuest;
    assert_eq!(
        launch.next(Reply::Value(0x42)),
        LaunchNext::Continue(LaunchVm::ReadInstructionError)
    );
    assert_eq!(launch.next(Reply::Value(0x2)), LaunchNext::Continue(LaunchVm::ReadExitReason));
    assert_eq!(launch.next(Reply::Value(0x3)), LaunchNext::Report(LaunchReport::FailInvalid));
    assert_eq!(
        LaunchVm::ReadInstructionError.next(Reply::Field(Ok(7))),
        LaunchNext::Report(LaunchReport::FailValid { error: 7 })
    );
    assert_eq!(
        LaunchVm::ReadExitReason.next(Reply::Field(Ok(0x8000_000a))),
        LaunchNext::Report(LaunchReport::Exited { reason: 10 })
    );
}

#[test]
fn only_an_exit_counts_as_success() {
    assert!(LaunchReport::Exited { reason: 0 }.succeeded());
    assert!(!LaunchReport::FailInvalid.succeeded());
    assert!(!LaunchReport::FailValid { error: 0 }.succeeded());
}

#[test]
fn vmx_support_is_read_off_cpuid() {
    assert_eq!(classify_vmx(Some(true)), VmxSupport::Supported);
    assert_eq!(classify_vmx(Some(false)), VmxSupport::Unsupported);
    assert_eq!(classify_vmx(None), VmxSupport::Unknown);
    assert_eq!(enable_vmx(VmxSupport::Supported), Some(EnableVmx::ReadCr4));
    assert_eq!(enable_vmx(VmxSupport::Unsupported), None);
    assert_eq!(enable_vmx(VmxSupport::Unknown), None);
}

#[test]
fn physical_addresses_count_from_the_kernel_image() {
    assert_eq!(physical_address(0xffff_ffff_8000_0000), 0);
    assert_eq!(physical_address(0xffff_ffff_8123_4000), 0x123_4000);
    let regions =
        Regions { vmxon: 0xffff_ffff_8000_1000, vmcs: 0xffff_ffff_8000_2000, guest_stack: 0, guest_code: 0 };
    assert!(regions.in_kernel_image());
    assert!(!Regions { vmxon: 0xffff_ffff_7fff_f000, ..regions }.in_kernel_image());
    assert!(!Regions { vmcs: 0x1000, ..regions }.in_kernel_image());
}
