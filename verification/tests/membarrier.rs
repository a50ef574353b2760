use core::sync::atomic::{fence, Ordering};

use membarrier::fallback;
use membarrier::fatal::Fatal;
use membarrier::gateway;
use membarrier::gateway::MembarrierCmd;
use membarrier::page;
use membarrier::page::{IsaFamily, PageBarrier, Phase, Protection};
use membarrier::strategy::Strategy;
use membarrier::{heavy, init_membarrier, light, light_membarrier, KernelWork, LightFence, Membarrier};

#[test]
fn fences() {
    let h = Membarrier::new(false, false);
    light(&h); // light-weight barrier
    fence(Ordering::SeqCst); // normal barrier
    heavy(&h); // heavy-weight barrier
}

#[test]
fn resolve_prefers_syscall() {
    assert_eq!(Membarrier::new(true, true).strategy(), Strategy::SyscallBarrier);
    assert_eq!(Membarrier::new(true, false).strategy(), Strategy::SyscallBarrier);
}

#[test]
fn resolve_falls_back_to_page_trick() {
    assert_eq!(Membarrier::new(false, true).strategy(), Strategy::PageProtectionBarrier);
}

#[test]
fn resolve_falls_back_to_fence() {
    assert_eq!(Membarrier::new(false, false).strategy(), Strategy::FenceFallback);
}

#[test]
fn resolve_is_deterministic() {
    for &(s, p) in &[(false, false), (false, true), (true, false), (true, true)] {
        let first = Membarrier::new(s, p).strategy();
        for _ in 0..100 {
            assert_eq!(Membarrier::new(s, p).strategy(), first);
        }
    }
}

#[test]
fn cmd_values_match_kernel_abi() {
    assert_eq!(gateway::cmd_value(MembarrierCmd::Query), 0);
    assert_eq!(gateway::cmd_value(MembarrierCmd::Global), 1);
    assert_eq!(gateway::cmd_value(MembarrierCmd::GlobalExpedited), 2);
    assert_eq!(gateway::cmd_value(MembarrierCmd::RegisterGlobalExpedited), 4);
    assert_eq!(gateway::cmd_value(MembarrierCmd::PrivateExpedited), 8);
    assert_eq!(gateway::cmd_value(MembarrierCmd::RegisterPrivateExpedited), 16);
    assert_eq!(gateway::cmd_value(MembarrierCmd::PrivateExpeditedSyncCore), 32);
    assert_eq!(gateway::cmd_value(MembarrierCmd::RegisterPrivateExpeditedSyncCore), 64);
}

#[test]
fn query_verdict_requires_both_bits() {
    // Both required capability bits set: registration is owed next.
    assert_eq!(gateway::on_query_result(6), Some(MembarrierCmd::RegisterGlobalExpedited));
    assert_eq!(gateway::on_query_result(127), Some(MembarrierCmd::RegisterGlobalExpedited));
    // Only one of the two bits, or none, or an error code: unsupported.
    assert_eq!(gateway::on_query_result(2), None);
    assert_eq!(gateway::on_query_result(4), None);
    assert_eq!(gateway::on_query_result(1), None);
    assert_eq!(gateway::on_query_result(0), None);
    assert_eq!(gateway::on_query_result(-1), None);
    // An error code is unsupported even if its bit pattern looks right.
    assert_eq!(gateway::on_query_result(-2), None);
}

#[test]
fn register_verdict_follows_return_code() {
    assert!(gateway::on_register_result(0));
    assert!(gateway::on_register_result(1));
    assert!(!gateway::on_register_result(-1));
}

#[test]
fn probe_needs_query_bits_and_registration() {
    assert!(gateway::is_supported(6, 0));
    assert!(!gateway::is_supported(6, -1));
    assert!(!gateway::is_supported(2, 0));
    assert!(!gateway::is_supported(-1, 0));
}

#[test]
fn barrier_verdict_is_fatal_on_error() {
    assert!(matches!(gateway::barrier(0), Ok(())));
    assert!(matches!(gateway::barrier(1), Ok(())));
    assert!(matches!(gateway::barrier(-1), Err(Fatal::BarrierSyscall)));
}

#[test]
fn page_trick_restricted_to_x86_families() {
    assert!(page::is_supported(IsaFamily::X86));
    assert!(page::is_supported(IsaFamily::X86_64));
    assert!(!page::is_supported(IsaFamily::Other));
}

#[test]
fn page_setup_builds_resting_page() {
    let pb = PageBarrier::initialize(4096, Some(8192), 0, 0, 0, 0).unwrap();
    assert_eq!(pb.phase(), Phase::Idle);
    assert_eq!(pb.protection(), Protection::NoAccess);
    assert_eq!(pb.writes(), 0);
    assert_eq!(pb.page_size(), 4096);
}

#[test]
fn page_setup_rejects_bad_page_size() {
    assert!(matches!(
        PageBarrier::initialize(0, Some(8192), 0, 0, 0, 0),
        Err(Fatal::PageSetup)
    ));
    assert!(matches!(
        PageBarrier::initialize(-1, Some(8192), 0, 0, 0, 0),
        Err(Fatal::PageSetup)
    ));
}

#[test]
fn page_setup_rejects_failed_mapping() {
    assert!(matches!(
        PageBarrier::initialize(4096, None, 0, 0, 0, 0),
        Err(Fatal::PageSetup)
    ));
}

#[test]
fn page_setup_rejects_unaligned_mapping() {
    assert!(matches!(
        PageBarrier::initialize(4096, Some(4097), 0, 0, 0, 0),
        Err(Fatal::PageSetup)
    ));
}

#[test]
fn page_setup_rejects_mutex_failure() {
    assert!(matches!(
        PageBarrier::initialize(4096, Some(8192), 1, 0, 0, 0),
        Err(Fatal::PageSetup)
    ));
    assert!(matches!(
        PageBarrier::initialize(4096, Some(8192), 0, 22, 0, 0),
        Err(Fatal::PageSetup)
    ));
    assert!(matches!(
        PageBarrier::initialize(4096, Some(8192), 0, 0, 12, 0),
        Err(Fatal::PageSetup)
    ));
    assert!(matches!(
        PageBarrier::initialize(4096, Some(8192), 0, 0, 0, 22),
        Err(Fatal::PageSetup)
    ));
}

#[test]
fn page_cycle_walks_the_protection_states() {
    let mut pb = PageBarrier::initialize(4096, Some(0), 0, 0, 0, 0).unwrap();
    assert!(pb.lock_acquired(0).is_ok());
    assert_eq!(pb.protection(), Protection::NoAccess);
    assert!(pb.protection_raised(0).is_ok());
    assert_eq!(pb.protection(), Protection::ReadWrite);
    pb.page_dirtied();
    assert_eq!(pb.protection(), Protection::ReadWrite);
    assert_eq!(pb.writes(), 1);
    assert!(pb.protection_cleared(0).is_ok());
    assert_eq!(pb.protection(), Protection::NoAccess);
    assert!(pb.lock_released(0).is_ok());
    assert_eq!(pb.phase(), Phase::Idle);
}

#[test]
fn page_cycles_end_with_no_access() {
    // Repeated heavy barriers through the page trick: every full cycle must
    // leave the page protection in the no-access state.
    let mut pb = PageBarrier::initialize(4096, Some(40960), 0, 0, 0, 0).unwrap();
    for round in 1..=16u64 {
        assert!(pb.lock_acquired(0).is_ok());
        assert!(pb.protection_raised(0).is_ok());
        pb.page_dirtied();
        assert!(pb.protection_cleared(0).is_ok());
        assert!(pb.lock_released(0).is_ok());
        assert_eq!(pb.protection(), Protection::NoAccess);
        assert_eq!(pb.phase(), Phase::Idle);
        assert_eq!(pb.writes(), round);
    }
}

#[test]
fn page_cycle_fatal_on_lock_failure() {
    let mut pb = PageBarrier::initialize(4096, Some(8192), 0, 0, 0, 0).unwrap();
    assert!(matches!(pb.lock_acquired(22), Err(Fatal::PageLock)));
    assert_eq!(pb.phase(), Phase::Idle);
    assert_eq!(pb.protection(), Protection::NoAccess);
}

#[test]
fn page_cycle_fatal_on_protection_failure() {
    let mut pb = PageBarrier::initialize(4096, Some(8192), 0, 0, 0, 0).unwrap();
    assert!(pb.lock_acquired(0).is_ok());
    assert!(matches!(pb.protection_raised(-1), Err(Fatal::PageProtection)));
    // The model does not advance on a fatal transition.
    assert_eq!(pb.protection(), Protection::NoAccess);
    assert_eq!(pb.phase(), Phase::Locked);
}

#[test]
fn fallback_pair_never_errors() {
    // With the system call and the page trick both unsupported, light and
    // heavy are plain fences: they complete normally and delegate nothing.
    let h = Membarrier::new(false, false);
    for _ in 0..1000 {
        assert_eq!(light(&h), LightFence::Full);
        assert_eq!(heavy(&h), None);
    }
    fallback::light();
    fallback::heavy();
}

#[test]
fn heavy_dispatches_by_strategy() {
    let syscall = Membarrier::new(true, false);
    let page_trick = Membarrier::new(false, true);
    let fence_only = Membarrier::new(false, false);
    assert_eq!(heavy(&syscall), Some(KernelWork::GlobalBarrier));
    assert_eq!(heavy(&page_trick), Some(KernelWork::PageCycle));
    assert_eq!(heavy(&fence_only), None);
}

#[test]
fn light_is_compiler_fence_under_supported_strategies() {
    assert_eq!(light(&Membarrier::new(true, false)), LightFence::Compiler);
    assert_eq!(light(&Membarrier::new(false, true)), LightFence::Compiler);
    light_membarrier();
}

#[test]
fn init_membarrier_demands_the_syscall_strategy() {
    assert!(matches!(init_membarrier(true), Ok(())));
    assert!(matches!(init_membarrier(false), Err(Fatal::SyscallUnsupported)));
}

#[test]
fn light_then_heavy_single_thread() {
    // A light barrier followed by a heavy one on a single thread completes
    // normally under every strategy.
    for &(s, p) in &[(false, false), (false, true), (true, false)] {
        let h = Membarrier::new(s, p);
        light(&h);
        heavy(&h);
    }
}

#[test]
fn single_registration_across_thousand_heavies() {
    // A scripted gateway double: it records how often each command is issued
    // and answers with controlled return codes.
    let mut queries: u32 = 0;
    let mut registrations: u32 = 0;
    let mut executions: u32 = 0;

    // One-time probe: the kernel advertises both capability bits, so the
    // verdict owes exactly one registration call, which succeeds.
    queries += 1;
    let next = gateway::on_query_result(6);
    assert_eq!(next, Some(MembarrierCmd::RegisterGlobalExpedited));
    registrations += 1;
    let supported = gateway::on_register_result(0);
    assert!(supported);

    let h = Membarrier::new(supported, false);
    assert_eq!(h.strategy(), Strategy::SyscallBarrier);

    for _ in 0..1000 {
        match heavy(&h) {
            Some(KernelWork::GlobalBarrier) => {
                executions += 1;
                assert!(gateway::barrier(0).is_ok());
            }
            other => panic!("heavy owed unexpected work: {:?}", other),
        }
    }

    assert_eq!(queries, 1);
    assert_eq!(registrations, 1);
    assert_eq!(executions, 1000);
}

#[test]
fn operations_never_rerun_setup() {
    // Page-trick strategy: the page is mapped once; any number of barrier
    // calls before and after the first heavy one only ever asks for barrier
    // cycles, never for another setup.
    let mut initializations: u32 = 0;

    let h = Membarrier::new(false, true);
    for _ in 0..10 {
        light(&h);
    }

    initializations += 1;
    let mut pb = PageBarrier::initialize(4096, Some(8192), 0, 0, 0, 0).unwrap();

    for _ in 0..100 {
        match heavy(&h) {
            Some(KernelWork::PageCycle) => {
                assert!(pb.lock_acquired(0).is_ok());
                assert!(pb.protection_raised(0).is_ok());
                pb.page_dirtied();
                assert!(pb.protection_cleared(0).is_ok());
                assert!(pb.lock_released(0).is_ok());
            }
            other => panic!("heavy owed unexpected work: {:?}", other),
        }
        light(&h);
    }

    assert_eq!(initializations, 1);
    assert_eq!(pb.writes(), 100);
}
