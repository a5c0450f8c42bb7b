use mouseplay::wndproc::{plan_hijack, HijackPlan, WndProcRegistry};

const HOOK_ADDR: u64 = 0xBEEF_0000;

#[test]
fn plan_hijack_cases() {
    assert_eq!(plan_hijack(None, 0x1234, HOOK_ADDR), HijackPlan::WindowNotFound);
    assert_eq!(
        plan_hijack(Some(0x1000), HOOK_ADDR, HOOK_ADDR),
        HijackPlan::AlreadyInstalled
    );
    assert_eq!(plan_hijack(Some(0x1000), 0x1234, HOOK_ADDR), HijackPlan::Install);
}

#[test]
fn registry_records_original_handlers() {
    let mut reg = WndProcRegistry::new();
    assert_eq!(reg.get(0x1000), None);
    reg.insert(0x1000, 0xAAAA);
    reg.insert(0x2000, 0xBBBB);
    assert_eq!(reg.get(0x1000), Some(0xAAAA));
    assert_eq!(reg.get(0x2000), Some(0xBBBB));
    assert_eq!(reg.get(0x3000), None);
    // A re-subclass replaces the record.
    reg.insert(0x1000, 0xCCCC);
    assert_eq!(reg.get(0x1000), Some(0xCCCC));
}

#[test]
fn forward_target_cases() {
    let mut reg = WndProcRegistry::new();
    reg.insert(0x1000, 0xAAAA);
    reg.insert(0x2000, 0);
    // Forwarding reaches the recorded handler.
    assert_eq!(reg.forward_target(0x1000, true), Some(0xAAAA));
    // A swallowed message goes nowhere.
    assert_eq!(reg.forward_target(0x1000, false), None);
    // A null record or a missing record goes nowhere.
    assert_eq!(reg.forward_target(0x2000, true), None);
    assert_eq!(reg.forward_target(0x3000, true), None);
}
