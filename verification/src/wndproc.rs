//! Registry of displaced window message handlers, and the decisions of the
//! window subclasser.
//!
//! When the host's game window is subclassed, the original handler address
//! is recorded here so the replacement handler can chain to it. Window
//! handles and handler addresses are plain integers; looking the window up
//! by title and swapping the handler pointer is the operating-system layer's
//! part, driven by the decisions computed here.

use std::collections::HashMap;

use vstd::prelude::*;

verus! {

broadcast use vstd::std_specs::hash::group_hash_axioms;

/// What a subclass attempt should do next.
#[derive(Clone, Copy, Debug, PartialEq, Eq, Structural)]
pub enum HijackPlan {
    /// No window of the wanted title exists; report the failure and retry on
    /// a later interception.
    WindowNotFound,
    /// The window's current handler is already the replacement: nothing to
    /// do.
    AlreadyInstalled,
    /// Record the current handler and install the replacement.
    Install,
}

/// The decision of an idempotent subclass attempt: `window` is the looked-up
/// window handle, `current_proc` the window's current message handler and
/// `hook_proc` the replacement's address.
pub open spec fn spec_plan_hijack(
    window: Option<u64>,
    current_proc: u64,
    hook_proc: u64,
) -> HijackPlan {
    match window {
        None => HijackPlan::WindowNotFound,
        Some(_) => if current_proc == hook_proc {
            HijackPlan::AlreadyInstalled
        } else {
            HijackPlan::Install
        },
    }
}

pub fn plan_hijack(window: Option<u64>, current_proc: u64, hook_proc: u64) -> (r: HijackPlan)
    ensures
        r == spec_plan_hijack(window, current_proc, hook_proc),
{
    match window {
        None => HijackPlan::WindowNotFound,
        Some(_) => {
            if current_proc == hook_proc {
                HijackPlan::AlreadyInstalled
            } else {
                HijackPlan::Install
            }
        },
    }
}

/// Window handle to original message-handler address, for every window this
/// process has subclassed.
pub struct WndProcRegistry {
    map: HashMap<u64, u64>,
}

impl View for WndProcRegistry {
    type V = Map<u64, u64>;

    closed spec fn view(&self) -> Map<u64, u64> {
        self.map@
    }
}

impl WndProcRegistry {
    /// An empty registry.
    pub fn new() -> (r: Self)
        ensures
            r@ == Map::<u64, u64>::empty(),
    {
        Self { map: HashMap::new() }
    }

    /// Records the original handler for a window, replacing any earlier
    /// record.
    pub fn insert(&mut self, h_wnd: u64, wndproc: u64)
        ensures
            final(self)@ == old(self)@.insert(h_wnd, wndproc),
    {
        self.map.insert(h_wnd, wndproc);
    }

    /// The recorded original handler for a window, if any.
    pub fn get(&self, h_wnd: u64) -> (r: Option<u64>)
        ensures
            r == if self@.contains_key(h_wnd) {
                Some(self@[h_wnd])
            } else {
                None::<u64>
            },
    {
        match self.map.get(&h_wnd) {
            Some(v) => Some(*v),
            None => None,
        }
    }

    /// Where the replacement handler should send a message after the capture
    /// state has ruled: the recorded original handler when the message is to
    /// be forwarded and a non-null handler is on record, else nowhere (the
    /// message is swallowed and zero returned).
    pub fn forward_target(&self, h_wnd: u64, should_forward: bool) -> (r: Option<u64>)
        ensures
            r == if should_forward && self@.contains_key(h_wnd) && self@[h_wnd] != 0 {
                Some(self@[h_wnd])
            } else {
                None::<u64>
            },
    {
        if !should_forward {
            return None;
        }
        match self.get(h_wnd) {
            Some(proc_addr) => {
                if proc_addr != 0 {
                    Some(proc_addr)
                } else {
                    None
                }
            },
            None => None,
        }
    }
}

} // verus!
