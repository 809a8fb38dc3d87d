//! Short notices shown in a corner of the screen.

use vstd::prelude::*;

use crate::utils::{reversed, reversed_tail_pops_first};

verus! {

/// How long a notice stays, in milliseconds.
pub const TOAST_MILLIS: u64 = 5_000;

/// What a notice says.
#[derive(Debug, PartialEq, Eq)]
pub enum Toast {
    GamepadConnected { name: String },
    GamepadDisconnected { name: String },
    LastGamepadDisconnected,
    GamepadLowBattery { name: String, level: u8 },
    DlnaDeviceDiscovered { name: String },
}

/// A notice on the screen.
#[derive(Debug, PartialEq, Eq)]
pub struct SpawnedToast {
    /// Tells the notices on the screen apart.
    pub id: u32,
    /// When the notice appeared.
    pub timestamp: u64,
    pub toast: Toast,
}

impl SpawnedToast {
    /// A notice that appears at `now`.
    pub fn new(toast: Toast, id: u32, now: u64) -> (spawned: SpawnedToast)
        ensures
            spawned == (SpawnedToast { id, timestamp: now, toast }),
    {
        SpawnedToast { id, timestamp: now, toast }
    }

    /// Whether the notice is still to be shown at `now`.
    pub open spec fn is_fresh(self, now: u64) -> bool {
        now < self.timestamp || now - self.timestamp < TOAST_MILLIS
    }

    /// Tells whether the notice is still to be shown at `now`.
    pub fn fresh(&self, now: u64) -> (fresh: bool)
        ensures
            fresh == self.is_fresh(now),
    {
        now < self.timestamp || now - self.timestamp < TOAST_MILLIS
    }
}

/// The test that a notice passes if it is still to be shown at `now`.
pub open spec fn stays(now: u64) -> spec_fn(SpawnedToast) -> bool {
    |toast: SpawnedToast| toast.is_fresh(now)
}

/// The notices among `toasts` that are still to be shown at `now`, in
/// their order.
pub open spec fn fresh_toasts(toasts: Seq<SpawnedToast>, now: u64) -> Seq<SpawnedToast> {
    toasts.filter(stays(now))
}

/// Drops the notices that have been on the screen for their time. The
/// others keep their order.
pub fn draw(toasts: &mut Vec<SpawnedToast>, now: u64)
    ensures
        final(toasts)@ == fresh_toasts(old(toasts)@, now),
{
    let ghost all = toasts@;
    let mut kept: Vec<SpawnedToast> = Vec::new();
    let mut rest: Vec<SpawnedToast> = Vec::new();
    core::mem::swap(toasts, &mut rest);
    proof {
        reveal(Seq::filter);
        assert(all.take(0) =~= Seq::<SpawnedToast>::empty());
        assert(all.skip(0) =~= all);
    }
    let mut turned = reversed(rest);
    while turned.len() > 0
        invariant
            turned@.len() <= all.len(),
            turned@ == all.skip(all.len() - turned@.len()).reverse(),
            kept@ == all.take(all.len() - turned@.len()).filter(stays(now)),
        decreases turned@.len(),
    {
        let ghost i = all.len() - turned@.len();
        proof {
            reversed_tail_pops_first(all, i);
            assert(all.take(i + 1) =~= all.take(i).push(all[i]));
            all.take(i).lemma_filter_push(all[i], stays(now));
        }
        let toast = turned.pop().unwrap();
        if toast.fresh(now) {
            kept.push(toast);
        }
    }
    proof {
        assert(all.take(all.len() as int) =~= all);
    }
    *toasts = kept;
}

} // verus!
