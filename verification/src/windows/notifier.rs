//! The registration for change notifications: when a notification may be
//! handed to the callback, and when the registration is to be cancelled.
//!
//! The operating system calls back on a thread of its own, at any time
//! while the registration is live. The callback is kept behind a lock. A
//! callback that failed while it held the lock leaves the lock poisoned, and
//! from then on the registration is unusable: no notification is delivered
//! any more. The registration is cancelled once, and nothing is delivered
//! after that.

use crate::windows::{
    af_family_from_family, family_filter_tag, status_result, AddressFamily, OsError, NO_ERROR,
};
use vstd::prelude::*;

verus! {

/// The state of a registration.
#[derive(Clone, Copy, Debug, PartialEq, Eq, Structural)]
pub enum Registration {
    /// Notifications are delivered to the callback.
    Live,
    /// The lock of the callback is poisoned; nothing is delivered.
    Poisoned,
    /// The registration was cancelled; nothing is delivered.
    Cancelled,
}

/// What is done with a registration.
#[derive(Clone, Copy, Debug, PartialEq, Eq, Structural)]
pub enum NotifierOp {
    /// The operating system calls back. `poisoned` says whether the lock of
    /// the callback was found poisoned.
    Callback { poisoned: bool },
    /// The handle is released.
    Unregister,
}

/// What the owner of the registration has to do.
#[derive(Clone, Copy, Debug, PartialEq, Eq, Structural)]
pub enum NotifierEffect {
    /// Hand the notification to the callback.
    Invoke,
    /// Cancel the registration with the operating system, and wait until no
    /// callback runs any more, before the callback is freed.
    Cancel,
    /// Nothing.
    Nothing,
}

/// Context for [`notify_ip_interface_change`]: the family that the
/// registration is for, and its state. When the handle is released, the
/// registration is cancelled.
#[derive(Clone, Copy, Debug, PartialEq, Eq, Structural)]
pub struct IpNotifierHandle {
    /// The family that notifications are asked for; `None` asks for all.
    pub family: Option<AddressFamily>,
    /// The state of the registration.
    pub state: Registration,
}

impl Registration {
    /// The state after an operation: a poisoned lock makes a live
    /// registration unusable, and releasing the handle cancels it, whatever
    /// its state. A cancelled registration stays cancelled.
    pub open spec fn after(self, op: NotifierOp) -> Registration {
        match (self, op) {
            (_, NotifierOp::Unregister) => Registration::Cancelled,
            (Registration::Live, NotifierOp::Callback { poisoned: true }) => Registration::Poisoned,
            (state, _) => state,
        }
    }

    /// What an operation asks of the owner: a callback is delivered only on
    /// a live registration whose lock is sound, and only the first release
    /// cancels.
    pub open spec fn effect(self, op: NotifierOp) -> NotifierEffect {
        match (self, op) {
            (Registration::Live, NotifierOp::Callback { poisoned: false }) => NotifierEffect::Invoke,
            (Registration::Live, NotifierOp::Unregister) => NotifierEffect::Cancel,
            (Registration::Poisoned, NotifierOp::Unregister) => NotifierEffect::Cancel,
            _ => NotifierEffect::Nothing,
        }
    }

    /// The state after a sequence of operations.
    pub open spec fn run(self, ops: Seq<NotifierOp>) -> Registration
        decreases ops.len(),
    {
        if ops.len() == 0 {
            self
        } else {
            self.run(ops.drop_last()).after(ops.last())
        }
    }

    /// What the `k`-th of a sequence of operations asks of the owner.
    pub open spec fn effect_at(self, ops: Seq<NotifierOp>, k: int) -> NotifierEffect {
        self.run(ops.take(k)).effect(ops[k])
    }
}

impl IpNotifierHandle {
    /// The context of a registration for change notifications of `family`,
    /// made before the operating system is asked to register it. It is live
    /// from the start, since the first callback may come before the
    /// registration has returned.
    pub fn new(family: Option<AddressFamily>) -> (registration: IpNotifierHandle)
        ensures
            registration == (IpNotifierHandle { family, state: Registration::Live }),
    {
        IpNotifierHandle { family, state: Registration::Live }
    }

    /// The tag under which the family is handed to the operating system.
    pub fn family_tag(&self) -> (tag: u16)
        ensures
            tag == family_filter_tag(self.family),
    {
        af_family_from_family(self.family)
    }

    /// The operating system calls back. Returns whether the notification is
    /// to be handed to the callback.
    pub fn on_callback(&mut self, poisoned: bool) -> (deliver: bool)
        ensures
            final(self).family == old(self).family,
            final(self).state == old(self).state.after(NotifierOp::Callback { poisoned }),
            deliver == (old(self).state.effect(NotifierOp::Callback { poisoned })
                == NotifierEffect::Invoke),
    {
        match self.state {
            Registration::Live => {
                if poisoned {
                    self.state = Registration::Poisoned;
                    false
                } else {
                    true
                }
            },
            _ => false,
        }
    }

    /// The handle is released. Returns whether the registration is to be
    /// cancelled with the operating system now; it is at the first release
    /// only.
    pub fn unregister(&mut self) -> (cancel: bool)
        ensures
            final(self).family == old(self).family,
            final(self).state == old(self).state.after(NotifierOp::Unregister),
            cancel == (old(self).state.effect(NotifierOp::Unregister) == NotifierEffect::Cancel),
    {
        let cancel = match self.state {
            Registration::Cancelled => false,
            _ => true,
        };
        self.state = Registration::Cancelled;
        cancel
    }
}

/// Reads the outcome of the registration of `registration` for change
/// notifications. With the status of success the registration stays as it
/// is. Any other status is the error: nothing was registered, so the
/// registration counts as cancelled, nothing is delivered and nothing is
/// left to cancel.
pub fn notify_ip_interface_change(registration: &mut IpNotifierHandle, status: u32) -> (result:
    Result<(), OsError>)
    ensures
        result == status_result(status),
        final(registration).family == old(registration).family,
        final(registration).state == if status == NO_ERROR {
            old(registration).state
        } else {
            Registration::Cancelled
        },
{
    if status == NO_ERROR {
        Ok(())
    } else {
        registration.state = Registration::Cancelled;
        Err(OsError::from_status(status))
    }
}

/// A registration only ever moves from live to poisoned to cancelled: it
/// is live after a sequence of operations only if it was live before and
/// none of them released the handle or found the lock poisoned, and it is
/// cancelled exactly if it was cancelled before or one of them released
/// the handle.
pub proof fn lemma_state_after(state: Registration, ops: Seq<NotifierOp>)
    ensures
        state.run(ops) == Registration::Cancelled <==> state == Registration::Cancelled || exists|
            i: int,
        |
            0 <= i < ops.len() && #[trigger] ops[i] == NotifierOp::Unregister,
        state.run(ops) == Registration::Live <==> state == Registration::Live && forall|i: int|
            0 <= i < ops.len() ==> #[trigger] ops[i] == (NotifierOp::Callback { poisoned: false }),
    decreases ops.len(),
{
    if ops.len() > 0 {
        let before = ops.drop_last();
        lemma_state_after(state, before);
        if exists|i: int| 0 <= i < before.len() && #[trigger] before[i] == NotifierOp::Unregister {
            let i = choose|i: int|
                0 <= i < before.len() && #[trigger] before[i] == NotifierOp::Unregister;
            assert(ops[i] == NotifierOp::Unregister);
        }
        if exists|i: int| 0 <= i < ops.len() && #[trigger] ops[i] == NotifierOp::Unregister {
            let i = choose|i: int| 0 <= i < ops.len() && #[trigger] ops[i] == NotifierOp::Unregister;
            if i < before.len() {
                assert(before[i] == NotifierOp::Unregister);
            }
        }
        if state.run(ops) == Registration::Live {
            assert forall|i: int| 0 <= i < ops.len() implies #[trigger] ops[i] == (
            NotifierOp::Callback { poisoned: false }) by {
                if i < before.len() {
                    assert(before[i] == ops[i]);
                }
            }
        }
        if state == Registration::Live && forall|i: int|
            0 <= i < ops.len() ==> #[trigger] ops[i] == (NotifierOp::Callback { poisoned: false }) {
            assert forall|i: int| 0 <= i < before.len() implies #[trigger] before[i] == (
            NotifierOp::Callback { poisoned: false }) by {
                assert(ops[i] == before[i]);
            }
            assert(ops[ops.len() - 1] == ops.last());
        }
    }
}

/// No notification is delivered after the handle was released or the lock
/// was found poisoned, and the registration is cancelled at the first
/// release only.
pub proof fn lemma_nothing_after_release(state: Registration, ops: Seq<NotifierOp>, j: int, k: int)
    requires
        0 <= j < k < ops.len(),
    ensures
        ops[j] == NotifierOp::Unregister ==> state.effect_at(ops, k) == NotifierEffect::Nothing,
        ops[j] == (NotifierOp::Callback { poisoned: true }) ==> state.effect_at(ops, k)
            != NotifierEffect::Invoke,
{
    let before = ops.take(k);
    lemma_state_after(state, before);
    assert(before[j] == ops[j]);
}

} // verus!
