//! Short notices to the student: a store that numbers them as they are
//! shown and drops one by its number when its time is up or it is closed.

use vstd::prelude::*;

verus! {

/// How long a notice stays, in milliseconds.
pub const TOAST_LIFETIME_MS: u64 = 3000;

/// The kind of a notice.
#[derive(Clone, Copy, Debug, PartialEq, Eq, Structural)]
pub enum ToastType {
    Success,
    Error,
    Info,
    Warning,
}

/// One notice.
#[derive(Debug)]
pub struct Toast {
    pub id: u32,
    pub message: String,
    pub toast_type: ToastType,
}

impl Clone for Toast {
    fn clone(&self) -> (r: Self)
        ensures
            r == *self,
    {
        Toast { id: self.id, message: self.message.clone(), toast_type: self.toast_type }
    }
}

/// The notices on show, oldest first, and the number of the next one.
#[derive(Debug)]
pub struct ToastStore {
    pub next_id: u32,
    pub toasts: Vec<Toast>,
}

/// The notices that are left when those with number `id` are dropped.
pub open spec fn without(toasts: Seq<Toast>, id: u32) -> Seq<Toast>
    decreases toasts.len(),
{
    if toasts.len() == 0 {
        Seq::empty()
    } else if toasts.last().id == id {
        without(toasts.drop_last(), id)
    } else {
        without(toasts.drop_last(), id).push(toasts.last())
    }
}

/// The number after `id`; after the largest number the count starts again
/// at 0.
pub open spec fn following(id: u32) -> u32 {
    if id == u32::MAX {
        0
    } else {
        (id + 1) as u32
    }
}

impl ToastStore {
    /// A store without notices, numbering from 0.
    pub fn new() -> (r: ToastStore)
        ensures
            r.next_id == 0,
            r.toasts@.len() == 0,
    {
        ToastStore { next_id: 0, toasts: Vec::new() }
    }

    /// Drops the notices with number `id`. The others stay, in order.
    pub fn dismiss(&mut self, id: u32)
        ensures
            final(self).toasts@ == without(old(self).toasts@, id),
            final(self).next_id == old(self).next_id,
    {
        let mut kept: Vec<Toast> = Vec::new();
        let mut i: usize = 0;
        while i < self.toasts.len()
            invariant
                i <= self.toasts.len(),
                *self == *old(self),
                kept@ == without(self.toasts@.take(i as int), id),
            decreases self.toasts.len() - i,
        {
            proof {
                let longer = self.toasts@.take(i + 1);
                assert(longer.drop_last() =~= self.toasts@.take(i as int));
            }
            if self.toasts[i].id != id {
                kept.push(self.toasts[i].clone());
            }
            i = i + 1;
        }
        proof {
            assert(self.toasts@.take(self.toasts@.len() as int) =~= self.toasts@);
        }
        self.toasts = kept;
    }
}

/// Shows a notice: it goes to the end of the store under the next number,
/// which is handed back so that the notice can be dropped when
/// `TOAST_LIFETIME_MS` have passed.
pub fn show_toast(store: &mut ToastStore, message: String, toast_type: ToastType) -> (id: u32)
    ensures
        id == old(store).next_id,
        final(store).next_id == following(old(store).next_id),
        final(store).toasts@ == old(store).toasts@.push(Toast { id, message, toast_type }),
{
    let id = store.next_id;
    store.next_id = if id == u32::MAX {
        0
    } else {
        id + 1
    };
    store.toasts.push(Toast { id, message, toast_type });
    id
}

/// Shows a notice of success.
pub fn toast_success(store: &mut ToastStore, message: String) -> (id: u32)
    ensures
        id == old(store).next_id,
        final(store).next_id == following(old(store).next_id),
        final(store).toasts@ == old(store).toasts@.push(
            Toast { id, message, toast_type: ToastType::Success },
        ),
{
    show_toast(store, message, ToastType::Success)
}

/// Shows a notice of an error.
pub fn toast_error(store: &mut ToastStore, message: String) -> (id: u32)
    ensures
        id == old(store).next_id,
        final(store).next_id == following(old(store).next_id),
        final(store).toasts@ == old(store).toasts@.push(
            Toast { id, message, toast_type: ToastType::Error },
        ),
{
    show_toast(store, message, ToastType::Error)
}

/// Shows a notice for information.
pub fn toast_info(store: &mut ToastStore, message: String) -> (id: u32)
    ensures
        id == old(store).next_id,
        final(store).next_id == following(old(store).next_id),
        final(store).toasts@ == old(store).toasts@.push(
            Toast { id, message, toast_type: ToastType::Info },
        ),
{
    show_toast(store, message, ToastType::Info)
}

/// Shows a warning.
pub fn toast_warning(store: &mut ToastStore, message: String) -> (id: u32)
    ensures
        id == old(store).next_id,
        final(store).next_id == following(old(store).next_id),
        final(store).toasts@ == old(store).toasts@.push(
            Toast { id, message, toast_type: ToastType::Warning },
        ),
{
    show_toast(store, message, ToastType::Warning)
}

} // verus!
