use vstd::prelude::*;

use calloop::channel::SyncSender;

verus! {

/// calloop::channel::SyncSender, the sending side of calloop's bounded
/// channel, carried as an opaque value.
#[verifier::external_type_specification]
#[verifier::external_body]
#[verifier::reject_recursive_types(T)]
pub struct ExSyncSender<T>(SyncSender<T>);

/// The sending side of a bounded, lossy channel, with the record of every
/// item offered to it, oldest first. Only `offer` extends the record.
#[verifier::reject_recursive_types(T)]
pub struct Outbound<T> {
    tx: SyncSender<T>,
    offered: Ghost<Seq<T>>,
}

impl<T> Outbound<T> {
    /// Every item handed to the channel so far. Whether the channel kept an
    /// item depends on the receiving side: one offered while the channel is
    /// full, or after the receiver is gone, is dropped.
    pub closed spec fn offered(&self) -> Seq<T> {
        self.offered@
    }

    pub fn new(tx: SyncSender<T>) -> (r: Self)
        ensures
            r.offered() == Seq::<T>::empty(),
    {
        Outbound { tx, offered: Ghost(Seq::empty()) }
    }

    /// Relies on calloop::channel::SyncSender::try_send, which never blocks:
    /// the item is handed to the channel, which queues it or drops it.
    #[verifier::external_body]
    pub fn offer(&mut self, item: T)
        ensures
            final(self).offered() == old(self).offered().push(item),
    {
        let _ = self.tx.try_send(item);
    }
}

} // verus!
