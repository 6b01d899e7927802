use std::sync::mpsc::{Receiver, Sender};
use std::sync::{Arc, Mutex};
use vstd::prelude::*;

verus! {

#[verifier::external_type_specification]
#[verifier::external_body]
#[verifier::reject_recursive_types(T)]
pub struct ExSender<T>(Sender<T>);

#[verifier::external_type_specification]
#[verifier::external_body]
#[verifier::reject_recursive_types(T)]
pub struct ExReceiver<T>(Receiver<T>);

#[verifier::external_type_specification]
#[verifier::external_body]
#[verifier::reject_recursive_types(T)]
pub struct ExMutex<T: ?Sized>(Mutex<T>);

/// How long a notification stays visible, in milliseconds.
pub const NOTIFICATION_TTL_MILLIS: u64 = 5000;

/// How often the visible set is refreshed, in milliseconds.
pub const NOTIFICATION_VALIDATION_DELAY_MILLIS: u64 = 2000;

#[derive(Debug, PartialEq, Eq, Clone, Copy)]
pub enum NotificationType {
    Info,
    Warning,
    Error,
}

#[derive(Debug, Clone, PartialEq, Eq)]
pub struct Notification {
    pub kind: NotificationType,
    pub message: String,
}

impl Notification {
    pub fn new(kind: NotificationType, message: String) -> (r: Self)
        ensures
            r.kind == kind,
            r.message@ == message@,
    {
        Notification { kind, message }
    }

    /// A copy of this notification.
    pub fn duplicate(&self) -> (r: Self)
        ensures
            r == *self,
    {
        Notification { kind: self.kind, message: self.message.clone() }
    }
}

/// A notification with the time, in milliseconds, at which it arrived.
#[derive(Debug, Clone)]
pub struct NotificationWrapper {
    pub payload: Notification,
    pub created_at: u64,
}

/// A notification that arrived at `created_at` has expired at `now` once more
/// than the time to live has passed.
pub open spec fn expired(created_at: int, now: int) -> bool {
    now - created_at > NOTIFICATION_TTL_MILLIS
}

/// The entries of `q` that have not expired at `now`, in their order.
pub open spec fn unexpired(q: Seq<NotificationWrapper>, now: int) -> Seq<NotificationWrapper>
    decreases q.len(),
{
    if q.len() == 0 {
        Seq::empty()
    } else {
        let rest = unexpired(q.drop_last(), now);
        if expired(q.last().created_at as int, now) {
            rest
        } else {
            rest.push(q.last())
        }
    }
}

/// The notifications in `ns`, each stamped with `now`.
pub open spec fn stamped(ns: Seq<Notification>, now: u64) -> Seq<NotificationWrapper> {
    ns.map_values(|n: Notification| NotificationWrapper { payload: n, created_at: now })
}

/// The queue after the notifications `incoming` arrive at `now` and the
/// expired entries are dropped.
pub open spec fn absorbed(q: Seq<NotificationWrapper>, incoming: Seq<Notification>, now: u64) -> Seq<
    NotificationWrapper,
> {
    unexpired(q + stamped(incoming, now), now as int)
}

pub open spec fn payloads(q: Seq<NotificationWrapper>) -> Seq<Notification> {
    q.map_values(|w: NotificationWrapper| w.payload)
}

/// An entry survives the expiry filter exactly when it was held and has not expired.
pub proof fn lemma_unexpired_contains(q: Seq<NotificationWrapper>, w: NotificationWrapper, now: int)
    ensures
        unexpired(q, now).contains(w) <==> (q.contains(w) && !expired(w.created_at as int, now)),
    decreases q.len(),
{
    if q.len() > 0 {
        lemma_unexpired_contains(q.drop_last(), w, now);
        let rest = unexpired(q.drop_last(), now);
        assert(q =~= q.drop_last().push(q.last()));
        if q.contains(w) && w != q.last() {
            let i = choose|i: int| 0 <= i < q.len() && q[i] == w;
            assert(q.drop_last()[i] == w);
        }
        if q.drop_last().contains(w) {
            let i = choose|i: int| 0 <= i < q.drop_last().len() && q.drop_last()[i] == w;
            assert(q[i] == w);
        }
        if !expired(q.last().created_at as int, now) {
            assert(rest.push(q.last()).last() == q.last());
            if rest.push(q.last()).contains(w) && w != q.last() {
                let i = choose|i: int| 0 <= i < rest.len() + 1 && rest.push(q.last())[i] == w;
                assert(rest[i] == w);
            }
            if rest.contains(w) {
                let i = choose|i: int| 0 <= i < rest.len() && rest[i] == w;
                assert(rest.push(q.last())[i] == w);
            }
        }
    }
}

/// A notification that arrives at `t0` stays visible through every sweep up to
/// the time to live after `t0`, and is gone from any sweep after that, whatever
/// else arrives meanwhile.
pub proof fn lemma_notification_ttl(
    q: Seq<NotificationWrapper>,
    n: Notification,
    t0: u64,
    later: Seq<Notification>,
    t: u64,
)
    requires
        t0 <= t,
    ensures
        absorbed(absorbed(q, seq![n], t0), later, t).contains(
            NotificationWrapper { payload: n, created_at: t0 },
        ) <==> t <= t0 + NOTIFICATION_TTL_MILLIS,
{
    let w = NotificationWrapper { payload: n, created_at: t0 };
    let all0 = q + stamped(seq![n], t0);
    assert(all0[q.len() as int] == w);
    lemma_unexpired_contains(all0, w, t0 as int);
    let q1 = absorbed(q, seq![n], t0);
    let all1 = q1 + stamped(later, t);
    let i = choose|i: int| 0 <= i < q1.len() && q1[i] == w;
    assert(all1[i] == w);
    lemma_unexpired_contains(all1, w, t as int);
}

impl NotificationWrapper {
    pub fn new(n: Notification, now: u64) -> (r: Self)
        ensures
            r.payload == n,
            r.created_at == now,
    {
        NotificationWrapper { payload: n, created_at: now }
    }

    pub fn is_expired(&self, now: u64) -> (r: bool)
        ensures
            r == expired(self.created_at as int, now as int),
    {
        now > self.created_at && now - self.created_at > NOTIFICATION_TTL_MILLIS
    }
}

/// Relies on std::sync::mpsc::channel: a fresh channel of notifications.
#[verifier::external_body]
fn open_channel() -> (Sender<Notification>, Receiver<Notification>) {
    std::sync::mpsc::channel::<Notification>()
}

/// Relies on Sender::clone: another sender into the same channel.
#[verifier::external_body]
fn clone_sender(sx: &Sender<Notification>) -> Sender<Notification> {
    sx.clone()
}

/// Relies on Receiver::try_iter: takes, without waiting, what has been sent so
/// far; what that is depends on the other threads.
#[verifier::external_body]
fn drain_channel(rx: &Receiver<Notification>) -> Vec<Notification> {
    rx.try_iter().collect()
}

/// Relies on Mutex::try_lock: replaces the shared list when the lock is free
/// and leaves it alone when it is held.
#[verifier::external_body]
fn publish(shared: &Arc<Mutex<Vec<Notification>>>, items: Vec<Notification>) {
    if let Ok(mut guard) = shared.try_lock() {
        *guard = items;
    }
}

/// Collects notifications from every component, drops them once their time to
/// live has passed, and publishes the ones still visible.
pub struct NotificationManager {
    visible_notifications: Arc<Mutex<Vec<Notification>>>,
    internal_queue: Vec<NotificationWrapper>,
    requests_rx: Receiver<Notification>,
    requests_sx: Sender<Notification>,
}

impl NotificationManager {
    /// The notifications held, in order of arrival.
    pub closed spec fn queue(&self) -> Seq<NotificationWrapper> {
        self.internal_queue@
    }

    /// The shared list into which the visible notifications are published.
    pub closed spec fn shared(&self) -> Arc<Mutex<Vec<Notification>>> {
        self.visible_notifications
    }

    pub fn new(visible_notifications: Arc<Mutex<Vec<Notification>>>) -> (r: Self)
        ensures
            r.shared() == visible_notifications,
            r.queue() == Seq::<NotificationWrapper>::empty(),
    {
        let (sx, rx) = open_channel();
        NotificationManager {
            visible_notifications,
            internal_queue: Vec::new(),
            requests_rx: rx,
            requests_sx: sx,
        }
    }

    /// A sender through which any component submits notifications.
    pub fn get_sender(&self) -> Sender<Notification> {
        clone_sender(&self.requests_sx)
    }

    /// Takes in the notifications `incoming`, arrived at `now`, and drops every
    /// entry that has expired at `now`.
    pub fn absorb(&mut self, incoming: Vec<Notification>, now: u64)
        ensures
            final(self).queue() == absorbed(old(self).queue(), incoming@, now),
            final(self).shared() == old(self).shared(),
    {
        let mut all: Vec<NotificationWrapper> = Vec::new();
        let mut j: usize = 0;
        let ghost q0 = self.internal_queue@;
        while j < self.internal_queue.len()
            invariant
                self.internal_queue@ == q0,
                j <= q0.len(),
                all@ == q0.subrange(0, j as int),
            decreases q0.len() - j,
        {
            let w = NotificationWrapper {
                payload: self.internal_queue[j].payload.duplicate(),
                created_at: self.internal_queue[j].created_at,
            };
            all.push(w);
            j = j + 1;
            assert(all@ =~= q0.subrange(0, j as int));
        }
        let mut i: usize = 0;
        while i < incoming.len()
            invariant
                i <= incoming.len(),
                all@ == q0 + stamped(incoming@.subrange(0, i as int), now),
            decreases incoming.len() - i,
        {
            all.push(NotificationWrapper::new(incoming[i].duplicate(), now));
            i = i + 1;
            assert(stamped(incoming@.subrange(0, i as int), now) =~= stamped(
                incoming@.subrange(0, i - 1),
                now,
            ).push(NotificationWrapper { payload: incoming@[i - 1], created_at: now }));
            assert(all@ =~= q0 + stamped(incoming@.subrange(0, i as int), now));
        }
        assert(incoming@.subrange(0, incoming.len() as int) =~= incoming@);
        let ghost whole = all@;
        let mut kept: Vec<NotificationWrapper> = Vec::new();
        let mut k: usize = 0;
        while k < all.len()
            invariant
                all@ == whole,
                k <= whole.len(),
                kept@ == unexpired(whole.subrange(0, k as int), now as int),
            decreases whole.len() - k,
        {
            let ghost before = whole.subrange(0, k as int);
            assert(whole.subrange(0, k + 1).drop_last() =~= before);
            if !all[k].is_expired(now) {
                kept.push(NotificationWrapper {
                    payload: all[k].payload.duplicate(),
                    created_at: all[k].created_at,
                });
            }
            k = k + 1;
        }
        assert(whole.subrange(0, whole.len() as int) =~= whole);
        self.internal_queue = kept;
    }

    /// The visible notifications, in order of arrival.
    pub fn visible(&self) -> (r: Vec<Notification>)
        ensures
            r@ == payloads(self.queue()),
    {
        let mut r: Vec<Notification> = Vec::new();
        let mut i: usize = 0;
        while i < self.internal_queue.len()
            invariant
                i <= self.internal_queue.len(),
                r@ == payloads(self.internal_queue@.subrange(0, i as int)),
            decreases self.internal_queue.len() - i,
        {
            r.push(self.internal_queue[i].payload.duplicate());
            i = i + 1;
            assert(r@ =~= payloads(self.internal_queue@.subrange(0, i as int)));
        }
        assert(self.internal_queue@.subrange(0, i as int) =~= self.internal_queue@);
        r
    }

    /// One periodic sweep at `now`: takes in whatever has been submitted since
    /// the last sweep, drops what has expired, and publishes the visible set.
    pub fn sweep(&mut self, now: u64)
        ensures
            exists|received: Seq<Notification>|
                final(self).queue() == #[trigger] absorbed(old(self).queue(), received, now),
            final(self).shared() == old(self).shared(),
    {
        let incoming = drain_channel(&self.requests_rx);
        self.absorb(incoming, now);
        let shown = self.visible();
        publish(&self.visible_notifications, shown);
    }
}

} // verus!
