//! The spend ledger: per-key records of recent payments that age out after a
//! day, and the admission policy that is decided from them.

use crate::auth::AuthUser;
use crate::MAX_SEND_AMOUNT;
use crate::MAX_WINDOW_AMOUNT;
use std::collections::VecDeque;
use std::time::Duration;
use std::time::Instant;
use vstd::hash_map::StringHashMap;
use vstd::prelude::*;
use vstd::string::StringExecFns;

verus! {

/// How long a payment counts against its key, in nanoseconds (one day).
pub const CACHE_DURATION: u128 = 86_400_000_000_000;

/// One disbursement: when it was made, in nanoseconds on its ledger's clock,
/// and how much it moved, in satoshis.
#[derive(Clone, Copy, Debug)]
pub struct Payment {
    pub time: u128,
    pub amount: u64,
}

/// A payment still counts at `now` while no more than a day has passed since it
/// was made. A clock reading that lies before the payment counts as no time
/// passed.
pub open spec fn is_fresh(p: Payment, now: int) -> bool {
    now - p.time <= CACHE_DURATION
}

/// The payments of `s` that still count at `now`, in their order.
pub open spec fn fresh(s: Seq<Payment>, now: int) -> Seq<Payment>
    decreases s.len(),
{
    if s.len() == 0 {
        s
    } else if is_fresh(s.last(), now) {
        fresh(s.drop_last(), now).push(s.last())
    } else {
        fresh(s.drop_last(), now)
    }
}

/// The sum of the amounts of `s`.
pub open spec fn total(s: Seq<Payment>) -> int
    decreases s.len(),
{
    if s.len() == 0 {
        0
    } else {
        total(s.drop_last()) + s.last().amount
    }
}

/// Payments stand in the order in which they were made.
pub open spec fn ordered(s: Seq<Payment>) -> bool {
    forall|i: int, j: int| 0 <= i <= j < s.len() ==> s[i].time <= s[j].time
}

/// A sum as a `u64` reports it: exact while it fits, the largest `u64` beyond.
pub open spec fn capped(sum: int) -> int {
    if sum > u64::MAX {
        u64::MAX as int
    } else {
        sum
    }
}

/// A stale payment at the front adds nothing to what is fresh.
pub proof fn lemma_fresh_skips_stale_front(s: Seq<Payment>, now: int)
    requires
        s.len() > 0,
        !is_fresh(s[0], now),
    ensures
        fresh(s, now) == fresh(s.drop_first(), now),
    decreases s.len(),
{
    if s.len() == 1 {
        assert(s.drop_last() =~= s.drop_first());
        assert(fresh(s.drop_last(), now) =~= s.drop_last());
    } else {
        lemma_fresh_skips_stale_front(s.drop_last(), now);
        assert(s.drop_last().drop_first() =~= s.drop_first().drop_last());
        assert(s.drop_first().last() == s.last());
    }
}

/// Where every payment is fresh, nothing is dropped.
pub proof fn lemma_fresh_keeps_all(s: Seq<Payment>, now: int)
    requires
        forall|i: int| 0 <= i < s.len() ==> is_fresh(#[trigger] s[i], now),
    ensures
        fresh(s, now) == s,
    decreases s.len(),
{
    if s.len() > 0 {
        lemma_fresh_keeps_all(s.drop_last(), now);
        assert(s.drop_last().push(s.last()) =~= s);
    }
}

/// Eviction takes from the front only: what is fresh of an ordered sequence
/// is the sequence without some of its first payments, all of them stale,
/// and so is in order itself.
pub proof fn law_eviction_takes_from_the_front(s: Seq<Payment>, now: int) -> (k: int)
    requires
        ordered(s),
    ensures
        0 <= k <= s.len(),
        fresh(s, now) == s.subrange(k, s.len() as int),
        forall|i: int| 0 <= i < k ==> !is_fresh(#[trigger] s[i], now),
        ordered(fresh(s, now)),
    decreases s.len(),
{
    if s.len() == 0 {
        assert(s.subrange(0, 0) =~= s);
        0
    } else if is_fresh(s[0], now) {
        assert forall|i: int| 0 <= i < s.len() implies is_fresh(#[trigger] s[i], now) by {
            assert(s[0].time <= s[i].time);
        }
        lemma_fresh_keeps_all(s, now);
        assert(s.subrange(0, s.len() as int) =~= s);
        0
    } else {
        let rest = s.drop_first();
        assert forall|i: int, j: int| 0 <= i <= j < rest.len() implies rest[i].time <= rest[j].time by {
            assert(rest[i] == s[i + 1] && rest[j] == s[j + 1]);
        }
        lemma_fresh_skips_stale_front(s, now);
        let k = law_eviction_takes_from_the_front(rest, now);
        assert(rest.subrange(k, rest.len() as int) =~= s.subrange(k + 1, s.len() as int));
        assert forall|i: int| 0 <= i < k + 1 implies !is_fresh(#[trigger] s[i], now) by {
            if i > 0 {
                assert(s[i] == rest[i - 1]);
            }
        }
        k + 1
    }
}

/// The sum of a sequence with one more payment at its end.
pub proof fn lemma_total_push(s: Seq<Payment>, p: Payment)
    ensures
        total(s.push(p)) == total(s) + p.amount,
{
    assert(s.push(p).drop_last() =~= s);
}

/// A sum of payments is never negative.
pub proof fn lemma_total_nonnegative(s: Seq<Payment>)
    ensures
        total(s) >= 0,
    decreases s.len(),
{
    if s.len() > 0 {
        lemma_total_nonnegative(s.drop_last());
    }
}

/// `std::time::Instant`, a reading of the monotonic clock: carried, never
/// looked into.
#[verifier::external_type_specification]
#[verifier::external_body]
pub struct ExInstant(Instant);

/// `Instant::now` reads the monotonic clock; nothing is claimed of the value.
pub assume_specification[ Instant::now ]() -> (now: Instant);

/// `Instant::elapsed` measures the time since the instant was taken; nothing
/// is claimed of the value.
pub assume_specification[ Instant::elapsed ](origin: &Instant) -> (elapsed: Duration);

/// `Duration::as_nanos` gives the span in whole nanoseconds; nothing is
/// claimed of the value here, as the span itself is opaque.
pub assume_specification[ Duration::as_nanos ](span: &Duration) -> (nanos: u128);

/// The recent payments under one key, oldest first.
pub struct PaymentTracker {
    origin: Instant,
    payments: VecDeque<Payment>,
}

impl View for PaymentTracker {
    type V = Seq<Payment>;

    closed spec fn view(&self) -> Seq<Payment> {
        self.payments@
    }
}

impl PaymentTracker {
    /// The payments held stand in the order in which they were made.
    pub open spec fn wf(&self) -> bool {
        ordered(self@)
    }

    /// An empty tracker whose clock starts now.
    pub fn new() -> (tracker: Self)
        ensures
            tracker.wf(),
            tracker@ == Seq::<Payment>::empty(),
    {
        PaymentTracker { origin: Instant::now(), payments: VecDeque::new() }
    }

    /// The time of the newest payment held, or zero where none is held.
    pub open spec fn latest(&self) -> int {
        if self@.len() == 0 {
            0
        } else {
            self@.last().time as int
        }
    }

    /// The time on this tracker's clock, in nanoseconds since it was made.
    pub fn clock(&self) -> (now: u128) {
        self.origin.elapsed().as_nanos()
    }

    /// The time of the newest payment held, or zero where none is held.
    pub fn latest_time(&self) -> (time: u128)
        ensures
            time == self.latest(),
    {
        let n = self.payments.len();
        if n == 0 {
            0
        } else {
            self.payments[n - 1].time
        }
    }

    /// The time to go by: the clock's reading, or the time of the newest
    /// payment held where the clock reads earlier than that.
    fn reading(&self) -> (now: u128)
        ensures
            now >= self.latest(),
    {
        let read = self.clock();
        let newest = self.latest_time();
        if read < newest {
            newest
        } else {
            read
        }
    }

    /// Appends a payment of `amount` made at `now`.
    pub fn add_payment_at(&mut self, now: u128, amount: u64)
        requires
            old(self).wf(),
            now >= old(self).latest(),
        ensures
            final(self).wf(),
            final(self)@ == old(self)@.push(Payment { time: now, amount }),
            final(self).latest() == now,
    {
        self.payments.push_back(Payment { time: now, amount });
    }

    /// Appends a payment of `amount` made now. Should the clock read earlier
    /// than the newest payment held, the payment is stamped with that
    /// payment's time.
    pub fn add_payment(&mut self, amount: u64)
        requires
            old(self).wf(),
        ensures
            final(self).wf(),
            exists|now: u128|
                now >= old(self).latest() && final(self)@ == old(self)@.push(
                    Payment { time: now, amount },
                ),
    {
        let now = self.reading();
        self.add_payment_at(now, amount);
    }

    /// Drops from the front every payment that is more than a day old at
    /// `now`.
    pub fn clean_old_payments_at(&mut self, now: u128)
        requires
            old(self).wf(),
        ensures
            final(self).wf(),
            final(self)@ == fresh(old(self)@, now as int),
            final(self).latest() <= old(self).latest(),
    {
        let ghost before = self.payments@;
        while self.payments.len() > 0 && now >= self.payments[0].time && now
            - self.payments[0].time > CACHE_DURATION
            invariant
                ordered(self.payments@),
                fresh(self.payments@, now as int) == fresh(before, now as int),
                self.payments@.len() > 0 ==> before.len() > 0 && self.payments@.last()
                    == before.last(),
            decreases self.payments@.len(),
        {
            proof {
                lemma_fresh_skips_stale_front(self.payments@, now as int);
                assert(self.payments@.drop_first() =~= self.payments@.subrange(
                    1,
                    self.payments@.len() as int,
                ));
            }
            self.payments.pop_front();
        }
        proof {
            let s = self.payments@;
            assert forall|i: int| 0 <= i < s.len() implies is_fresh(#[trigger] s[i], now as int) by {
                assert(s[0].time <= s[i].time);
            }
            lemma_fresh_keeps_all(s, now as int);
        }
    }

    /// Drops every payment that is more than a day old by now. Should the
    /// clock read earlier than the newest payment held, that payment's time
    /// is taken for now: what is more than a day older than the newest
    /// payment goes in any case.
    pub fn clean_old_payments(&mut self)
        requires
            old(self).wf(),
        ensures
            final(self).wf(),
            exists|now: u128|
                now >= old(self).latest() && final(self)@ == fresh(old(self)@, now as int),
    {
        let now = self.reading();
        self.clean_old_payments_at(now);
    }

    /// Drops what is stale at `now` and sums what is left.
    pub fn sum_payments_at(&mut self, now: u128) -> (sum: u64)
        requires
            old(self).wf(),
        ensures
            final(self).wf(),
            final(self)@ == fresh(old(self)@, now as int),
            final(self).latest() <= old(self).latest(),
            sum == capped(total(final(self)@)),
    {
        self.clean_old_payments_at(now);
        let n = self.payments.len();
        let mut sum: u64 = 0;
        let mut i: usize = 0;
        while i < n
            invariant
                n == self.payments@.len(),
                i <= n,
                self.wf(),
                sum == capped(total(self.payments@.take(i as int))),
            decreases n - i,
        {
            let amount = self.payments[i].amount;
            proof {
                let s = self.payments@;
                assert(s.take(i + 1).drop_last() =~= s.take(i as int));
                lemma_total_nonnegative(s.take(i as int));
            }
            sum = if sum > u64::MAX - amount {
                u64::MAX
            } else {
                sum + amount
            };
            i = i + 1;
        }
        proof {
            assert(self.payments@.take(n as int) =~= self.payments@);
        }
        sum
    }

    /// Drops what is stale by now and sums what is left. Should the clock
    /// read earlier than the newest payment held, that payment's time is
    /// taken for now.
    pub fn sum_payments(&mut self) -> (sum: u64)
        requires
            old(self).wf(),
        ensures
            final(self).wf(),
            exists|now: u128|
                now >= old(self).latest() && final(self)@ == fresh(old(self)@, now as int) && sum
                    == capped(total(final(self)@)),
    {
        let now = self.reading();
        self.sum_payments_at(now)
    }
}

/// What a ledger holds: the payments under each key that has ever been
/// written to.
pub type Ledger = Map<Seq<char>, Seq<Payment>>;

/// The payments under `key`; none where the key was never written to.
pub open spec fn payments_of(m: Ledger, key: Seq<char>) -> Seq<Payment> {
    if m.contains_key(key) {
        m[key]
    } else {
        Seq::empty()
    }
}

/// The ledger after payment `p` is written under `key`.
pub open spec fn recorded(m: Ledger, key: Seq<char>, p: Payment) -> Ledger {
    m.insert(key, payments_of(m, key).push(p))
}

/// The ledger after `p` is written under `key`, where there is a key.
pub open spec fn recorded_opt(m: Ledger, key: Option<Seq<char>>, p: Payment) -> Ledger {
    match key {
        Some(k) => recorded(m, k, p),
        None => m,
    }
}

/// The ledger after what is stale at `now` is dropped from `key`. A key that
/// was never written to stays absent.
pub open spec fn evicted(m: Ledger, key: Seq<char>, now: int) -> Ledger {
    if m.contains_key(key) {
        m.insert(key, fresh(m[key], now))
    } else {
        m
    }
}

/// The ledger after what is stale at `now` is dropped from `key`, where there
/// is a key.
pub open spec fn evicted_opt(m: Ledger, key: Option<Seq<char>>, now: int) -> Ledger {
    match key {
        Some(k) => evicted(m, k, now),
        None => m,
    }
}

/// What `key` has drawn within the day before `now`.
pub open spec fn total_at(m: Ledger, key: Seq<char>, now: int) -> int {
    total(fresh(payments_of(m, key), now))
}

/// What `key` has drawn within the day before `now`; zero where there is no
/// key.
pub open spec fn total_opt(m: Ledger, key: Option<Seq<char>>, now: int) -> int {
    match key {
        Some(k) => total_at(m, k, now),
        None => 0,
    }
}

/// The key under which an authenticated user's payments are kept.
pub open spec fn identity_key(username: Seq<char>) -> Seq<char> {
    "github:"@ + username
}

/// The key of the destination, where there is one.
pub open spec fn address_key(address: Option<&str>) -> Option<Seq<char>> {
    match address {
        Some(a) => Some(a@),
        None => None,
    }
}

/// The key of the user, where there is one.
pub open spec fn user_key(user: Option<&AuthUser>) -> Option<Seq<char>> {
    match user {
        Some(u) => Some(identity_key(u.username@)),
        None => None,
    }
}

/// The admission rule. A request is turned away when its keys together have
/// drawn the window's cap or more within the last day, or when its
/// destination alone has drawn a single payment's cap or more.
pub open spec fn admission_rejects(
    m: Ledger,
    ip: Seq<char>,
    address: Option<Seq<char>>,
    user: Option<Seq<char>>,
    now: int,
) -> bool {
    total_at(m, ip, now) + total_opt(m, address, now) + total_opt(m, user, now)
        >= MAX_WINDOW_AMOUNT || total_opt(m, address, now) >= MAX_SEND_AMOUNT
}

/// Every payment that is kept as fresh is fresh.
pub proof fn lemma_fresh_members(s: Seq<Payment>, now: int)
    ensures
        forall|i: int| 0 <= i < fresh(s, now).len() ==> is_fresh(#[trigger] fresh(s, now)[i], now),
    decreases s.len(),
{
    if s.len() > 0 {
        lemma_fresh_members(s.drop_last(), now);
        let f = fresh(s.drop_last(), now);
        assert forall|i: int| 0 <= i < fresh(s, now).len() implies is_fresh(
            #[trigger] fresh(s, now)[i],
            now,
        ) by {
            if i < f.len() {
                assert(fresh(s, now)[i] == f[i]);
            }
        }
    }
}

/// Dropping what is stale twice at one time drops no more than once.
pub proof fn lemma_fresh_idempotent(s: Seq<Payment>, now: int)
    ensures
        fresh(fresh(s, now), now) == fresh(s, now),
{
    lemma_fresh_members(s, now);
    lemma_fresh_keeps_all(fresh(s, now), now);
}

/// Dropping what is stale under one key leaves every key's fresh total as it
/// was.
pub proof fn lemma_total_survives_eviction(m: Ledger, gone: Seq<char>, key: Seq<char>, now: int)
    ensures
        total_at(evicted(m, gone, now), key, now) == total_at(m, key, now),
{
    if m.contains_key(gone) && gone == key {
        lemma_fresh_idempotent(m[key], now);
    }
}

/// The ledger after each payment of `ps` is written under `key`, in order.
pub open spec fn recorded_all(m: Ledger, key: Seq<char>, ps: Seq<Payment>) -> Ledger
    decreases ps.len(),
{
    if ps.len() == 0 {
        m
    } else {
        recorded(recorded_all(m, key, ps.drop_last()), key, ps.last())
    }
}

/// A payment written under a key adds its amount to that key's total for as
/// long as it is fresh, and nothing once it is more than a day old: at
/// exactly one day it still counts, one nanosecond later it no longer does.
pub proof fn law_payment_counts_while_fresh(m: Ledger, key: Seq<char>, p: Payment, now: int)
    ensures
        is_fresh(p, now) <==> now - p.time <= CACHE_DURATION,
        is_fresh(p, now) ==> total_at(recorded(m, key, p), key, now) == total_at(m, key, now)
            + p.amount,
        !is_fresh(p, now) ==> total_at(recorded(m, key, p), key, now) == total_at(m, key, now),
{
    let before = payments_of(m, key);
    assert(before.push(p).drop_last() =~= before);
    if is_fresh(p, now) {
        lemma_total_push(fresh(before, now), p);
    }
}

/// Payments written under one key, each no more than a day old at the time of
/// asking, are all in that key's total: it grows by their sum.
pub proof fn law_total_is_sum_within_window(
    m: Ledger,
    key: Seq<char>,
    ps: Seq<Payment>,
    now: int,
)
    requires
        forall|i: int| 0 <= i < ps.len() ==> is_fresh(#[trigger] ps[i], now),
    ensures
        total_at(recorded_all(m, key, ps), key, now) == total_at(m, key, now) + total(ps),
    decreases ps.len(),
{
    if ps.len() > 0 {
        let init = ps.drop_last();
        assert forall|i: int| 0 <= i < init.len() implies is_fresh(#[trigger] init[i], now) by {
            assert(init[i] == ps[i]);
        }
        law_total_is_sum_within_window(m, key, init, now);
        law_payment_counts_while_fresh(recorded_all(m, key, init), key, ps.last(), now);
    }
}

/// One payment written under three different keys reaches each of them once
/// and no other key: each of the three gains exactly that payment, and what
/// any other key holds, and so its total at any time, stays as it was.
pub proof fn law_keys_are_independent(
    m: Ledger,
    ip: Seq<char>,
    address: Seq<char>,
    user: Seq<char>,
    p: Payment,
    other: Seq<char>,
    now: int,
)
    requires
        ip != address,
        ip != user,
        address != user,
        other != ip,
        other != address,
        other != user,
    ensures
        ({
            let after = recorded_opt(recorded_opt(recorded(m, ip, p), Some(address), p), Some(user), p);
            &&& payments_of(after, ip) == payments_of(m, ip).push(p)
            &&& payments_of(after, address) == payments_of(m, address).push(p)
            &&& payments_of(after, user) == payments_of(m, user).push(p)
            &&& payments_of(after, other) == payments_of(m, other)
            &&& total_at(after, other, now) == total_at(m, other, now)
        }),
{
}

/// Asking for one key's total changes no other key: what is dropped is
/// dropped under the key that was asked for alone.
pub proof fn law_query_touches_one_key(m: Ledger, asked: Seq<char>, other: Seq<char>, now: int)
    requires
        asked != other,
    ensures
        payments_of(evicted(m, asked, now), other) == payments_of(m, other),
        evicted(m, asked, now).contains_key(other) == m.contains_key(other),
        !m.contains_key(asked) ==> evicted(m, asked, now) == m,
{
}

/// A destination that alone has drawn a single payment's cap or more within
/// the last day is turned away whatever the client address and the identity
/// have drawn, and so also where both have drawn nothing.
pub proof fn law_destination_cap_stands_alone(
    m: Ledger,
    ip: Seq<char>,
    address: Seq<char>,
    user: Option<Seq<char>>,
    now: int,
)
    requires
        total_at(m, address, now) >= MAX_SEND_AMOUNT,
    ensures
        admission_rejects(m, ip, Some(address), user, now),
{
}

/// The shared spend ledger and the admission policy decided from it. Keys are
/// opaque strings: a client address, a destination's text, or an identity.
pub struct PaymentsByIp {
    origin: Instant,
    newest: u128,
    index: StringHashMap<usize>,
    trackers: Vec<PaymentTracker>,
}

impl View for PaymentsByIp {
    type V = Ledger;

    closed spec fn view(&self) -> Ledger {
        Map::new(
            |k: Seq<char>| self.index@.contains_key(k),
            |k: Seq<char>| self.trackers@[self.index@[k] as int]@,
        )
    }
}

impl PaymentsByIp {
    /// Each key has a tracker of its own, each tracker is in order, and no
    /// payment is newer than the newest time written.
    pub closed spec fn wf(&self) -> bool {
        &&& forall|k: Seq<char>| #[trigger]
            self.index@.contains_key(k) ==> self.index@[k] < self.trackers@.len()
        &&& forall|j: Seq<char>, k: Seq<char>|
            #[trigger] self.index@.contains_key(j) && #[trigger] self.index@.contains_key(k)
                && self.index@[j] == self.index@[k] ==> j == k
        &&& forall|i: int|
            0 <= i < self.trackers@.len() ==> (#[trigger] self.trackers@[i]).wf()
                && self.trackers@[i].latest() <= self.newest
    }

    /// The newest time at which a payment was written; zero before the first.
    pub closed spec fn latest(&self) -> int {
        self.newest as int
    }

    /// An empty ledger whose clock starts now.
    pub fn new() -> (ledger: Self)
        ensures
            ledger.wf(),
            ledger@ == Map::<Seq<char>, Seq<Payment>>::empty(),
            ledger.latest() == 0,
    {
        let ledger = PaymentsByIp {
            origin: Instant::now(),
            newest: 0,
            index: StringHashMap::new(),
            trackers: Vec::new(),
        };
        assert(ledger@ =~= Map::<Seq<char>, Seq<Payment>>::empty());
        ledger
    }

    /// The time on this ledger's clock, in nanoseconds since it was made.
    pub fn clock(&self) -> (now: u128) {
        self.origin.elapsed().as_nanos()
    }

    /// The newest time at which a payment was written; zero before the first.
    pub fn latest_time(&self) -> (time: u128)
        ensures
            time == self.latest(),
    {
        self.newest
    }

    /// The time to go by: the clock's reading, or the newest time written
    /// where the clock reads earlier than that.
    fn reading(&self) -> (now: u128)
        ensures
            now >= self.latest(),
    {
        let read = self.clock();
        if read < self.newest {
            self.newest
        } else {
            read
        }
    }

    /// Whether `key` was ever written to.
    pub fn is_known(&self, key: &str) -> (known: bool)
        ensures
            known == self@.contains_key(key@),
    {
        self.index.contains_key(key)
    }

    /// Writes a payment of `amount` made at `now` under `key`, and makes the
    /// key's tracker where it has none.
    fn add_payment_impl(&mut self, key: &str, now: u128, amount: u64)
        requires
            old(self).wf(),
            now >= old(self).latest(),
        ensures
            final(self).wf(),
            final(self).latest() == now,
            final(self)@ == recorded(old(self)@, key@, Payment { time: now, amount }),
    {
        let ghost before = *self;
        let slot = match self.index.get(key) {
            Some(i) => Some(*i),
            None => None,
        };
        match slot {
            Some(i) => {
                self.trackers[i].add_payment_at(now, amount);
            },
            None => {
                let mut tracker = PaymentTracker::new();
                tracker.add_payment_at(now, amount);
                let i = self.trackers.len();
                self.trackers.push(tracker);
                self.index.insert(key.to_owned(), i);
            },
        }
        self.newest = now;
        proof {
            let p = Payment { time: now, amount };
            assert(Seq::<Payment>::empty().push(p) =~= seq![p]);
            assert(self@ =~= recorded(before@, key@, p));
        }
    }

    /// Drops what is stale at `now` from `key` and sums what is left; zero,
    /// and nothing written, where the key has no tracker.
    fn total_impl(&mut self, key: &str, now: u128) -> (sum: u64)
        requires
            old(self).wf(),
        ensures
            final(self).wf(),
            final(self).latest() == old(self).latest(),
            final(self)@ == evicted(old(self)@, key@, now as int),
            sum == capped(total_at(old(self)@, key@, now as int)),
    {
        let ghost before = *self;
        let slot = match self.index.get(key) {
            Some(i) => Some(*i),
            None => None,
        };
        match slot {
            Some(i) => {
                let sum = self.trackers[i].sum_payments_at(now);
                proof {
                    assert(self@ =~= evicted(before@, key@, now as int));
                }
                sum
            },
            None => {
                proof {
                    assert(self@ =~= evicted(before@, key@, now as int));
                }
                0
            },
        }
    }
    /// The key under which `user`'s payments are kept.
    fn identity(user: &AuthUser) -> (key: String)
        ensures
            key@ == identity_key(user.username@),
    {
        String::from_str("github:").concat(user.username.as_str())
    }

    /// Records a payment of `amount` made at `now` under the client address,
    /// and under the destination and the user where they are given.
    pub fn add_payment_at(
        &mut self,
        ip: &str,
        address: Option<&str>,
        user: Option<&AuthUser>,
        amount: u64,
        now: u128,
    )
        requires
            old(self).wf(),
            now >= old(self).latest(),
        ensures
            final(self).wf(),
            final(self).latest() == now,
            final(self)@ == recorded_opt(
                recorded_opt(
                    recorded(old(self)@, ip@, Payment { time: now, amount }),
                    address_key(address),
                    Payment { time: now, amount },
                ),
                user_key(user),
                Payment { time: now, amount },
            ),
    {
        self.add_payment_impl(ip, now, amount);
        if let Some(address) = address {
            self.add_payment_impl(address, now, amount);
        }
        if let Some(user) = user {
            let key = Self::identity(user);
            self.add_payment_impl(key.as_str(), now, amount);
        }
    }

    /// Records a payment of `amount` made now. Should the clock read earlier
    /// than the newest payment written, the payment is stamped with that
    /// payment's time.
    pub fn add_payment(
        &mut self,
        ip: &str,
        address: Option<&str>,
        user: Option<&AuthUser>,
        amount: u64,
    )
        requires
            old(self).wf(),
        ensures
            final(self).wf(),
            exists|now: u128|
                now >= old(self).latest() && final(self).latest() == now && final(self)@
                    == recorded_opt(
                    recorded_opt(
                        recorded(old(self)@, ip@, Payment { time: now, amount }),
                        address_key(address),
                        Payment { time: now, amount },
                    ),
                    user_key(user),
                    Payment { time: now, amount },
                ),
    {
        let now = self.reading();
        self.add_payment_at(ip, address, user, amount, now);
    }

    /// What `ip` has drawn within the day before `now`, after dropping what is
    /// older. A key that was never written to gives zero and stays absent.
    pub fn get_total_payments_at(&mut self, ip: &str, now: u128) -> (sum: u64)
        requires
            old(self).wf(),
        ensures
            final(self).wf(),
            final(self).latest() == old(self).latest(),
            final(self)@ == evicted(old(self)@, ip@, now as int),
            sum == capped(total_at(old(self)@, ip@, now as int)),
    {
        self.total_impl(ip, now)
    }

    /// What `ip` has drawn within the last day. Should the clock read earlier
    /// than the newest time written, that time is taken for now.
    pub fn get_total_payments(&mut self, ip: &str) -> (sum: u64)
        requires
            old(self).wf(),
        ensures
            final(self).wf(),
            final(self).latest() == old(self).latest(),
            exists|now: u128|
                now >= old(self).latest() && final(self)@ == evicted(old(self)@, ip@, now as int)
                    && sum == capped(total_at(old(self)@, ip@, now as int)),
    {
        let now = self.reading();
        self.total_impl(ip, now)
    }

    /// Decides at `now` whether a request is to be turned away: `true` means
    /// rejected. What is stale is dropped from each key that is looked at.
    pub fn verify_payments_at(
        &mut self,
        ip: &str,
        address: Option<&str>,
        user: Option<&AuthUser>,
        now: u128,
    ) -> (rejected: bool)
        requires
            old(self).wf(),
        ensures
            final(self).wf(),
            final(self).latest() == old(self).latest(),
            rejected == admission_rejects(
                old(self)@,
                ip@,
                address_key(address),
                user_key(user),
                now as int,
            ),
            final(self)@ == evicted_opt(
                evicted_opt(evicted(old(self)@, ip@, now as int), address_key(address), now as int),
                user_key(user),
                now as int,
            ),
    {
        let ghost m0 = self@;
        let from_ip = self.total_impl(ip, now);
        let ghost m1 = self@;
        let mut from_address: u64 = 0;
        if let Some(address) = address {
            proof {
                lemma_total_survives_eviction(m0, ip@, address@, now as int);
            }
            from_address = self.total_impl(address, now);
        }
        let ghost m2 = self@;
        let mut from_user: u64 = 0;
        if let Some(user) = user {
            let key = Self::identity(user);
            proof {
                lemma_total_survives_eviction(m0, ip@, key@, now as int);
                lemma_total_survives_eviction(m1, address_key(address).unwrap(), key@, now as int);
            }
            from_user = self.total_impl(key.as_str(), now);
        }
        proof {
            lemma_total_nonnegative(fresh(payments_of(m0, ip@), now as int));
            if let Some(a) = address_key(address) {
                lemma_total_nonnegative(fresh(payments_of(m0, a), now as int));
            }
            if let Some(u) = user_key(user) {
                lemma_total_nonnegative(fresh(payments_of(m0, u), now as int));
            }
        }
        let combined: u128 = from_ip as u128 + from_address as u128 + from_user as u128;
        combined >= MAX_WINDOW_AMOUNT as u128 || from_address >= MAX_SEND_AMOUNT
    }

    /// Decides now whether a request is to be turned away: `true` means
    /// rejected. Should the clock read earlier than the newest time written,
    /// that time is taken for now.
    pub fn verify_payments(
        &mut self,
        ip: &str,
        address: Option<&str>,
        user: Option<&AuthUser>,
    ) -> (rejected: bool)
        requires
            old(self).wf(),
        ensures
            final(self).wf(),
            final(self).latest() == old(self).latest(),
            exists|now: u128|
                now >= old(self).latest() && rejected == admission_rejects(
                    old(self)@,
                    ip@,
                    address_key(address),
                    user_key(user),
                    now as int,
                ) && final(self)@ == evicted_opt(
                    evicted_opt(
                        evicted(old(self)@, ip@, now as int),
                        address_key(address),
                        now as int,
                    ),
                    user_key(user),
                    now as int,
                ),
    {
        let now = self.reading();
        self.verify_payments_at(ip, address, user, now)
    }
}

} // verus!
