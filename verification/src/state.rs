//! The persisted record of one vault: admin identity, authorized payees,
//! payout schedules and per-payee spending limits, together with its
//! well-formedness invariant and the spec-level model the contracts speak of.

use vstd::prelude::*;

verus! {

/// Capacity of the payee set.
pub const MAX_PAYEES: usize = 5;

/// Capacity of the payout schedule list.
pub const MAX_SCHEDULES: usize = 5;

/// A principal's identity: an opaque 32-byte value, held as four 64-bit
/// words. Two identities are the same principal exactly when all four words
/// are equal.
#[derive(Clone, Copy, Debug, Hash, PartialEq, Eq, Structural)]
pub struct Identity {
    pub w0: u64,
    pub w1: u64,
    pub w2: u64,
    pub w3: u64,
}

impl Identity {
    /// Builds an identity from its four words.
    pub fn new(w0: u64, w1: u64, w2: u64, w3: u64) -> (r: Identity)
        ensures
            r == (Identity { w0, w1, w2, w3 }),
    {
        Identity { w0, w1, w2, w3 }
    }

    /// The all-zero identity, the admin field of a vault that has not been
    /// initialized yet.
    pub fn zero() -> (r: Identity)
        ensures
            r == (Identity { w0: 0u64, w1: 0u64, w2: 0u64, w3: 0u64 }),
    {
        Identity { w0: 0, w1: 0, w2: 0, w3: 0 }
    }
}

/// One recurring payout: a fixed amount claimable once per elapsed interval,
/// starting at `next_payout_time`, until cancelled.
#[derive(Clone, Copy, Debug, PartialEq, Eq, Structural)]
pub struct PayoutSchedule {
    /// Value paid out by each claim.
    pub amount: u64,
    /// Timestamp at or after which the next claim may happen.
    pub next_payout_time: i64,
    /// Seconds between consecutive payouts.
    pub interval: i64,
    /// False once the schedule has been cancelled.
    pub is_active: bool,
}

/// One payee's rolling spending window: how much was spent since
/// `epoch_start`, against a cap of `limit` per window of `duration` seconds.
#[derive(Clone, Copy, Debug, PartialEq, Eq, Structural)]
pub struct EpochSpending {
    /// Start of the current window.
    pub epoch_start: i64,
    /// Cumulative value withdrawn in the current window.
    pub spent_amount: u64,
    /// Maximum value allowed per window.
    pub limit: u64,
    /// Window length in seconds.
    pub duration: i64,
}

/// A spending limit bound to one payee. The vault holds at most one entry
/// per payee.
#[derive(Clone, Copy, Debug, PartialEq, Eq, Structural)]
pub struct EpochLimitEntry {
    pub payee: Identity,
    pub spending: EpochSpending,
}

/// The vault record as it is stored and mutated by the operations.
#[derive(Debug)]
pub struct VaultState {
    /// The sole administrator; set once at creation.
    pub admin: Identity,
    /// Authorized payees, in insertion order, no duplicates, at most
    /// [`MAX_PAYEES`].
    pub payees: Vec<Identity>,
    /// Payout schedules, in creation order, at most [`MAX_SCHEDULES`].
    pub payout_schedules: Vec<PayoutSchedule>,
    /// Per-payee spending limits, at most one entry per payee.
    pub epoch_limits: Vec<EpochLimitEntry>,
    /// True only after a successful `initialize`.
    pub is_initialized: bool,
}

/// The mathematical model of a vault record: the same fields with the
/// collections as sequences. All contracts and laws are stated over this.
#[verifier::ext_equal]
pub struct VaultModel {
    pub admin: Identity,
    pub payees: Seq<Identity>,
    pub schedules: Seq<PayoutSchedule>,
    pub limits: Seq<EpochLimitEntry>,
    pub is_initialized: bool,
}

impl View for VaultState {
    type V = VaultModel;

    open spec fn view(&self) -> VaultModel {
        VaultModel {
            admin: self.admin,
            payees: self.payees@,
            schedules: self.payout_schedules@,
            limits: self.epoch_limits@,
            is_initialized: self.is_initialized,
        }
    }
}

/// A spending record the vault may hold: positive cap and window length,
/// and never more spent than the cap allows.
pub open spec fn wf_spending(e: EpochSpending) -> bool {
    e.limit > 0 && e.duration > 0 && e.spent_amount <= e.limit
}

/// A schedule the vault may hold: positive payout amount and interval.
pub open spec fn wf_schedule(s: PayoutSchedule) -> bool {
    s.amount > 0 && s.interval > 0
}

impl VaultModel {
    /// The vault invariant: the payee set is within capacity and free of
    /// duplicates, the schedule list is within capacity, and the limit list
    /// has at most one well-formed entry per payee. Established by
    /// [`VaultState::new`] and preserved by every operation.
    pub open spec fn wf(self) -> bool {
        &&& self.payees.len() <= MAX_PAYEES
        &&& forall|i: int, j: int|
            0 <= i < j < self.payees.len() ==> self.payees[i] != self.payees[j]
        &&& self.schedules.len() <= MAX_SCHEDULES
        &&& forall|i: int| 0 <= i < self.schedules.len() ==> wf_schedule(#[trigger] self.schedules[i])
        &&& forall|i: int, j: int|
            0 <= i < j < self.limits.len() ==> self.limits[i].payee != self.limits[j].payee
        &&& forall|i: int|
            0 <= i < self.limits.len() ==> wf_spending(#[trigger] self.limits[i].spending)
    }

    /// The record before initialization: zero admin, everything empty.
    pub open spec fn blank() -> VaultModel {
        VaultModel {
            admin: Identity { w0: 0, w1: 0, w2: 0, w3: 0 },
            payees: Seq::empty(),
            schedules: Seq::empty(),
            limits: Seq::empty(),
            is_initialized: false,
        }
    }
}

impl VaultState {
    /// The invariant of the stored record, stated on its model.
    pub open spec fn wf(self) -> bool {
        self@.wf()
    }

    /// Allocates a blank, uninitialized vault record.
    pub fn new() -> (v: VaultState)
        ensures
            v@ == VaultModel::blank(),
            v.wf(),
    {
        let v = VaultState {
            admin: Identity { w0: 0, w1: 0, w2: 0, w3: 0 },
            payees: Vec::new(),
            payout_schedules: Vec::new(),
            epoch_limits: Vec::new(),
            is_initialized: false,
        };
        assert(v@ =~= VaultModel::blank());
        v
    }
}

/// Index of the first occurrence of `p` in `s`; meaningful when
/// `s.contains(p)`. Under the vault invariant the occurrence is unique.
pub open spec fn payee_index(s: Seq<Identity>, p: Identity) -> int
    decreases s.len(),
{
    if s.len() == 0 {
        0
    } else if s[0] == p {
        0
    } else {
        1 + payee_index(s.subrange(1, s.len() as int), p)
    }
}

/// Whether some limit entry is bound to `p`.
pub open spec fn has_limit(s: Seq<EpochLimitEntry>, p: Identity) -> bool {
    exists|i: int| 0 <= i < s.len() && s[i].payee == p
}

/// Index of the first limit entry bound to `p`; meaningful when
/// `has_limit(s, p)`. Under the vault invariant the entry is unique.
pub open spec fn limit_index(s: Seq<EpochLimitEntry>, p: Identity) -> int
    decreases s.len(),
{
    if s.len() == 0 {
        0
    } else if s[0].payee == p {
        0
    } else {
        1 + limit_index(s.subrange(1, s.len() as int), p)
    }
}

/// Whether some schedule is still active.
pub open spec fn has_active(s: Seq<PayoutSchedule>) -> bool {
    exists|i: int| 0 <= i < s.len() && s[i].is_active
}

/// Index of the first active schedule in scan order; meaningful when
/// `has_active(s)`. Claims, cancellations and the cascade of payee removal
/// all select this schedule, without matching it to any payee.
pub open spec fn first_active(s: Seq<PayoutSchedule>) -> int
    decreases s.len(),
{
    if s.len() == 0 {
        0
    } else if s[0].is_active {
        0
    } else {
        1 + first_active(s.subrange(1, s.len() as int))
    }
}

/// `payee_index` points at the first occurrence of `p`.
pub proof fn lemma_payee_index_props(s: Seq<Identity>, p: Identity)
    requires
        s.contains(p),
    ensures
        ({
            let k = payee_index(s, p);
            0 <= k < s.len() && s[k] == p && (forall|j: int| 0 <= j < k ==> s[j] != p)
        }),
    decreases s.len(),
{
    let w = choose|i: int| 0 <= i < s.len() && s[i] == p;
    if s[0] == p {
    } else {
        let t = s.subrange(1, s.len() as int);
        assert(t[w - 1] == p);
        assert(t.contains(p));
        lemma_payee_index_props(t, p);
        let k = payee_index(t, p);
        assert(s[1 + k] == t[k]);
        assert forall|j: int| 0 <= j < 1 + k implies s[j] != p by {
            if j >= 1 {
                assert(s[j] == t[j - 1]);
            }
        }
    }
}

/// An index that holds `p` with none of `p` before it is `payee_index`.
pub proof fn lemma_payee_index_is(s: Seq<Identity>, p: Identity, i: int)
    requires
        0 <= i < s.len(),
        s[i] == p,
        forall|j: int| 0 <= j < i ==> s[j] != p,
    ensures
        payee_index(s, p) == i,
{
    assert(s.contains(p));
    lemma_payee_index_props(s, p);
    let k = payee_index(s, p);
    if k < i {
        assert(s[k] != p);
    }
    if i < k {
        assert(s[i] != p);
    }
}

/// `limit_index` points at the first entry bound to `p`.
pub proof fn lemma_limit_index_props(s: Seq<EpochLimitEntry>, p: Identity)
    requires
        has_limit(s, p),
    ensures
        ({
            let k = limit_index(s, p);
            0 <= k < s.len() && s[k].payee == p && (forall|j: int| 0 <= j < k ==> s[j].payee != p)
        }),
    decreases s.len(),
{
    let w = choose|i: int| 0 <= i < s.len() && s[i].payee == p;
    if s[0].payee == p {
    } else {
        let t = s.subrange(1, s.len() as int);
        assert(t[w - 1] == s[w]);
        assert(0 <= w - 1 < t.len() && t[w - 1].payee == p);
        lemma_limit_index_props(t, p);
        let k = limit_index(t, p);
        assert(s[1 + k] == t[k]);
        assert forall|j: int| 0 <= j < 1 + k implies s[j].payee != p by {
            if j >= 1 {
                assert(s[j] == t[j - 1]);
            }
        }
    }
}

/// An index whose entry is bound to `p` with none bound to `p` before it is
/// `limit_index`.
pub proof fn lemma_limit_index_is(s: Seq<EpochLimitEntry>, p: Identity, i: int)
    requires
        0 <= i < s.len(),
        s[i].payee == p,
        forall|j: int| 0 <= j < i ==> s[j].payee != p,
    ensures
        limit_index(s, p) == i,
{
    assert(has_limit(s, p));
    lemma_limit_index_props(s, p);
    let k = limit_index(s, p);
    if k < i {
        assert(s[k].payee != p);
    }
    if i < k {
        assert(s[i].payee != p);
    }
}

/// `first_active` points at the first active schedule.
pub proof fn lemma_first_active_props(s: Seq<PayoutSchedule>)
    requires
        has_active(s),
    ensures
        ({
            let k = first_active(s);
            0 <= k < s.len() && s[k].is_active && (forall|j: int| 0 <= j < k ==> !s[j].is_active)
        }),
    decreases s.len(),
{
    let w = choose|i: int| 0 <= i < s.len() && s[i].is_active;
    if s[0].is_active {
    } else {
        let t = s.subrange(1, s.len() as int);
        assert(t[w - 1] == s[w]);
        assert(0 <= w - 1 < t.len() && t[w - 1].is_active);
        lemma_first_active_props(t);
        let k = first_active(t);
        assert(s[1 + k] == t[k]);
        assert forall|j: int| 0 <= j < 1 + k implies !s[j].is_active by {
            if j >= 1 {
                assert(s[j] == t[j - 1]);
            }
        }
    }
}

/// An active index with none active before it is `first_active`.
pub proof fn lemma_first_active_is(s: Seq<PayoutSchedule>, i: int)
    requires
        0 <= i < s.len(),
        s[i].is_active,
        forall|j: int| 0 <= j < i ==> !s[j].is_active,
    ensures
        first_active(s) == i,
{
    assert(has_active(s));
    lemma_first_active_props(s);
    let k = first_active(s);
    if k < i {
        assert(!s[k].is_active);
    }
    if i < k {
        assert(!s[i].is_active);
    }
}

/// Linear scan for `p` among the payees.
pub(crate) fn contains_identity(s: &Vec<Identity>, p: Identity) -> (b: bool)
    ensures
        b == s@.contains(p),
{
    let mut i: usize = 0;
    while i < s.len()
        invariant
            i <= s@.len(),
            forall|j: int| 0 <= j < i ==> s@[j] != p,
        decreases s@.len() - i,
    {
        if s[i] == p {
            assert(s@.contains(p));
            return true;
        }
        i += 1;
    }
    assert(!s@.contains(p));
    false
}

/// Linear scan for the first occurrence of `p` among the payees.
pub(crate) fn find_payee_index(s: &Vec<Identity>, p: Identity) -> (r: Option<usize>)
    ensures
        match r {
            Some(i) => i < s@.len() && s@[i as int] == p && (forall|j: int|
                0 <= j < i ==> s@[j] != p),
            None => !s@.contains(p),
        },
{
    let mut i: usize = 0;
    while i < s.len()
        invariant
            i <= s@.len(),
            forall|j: int| 0 <= j < i ==> s@[j] != p,
        decreases s@.len() - i,
    {
        if s[i] == p {
            return Some(i);
        }
        i += 1;
    }
    assert(!s@.contains(p));
    None
}

/// Linear scan for the first limit entry bound to `p`.
pub(crate) fn find_limit_index(s: &Vec<EpochLimitEntry>, p: Identity) -> (r: Option<usize>)
    ensures
        match r {
            Some(i) => i < s@.len() && s@[i as int].payee == p && (forall|j: int|
                0 <= j < i ==> s@[j].payee != p),
            None => !has_limit(s@, p),
        },
{
    let mut i: usize = 0;
    while i < s.len()
        invariant
            i <= s@.len(),
            forall|j: int| 0 <= j < i ==> s@[j].payee != p,
        decreases s@.len() - i,
    {
        if s[i].payee == p {
            return Some(i);
        }
        i += 1;
    }
    None
}

/// Linear scan for the first active schedule.
pub(crate) fn find_first_active(s: &Vec<PayoutSchedule>) -> (r: Option<usize>)
    ensures
        match r {
            Some(i) => i < s@.len() && s@[i as int].is_active && (forall|j: int|
                0 <= j < i ==> !s@[j].is_active),
            None => !has_active(s@),
        },
{
    let mut i: usize = 0;
    while i < s.len()
        invariant
            i <= s@.len(),
            forall|j: int| 0 <= j < i ==> !s@[j].is_active,
        decreases s@.len() - i,
    {
        if s[i].is_active {
            return Some(i);
        }
        i += 1;
    }
    None
}

} // verus!
