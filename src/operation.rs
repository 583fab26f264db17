//! Running many downloads: the settings of a run, the source of its
//! requests, and the scheduler that bounds how many run at once.
use vstd::prelude::*;
use crate::http::FileDownload;

verus! {

/// Where one item of a run stands.
#[derive(Debug, Clone, Copy, PartialEq, Eq, Structural)]
pub enum ItemState {
    /// Waiting for a permit.
    Queued,
    /// Holding a permit and downloading.
    Running,
    /// Reported as finished, still holding its permit through the cooldown.
    CoolingDown { succeeded: bool },
    /// Finished, its permit released.
    Done { succeeded: bool },
}

pub open spec fn holds_permit(s: ItemState) -> bool {
    s is Running || s is CoolingDown
}

pub open spec fn is_reported(s: ItemState) -> bool {
    s is CoolingDown || s is Done
}

/// How many items of `s` satisfy `p`.
pub open spec fn count_where(s: Seq<ItemState>, p: spec_fn(ItemState) -> bool) -> nat
    decreases s.len(),
{
    if s.len() == 0 {
        0
    } else {
        count_where(s.drop_last(), p) + if p(s.last()) {
            1nat
        } else {
            0nat
        }
    }
}

pub open spec fn count_holding(s: Seq<ItemState>) -> nat {
    count_where(s, |x: ItemState| holds_permit(x))
}

pub open spec fn count_reported(s: Seq<ItemState>) -> nat {
    count_where(s, |x: ItemState| is_reported(x))
}

proof fn lemma_count_update(
    s: Seq<ItemState>,
    j: int,
    v: ItemState,
    p: spec_fn(ItemState) -> bool,
)
    requires
        0 <= j < s.len(),
    ensures
        count_where(s.update(j, v), p) + (if p(s[j]) {
            1nat
        } else {
            0nat
        }) == count_where(s, p) + (if p(v) {
            1nat
        } else {
            0nat
        }),
    decreases s.len(),
{
    let t = s.update(j, v);
    if j == s.len() - 1 {
        assert(t.drop_last() == s.drop_last());
    } else {
        assert(t.drop_last() == s.drop_last().update(j, v));
        lemma_count_update(s.drop_last(), j, v, p);
    }
}

proof fn lemma_count_none(s: Seq<ItemState>, p: spec_fn(ItemState) -> bool)
    ensures
        count_where(s, p) == 0 <==> forall|j: int| 0 <= j < s.len() ==> !p(#[trigger] s[j]),
        count_where(s, p) <= s.len(),
    decreases s.len(),
{
    if s.len() > 0 {
        lemma_count_none(s.drop_last(), p);
        if count_where(s, p) == 0 {
            assert forall|j: int| 0 <= j < s.len() implies !p(#[trigger] s[j]) by {
                if j < s.len() - 1 {
                    assert(s[j] == s.drop_last()[j]);
                }
            }
        }
        if forall|j: int| 0 <= j < s.len() ==> !p(#[trigger] s[j]) {
            assert forall|j: int| 0 <= j < s.drop_last().len() implies !p(
                #[trigger] s.drop_last()[j],
            ) by {
                assert(s.drop_last()[j] == s[j]);
            }
        }
    }
}

/// The abstract state of a scheduler.
pub struct SchedulerView {
    pub capacity: nat,
    pub items: Seq<ItemState>,
    /// Items are started in the order given: those before this index have
    /// started, the others are queued.
    pub started: nat,
    /// Permits held.
    pub in_flight: nat,
    /// Items reported as finished; the run's overall counter.
    pub reported: nat,
}

impl SchedulerView {
    pub open spec fn wf(self) -> bool {
        &&& self.capacity > 0
        &&& self.started <= self.items.len()
        &&& forall|j: int|
            0 <= j < self.items.len() ==> (j < self.started <==> !(#[trigger] self.items[j] is Queued))
        &&& self.in_flight == count_holding(self.items)
        &&& self.in_flight <= self.capacity
        &&& self.reported == count_reported(self.items)
    }

    /// A permit is free and an item waits for it.
    pub open spec fn can_start(self) -> bool {
        self.started < self.items.len() && self.in_flight < self.capacity
    }

    /// The next queued item takes a free permit, if there is one.
    pub open spec fn after_start(self) -> Self {
        if self.can_start() {
            SchedulerView {
                items: self.items.update(self.started as int, ItemState::Running),
                started: self.started + 1,
                in_flight: self.in_flight + 1,
                ..self
            }
        } else {
            self
        }
    }

    /// Item `i` is reported as finished and starts its cooldown.
    pub open spec fn after_finish(self, i: int, succeeded: bool) -> Self {
        SchedulerView {
            items: self.items.update(i, ItemState::CoolingDown { succeeded }),
            reported: self.reported + 1,
            ..self
        }
    }

    /// Item `i` ends its cooldown and gives its permit back.
    pub open spec fn after_release(self, i: int) -> Self {
        SchedulerView {
            items: self.items.update(
                i,
                ItemState::Done { succeeded: self.items[i]->CoolingDown_succeeded },
            ),
            in_flight: (self.in_flight - 1) as nat,
            ..self
        }
    }

    /// Every item is done.
    pub open spec fn complete(self) -> bool {
        forall|j: int| 0 <= j < self.items.len() ==> #[trigger] self.items[j] is Done
    }
}

proof fn lemma_start_wf(v: SchedulerView)
    requires
        v.wf(),
    ensures
        v.after_start().wf(),
{
    if v.can_start() {
        let j = v.started as int;
        lemma_count_update(v.items, j, ItemState::Running, |x: ItemState| holds_permit(x));
        lemma_count_update(v.items, j, ItemState::Running, |x: ItemState| is_reported(x));
        let w = v.after_start();
        assert forall|k: int| 0 <= k < w.items.len() implies (k < w.started <==> !(
        #[trigger] w.items[k] is Queued)) by {
            if k != j {
                assert(w.items[k] == v.items[k]);
            }
        }
    }
}

proof fn lemma_finish_wf(v: SchedulerView, i: int, succeeded: bool)
    requires
        v.wf(),
        0 <= i < v.items.len(),
        v.items[i] is Running,
    ensures
        v.after_finish(i, succeeded).wf(),
{
    let s = ItemState::CoolingDown { succeeded };
    lemma_count_update(v.items, i, s, |x: ItemState| holds_permit(x));
    lemma_count_update(v.items, i, s, |x: ItemState| is_reported(x));
    let w = v.after_finish(i, succeeded);
    assert forall|k: int| 0 <= k < w.items.len() implies (k < w.started <==> !(
    #[trigger] w.items[k] is Queued)) by {
        if k != i {
            assert(w.items[k] == v.items[k]);
        }
    }
}

proof fn lemma_release_wf(v: SchedulerView, i: int)
    requires
        v.wf(),
        0 <= i < v.items.len(),
        v.items[i] is CoolingDown,
    ensures
        v.after_release(i).wf(),
{
    let s = ItemState::Done { succeeded: v.items[i]->CoolingDown_succeeded };
    lemma_count_update(v.items, i, s, |x: ItemState| holds_permit(x));
    lemma_count_update(v.items, i, s, |x: ItemState| is_reported(x));
    let w = v.after_release(i);
    assert forall|k: int| 0 <= k < w.items.len() implies (k < w.started <==> !(
    #[trigger] w.items[k] is Queued)) by {
        if k != i {
            assert(w.items[k] == v.items[k]);
        }
    }
}

/// Grants permits to the items of a run in their order, at most
/// `capacity` at a time; an item keeps its permit through its cooldown.
#[derive(Debug, Clone)]
pub struct Scheduler {
    capacity: usize,
    items: Vec<ItemState>,
    started: usize,
    in_flight: usize,
    reported: usize,
}

impl Scheduler {
    pub closed spec fn view(&self) -> SchedulerView {
        SchedulerView {
            capacity: self.capacity as nat,
            items: self.items@,
            started: self.started as nat,
            in_flight: self.in_flight as nat,
            reported: self.reported as nat,
        }
    }

    /// A scheduler for `n` queued items and `capacity` permits.
    pub fn new(capacity: usize, n: usize) -> (r: Self)
        requires
            capacity > 0,
        ensures
            r.view().wf(),
            r.view().capacity == capacity,
            r.view().items == Seq::new(n as nat, |j: int| ItemState::Queued),
            r.view().started == 0,
            r.view().in_flight == 0,
            r.view().reported == 0,
    {
        let mut items: Vec<ItemState> = Vec::new();
        while items.len() < n
            invariant
                items@.len() <= n,
                forall|j: int| 0 <= j < items@.len() ==> #[trigger] items@[j] is Queued,
            decreases n - items@.len(),
        {
            items.push(ItemState::Queued);
        }
        proof {
            lemma_count_none(items@, |x: ItemState| holds_permit(x));
            lemma_count_none(items@, |x: ItemState| is_reported(x));
            assert(items@ == Seq::new(n as nat, |j: int| ItemState::Queued));
        }
        Scheduler { capacity, items, started: 0, in_flight: 0, reported: 0 }
    }

    pub fn len(&self) -> (r: usize)
        ensures
            r == self.view().items.len(),
    {
        self.items.len()
    }

    /// The state of item `i`.
    pub fn state(&self, i: usize) -> (r: ItemState)
        requires
            i < self.view().items.len(),
        ensures
            r == self.view().items[i as int],
    {
        self.items[i]
    }

    /// The number of items reported as finished.
    pub fn reported(&self) -> (r: usize)
        ensures
            r == self.view().reported,
    {
        self.reported
    }

    /// The number of permits held.
    pub fn in_flight(&self) -> (r: usize)
        ensures
            r == self.view().in_flight,
    {
        self.in_flight
    }

    /// Starts the next queued item if a permit is free, and says which.
    pub fn start_next(&mut self) -> (r: Option<usize>)
        requires
            old(self).view().wf(),
        ensures
            final(self).view() == old(self).view().after_start(),
            final(self).view().wf(),
            r == (if old(self).view().can_start() {
                Some(old(self).view().started as usize)
            } else {
                None::<usize>
            }),
    {
        proof {
            lemma_start_wf(self.view());
        }
        if self.started < self.items.len() && self.in_flight < self.capacity {
            let i = self.started;
            self.items.set(i, ItemState::Running);
            self.started = i + 1;
            self.in_flight = self.in_flight + 1;
            Some(i)
        } else {
            None
        }
    }

    /// Reports item `i` as finished, well or not; it keeps its permit.
    pub fn finish(&mut self, i: usize, succeeded: bool)
        requires
            old(self).view().wf(),
            i < old(self).view().items.len(),
            old(self).view().items[i as int] is Running,
        ensures
            final(self).view() == old(self).view().after_finish(i as int, succeeded),
            final(self).view().wf(),
    {
        proof {
            lemma_finish_wf(self.view(), i as int, succeeded);
        }
        self.items.set(i, ItemState::CoolingDown { succeeded });
        let n = self.items.len();
        proof {
            // the count of reported items never exceeds the number of items
            lemma_count_none(self.items@, |x: ItemState| is_reported(x));
            assert(self.reported + 1 <= n);
        }
        self.reported = self.reported + 1;
    }

    /// Ends the cooldown of item `i` and frees its permit.
    pub fn release(&mut self, i: usize)
        requires
            old(self).view().wf(),
            i < old(self).view().items.len(),
            old(self).view().items[i as int] is CoolingDown,
        ensures
            final(self).view() == old(self).view().after_release(i as int),
            final(self).view().wf(),
    {
        proof {
            lemma_release_wf(self.view(), i as int);
            lemma_count_update(
                self.items@,
                i as int,
                ItemState::Queued,
                |x: ItemState| holds_permit(x),
            );
        }
        let succeeded = match self.items[i] {
            ItemState::CoolingDown { succeeded } => succeeded,
            _ => false,
        };
        self.items.set(i, ItemState::Done { succeeded });
        self.in_flight = self.in_flight - 1;
    }

    /// Whether every item is done.
    pub fn is_complete(&self) -> (r: bool)
        requires
            self.view().wf(),
        ensures
            r == self.view().complete(),
    {
        proof {
            lemma_count_none(self.view().items, |x: ItemState| holds_permit(x));
        }
        let r = self.started == self.items.len() && self.in_flight == 0;
        proof {
            let v = self.view();
            if r {
                assert forall|j: int| 0 <= j < v.items.len() implies #[trigger] v.items[j] is Done by {
                    assert(!holds_permit(v.items[j]));
                }
            }
            if v.complete() {
                if v.started < v.items.len() {
                    assert(v.items[v.started as int] is Done);
                }
                assert forall|j: int| 0 <= j < v.items.len() implies !holds_permit(
                    #[trigger] v.items[j],
                ) by {
                    assert(v.items[j] is Done);
                }
            }
        }
        r
    }
}

/// At every instant of a run, no more items hold a permit than the
/// scheduler has permits.
pub proof fn lemma_in_flight_bounded(v: SchedulerView)
    requires
        v.wf(),
    ensures
        count_holding(v.items) <= v.capacity,
{
}

/// With every permit taken and items still queued, nothing starts; once
/// one item gives its permit back, exactly one more starts.
pub proof fn lemma_release_starts_one(v: SchedulerView, i: int)
    requires
        v.wf(),
        v.in_flight == v.capacity,
        v.started < v.items.len(),
        0 <= i < v.items.len(),
        v.items[i] is CoolingDown,
    ensures
        !v.can_start(),
        v.after_release(i).can_start(),
        v.after_release(i).after_start().items[v.started as int] is Running,
        !v.after_release(i).after_start().can_start(),
{
    lemma_release_wf(v, i);
}

/// A failed item does not stop the others: reporting it leaves every
/// other item as it was, counts it in the overall progress, and leaves the
/// remaining items as free to start as before.
pub proof fn lemma_failure_isolated(v: SchedulerView, i: int)
    requires
        v.wf(),
        0 <= i < v.items.len(),
        v.items[i] is Running,
    ensures
        forall|j: int|
            0 <= j < v.items.len() && j != i ==> #[trigger] v.after_finish(i, false).items[j]
                == v.items[j],
        v.after_finish(i, false).reported == v.reported + 1,
        v.after_finish(i, false).can_start() == v.can_start(),
        v.after_finish(i, false).wf(),
{
    lemma_finish_wf(v, i, false);
}

/// The settings of a run.
#[derive(Debug, Clone, Copy, PartialEq, Eq, Structural)]
pub struct OperationSettings {
    /// How many downloads run at once; at least one.
    pub concurrency: usize,
    /// Seconds an item keeps its permit after it finished.
    pub wait_after_download: u64,
}

/// Why the settings of a run were refused.
#[derive(Debug, Clone, Copy, PartialEq, Eq, Structural)]
pub enum SettingsError {
    /// A run needs at least one permit.
    ZeroConcurrency,
}

/// Builds the settings of a run: one download at a time and a cooldown of
/// one second unless set otherwise.
#[derive(Debug, Clone, Copy, PartialEq, Eq, Structural)]
pub struct OperationBuilder {
    pub concurrency: Option<usize>,
    pub wait_after_download: Option<u64>,
}

pub const DEFAULT_CONCURRENCY: usize = 1;

pub const DEFAULT_WAIT_SECS: u64 = 1;

impl OperationBuilder {
    pub fn new() -> (r: Self)
        ensures
            r.concurrency is None,
            r.wait_after_download is None,
    {
        OperationBuilder { concurrency: None, wait_after_download: None }
    }

    /// The cooldown after each download, in seconds.
    pub fn wait_after_download(self, secs: u64) -> (r: Self)
        ensures
            r == (OperationBuilder { wait_after_download: Some(secs), ..self }),
    {
        OperationBuilder { wait_after_download: Some(secs), ..self }
    }

    /// How many downloads run at once.
    pub fn concurrency(self, n: usize) -> (r: Self)
        ensures
            r == (OperationBuilder { concurrency: Some(n), ..self }),
    {
        OperationBuilder { concurrency: Some(n), ..self }
    }

    /// The settings, defaults filled in; a concurrency of zero is refused.
    pub fn build(&self) -> (r: Result<OperationSettings, SettingsError>)
        ensures
            self.concurrency == Some(0usize) ==> r == Err::<OperationSettings, SettingsError>(
                SettingsError::ZeroConcurrency,
            ),
            self.concurrency != Some(0usize) ==> r == Ok::<OperationSettings, SettingsError>(
                OperationSettings {
                    concurrency: match self.concurrency {
                        Some(n) => n,
                        None => DEFAULT_CONCURRENCY,
                    },
                    wait_after_download: match self.wait_after_download {
                        Some(w) => w,
                        None => DEFAULT_WAIT_SECS,
                    },
                },
            ),
    {
        let concurrency = match self.concurrency {
            Some(n) => n,
            None => DEFAULT_CONCURRENCY,
        };
        if concurrency == 0 {
            return Err(SettingsError::ZeroConcurrency);
        }
        let wait_after_download = match self.wait_after_download {
            Some(w) => w,
            None => DEFAULT_WAIT_SECS,
        };
        Ok(OperationSettings { concurrency, wait_after_download })
    }
}

impl OperationSettings {
    /// A scheduler for `n` items under these settings.
    pub fn scheduler(&self, n: usize) -> (r: Scheduler)
        requires
            self.concurrency > 0,
        ensures
            r.view().wf(),
            r.view().capacity == self.concurrency,
            r.view().items.len() == n,
            r.view().started == 0,
            r.view().in_flight == 0,
            r.view().reported == 0,
    {
        Scheduler::new(self.concurrency, n)
    }
}

/// The requests of a run, in the order they are submitted.
pub trait Source {
    /// How many requests there are, as a value of the specification.
    spec fn spec_len(&self) -> nat;

    /// How many requests there are.
    fn num_downloads(&self) -> (r: u64)
        ensures
            r as nat == self.spec_len(),
    ;

    /// The request at position `i`, if there is one.
    fn request(&self, i: usize) -> (r: Option<FileDownload>)
        ensures
            r is Some <==> i < self.spec_len(),
    ;
}

impl Source for Vec<FileDownload> {
    open spec fn spec_len(&self) -> nat {
        self@.len()
    }

    fn num_downloads(&self) -> (r: u64) {
        self.len() as u64
    }

    fn request(&self, i: usize) -> (r: Option<FileDownload>) {
        if i < self.len() {
            Some(self[i].clone())
        } else {
            None
        }
    }
}

} // verus!
