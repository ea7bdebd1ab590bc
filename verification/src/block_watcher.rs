//! Single-flight watching of the node's block stream.
//!
//! However many callers ask for the latest block, one of them is told to
//! open the subscription; the others wait for its first block. The watcher
//! does no I/O: whoever drives the stream reports each block with `deliver`
//! and the end of the stream with `close`, and answers the callers that
//! these return.

use vstd::prelude::*;
use crate::bytes::H256;
use crate::header::Header;
use crate::snapshot::BlockSnapshot;

verus! {

/// How far the subscription has come.
#[derive(Clone, Copy, Debug, PartialEq, Eq)]
pub enum WatcherState {
    /// Nobody has subscribed, or the subscription has ended.
    NotStarted,
    /// One caller is opening the subscription; no block has arrived.
    Starting,
    /// The subscription has delivered a block.
    Running,
}

/// The watcher as a mathematical value.
pub struct WatcherModel {
    pub state: WatcherState,
    /// The header and hash of the block seen last.
    pub latest: Option<(Header, H256)>,
    /// The callers that wait for a block, in the order in which they came.
    pub waiters: Seq<u64>,
}

/// What a caller that asks for the latest block is told.
pub enum Step {
    /// Open the subscription: the caller is its owner.
    Subscribe,
    /// This is the latest block.
    Ready(Header, H256),
    /// Wait: the caller has joined the queue.
    Wait,
}

impl WatcherModel {
    /// The watcher before anything has happened.
    pub open spec fn fresh() -> WatcherModel {
        WatcherModel { state: WatcherState::NotStarted, latest: None, waiters: Seq::empty() }
    }

    /// What holds of every watcher: a block is cached exactly while the
    /// subscription runs, nobody waits while a block is cached, and nobody
    /// waits twice.
    pub open spec fn wf(self) -> bool {
        &&& self.state is Running <==> self.latest is Some
        &&& self.latest is Some ==> self.waiters.len() == 0
        &&& self.waiters.no_duplicates()
    }

    /// A caller tries to become the owner of the subscription.
    pub open spec fn start_spawn(self) -> (WatcherModel, bool) {
        if self.state is NotStarted {
            (WatcherModel { state: WatcherState::Starting, ..self }, true)
        } else {
            (self, false)
        }
    }

    /// The owner gives up a subscription that has not delivered.
    pub open spec fn cancel_spawn(self) -> WatcherModel {
        if self.state is Starting {
            WatcherModel { state: WatcherState::NotStarted, ..self }
        } else {
            self
        }
    }

    /// The stream delivers a block: it becomes the latest and nobody waits
    /// any more.
    pub open spec fn deliver(self, block: Header, block_hash: H256) -> WatcherModel {
        WatcherModel {
            state: WatcherState::Running,
            latest: Some((block, block_hash)),
            waiters: Seq::empty(),
        }
    }

    /// The stream ends.
    pub open spec fn close(self) -> WatcherModel {
        WatcherModel::fresh()
    }

    /// A caller asks for the cached block and joins the queue where there is
    /// none.
    pub open spec fn request(self, waiter: u64) -> WatcherModel {
        if self.latest is Some || self.waiters.contains(waiter) {
            self
        } else {
            WatcherModel { waiters: self.waiters.push(waiter), ..self }
        }
    }

    /// A caller asks for the latest block: the first becomes the owner, the
    /// others get the cached block or wait.
    pub open spec fn ask(self, waiter: u64) -> (WatcherModel, Step) {
        if self.start_spawn().1 {
            (self.start_spawn().0, Step::Subscribe)
        } else {
            match self.latest {
                Some((block, block_hash)) => (self, Step::Ready(block, block_hash)),
                None => (self.request(waiter), Step::Wait),
            }
        }
    }

    /// A caller asks for the latest block, and where it is told to
    /// subscribe, it does so with success and then waits like the others.
    pub open spec fn ask_and_subscribe(self, waiter: u64) -> WatcherModel {
        if self.ask(waiter).1 is Subscribe {
            self.ask(waiter).0.request(waiter)
        } else {
            self.ask(waiter).0
        }
    }

    /// The watcher after each of the callers has asked in turn.
    pub open spec fn after(self, callers: Seq<u64>) -> WatcherModel
        decreases callers.len(),
    {
        if callers.len() == 0 {
            self
        } else {
            self.after(callers.drop_last()).ask_and_subscribe(callers.last())
        }
    }

    /// How many of the callers were told to subscribe.
    pub open spec fn subscriptions(self, callers: Seq<u64>) -> nat
        decreases callers.len(),
    {
        if callers.len() == 0 {
            0
        } else {
            let before = self.subscriptions(callers.drop_last());
            if self.after(callers.drop_last()).ask(callers.last()).1 is Subscribe {
                before + 1
            } else {
                before
            }
        }
    }
}

/// Every step of a watcher keeps it well-formed.
pub proof fn lemma_steps_keep_wf(m: WatcherModel, waiter: u64, block: Header, block_hash: H256)
    requires
        m.wf(),
    ensures
        WatcherModel::fresh().wf(),
        m.start_spawn().0.wf(),
        m.cancel_spawn().wf(),
        m.deliver(block, block_hash).wf(),
        m.close().wf(),
        m.request(waiter).wf(),
        m.ask(waiter).0.wf(),
{
    let queued = m.request(waiter);
    assert(queued.waiters.no_duplicates()) by {
        if !(m.latest is Some || m.waiters.contains(waiter)) {
            assert forall|i: int, j: int|
                0 <= i < queued.waiters.len() && 0 <= j < queued.waiters.len() && i
                    != j implies queued.waiters[i] != queued.waiters[j] by {
                if i < m.waiters.len() && j < m.waiters.len() {
                } else if i < m.waiters.len() {
                    assert(m.waiters.contains(m.waiters[i]));
                } else {
                    assert(m.waiters.contains(m.waiters[j]));
                }
            }
        }
    }
}

/// Single flight. Of any number of distinct callers that ask a fresh
/// watcher for the latest block before one has arrived, exactly one, the
/// first, is told to subscribe; all of them end up in the queue, in the order
/// in which they came; and the first block that is delivered empties the
/// queue and is what every later caller is given.
pub proof fn lemma_single_flight(callers: Seq<u64>, block: Header, block_hash: H256)
    requires
        callers.len() >= 1,
        callers.no_duplicates(),
    ensures
        WatcherModel::fresh().subscriptions(callers) == 1,
        WatcherModel::fresh().ask(callers[0]).1 is Subscribe,
        WatcherModel::fresh().after(callers).state is Starting,
        WatcherModel::fresh().after(callers).latest is None,
        WatcherModel::fresh().after(callers).waiters == callers,
        WatcherModel::fresh().after(callers).deliver(block, block_hash).waiters.len() == 0,
        forall|later: u64|
            (#[trigger] WatcherModel::fresh().after(callers).deliver(block, block_hash).ask(
                later,
            )).1 == Step::Ready(block, block_hash),
    decreases callers.len(),
{
    let fresh = WatcherModel::fresh();
    let earlier = callers.drop_last();
    let last = callers.last();
    if earlier.len() == 0 {
        assert(fresh.after(earlier) == fresh);
        assert(fresh.subscriptions(earlier) == 0);
        assert(fresh.after(callers).waiters =~= callers);
    } else {
        assert(earlier.no_duplicates());
        lemma_single_flight(earlier, block, block_hash);
        assert(earlier[0] == callers[0]);
        assert(!earlier.contains(last)) by {
            if earlier.contains(last) {
                let i = choose|i: int| 0 <= i < earlier.len() && earlier[i] == last;
                assert(callers[i] == callers[callers.len() - 1]);
            }
        }
        assert(fresh.after(callers).waiters =~= callers);
    }
}

/// Exclusiveness. While a subscription is claimed or runs, no caller is told
/// to subscribe and the claim stays, in whatever order callers ask and the
/// owner reports; only `cancel_spawn` and `close` give the claim back.
pub proof fn lemma_claimed_subscription_is_exclusive(
    m: WatcherModel,
    waiter: u64,
    block: Header,
    block_hash: H256,
)
    requires
        !(m.state is NotStarted),
    ensures
        !m.start_spawn().1,
        !(m.ask(waiter).1 is Subscribe),
        !(m.ask(waiter).0.state is NotStarted),
        !(m.request(waiter).state is NotStarted),
        !(m.deliver(block, block_hash).state is NotStarted),
{
}

/// Nobody is forgotten. A caller that is told to wait is in the queue, and a
/// caller in the queue stays there while others ask, until a block is
/// delivered or the stream ends; `deliver` and `close` return the queue.
pub proof fn lemma_queue_keeps_callers(m: WatcherModel, waiter: u64, other: u64)
    ensures
        m.ask(waiter).1 is Wait ==> m.ask(waiter).0.waiters.contains(waiter),
        m.latest is None ==> m.request(waiter).waiters.contains(waiter),
        m.waiters.contains(waiter) ==> m.ask(other).0.waiters.contains(waiter),
        m.waiters.contains(waiter) ==> m.request(other).waiters.contains(waiter),
        m.waiters.contains(waiter) ==> m.start_spawn().0.waiters.contains(waiter),
        m.waiters.contains(waiter) ==> m.cancel_spawn().waiters.contains(waiter),
{
    let queued = m.request(waiter);
    if m.latest is None && !m.waiters.contains(waiter) {
        assert(queued.waiters[queued.waiters.len() - 1] == waiter);
    }
    if m.waiters.contains(waiter) {
        let i = choose|i: int| 0 <= i < m.waiters.len() && m.waiters[i] == waiter;
        assert(m.request(other).waiters[i] == waiter);
        assert(m.ask(other).0.waiters[i] == waiter);
    }
}

/// Recovery. A subscription that could not be opened leaves no trace: once
/// the owner has cancelled, the watcher is as it was before the owner asked,
/// and the next caller is told to subscribe.
pub proof fn lemma_cancelled_subscription_is_retried(m: WatcherModel, owner: u64, next: u64)
    requires
        m.ask(owner).1 is Subscribe,
    ensures
        m.ask(owner).0.cancel_spawn() == m,
        m.ask(owner).0.cancel_spawn().ask(next).1 is Subscribe,
{
}

/// Block watcher.
#[derive(Debug)]
pub struct BlockWatcher {
    state: WatcherState,
    latest: Option<(Header, H256)>,
    waiters: Vec<u64>,
}

impl View for BlockWatcher {
    type V = WatcherModel;

    closed spec fn view(&self) -> WatcherModel {
        WatcherModel { state: self.state, latest: self.latest, waiters: self.waiters@ }
    }
}

impl BlockWatcher {
    /// A watcher with no subscription and no block.
    pub fn new() -> (res: Self)
        ensures
            res@ == WatcherModel::fresh(),
    {
        BlockWatcher { state: WatcherState::NotStarted, latest: None, waiters: Vec::new() }
    }

    /// Claims the subscription: `true` for the one caller that has to open
    /// it, `false` for every other until the subscription is cancelled or
    /// ends.
    pub fn start_spawn(&mut self) -> (res: bool)
        ensures
            (final(self)@, res) == old(self)@.start_spawn(),
    {
        match self.state {
            WatcherState::NotStarted => {
                self.state = WatcherState::Starting;
                true
            },
            _ => false,
        }
    }

    /// Gives the claim back after the subscription could not be opened, so
    /// that the next caller tries again. A subscription that has delivered a
    /// block is not touched.
    pub fn cancel_spawn(&mut self)
        ensures
            final(self)@ == old(self)@.cancel_spawn(),
    {
        match self.state {
            WatcherState::Starting => {
                self.state = WatcherState::NotStarted;
            },
            _ => {},
        }
    }

    /// Takes a block from the stream. It becomes the latest block; the
    /// callers returned were waiting and are answered with it.
    pub fn deliver(&mut self, block: Header, block_hash: H256) -> (woken: Vec<u64>)
        ensures
            final(self)@ == old(self)@.deliver(block, block_hash),
            woken@ == old(self)@.waiters,
    {
        let mut woken: Vec<u64> = Vec::new();
        std::mem::swap(&mut woken, &mut self.waiters);
        self.state = WatcherState::Running;
        self.latest = Some((block, block_hash));
        woken
    }

    /// Takes the end of the stream, by error or not. The watcher starts
    /// over; the callers returned were waiting and fail with `WatcherClosed`.
    pub fn close(&mut self) -> (failed: Vec<u64>)
        ensures
            final(self)@ == old(self)@.close(),
            failed@ == old(self)@.waiters,
    {
        let mut failed: Vec<u64> = Vec::new();
        std::mem::swap(&mut failed, &mut self.waiters);
        self.state = WatcherState::NotStarted;
        self.latest = None;
        failed
    }

    /// The latest block, where one is cached. Where none is, the caller
    /// joins the queue and is answered by `deliver` or `close`.
    pub fn get_latest_block(&mut self, waiter: u64) -> (res: Option<BlockSnapshot>)
        ensures
            final(self)@ == old(self)@.request(waiter),
            match old(self)@.latest {
                Some((block, block_hash)) => res matches Some(snapshot) && snapshot.block()
                    == block && snapshot.block_hash() == block_hash && snapshot.kept() is None,
                None => res is None,
            },
    {
        match self.latest {
            Some((block, block_hash)) => Some(BlockSnapshot::new(block, block_hash)),
            None => {
                if !self.waits(waiter) {
                    self.waiters.push(waiter);
                }
                None
            },
        }
    }

    /// Whether the caller is in the queue.
    fn waits(&self, waiter: u64) -> (res: bool)
        ensures
            res == self@.waiters.contains(waiter),
    {
        let mut i: usize = 0;
        while i < self.waiters.len()
            invariant
                i <= self.waiters.len(),
                forall|j: int| 0 <= j < i ==> self.waiters@[j] != waiter,
            decreases self.waiters.len() - i,
        {
            if self.waiters[i] == waiter {
                return true;
            }
            i += 1;
        }
        false
    }
}

} // verus!
