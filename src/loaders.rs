use vstd::prelude::*;

verus! {

/// How a loaded asset is published once loading completes.
#[derive(Clone, Copy, Debug, PartialEq, Eq, Structural)]
pub enum LoaderAssetType {
    /// Kept under the handle that loading gave it.
    Untyped,
    /// A texture that is also published under this stable id.
    TextureWithId(u128),
}

/// A request to load the asset at `path`.
pub struct LoadingProgressData {
    /// The path to load the asset from.
    pub path: String,
    /// How the asset is published once loaded.
    pub asset_type: LoaderAssetType,
}

impl LoadingProgressData {
    /// A request to load `path`, published as `asset_type` says.
    pub fn new(path: &str, asset_type: LoaderAssetType) -> (r: Self)
        ensures
            r.path@ == path@,
            r.asset_type == asset_type,
    {
        LoadingProgressData { path: path.to_owned(), asset_type }
    }
}

impl<'a> From<&'a str> for LoadingProgressData {
    fn from(path: &'a str) -> (r: Self) {
        LoadingProgressData::new(path, LoaderAssetType::Untyped)
    }
}

impl<'a> vstd::std_specs::convert::FromSpecImpl<&'a str> for LoadingProgressData {
    /// A `String` is not determined by its characters in the model, so the
    /// result is described by `new`'s contract rather than pinned here.
    open spec fn obeys_from_spec() -> bool {
        false
    }

    open spec fn from_spec(path: &'a str) -> Self {
        choose|r: LoadingProgressData| r.path@ == path@ && r.asset_type == LoaderAssetType::Untyped
    }
}

impl<'a> From<(&'a str, u128)> for LoadingProgressData {
    fn from(data: (&'a str, u128)) -> (r: Self) {
        LoadingProgressData::new(data.0, LoaderAssetType::TextureWithId(data.1))
    }
}

impl<'a> vstd::std_specs::convert::FromSpecImpl<(&'a str, u128)> for LoadingProgressData {
    /// As for a bare path, the result is described by `new`'s contract.
    open spec fn obeys_from_spec() -> bool {
        false
    }

    open spec fn from_spec(data: (&'a str, u128)) -> Self {
        choose|r: LoadingProgressData|
            r.path@ == data.0@ && r.asset_type == LoaderAssetType::TextureWithId(data.1)
    }
}

/// A batch of load requests.
pub struct LoadAssets {
    pub assets: Vec<LoadingProgressData>,
}

/// What the asset backend reports for a handle.
#[derive(Clone, Copy, Debug, PartialEq, Eq, Structural)]
pub enum AssetLoadState {
    /// The backend does not know the handle (yet).
    Unknown,
    /// Loading has started and not finished.
    InProgress,
    /// The asset is loaded.
    Loaded,
}

/// A load that has been started and has not finished.
#[derive(Clone, Copy, Debug, PartialEq, Eq, Structural)]
pub struct InFlight {
    pub handle: u128,
    pub asset_type: LoaderAssetType,
}

/// A loaded asset that must also be published under a stable id.
#[derive(Clone, Copy, Debug, PartialEq, Eq, Structural)]
pub struct Republish {
    pub handle: u128,
    pub id: u128,
}

/// Tracks how many requested assets have been loaded, and latches once the
/// first batch is fully loaded.
pub struct LoadingStatus {
    items_loaded: usize,
    items_to_load: usize,
    initial_load_done: bool,
    in_flight: Vec<InFlight>,
}

/// The abstract state of a [`LoadingStatus`].
pub struct LoadingView {
    pub loaded: nat,
    pub total: nat,
    pub initial_ready: bool,
    pub in_flight: Seq<InFlight>,
}

impl LoadingView {
    /// Every started load is either counted as loaded or still in flight, and
    /// the latch is set whenever a non-empty set of loads is complete.
    pub open spec fn wf(self) -> bool {
        &&& self.loaded + self.in_flight.len() == self.total
        &&& (self.total > 0 && self.loaded == self.total) ==> self.initial_ready
    }

    pub open spec fn complete(self) -> bool {
        self.loaded == self.total
    }
}

impl View for LoadingStatus {
    type V = LoadingView;

    closed spec fn view(&self) -> LoadingView {
        LoadingView {
            loaded: self.items_loaded as nat,
            total: self.items_to_load as nat,
            initial_ready: self.initial_load_done,
            in_flight: self.in_flight@,
        }
    }
}

/// The loads started for `requests`, `handles[i]` being the handle under which
/// `requests[i]` is loading.
pub open spec fn started_loads(requests: Seq<LoadingProgressData>, handles: Seq<u128>) -> Seq<InFlight> {
    Seq::new(handles.len(), |i: int| InFlight { handle: handles[i], asset_type: requests[i].asset_type })
}

/// The tracker after new loads start.
pub open spec fn submitted(v: LoadingView, loads: Seq<InFlight>) -> LoadingView {
    LoadingView {
        loaded: v.loaded,
        total: v.total + loads.len(),
        initial_ready: v.initial_ready,
        in_flight: v.in_flight + loads,
    }
}

/// The first `n` loads of `items` that `states` does not report as loaded, in order.
pub open spec fn still_loading(items: Seq<InFlight>, states: Seq<AssetLoadState>, n: nat) -> Seq<InFlight>
    decreases n,
{
    if n == 0 {
        Seq::empty()
    } else {
        let prev = still_loading(items, states, (n - 1) as nat);
        if states[n - 1] == AssetLoadState::Loaded {
            prev
        } else {
            prev.push(items[n - 1])
        }
    }
}

/// How many of the first `n` states report a load as finished.
pub open spec fn loaded_count(states: Seq<AssetLoadState>, n: nat) -> nat
    decreases n,
{
    if n == 0 {
        0
    } else if states[n - 1] == AssetLoadState::Loaded {
        loaded_count(states, (n - 1) as nat) + 1
    } else {
        loaded_count(states, (n - 1) as nat)
    }
}

/// The ids under which the first `n` loads, if finished, are published, in order.
pub open spec fn republished(items: Seq<InFlight>, states: Seq<AssetLoadState>, n: nat) -> Seq<Republish>
    decreases n,
{
    if n == 0 {
        Seq::empty()
    } else {
        let prev = republished(items, states, (n - 1) as nat);
        match items[n - 1].asset_type {
            LoaderAssetType::TextureWithId(id) if states[n - 1] == AssetLoadState::Loaded =>
                prev.push(Republish { handle: items[n - 1].handle, id }),
            _ => prev,
        }
    }
}

/// The tracker after one poll in which `states[i]` is what the backend
/// reports for the `i`-th load in flight.
pub open spec fn polled(v: LoadingView, states: Seq<AssetLoadState>) -> LoadingView {
    let n = v.in_flight.len();
    let loaded = v.loaded + loaded_count(states, n);
    LoadingView {
        loaded,
        total: v.total,
        initial_ready: v.initial_ready || (v.total > 0 && loaded == v.total),
        in_flight: still_loading(v.in_flight, states, n),
    }
}

/// One call on the tracker: a batch of loads started, or a poll.
pub enum LoadingOp {
    Submit(Seq<InFlight>),
    Poll(Seq<AssetLoadState>),
}

/// The tracker after each call of `ops`, in order.
pub open spec fn replayed(v: LoadingView, ops: Seq<LoadingOp>) -> LoadingView
    decreases ops.len(),
{
    if ops.len() == 0 {
        v
    } else {
        let prev = replayed(v, ops.drop_last());
        match ops.last() {
            LoadingOp::Submit(loads) => submitted(prev, loads),
            LoadingOp::Poll(states) => polled(prev, states),
        }
    }
}

/// The readiness latch never unlatches: once set, no sequence of further
/// submits and polls clears it.
pub proof fn lemma_initial_ready_is_monotonic(v: LoadingView, ops: Seq<LoadingOp>)
    requires
        v.initial_ready,
    ensures
        replayed(v, ops).initial_ready,
    decreases ops.len(),
{
    if ops.len() > 0 {
        lemma_initial_ready_is_monotonic(v, ops.drop_last());
    }
}

/// Submitting loads to a tracker that has loaded everything leaves it
/// complete exactly when no load was submitted.
pub proof fn lemma_submit_reopens_loading(v: LoadingView, loads: Seq<InFlight>)
    requires
        v.complete(),
    ensures
        submitted(v, loads).complete() == (loads.len() == 0),
{
}

impl LoadingStatus {
    /// A tracker with nothing requested.
    pub fn new() -> (r: Self)
        ensures
            r@.loaded == 0,
            r@.total == 0,
            !r@.initial_ready,
            r@.in_flight.len() == 0,
            r@.wf(),
    {
        LoadingStatus { items_loaded: 0, items_to_load: 0, initial_load_done: false, in_flight: Vec::new() }
    }

    /// The number of requested assets that have finished loading.
    pub fn items_loaded(&self) -> (r: usize)
        ensures
            r == self@.loaded,
    {
        self.items_loaded
    }

    /// The number of assets requested so far.
    pub fn items_to_load(&self) -> (r: usize)
        ensures
            r == self@.total,
    {
        self.items_to_load
    }

    /// True when every requested asset has been loaded.
    pub fn is_complete(&self) -> (r: bool)
        ensures
            r == self@.complete(),
    {
        self.items_loaded == self.items_to_load
    }

    /// True once a non-empty set of requests has been fully loaded; stays true
    /// after that.
    pub fn initial_ready(&self) -> (r: bool)
        ensures
            r == self@.initial_ready,
    {
        self.initial_load_done
    }

    /// Record a batch of loads that the asset backend has started: `handles[i]`
    /// is the handle under which `batch.assets[i]` is loading. Each request
    /// adds one to the number of items to load.
    pub fn submit(&mut self, batch: &LoadAssets, handles: &Vec<u128>)
        requires
            handles.len() == batch.assets.len(),
            old(self)@.total + handles.len() <= usize::MAX,
        ensures
            final(self)@ == submitted(old(self)@, started_loads(batch.assets@, handles@)),
            old(self)@.wf() ==> final(self)@.wf(),
    {
        let ghost loads = started_loads(batch.assets@, handles@);
        let ghost before = self.in_flight@;
        let mut i: usize = 0;
        while i < handles.len()
            invariant
                i <= handles.len(),
                handles.len() == batch.assets.len(),
                loads == started_loads(batch.assets@, handles@),
                self.in_flight@ == before + loads.subrange(0, i as int),
                self.items_to_load == old(self).items_to_load + i,
                old(self).items_to_load + handles.len() <= usize::MAX,
                self.items_loaded == old(self).items_loaded,
                self.initial_load_done == old(self).initial_load_done,
            decreases handles.len() - i,
        {
            self.in_flight.push(InFlight { handle: handles[i], asset_type: batch.assets[i].asset_type });
            self.items_to_load = self.items_to_load + 1;
            i += 1;
            proof {
                assert(self.in_flight@ =~= before + loads.subrange(0, i as int));
            }
        }
        proof {
            assert(loads.subrange(0, i as int) =~= loads);
            assert(self@.in_flight =~= submitted(old(self)@, loads).in_flight);
        }
    }

    /// Take in what the asset backend reports for each load in flight:
    /// `states[i]` is the state of the `i`-th handle of `in_flight_handles`.
    /// Finished loads are counted and dropped from the loads in flight; the
    /// result lists those that must also be published under a stable id.
    /// The readiness latch is set once everything requested so far is loaded.
    pub fn poll(&mut self, states: &Vec<AssetLoadState>) -> (r: Vec<Republish>)
        requires
            old(self)@.wf(),
            states.len() == old(self)@.in_flight.len(),
        ensures
            final(self)@ == polled(old(self)@, states@),
            final(self)@.wf(),
            r@ == republished(old(self)@.in_flight, states@, states.len() as nat),
    {
        let ghost items = self.in_flight@;
        let mut kept: Vec<InFlight> = Vec::new();
        let mut out: Vec<Republish> = Vec::new();
        let mut loaded: usize = self.items_loaded;
        let mut i: usize = 0;
        while i < states.len()
            invariant
                i <= states.len(),
                states.len() == items.len(),
                items == self.in_flight@,
                self@.wf(),
                kept@ == still_loading(items, states@, i as nat),
                out@ == republished(items, states@, i as nat),
                loaded == self.items_loaded + loaded_count(states@, i as nat),
                kept@.len() + loaded_count(states@, i as nat) == i,
            decreases states.len() - i,
        {
            let item = self.in_flight[i];
            if states[i] == AssetLoadState::Loaded {
                loaded = loaded + 1;
                match item.asset_type {
                    LoaderAssetType::TextureWithId(id) => {
                        out.push(Republish { handle: item.handle, id });
                    },
                    LoaderAssetType::Untyped => {},
                }
            } else {
                kept.push(item);
            }
            i += 1;
        }
        self.items_loaded = loaded;
        self.in_flight = kept;
        if self.items_loaded == self.items_to_load && self.items_to_load > 0 {
            self.initial_load_done = true;
        }
        out
    }

    /// The handles of the loads in flight, in the order in which `poll` expects
    /// their states.
    pub fn in_flight_handles(&self) -> (r: Vec<u128>)
        ensures
            r@ == self@.in_flight.map_values(|l: InFlight| l.handle),
    {
        let mut r: Vec<u128> = Vec::new();
        let mut i: usize = 0;
        while i < self.in_flight.len()
            invariant
                i <= self.in_flight@.len(),
                r@ == self.in_flight@.subrange(0, i as int).map_values(|l: InFlight| l.handle),
            decreases self.in_flight.len() - i,
        {
            r.push(self.in_flight[i].handle);
            i += 1;
            proof {
                assert(self.in_flight@.subrange(0, i as int).map_values(|l: InFlight| l.handle)
                    =~= r@);
            }
        }
        proof {
            assert(self.in_flight@.subrange(0, i as int) =~= self.in_flight@);
        }
        r
    }
}

impl Default for LoadingStatus {
    fn default() -> (r: Self)
        ensures
            r@.loaded == 0,
            r@.total == 0,
            !r@.initial_ready,
            r@.in_flight.len() == 0,
            r@.wf(),
    {
        LoadingStatus::new()
    }
}

} // verus!
