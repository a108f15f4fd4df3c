use vstd::prelude::*;
use vstd::string::StringExecFns;
use crate::concurrent::{envelope_map, envelope_map_get, envelope_map_insert, envelope_map_new, EnvelopeMap};
use crate::params::JitIxParams;
use crate::registry::{begin_spec, end_spec, AuctionRegistry};
use crate::state::{MarketType, Order, OrderStatus, PositionDirection};

verus! {

pub open spec fn digit_char(d: nat) -> char {
    if d == 0 {
        '0'
    } else if d == 1 {
        '1'
    } else if d == 2 {
        '2'
    } else if d == 3 {
        '3'
    } else if d == 4 {
        '4'
    } else if d == 5 {
        '5'
    } else if d == 6 {
        '6'
    } else if d == 7 {
        '7'
    } else if d == 8 {
        '8'
    } else {
        '9'
    }
}

/// `n` written in decimal, without leading zeros.
pub open spec fn decimal(n: nat) -> Seq<char>
    decreases n,
{
    if n < 10 {
        seq![digit_char(n)]
    } else {
        decimal(n / 10).push(digit_char(n % 10))
    }
}

/// Key of an auction: the taker's account, a dash, and the order's identifier.
pub open spec fn auction_key(taker: Seq<char>, id: Seq<char>) -> Seq<char> {
    taker + seq!['-'] + id
}

fn digit_str(d: u32) -> (r: &'static str)
    requires
        d < 10,
    ensures
        r@ == seq![digit_char(d as nat)],
{
    proof {
        reveal_strlit("0");
        reveal_strlit("1");
        reveal_strlit("2");
        reveal_strlit("3");
        reveal_strlit("4");
        reveal_strlit("5");
        reveal_strlit("6");
        reveal_strlit("7");
        reveal_strlit("8");
        reveal_strlit("9");
    }
    if d == 0 {
        "0"
    } else if d == 1 {
        "1"
    } else if d == 2 {
        "2"
    } else if d == 3 {
        "3"
    } else if d == 4 {
        "4"
    } else if d == 5 {
        "5"
    } else if d == 6 {
        "6"
    } else if d == 7 {
        "7"
    } else if d == 8 {
        "8"
    } else {
        "9"
    }
}

/// `n` in decimal.
pub fn decimal_string(n: u32) -> (r: String)
    ensures
        r@ == decimal(n as nat),
    decreases n,
{
    if n < 10 {
        String::from_str(digit_str(n))
    } else {
        let mut s = decimal_string(n / 10);
        s.append(digit_str(n % 10));
        s
    }
}

fn build_key(taker_key: &str, id: &str) -> (r: String)
    ensures
        r@ == auction_key(taker_key@, id@),
{
    proof {
        reveal_strlit("-");
    }
    let mut k = String::from_str(taker_key);
    k.append("-");
    k.append(id);
    k
}

/// A fill run to start: the auction's key, the taker's order and the envelope to fill it in.
#[derive(Debug)]
pub struct FillTask {
    pub order_sig: String,
    pub order: Order,
    pub params: JitIxParams,
}

impl View for FillTask {
    type V = (Seq<char>, Order, JitIxParams);

    open spec fn view(&self) -> (Seq<char>, Order, JitIxParams) {
        (self.order_sig@, self.order, self.params)
    }
}

/// A signed taker order delivered outside the on-chain auction accounts.
#[derive(Debug)]
pub struct SignedOrder {
    pub taker_key: String,
    pub order_uuid: String,
    pub market_type: MarketType,
    pub market_index: u16,
    pub direction: PositionDirection,
    pub base_asset_amount: u64,
    pub auction_duration: Option<u8>,
}

/// What becomes of a signed order.
#[derive(Debug)]
pub enum FastlaneDecision {
    /// Not eligible, or already in flight.
    Skip,
    /// Signed orders on spot markets are not filled.
    Unsupported,
    /// Start a fill run under this key with this envelope.
    Dispatch(String, JitIxParams),
}

/// The envelope configured for an order's market.
pub open spec fn envelope_for(perp: Map<u16, JitIxParams>, spot: Map<u16, JitIxParams>, o: Order) -> Option<JitIxParams> {
    let m = match o.market_type {
        MarketType::Perp => perp,
        MarketType::Spot => spot,
    };
    if m.contains_key(o.market_index) { Some(m[o.market_index]) } else { None }
}

/// Whether the order's auction is running at slot `slot`: it has started and not ended.
pub open spec fn in_auction(o: Order, slot: u64) -> bool {
    o.auction_duration > 0 && o.slot <= slot && slot < o.slot + o.auction_duration
}

/// Whether an order may get a fill run at slot `slot`: new fills are not paused, the order
/// is open with its auction running, an envelope is configured for its market, and what
/// is left of it is at least the market's minimum order size.
pub open spec fn eligible(
    paused: bool,
    perp: Map<u16, JitIxParams>,
    spot: Map<u16, JitIxParams>,
    o: Order,
    min_order_size: u64,
    slot: u64,
) -> bool {
    &&& !paused
    &&& o.status == OrderStatus::Open
    &&& in_auction(o, slot)
    &&& envelope_for(perp, spot, o) is Some
    &&& o.base_asset_amount_filled <= o.base_asset_amount
    &&& o.base_asset_amount - o.base_asset_amount_filled >= min_order_size
}

/// The registry and the runs to start after the first `n` orders of an update.
pub open spec fn dispatch(
    s0: Set<Seq<char>>,
    paused: bool,
    perp: Map<u16, JitIxParams>,
    spot: Map<u16, JitIxParams>,
    taker: Seq<char>,
    orders: Seq<Order>,
    min_order_sizes: Seq<u64>,
    slot: u64,
    n: int,
) -> (Set<Seq<char>>, Seq<(Seq<char>, Order, JitIxParams)>)
    decreases n,
{
    if n <= 0 {
        (s0, seq![])
    } else {
        let (s, t) = dispatch(s0, paused, perp, spot, taker, orders, min_order_sizes, slot, n - 1);
        let o = orders[n - 1];
        let key = auction_key(taker, decimal(o.order_id as nat));
        if eligible(paused, perp, spot, o, min_order_sizes[n - 1], slot) && !s.contains(key) {
            (s.insert(key), t.push((key, o, envelope_for(perp, spot, o)->Some_0)))
        } else {
            (s, t)
        }
    }
}

/// Decides which auctions to attempt; the runs themselves are carried out by the caller,
/// which ends each in the registry when it stops.
///
/// Every method that changes the scheduler takes `&mut self`, so callers on several tasks
/// share it behind one lock and its calls for unrelated keys are serialized. Each call is
/// short (no I/O): the runs, which do the waiting, hold no lock.
pub struct Jitter {
    perp_params: EnvelopeMap,
    spot_params: EnvelopeMap,
    ongoing_auctions: AuctionRegistry,
    exclusion_criteria: bool,
}

impl Jitter {
    pub closed spec fn perp_envelopes(&self) -> Map<u16, JitIxParams> {
        envelope_map(self.perp_params)
    }

    pub closed spec fn spot_envelopes(&self) -> Map<u16, JitIxParams> {
        envelope_map(self.spot_params)
    }

    pub closed spec fn in_flight(&self) -> Set<Seq<char>> {
        self.ongoing_auctions@
    }

    pub closed spec fn paused(&self) -> bool {
        self.exclusion_criteria
    }

    /// A scheduler with no envelope, no auction in flight, and new fills allowed.
    pub fn new() -> (r: Self)
        ensures
            r.perp_envelopes().dom() == Set::<u16>::empty(),
            r.spot_envelopes().dom() == Set::<u16>::empty(),
            r.in_flight() == Set::<Seq<char>>::empty(),
            !r.paused(),
    {
        Jitter {
            perp_params: envelope_map_new(),
            spot_params: envelope_map_new(),
            ongoing_auctions: AuctionRegistry::new(),
            exclusion_criteria: false,
        }
    }

    /// Sets or replaces the envelope of perpetual market `market_index`.
    pub fn update_perp_params(&mut self, market_index: u16, params: JitIxParams)
        ensures
            final(self).perp_envelopes() == old(self).perp_envelopes().insert(market_index, params),
            final(self).spot_envelopes() == old(self).spot_envelopes(),
            final(self).in_flight() == old(self).in_flight(),
            final(self).paused() == old(self).paused(),
    {
        envelope_map_insert(&mut self.perp_params, market_index, params)
    }

    /// Sets or replaces the envelope of spot market `market_index`.
    pub fn update_spot_params(&mut self, market_index: u16, params: JitIxParams)
        ensures
            final(self).spot_envelopes() == old(self).spot_envelopes().insert(market_index, params),
            final(self).perp_envelopes() == old(self).perp_envelopes(),
            final(self).in_flight() == old(self).in_flight(),
            final(self).paused() == old(self).paused(),
    {
        envelope_map_insert(&mut self.spot_params, market_index, params)
    }

    /// Pauses (`true`) or resumes the start of new fill runs; runs in flight go on.
    pub fn set_exclusion_criteria(&mut self, exclusion_criteria: bool)
        ensures
            final(self).paused() == exclusion_criteria,
            final(self).perp_envelopes() == old(self).perp_envelopes(),
            final(self).spot_envelopes() == old(self).spot_envelopes(),
            final(self).in_flight() == old(self).in_flight(),
    {
        self.exclusion_criteria = exclusion_criteria;
    }

    /// Key of the auction of order `order_id` of the taker account `taker_key`.
    pub fn get_order_signatures(&self, taker_key: &str, order_id: u32) -> (r: String)
        ensures
            r@ == auction_key(taker_key@, decimal(order_id as nat)),
    {
        let id = decimal_string(order_id);
        build_key(taker_key, id.as_str())
    }

    /// Key of the auction of the signed order `order_uuid` of the taker account `taker_key`.
    pub fn get_signed_order_signatures(&self, taker_key: &str, order_uuid: &str) -> (r: String)
        ensures
            r@ == auction_key(taker_key@, order_uuid@),
    {
        build_key(taker_key, order_uuid)
    }

    /// Frees the key of an auction whose run has stopped, however it stopped.
    pub fn end_auction(&mut self, order_sig: &str)
        ensures
            final(self).in_flight() == end_spec(old(self).in_flight(), order_sig@),
            final(self).perp_envelopes() == old(self).perp_envelopes(),
            final(self).spot_envelopes() == old(self).spot_envelopes(),
            final(self).paused() == old(self).paused(),
    {
        self.ongoing_auctions.end(order_sig)
    }

    pub fn is_in_flight(&self, order_sig: &str) -> (r: bool)
        ensures
            r == self.in_flight().contains(order_sig@),
    {
        self.ongoing_auctions.contains(order_sig)
    }

    fn envelope_of(&self, order: &Order) -> (r: Option<JitIxParams>)
        ensures
            r == envelope_for(self.perp_envelopes(), self.spot_envelopes(), *order),
    {
        match order.market_type {
            MarketType::Perp => envelope_map_get(&self.perp_params, order.market_index),
            MarketType::Spot => envelope_map_get(&self.spot_params, order.market_index),
        }
    }

    /// Handles an update of the taker account `taker_key` at slot `slot`: enters in the
    /// registry, and returns, a fill run for each eligible order whose auction is not in
    /// flight yet.
    /// `min_order_sizes[i]` is the minimum order size of the market of `orders[i]`.
    pub fn on_auction(&mut self, taker_key: &str, orders: &Vec<Order>, min_order_sizes: &Vec<u64>, slot: u64) -> (r: Vec<
        FillTask,
    >)
        requires
            orders.len() == min_order_sizes.len(),
        ensures
            ({
                let (s, t) = dispatch(
                    old(self).in_flight(),
                    old(self).paused(),
                    old(self).perp_envelopes(),
                    old(self).spot_envelopes(),
                    taker_key@,
                    orders@,
                    min_order_sizes@,
                    slot,
                    orders.len() as int,
                );
                &&& final(self).in_flight() == s
                &&& r.len() == t.len()
                &&& forall|j: int| 0 <= j < t.len() ==> #[trigger] r@[j]@ == t[j]
            }),
            final(self).perp_envelopes() == old(self).perp_envelopes(),
            final(self).spot_envelopes() == old(self).spot_envelopes(),
            final(self).paused() == old(self).paused(),
    {
        let mut tasks: Vec<FillTask> = Vec::new();
        let mut i: usize = 0;
        while i < orders.len()
            invariant
                i <= orders.len(),
                orders.len() == min_order_sizes.len(),
                self.perp_envelopes() == old(self).perp_envelopes(),
                self.spot_envelopes() == old(self).spot_envelopes(),
                self.paused() == old(self).paused(),
                ({
                    let (s, t) = dispatch(
                        old(self).in_flight(),
                        old(self).paused(),
                        old(self).perp_envelopes(),
                        old(self).spot_envelopes(),
                        taker_key@,
                        orders@,
                        min_order_sizes@,
                        slot,
                        i as int,
                    );
                    &&& self.in_flight() == s
                    &&& tasks.len() == t.len()
                    &&& forall|j: int| 0 <= j < t.len() ==> #[trigger] tasks@[j]@ == t[j]
                }),
            decreases orders.len() - i,
        {
            let order = orders[i];
            let mos = min_order_sizes[i];
            let ghost prev = dispatch(
                old(self).in_flight(),
                old(self).paused(),
                old(self).perp_envelopes(),
                old(self).spot_envelopes(),
                taker_key@,
                orders@,
                min_order_sizes@,
                slot,
                i as int,
            );
            let ghost before = tasks@;
            let admitted = if self.exclusion_criteria || order.status != OrderStatus::Open
                || order.auction_duration == 0 || slot < order.slot
                || slot as u128 >= order.slot as u128 + order.auction_duration as u128 {
                None
            } else {
                match self.envelope_of(&order) {
                    None => None,
                    Some(params) => {
                        if order.base_asset_amount_filled > order.base_asset_amount {
                            None
                        } else {
                            let remaining = order.base_asset_amount - order.base_asset_amount_filled;
                            if remaining < mos {
                                None
                            } else {
                                Some(params)
                            }
                        }
                    },
                }
            };
            assert(admitted is Some <==> eligible(
                old(self).paused(),
                old(self).perp_envelopes(),
                old(self).spot_envelopes(),
                order,
                mos,
                slot,
            ));
            match admitted {
                None => {},
                Some(params) => {
                    let sig = self.get_order_signatures(taker_key, order.order_id);
                    let began = self.ongoing_auctions.try_begin(sig.clone());
                    if began {
                        tasks.push(FillTask { order_sig: sig, order, params });
                        assert(tasks@[before.len() as int]@ == (sig@, order, params));
                    }
                },
            }
            proof {
                let now = dispatch(
                    old(self).in_flight(),
                    old(self).paused(),
                    old(self).perp_envelopes(),
                    old(self).spot_envelopes(),
                    taker_key@,
                    orders@,
                    min_order_sizes@,
                    slot,
                    i + 1,
                );
                assert forall|j: int| 0 <= j < now.1.len() implies #[trigger] tasks@[j]@ == now.1[j] by {
                    if j < prev.1.len() {
                        assert(tasks@[j] == before[j]);
                    }
                }
            }
            i = i + 1;
        }
        tasks
    }

    /// Handles a signed order. It is skipped when it has no auction, new fills are paused,
    /// or its key is in flight; otherwise an order on a spot market is refused, and one on
    /// a perpetual market is entered in the registry and dispatched when an envelope is
    /// configured for its market and its size is at least `min_order_size`.
    pub fn on_fastlane_order(&mut self, order: &SignedOrder, min_order_size: u64) -> (r: FastlaneDecision)
        ensures
            ({
                let key = auction_key(order.taker_key@, order.order_uuid@);
                let has_auction = order.auction_duration is Some && order.auction_duration->Some_0 > 0;
                let env = old(self).perp_envelopes();
                if !has_auction || old(self).paused() || old(self).in_flight().contains(key) {
                    r is Skip && final(self).in_flight() == old(self).in_flight()
                } else if order.market_type == MarketType::Spot {
                    r is Unsupported && final(self).in_flight() == old(self).in_flight()
                } else if !env.contains_key(order.market_index) || order.base_asset_amount < min_order_size {
                    r is Skip && final(self).in_flight() == old(self).in_flight()
                } else {
                    &&& r is Dispatch
                    &&& r->Dispatch_0@ == key
                    &&& r->Dispatch_1 == env[order.market_index]
                    &&& final(self).in_flight() == begin_spec(old(self).in_flight(), key).0
                }
            }),
            final(self).perp_envelopes() == old(self).perp_envelopes(),
            final(self).spot_envelopes() == old(self).spot_envelopes(),
            final(self).paused() == old(self).paused(),
    {
        let duration_ok = match order.auction_duration {
            Some(d) => d > 0,
            None => false,
        };
        if !duration_ok || self.exclusion_criteria {
            return FastlaneDecision::Skip;
        }
        let sig = self.get_signed_order_signatures(order.taker_key.as_str(), order.order_uuid.as_str());
        if self.ongoing_auctions.contains(sig.as_str()) {
            return FastlaneDecision::Skip;
        }
        if order.market_type == MarketType::Spot {
            return FastlaneDecision::Unsupported;
        }
        let params = match envelope_map_get(&self.perp_params, order.market_index) {
            Some(p) => p,
            None => {
                return FastlaneDecision::Skip;
            },
        };
        if order.base_asset_amount < min_order_size {
            return FastlaneDecision::Skip;
        }
        let began = self.ongoing_auctions.try_begin(sig.clone());
        if !began {
            return FastlaneDecision::Skip;
        }
        FastlaneDecision::Dispatch(sig, params)
    }
}

/// Every run that one update dispatches has a key of its own, which was not in flight
/// before and is in flight after; no key leaves the registry.
pub proof fn lemma_dispatch_fresh(
    s0: Set<Seq<char>>,
    paused: bool,
    perp: Map<u16, JitIxParams>,
    spot: Map<u16, JitIxParams>,
    taker: Seq<char>,
    orders: Seq<Order>,
    min_order_sizes: Seq<u64>,
    slot: u64,
    n: int,
)
    ensures
        ({
            let (s, t) = dispatch(s0, paused, perp, spot, taker, orders, min_order_sizes, slot, n);
            &&& s0.subset_of(s)
            &&& forall|j: int| 0 <= j < t.len() ==> !s0.contains(#[trigger] t[j].0) && s.contains(t[j].0)
            &&& forall|j: int, m: int| 0 <= j < m < t.len() ==> #[trigger] t[j].0 != #[trigger] t[m].0
        }),
    decreases n,
{
    if n > 0 {
        lemma_dispatch_fresh(s0, paused, perp, spot, taker, orders, min_order_sizes, slot, n - 1);
    }
}


/// Keys of the runs in a list of runs.
pub open spec fn task_keys(t: Seq<(Seq<char>, Order, JitIxParams)>) -> Seq<Seq<char>> {
    t.map_values(|x: (Seq<char>, Order, JitIxParams)| x.0)
}

/// The runs that one update dispatches are kept by every longer prefix of that update.
proof fn lemma_dispatch_prefix(
    s0: Set<Seq<char>>,
    paused: bool,
    perp: Map<u16, JitIxParams>,
    spot: Map<u16, JitIxParams>,
    taker: Seq<char>,
    orders: Seq<Order>,
    min_order_sizes: Seq<u64>,
    slot: u64,
    m: int,
    n: int,
)
    requires
        0 <= m <= n,
    ensures
        ({
            let tm = dispatch(s0, paused, perp, spot, taker, orders, min_order_sizes, slot, m).1;
            let tn = dispatch(s0, paused, perp, spot, taker, orders, min_order_sizes, slot, n).1;
            tm.len() <= tn.len() && forall|j: int| 0 <= j < tm.len() ==> tn[j] == tm[j]
        }),
    decreases n - m,
{
    if m < n {
        lemma_dispatch_prefix(s0, paused, perp, spot, taker, orders, min_order_sizes, slot, m, n - 1);
    }
}

/// A key is in flight after an update exactly where it was before or a run was
/// dispatched under it.
proof fn lemma_dispatch_keys(
    s0: Set<Seq<char>>,
    paused: bool,
    perp: Map<u16, JitIxParams>,
    spot: Map<u16, JitIxParams>,
    taker: Seq<char>,
    orders: Seq<Order>,
    min_order_sizes: Seq<u64>,
    slot: u64,
    n: int,
    k: Seq<char>,
)
    ensures
        ({
            let (s, t) = dispatch(s0, paused, perp, spot, taker, orders, min_order_sizes, slot, n);
            s.contains(k) <==> (s0.contains(k) || exists|j: int| 0 <= j < t.len() && t[j].0 == k)
        }),
    decreases n,
{
    if n > 0 {
        lemma_dispatch_keys(s0, paused, perp, spot, taker, orders, min_order_sizes, slot, n - 1, k);
        let (sp, tp) = dispatch(s0, paused, perp, spot, taker, orders, min_order_sizes, slot, n - 1);
        let (s, t) = dispatch(s0, paused, perp, spot, taker, orders, min_order_sizes, slot, n);
        let o = orders[n - 1];
        let key = auction_key(taker, decimal(o.order_id as nat));
        if eligible(paused, perp, spot, o, min_order_sizes[n - 1], slot) && !sp.contains(key) {
            assert(t == tp.push((key, o, envelope_for(perp, spot, o)->Some_0)));
            assert(s == sp.insert(key));
            if (exists|j: int| 0 <= j < tp.len() && tp[j].0 == k) {
                let j = choose|j: int| 0 <= j < tp.len() && tp[j].0 == k;
                assert(t[j].0 == k);
            }
            if (exists|j: int| 0 <= j < t.len() && t[j].0 == k) {
                let j = choose|j: int| 0 <= j < t.len() && t[j].0 == k;
                if j < tp.len() {
                    assert(tp[j].0 == k);
                } else {
                    assert(k == key);
                }
            }
            if k == key {
                assert(t[tp.len() as int].0 == k);
            }
        } else {
            assert(t == tp);
            assert(s == sp);
        }
    }
}

/// Once the run under a key has ended, any later update that carries an eligible order
/// with that key dispatches a new run under it.
pub proof fn lemma_ended_key_dispatches_again(
    s: Set<Seq<char>>,
    paused: bool,
    perp: Map<u16, JitIxParams>,
    spot: Map<u16, JitIxParams>,
    taker: Seq<char>,
    orders: Seq<Order>,
    min_order_sizes: Seq<u64>,
    slot: u64,
    i: int,
)
    requires
        0 <= i < orders.len(),
        orders.len() == min_order_sizes.len(),
        eligible(paused, perp, spot, orders[i], min_order_sizes[i], slot),
    ensures
        ({
            let k = auction_key(taker, decimal(orders[i].order_id as nat));
            let t = dispatch(end_spec(s, k), paused, perp, spot, taker, orders, min_order_sizes, slot, orders.len() as int).1;
            exists|j: int| 0 <= j < t.len() && t[j].0 == k
        }),
{
    let k = auction_key(taker, decimal(orders[i].order_id as nat));
    let s0 = end_spec(s, k);
    let n = orders.len() as int;
    let (si, ti) = dispatch(s0, paused, perp, spot, taker, orders, min_order_sizes, slot, i);
    let t1 = dispatch(s0, paused, perp, spot, taker, orders, min_order_sizes, slot, i + 1).1;
    let tn = dispatch(s0, paused, perp, spot, taker, orders, min_order_sizes, slot, n).1;
    lemma_dispatch_keys(s0, paused, perp, spot, taker, orders, min_order_sizes, slot, i, k);
    lemma_dispatch_prefix(s0, paused, perp, spot, taker, orders, min_order_sizes, slot, i, i + 1);
    lemma_dispatch_prefix(s0, paused, perp, spot, taker, orders, min_order_sizes, slot, i + 1, n);
    let j = if si.contains(k) {
        choose|j: int| 0 <= j < ti.len() && ti[j].0 == k
    } else {
        ti.len() as int
    };
    assert(t1[j].0 == k);
    assert(tn[j].0 == k);
}

/// One update: the pause flag, the envelopes, the taker, its orders with their markets'
/// minimum order sizes, and the slot.
pub type UpdateView = (bool, Map<u16, JitIxParams>, Map<u16, JitIxParams>, Seq<char>, Seq<Order>, Seq<u64>, u64);

/// The registry after the first `m` updates of `us`, and the keys of every run they
/// dispatched, in order, where no run ends in between.
pub open spec fn dispatch_all(s0: Set<Seq<char>>, us: Seq<UpdateView>, m: int) -> (Set<Seq<char>>, Seq<Seq<char>>)
    decreases m,
{
    if m <= 0 {
        (s0, seq![])
    } else {
        let (s, ks) = dispatch_all(s0, us, m - 1);
        let u = us[m - 1];
        let (s2, t) = dispatch(s, u.0, u.1, u.2, u.3, u.4, u.5, u.6, u.4.len() as int);
        (s2, ks + task_keys(t))
    }
}

/// However many updates arrive, duplicates and concurrent deliveries included, while no
/// run ends, no key gets two runs, and no key already in flight gets one.
pub proof fn lemma_at_most_one_run_per_key(s0: Set<Seq<char>>, us: Seq<UpdateView>, m: int)
    requires
        0 <= m <= us.len(),
    ensures
        ({
            let (s, ks) = dispatch_all(s0, us, m);
            &&& s0.subset_of(s)
            &&& forall|j: int| 0 <= j < ks.len() ==> !s0.contains(#[trigger] ks[j]) && s.contains(ks[j])
            &&& forall|j: int, l: int| 0 <= j < l < ks.len() ==> #[trigger] ks[j] != #[trigger] ks[l]
        }),
    decreases m,
{
    if m > 0 {
        lemma_at_most_one_run_per_key(s0, us, m - 1);
        let (s, ks) = dispatch_all(s0, us, m - 1);
        let u = us[m - 1];
        let n = u.4.len() as int;
        lemma_dispatch_fresh(s, u.0, u.1, u.2, u.3, u.4, u.5, u.6, n);
        let (s2, t) = dispatch(s, u.0, u.1, u.2, u.3, u.4, u.5, u.6, n);
        let ks2 = ks + task_keys(t);
        assert forall|j: int| 0 <= j < ks2.len() implies !s0.contains(#[trigger] ks2[j]) && s2.contains(ks2[j]) by {
            if j >= ks.len() {
                assert(ks2[j] == t[j - ks.len()].0);
            }
        }
        assert forall|j: int, l: int| 0 <= j < l < ks2.len() implies #[trigger] ks2[j] != #[trigger] ks2[l] by {
            if l >= ks.len() {
                assert(ks2[l] == t[l - ks.len()].0);
                if j >= ks.len() {
                    assert(ks2[j] == t[j - ks.len()].0);
                }
            }
        }
    }
}

} // verus!
