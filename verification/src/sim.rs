//! Single-trajectory engine.
//!
//! The engine advances the bookkeeping of one simulated path: each step it
//! takes the quote pair the caller computed, pushes it through the latency
//! buffer, records a step record with the pre-move state and the effective
//! quotes, and then applies the market move — the new mid-price, the two
//! fill events and the updated cash — that the caller evaluated. The
//! real-number formulas and the random draws live with the caller; the
//! engine's contracts pin, for every value the caller hands in, exactly
//! which values reach which record field, how the inventory moves, and that
//! the effective quotes obey the visibility law of the latency buffer.

use vstd::prelude::*;
use crate::model::{ConfigError, Num, Parameters};
use crate::latency::{effective_quote, LatencyBuffer, Quote};

verus! {

/// Largest step count the engine accepts: the inventory counter is a 32-bit
/// integer and moves by at most one unit per applied step.
pub const MAX_STEP_COUNT: usize = 0x7FFF_FFFF;

/// Per-trajectory configuration. Immutable for the lifetime of a trajectory.
#[derive(Clone, Copy, Debug)]
pub struct SimConfig {
    /// Length of one discrete time step.
    pub dt: Num,
    /// Number of steps to simulate.
    pub num_steps: usize,
    /// Initial mid-price.
    pub s_0: Num,
    /// Drift of the mid-price process.
    pub drift: Num,
    /// Steps between computing a quote and its market visibility.
    pub latency_steps: usize,
}

/// One recorded step: the state at the start of the step and the quotes
/// effective during it.
#[derive(Clone, Copy, Debug)]
pub struct StepRecord {
    pub time: Num,
    pub mid_price: Num,
    pub inventory: i32,
    pub cash: Num,
    pub wealth: Num,
    pub bid_price: Num,
    pub ask_price: Num,
}

/// A finished trajectory: its full step sequence and the terminal P&L.
pub struct SimResult {
    pub trajectory: Vec<StepRecord>,
    pub final_pnl: Num,
}

/// Fail-fast validation of a trajectory configuration: the spread formula
/// needs a strictly positive risk aversion and liquidity parameter, the
/// price process a strictly positive time step, and the engine at least one
/// step and an inventory-trackable step count. Checked before any
/// simulation work begins.
pub fn validate_simulation(params: &Parameters, config: &SimConfig) -> (r: Result<
    (),
    ConfigError,
>)
    ensures
        r is Ok <==> (params.gamma.is_positive_pattern() && params.k.is_positive_pattern()
            && config.dt.is_positive_pattern() && 1 <= config.num_steps <= MAX_STEP_COUNT),
        !params.gamma.is_positive_pattern() ==> r == Result::<(), ConfigError>::Err(
            ConfigError::NonPositiveRiskAversion,
        ),
        params.gamma.is_positive_pattern() && !params.k.is_positive_pattern() ==> r == Result::<
            (),
            ConfigError,
        >::Err(ConfigError::NonPositiveLiquidity),
        params.gamma.is_positive_pattern() && params.k.is_positive_pattern()
            && !config.dt.is_positive_pattern() ==> r == Result::<(), ConfigError>::Err(
            ConfigError::NonPositiveTimeStep,
        ),
        params.gamma.is_positive_pattern() && params.k.is_positive_pattern()
            && config.dt.is_positive_pattern() && config.num_steps == 0 ==> r == Result::<
            (),
            ConfigError,
        >::Err(ConfigError::NoSteps),
        params.gamma.is_positive_pattern() && params.k.is_positive_pattern()
            && config.dt.is_positive_pattern() && config.num_steps > MAX_STEP_COUNT ==> r
            == Result::<(), ConfigError>::Err(ConfigError::StepCountTooLarge),
{
    if !params.gamma.is_positive() {
        Err(ConfigError::NonPositiveRiskAversion)
    } else if !params.k.is_positive() {
        Err(ConfigError::NonPositiveLiquidity)
    } else if !config.dt.is_positive() {
        Err(ConfigError::NonPositiveTimeStep)
    } else if config.num_steps == 0 {
        Err(ConfigError::NoSteps)
    } else if config.num_steps > MAX_STEP_COUNT {
        Err(ConfigError::StepCountTooLarge)
    } else {
        Ok(())
    }
}

/// Net inventory contribution of one step's fill events: a bid fill buys
/// one unit, an ask fill sells one unit.
pub open spec fn fill_delta(bid_fill: bool, ask_fill: bool) -> int {
    (if bid_fill {
        1int
    } else {
        0int
    }) - (if ask_fill {
        1int
    } else {
        0int
    })
}

/// The inventory reached from zero by a sequence of per-step fill-event
/// pairs `(bid_fill, ask_fill)`.
pub open spec fn net_inventory(fills: Seq<(bool, bool)>) -> int
    decreases fills.len(),
{
    if fills.len() == 0 {
        0
    } else {
        net_inventory(fills.drop_last()) + fill_delta(fills.last().0, fills.last().1)
    }
}

/// The bookkeeping state of one trajectory in flight.
pub struct TrajectoryEngine {
    num_steps: usize,
    mid: Num,
    inventory: i32,
    cash: Num,
    buffer: LatencyBuffer,
    trajectory: Vec<StepRecord>,
    awaiting_market: bool,
    fills: Ghost<Seq<(bool, bool)>>,
}

impl TrajectoryEngine {
    /// Number of steps this trajectory will hold.
    pub closed spec fn num_steps_spec(self) -> usize {
        self.num_steps
    }

    /// The latency setting of the quote buffer.
    pub closed spec fn latency_spec(self) -> usize {
        self.buffer.latency_spec()
    }

    /// Current mid-price value.
    pub closed spec fn mid_spec(self) -> Num {
        self.mid
    }

    /// Current signed inventory, in units of one order.
    pub closed spec fn inventory_spec(self) -> i32 {
        self.inventory
    }

    /// Current cash value.
    pub closed spec fn cash_spec(self) -> Num {
        self.cash
    }

    /// The step records produced so far, in step order.
    pub closed spec fn trajectory_spec(self) -> Seq<StepRecord> {
        self.trajectory@
    }

    /// All quote pairs submitted so far, in step order.
    pub closed spec fn raw_quotes(self) -> Seq<Quote> {
        self.buffer.history()
    }

    /// Whether a submitted step still awaits its market move.
    pub closed spec fn awaiting_market_spec(self) -> bool {
        self.awaiting_market
    }

    /// The fill-event pairs of every applied step, in step order.
    pub closed spec fn fills(self) -> Seq<(bool, bool)> {
        self.fills@
    }

    /// Steps whose quote has been submitted.
    pub open spec fn steps_started(self) -> int {
        self.trajectory_spec().len() as int
    }

    /// Steps whose market move has been applied.
    pub open spec fn steps_applied(self) -> int {
        self.steps_started() - if self.awaiting_market_spec() {
            1int
        } else {
            0int
        }
    }

    /// Every recorded step's effective quotes follow the visibility law of
    /// the latency buffer, applied to the submission history up to that
    /// step.
    pub open spec fn records_follow_visibility(self) -> bool {
        forall|i: int|
            0 <= i < self.trajectory_spec().len() ==> {
                let e = effective_quote(
                    self.raw_quotes().take(i + 1),
                    self.latency_spec() as nat,
                );
                (#[trigger] self.trajectory_spec()[i]).ask_price == e.ask
                    && self.trajectory_spec()[i].bid_price == e.bid
            }
    }

    /// Every recorded step's inventory is the fold of the fill events of
    /// the steps before it.
    pub open spec fn records_follow_fills(self) -> bool {
        forall|i: int|
            0 <= i < self.trajectory_spec().len() ==> (#[trigger] self.trajectory_spec()[i]).inventory
                as int == net_inventory(self.fills().take(i))
    }

    /// Internal consistency of the engine state.
    pub closed spec fn wf(self) -> bool {
        &&& self.buffer.wf()
        &&& self.raw_quotes().len() == self.trajectory_spec().len()
        &&& self.trajectory_spec().len() <= self.num_steps
        &&& 1 <= self.num_steps <= MAX_STEP_COUNT
        &&& (self.awaiting_market ==> self.trajectory_spec().len() >= 1)
        &&& -self.steps_applied() <= self.inventory as int <= self.steps_applied()
        &&& self.records_follow_visibility()
        &&& self.fills@.len() == self.steps_applied()
        &&& self.inventory as int == net_inventory(self.fills@)
        &&& self.records_follow_fills()
    }

    /// A well-formed engine's records all follow the visibility law, and
    /// its inventory never outruns the number of applied steps.
    pub proof fn lemma_well_formed_consequences(&self)
        requires
            self.wf(),
        ensures
            self.records_follow_visibility(),
            self.records_follow_fills(),
            self.raw_quotes().len() == self.trajectory_spec().len(),
            self.fills().len() == self.steps_applied(),
            self.inventory_spec() as int == net_inventory(self.fills()),
            -self.steps_applied() <= self.inventory_spec() as int <= self.steps_applied(),
    {
    }

    /// Delay law of the recorded quotes. With no latency, step `i`'s record
    /// carries the quotes submitted at step `i`. With latency `l > 0`, it
    /// carries the quotes of step `i - l` once `i >= l`, and its own quotes
    /// during warm-up (`i < l`).
    pub proof fn lemma_record_delay(&self, i: int)
        requires
            self.wf(),
            0 <= i < self.trajectory_spec().len(),
        ensures
            self.latency_spec() == 0 || i < self.latency_spec() ==> self.trajectory_spec()[i].ask_price
                == self.raw_quotes()[i].ask && self.trajectory_spec()[i].bid_price
                == self.raw_quotes()[i].bid,
            0 < self.latency_spec() <= i ==> self.trajectory_spec()[i].ask_price
                == self.raw_quotes()[i - self.latency_spec()].ask
                && self.trajectory_spec()[i].bid_price == self.raw_quotes()[i
                - self.latency_spec()].bid,
    {
        let taken = self.raw_quotes().take(i + 1);
        assert(self.trajectory_spec()[i].ask_price == effective_quote(
            taken,
            self.latency_spec() as nat,
        ).ask);
        assert(taken.len() == i + 1);
        assert(forall|j: int| 0 <= j <= i ==> taken[j] == self.raw_quotes()[j]);
    }

    /// A fresh engine: no steps, zero inventory, cash at the zero pattern,
    /// the mid-price at the configured initial price.
    pub fn new(config: &SimConfig) -> (e: TrajectoryEngine)
        requires
            1 <= config.num_steps <= MAX_STEP_COUNT,
        ensures
            e.wf(),
            e.num_steps_spec() == config.num_steps,
            e.latency_spec() == config.latency_steps,
            e.mid_spec() == config.s_0,
            e.inventory_spec() == 0,
            e.cash_spec().is_zero_pattern(),
            e.trajectory_spec() == Seq::<StepRecord>::empty(),
            e.raw_quotes() == Seq::<Quote>::empty(),
            e.fills() == Seq::<(bool, bool)>::empty(),
            !e.awaiting_market_spec(),
    {
        TrajectoryEngine {
            num_steps: config.num_steps,
            mid: config.s_0,
            inventory: 0,
            cash: Num::zero(),
            buffer: LatencyBuffer::new(config.latency_steps),
            trajectory: Vec::new(),
            awaiting_market: false,
            fills: Ghost(Seq::empty()),
        }
    }

    /// Submit the quote pair computed for the current step, together with
    /// the step's time and the wealth value the caller computed for the
    /// pre-move state. Pushes the pair through the latency buffer, records
    /// the step with the state as it stands and the effective quotes, and
    /// returns the effective pair.
    pub fn submit_quote(&mut self, time: Num, wealth: Num, ask: Num, bid: Num) -> (eff: Quote)
        requires
            old(self).wf(),
            !old(self).awaiting_market_spec(),
            old(self).steps_started() < old(self).num_steps_spec(),
        ensures
            final(self).wf(),
            final(self).awaiting_market_spec(),
            final(self).raw_quotes() == old(self).raw_quotes().push(Quote { ask, bid }),
            eff == effective_quote(final(self).raw_quotes(), final(self).latency_spec() as nat),
            final(self).trajectory_spec() == old(self).trajectory_spec().push(
                (StepRecord {
                    time,
                    mid_price: old(self).mid_spec(),
                    inventory: old(self).inventory_spec(),
                    cash: old(self).cash_spec(),
                    wealth,
                    bid_price: eff.bid,
                    ask_price: eff.ask,
                }),
            ),
            final(self).inventory_spec() == old(self).inventory_spec(),
            final(self).cash_spec() == old(self).cash_spec(),
            final(self).mid_spec() == old(self).mid_spec(),
            final(self).num_steps_spec() == old(self).num_steps_spec(),
            final(self).latency_spec() == old(self).latency_spec(),
            final(self).fills() == old(self).fills(),
    {
        let eff = self.buffer.submit(Quote { ask, bid });
        let record = StepRecord {
            time,
            mid_price: self.mid,
            inventory: self.inventory,
            cash: self.cash,
            wealth,
            bid_price: eff.bid,
            ask_price: eff.ask,
        };
        self.trajectory.push(record);
        self.awaiting_market = true;
        proof {
            let hist0 = old(self).raw_quotes();
            let hist1 = self.raw_quotes();
            assert forall|i: int| 0 <= i < hist0.len() implies #[trigger] hist1.take(i + 1)
                == hist0.take(i + 1) by {
                assert(hist1.take(i + 1) =~= hist0.take(i + 1));
            };
            assert(hist1.take(hist1.len() as int) =~= hist1);
            assert(self.records_follow_visibility());
            assert(self.fills@.take(old(self).trajectory_spec().len() as int) =~= self.fills@);
            assert(self.records_follow_fills());
        }
        eff
    }

    /// Apply the market move of the step in flight: the evolved mid-price,
    /// the two independent fill events, and the cash value after the fills.
    /// The inventory moves by exactly the bid-fill unit minus the ask-fill
    /// unit.
    pub fn apply_market(&mut self, new_mid: Num, bid_fill: bool, ask_fill: bool, cash_after: Num)
        requires
            old(self).wf(),
            old(self).awaiting_market_spec(),
        ensures
            final(self).wf(),
            !final(self).awaiting_market_spec(),
            final(self).inventory_spec() as int == old(self).inventory_spec() as int + (if bid_fill {
                1int
            } else {
                0int
            }) - (if ask_fill {
                1int
            } else {
                0int
            }),
            final(self).cash_spec() == cash_after,
            final(self).mid_spec() == new_mid,
            final(self).trajectory_spec() == old(self).trajectory_spec(),
            final(self).raw_quotes() == old(self).raw_quotes(),
            final(self).num_steps_spec() == old(self).num_steps_spec(),
            final(self).latency_spec() == old(self).latency_spec(),
            final(self).steps_applied() == old(self).steps_applied() + 1,
            -final(self).steps_applied() <= final(self).inventory_spec() as int,
            final(self).inventory_spec() as int <= final(self).steps_applied(),
            final(self).fills() == old(self).fills().push((bid_fill, ask_fill)),
            final(self).inventory_spec() as int == net_inventory(final(self).fills()),
    {
        if bid_fill {
            self.inventory = self.inventory + 1;
        }
        if ask_fill {
            self.inventory = self.inventory - 1;
        }
        self.mid = new_mid;
        self.cash = cash_after;
        self.awaiting_market = false;
        proof {
            let fills0 = old(self).fills@;
            self.fills@ = fills0.push((bid_fill, ask_fill));
            assert(self.fills@.drop_last() =~= fills0);
            assert forall|i: int| 0 <= i < self.trajectory_spec().len() implies #[trigger] self.fills@.take(
                i,
            ) == fills0.take(i) by {
                assert(self.fills@.take(i) =~= fills0.take(i));
            };
            assert(self.records_follow_fills());
        }
    }

    /// Finish the trajectory once every configured step has been applied,
    /// attaching the terminal P&L value the caller computed.
    pub fn finish(self, final_pnl: Num) -> (r: SimResult)
        requires
            self.wf(),
            !self.awaiting_market_spec(),
            self.steps_started() == self.num_steps_spec(),
        ensures
            r.trajectory@ == self.trajectory_spec(),
            r.trajectory@.len() == self.num_steps_spec(),
            r.final_pnl == final_pnl,
            forall|i: int|
                0 <= i < r.trajectory@.len() ==> {
                    let e = effective_quote(
                        self.raw_quotes().take(i + 1),
                        self.latency_spec() as nat,
                    );
                    (#[trigger] r.trajectory@[i]).ask_price == e.ask && r.trajectory@[i].bid_price
                        == e.bid
                },
            forall|i: int|
                0 <= i < r.trajectory@.len() ==> (#[trigger] r.trajectory@[i]).inventory as int
                    == net_inventory(self.fills().take(i)),
    {
        SimResult { trajectory: self.trajectory, final_pnl }
    }

    /// Current mid-price value.
    pub fn current_mid(&self) -> (m: Num)
        ensures
            m == self.mid_spec(),
    {
        self.mid
    }

    /// Current signed inventory.
    pub fn current_inventory(&self) -> (q: i32)
        ensures
            q == self.inventory_spec(),
    {
        self.inventory
    }

    /// Current cash value.
    pub fn current_cash(&self) -> (c: Num)
        ensures
            c == self.cash_spec(),
    {
        self.cash
    }

    /// Number of steps recorded so far.
    pub fn steps_recorded(&self) -> (n: usize)
        ensures
            n as int == self.steps_started(),
    {
        self.trajectory.len()
    }
}

/// Warm-up independence across latency settings: two runs that submitted
/// the same quotes up to step `i` expose identical effective quotes at
/// every step `i` that lies inside both warm-up windows (or under a zero
/// setting) — namely the step's own submission. Raising the latency can
/// therefore never change the warm-up steps' effective quotes.
pub proof fn lemma_warmup_records_agree(e1: &TrajectoryEngine, e2: &TrajectoryEngine, i: int)
    requires
        e1.wf(),
        e2.wf(),
        0 <= i < e1.trajectory_spec().len(),
        i < e2.trajectory_spec().len(),
        e1.raw_quotes().take(i + 1) == e2.raw_quotes().take(i + 1),
        e1.latency_spec() == 0 || i < e1.latency_spec(),
        e2.latency_spec() == 0 || i < e2.latency_spec(),
    ensures
        e1.trajectory_spec()[i].ask_price == e2.trajectory_spec()[i].ask_price,
        e1.trajectory_spec()[i].bid_price == e2.trajectory_spec()[i].bid_price,
        e1.trajectory_spec()[i].ask_price == e1.raw_quotes()[i].ask,
        e1.trajectory_spec()[i].bid_price == e1.raw_quotes()[i].bid,
{
    e1.lemma_record_delay(i);
    e2.lemma_record_delay(i);
    assert(e1.raw_quotes().take(i + 1)[i] == e1.raw_quotes()[i]);
    assert(e2.raw_quotes().take(i + 1)[i] == e2.raw_quotes()[i]);
}

/// Inventory accounting law: a market step changes the inventory only
/// through its two fill events. The net change is the bid-fill unit minus
/// the ask-fill unit, so it lies within -2..=2 (indeed within -1..=1, since
/// simultaneous fills cancel); a net +1 happens exactly on a lone bid fill,
/// a net -1 exactly on a lone ask fill, and no net change exactly when both
/// or neither fill occurred.
pub proof fn lemma_inventory_change(q_before: int, q_after: int, bid_fill: bool, ask_fill: bool)
    requires
        q_after == q_before + (if bid_fill {
            1int
        } else {
            0int
        }) - (if ask_fill {
            1int
        } else {
            0int
        }),
    ensures
        -2 <= q_after - q_before <= 2,
        -1 <= q_after - q_before <= 1,
        q_after - q_before == 1 <==> (bid_fill && !ask_fill),
        q_after - q_before == -1 <==> (ask_fill && !bid_fill),
        q_after - q_before == 0 <==> (bid_fill == ask_fill),
{
}

} // verus!
