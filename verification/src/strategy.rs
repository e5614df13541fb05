//! The strategy controller's state: balance, equity history, open
//! positions, the trade log, and the current trading cadence.
//!
//! The state is owned exclusively by one controller; every public method is
//! a single logical operation, so a caller holding the controller across one
//! call sees the trade log and the position set change together or not at
//! all.
use vstd::prelude::*;

use crate::types::Config;
use crate::types::Position;
use crate::types::TradeRecord;
use crate::types::AMOUNT_MAX;
use crate::types::EQUITY_CAPACITY;
use crate::num::samples_ok;

verus! {

/// The high-frequency strategy controller.
pub struct HighFrequencyStrategy {
    pub config: Config,
    pub balance: u64,
    pub equity_history: Vec<u64>,
    pub trade_count: u32,
    pub trading_interval: u64,
    pub positions: Vec<Position>,
    pub trade_records: Vec<TradeRecord>,
}

/// At most one open position per symbol.
pub open spec fn positions_unique(ps: Seq<Position>) -> bool {
    forall|i: int, j: int|
        0 <= i < j < ps.len() ==> (#[trigger] ps[i].symbol@) != (#[trigger] ps[j].symbol@)
}

/// There is an open position for `symbol`.
pub open spec fn has_position(ps: Seq<Position>, symbol: Seq<char>) -> bool {
    exists|i: int| 0 <= i < ps.len() && (#[trigger] ps[i].symbol@) == symbol
}

/// Index of the open position for `symbol`.
pub open spec fn position_index(ps: Seq<Position>, symbol: Seq<char>) -> int {
    choose|i: int| 0 <= i < ps.len() && (#[trigger] ps[i].symbol@) == symbol
}

/// How many positions are open for `symbol`.
pub open spec fn position_count(ps: Seq<Position>, symbol: Seq<char>) -> int
    decreases ps.len(),
{
    if ps.len() == 0 {
        0
    } else {
        position_count(ps.drop_last(), symbol) + if ps.last().symbol@ == symbol {
            1int
        } else {
            0int
        }
    }
}

/// The equity ring after one sample: append, then evict the oldest while
/// over capacity.
pub open spec fn equity_pushed(h: Seq<u64>, v: u64) -> Seq<u64> {
    let p = h.push(v);
    if p.len() > EQUITY_CAPACITY {
        p.subrange(1, p.len() as int)
    } else {
        p
    }
}

impl HighFrequencyStrategy {
    /// Structural invariant: configuration in range, balance and every
    /// equity sample positive and bounded, the cadence between its
    /// configured bounds, one position per symbol, well-formed records,
    /// and a trade log exactly as long as the trade counter.
    pub open spec fn wf(&self) -> bool {
        &&& self.config.wf()
        &&& 1 <= self.balance <= AMOUNT_MAX
        &&& 1 <= self.equity_history@.len() <= EQUITY_CAPACITY
        &&& samples_ok(self.equity_history@)
        &&& self.config.min_trade_interval <= self.trading_interval
            <= self.config.max_trade_interval
        &&& forall|i: int|
            0 <= i < self.positions@.len() ==> (#[trigger] self.positions@[i]).wf()
        &&& positions_unique(self.positions@)
        &&& forall|i: int|
            0 <= i < self.trade_records@.len() ==> (#[trigger] self.trade_records@[i]).wf()
        &&& self.trade_records@.len() == self.trade_count as int
    }

    /// A fresh controller: the initial balance is the first equity sample,
    /// the cadence starts at its lower bound, and nothing is open or
    /// recorded yet.
    pub fn new(config: Config) -> (s: Self)
        requires
            config.wf(),
        ensures
            s.wf(),
            s.config == config,
            s.balance == config.initial_balance,
            s.equity_history@ == seq![config.initial_balance],
            s.trade_count == 0,
            s.trading_interval == config.min_trade_interval,
            s.positions@ == Seq::<Position>::empty(),
            s.trade_records@ == Seq::<TradeRecord>::empty(),
    {
        let initial_balance = config.initial_balance;
        let trading_interval = config.min_trade_interval;
        let mut equity_history: Vec<u64> = Vec::new();
        equity_history.push(initial_balance);
        proof {
            assert(equity_history@ =~= seq![config.initial_balance]);
        }
        HighFrequencyStrategy {
            config,
            balance: initial_balance,
            equity_history,
            trade_count: 0,
            trading_interval,
            positions: Vec::new(),
            trade_records: Vec::new(),
        }
    }

    /// Record a fresh account snapshot: set the balance and append it to
    /// the bounded equity ring, evicting the oldest sample at capacity.
    /// A failed snapshot is simply not recorded; the caller retries on the
    /// next cycle.
    pub fn refresh_account(&mut self, new_balance: u64)
        requires
            old(self).wf(),
            1 <= new_balance <= AMOUNT_MAX,
        ensures
            final(self).wf(),
            final(self).balance == new_balance,
            final(self).equity_history@ == equity_pushed(
                old(self).equity_history@,
                new_balance,
            ),
            final(self).config == old(self).config,
            final(self).trade_count == old(self).trade_count,
            final(self).trading_interval == old(self).trading_interval,
            final(self).positions == old(self).positions,
            final(self).trade_records == old(self).trade_records,
    {
        self.balance = new_balance;
        self.equity_history.push(new_balance);
        if self.equity_history.len() > EQUITY_CAPACITY {
            self.equity_history.remove(0);
            proof {
                let p = old(self).equity_history@.push(new_balance);
                assert(self.equity_history@ =~= p.subrange(1, p.len() as int));
            }
        }
    }
}

} // verus!
