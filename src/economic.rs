//! Economic model: block subsidy schedule, cumulative supply, dust and fee
//! rate policy.

use vstd::prelude::*;

use crate::ProtocolVersion;

verus! {

/// Economic model parameters for a protocol version.
#[derive(Debug, Clone, PartialEq, Eq)]
pub struct EconomicParameters {
    /// Initial block subsidy (in satoshis)
    pub initial_subsidy: u64,
    /// Block subsidy halving interval
    pub halving_interval: u64,
    /// Maximum money supply (in satoshis)
    pub max_money_supply: u64,
    /// Coinbase maturity (blocks before coinbase can be spent)
    pub coinbase_maturity: u64,
    /// Dust limit (minimum output value in satoshis)
    pub dust_limit: u64,
    /// Minimum transaction fee rate (satoshis per vbyte)
    pub min_fee_rate: u64,
    /// Maximum transaction fee rate (satoshis per vbyte)
    pub max_fee_rate: u64,
    /// Minimum relay fee (satoshis per vbyte)
    pub min_relay_fee: u64,
    /// Explicit subsidy schedule as (height, subsidy) pairs; when non-empty
    /// it takes precedence over the halving formula.
    pub subsidy_schedule: Vec<(u64, u64)>,
}

/// The plain values of an [`EconomicParameters`].
pub struct EconomicParametersView {
    pub initial_subsidy: u64,
    pub halving_interval: u64,
    pub max_money_supply: u64,
    pub coinbase_maturity: u64,
    pub dust_limit: u64,
    pub min_fee_rate: u64,
    pub max_fee_rate: u64,
    pub min_relay_fee: u64,
    pub subsidy_schedule: Seq<(u64, u64)>,
}

impl View for EconomicParameters {
    type V = EconomicParametersView;

    open spec fn view(&self) -> EconomicParametersView {
        EconomicParametersView {
            initial_subsidy: self.initial_subsidy,
            halving_interval: self.halving_interval,
            max_money_supply: self.max_money_supply,
            coinbase_maturity: self.coinbase_maturity,
            dust_limit: self.dust_limit,
            min_fee_rate: self.min_fee_rate,
            max_fee_rate: self.max_fee_rate,
            min_relay_fee: self.min_relay_fee,
            subsidy_schedule: self.subsidy_schedule@,
        }
    }
}

/// The economic parameters of each network variant.
pub open spec fn economic_table(version: ProtocolVersion) -> EconomicParametersView {
    EconomicParametersView {
        initial_subsidy: 50_0000_0000,
        halving_interval: match version {
            ProtocolVersion::Regtest => 150,
            _ => 210_000,
        },
        max_money_supply: 21_0000_0000_0000_0000,
        coinbase_maturity: 100,
        dust_limit: 546,
        min_fee_rate: match version {
            ProtocolVersion::Regtest => 0,
            _ => 1,
        },
        max_fee_rate: 1_000_000,
        min_relay_fee: match version {
            ProtocolVersion::Regtest => 0,
            _ => 1000,
        },
        subsidy_schedule: Seq::empty(),
    }
}

/// Subsidy given by an explicit schedule: the entry with the highest position
/// whose height does not exceed `height`, searched from the end; 0 if none.
pub open spec fn schedule_subsidy(schedule: Seq<(u64, u64)>, height: u64) -> u64
    decreases schedule.len(),
{
    if schedule.len() == 0 {
        0
    } else if height >= schedule.last().0 {
        schedule.last().1
    } else {
        schedule_subsidy(schedule.drop_last(), height)
    }
}

/// Subsidy given by the halving formula: the initial subsidy shifted right
/// once per completed halving interval, and 0 from the 64th halving on.
pub open spec fn halving_subsidy(initial: u64, interval: u64, height: u64) -> u64 {
    let halvings = height / interval;
    if halvings >= 64 {
        0
    } else {
        initial >> halvings
    }
}

/// Addition clamped at `u64::MAX`.
pub open spec fn saturating_sum(a: u64, b: u64) -> u64 {
    if a + b > u64::MAX {
        u64::MAX
    } else {
        (a + b) as u64
    }
}

impl EconomicParameters {
    /// Get economic parameters for a protocol version.
    pub fn for_protocol(version: ProtocolVersion) -> (r: Self)
        ensures
            r@ == economic_table(version),
    {
        match version {
            ProtocolVersion::BitcoinV1 => Self::mainnet(),
            ProtocolVersion::Testnet3 => Self::testnet(),
            ProtocolVersion::Regtest => Self::regtest(),
        }
    }

    /// Mainnet economic parameters (Bitcoin production network).
    pub fn mainnet() -> (r: Self)
        ensures
            r@ == economic_table(ProtocolVersion::BitcoinV1),
    {
        Self {
            initial_subsidy: 50_0000_0000,
            halving_interval: 210_000,
            max_money_supply: 21_0000_0000_0000_0000,
            coinbase_maturity: 100,
            dust_limit: 546,
            min_fee_rate: 1,
            max_fee_rate: 1_000_000,
            min_relay_fee: 1000,
            subsidy_schedule: Vec::new(),
        }
    }

    /// Testnet economic parameters (same as mainnet).
    pub fn testnet() -> (r: Self)
        ensures
            r@ == economic_table(ProtocolVersion::Testnet3),
    {
        Self {
            initial_subsidy: 50_0000_0000,
            halving_interval: 210_000,
            max_money_supply: 21_0000_0000_0000_0000,
            coinbase_maturity: 100,
            dust_limit: 546,
            min_fee_rate: 1,
            max_fee_rate: 1_000_000,
            min_relay_fee: 1000,
            subsidy_schedule: Vec::new(),
        }
    }

    /// Regtest economic parameters: fast halving and no minimum fees.
    pub fn regtest() -> (r: Self)
        ensures
            r@ == economic_table(ProtocolVersion::Regtest),
    {
        Self {
            initial_subsidy: 50_0000_0000,
            halving_interval: 150,
            max_money_supply: 21_0000_0000_0000_0000,
            coinbase_maturity: 100,
            dust_limit: 546,
            min_fee_rate: 0,
            max_fee_rate: 1_000_000,
            min_relay_fee: 0,
            subsidy_schedule: Vec::new(),
        }
    }

    /// The subsidy formula is defined: a schedule is given, or the halving
    /// interval is non-zero.
    pub open spec fn subsidy_defined(&self) -> bool {
        self.subsidy_schedule@.len() > 0 || self.halving_interval > 0
    }

    /// The subsidy of the block at `height`.
    pub open spec fn subsidy_at(&self, height: u64) -> u64 {
        if self.subsidy_schedule@.len() > 0 {
            schedule_subsidy(self.subsidy_schedule@, height)
        } else {
            halving_subsidy(self.initial_subsidy, self.halving_interval, height)
        }
    }

    /// Saturating sum of the subsidies of the first `count` blocks
    /// (heights `0 .. count`).
    pub open spec fn supply_of_first(&self, count: nat) -> u64
        decreases count,
    {
        if count == 0 {
            0
        } else {
            saturating_sum(
                self.supply_of_first((count - 1) as nat),
                self.subsidy_at((count - 1) as u64),
            )
        }
    }

    /// Cumulative supply up to and including the block at `height`.
    pub open spec fn supply_at(&self, height: u64) -> u64 {
        self.supply_of_first(height as nat + 1)
    }

    /// Calculate block subsidy for a given height.
    pub fn get_block_subsidy(&self, height: u64) -> (r: u64)
        requires
            self.subsidy_defined(),
        ensures
            r == self.subsidy_at(height),
    {
        let n = self.subsidy_schedule.len();
        assert(self.subsidy_schedule@ =~= self.subsidy_schedule@.subrange(0, n as int));
        if n > 0 {
            let mut i: usize = n;
            while i > 0
                invariant
                    i <= n,
                    n == self.subsidy_schedule@.len(),
                    schedule_subsidy(self.subsidy_schedule@, height) == schedule_subsidy(
                        self.subsidy_schedule@.subrange(0, i as int),
                        height,
                    ),
                decreases i,
            {
                let (entry_height, subsidy) = self.subsidy_schedule[i - 1];
                let ghost prefix = self.subsidy_schedule@.subrange(0, i as int);
                if height >= entry_height {
                    return subsidy;
                }
                assert(prefix.drop_last() =~= self.subsidy_schedule@.subrange(0, i - 1));
                i = i - 1;
            }
            return 0;
        }
        let halvings = height / self.halving_interval;
        if halvings >= 64 {
            return 0;
        }
        self.initial_subsidy >> halvings
    }

    /// Calculate total supply up to and including a given height, adding
    /// with saturation.
    pub fn total_supply_at_height(&self, height: u64) -> (r: u64)
        requires
            self.subsidy_defined(),
        ensures
            r == self.supply_at(height),
    {
        let mut total: u64 = 0;
        let mut h: u64 = 0;
        loop
            invariant_except_break
                h <= height,
                total == self.supply_of_first(h as nat),
            invariant
                self.subsidy_defined(),
            ensures
                total == self.supply_at(height),
            decreases height - h,
        {
            total = total.saturating_add(self.get_block_subsidy(h));
            if h == height {
                break;
            }
            h = h + 1;
        }
        total
    }

    /// Check if a value is below the dust limit.
    pub fn is_dust(&self, value: u64) -> (r: bool)
        ensures
            r == (value < self.dust_limit),
    {
        value < self.dust_limit
    }

    /// Check if a fee rate is within the allowed range.
    pub fn is_valid_fee_rate(&self, fee_rate: u64) -> (r: bool)
        ensures
            r == (self.min_fee_rate <= fee_rate && fee_rate <= self.max_fee_rate),
    {
        fee_rate >= self.min_fee_rate && fee_rate <= self.max_fee_rate
    }

    /// Fee for a transaction of `size_vbytes` at the given rate: 0 for a rate
    /// out of range, else the product, saturating at `u64::MAX`.
    pub fn calculate_fee(&self, size_vbytes: usize, fee_rate_sat_per_vbyte: u64) -> (r: u64)
        ensures
            r == if !(self.min_fee_rate <= fee_rate_sat_per_vbyte
                && fee_rate_sat_per_vbyte <= self.max_fee_rate) {
                0
            } else if size_vbytes * fee_rate_sat_per_vbyte > u64::MAX {
                u64::MAX
            } else {
                (size_vbytes * fee_rate_sat_per_vbyte) as u64
            },
    {
        if !self.is_valid_fee_rate(fee_rate_sat_per_vbyte) {
            return 0;
        }
        match (size_vbytes as u64).checked_mul(fee_rate_sat_per_vbyte) {
            Some(fee) => fee,
            None => u64::MAX,
        }
    }

    /// Check if the cumulative supply at `height` exceeds the maximum.
    pub fn exceeds_max_supply(&self, height: u64) -> (r: bool)
        requires
            self.subsidy_defined(),
        ensures
            r == (self.supply_at(height) > self.max_money_supply),
    {
        self.total_supply_at_height(height) > self.max_money_supply
    }
}

/// Under the halving formula the subsidy never grows from one block to the
/// next, and it is zero from the 64th halving on.
pub proof fn lemma_subsidy_non_increasing(params: EconomicParameters, height: u64)
    requires
        params.subsidy_schedule@.len() == 0,
        params.halving_interval > 0,
        height < u64::MAX,
    ensures
        params.subsidy_at(height) >= params.subsidy_at((height + 1) as u64),
        height / params.halving_interval >= 64 ==> params.subsidy_at(height) == 0,
{
    let interval = params.halving_interval;
    let next = (height + 1) as u64;
    let a = height / interval;
    let b = next / interval;
    assert(a <= b) by {
        vstd::arithmetic::div_mod::lemma_div_is_ordered(height as int, next as int, interval as int);
    }
    let x = params.initial_subsidy;
    if b < 64 {
        assert(x >> a >= x >> b) by (bit_vector)
            requires
                a <= b,
                b < 64,
        ;
    }
}

/// Cumulative supply never decreases with height, and being a `u64` it
/// never exceeds `u64::MAX`: the sums saturate.
pub proof fn lemma_supply_monotonic(params: EconomicParameters, lower: u64, upper: u64)
    requires
        lower <= upper,
    ensures
        params.supply_at(lower) <= params.supply_at(upper),
        params.supply_at(upper) <= u64::MAX,
    decreases upper - lower,
{
    if lower < upper {
        lemma_supply_monotonic(params, lower, (upper - 1) as u64);
    }
}

} // verus!
