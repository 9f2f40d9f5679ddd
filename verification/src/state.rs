use vstd::prelude::*;

verus! {

/// Number of tranches in the vesting schedule.
pub const NUM_TRANCHES: u32 = 4;

/// Seconds in one day.
pub const SECONDS_PER_DAY: u64 = 24 * 3600;

/// The amount of tranche `i` in ngonka (9 decimals: 1 GNK = 1_000_000_000 ngonka).
pub open spec fn scheduled_amount(i: int) -> u128 {
    if i == 0 {
        500_000_000_000_000  // 500,000 GNK, at signing

    } else if i == 1 {
        150_000_000_000_000  // 150,000 GNK, +3 months

    } else if i == 2 {
        150_000_000_000_000  // 150,000 GNK, +6 months

    } else {
        170_000_000_000_000  // 170,000 GNK, +9 months

    }
}

/// The unlock offset of tranche `i`, in seconds after instantiation.
pub open spec fn scheduled_offset(i: int) -> u64 {
    if i == 0 {
        0
    } else if i == 1 {
        (90 * SECONDS_PER_DAY) as u64
    } else if i == 2 {
        (180 * SECONDS_PER_DAY) as u64
    } else {
        (270 * SECONDS_PER_DAY) as u64
    }
}

/// The amount of tranche `i` of the schedule.
pub fn tranche_gnk_amount(i: u32) -> (r: u128)
    requires
        i < NUM_TRANCHES,
    ensures
        r == scheduled_amount(i as int),
{
    if i == 0 {
        500_000_000_000_000
    } else if i == 1 {
        150_000_000_000_000
    } else if i == 2 {
        150_000_000_000_000
    } else {
        170_000_000_000_000
    }
}

/// The unlock offset of tranche `i` of the schedule.
pub fn tranche_unlock_offset(i: u32) -> (r: u64)
    requires
        i < NUM_TRANCHES,
    ensures
        r == scheduled_offset(i as int),
{
    if i == 0 {
        0
    } else if i == 1 {
        90 * SECONDS_PER_DAY
    } else if i == 2 {
        180 * SECONDS_PER_DAY
    } else {
        270 * SECONDS_PER_DAY
    }
}

/// Contract configuration.
#[derive(Debug)]
pub struct Config {
    /// Admin address (governance module: can pause/resume and withdraw)
    pub admin: String,
    /// Recipient address (receives GNK when tranches are released)
    pub recipient: String,
    /// Native token denomination
    pub native_denom: String,
    /// Whether the contract is paused
    pub is_paused: bool,
    /// Block time (unix seconds) when the contract was instantiated
    pub start_time: u64,
}

/// The configuration with its strings taken as character sequences.
pub struct ConfigView {
    pub admin: Seq<char>,
    pub recipient: Seq<char>,
    pub native_denom: Seq<char>,
    pub is_paused: bool,
    pub start_time: u64,
}

impl View for Config {
    type V = ConfigView;

    open spec fn view(&self) -> ConfigView {
        ConfigView {
            admin: self.admin@,
            recipient: self.recipient@,
            native_denom: self.native_denom@,
            is_paused: self.is_paused,
            start_time: self.start_time,
        }
    }
}

/// One tranche of the vesting schedule.
#[derive(Clone, Copy, Debug, PartialEq, Eq, Structural)]
pub struct Tranche {
    /// Tranche index (0-3)
    pub id: u32,
    /// GNK amount in ngonka to release (9 decimals)
    pub gnk_amount: u128,
    /// Unix timestamp after which this tranche can be released
    pub unlock_time: u64,
    /// Whether GNK has been sent to the recipient
    pub released: bool,
}

/// Whether `t` holds, at position `i`, what the schedule fixes for a contract started at `start`.
pub open spec fn tranche_matches_schedule(t: Tranche, i: int, start: u64) -> bool {
    &&& t.id == i
    &&& t.gnk_amount == scheduled_amount(i)
    &&& t.unlock_time == start + scheduled_offset(i)
}

/// The whole stored state of the contract: its configuration and its tranches by id.
#[derive(Debug)]
pub struct VestingState {
    pub config: Config,
    /// `tranches[i]` is the tranche stored under id `i`.
    pub tranches: Vec<Tranche>,
}

/// The stored state as a mathematical value.
pub struct StateView {
    pub config: ConfigView,
    pub tranches: Seq<Tranche>,
}

impl View for VestingState {
    type V = StateView;

    open spec fn view(&self) -> StateView {
        StateView { config: self.config@, tranches: self.tranches@ }
    }
}

impl StateView {
    /// The state that every instantiated contract keeps: exactly the scheduled tranches, by id.
    pub open spec fn well_formed(self) -> bool {
        &&& self.tranches.len() == NUM_TRANCHES
        &&& forall|i: int|
            0 <= i < NUM_TRANCHES ==> #[trigger] tranche_matches_schedule(
                self.tranches[i],
                i,
                self.config.start_time,
            )
    }

    /// The tranche stored under `id`, if any.
    pub open spec fn tranche(self, id: u32) -> Option<Tranche> {
        if id < self.tranches.len() {
            Some(self.tranches[id as int])
        } else {
            None
        }
    }
}

impl VestingState {
    /// Whether the state is well formed (see `StateView::well_formed`).
    pub fn check_well_formed(&self) -> (r: bool)
        ensures
            r == self@.well_formed(),
    {
        if self.tranches.len() != 4 {
            return false;
        }
        let mut i: usize = 0;
        while i < 4
            invariant
                self.tranches@.len() == 4,
                i <= 4,
                forall|j: int|
                    0 <= j < i ==> #[trigger] tranche_matches_schedule(
                        self.tranches@[j],
                        j,
                        self.config.start_time,
                    ),
            decreases 4 - i,
        {
            let t = self.tranches[i];
            let offset = tranche_unlock_offset(i as u32);
            if t.id != i as u32 || t.gnk_amount != tranche_gnk_amount(i as u32)
                || self.config.start_time > u64::MAX - offset || t.unlock_time
                != self.config.start_time + offset {
                assert(!tranche_matches_schedule(self@.tranches[i as int], i as int, self@.config.start_time));
                assert(!self@.well_formed());
                return false;
            }
            i = i + 1;
        }
        true
    }
}

} // verus!
