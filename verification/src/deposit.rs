//! The deposit that keeps a slot on the host, by the host's own schedule.

use solana_program::rent::Rent;
use vstd::prelude::*;

verus! {

/// The longest slot that the host allocates: ten mebibytes.
pub const MAX_SLOT_LEN: usize = 10_485_760;

/// The bytes that the host counts for a slot on top of its data.
pub const SLOT_OVERHEAD: u64 = 128;

/// The highest rate that the host accepts under a single threshold.
pub const MAX_RATE_SINGLE: u64 = 1_759_197_129_867;

/// The highest rate that the host accepts under a double threshold.
pub const MAX_RATE_DOUBLE: u64 = 879_598_564_933;

/// The host's schedule of deposits, as it is read from the host: the rate per
/// byte, the threshold by which the rate is multiplied, as the eight bytes of
/// a floating-point number, and a share that the host no longer uses.
#[derive(Clone, Copy, Debug, PartialEq, Eq)]
pub struct DepositSchedule {
    pub lamports_per_byte: u64,
    pub exemption_threshold: [u8; 8],
    pub burn_percent: u8,
}

/// The threshold that multiplies the rate by one.
pub open spec fn single_threshold() -> Seq<u8> {
    seq![0u8, 0, 0, 0, 0, 0, 240, 63]
}

/// The threshold that multiplies the rate by two.
pub open spec fn double_threshold() -> Seq<u8> {
    seq![0u8, 0, 0, 0, 0, 0, 0, 64]
}

/// The least deposit for a slot of `byte_length` bytes: the rate times the
/// length with the overhead, once or twice by the threshold. There is none
/// where the slot is too long for the host, the rate is too high for the
/// threshold, or the threshold is neither one nor two.
pub open spec fn deposit_for(schedule: DepositSchedule, byte_length: usize) -> Option<u64> {
    if byte_length > MAX_SLOT_LEN {
        None
    } else if schedule.exemption_threshold@ == single_threshold() {
        if schedule.lamports_per_byte > MAX_RATE_SINGLE {
            None
        } else {
            Some(((SLOT_OVERHEAD + byte_length) * schedule.lamports_per_byte) as u64)
        }
    } else if schedule.exemption_threshold@ == double_threshold() {
        if schedule.lamports_per_byte > MAX_RATE_DOUBLE {
            None
        } else {
            Some((2 * (SLOT_OVERHEAD + byte_length) * schedule.lamports_per_byte) as u64)
        }
    } else {
        None
    }
}

/// The deposit is the exact product: it never exceeds what sixty-four bits
/// hold.
pub proof fn deposit_is_exact(schedule: DepositSchedule, byte_length: usize)
    requires
        deposit_for(schedule, byte_length) is Some,
    ensures
        deposit_for(schedule, byte_length)->0 == if schedule.exemption_threshold@
            == single_threshold() {
            (SLOT_OVERHEAD + byte_length) * schedule.lamports_per_byte
        } else {
            2 * ((SLOT_OVERHEAD + byte_length) * schedule.lamports_per_byte)
        },
{
    let length: int = SLOT_OVERHEAD + byte_length;
    let rate: int = schedule.lamports_per_byte as int;
    if schedule.exemption_threshold@ == single_threshold() {
        assert(length * rate <= 10_485_888 * 1_759_197_129_867) by (nonlinear_arith)
            requires
                0 <= length <= 10_485_888,
                0 <= rate <= 1_759_197_129_867,
        ;
    } else {
        assert(length * rate <= 10_485_888 * 879_598_564_933) by (nonlinear_arith)
            requires
                0 <= length <= 10_485_888,
                0 <= rate <= 879_598_564_933,
        ;
        assert(2 * length * rate == 2 * (length * rate)) by (nonlinear_arith);
    }
}

/// The deposit of [`deposit_for`]; zero where there is none.
pub open spec fn deposit_or_zero(schedule: DepositSchedule, byte_length: usize) -> u64 {
    match deposit_for(schedule, byte_length) {
        Some(deposit) => deposit,
        None => 0,
    }
}

/// Calls `Rent::try_minimum_balance` of `solana_program`, on a `Rent` with the
/// three fields of the schedule.
///
/// That function returns `None` for more than ten mebibytes and for a rate
/// above the maximum that goes with the threshold; else the rate times the
/// length plus 128, doubled under the double threshold. Under any other
/// threshold it computes in floating point, or stops; the contract leaves
/// those thresholds out.
#[verifier::external_body]
#[allow(deprecated)]
fn try_minimum_balance(schedule: &DepositSchedule, byte_length: usize) -> (deposit: Option<u64>)
    requires
        schedule.exemption_threshold@ == single_threshold() || schedule.exemption_threshold@
            == double_threshold(),
    ensures
        deposit == deposit_for(*schedule, byte_length),
{
    Rent {
        lamports_per_byte: schedule.lamports_per_byte,
        exemption_threshold: schedule.exemption_threshold,
        burn_percent: schedule.burn_percent,
    }.try_minimum_balance(byte_length)
}

/// Whether the threshold is one of the two under which the host computes in
/// whole numbers.
fn has_whole_threshold(schedule: &DepositSchedule) -> (whole: bool)
    ensures
        whole == (schedule.exemption_threshold@ == single_threshold()
            || schedule.exemption_threshold@ == double_threshold()),
{
    let t = &schedule.exemption_threshold;
    let low = t[0] == 0 && t[1] == 0 && t[2] == 0 && t[3] == 0 && t[4] == 0 && t[5] == 0;
    let single = low && t[6] == 240 && t[7] == 63;
    let double = low && t[6] == 0 && t[7] == 64;
    proof {
        if single {
            assert(schedule.exemption_threshold@ =~= single_threshold());
        }
        if double {
            assert(schedule.exemption_threshold@ =~= double_threshold());
        }
        if schedule.exemption_threshold@ == single_threshold() {
            assert(single_threshold()[6] == 240 && single_threshold()[7] == 63);
        }
        if schedule.exemption_threshold@ == double_threshold() {
            assert(double_threshold()[6] == 0 && double_threshold()[7] == 64);
        }
    }
    single || double
}

/// Asks the host's schedule for the least deposit that keeps a slot of
/// `byte_length` bytes.
pub fn minimum_deposit(schedule: &DepositSchedule, byte_length: usize) -> (deposit: Option<u64>)
    ensures
        deposit == deposit_for(*schedule, byte_length),
{
    if has_whole_threshold(schedule) {
        try_minimum_balance(schedule, byte_length)
    } else {
        None
    }
}

} // verus!
