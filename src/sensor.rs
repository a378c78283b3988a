//! Turning raw sensor readings into whole percentages in `[0, 100]`.
use vstd::prelude::*;

verus! {

/// Largest per-core CPU reading, in hundredths of a percent (100%).
pub const MAX_CORE_CENTI: u32 = 10000;

/// Why a sensor gave no sample.
#[derive(Clone, Copy, Debug, PartialEq, Eq)]
pub enum SensorError {
    /// No hardware to query (no cores, no memory, no GPU with a usable
    /// utilisation domain). A neutral reading of 0 stands in for it.
    SensorUnavailable,
    /// The probe returned an error or a reading out of range. The metric is
    /// not updated this tick.
    SensorReadFailure,
}

/// `a / b` rounded to the nearest integer, halves away from zero (for `a >= 0`).
pub open spec fn round_div(a: int, b: int) -> int {
    (2 * a + b) / (2 * b)
}

/// Sum of a sequence of readings.
pub open spec fn sum_of(s: Seq<u32>) -> int
    decreases s.len(),
{
    if s.len() == 0 {
        0
    } else {
        sum_of(s.drop_last()) + s.last()
    }
}

/// The readings of those devices that reported one, in device order.
pub open spec fn reported(s: Seq<Option<u32>>) -> Seq<u32>
    decreases s.len(),
{
    if s.len() == 0 {
        Seq::empty()
    } else {
        match s.last() {
            Some(v) => reported(s.drop_last()).push(v),
            None => reported(s.drop_last()),
        }
    }
}

/// Rounded CPU percentage from per-core readings in hundredths of a percent.
pub open spec fn cpu_spec(per_core: Seq<u32>) -> Result<u32, SensorError> {
    if per_core.len() == 0 {
        Err(SensorError::SensorUnavailable)
    } else if exists|i: int| 0 <= i < per_core.len() && per_core[i] > MAX_CORE_CENTI {
        Err(SensorError::SensorReadFailure)
    } else {
        Ok(round_div(sum_of(per_core), (100 * per_core.len()) as int) as u32)
    }
}

/// Rounded memory percentage `used / total * 100`.
pub open spec fn memory_spec(used: u64, total: u64) -> Result<u32, SensorError> {
    if total == 0 {
        Err(SensorError::SensorUnavailable)
    } else if used > total {
        Err(SensorError::SensorReadFailure)
    } else {
        Ok(round_div(100 * used, total as int) as u32)
    }
}

/// Rounded mean GPU utilisation over the devices that report one.
pub open spec fn gpu_spec(devices: Seq<Option<u32>>) -> Result<u32, SensorError> {
    let r = reported(devices);
    if r.len() == 0 {
        Err(SensorError::SensorUnavailable)
    } else if exists|i: int| 0 <= i < r.len() && r[i] > 100 {
        Err(SensorError::SensorReadFailure)
    } else {
        Ok(round_div(sum_of(r), r.len() as int) as u32)
    }
}

/// Every successful reading is a percentage.
pub open spec fn is_percentage(r: Result<u32, SensorError>) -> bool {
    r matches Ok(v) ==> v <= 100
}

proof fn lemma_round_div_bounded(a: int, b: int, m: int)
    requires
        b > 0,
        0 <= a <= m * b,
        m >= 0,
    ensures
        0 <= round_div(a, b) <= m,
{
    assert(2 * a + b <= (2 * b) * m + b) by (nonlinear_arith)
        requires
            a <= m * b,
    ;
    vstd::arithmetic::div_mod::lemma_div_is_ordered(2 * a + b, (2 * b) * m + b, 2 * b);
    vstd::arithmetic::div_mod::lemma_div_multiples_vanish_fancy(m, b, 2 * b);
    vstd::arithmetic::div_mod::lemma_div_pos_is_pos(2 * a + b, 2 * b);
}

/// CPU usage: the mean of the per-core readings (hundredths of a percent each),
/// rounded to a whole percentage. No cores is `SensorUnavailable`; a reading
/// above 100% is `SensorReadFailure`.
pub fn cpu_percent(per_core: &Vec<u32>) -> (r: Result<u32, SensorError>)
    ensures
        r == cpu_spec(per_core@),
        is_percentage(r),
{
    let n = per_core.len();
    if n == 0 {
        return Err(SensorError::SensorUnavailable);
    }
    let mut sum: u128 = 0;
    let mut i: usize = 0;
    while i < n
        invariant
            n == per_core@.len(),
            i <= n,
            sum == sum_of(per_core@.take(i as int)),
            forall|j: int| 0 <= j < i ==> per_core@[j] <= MAX_CORE_CENTI,
            sum <= MAX_CORE_CENTI * i,
        decreases n - i,
    {
        let v = per_core[i];
        if v > MAX_CORE_CENTI {
            assert(exists|j: int| 0 <= j < per_core@.len() && per_core@[j] > MAX_CORE_CENTI);
            return Err(SensorError::SensorReadFailure);
        }
        assert(per_core@.take(i + 1).drop_last() =~= per_core@.take(i as int));
        sum = sum + v as u128;
        i += 1;
    }
    assert(per_core@.take(n as int) =~= per_core@);
    let d: u128 = 100 * (n as u128);
    proof {
        lemma_round_div_bounded(sum as int, d as int, 100);
    }
    let q = (2 * sum + d) / (2 * d);
    Ok(q as u32)
}

/// Memory usage: `used / total * 100` rounded to a whole percentage. No memory
/// reported (`total == 0`) is `SensorUnavailable`; `used > total` is
/// `SensorReadFailure`.
pub fn memory_percent(used: u64, total: u64) -> (r: Result<u32, SensorError>)
    ensures
        r == memory_spec(used, total),
        is_percentage(r),
{
    if total == 0 {
        return Err(SensorError::SensorUnavailable);
    }
    if used > total {
        return Err(SensorError::SensorReadFailure);
    }
    let a: u128 = 100 * (used as u128);
    let b: u128 = total as u128;
    proof {
        lemma_round_div_bounded(a as int, b as int, 100);
    }
    let q = (2 * a + b) / (2 * b);
    Ok(q as u32)
}

/// GPU usage: the mean over devices of their graphics utilisation (a whole
/// percentage per device, `None` where a device reports no such domain),
/// rounded. No device with a reading is `SensorUnavailable`; a reading above
/// 100% is `SensorReadFailure`.
pub fn gpu_percent(devices: &Vec<Option<u32>>) -> (r: Result<u32, SensorError>)
    ensures
        r == gpu_spec(devices@),
        is_percentage(r),
{
    let n = devices.len();
    let mut sum: u128 = 0;
    let mut count: usize = 0;
    let mut over = false;
    let mut i: usize = 0;
    while i < n
        invariant
            n == devices@.len(),
            i <= n,
            count == reported(devices@.take(i as int)).len(),
            count <= i,
            !over ==> sum == sum_of(reported(devices@.take(i as int))),
            !over ==> forall|j: int|
                0 <= j < count ==> reported(devices@.take(i as int))[j] <= 100,
            !over ==> sum <= 100 * count,
            over ==> exists|j: int|
                0 <= j < count && reported(devices@.take(i as int))[j] > 100,
        decreases n - i,
    {
        let ghost before = reported(devices@.take(i as int));
        assert(devices@.take(i + 1).drop_last() =~= devices@.take(i as int));
        match devices[i] {
            Some(v) => {
                assert(reported(devices@.take(i + 1)) == before.push(v));
                if v > 100 {
                    over = true;
                } else if !over {
                    sum = sum + v as u128;
                }
                count += 1;
                proof {
                    let after = reported(devices@.take(i + 1));
                    if !over {
                        assert(after.drop_last() =~= before);
                    }
                    if over {
                        if v > 100 {
                            assert(after[count - 1] > 100);
                        } else {
                            let j = choose|j: int| 0 <= j < count - 1 && before[j] > 100;
                            assert(after[j] > 100);
                        }
                    }
                }
            },
            None => {
                assert(reported(devices@.take(i + 1)) == before);
            },
        }
        i += 1;
    }
    assert(devices@.take(n as int) =~= devices@);
    if count == 0 {
        return Err(SensorError::SensorUnavailable);
    }
    if over {
        return Err(SensorError::SensorReadFailure);
    }
    let d: u128 = count as u128;
    proof {
        lemma_round_div_bounded(sum as int, d as int, 100);
    }
    let q = (2 * sum + d) / (2 * d);
    Ok(q as u32)
}

} // verus!
