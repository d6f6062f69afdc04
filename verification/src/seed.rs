use vstd::prelude::*;
use rand::rngs::SmallRng;
use rand::{Rng, SeedableRng};
use std::time::{Duration, SystemTime, SystemTimeError};

verus! {

#[verifier::external_type_specification]
#[verifier::external_body]
pub struct ExSystemTime(SystemTime);

#[verifier::external_type_specification]
#[verifier::external_body]
pub struct ExSystemTimeError(SystemTimeError);

#[verifier::external_type_specification]
#[verifier::external_body]
pub struct ExSmallRng(SmallRng);

/// Reads the system clock with `SystemTime::now`. What it reads depends on
/// the machine and the moment, so nothing is stated of it.
#[verifier::external_body]
fn system_time_now() -> SystemTime {
    SystemTime::now()
}

/// `SystemTime::duration_since(UNIX_EPOCH)`: the time elapsed since the
/// Unix epoch, or an error for a time before it. Which of the two comes
/// back depends on the clock that gave `t`, so nothing is stated of it.
#[verifier::external_body]
fn duration_since_unix_epoch(t: SystemTime) -> Result<Duration, SystemTimeError> {
    t.duration_since(std::time::UNIX_EPOCH)
}

/// `Duration::as_millis`: the whole milliseconds of a duration. A
/// `Duration` is opaque here, so the number is not tied to it by a clause.
#[verifier::external_body]
fn duration_as_millis(d: &Duration) -> u128 {
    d.as_millis()
}

/// `SmallRng::seed_from_u64`: a small fast generator seeded with `seed`.
/// Its stream depends on the platform, so nothing is stated of it.
#[verifier::external_body]
fn small_rng_from_u64(seed: u64) -> SmallRng {
    SmallRng::seed_from_u64(seed)
}

/// `Rng::random_range(low..high)`: a number drawn from the half-open range,
/// which panics when the range is empty.
#[verifier::external_body]
fn random_i32_in(rng: &mut SmallRng, low: i32, high: i32) -> (r: i32)
    requires
        low < high,
    ensures
        low <= r < high,
{
    rng.random_range(low..high)
}

/// The system clock read before the Unix epoch.
#[derive(Clone, Copy, Debug, PartialEq, Eq, Structural)]
pub enum ClockError {
    BeforeUnixEpoch,
}

/// The time elapsed since the Unix epoch, read from the system clock.
pub fn get_current_time() -> Result<Duration, ClockError> {
    match duration_since_unix_epoch(system_time_now()) {
        Ok(d) => Ok(d),
        Err(_) => Err(ClockError::BeforeUnixEpoch),
    }
}

/// The seed that a request ends up with, given the number drawn for it:
/// the draw replaces the `-1` placeholder, and any other seed is kept.
pub fn seed_from_draw(seed: i32, drawn: i32) -> (r: i32)
    ensures
        seed == -1 ==> r == drawn,
        seed != -1 ==> r == seed,
{
    if seed == -1 {
        drawn
    } else {
        seed
    }
}

/// The seed that a request ends up with: `-1` asks for a random one,
/// drawn from `i32::MIN..i32::MAX` by a generator seeded with the current
/// time in milliseconds; any other seed is kept.
pub fn get_random_seed(seed: i32) -> (r: Result<i32, ClockError>)
    ensures
        seed != -1 ==> r == Ok::<i32, ClockError>(seed),
        r is Err ==> seed == -1,
        seed == -1 ==> (r matches Ok(v) ==> v < i32::MAX),
{
    if seed == -1 {
        let now = get_current_time()?;
        let millis = duration_as_millis(&now);
        let mut rng = small_rng_from_u64(#[verifier::truncate] (millis as u64));
        let drawn = random_i32_in(&mut rng, i32::MIN, i32::MAX);
        Ok(seed_from_draw(seed, drawn))
    } else {
        Ok(seed)
    }
}

/// Rust's `/` on integers, which rounds towards zero.
pub open spec fn div_toward_zero(a: int, b: int) -> int {
    if a >= 0 {
        a / b
    } else {
        -((-a) / b)
    }
}

/// The seed that a noise configuration ends up with: configurations
/// without a seed use `0`, the others go through `get_random_seed`.
pub fn resolve_noise_seed(seed: Option<i32>) -> (r: Result<i32, ClockError>)
    ensures
        seed is None ==> r == Ok::<i32, ClockError>(0),
        seed matches Some(s) ==> (s != -1 ==> r == Ok::<i32, ClockError>(s)),
        r is Err ==> seed == Some(-1i32),
        seed == Some(-1i32) ==> (r matches Ok(v) ==> v < i32::MAX),
{
    match seed {
        Some(s) => get_random_seed(s),
        None => Ok(0),
    }
}

/// The `i32` that two's-complement arithmetic gives for the integer `x`:
/// the one that differs from `x` by a multiple of 2^32.
pub open spec fn wrap_i32(x: int) -> int {
    if x % 0x1_0000_0000 > i32::MAX {
        x % 0x1_0000_0000 - 0x1_0000_0000
    } else {
        x % 0x1_0000_0000
    }
}

/// The seeds of the three stacked Perlin layers: the resolved seed and the
/// two after it, wrapping around past `i32::MAX`.
pub fn perlin_layer_seeds(resolved: i32) -> (seeds: [i32; 3])
    ensures
        seeds[0] == resolved,
        seeds[1] == wrap_i32(resolved + 1),
        seeds[2] == wrap_i32(resolved + 2),
{
    let first = resolved.wrapping_add(1);
    let second = resolved.wrapping_add(2);
    assert(first == wrap_i32(resolved + 1));
    assert(second == wrap_i32(resolved + 2));
    [resolved, first, second]
}

/// The seeds of the two OpenSimplex layers that displace the main one:
/// three times the resolved seed, wrapping around past the `i32` range,
/// and a third of it rounded towards zero.
pub fn open_simplex_offset_seeds(resolved: i32) -> (seeds: (i32, i32))
    ensures
        seeds.0 == wrap_i32(3 * resolved),
        seeds.1 == div_toward_zero(resolved as int, 3),
{
    let tripled = resolved.wrapping_mul(3);
    assert(tripled == wrap_i32(3 * resolved));
    (tripled, resolved / 3)
}

} // verus!
