//! Start-up of a sensor: its command line and its identity.
use vstd::prelude::*;
use crate::text::{decimal_u32, parse_u32};

verus! {

/// Error for a command line without exactly one argument.
pub const USAGE_ERROR: &'static str = "Usage: sensor <frequency_ms>";

/// Error for a frequency that is not a decimal `u32`.
pub const FREQUENCY_ERROR: &'static str = "<frequency_ms> must be a positive integer (milliseconds).";

/// `id` has the version (4, random) and variant (RFC 4122) bits of a random
/// UUID in its 128-bit big-endian value.
pub open spec fn is_random_uuid(id: u128) -> bool {
    &&& (id >> 76u128) & 0xfu128 == 4u128
    &&& (id >> 62u128) & 0x3u128 == 2u128
}

/// `uuid::Uuid::new_v4` followed by `Uuid::as_u128`: a fresh random UUID as
/// its 128-bit value. The source masks the random bits so that the version
/// nibble is 4 and the variant bits are `10`; nothing else is known of the
/// value. It panics when the operating system's random source fails, which
/// no argument can rule out.
#[verifier::external_body]
fn new_sensor_id() -> (id: u128)
    ensures
        is_random_uuid(id),
{
    uuid::Uuid::new_v4().as_u128()
}

/// Settings of a running sensor: how often it reports, and who it is.
pub struct Config {
    /// Pause between two readings, in milliseconds.
    pub frequency_ms: u32,
    /// The sensor's identity, a random UUID as a 128-bit big-endian value.
    pub sensor_id: u128,
}

impl Config {
    /// Reads the command line `args` (program name first). Exactly one
    /// argument is accepted, the frequency in milliseconds as a decimal
    /// `u32`; the sensor then gets a fresh random identity.
    pub fn build(args: &[String]) -> (r: Result<Config, &'static str>)
        ensures
            args@.len() != 2 ==> r == Err::<Config, &'static str>(USAGE_ERROR),
            args@.len() == 2 && decimal_u32(args@[1]@) is None
                ==> r == Err::<Config, &'static str>(FREQUENCY_ERROR),
            args@.len() == 2 && decimal_u32(args@[1]@) is Some ==> (r matches Ok(c) && c.frequency_ms
                == decimal_u32(args@[1]@)->0 && is_random_uuid(c.sensor_id)),
    {
        if args.len() != 2 {
            return Err(USAGE_ERROR);
        }
        match parse_u32(args[1].as_str()) {
            None => Err(FREQUENCY_ERROR),
            Some(frequency_ms) => {
                let sensor_id = new_sensor_id();
                Ok(Config { frequency_ms, sensor_id })
            },
        }
    }
}

} // verus!
