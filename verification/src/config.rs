//! Process configuration: bind address, database coordinates, the token
//! signing secret and lifetime, and the allowed cross-origin client.
//! Reading the environment happens outside this crate; the values arrive
//! here as plain data.
use vstd::prelude::*;

verus! {

pub struct AppConfig {
    pub host: String,
    pub port: u16,
    pub mongodb_uri: String,
    pub mongodb_db: String,
    pub jwt_secret: String,
    pub jwt_exp_minutes: i64,
    pub cors_origin: String,
}

impl AppConfig {
    /// Clamps a configured token lifetime into the range the token service
    /// accepts.
    pub fn clamp_lifetime(minutes: i64) -> (m: i64)
        ensures
            0 <= m <= 0x7fff_ffff,
            0 <= minutes <= 0x7fff_ffff ==> m == minutes,
    {
        if minutes < 0 {
            0
        } else if minutes > 0x7fff_ffff {
            0x7fff_ffff
        } else {
            minutes
        }
    }
}

} // verus!
