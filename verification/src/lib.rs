//! A verified model of the runtime fixtures of the treasury reward pallet: the
//! currency-to-vote conversions, the session handler's record of validators,
//! the fixed tipper set, and the genesis configuration that the externalities
//! builder hands to storage.

pub mod currency;
pub mod genesis;
pub mod percent;
pub mod session;
pub mod tippers;

