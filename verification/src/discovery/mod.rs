//! Finding peers on the local network: what the beacons say.

pub mod default_values;
