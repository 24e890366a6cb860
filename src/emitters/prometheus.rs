//! The Prometheus push emitter: its configuration, and the sink built from it.

use vstd::prelude::*;
use crate::emitters::gate::RateGate;
use crate::emitters::http::{default_repeat, DEFAULT_REPEAT_MS};

verus! {

/// Why a push to the gateway failed.
#[derive(Copy, Clone, Debug, PartialEq, Eq, Structural)]
pub enum PrometheusError {
    /// The push could not be sent or was refused.
    Transport,
}

/// A sink that pushes a temperature gauge and a gravity gauge, labelled by
/// color, to a push gateway.
#[derive(Debug)]
pub struct Prometheus {
    pub address: String,
    pub temp_gauge_name: String,
    pub gravity_gauge_name: String,
    pub gate: RateGate,
}

/// The configuration of a Prometheus emitter.
#[derive(Debug)]
pub struct PrometheusOptions {
    pub address: String,
    pub temp_gauge_name: String,
    pub gravity_gauge_name: String,
}

impl PrometheusOptions {
    /// The sink this configuration describes, which has never pushed; it
    /// pushes at most once per default interval.
    pub fn get_emitter(&self) -> (r: Prometheus)
        ensures
            r.address == self.address,
            r.temp_gauge_name == self.temp_gauge_name,
            r.gravity_gauge_name == self.gravity_gauge_name,
            r.gate == (RateGate { last_emit: 0, min_interval: DEFAULT_REPEAT_MS }),
    {
        Prometheus {
            address: self.address.clone(),
            temp_gauge_name: self.temp_gauge_name.clone(),
            gravity_gauge_name: self.gravity_gauge_name.clone(),
            gate: RateGate::new(default_repeat()),
        }
    }
}

} // verus!
