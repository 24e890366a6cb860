//! The emitters that readings are sent to: their configuration entries and
//! the sinks built from them.

pub mod gate;
pub mod http;
pub mod log;
pub mod prometheus;

use vstd::prelude::*;
use crate::emitters::gate::RateGate;
use crate::emitters::http::{Http, HttpOptions, DEFAULT_REPEAT_MS};
use crate::emitters::log::{Log, LogOptions};
use crate::emitters::prometheus::{Prometheus, PrometheusOptions};

verus! {

/// One entry of the emitter configuration.
#[derive(Debug)]
pub enum Emitters {
    Http(HttpOptions),
    Log(LogOptions),
    Prometheus(PrometheusOptions),
}

/// A sink that readings are sent to.
#[derive(Debug)]
pub enum Emitter {
    Http(Http),
    Log(Log),
    Prometheus(Prometheus),
}

/// Whether sink `e` is the one that configuration entry `o` describes, as
/// it stands before its first send.
pub open spec fn builds(o: &Emitters, e: &Emitter) -> bool {
    match (o, e) {
        (Emitters::Http(c), Emitter::Http(h)) => {
            &&& h.method == c.method
            &&& h.uri == c.url
            &&& h.content_type == c.content_type
            &&& h.payload@ == c.payload@
            &&& h.format == c.format
            &&& h.gate == (RateGate { last_emit: 0, min_interval: c.min_interval })
        },
        (Emitters::Log(_), Emitter::Log(_)) => true,
        (Emitters::Prometheus(c), Emitter::Prometheus(p)) => {
            &&& p.address == c.address
            &&& p.temp_gauge_name == c.temp_gauge_name
            &&& p.gravity_gauge_name == c.gravity_gauge_name
            &&& p.gate == (RateGate { last_emit: 0, min_interval: DEFAULT_REPEAT_MS })
        },
        _ => false,
    }
}

/// Builds one sink per configuration entry, in the entries' order.
pub fn init(config: &Vec<Emitters>) -> (r: Vec<Emitter>)
    ensures
        r@.len() == config@.len(),
        forall|i: int| 0 <= i < config@.len() ==> builds(&config@[i], &#[trigger] r@[i]),
{
    let mut r: Vec<Emitter> = Vec::new();
    let mut i: usize = 0;
    while i < config.len()
        invariant
            i <= config@.len(),
            r@.len() == i,
            forall|j: int| 0 <= j < i ==> builds(&config@[j], &#[trigger] r@[j]),
        decreases config@.len() - i,
    {
        let e = match &config[i] {
            Emitters::Http(c) => Emitter::Http(c.get_emitter()),
            Emitters::Log(c) => Emitter::Log(c.get_emitter()),
            Emitters::Prometheus(c) => Emitter::Prometheus(c.get_emitter()),
        };
        r.push(e);
        i = i + 1;
    }
    r
}

} // verus!
