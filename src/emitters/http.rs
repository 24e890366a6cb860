//! The HTTP emitter: its configuration, and the sink built from it.

use vstd::prelude::*;
use crate::emitters::gate::RateGate;

verus! {

/// Why an HTTP send failed.
#[derive(Copy, Clone, Debug, PartialEq, Eq, Structural)]
pub enum HttpError {
    /// A payload template could not be rendered or encoded.
    Template,
    /// The request could not be sent or was refused.
    Transport,
}

/// How the rendered payload is sent.
#[derive(Copy, Clone, Debug, PartialEq, Eq, Structural)]
pub enum Formats {
    Json,
    Query,
    Form,
}

/// The configuration of an HTTP emitter. `payload` maps key templates to
/// value templates; `min_interval` is in milliseconds.
#[derive(Debug)]
pub struct HttpOptions {
    pub method: String,
    pub url: String,
    pub content_type: String,
    pub format: Formats,
    pub min_interval: u64,
    pub payload: Vec<(String, String)>,
}

/// An HTTP sink: where and how it sends, and its rate gate.
#[derive(Debug)]
pub struct Http {
    pub method: String,
    pub uri: String,
    pub content_type: String,
    pub payload: Vec<(String, String)>,
    pub gate: RateGate,
    pub format: Formats,
}

/// The content type sent when the configuration names none.
pub fn default_content_type() -> (r: String)
    ensures
        r@ == "application/json"@,
{
    "application/json".to_owned()
}

/// The format used when the configuration names none.
pub fn default_format() -> (r: Formats)
    ensures
        r == Formats::Json,
{
    Formats::Json
}

/// Five minutes, in milliseconds.
pub const DEFAULT_REPEAT_MS: u64 = 300_000;

/// The minimum interval between sends, in milliseconds, when the
/// configuration names none: five minutes.
pub fn default_repeat() -> (r: u64)
    ensures
        r == DEFAULT_REPEAT_MS,
{
    DEFAULT_REPEAT_MS
}

/// The request method used when the configuration names none.
pub fn default_method() -> (r: String)
    ensures
        r@ == "POST"@,
{
    "POST".to_owned()
}

/// A copy of a list of template pairs.
pub fn clone_pairs(p: &Vec<(String, String)>) -> (r: Vec<(String, String)>)
    ensures
        r@ == p@,
{
    let mut r: Vec<(String, String)> = Vec::new();
    let mut i: usize = 0;
    while i < p.len()
        invariant
            i <= p@.len(),
            r@ == p@.take(i as int),
        decreases p@.len() - i,
    {
        let k = p[i].0.clone();
        let v = p[i].1.clone();
        r.push((k, v));
        proof {
            assert(r@ =~= p@.take(i as int + 1));
        }
        i = i + 1;
    }
    proof {
        assert(p@.take(p@.len() as int) =~= p@);
    }
    r
}

impl HttpOptions {
    /// The sink this configuration describes, which has never sent.
    pub fn get_emitter(&self) -> (r: Http)
        ensures
            r.method == self.method,
            r.uri == self.url,
            r.content_type == self.content_type,
            r.payload@ == self.payload@,
            r.format == self.format,
            r.gate == (RateGate { last_emit: 0, min_interval: self.min_interval }),
    {
        Http {
            method: self.method.clone(),
            uri: self.url.clone(),
            content_type: self.content_type.clone(),
            format: self.format,
            payload: clone_pairs(&self.payload),
            gate: RateGate::new(self.min_interval),
        }
    }
}

} // verus!
