//! The answer of the metrics endpoint: the registry's text when it could be encoded,
//! and an error otherwise.
use vstd::prelude::*;

verus! {

/// What the metrics endpoint answers.
pub enum MetricsReply {
    /// 200 with the encoded registry.
    Encoded(Vec<u8>),
    /// 500 with this text.
    Failed(String),
}

impl MetricsReply {
    /// The HTTP status code of the reply.
    pub fn status_code(&self) -> (code: u16)
        ensures
            code == match self {
                MetricsReply::Encoded(_) => 200u16,
                MetricsReply::Failed(_) => 500u16,
            },
    {
        match self {
            MetricsReply::Encoded(_) => 200,
            MetricsReply::Failed(_) => 500,
        }
    }
}

/// The reply to the outcome of encoding the registry: its bytes, or
/// "Failed to encode metrics".
pub fn metrics_reply<E>(encoded: Result<Vec<u8>, E>) -> (reply: MetricsReply)
    ensures
        match encoded {
            Ok(b) => reply == MetricsReply::Encoded(b),
            Err(_) => reply matches MetricsReply::Failed(t) && t@ == "Failed to encode metrics"@,
        },
{
    match encoded {
        Ok(b) => MetricsReply::Encoded(b),
        Err(_) => MetricsReply::Failed(String::from_str("Failed to encode metrics")),
    }
}

} // verus!
