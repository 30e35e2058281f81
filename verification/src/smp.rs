//! Waking another core with an inter-processor interrupt.
//!
//! This module decides what to send; performing the send is a hardware
//! operation that the embedding kernel's interrupt plumbing carries out
//! with the request returned here.

use vstd::prelude::*;

use crate::error::SystemError;

verus! {

/// The purposes an inter-processor interrupt can serve.
#[derive(Debug, Clone, Copy, PartialEq, Eq, Structural)]
pub enum IpiKind {
    /// Kick a core out of its idle loop so it reschedules.
    KickCpu,
}

/// Which cores an inter-processor interrupt is aimed at.
#[derive(Debug, Clone, Copy, PartialEq, Eq, Structural)]
pub enum IpiTarget {
    /// The single core with the given identifier.
    Specified(usize),
}

/// Prepares the inter-processor interrupt that kicks `cpu_id` out of its
/// idle loop.  Every identifier is accepted as the target.
pub fn kick_cpu(cpu_id: usize) -> (r: Result<(IpiKind, IpiTarget), SystemError>)
    ensures
        r matches Ok(req) ==> req.0 is KickCpu && req.1 == IpiTarget::Specified(cpu_id),
        r is Ok,
{
    Ok((IpiKind::KickCpu, IpiTarget::Specified(cpu_id)))
}

} // verus!
