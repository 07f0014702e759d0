//! The one-time handoff of the host window to the engine: every pending
//! window-creation request is answered with a descriptor of the host window
//! and an acknowledgement, both under the request's identifier.

use crate::window::{
    HostWindowReading, HostWindowUnavailable, WindowCreated, WindowDescriptor, WindowHandoff,
    WindowRequest,
};
use vstd::prelude::*;

verus! {

/// The descriptor that binds `id` to what a realized host window reports.
pub open spec fn descriptor_of<I>(id: I, host: HostWindowReading) -> WindowDescriptor<I>
    recommends
        host.realized(),
{
    WindowDescriptor {
        id,
        size: host.inner_size->0,
        scale_factor: host.scale_factor->0,
        position: host.outer_position,
        surface: host.surface->0,
    }
}

/// The descriptor and the acknowledgement that answer `request`.
pub open spec fn handoff_of<I>(request: WindowRequest<I>, host: HostWindowReading) -> WindowHandoff<
    I,
>
    recommends
        host.realized(),
{
    WindowHandoff {
        descriptor: descriptor_of(request.id, host),
        acknowledgement: WindowCreated { id: request.id },
    }
}

/// The answers to `requests`, one for each and in their order.
pub open spec fn handoffs_of<I>(requests: Seq<WindowRequest<I>>, host: HostWindowReading) -> Seq<
    WindowHandoff<I>,
>
    recommends
        host.realized(),
{
    Seq::new(requests.len(), |i: int| handoff_of(requests[i], host))
}

/// Whether the handoff of `requests` asks anything of the host window. It
/// does so only if a request is pending: an empty queue is handed off
/// whatever the host reports, so the host need not be read for it.
pub fn host_window_needed<I>(requests: &Vec<WindowRequest<I>>) -> (needed: bool)
    ensures
        needed == (requests@.len() > 0),
{
    requests.len() > 0
}

/// Answers one window-creation request from what the host reports.
///
/// A realized host window gives the descriptor and the acknowledgement for
/// the request. One that is not realized gives the error, which names the
/// first property that is missing: a descriptor is never made up.
pub fn hand_off_window<I: Copy>(request: &WindowRequest<I>, host: &HostWindowReading) -> (outcome:
    Result<WindowHandoff<I>, HostWindowUnavailable>)
    ensures
        match outcome {
            Ok(handoff) => host.realized() && handoff == handoff_of(*request, *host),
            Err(error) => host.first_missing() == Some(error.missing),
        },
{
    match host.missing_property() {
        Some(missing) => Err(HostWindowUnavailable { missing }),
        None => {
            let id = request.id;
            Ok(
                WindowHandoff {
                    descriptor: WindowDescriptor {
                        id,
                        size: host.inner_size.unwrap(),
                        scale_factor: host.scale_factor.unwrap(),
                        position: host.outer_position,
                        surface: host.surface.unwrap(),
                    },
                    acknowledgement: WindowCreated { id },
                },
            )
        },
    }
}

/// Answers the drained queue of window-creation requests.
///
/// With no request pending there is nothing to hand off and nothing is asked
/// of the host window. Otherwise the host window must be realized: then every
/// request gets its descriptor and its acknowledgement, in the order of the
/// queue; if it is not, the handoff fails as a whole.
pub fn hand_off_windows<I: Copy>(requests: &Vec<WindowRequest<I>>, host: &HostWindowReading) -> (outcome:
    Result<Vec<WindowHandoff<I>>, HostWindowUnavailable>)
    ensures
        match outcome {
            Ok(handoffs) => (requests@.len() == 0 || host.realized()) && handoffs@ == handoffs_of(
                requests@,
                *host,
            ),
            Err(error) => requests@.len() > 0 && host.first_missing() == Some(error.missing),
        },
{
    let mut handoffs: Vec<WindowHandoff<I>> = Vec::new();
    let mut next: usize = 0;
    while next < requests.len()
        invariant
            next <= requests@.len(),
            handoffs@.len() == next,
            next > 0 ==> host.realized(),
            forall|k: int| 0 <= k < next ==> handoffs@[k] == handoff_of(requests@[k], *host),
        decreases requests@.len() - next,
    {
        match hand_off_window(&requests[next], host) {
            Ok(handoff) => {
                handoffs.push(handoff);
            },
            Err(error) => {
                return Err(error);
            },
        }
        next += 1;
    }
    assert(handoffs@ =~= handoffs_of(requests@, *host));
    Ok(handoffs)
}

/// Requests and acknowledgements correspond one to one: the handoff of a
/// realized window answers the request at each place of the queue with one
/// descriptor and one acknowledgement, which stand at the same place and
/// carry that request's identifier, and the descriptor holds what the host
/// reported.
pub proof fn law_handoff_is_one_to_one<I>(
    requests: Seq<WindowRequest<I>>,
    host: HostWindowReading,
)
    requires
        host.realized(),
    ensures
        handoffs_of(requests, host).len() == requests.len(),
        forall|k: int|
            0 <= k < requests.len() ==> {
                let handoff = #[trigger] handoffs_of(requests, host)[k];
                &&& handoff.acknowledgement.id == requests[k].id
                &&& handoff.descriptor.id == requests[k].id
                &&& Some(handoff.descriptor.size) == host.inner_size
                &&& Some(handoff.descriptor.scale_factor) == host.scale_factor
                &&& handoff.descriptor.position == host.outer_position
                &&& Some(handoff.descriptor.surface) == host.surface
            },
{
}

} // verus!
