use vstd::prelude::*;

use crate::context::queue::{spec_requests_valid, spec_select_family, QueueRequester};
use crate::error::VkError;
use crate::vkflags::{contains, spec_contains};

verus! {

/// `vk::QueueFlags::GRAPHICS`.
pub const QUEUE_GRAPHICS: u32 = 0b1;

/// `vk::QueueFlags::COMPUTE`.
pub const QUEUE_COMPUTE: u32 = 0b10;

/// `vk::QueueFlags::TRANSFER`.
pub const QUEUE_TRANSFER: u32 = 0b100;

/// The priority given to every requested queue: `1.0f32`, as its bit pattern.
pub const DEFAULT_QUEUE_PRIORITY: u32 = 0x3f80_0000;

/// Which kinds of queues the logical device asks for.
#[derive(Debug, Clone, Copy, PartialEq, Eq, Structural)]
pub struct LogicDevConfig {
    /// `vk::QueueFlags` of the requested queues, as raw bits.
    pub request_queues: u32,
}

impl Default for LogicDevConfig {
    fn default() -> (config: LogicDevConfig)
        ensures
            config.request_queues == QUEUE_GRAPHICS | QUEUE_TRANSFER,
    {
        LogicDevConfig { request_queues: QUEUE_GRAPHICS | QUEUE_TRANSFER }
    }
}

/// For each kind of queue, the index of its request in the `QueueRequester`, if it was asked for.
#[derive(Debug, Clone, Copy, PartialEq, Eq, Structural)]
pub struct QueuesRequestInfo {
    pub graphics_index: Option<usize>,
    pub compute_index: Option<usize>,
    pub transfer_index: Option<usize>,
}

/// For each kind of queue, the (family index, queue index in family) it was given, if any.
#[derive(Debug, Clone, Copy)]
pub struct QueueAssignment {
    pub graphics: Option<(u32, u32)>,
    pub compute: Option<(u32, u32)>,
    pub transfer: Option<(u32, u32)>,
}

/// The (family, queue in family) pair of a served request, if there was one.
pub open spec fn spec_dispatched(requested: Seq<(usize, usize)>, index: Option<usize>) -> Option<
    (u32, u32),
> {
    match index {
        Some(i) => Some((requested[i as int].0 as u32, requested[i as int].1 as u32)),
        None => None,
    }
}

impl QueuesRequestInfo {
    /// Looks up where each requested kind of queue was placed.
    pub fn dispatch_queues(&self, requester: &QueueRequester) -> (assignment: QueueAssignment)
        requires
            requester.wf(),
            self.graphics_index matches Some(i) ==> i < requester.requested().len(),
            self.compute_index matches Some(i) ==> i < requester.requested().len(),
            self.transfer_index matches Some(i) ==> i < requester.requested().len(),
        ensures
            assignment.graphics == spec_dispatched(requester.requested(), self.graphics_index),
            assignment.compute == spec_dispatched(requester.requested(), self.compute_index),
            assignment.transfer == spec_dispatched(requester.requested(), self.transfer_index),
    {
        let graphics = match self.graphics_index {
            Some(graphics_index) => Some(requester.dispatch_queue(graphics_index)),
            None => None,
        };
        let compute = match self.compute_index {
            Some(compute_index) => Some(requester.dispatch_queue(compute_index)),
            None => None,
        };
        let transfer = match self.transfer_index {
            Some(transfer_index) => Some(requester.dispatch_queue(transfer_index)),
            None => None,
        };
        QueueAssignment { graphics, compute, transfer }
    }
}

/// The kinds of queue asked for by `request_queues`, in the order in which they are requested.
pub open spec fn spec_requested_roles(request_queues: u32) -> Seq<u32> {
    let g = if spec_contains(request_queues, QUEUE_GRAPHICS) {
        seq![QUEUE_GRAPHICS]
    } else {
        Seq::empty()
    };
    let c = if spec_contains(request_queues, QUEUE_COMPUTE) {
        seq![QUEUE_COMPUTE]
    } else {
        Seq::empty()
    };
    let t = if spec_contains(request_queues, QUEUE_TRANSFER) {
        seq![QUEUE_TRANSFER]
    } else {
        Seq::empty()
    };
    g + c + t
}

/// The families that serve `roles` one after another, starting from the given
/// per-family counts; or the first role that no family can serve.
pub open spec fn spec_serve_roles(
    families: Seq<crate::context::queue::QueueFamilyInfo>,
    counts: Seq<u32>,
    roles: Seq<u32>,
) -> Result<Seq<usize>, u32>
    decreases roles.len(),
{
    if roles.len() == 0 {
        Ok(Seq::empty())
    } else {
        match spec_select_family(families, counts, roles[0]) {
            None => Err(roles[0]),
            Some(f) => match spec_serve_roles(
                families,
                counts.update(f as int, (counts[f as int] + 1) as u32),
                roles.drop_first(),
            ) {
                Ok(rest) => Ok(seq![f] + rest),
                Err(e) => Err(e),
            },
        }
    }
}

/// The index, among the requests made for `request_queues`, of the request for
/// `role`: graphics first, then compute, then transfer.
pub open spec fn spec_role_position(request_queues: u32, role: u32) -> int {
    let g: int = if spec_contains(request_queues, QUEUE_GRAPHICS) {
        1
    } else {
        0
    };
    let c: int = if spec_contains(request_queues, QUEUE_COMPUTE) {
        1
    } else {
        0
    };
    if role == QUEUE_GRAPHICS {
        0
    } else if role == QUEUE_COMPUTE {
        g
    } else {
        g + c
    }
}

/// The outcome of serving some roles after `served` families were already chosen.
pub open spec fn spec_after_served(served: Seq<usize>, rest: Result<Seq<usize>, u32>) -> Result<
    Seq<usize>,
    u32,
> {
    match rest {
        Ok(more) => Ok(served + more),
        Err(e) => Err(e),
    }
}

/// Requests, in the order graphics, compute, transfer, one queue for each kind
/// that `config` asks for. Stops at the first kind that cannot be served.
pub fn request_device_queues(requester: &mut QueueRequester, config: &LogicDevConfig) -> (res:
    Result<QueuesRequestInfo, VkError>)
    requires
        old(requester).wf(),
    ensures
        final(requester).wf(),
        final(requester).families() == old(requester).families(),
        final(requester).counts().len() == final(requester).families().len(),
        final(requester).priorities().len() == final(requester).families().len(),
        spec_requests_valid(final(requester).families(), final(requester).counts(), final(requester).requested()),
        match spec_serve_roles(
            old(requester).families(),
            old(requester).counts(),
            spec_requested_roles(config.request_queues),
        ) {
            Ok(served) => {
                let base = old(requester).requested().len();
                &&& res is Ok
                &&& final(requester).requested().len() == base + served.len()
                &&& forall|k: int|
                    0 <= k < served.len() ==> (#[trigger] final(requester).requested()[base + k]).0
                        == served[k]
                &&& res->Ok_0.graphics_index == if spec_contains(
                    config.request_queues,
                    QUEUE_GRAPHICS,
                ) {
                    Some((base + spec_role_position(config.request_queues, QUEUE_GRAPHICS)) as usize)
                } else {
                    None::<usize>
                }
                &&& res->Ok_0.compute_index == if spec_contains(
                    config.request_queues,
                    QUEUE_COMPUTE,
                ) {
                    Some((base + spec_role_position(config.request_queues, QUEUE_COMPUTE)) as usize)
                } else {
                    None::<usize>
                }
                &&& res->Ok_0.transfer_index == if spec_contains(
                    config.request_queues,
                    QUEUE_TRANSFER,
                ) {
                    Some((base + spec_role_position(config.request_queues, QUEUE_TRANSFER)) as usize)
                } else {
                    None::<usize>
                }
            },
            Err(role) => res == Err::<QueuesRequestInfo, VkError>(VkError::QueueUnavailable(role)),
        },
{
    let ghost families = requester.families();
    let ghost base = requester.requested().len();
    let ghost roles = spec_requested_roles(config.request_queues);
    let ghost outcome = spec_serve_roles(families, requester.counts(), roles);
    let mut queue_requests = QueuesRequestInfo {
        graphics_index: None,
        compute_index: None,
        transfer_index: None,
    };
    let ghost g_roles = if spec_contains(config.request_queues, QUEUE_GRAPHICS) {
        seq![QUEUE_GRAPHICS]
    } else {
        Seq::<u32>::empty()
    };
    let ghost c_roles = if spec_contains(config.request_queues, QUEUE_COMPUTE) {
        seq![QUEUE_COMPUTE]
    } else {
        Seq::<u32>::empty()
    };
    let ghost t_roles = if spec_contains(config.request_queues, QUEUE_TRANSFER) {
        seq![QUEUE_TRANSFER]
    } else {
        Seq::<u32>::empty()
    };
    // the roles still to serve, and the families that served the ones before.
    let ghost mut todo = roles;
    let ghost mut served: Seq<usize> = Seq::empty();
    assert(outcome == spec_after_served(served, spec_serve_roles(families, requester.counts(), todo))) by {
        match outcome {
            Ok(more) => {
                assert(served + more =~= more);
            },
            Err(e) => {},
        }
    }

    if contains(config.request_queues, QUEUE_GRAPHICS) {
        let ghost cur = requester.counts();
        assert(todo[0] == QUEUE_GRAPHICS);
        match requester.request_queue(QUEUE_GRAPHICS, DEFAULT_QUEUE_PRIORITY) {
            Ok(graphics_index) => {
                queue_requests.graphics_index = Some(graphics_index);
                proof {
                    let f = spec_select_family(families, cur, QUEUE_GRAPHICS)->Some_0;
                    lemma_after_served_step(families, cur, todo, served, f);
                    served = served.push(f);
                    todo = todo.drop_first();
                }
            },
            Err(e) => {
                proof {
                    requester.lemma_requester_shape();
                }
                return Err(e);
            },
        }
    }
    assert(todo =~= c_roles + t_roles);
    assert(served.len() == g_roles.len());
    if contains(config.request_queues, QUEUE_COMPUTE) {
        let ghost cur = requester.counts();
        assert(todo[0] == QUEUE_COMPUTE);
        match requester.request_queue(QUEUE_COMPUTE, DEFAULT_QUEUE_PRIORITY) {
            Ok(compute_index) => {
                queue_requests.compute_index = Some(compute_index);
                proof {
                    let f = spec_select_family(families, cur, QUEUE_COMPUTE)->Some_0;
                    lemma_after_served_step(families, cur, todo, served, f);
                    served = served.push(f);
                    todo = todo.drop_first();
                }
            },
            Err(e) => {
                proof {
                    requester.lemma_requester_shape();
                }
                return Err(e);
            },
        }
    }
    assert(todo =~= t_roles);
    assert(served.len() == g_roles.len() + c_roles.len());
    if contains(config.request_queues, QUEUE_TRANSFER) {
        let ghost cur = requester.counts();
        assert(todo[0] == QUEUE_TRANSFER);
        match requester.request_queue(QUEUE_TRANSFER, DEFAULT_QUEUE_PRIORITY) {
            Ok(transfer_index) => {
                queue_requests.transfer_index = Some(transfer_index);
                proof {
                    let f = spec_select_family(families, cur, QUEUE_TRANSFER)->Some_0;
                    lemma_after_served_step(families, cur, todo, served, f);
                    served = served.push(f);
                    todo = todo.drop_first();
                }
            },
            Err(e) => {
                proof {
                    requester.lemma_requester_shape();
                }
                return Err(e);
            },
        }
    }
    assert(todo.len() == 0);
    assert(served + Seq::<usize>::empty() =~= served);
    proof {
        requester.lemma_requester_shape();
    }
    Ok(queue_requests)
}

/// One served role moves from the roles still to serve to the families chosen.
proof fn lemma_after_served_step(
    families: Seq<crate::context::queue::QueueFamilyInfo>,
    counts: Seq<u32>,
    todo: Seq<u32>,
    served: Seq<usize>,
    f: usize,
)
    requires
        todo.len() > 0,
        spec_select_family(families, counts, todo[0]) == Some(f),
    ensures
        spec_after_served(served, spec_serve_roles(families, counts, todo)) == spec_after_served(
            served.push(f),
            spec_serve_roles(
                families,
                counts.update(f as int, (counts[f as int] + 1) as u32),
                todo.drop_first(),
            ),
        ),
{
    let next = spec_serve_roles(
        families,
        counts.update(f as int, (counts[f as int] + 1) as u32),
        todo.drop_first(),
    );
    match next {
        Ok(rest) => {
            assert(served + (seq![f] + rest) =~= served.push(f) + rest);
        },
        Err(e) => {},
    }
}

} // verus!
