use vstd::prelude::*;

use crate::error::VkError;
use crate::seqs::{
    first_from, first_value, lemma_first_from_is, lemma_first_from_none, lemma_first_from_skip,
    lemma_first_value_remove,
};
use crate::vkflags::{contains, spec_contains};

verus! {

/// The capability bits and the number of queues of one queue family, as the
/// physical device reports them.
#[derive(Debug, Clone, Copy, PartialEq, Eq, Structural)]
pub struct QueueFamilyInfo {
    /// `vk::QueueFlags` of the family, as raw bits.
    pub queue_flags: u32,
    /// How many queues the family offers.
    pub queue_count: u32,
}

/// How queues are handed out among the queue families.
#[derive(Debug, Clone, Copy, PartialEq, Eq, Structural)]
pub enum QueueRequestStrategy {
    ExclusiveQueueCrossFamily,
}

/// The queues requested so far from one queue family.
struct FamilyQueuesCreateInfo {
    count: u32,
    /// the priority of each requested queue, as `f32` bit patterns.
    priorities: Vec<u32>,
}

/// The queues to create in one queue family when the logical device is made.
pub struct FamilyQueueRequest {
    pub family_index: u32,
    /// one priority (as an `f32` bit pattern) per queue to create.
    pub priorities: Vec<u32>,
}

/// Decides from which queue family each requested queue comes.
pub struct QueueRequester {
    strategy: QueueRequestStrategy,
    // the current create info of each queue family.
    cis: Vec<FamilyQueuesCreateInfo>,
    // the properties of each queue family queried from Vulkan.
    family_properties: Vec<QueueFamilyInfo>,
    // the family index and inner queue index of each requested queue.
    queues_requested: Vec<(usize, usize)>,
}

/// The families whose capability bits contain `request`, among the first `k`, in order.
pub open spec fn spec_candidates_upto(families: Seq<QueueFamilyInfo>, request: u32, k: int) -> Seq<
    usize,
>
    decreases k,
{
    if k <= 0 {
        Seq::empty()
    } else {
        let prev = spec_candidates_upto(families, request, k - 1);
        if spec_contains(families[k - 1].queue_flags, request) {
            prev.push((k - 1) as usize)
        } else {
            prev
        }
    }
}

/// The families whose capability bits contain `request`, in order.
pub open spec fn spec_candidate_families(families: Seq<QueueFamilyInfo>, request: u32) -> Seq<
    usize,
> {
    spec_candidates_upto(families, request, families.len() as int)
}

/// A family that offers exactly the requested capability bits.
pub open spec fn spec_is_dedicated(families: Seq<QueueFamilyInfo>, request: u32) -> spec_fn(
    usize,
) -> bool {
    |f: usize| families[f as int].queue_flags == request
}

/// A family that still has a queue that was not requested.
pub open spec fn spec_has_room(families: Seq<QueueFamilyInfo>, counts: Seq<u32>) -> spec_fn(
    usize,
) -> bool {
    |f: usize| counts[f as int] < families[f as int].queue_count
}

/// The family a new request for `request` is served from: the first dedicated
/// candidate if it still has room, otherwise the first candidate with room.
pub open spec fn spec_select_family(
    families: Seq<QueueFamilyInfo>,
    counts: Seq<u32>,
    request: u32,
) -> Option<usize> {
    let candidates = spec_candidate_families(families, request);
    match first_value(candidates, spec_is_dedicated(families, request)) {
        Some(d) if spec_has_room(families, counts)(d) => Some(d),
        _ => first_value(candidates, spec_has_room(families, counts)),
    }
}

/// The candidates are the families, in increasing order, whose bits contain the request.
pub proof fn lemma_candidates(families: Seq<QueueFamilyInfo>, request: u32, k: int)
    requires
        0 <= k <= families.len(),
        families.len() <= usize::MAX,
    ensures
        forall|j: int|
            0 <= j < spec_candidates_upto(families, request, k).len() ==> {
                let f = #[trigger] spec_candidates_upto(families, request, k)[j];
                &&& f < k
                &&& spec_contains(families[f as int].queue_flags, request)
            },
        forall|i: int, j: int|
            0 <= i < j < spec_candidates_upto(families, request, k).len() ==> spec_candidates_upto(
                families,
                request,
                k,
            )[i] < spec_candidates_upto(families, request, k)[j],
        forall|f: int|
            0 <= f < k && spec_contains(families[f].queue_flags, request) ==> spec_candidates_upto(
                families,
                request,
                k,
            ).contains(f as usize),
    decreases k,
{
    if k > 0 {
        lemma_candidates(families, request, k - 1);
        let prev = spec_candidates_upto(families, request, k - 1);
        if spec_contains(families[k - 1].queue_flags, request) {
            let cur = prev.push((k - 1) as usize);
            assert(spec_candidates_upto(families, request, k) == cur);
            assert forall|j: int| 0 <= j < cur.len() implies {
                let f = #[trigger] cur[j];
                &&& f < k
                &&& spec_contains(families[f as int].queue_flags, request)
            } by {
                if j < prev.len() {
                    assert(cur[j] == prev[j]);
                }
            }
            assert forall|i: int, j: int| 0 <= i < j < cur.len() implies cur[i] < cur[j] by {
                assert(cur[i] == prev[i]);
                if j < prev.len() {
                    assert(cur[j] == prev[j]);
                }
            }
            assert forall|f: int|
                0 <= f < k && spec_contains(families[f].queue_flags, request) implies cur.contains(
                f as usize,
            ) by {
                if f < k - 1 {
                    let j = choose|j: int| 0 <= j < prev.len() && prev[j] == f as usize;
                    assert(cur[j] == f as usize);
                } else {
                    assert(cur[prev.len() as int] == f as usize);
                }
            }
        }
    }
}

/// The queue create requests for the first `k` families: one entry, in order,
/// for each family from which at least one queue was requested.
pub open spec fn spec_family_requests_upto(counts: Seq<u32>, priorities: Seq<Seq<u32>>, k: int) -> Seq<
    (u32, Seq<u32>),
>
    decreases k,
{
    if k <= 0 {
        Seq::empty()
    } else {
        let prev = spec_family_requests_upto(counts, priorities, k - 1);
        if counts[k - 1] > 0 {
            prev.push(((k - 1) as u32, priorities[k - 1]))
        } else {
            prev
        }
    }
}

/// The view of a family request: the family index and the queue priorities.
pub open spec fn spec_family_request_view(r: FamilyQueueRequest) -> (u32, Seq<u32>) {
    (r.family_index, r.priorities@)
}

/// Every served request names a family of the device and a queue that the
/// family offers, no family hands out more queues than it has, and no queue
/// is handed out twice.
pub open spec fn spec_requests_valid(
    families: Seq<QueueFamilyInfo>,
    counts: Seq<u32>,
    requested: Seq<(usize, usize)>,
) -> bool {
    &&& counts.len() == families.len()
    &&& forall|f: int| 0 <= f < families.len() ==> #[trigger] counts[f] <= families[f].queue_count
    &&& forall|k: int|
        0 <= k < requested.len() ==> {
            let (f, q) = #[trigger] requested[k];
            &&& f < families.len()
            &&& q < counts[f as int]
            &&& q < families[f as int].queue_count
        }
    &&& forall|k1: int, k2: int| 0 <= k1 < k2 < requested.len() ==> requested[k1] != requested[k2]
}

impl QueueRequester {
    /// The queue families of the device.
    pub closed spec fn families(&self) -> Seq<QueueFamilyInfo> {
        self.family_properties@
    }

    /// How many queues were requested so far from each family.
    pub closed spec fn counts(&self) -> Seq<u32> {
        self.cis@.map_values(|ci: FamilyQueuesCreateInfo| ci.count)
    }

    /// The priorities of the queues requested so far from each family.
    pub closed spec fn priorities(&self) -> Seq<Seq<u32>> {
        self.cis@.map_values(|ci: FamilyQueuesCreateInfo| ci.priorities@)
    }

    /// The (family, queue in family) pair of each request served so far, in order.
    pub closed spec fn requested(&self) -> Seq<(usize, usize)> {
        self.queues_requested@
    }

    /// The requester's bookkeeping is consistent.
    pub closed spec fn wf(&self) -> bool {
        &&& self.cis@.len() == self.family_properties@.len()
        &&& self.family_properties@.len() <= u32::MAX
        &&& self.family_properties@.len() <= usize::MAX
        &&& forall|f: int|
            0 <= f < self.cis@.len() ==> {
                &&& #[trigger] self.cis@[f].count <= self.family_properties@[f].queue_count
                &&& self.cis@[f].priorities@.len() == self.cis@[f].count
            }
        &&& forall|k: int|
            0 <= k < self.queues_requested@.len() ==> {
                let (f, q) = #[trigger] self.queues_requested@[k];
                &&& f < self.cis@.len()
                &&& q < self.cis@[f as int].count
            }
        &&& forall|k1: int, k2: int|
            0 <= k1 < k2 < self.queues_requested@.len() ==> self.queues_requested@[k1]
                != self.queues_requested@[k2]
    }

    /// A well-formed requester keeps one count and one priority list per
    /// family, as many priorities as queues were requested from each, and only
    /// valid requests: distinct queues, each within what its family offers.
    pub proof fn lemma_requester_shape(&self)
        requires
            self.wf(),
        ensures
            self.counts().len() == self.families().len(),
            self.priorities().len() == self.families().len(),
            forall|f: int| 0 <= f < self.families().len() ==> #[trigger] self.priorities()[f].len() == self.counts()[f],
            spec_requests_valid(self.families(), self.counts(), self.requested()),
    {
        self.lemma_requests_valid();
        assert forall|f: int| 0 <= f < self.families().len() implies #[trigger] self.priorities()[f].len()
            == self.counts()[f] by {
            assert(self.cis@[f].priorities@.len() == self.cis@[f].count);
        }
    }

    proof fn lemma_requests_valid(&self)
        requires
            self.wf(),
        ensures
            spec_requests_valid(self.families(), self.counts(), self.requested()),
    {
        assert forall|f: int|
            0 <= f < self.families().len() implies #[trigger] self.counts()[f]
            <= self.families()[f].queue_count by {
            assert(self.cis@[f].count <= self.family_properties@[f].queue_count);
        }
        assert forall|k: int| 0 <= k < self.requested().len() implies {
            let (f, q) = #[trigger] self.requested()[k];
            &&& f < self.families().len()
            &&& q < self.counts()[f as int]
            &&& q < self.families()[f as int].queue_count
        } by {
            let (f, q) = self.queues_requested@[k];
            assert(self.cis@[f as int].count <= self.family_properties@[f as int].queue_count);
        }
    }

    /// Starts with no queue requested from any of `families`.
    pub fn new(families: Vec<QueueFamilyInfo>, strategy: QueueRequestStrategy) -> (requester:
        QueueRequester)
        requires
            families.len() <= u32::MAX,
        ensures
            requester.families() == families@,
            requester.counts() == Seq::new(families@.len(), |i: int| 0u32),
            requester.priorities() == Seq::new(families@.len(), |i: int| Seq::<u32>::empty()),
            requester.requested() == Seq::<(usize, usize)>::empty(),
            spec_requests_valid(requester.families(), requester.counts(), requester.requested()),
            requester.wf(),
    {
        let mut queue_cis: Vec<FamilyQueuesCreateInfo> = Vec::with_capacity(families.len());
        let n = families.len();
        for i in 0..n
            invariant
                n == families.len(),
                queue_cis@.len() == i,
                forall|j: int|
                    0 <= j < i ==> (#[trigger] queue_cis@[j]).count == 0
                        && queue_cis@[j].priorities@ == Seq::<u32>::empty(),
        {
            queue_cis.push(FamilyQueuesCreateInfo { count: 0, priorities: Vec::new() });
        }
        let requester = QueueRequester {
            strategy,
            cis: queue_cis,
            family_properties: families,
            queues_requested: Vec::new(),
        };
        assert(requester.counts() =~= Seq::new(n as nat, |i: int| 0u32));
        assert(requester.priorities() =~= Seq::new(n as nat, |i: int| Seq::<u32>::empty()));
        proof {
            requester.lemma_requests_valid();
        }
        requester
    }

    fn candidate_family(&self, request_queue: u32) -> (candidates: Vec<usize>)
        requires
            self.wf(),
        ensures
            candidates@ == spec_candidate_families(self.families(), request_queue),
    {
        let n = self.family_properties.len();
        let mut candidates: Vec<usize> = Vec::new();
        for i in 0..n
            invariant
                n == self.family_properties@.len(),
                candidates@ == spec_candidates_upto(self.family_properties@, request_queue, i as int),
        {
            if contains(self.family_properties[i].queue_flags, request_queue) {
                candidates.push(i);
            }
        }
        candidates
    }

    /// Requests one more queue whose family supports `request_queue`, with the
    /// given priority (an `f32` bit pattern). Returns the index of the request.
    pub fn request_queue(&mut self, request_queue: u32, priority: u32) -> (res: Result<
        usize,
        VkError,
    >)
        requires
            old(self).wf(),
        ensures
            final(self).wf(),
            final(self).families() == old(self).families(),
            spec_requests_valid(final(self).families(), final(self).counts(), final(self).requested()),
            match spec_select_family(old(self).families(), old(self).counts(), request_queue) {
                Some(f) => {
                    &&& res == Ok::<usize, VkError>(old(self).requested().len() as usize)
                    &&& final(self).requested() == old(self).requested().push(
                        (f, old(self).counts()[f as int] as usize),
                    )
                    &&& final(self).counts() == old(self).counts().update(
                        f as int,
                        (old(self).counts()[f as int] + 1) as u32,
                    )
                    &&& final(self).priorities() == old(self).priorities().update(
                        f as int,
                        old(self).priorities()[f as int].push(priority),
                    )
                },
                None => {
                    &&& res == Err::<usize, VkError>(VkError::QueueUnavailable(request_queue))
                    &&& final(self).requested() == old(self).requested()
                    &&& final(self).counts() == old(self).counts()
                    &&& final(self).priorities() == old(self).priorities()
                },
            },
    {
        let ghost families = self.family_properties@;
        let ghost counts = self.counts();
        let ghost dedicated_pred = spec_is_dedicated(families, request_queue);
        let ghost room_pred = spec_has_room(families, counts);

        // get all support queue families.
        let mut candidate_families = self.candidate_family(request_queue);
        let ghost all_candidates = candidate_families@;
        proof {
            lemma_candidates(families, request_queue, families.len() as int);
        }
        let mut selected_family: Option<usize> = None;

        // try to find a dedicated queue family.
        let mut dedicated_family: Option<(usize, usize)> = None;
        let mut pos: usize = 0;
        while pos < candidate_families.len()
            invariant
                candidate_families@ == all_candidates,
                pos <= all_candidates.len(),
                families == self.family_properties@,
                dedicated_pred == spec_is_dedicated(families, request_queue),
                forall|j: int| 0 <= j < pos ==> !dedicated_pred(#[trigger] all_candidates[j]),
                forall|j: int|
                    0 <= j < all_candidates.len() ==> #[trigger] all_candidates[j]
                        < families.len(),
                dedicated_family matches Some((f, p)) ==> {
                    &&& p < all_candidates.len()
                    &&& all_candidates[p as int] == f
                    &&& first_from(all_candidates, dedicated_pred, 0) == Some(p as int)
                },
                dedicated_family is None ==> first_from(all_candidates, dedicated_pred, 0)
                    == first_from(all_candidates, dedicated_pred, pos as int),
            ensures
                dedicated_family matches Some((f, p)) ==> {
                    &&& p < all_candidates.len()
                    &&& all_candidates[p as int] == f
                    &&& first_from(all_candidates, dedicated_pred, 0) == Some(p as int)
                },
                dedicated_family is None ==> first_from(all_candidates, dedicated_pred, 0) is None,
            decreases all_candidates.len() - pos,
        {
            let family_index = candidate_families[pos];
            if self.family_properties[family_index].queue_flags == request_queue {
                proof {
                    lemma_first_from_is(all_candidates, dedicated_pred, 0, pos as int);
                }
                dedicated_family = Some((family_index, pos));
                break ;
            }
            proof {
                lemma_first_from_skip(all_candidates, dedicated_pred, pos as int, pos + 1);
            }
            pos = pos + 1;
        }
        proof {
            if dedicated_family is None {
                lemma_first_from_none(all_candidates, dedicated_pred, all_candidates.len() as int);
            }
        }

        // check if there are enough queues remain in dedicated queue family.
        if let Some((dedicated_family_index, position)) = dedicated_family {
            if self.cis[dedicated_family_index].count
                < self.family_properties[dedicated_family_index].queue_count {
                // set dedicated_family_index as the final selected queue family.
                selected_family = Some(dedicated_family_index);
            } else {
                // if there are no queue remaining in this family, remove this candidate queue family.
                candidate_families.remove(position);
                proof {
                    lemma_first_value_remove(all_candidates, room_pred, position as int);
                }
            }
        }
        assert(selected_family matches Some(f) ==> f < families.len() && room_pred(f));
        proof {
            if selected_family is None {
                assert(first_value(candidate_families@, room_pred) == first_value(
                    all_candidates,
                    room_pred,
                ));
            }
        }

        if selected_family.is_none() {
            // select the first family which has remaining queue.
            let ghost remaining = candidate_families@;
            let mut j: usize = 0;
            while j < candidate_families.len()
                invariant
                    candidate_families@ == remaining,
                    j <= remaining.len(),
                    families == self.family_properties@,
                    counts == self.counts(),
                    self.cis@.len() == families.len(),
                    room_pred == spec_has_room(families, counts),
                    forall|i: int| 0 <= i < remaining.len() ==> #[trigger] remaining[i] < families.len(),
                    forall|i: int| 0 <= i < j ==> !room_pred(#[trigger] remaining[i]),
                    selected_family matches Some(f) ==> first_value(remaining, room_pred) == Some(f)
                        && f < families.len() && room_pred(f),
                    selected_family is None ==> first_from(remaining, room_pred, 0) == first_from(
                        remaining,
                        room_pred,
                        j as int,
                    ),
                ensures
                    selected_family matches Some(f) ==> first_value(remaining, room_pred) == Some(f)
                        && f < families.len() && room_pred(f),
                    selected_family is None ==> first_value(remaining, room_pred) is None,
                decreases remaining.len() - j,
            {
                let family_index = candidate_families[j];
                assert(counts[family_index as int] == self.cis@[family_index as int].count);
                if self.cis[family_index].count < self.family_properties[family_index].queue_count {
                    proof {
                        lemma_first_from_is(remaining, room_pred, 0, j as int);
                    }
                    selected_family = Some(family_index);
                    break ;
                }
                proof {
                    lemma_first_from_skip(remaining, room_pred, j as int, j + 1);
                }
                j = j + 1;
            }
            proof {
                if selected_family is None {
                    lemma_first_from_none(remaining, room_pred, remaining.len() as int);
                }
            }
        } else {
            assert(first_value(all_candidates, dedicated_pred) == selected_family);
        }
        assert(selected_family == spec_select_family(families, counts, request_queue));
        assert(selected_family matches Some(f) ==> f < families.len() && room_pred(f));

        if let Some(final_family) = selected_family {
            let queue_index = self.cis[final_family].count;
            let mut priorities = Vec::new();
            let old_priorities = &self.cis[final_family].priorities;
            let m = old_priorities.len();
            for i in 0..m
                invariant
                    m == old_priorities@.len(),
                    priorities@ == old_priorities@.subrange(0, i as int),
            {
                priorities.push(old_priorities[i]);
            }
            assert(priorities@ == old_priorities@);
            priorities.push(priority);

            // update queue family counts.
            let ghost old_cis = self.cis@;
            let ghost old_requested = self.queues_requested@;
            assert(queue_index == counts[final_family as int]);
            self.cis.set(final_family, FamilyQueuesCreateInfo { count: queue_index + 1, priorities });

            let requested_index = self.queues_requested.len();
            self.queues_requested.push((final_family, queue_index as usize));
            assert(self.counts() =~= counts.update(final_family as int, (queue_index + 1) as u32));
            assert(self.priorities() =~= old(self).priorities().update(
                final_family as int,
                old(self).priorities()[final_family as int].push(priority),
            ));
            proof {
                assert forall|f: int| 0 <= f < self.cis@.len() implies {
                    &&& #[trigger] self.cis@[f].count <= self.family_properties@[f].queue_count
                    &&& self.cis@[f].priorities@.len() == self.cis@[f].count
                } by {
                    if f != final_family as int {
                        assert(self.cis@[f] == old_cis[f]);
                    }
                }
                assert forall|k: int| 0 <= k < self.queues_requested@.len() implies {
                    let (f, q) = #[trigger] self.queues_requested@[k];
                    &&& f < self.cis@.len()
                    &&& q < self.cis@[f as int].count
                } by {
                    if k < old_requested.len() {
                        assert(self.queues_requested@[k] == old_requested[k]);
                        let (f, q) = old_requested[k];
                        if f != final_family {
                            assert(self.cis@[f as int] == old_cis[f as int]);
                        }
                    }
                }
                assert forall|k1: int, k2: int|
                    0 <= k1 < k2 < self.queues_requested@.len() implies self.queues_requested@[k1]
                    != self.queues_requested@[k2] by {
                    assert(self.queues_requested@[k1] == old_requested[k1]);
                    if k2 < old_requested.len() {
                        assert(self.queues_requested@[k2] == old_requested[k2]);
                    } else {
                        let (f, q) = old_requested[k1];
                        assert(q < old_cis[f as int].count);
                    }
                }
                assert(self.wf());
                self.lemma_requests_valid();
            }
            Ok(requested_index)
        } else {
            proof {
                self.lemma_requests_valid();
            }
            Err(VkError::QueueUnavailable(request_queue))
        }
    }

    /// The queues to create in each family, for the logical device's create info.
    pub fn queue_cis(&self) -> (cis: Vec<FamilyQueueRequest>)
        requires
            self.wf(),
        ensures
            cis@.map_values(|r: FamilyQueueRequest| spec_family_request_view(r))
                == spec_family_requests_upto(
                self.counts(),
                self.priorities(),
                self.families().len() as int,
            ),
    {
        let n = self.cis.len();
        let mut cis: Vec<FamilyQueueRequest> = Vec::new();
        for family_index in 0..n
            invariant
                n == self.cis@.len(),
                self.wf(),
                cis@.map_values(|r: FamilyQueueRequest| spec_family_request_view(r))
                    == spec_family_requests_upto(
                    self.counts(),
                    self.priorities(),
                    family_index as int,
                ),
        {
            let ghost before = cis@;
            if self.cis[family_index].count > 0 {
                let source = &self.cis[family_index].priorities;
                let m = source.len();
                let mut priorities: Vec<u32> = Vec::new();
                for i in 0..m
                    invariant
                        m == source@.len(),
                        priorities@ == source@.subrange(0, i as int),
                {
                    priorities.push(source[i]);
                }
                assert(priorities@ == source@);
                cis.push(FamilyQueueRequest { family_index: family_index as u32, priorities });
                assert(cis@.map_values(|r: FamilyQueueRequest| spec_family_request_view(r))
                    =~= before.map_values(|r: FamilyQueueRequest| spec_family_request_view(r)).push(
                    (family_index as u32, self.priorities()[family_index as int]),
                ));
            }
        }
        cis
    }

    /// The family index and the index within the family of the `queue_request_index`-th request.
    pub fn dispatch_queue(&self, queue_request_index: usize) -> (indices: (u32, u32))
        requires
            self.wf(),
            queue_request_index < self.requested().len(),
        ensures
            indices.0 as usize == self.requested()[queue_request_index as int].0,
            indices.1 as usize == self.requested()[queue_request_index as int].1,
    {
        let (family_index, queue_index) = self.queues_requested[queue_request_index];
        assert(self.cis@[family_index as int].count <= self.family_properties@[family_index as int].queue_count);
        (family_index as u32, queue_index as u32)
    }
}

} // verus!
