//! The power domain tree: the power state of every CPU and of every non-CPU power domain, the
//! power states that each CPU requests for its ancestor domains, and the coordination rule by
//! which a domain takes the shallowest state that its CPUs request for it.

use vstd::prelude::*;

use super::{AffinityInfo, EntryPoint, PlatformPowerStateInterface};

verus! {

/// The power domains of a system: CPUs at power level 0 and non-CPU domains at the levels above,
/// each CPU with exactly one ancestor domain at each level up to the highest.
pub struct PowerDomainTree<P> {
    /// The highest power level.
    max_level: usize,
    /// The number of CPUs.
    cpu_count: usize,
    /// For each CPU, its ancestor domain at each level from 1 upwards.
    ancestors: Vec<Vec<usize>>,
    /// The power level of each non-CPU domain.
    node_level: Vec<usize>,
    /// The local power state of each non-CPU domain.
    node_state: Vec<P>,
    /// The state that each CPU requests for each non-CPU domain, row by row per domain.
    requested: Vec<P>,
    /// The local power state of each CPU.
    cpu_state: Vec<P>,
    /// The `AFFINITY_INFO` state of each CPU.
    affinity: Vec<AffinityInfo>,
    /// The entry point at which each CPU is to start in the non-secure world.
    entry_point: Vec<Option<EntryPoint>>,
}

/// `a * b + c`, bounded as an index into a table of `rows * b` entries.
proof fn lemma_table_index(a: int, b: int, c: int, rows: int)
    requires
        0 <= a < rows,
        0 <= c < b,
    ensures
        0 <= a * b + c < rows * b,
{
    assert(0 <= a * b + c < rows * b) by (nonlinear_arith)
        requires
            0 <= a < rows,
            0 <= c < b,
    ;
}

/// Distinct cells of a table of rows of `b` entries have distinct indices.
proof fn lemma_table_index_unique(a: int, c: int, a2: int, c2: int, b: int)
    requires
        0 <= a,
        0 <= a2,
        0 <= c < b,
        0 <= c2 < b,
        a * b + c == a2 * b + c2,
    ensures
        a == a2,
        c == c2,
{
    assert(a == a2 && c == c2) by (nonlinear_arith)
        requires
            0 <= a,
            0 <= a2,
            0 <= c < b,
            0 <= c2 < b,
            a * b + c == a2 * b + c2,
    ;
}

/// The BFS index of the first child of non-CPU domain `i` in the topology `topology`, which
/// lists the number of root domains and then, in BFS order, the number of children of each
/// non-CPU domain: `topology[0] + ... + topology[i]`.
pub open spec fn first_child(topology: Seq<usize>, i: int) -> int
    decreases i,
{
    if i <= 0 {
        topology[0] as int
    } else {
        first_child(topology, i - 1) + topology[i]
    }
}

/// Whether, in BFS order, domain `k` is a child of non-CPU domain `p` in the topology.
pub open spec fn is_bfs_parent(topology: Seq<usize>, p: int, k: int) -> bool {
    &&& 0 <= p < topology.len() - 1
    &&& first_child(topology, p) <= k < first_child(topology, p + 1)
}

/// Whether `level` gives each domain of the topology a power level that fits a tree of highest
/// level `max_level`: the root at `max_level`, every other domain one level below its parent,
/// the non-CPU domains above level 0 and the CPUs at level 0.
pub open spec fn is_level_assignment(topology: Seq<usize>, max_level: int, level: spec_fn(int) -> int) -> bool {
    let node_count = topology.len() - 1;
    let total = first_child(topology, node_count);
    &&& level(0) == max_level
    &&& forall|p: int, k: int|
        1 <= k < total && #[trigger] is_bfs_parent(topology, p, k) ==> level(k) == level(p) - 1
    &&& forall|k: int| 0 <= k < node_count ==> #[trigger] level(k) >= 1
    &&& forall|k: int| node_count <= k < total ==> #[trigger] level(k) == 0
}

/// Whether the topology describes a single tree of highest level `max_level`, all of whose CPUs
/// lie at level 0 and all of whose non-CPU domains have children, with a table of requests that
/// fits in memory.
pub open spec fn is_valid_topology(topology: Seq<usize>, max_level: int) -> bool {
    let node_count = topology.len() - 1;
    &&& topology.len() >= 2
    &&& 1 <= max_level < usize::MAX
    &&& topology[0] == 1
    &&& forall|j: int| 1 <= j < topology.len() ==> #[trigger] topology[j] >= 1
    &&& exists|level: spec_fn(int) -> int| is_level_assignment(topology, max_level, level)
    &&& node_count * (first_child(topology, node_count) - node_count) <= usize::MAX
}

/// The first children of the domains come in BFS order.
proof fn lemma_first_child_monotone(topology: Seq<usize>, i: int, j: int)
    requires
        0 <= i <= j < topology.len(),
    ensures
        first_child(topology, i) <= first_child(topology, j),
    decreases j - i,
{
    if i < j {
        lemma_first_child_monotone(topology, i, j - 1);
    }
}

/// When every domain has a child, the first child of domain `i` comes after it.
proof fn lemma_first_child_after(topology: Seq<usize>, i: int)
    requires
        0 <= i < topology.len(),
        topology[0] == 1,
        forall|j: int| 1 <= j < topology.len() ==> #[trigger] topology[j] >= 1,
    ensures
        first_child(topology, i) >= i + 1,
    decreases i,
{
    if i > 0 {
        lemma_first_child_after(topology, i - 1);
        assert(topology[i] >= 1);
    }
}

/// A domain has at most one BFS parent.
proof fn lemma_bfs_parent_unique(topology: Seq<usize>, p: int, p2: int, k: int)
    requires
        is_bfs_parent(topology, p, k),
        is_bfs_parent(topology, p2, k),
    ensures
        p == p2,
{
    if p < p2 {
        lemma_first_child_monotone(topology, p + 1, p2);
    } else if p2 < p {
        lemma_first_child_monotone(topology, p2 + 1, p);
    }
}

impl<P: PlatformPowerStateInterface> PowerDomainTree<P> {
    /// The highest power level.
    pub closed spec fn spec_max_level(&self) -> int {
        self.max_level as int
    }

    /// The number of CPUs.
    pub closed spec fn spec_cpu_count(&self) -> int {
        self.cpu_state@.len() as int
    }

    /// The number of non-CPU domains.
    pub closed spec fn spec_node_count(&self) -> int {
        self.node_state@.len() as int
    }

    /// The power level of non-CPU domain `n`.
    pub closed spec fn spec_node_level(&self, n: int) -> int {
        self.node_level@[n] as int
    }

    /// The ancestor domain of CPU `c` at level `l`, from 1 up to the highest level.
    pub closed spec fn spec_ancestor(&self, c: int, l: int) -> int {
        self.ancestors@[c]@[l - 1] as int
    }

    /// The local power state of CPU `c`.
    pub closed spec fn spec_cpu_state(&self, c: int) -> P {
        self.cpu_state@[c]
    }

    /// The local power state of non-CPU domain `n`.
    pub closed spec fn spec_node_state(&self, n: int) -> P {
        self.node_state@[n]
    }

    /// The state that CPU `c` requests for non-CPU domain `n`.
    pub closed spec fn spec_request(&self, n: int, c: int) -> P {
        self.requested@[n * self.spec_cpu_count() + c]
    }

    /// The `AFFINITY_INFO` state of CPU `c`.
    pub closed spec fn spec_affinity(&self, c: int) -> AffinityInfo {
        self.affinity@[c]
    }

    /// The entry point set for CPU `c`.
    pub closed spec fn spec_entry_point(&self, c: int) -> Option<EntryPoint> {
        self.entry_point@[c]
    }

    /// The tables have the sizes that the counts give.
    pub closed spec fn layout_ok(&self) -> bool {
        &&& self.cpu_count == self.cpu_state@.len()
        &&& self.max_level < usize::MAX
        &&& self.affinity@.len() == self.cpu_count
        &&& self.entry_point@.len() == self.cpu_count
        &&& self.ancestors@.len() == self.cpu_count
        &&& forall|c: int| 0 <= c < self.cpu_count ==> #[trigger] self.ancestors@[c]@.len() == self.max_level
        &&& self.node_level@.len() == self.node_state@.len()
        &&& self.requested@.len() == self.node_state@.len() * self.cpu_state@.len()
    }

    /// Whether `c` is a CPU.
    pub open spec fn is_cpu(&self, c: int) -> bool {
        0 <= c < self.spec_cpu_count()
    }

    /// Whether `l` is a level above the CPUs.
    pub open spec fn is_upper_level(&self, l: int) -> bool {
        1 <= l <= self.spec_max_level()
    }

    /// The tree is well formed: each CPU has one ancestor at each upper level, on that level,
    /// and CPUs that share an ancestor share every ancestor above it.
    pub open spec fn wf(&self) -> bool {
        &&& self.layout_ok()
        &&& 1 <= self.spec_max_level() < usize::MAX
        &&& forall|n: int| 0 <= n < self.spec_node_count() ==> 1 <= #[trigger] self.spec_node_level(n) <= self.spec_max_level()
        &&& forall|c: int, l: int|
            self.is_cpu(c) && self.is_upper_level(l) ==> {
                &&& 0 <= #[trigger] self.spec_ancestor(c, l) < self.spec_node_count()
                &&& self.spec_node_level(self.spec_ancestor(c, l)) == l
            }
        &&& forall|c: int, d: int, l: int|
            self.is_cpu(c) && self.is_cpu(d) && 1 <= l < self.spec_max_level() && #[trigger] self.spec_ancestor(c, l)
                == #[trigger] self.spec_ancestor(d, l) ==> self.spec_ancestor(c, l + 1) == self.spec_ancestor(d, l + 1)
    }

    /// Whether CPU `c` lies under non-CPU domain `n`.
    pub open spec fn is_descendant(&self, n: int, c: int) -> bool {
        &&& self.is_cpu(c)
        &&& 0 <= n < self.spec_node_count()
        &&& self.spec_ancestor(c, self.spec_node_level(n)) == n
    }

    /// Whether domain `n` is the ancestor of CPU `cpu` at one of the levels from 1 to `level`.
    pub open spec fn is_ancestor_up_to(&self, cpu: int, n: int, level: int) -> bool {
        &&& 1 <= self.spec_node_level(n) <= level
        &&& self.spec_ancestor(cpu, self.spec_node_level(n)) == n
    }

    /// The shallowest of the states that CPUs `0..k` under domain `n` request for it, or the
    /// power down state if none of them lies under it.
    pub open spec fn shallowest_upto(&self, n: int, k: int) -> P
        decreases k,
    {
        if k <= 0 {
            P::spec_off()
        } else {
            let s = self.shallowest_upto(n, k - 1);
            if self.is_descendant(n, k - 1) && self.spec_request(n, k - 1).spec_depth() < s.spec_depth() {
                self.spec_request(n, k - 1)
            } else {
                s
            }
        }
    }

    /// The shallowest of the states that the CPUs under domain `n` request for it, or the power
    /// down state if no CPU lies under it.
    pub open spec fn shallowest_request(&self, n: int) -> P {
        self.shallowest_upto(n, self.spec_cpu_count())
    }

    /// Every non-CPU domain is in the shallowest state that its CPUs request for it.
    pub open spec fn nodes_coordinated(&self) -> bool {
        forall|n: int| 0 <= n < self.spec_node_count() ==> #[trigger] self.spec_node_state(n) == self.shallowest_request(n)
    }

    /// The states that CPU `c` requests get no deeper from a level to the level above it.
    pub open spec fn requests_non_increasing(&self, c: int) -> bool {
        forall|l: int|
            1 <= l < self.spec_max_level() ==> #[trigger] self.spec_request(self.spec_ancestor(c, l + 1), c).spec_depth()
                <= self.spec_request(self.spec_ancestor(c, l), c).spec_depth()
    }

    /// CPU `c` requests no deeper state for its parent domain than its own state.
    pub open spec fn request_within_cpu_state(&self, c: int) -> bool {
        self.spec_request(self.spec_ancestor(c, 1), c).spec_depth() <= self.spec_cpu_state(c).spec_depth()
    }

    /// CPU `c` requests the running state for every ancestor.
    pub open spec fn requests_all_run(&self, c: int) -> bool {
        forall|l: int| self.is_upper_level(l) ==> #[trigger] self.spec_request(self.spec_ancestor(c, l), c) == P::spec_run()
    }

    /// A running CPU requests the running state for every ancestor.
    pub open spec fn running_requests_run(&self, c: int) -> bool {
        self.spec_cpu_state(c) == P::spec_run() ==> self.requests_all_run(c)
    }

    /// The invariant of CPU `c`'s requests.
    pub open spec fn cpu_requests_ok(&self, c: int) -> bool {
        &&& self.requests_non_increasing(c)
        &&& self.request_within_cpu_state(c)
        &&& self.running_requests_run(c)
    }

    /// The invariant of the tree: well formed, every non-CPU domain coordinated, and the requests
    /// of every CPU in order.
    pub open spec fn inv(&self) -> bool {
        &&& self.wf()
        &&& self.nodes_coordinated()
        &&& forall|c: int| self.is_cpu(c) ==> #[trigger] self.cpu_requests_ok(c)
    }

    /// `other` has the same domains, levels and ancestors as this tree.
    pub open spec fn same_shape(&self, other: &Self) -> bool {
        &&& other.spec_max_level() == self.spec_max_level()
        &&& other.spec_cpu_count() == self.spec_cpu_count()
        &&& other.spec_node_count() == self.spec_node_count()
        &&& forall|n: int| 0 <= n < self.spec_node_count() ==> #[trigger] other.spec_node_level(n) == self.spec_node_level(n)
        &&& forall|c: int, l: int|
            self.is_cpu(c) && self.is_upper_level(l) ==> #[trigger] other.spec_ancestor(c, l) == self.spec_ancestor(c, l)
    }

    /// This tree and `other` have the same shape and the same power states and requests.
    pub open spec fn same_power_states(&self, other: &Self) -> bool {
        &&& self.same_shape(other)
        &&& forall|c: int| self.is_cpu(c) ==> #[trigger] self.spec_cpu_state(c) == other.spec_cpu_state(c)
        &&& forall|n: int| 0 <= n < self.spec_node_count() ==> #[trigger] self.spec_node_state(n) == other.spec_node_state(n)
        &&& forall|n: int, c: int|
            0 <= n < self.spec_node_count() && self.is_cpu(c) ==> #[trigger] self.spec_request(n, c) == other.spec_request(n, c)
    }

    /// This tree has the same states as `other`: power states, requests, `AFFINITY_INFO` states
    /// and entry points.
    pub open spec fn same_states(&self, other: &Self) -> bool {
        &&& self.same_power_states(other)
        &&& forall|c: int| self.is_cpu(c) ==> #[trigger] self.spec_affinity(c) == other.spec_affinity(c)
        &&& forall|c: int| self.is_cpu(c) ==> #[trigger] self.spec_entry_point(c) == other.spec_entry_point(c)
    }

    /// This tree is `other` but for the `AFFINITY_INFO` state of CPU `cpu`.
    pub open spec fn same_states_except_affinity(&self, other: &Self, cpu: int) -> bool {
        &&& self.same_power_states(other)
        &&& forall|c: int| self.is_cpu(c) ==> #[trigger] self.spec_entry_point(c) == other.spec_entry_point(c)
        &&& forall|c: int| self.is_cpu(c) && c != cpu ==> #[trigger] self.spec_affinity(c) == other.spec_affinity(c)
    }

    /// This tree is `other` but for the entry point of CPU `cpu`.
    pub open spec fn same_states_except_entry(&self, other: &Self, cpu: int) -> bool {
        &&& self.same_power_states(other)
        &&& forall|c: int| self.is_cpu(c) ==> #[trigger] self.spec_affinity(c) == other.spec_affinity(c)
        &&& forall|c: int| self.is_cpu(c) && c != cpu ==> #[trigger] self.spec_entry_point(c) == other.spec_entry_point(c)
    }

    /// This tree is `other` but for the `AFFINITY_INFO` state and the entry point of CPU `cpu`.
    pub open spec fn same_states_except_cpu_on(&self, other: &Self, cpu: int) -> bool {
        &&& self.same_power_states(other)
        &&& forall|c: int| self.is_cpu(c) && c != cpu ==> #[trigger] self.spec_affinity(c) == other.spec_affinity(c)
        &&& forall|c: int| self.is_cpu(c) && c != cpu ==> #[trigger] self.spec_entry_point(c) == other.spec_entry_point(c)
    }

    /// Any state is at least as deep as the running state and at most as deep as the power down
    /// state, and the running state is the only state of depth zero.
    pub proof fn lemma_depth_bounds(s: P)
        ensures
            0 <= s.spec_depth() <= P::spec_off().spec_depth(),
            P::spec_run().spec_depth() == 0,
            s.spec_depth() == 0 <==> s == P::spec_run(),
            P::spec_off() != P::spec_run(),
    {
        P::lemma_order(s, s);
        P::lemma_order(s, P::spec_run());
        P::lemma_order(P::spec_run(), s);
        P::lemma_order(P::spec_off(), P::spec_run());
    }

    /// The shallowest request is no deeper than the request of any CPU under the domain.
    pub proof fn lemma_shallowest_upto_le(&self, n: int, k: int, d: int)
        requires
            0 <= d < k,
            self.is_descendant(n, d),
        ensures
            self.shallowest_upto(n, k).spec_depth() <= self.spec_request(n, d).spec_depth(),
        decreases k,
    {
        if d < k - 1 {
            self.lemma_shallowest_upto_le(n, k - 1, d);
        }
    }

    /// The shallowest request is the power down state or the request of some CPU under the
    /// domain.
    pub proof fn lemma_shallowest_upto_witness(&self, n: int, k: int)
        ensures
            self.shallowest_upto(n, k) == P::spec_off() || exists|d: int|
                0 <= d < k && self.is_descendant(n, d) && #[trigger] self.spec_request(n, d) == self.shallowest_upto(n, k),
        decreases k,
    {
        if k > 0 {
            self.lemma_shallowest_upto_witness(n, k - 1);
        }
    }

    /// The shallowest request of a domain depends only on which CPUs lie under it and on what
    /// they request for it.
    pub proof fn lemma_shallowest_upto_frame(&self, other: &Self, n: int, k: int)
        requires
            forall|d: int| 0 <= d < k ==> #[trigger] self.is_descendant(n, d) == other.is_descendant(n, d),
            forall|d: int| 0 <= d < k && #[trigger] self.is_descendant(n, d) ==> self.spec_request(n, d) == other.spec_request(n, d),
        ensures
            self.shallowest_upto(n, k) == other.shallowest_upto(n, k),
        decreases k,
    {
        if k > 0 {
            self.lemma_shallowest_upto_frame(other, n, k - 1);
            assert(self.is_descendant(n, k - 1) == other.is_descendant(n, k - 1));
        }
    }

    /// A domain one of whose CPUs requests the running state is in the running state.
    pub proof fn lemma_run_request_makes_run(&self, n: int, d: int)
        requires
            self.is_descendant(n, d),
            self.spec_request(n, d) == P::spec_run(),
        ensures
            self.shallowest_request(n) == P::spec_run(),
    {
        self.lemma_shallowest_upto_le(n, self.spec_cpu_count(), d);
        Self::lemma_depth_bounds(self.shallowest_request(n));
    }

    /// Two CPUs that share an ancestor share every ancestor above it.
    pub proof fn lemma_shared_ancestors(&self, c: int, d: int, l: int, l2: int)
        requires
            self.wf(),
            self.is_cpu(c),
            self.is_cpu(d),
            1 <= l <= l2 <= self.spec_max_level(),
            self.spec_ancestor(c, l) == self.spec_ancestor(d, l),
        ensures
            self.spec_ancestor(c, l2) == self.spec_ancestor(d, l2),
        decreases l2 - l,
    {
        if l < l2 {
            assert(self.spec_ancestor(c, l + 1) == self.spec_ancestor(d, l + 1));
            self.lemma_shared_ancestors(c, d, l + 1, l2);
        }
    }

    /// The requests of CPU `c` get no deeper from any level to any level above it.
    pub proof fn lemma_requests_chain(&self, c: int, l: int, l2: int)
        requires
            self.requests_non_increasing(c),
            1 <= l <= l2 <= self.spec_max_level(),
        ensures
            self.spec_request(self.spec_ancestor(c, l2), c).spec_depth() <= self.spec_request(
                self.spec_ancestor(c, l),
                c,
            ).spec_depth(),
        decreases l2 - l,
    {
        if l < l2 {
            self.lemma_requests_chain(c, l + 1, l2);
            assert(self.spec_request(self.spec_ancestor(c, l + 1), c).spec_depth()
                <= self.spec_request(self.spec_ancestor(c, l), c).spec_depth());
        }
    }

    /// A tree with the layout of its tables in order and the shape of a well formed tree is well
    /// formed.
    proof fn lemma_wf_same_shape(before: &Self, after: &Self)
        requires
            before.wf(),
            after.layout_ok(),
            before.same_shape(after),
        ensures
            after.wf(),
    {
        assert forall|n: int| 0 <= n < after.spec_node_count() implies 1 <= #[trigger] after.spec_node_level(n)
            <= after.spec_max_level() by {
            assert(before.spec_node_level(n) == after.spec_node_level(n));
        }
        assert forall|c: int, l: int| after.is_cpu(c) && after.is_upper_level(l) implies {
            &&& 0 <= #[trigger] after.spec_ancestor(c, l) < after.spec_node_count()
            &&& after.spec_node_level(after.spec_ancestor(c, l)) == l
        } by {
            assert(before.spec_ancestor(c, l) == after.spec_ancestor(c, l));
            assert(before.spec_node_level(before.spec_ancestor(c, l)) == l);
        }
        assert forall|c: int, d: int, l: int|
            after.is_cpu(c) && after.is_cpu(d) && 1 <= l < after.spec_max_level() && #[trigger] after.spec_ancestor(c, l)
                == #[trigger] after.spec_ancestor(d, l) implies after.spec_ancestor(c, l + 1) == after.spec_ancestor(
            d,
            l + 1,
        ) by {
            assert(before.spec_ancestor(c, l) == after.spec_ancestor(c, l));
            assert(before.spec_ancestor(d, l) == after.spec_ancestor(d, l));
            assert(before.spec_ancestor(c, l + 1) == after.spec_ancestor(c, l + 1));
            assert(before.spec_ancestor(d, l + 1) == after.spec_ancestor(d, l + 1));
        }
    }

    /// Having the same shape is transitive.
    pub proof fn lemma_same_shape_trans(a: &Self, b: &Self, c: &Self)
        requires
            a.same_shape(b),
            b.same_shape(c),
        ensures
            a.same_shape(c),
    {
        assert forall|n: int| 0 <= n < a.spec_node_count() implies #[trigger] c.spec_node_level(n)
            == a.spec_node_level(n) by {
            assert(b.spec_node_level(n) == a.spec_node_level(n));
        }
        assert forall|x: int, l: int| a.is_cpu(x) && a.is_upper_level(l) implies #[trigger] c.spec_ancestor(x, l)
            == a.spec_ancestor(x, l) by {
            assert(b.spec_ancestor(x, l) == a.spec_ancestor(x, l));
        }
    }

    /// The requests of CPU `c` stay in order in a tree of the same shape where the CPU has the
    /// same state and the same requests.
    proof fn lemma_cpu_requests_ok_transfer(a: &Self, b: &Self, c: int)
        requires
            a.wf(),
            a.same_shape(b),
            a.is_cpu(c),
            a.cpu_requests_ok(c),
            forall|n: int| 0 <= n < a.spec_node_count() ==> #[trigger] b.spec_request(n, c) == a.spec_request(n, c),
            b.spec_cpu_state(c) == a.spec_cpu_state(c),
        ensures
            b.cpu_requests_ok(c),
    {
        let max = a.spec_max_level();
        assert forall|lv: int| 1 <= lv <= max implies #[trigger] b.spec_request(b.spec_ancestor(c, lv), c)
            == a.spec_request(a.spec_ancestor(c, lv), c) by {
            assert(b.spec_ancestor(c, lv) == a.spec_ancestor(c, lv));
            assert(0 <= a.spec_ancestor(c, lv) < a.spec_node_count());
        }
        assert forall|lv: int| 1 <= lv < max implies #[trigger] b.spec_request(b.spec_ancestor(c, lv + 1), c).spec_depth()
            <= b.spec_request(b.spec_ancestor(c, lv), c).spec_depth() by {
            assert(b.spec_request(b.spec_ancestor(c, lv), c) == a.spec_request(a.spec_ancestor(c, lv), c));
            assert(b.spec_request(b.spec_ancestor(c, lv + 1), c) == a.spec_request(a.spec_ancestor(c, lv + 1), c));
        }
        assert(b.spec_request(b.spec_ancestor(c, 1), c) == a.spec_request(a.spec_ancestor(c, 1), c));
        if b.spec_cpu_state(c) == P::spec_run() {
            assert forall|lv: int| b.is_upper_level(lv) implies #[trigger] b.spec_request(b.spec_ancestor(c, lv), c)
                == P::spec_run() by {
                assert(b.spec_request(b.spec_ancestor(c, lv), c) == a.spec_request(a.spec_ancestor(c, lv), c));
            }
        }
    }

    /// Trees of the same shape and the same requests have the same shallowest requests.
    proof fn lemma_same_requests_same_shallowest(a: &Self, b: &Self)
        requires
            a.wf(),
            a.same_shape(b),
            forall|n: int, c: int|
                0 <= n < a.spec_node_count() && a.is_cpu(c) ==> #[trigger] b.spec_request(n, c) == a.spec_request(n, c),
        ensures
            forall|n: int| 0 <= n < a.spec_node_count() ==> #[trigger] a.shallowest_request(n) == b.shallowest_request(n),
    {
        assert forall|n: int| 0 <= n < a.spec_node_count() implies #[trigger] a.shallowest_request(n)
            == b.shallowest_request(n) by {
            let k = a.spec_cpu_count();
            assert forall|d: int| 0 <= d < k implies #[trigger] a.is_descendant(n, d) == b.is_descendant(n, d) by {
                let lv = a.spec_node_level(n);
                assert(1 <= lv <= a.spec_max_level());
                assert(b.spec_ancestor(d, lv) == a.spec_ancestor(d, lv));
            }
            assert forall|d: int| 0 <= d < k && #[trigger] a.is_descendant(n, d) implies a.spec_request(n, d)
                == b.spec_request(n, d) by {
                assert(b.spec_request(n, d) == a.spec_request(n, d));
            }
            a.lemma_shallowest_upto_frame(b, n, k);
        }
    }

    /// After a change of the request of CPU `c` for domain `n` alone, every other domain is still
    /// coordinated.
    proof fn lemma_others_coordinated(before: &Self, after: &Self, n: int, c: int)
        requires
            before.wf(),
            after.wf(),
            before.same_shape(after),
            before.nodes_coordinated(),
            forall|n2: int, c2: int|
                0 <= n2 < before.spec_node_count() && before.is_cpu(c2) && (n2 != n || c2 != c)
                    ==> #[trigger] after.spec_request(n2, c2) == before.spec_request(n2, c2),
            forall|n2: int|
                0 <= n2 < before.spec_node_count() && n2 != n ==> #[trigger] after.spec_node_state(n2)
                    == before.spec_node_state(n2),
        ensures
            forall|n2: int|
                0 <= n2 < after.spec_node_count() && n2 != n ==> #[trigger] after.spec_node_state(n2)
                    == after.shallowest_request(n2),
    {
        assert forall|n2: int|
            0 <= n2 < after.spec_node_count() && n2 != n implies #[trigger] after.spec_node_state(n2)
                == after.shallowest_request(n2) by {
            let k = before.spec_cpu_count();
            assert forall|d: int| 0 <= d < k implies #[trigger] before.is_descendant(n2, d)
                == after.is_descendant(n2, d) by {
                let lv = before.spec_node_level(n2);
                assert(1 <= lv <= before.spec_max_level());
                assert(after.spec_ancestor(d, lv) == before.spec_ancestor(d, lv));
            }
            assert forall|d: int| 0 <= d < k && #[trigger] before.is_descendant(n2, d) implies before.spec_request(n2, d)
                == after.spec_request(n2, d) by {
                assert(after.spec_request(n2, d) == before.spec_request(n2, d));
            }
            before.lemma_shallowest_upto_frame(after, n2, k);
            assert(before.spec_node_state(n2) == before.shallowest_request(n2));
        }
    }

    /// Returns the number of CPUs.
    pub fn cpu_count(&self) -> (count: usize)
        requires
            self.wf(),
        ensures
            count == self.spec_cpu_count(),
    {
        self.cpu_count
    }

    /// Returns the highest power level.
    pub fn max_level(&self) -> (level: usize)
        ensures
            level == self.spec_max_level(),
    {
        self.max_level
    }

    /// Returns the ancestor domain of CPU `c` at level `l`.
    fn ancestor(&self, c: usize, l: usize) -> (n: usize)
        requires
            self.wf(),
            self.is_cpu(c as int),
            self.is_upper_level(l as int),
        ensures
            n == self.spec_ancestor(c as int, l as int),
    {
        self.ancestors[c][l - 1]
    }

    /// Returns the index of the request of CPU `c` for domain `n`.
    fn request_index(&self, n: usize, c: usize) -> (i: usize)
        requires
            self.wf(),
            0 <= n < self.spec_node_count(),
            self.is_cpu(c as int),
        ensures
            i == n * self.spec_cpu_count() + c,
            i < self.requested@.len(),
    {
        let len = self.requested.len();
        proof {
            lemma_table_index(n as int, self.spec_cpu_count(), c as int, self.spec_node_count());
            assert(n * self.spec_cpu_count() <= n * self.spec_cpu_count() + c < len);
        }
        n * self.cpu_count + c
    }

    /// Returns whether CPU `c` lies under domain `n`.
    fn is_descendant_exec(&self, n: usize, c: usize) -> (under: bool)
        requires
            self.wf(),
            0 <= n < self.spec_node_count(),
            self.is_cpu(c as int),
        ensures
            under == self.is_descendant(n as int, c as int),
    {
        let level = self.node_level[n];
        proof {
            assert(1 <= self.spec_node_level(n as int) <= self.spec_max_level());
        }
        self.ancestors[c][level - 1] == n
    }

    /// Returns the shallowest state that the CPUs under domain `n` request for it, or the power
    /// down state if no CPU lies under it.
    fn compute_shallowest_request(&self, n: usize) -> (state: P)
        requires
            self.wf(),
            0 <= n < self.spec_node_count(),
        ensures
            state == self.shallowest_request(n as int),
    {
        let mut state = P::off();
        let mut depth = state.depth();
        let mut c: usize = 0;
        while c < self.cpu_count
            invariant
                self.wf(),
                0 <= n < self.spec_node_count(),
                c <= self.spec_cpu_count(),
                state == self.shallowest_upto(n as int, c as int),
                depth == state.spec_depth(),
            decreases self.spec_cpu_count() - c,
        {
            if self.is_descendant_exec(n, c) {
                let i = self.request_index(n, c);
                let request = self.requested[i];
                let request_depth = request.depth();
                if request_depth < depth {
                    state = request;
                    depth = request_depth;
                }
            }
            c = c + 1;
        }
        state
    }

    /// Sets the request of CPU `c` for domain `n` to `state`.
    fn set_request(&mut self, n: usize, c: usize, state: P)
        requires
            old(self).wf(),
            0 <= n < old(self).spec_node_count(),
            old(self).is_cpu(c as int),
        ensures
            final(self).wf(),
            old(self).same_shape(final(self)),
            final(self).spec_request(n as int, c as int) == state,
            forall|n2: int, c2: int|
                0 <= n2 < old(self).spec_node_count() && old(self).is_cpu(c2) && (n2 != n || c2 != c)
                    ==> #[trigger] final(self).spec_request(n2, c2) == old(self).spec_request(n2, c2),
            forall|n2: int| #[trigger] final(self).spec_node_state(n2) == old(self).spec_node_state(n2),
            forall|c2: int| #[trigger] final(self).spec_cpu_state(c2) == old(self).spec_cpu_state(c2),
            forall|c2: int| #[trigger] final(self).spec_affinity(c2) == old(self).spec_affinity(c2),
            forall|c2: int| #[trigger] final(self).spec_entry_point(c2) == old(self).spec_entry_point(c2),
    {
        let i = self.request_index(n, c);
        self.requested.set(i, state);
        proof {
            Self::lemma_wf_same_shape(old(self), self);
            let cc = self.spec_cpu_count();
            assert forall|n2: int, c2: int|
                0 <= n2 < old(self).spec_node_count() && old(self).is_cpu(c2) && (n2 != n || c2 != c)
                    implies #[trigger] self.spec_request(n2, c2) == old(self).spec_request(n2, c2) by {
                lemma_table_index(n2, cc, c2, self.spec_node_count());
                if n2 * cc + c2 == n * cc + c {
                    lemma_table_index_unique(n2, c2, n as int, c as int, cc);
                }
            }
        }
    }

    /// Sets the local state of domain `n` to `state`.
    fn set_node_state(&mut self, n: usize, state: P)
        requires
            old(self).wf(),
            0 <= n < old(self).spec_node_count(),
        ensures
            final(self).wf(),
            old(self).same_shape(final(self)),
            final(self).spec_node_state(n as int) == state,
            forall|n2: int|
                0 <= n2 < old(self).spec_node_count() && n2 != n ==> #[trigger] final(self).spec_node_state(n2)
                    == old(self).spec_node_state(n2),
            forall|n2: int, c2: int| #[trigger] final(self).spec_request(n2, c2) == old(self).spec_request(n2, c2),
            forall|c2: int| #[trigger] final(self).spec_cpu_state(c2) == old(self).spec_cpu_state(c2),
            forall|c2: int| #[trigger] final(self).spec_affinity(c2) == old(self).spec_affinity(c2),
            forall|c2: int| #[trigger] final(self).spec_entry_point(c2) == old(self).spec_entry_point(c2),
    {
        self.node_state.set(n, state);
        proof {
            Self::lemma_wf_same_shape(old(self), self);
        }
    }

    /// Records `states[l]` as the request of CPU `cpu` for its ancestor at each level `l` from
    /// 1 to `highest_level`, and coordinates those ancestors from the lowest up: each takes the
    /// shallowest state that its CPUs request for it, until one must keep running, above which
    /// every level runs. On return `states[l]` is the state of the ancestor at level `l`.
    ///
    /// The CPU must have been requesting the running state for all its ancestors, and `states`
    /// must get no deeper from a level to the level above it.
    pub fn coordinate_state(&mut self, cpu: usize, states: &mut Vec<P>, highest_level: usize)
        requires
            old(self).inv(),
            old(self).is_cpu(cpu as int),
            highest_level <= old(self).spec_max_level(),
            old(states)@.len() == old(self).spec_max_level() + 1,
            super::is_non_increasing(old(states)@),
            old(self).requests_all_run(cpu as int),
        ensures
            final(self).wf(),
            old(self).same_shape(final(self)),
            final(self).nodes_coordinated(),
            forall|c: int| final(self).is_cpu(c) && c != cpu ==> #[trigger] final(self).cpu_requests_ok(c),
            forall|c: int| #[trigger] final(self).spec_cpu_state(c) == old(self).spec_cpu_state(c),
            forall|c: int| #[trigger] final(self).spec_affinity(c) == old(self).spec_affinity(c),
            forall|c: int| #[trigger] final(self).spec_entry_point(c) == old(self).spec_entry_point(c),
            forall|l: int|
                1 <= l <= highest_level ==> #[trigger] final(self).spec_request(
                    final(self).spec_ancestor(cpu as int, l),
                    cpu as int,
                ) == old(states)@[l],
            forall|l: int|
                highest_level < l <= final(self).spec_max_level() ==> #[trigger] final(self).spec_request(
                    final(self).spec_ancestor(cpu as int, l),
                    cpu as int,
                ) == P::spec_run(),
            forall|n: int, c: int|
                0 <= n < final(self).spec_node_count() && final(self).is_cpu(c) && c != cpu
                    ==> #[trigger] final(self).spec_request(n, c) == old(self).spec_request(n, c),
            forall|n: int|
                0 <= n < final(self).spec_node_count() && !final(self).is_ancestor_up_to(cpu as int, n, highest_level as int)
                    ==> #[trigger] final(self).spec_node_state(n) == old(self).spec_node_state(n),
            forall|n: int|
                0 <= n < final(self).spec_node_count() && !final(self).is_ancestor_up_to(cpu as int, n, highest_level as int)
                    ==> #[trigger] final(self).spec_request(n, cpu as int) == old(self).spec_request(n, cpu as int),
            final(states)@.len() == old(states)@.len(),
            final(states)@[0] == old(states)@[0],
            forall|l: int|
                1 <= l <= highest_level ==> #[trigger] final(states)@[l] == final(self).spec_node_state(
                    final(self).spec_ancestor(cpu as int, l),
                ),
            forall|l: int|
                highest_level < l <= final(self).spec_max_level() ==> #[trigger] final(states)@[l] == old(
                    states,
                )@[l],
    {
        let ghost old_self = *self;
        let ghost old_states = states@;
        let ghost c0 = cpu as int;
        let ghost max = self.spec_max_level();
        let mut higher_levels_are_run = false;
        let ghost mut wit: int = 0;
        let mut l: usize = 1;
        while l <= highest_level
            invariant
                1 <= l <= highest_level + 1,
                highest_level <= max,
                max == old_self.spec_max_level(),
                old_self.inv(),
                old_self.is_cpu(c0),
                c0 == cpu,
                old_self.requests_all_run(c0),
                super::is_non_increasing(old_states),
                old_states.len() == max + 1,
                self.wf(),
                old_self.same_shape(self),
                self.nodes_coordinated(),
                forall|c: int| #[trigger] self.spec_cpu_state(c) == old_self.spec_cpu_state(c),
                forall|c: int| #[trigger] self.spec_affinity(c) == old_self.spec_affinity(c),
                forall|c: int| #[trigger] self.spec_entry_point(c) == old_self.spec_entry_point(c),
                forall|lv: int|
                    1 <= lv < l ==> #[trigger] self.spec_request(self.spec_ancestor(c0, lv), c0)
                        == old_states[lv],
                forall|n: int, c: int|
                    0 <= n < self.spec_node_count() && self.is_cpu(c) && !(c == c0 && 1
                        <= self.spec_node_level(n) < l && self.spec_ancestor(c0, self.spec_node_level(n))
                        == n) ==> #[trigger] self.spec_request(n, c) == old_self.spec_request(n, c),
                forall|n: int|
                    0 <= n < self.spec_node_count() && !(1 <= self.spec_node_level(n) < l
                        && self.spec_ancestor(c0, self.spec_node_level(n)) == n) ==> #[trigger] self.spec_node_state(n)
                        == old_self.spec_node_state(n),
                states@.len() == old_states.len(),
                states@[0] == old_states[0],
                forall|lv: int|
                    1 <= lv < l ==> #[trigger] states@[lv] == self.spec_node_state(
                        self.spec_ancestor(c0, lv),
                    ),
                forall|lv: int| l <= lv <= max ==> #[trigger] states@[lv] == old_states[lv],
                higher_levels_are_run ==> {
                    &&& self.is_cpu(wit)
                    &&& forall|lv: int|
                        l <= lv <= max ==> #[trigger] self.spec_ancestor(wit, lv) == self.spec_ancestor(
                            c0,
                            lv,
                        )
                    &&& forall|lv: int|
                        l <= lv <= max ==> #[trigger] self.spec_request(self.spec_ancestor(c0, lv), wit)
                            == P::spec_run()
                    &&& wit == c0 ==> forall|lv: int| l <= lv <= max ==> #[trigger] old_states[lv] == P::spec_run()
                },
            decreases highest_level + 1 - l,
        {
            let n = self.ancestor(cpu, l);
            let request = states[l];
            let ghost before = *self;
            self.set_request(n, cpu, request);
            proof {
                // Requests of the CPU at the levels above are still the old ones.
                assert forall|n2: int, c: int|
                    0 <= n2 < self.spec_node_count() && self.is_cpu(c) && !(c == c0 && 1
                        <= self.spec_node_level(n2) < l + 1 && self.spec_ancestor(
                        c0,
                        self.spec_node_level(n2),
                    ) == n2) implies #[trigger] self.spec_request(n2, c) == old_self.spec_request(
                    n2,
                    c,
                ) by {
                    assert(before.spec_request(n2, c) == old_self.spec_request(n2, c));
                    if n2 == n && c == c0 {
                        assert(self.spec_node_level(n2) == l);
                    }
                }
                Self::lemma_others_coordinated(&before, self, n as int, c0);
            }
            if !higher_levels_are_run {
                let s = self.compute_shallowest_request(n);
                let ghost mid = *self;
                self.set_node_state(n, s);
                states.set(l, s);
                proof {
                    Self::lemma_depth_bounds(s);
                    P::lemma_order(s, s);
                    Self::lemma_same_requests_same_shallowest(&mid, self);
                    assert forall|n2: int| 0 <= n2 < self.spec_node_count() implies #[trigger] self.spec_node_state(n2)
                        == self.shallowest_request(n2) by {
                        if n2 != n {
                            assert(mid.spec_node_state(n2) == mid.shallowest_request(n2));
                        }
                    }
                }
                if s.power_state_type() == super::PowerStateType::Run {
                    higher_levels_are_run = true;
                    proof {
                        P::lemma_order(s, s);
                        assert(s == P::spec_run());
                        self.lemma_shallowest_upto_witness(n as int, self.spec_cpu_count());
                        let d = choose|d: int|
                            0 <= d < self.spec_cpu_count() && self.is_descendant(n as int, d)
                                && #[trigger] self.spec_request(n as int, d) == self.shallowest_upto(
                                n as int,
                                self.spec_cpu_count(),
                            );
                        wit = d;
                        assert forall|lv: int|
                            l + 1 <= lv <= max implies #[trigger] self.spec_ancestor(wit, lv)
                                == self.spec_ancestor(c0, lv) by {
                            self.lemma_shared_ancestors(wit, c0, l as int, lv);
                        }
                        if wit != c0 {
                            assert(old_self.cpu_requests_ok(wit));
                            assert forall|lv: int|
                                l + 1 <= lv <= max implies #[trigger] self.spec_request(
                                    self.spec_ancestor(c0, lv),
                                    wit,
                                ) == P::spec_run() by {
                                old_self.lemma_requests_chain(wit, l as int, lv);
                                self.lemma_shared_ancestors(wit, c0, l as int, lv);
                                assert(self.spec_request(self.spec_ancestor(c0, lv), wit)
                                    == old_self.spec_request(old_self.spec_ancestor(wit, lv), wit));
                                assert(old_self.spec_request(old_self.spec_ancestor(wit, l as int), wit)
                                    == self.spec_request(n as int, wit));
                                Self::lemma_depth_bounds(
                                    self.spec_request(self.spec_ancestor(c0, lv), wit),
                                );
                            }
                        } else {
                            assert(old_states[l as int] == P::spec_run());
                            assert forall|lv: int| l + 1 <= lv <= max implies #[trigger] old_states[lv]
                                == P::spec_run() by {
                                assert(old_states[lv].spec_depth() <= old_states[l as int].spec_depth());
                                Self::lemma_depth_bounds(old_states[lv]);
                            }
                            assert forall|lv: int|
                                l + 1 <= lv <= max implies #[trigger] self.spec_request(
                                    self.spec_ancestor(c0, lv),
                                    wit,
                                ) == P::spec_run() by {
                                assert(self.spec_node_level(self.spec_ancestor(c0, lv)) == lv);
                                assert(self.spec_request(self.spec_ancestor(c0, lv), c0)
                                    == old_self.spec_request(old_self.spec_ancestor(c0, lv), c0));
                            }
                        }
                    }
                }
            } else {
                proof {
                    assert(self.spec_ancestor(wit, l as int) == n);
                    assert(self.is_descendant(n as int, wit));
                    assert(before.spec_request(n as int, wit) == P::spec_run());
                    before.lemma_run_request_makes_run(n as int, wit);
                    if wit != c0 {
                        assert(self.spec_request(n as int, wit) == P::spec_run());
                    } else {
                        assert(old_states[l as int] == P::spec_run());
                    }
                    self.lemma_run_request_makes_run(n as int, wit);
                    assert(self.spec_node_state(n as int) == before.spec_node_state(n as int));
                }
                states.set(l, P::run());
            }
            proof {
                assert forall|lv: int|
                    1 <= lv < l + 1 implies #[trigger] self.spec_request(self.spec_ancestor(c0, lv), c0)
                        == old_states[lv] by {
                    if lv < l {
                        assert(self.spec_node_level(self.spec_ancestor(c0, lv)) == lv);
                        if self.spec_ancestor(c0, lv) == n {
                            assert(false);
                        }
                    }
                }
                assert forall|lv: int|
                    1 <= lv < l + 1 implies #[trigger] states@[lv] == self.spec_node_state(
                        self.spec_ancestor(c0, lv),
                    ) by {
                    if lv < l {
                        assert(self.spec_node_level(self.spec_ancestor(c0, lv)) == lv);
                    }
                }
                if higher_levels_are_run {
                    assert forall|lv: int|
                        l + 1 <= lv <= max implies #[trigger] self.spec_request(
                            self.spec_ancestor(c0, lv),
                            wit,
                        ) == P::spec_run() by {
                        assert(self.spec_node_level(self.spec_ancestor(c0, lv)) == lv);
                    }
                }
            }
            l = l + 1;
        }
        proof {
            assert forall|c: int| self.is_cpu(c) && c != cpu implies #[trigger] self.cpu_requests_ok(c) by {
                assert(old_self.cpu_requests_ok(c));
                assert forall|lv: int| 1 <= lv <= max implies #[trigger] self.spec_request(
                    self.spec_ancestor(c, lv),
                    c,
                ) == old_self.spec_request(old_self.spec_ancestor(c, lv), c) by {
                    assert(old_self.spec_ancestor(c, lv) == self.spec_ancestor(c, lv));
                }
                assert forall|lv: int| 1 <= lv < max implies #[trigger] self.spec_request(
                    self.spec_ancestor(c, lv + 1),
                    c,
                ).spec_depth() <= self.spec_request(self.spec_ancestor(c, lv), c).spec_depth() by {
                    assert(old_self.spec_request(old_self.spec_ancestor(c, lv + 1), c).spec_depth()
                        <= old_self.spec_request(old_self.spec_ancestor(c, lv), c).spec_depth());
                }
                if self.spec_cpu_state(c) == P::spec_run() {
                    assert(old_self.requests_all_run(c));
                    assert forall|lv: int| self.is_upper_level(lv) implies #[trigger] self.spec_request(
                        self.spec_ancestor(c, lv),
                        c,
                    ) == P::spec_run() by {
                        assert(old_self.spec_request(old_self.spec_ancestor(c, lv), c) == P::spec_run());
                    }
                }
            }
            assert forall|lv: int|
                highest_level < lv <= max implies #[trigger] self.spec_request(
                    self.spec_ancestor(c0, lv),
                    c0,
                ) == P::spec_run() by {
                assert(self.spec_node_level(self.spec_ancestor(c0, lv)) == lv);
                assert(old_self.spec_request(old_self.spec_ancestor(c0, lv), c0) == P::spec_run());
            }
        }
    }

    /// Puts CPU `cpu` and all its ancestors in the running state, with the CPU requesting the
    /// running state for each of them: the state of a CPU that has started running.
    pub fn restore_running(&mut self, cpu: usize)
        requires
            old(self).inv(),
            old(self).is_cpu(cpu as int),
        ensures
            final(self).inv(),
            old(self).same_shape(final(self)),
            final(self).spec_cpu_state(cpu as int) == P::spec_run(),
            final(self).requests_all_run(cpu as int),
            forall|l: int|
                final(self).is_upper_level(l) ==> #[trigger] final(self).spec_node_state(
                    final(self).spec_ancestor(cpu as int, l),
                ) == P::spec_run(),
            forall|c: int|
                0 <= c < old(self).spec_cpu_count() && c != cpu ==> #[trigger] final(self).spec_cpu_state(c)
                    == old(self).spec_cpu_state(c),
            forall|n: int, c: int|
                0 <= n < final(self).spec_node_count() && final(self).is_cpu(c) && c != cpu
                    ==> #[trigger] final(self).spec_request(n, c) == old(self).spec_request(n, c),
            forall|n: int|
                0 <= n < final(self).spec_node_count() && !final(self).is_ancestor_up_to(cpu as int, n, final(self).spec_max_level())
                    ==> #[trigger] final(self).spec_node_state(n) == old(self).spec_node_state(n),
            forall|n: int|
                0 <= n < final(self).spec_node_count() && !final(self).is_ancestor_up_to(cpu as int, n, final(self).spec_max_level())
                    ==> #[trigger] final(self).spec_request(n, cpu as int) == old(self).spec_request(n, cpu as int),
            forall|c: int| #[trigger] final(self).spec_affinity(c) == old(self).spec_affinity(c),
            forall|c: int| #[trigger] final(self).spec_entry_point(c) == old(self).spec_entry_point(c),
    {
        let ghost old_self = *self;
        let ghost c0 = cpu as int;
        let ghost max = self.spec_max_level();
        let mut l: usize = 1;
        while l <= self.max_level
            invariant
                1 <= l <= max + 1,
                max == old_self.spec_max_level(),
                old_self.inv(),
                old_self.is_cpu(c0),
                c0 == cpu,
                self.wf(),
                old_self.same_shape(self),
                self.nodes_coordinated(),
                forall|c: int| #[trigger] self.spec_cpu_state(c) == old_self.spec_cpu_state(c),
                forall|c: int| #[trigger] self.spec_affinity(c) == old_self.spec_affinity(c),
                forall|c: int| #[trigger] self.spec_entry_point(c) == old_self.spec_entry_point(c),
                forall|lv: int|
                    1 <= lv < l ==> #[trigger] self.spec_request(self.spec_ancestor(c0, lv), c0)
                        == P::spec_run(),
                forall|lv: int|
                    1 <= lv < l ==> #[trigger] self.spec_node_state(self.spec_ancestor(c0, lv))
                        == P::spec_run(),
                forall|n: int, c: int|
                    0 <= n < self.spec_node_count() && self.is_cpu(c) && c != c0 ==> #[trigger] self.spec_request(n, c)
                        == old_self.spec_request(n, c),
                forall|n: int|
                    0 <= n < self.spec_node_count() && !(1 <= self.spec_node_level(n) < l
                        && self.spec_ancestor(c0, self.spec_node_level(n)) == n) ==> #[trigger] self.spec_node_state(n)
                        == old_self.spec_node_state(n),
                forall|n: int|
                    0 <= n < self.spec_node_count() && !(1 <= self.spec_node_level(n) < l
                        && self.spec_ancestor(c0, self.spec_node_level(n)) == n) ==> #[trigger] self.spec_request(n, c0)
                        == old_self.spec_request(n, c0),
            decreases max + 1 - l,
        {
            let n = self.ancestor(cpu, l);
            let ghost before = *self;
            self.set_request(n, cpu, P::run());
            proof {
                Self::lemma_others_coordinated(&before, self, n as int, c0);
                assert(self.is_descendant(n as int, c0));
                self.lemma_run_request_makes_run(n as int, c0);
            }
            let ghost mid = *self;
            self.set_node_state(n, P::run());
            proof {
                Self::lemma_same_requests_same_shallowest(&mid, self);
                assert forall|n2: int| 0 <= n2 < self.spec_node_count() implies #[trigger] self.spec_node_state(n2)
                    == self.shallowest_request(n2) by {
                    if n2 != n {
                        assert(mid.spec_node_state(n2) == mid.shallowest_request(n2));
                    }
                }
                assert forall|lv: int|
                    1 <= lv < l + 1 implies #[trigger] self.spec_request(self.spec_ancestor(c0, lv), c0)
                        == P::spec_run() by {
                    assert(self.spec_node_level(self.spec_ancestor(c0, lv)) == lv);
                }
                assert forall|lv: int|
                    1 <= lv < l + 1 implies #[trigger] self.spec_node_state(self.spec_ancestor(c0, lv))
                        == P::spec_run() by {
                    assert(self.spec_node_level(self.spec_ancestor(c0, lv)) == lv);
                }
            }
            l = l + 1;
        }
        let ghost mid = *self;
        self.cpu_state.set(cpu, P::run());
        proof {
            Self::lemma_wf_same_shape(&mid, self);
            Self::lemma_same_shape_trans(&old_self, &mid, self);
            Self::lemma_depth_bounds(P::spec_run());
            assert forall|c: int| 0 <= c < self.spec_cpu_count() && c != cpu implies #[trigger] self.spec_cpu_state(c)
                == old_self.spec_cpu_state(c) by {
                assert(mid.spec_cpu_state(c) == old_self.spec_cpu_state(c));
            }
            assert forall|n: int, c: int|
                0 <= n < self.spec_node_count() && self.is_cpu(c) && c != cpu implies #[trigger] self.spec_request(n, c)
                    == old_self.spec_request(n, c) by {
                assert(mid.spec_request(n, c) == old_self.spec_request(n, c));
            }
            assert forall|c: int| #[trigger] self.spec_entry_point(c) == old_self.spec_entry_point(c) by {
                assert(mid.spec_entry_point(c) == old_self.spec_entry_point(c));
            }
            assert forall|c: int| #[trigger] self.spec_affinity(c) == old_self.spec_affinity(c) by {
                assert(mid.spec_affinity(c) == old_self.spec_affinity(c));
            }
            assert forall|n: int|
                0 <= n < self.spec_node_count() && !self.is_ancestor_up_to(c0, n, self.spec_max_level())
                    implies #[trigger] self.spec_node_state(n) == old_self.spec_node_state(n) by {
                assert(mid.spec_node_level(n) == self.spec_node_level(n));
                assert(mid.spec_node_state(n) == self.spec_node_state(n));
                if 1 <= self.spec_node_level(n) <= max {
                    assert(mid.spec_ancestor(c0, self.spec_node_level(n)) == self.spec_ancestor(
                        c0,
                        self.spec_node_level(n),
                    ));
                }
            }
            assert forall|n: int|
                0 <= n < self.spec_node_count() && !self.is_ancestor_up_to(c0, n, self.spec_max_level())
                    implies #[trigger] self.spec_request(n, c0) == old_self.spec_request(n, c0) by {
                assert(mid.spec_node_level(n) == self.spec_node_level(n));
                assert(mid.spec_request(n, c0) == self.spec_request(n, c0));
                if 1 <= self.spec_node_level(n) <= max {
                    assert(mid.spec_ancestor(c0, self.spec_node_level(n)) == self.spec_ancestor(
                        c0,
                        self.spec_node_level(n),
                    ));
                }
            }
            Self::lemma_same_requests_same_shallowest(&mid, self);
            assert forall|n: int| 0 <= n < self.spec_node_count() implies #[trigger] self.spec_node_state(n)
                == self.shallowest_request(n) by {
                assert(mid.spec_node_state(n) == mid.shallowest_request(n));
            }
            assert forall|lv: int| self.is_upper_level(lv) implies #[trigger] self.spec_request(
                self.spec_ancestor(c0, lv),
                c0,
            ) == P::spec_run() by {
                assert(mid.spec_request(mid.spec_ancestor(c0, lv), c0) == P::spec_run());
            }
            assert forall|c: int| self.is_cpu(c) implies #[trigger] self.cpu_requests_ok(c) by {
                if c == c0 {
                    assert(self.spec_request(self.spec_ancestor(c0, 1), c0) == P::spec_run());
                } else {
                    assert(old_self.cpu_requests_ok(c));
                    assert forall|n: int| 0 <= n < old_self.spec_node_count() implies #[trigger] self.spec_request(n, c)
                        == old_self.spec_request(n, c) by {
                        assert(mid.spec_request(n, c) == old_self.spec_request(n, c));
                    }
                    Self::lemma_cpu_requests_ok_transfer(&old_self, self, c);
                }
            }
            assert forall|l2: int| self.is_upper_level(l2) implies #[trigger] self.spec_node_state(
                self.spec_ancestor(c0, l2),
            ) == P::spec_run() by {
                assert(mid.spec_node_state(mid.spec_ancestor(c0, l2)) == P::spec_run());
            }
        }
    }

    /// Moves CPU `cpu`, which is running, towards the states `states` requested for it and its
    /// ancestors: coordinates its ancestors up to `highest_level` as `coordinate_state` does, then
    /// puts the CPU in `states[0]`. On return `states[l]` is the state of the ancestor at each level
    /// `l` from 1 to `highest_level`.
    pub fn enter_state(&mut self, cpu: usize, states: &mut Vec<P>, highest_level: usize)
        requires
            old(self).inv(),
            old(self).is_cpu(cpu as int),
            old(self).spec_cpu_state(cpu as int) == P::spec_run(),
            highest_level <= old(self).spec_max_level(),
            old(states)@.len() == old(self).spec_max_level() + 1,
            super::is_non_increasing(old(states)@),
        ensures
            final(self).inv(),
            old(self).same_shape(final(self)),
            final(self).spec_cpu_state(cpu as int) == old(states)@[0],
            forall|c: int|
                0 <= c < old(self).spec_cpu_count() && c != cpu ==> #[trigger] final(self).spec_cpu_state(c)
                    == old(self).spec_cpu_state(c),
            forall|c: int| #[trigger] final(self).spec_affinity(c) == old(self).spec_affinity(c),
            forall|c: int| #[trigger] final(self).spec_entry_point(c) == old(self).spec_entry_point(c),
            forall|l: int|
                1 <= l <= highest_level ==> #[trigger] final(self).spec_request(
                    final(self).spec_ancestor(cpu as int, l),
                    cpu as int,
                ) == old(states)@[l],
            forall|l: int|
                highest_level < l <= final(self).spec_max_level() ==> #[trigger] final(self).spec_request(
                    final(self).spec_ancestor(cpu as int, l),
                    cpu as int,
                ) == P::spec_run(),
            forall|n: int, c: int|
                0 <= n < final(self).spec_node_count() && final(self).is_cpu(c) && c != cpu
                    ==> #[trigger] final(self).spec_request(n, c) == old(self).spec_request(n, c),
            forall|n: int|
                0 <= n < final(self).spec_node_count() && !final(self).is_ancestor_up_to(cpu as int, n, highest_level as int)
                    ==> #[trigger] final(self).spec_node_state(n) == old(self).spec_node_state(n),
            forall|n: int|
                0 <= n < final(self).spec_node_count() && !final(self).is_ancestor_up_to(cpu as int, n, highest_level as int)
                    ==> #[trigger] final(self).spec_request(n, cpu as int) == old(self).spec_request(n, cpu as int),
            final(states)@.len() == old(states)@.len(),
            final(states)@[0] == old(states)@[0],
            forall|l: int|
                1 <= l <= highest_level ==> #[trigger] final(states)@[l] == final(self).spec_node_state(
                    final(self).spec_ancestor(cpu as int, l),
                ),
            forall|l: int|
                highest_level < l <= final(self).spec_max_level() ==> #[trigger] final(states)@[l] == old(
                    states,
                )@[l],
    {
        let ghost old_states = states@;
        let ghost c0 = cpu as int;
        proof {
            assert(old(self).cpu_requests_ok(c0));
        }
        self.coordinate_state(cpu, states, highest_level);
        let ghost mid = *self;
        let target = states[0];
        self.cpu_state.set(cpu, target);
        proof {
            let max = self.spec_max_level();
            Self::lemma_wf_same_shape(&mid, self);
            Self::lemma_same_shape_trans(old(self), &mid, self);
            Self::lemma_depth_bounds(target);
            assert forall|c: int| 0 <= c < self.spec_cpu_count() && c != cpu implies #[trigger] self.spec_cpu_state(c)
                == old(self).spec_cpu_state(c) by {
                assert(mid.spec_cpu_state(c) == old(self).spec_cpu_state(c));
            }
            assert forall|c: int| #[trigger] self.spec_entry_point(c) == old(self).spec_entry_point(c) by {
                assert(mid.spec_entry_point(c) == old(self).spec_entry_point(c));
            }
            assert forall|c: int| #[trigger] self.spec_affinity(c) == old(self).spec_affinity(c) by {
                assert(mid.spec_affinity(c) == old(self).spec_affinity(c));
            }
            assert forall|n: int|
                0 <= n < self.spec_node_count() && !self.is_ancestor_up_to(c0, n, highest_level as int)
                    implies #[trigger] self.spec_node_state(n) == old(self).spec_node_state(n) by {
                assert(mid.spec_node_level(n) == self.spec_node_level(n));
                assert(mid.spec_node_state(n) == self.spec_node_state(n));
                if 1 <= self.spec_node_level(n) <= max {
                    assert(mid.spec_ancestor(c0, self.spec_node_level(n)) == self.spec_ancestor(
                        c0,
                        self.spec_node_level(n),
                    ));
                }
            }
            assert forall|n: int|
                0 <= n < self.spec_node_count() && !self.is_ancestor_up_to(c0, n, highest_level as int)
                    implies #[trigger] self.spec_request(n, c0) == old(self).spec_request(n, c0) by {
                assert(mid.spec_node_level(n) == self.spec_node_level(n));
                assert(mid.spec_request(n, c0) == self.spec_request(n, c0));
                if 1 <= self.spec_node_level(n) <= max {
                    assert(mid.spec_ancestor(c0, self.spec_node_level(n)) == self.spec_ancestor(
                        c0,
                        self.spec_node_level(n),
                    ));
                }
            }
            assert forall|n: int, c: int|
                0 <= n < self.spec_node_count() && self.is_cpu(c) && c != cpu implies #[trigger] self.spec_request(n, c)
                    == old(self).spec_request(n, c) by {
                assert(mid.spec_request(n, c) == old(self).spec_request(n, c));
            }
            assert forall|lv: int| 1 <= lv <= max implies #[trigger] self.spec_request(
                self.spec_ancestor(c0, lv),
                c0,
            ) == (if lv <= highest_level {
                old_states[lv]
            } else {
                P::spec_run()
            }) by {
                assert(self.spec_ancestor(c0, lv) == mid.spec_ancestor(c0, lv));
                assert(self.spec_request(self.spec_ancestor(c0, lv), c0) == mid.spec_request(
                    mid.spec_ancestor(c0, lv),
                    c0,
                ));
            }
            Self::lemma_same_requests_same_shallowest(&mid, self);
            assert forall|n: int| 0 <= n < self.spec_node_count() implies #[trigger] self.spec_node_state(n)
                == self.shallowest_request(n) by {
                assert(mid.spec_node_state(n) == mid.shallowest_request(n));
            }
            assert forall|c: int| self.is_cpu(c) implies #[trigger] self.cpu_requests_ok(c) by {
                if c != c0 {
                    assert(mid.cpu_requests_ok(c));
                    assert(self.spec_cpu_state(c) == mid.spec_cpu_state(c));
                    Self::lemma_cpu_requests_ok_transfer(&mid, self, c);
                } else {
                    assert forall|lv: int| 1 <= lv <= max implies #[trigger] self.spec_request(
                        self.spec_ancestor(c0, lv),
                        c0,
                    ) == (if lv <= highest_level {
                        old_states[lv]
                    } else {
                        P::spec_run()
                    }) by {
                        assert(self.spec_ancestor(c0, lv) == mid.spec_ancestor(c0, lv));
                        assert(self.spec_request(self.spec_ancestor(c0, lv), c0) == mid.spec_request(
                            mid.spec_ancestor(c0, lv),
                            c0,
                        ));
                    }
                    assert forall|lv: int| 1 <= lv < max implies #[trigger] self.spec_request(
                        self.spec_ancestor(c0, lv + 1),
                        c0,
                    ).spec_depth() <= self.spec_request(self.spec_ancestor(c0, lv), c0).spec_depth() by {
                        Self::lemma_depth_bounds(self.spec_request(self.spec_ancestor(c0, lv), c0));
                        Self::lemma_depth_bounds(self.spec_request(self.spec_ancestor(c0, lv + 1), c0));
                        if lv + 1 <= highest_level {
                            assert(old_states[lv + 1].spec_depth() <= old_states[lv].spec_depth());
                        }
                    }
                    Self::lemma_depth_bounds(self.spec_request(self.spec_ancestor(c0, 1), c0));
                    if 1 <= highest_level {
                        assert(old_states[1].spec_depth() <= old_states[0].spec_depth());
                    }
                    if target == P::spec_run() {
                        assert forall|lv: int| self.is_upper_level(lv) implies #[trigger] self.spec_request(
                            self.spec_ancestor(c0, lv),
                            c0,
                        ) == P::spec_run() by {
                            if lv <= highest_level {
                                assert(old_states[lv].spec_depth() <= old_states[0].spec_depth());
                                Self::lemma_depth_bounds(old_states[lv]);
                            }
                        }
                    }
                }
            }
        }
    }

    /// Sets the state of CPU `cpu`, which requests the running state for all its ancestors, to
    /// `state`: a standby state that leaves its ancestors running, or the running state again.
    pub fn set_cpu_state_within_run(&mut self, cpu: usize, state: P)
        requires
            old(self).inv(),
            old(self).is_cpu(cpu as int),
            old(self).requests_all_run(cpu as int),
        ensures
            final(self).inv(),
            old(self).same_shape(final(self)),
            final(self).spec_cpu_state(cpu as int) == state,
            forall|c: int|
                0 <= c < old(self).spec_cpu_count() && c != cpu ==> #[trigger] final(self).spec_cpu_state(c)
                    == old(self).spec_cpu_state(c),
            forall|n: int| #[trigger] final(self).spec_node_state(n) == old(self).spec_node_state(n),
            forall|n: int, c: int| #[trigger] final(self).spec_request(n, c) == old(self).spec_request(n, c),
            forall|c: int| #[trigger] final(self).spec_affinity(c) == old(self).spec_affinity(c),
            forall|c: int| #[trigger] final(self).spec_entry_point(c) == old(self).spec_entry_point(c),
    {
        let ghost old_self = *self;
        self.cpu_state.set(cpu, state);
        proof {
            Self::lemma_wf_same_shape(&old_self, self);
            Self::lemma_depth_bounds(state);
            Self::lemma_same_requests_same_shallowest(&old_self, self);
            assert forall|n: int| 0 <= n < self.spec_node_count() implies #[trigger] self.spec_node_state(n)
                == self.shallowest_request(n) by {
                assert(old_self.spec_node_state(n) == old_self.shallowest_request(n));
            }
            assert forall|c: int| self.is_cpu(c) implies #[trigger] self.cpu_requests_ok(c) by {
                assert(old_self.cpu_requests_ok(c));
                if c == cpu {
                    let max = self.spec_max_level();
                    assert forall|lv: int| 1 <= lv <= max implies #[trigger] self.spec_request(
                        self.spec_ancestor(c, lv),
                        c,
                    ) == P::spec_run() by {
                        assert(old_self.spec_request(old_self.spec_ancestor(c, lv), c) == P::spec_run());
                    }
                    assert(self.spec_request(self.spec_ancestor(c, 1), c) == P::spec_run());
                    assert forall|lv: int| 1 <= lv < max implies #[trigger] self.spec_request(
                        self.spec_ancestor(c, lv + 1),
                        c,
                    ).spec_depth() <= self.spec_request(self.spec_ancestor(c, lv), c).spec_depth() by {
                        assert(self.spec_request(self.spec_ancestor(c, lv), c) == P::spec_run());
                        assert(self.spec_request(self.spec_ancestor(c, lv + 1), c) == P::spec_run());
                    }
                } else {
                    Self::lemma_cpu_requests_ok_transfer(&old_self, self, c);
                }
            }
        }
    }

    /// Returns the local state of CPU `c`.
    pub fn cpu_state(&self, c: usize) -> (state: P)
        requires
            self.wf(),
            self.is_cpu(c as int),
        ensures
            state == self.spec_cpu_state(c as int),
    {
        self.cpu_state[c]
    }

    /// Returns the `AFFINITY_INFO` state of CPU `c`.
    pub fn affinity(&self, c: usize) -> (affinity: AffinityInfo)
        requires
            self.wf(),
            self.is_cpu(c as int),
        ensures
            affinity == self.spec_affinity(c as int),
    {
        self.affinity[c]
    }

    /// Sets the `AFFINITY_INFO` state of CPU `c`.
    pub fn set_affinity(&mut self, c: usize, affinity: AffinityInfo)
        requires
            old(self).inv(),
            old(self).is_cpu(c as int),
        ensures
            final(self).inv(),
            old(self).same_shape(final(self)),
            final(self).spec_affinity(c as int) == affinity,
            forall|c2: int|
                0 <= c2 < old(self).spec_cpu_count() && c2 != c ==> #[trigger] final(self).spec_affinity(c2)
                    == old(self).spec_affinity(c2),
            forall|c2: int| #[trigger] final(self).spec_cpu_state(c2) == old(self).spec_cpu_state(c2),
            forall|n: int| #[trigger] final(self).spec_node_state(n) == old(self).spec_node_state(n),
            forall|n: int, c2: int| #[trigger] final(self).spec_request(n, c2) == old(self).spec_request(n, c2),
            forall|c2: int| #[trigger] final(self).spec_entry_point(c2) == old(self).spec_entry_point(c2),
    {
        let ghost old_self = *self;
        self.affinity.set(c, affinity);
        proof {
            Self::lemma_wf_same_shape(&old_self, self);
            Self::lemma_same_requests_same_shallowest(&old_self, self);
            assert forall|n: int| 0 <= n < self.spec_node_count() implies #[trigger] self.spec_node_state(n)
                == self.shallowest_request(n) by {
                assert(old_self.spec_node_state(n) == old_self.shallowest_request(n));
            }
            assert forall|c2: int| self.is_cpu(c2) implies #[trigger] self.cpu_requests_ok(c2) by {
                assert(old_self.cpu_requests_ok(c2));
                Self::lemma_cpu_requests_ok_transfer(&old_self, self, c2);
            }
        }
    }

    /// Sets the entry point of CPU `c`.
    pub fn set_entry_point(&mut self, c: usize, entry_point: Option<EntryPoint>)
        requires
            old(self).inv(),
            old(self).is_cpu(c as int),
        ensures
            final(self).inv(),
            old(self).same_shape(final(self)),
            final(self).spec_entry_point(c as int) == entry_point,
            forall|c2: int|
                0 <= c2 < old(self).spec_cpu_count() && c2 != c ==> #[trigger] final(self).spec_entry_point(c2)
                    == old(self).spec_entry_point(c2),
            forall|c2: int| #[trigger] final(self).spec_cpu_state(c2) == old(self).spec_cpu_state(c2),
            forall|n: int| #[trigger] final(self).spec_node_state(n) == old(self).spec_node_state(n),
            forall|n: int, c2: int| #[trigger] final(self).spec_request(n, c2) == old(self).spec_request(n, c2),
            forall|c2: int| #[trigger] final(self).spec_affinity(c2) == old(self).spec_affinity(c2),
    {
        let ghost old_self = *self;
        self.entry_point.set(c, entry_point);
        proof {
            Self::lemma_wf_same_shape(&old_self, self);
            Self::lemma_same_requests_same_shallowest(&old_self, self);
            assert forall|n: int| 0 <= n < self.spec_node_count() implies #[trigger] self.spec_node_state(n)
                == self.shallowest_request(n) by {
                assert(old_self.spec_node_state(n) == old_self.shallowest_request(n));
            }
            assert forall|c2: int| self.is_cpu(c2) implies #[trigger] self.cpu_requests_ok(c2) by {
                assert(old_self.cpu_requests_ok(c2));
                Self::lemma_cpu_requests_ok_transfer(&old_self, self, c2);
            }
        }
    }

    /// Returns the entry point of CPU `c`.
    pub fn entry_point(&self, c: usize) -> (entry_point: Option<EntryPoint>)
        requires
            self.wf(),
            self.is_cpu(c as int),
        ensures
            entry_point == self.spec_entry_point(c as int),
    {
        self.entry_point[c]
    }

    /// Returns the states of CPU `cpu` and of its ancestors, the CPU level first.
    pub fn composite_from_nodes(&self, cpu: usize) -> (states: Vec<P>)
        requires
            self.wf(),
            self.is_cpu(cpu as int),
        ensures
            states@.len() == self.spec_max_level() + 1,
            states@[0] == self.spec_cpu_state(cpu as int),
            forall|l: int|
                self.is_upper_level(l) ==> #[trigger] states@[l] == self.spec_node_state(
                    self.spec_ancestor(cpu as int, l),
                ),
    {
        let mut states: Vec<P> = Vec::new();
        states.push(self.cpu_state[cpu]);
        let mut l: usize = 1;
        while l <= self.max_level
            invariant
                self.wf(),
                self.is_cpu(cpu as int),
                1 <= l <= self.spec_max_level() + 1,
                states@.len() == l,
                states@[0] == self.spec_cpu_state(cpu as int),
                forall|lv: int|
                    1 <= lv < l ==> #[trigger] states@[lv] == self.spec_node_state(
                        self.spec_ancestor(cpu as int, lv),
                    ),
            decreases self.spec_max_level() + 1 - l,
        {
            let n = self.ancestor(cpu, l);
            states.push(self.node_state[n]);
            l = l + 1;
        }
        states
    }

    /// A non-CPU domain is never in a deeper state than any of its children: than the CPU for
    /// the parent domain of a CPU, and than the child domain for the domains above.
    pub proof fn lemma_parent_no_deeper(&self, c: int, l: int)
        requires
            self.inv(),
            self.is_cpu(c),
            self.is_upper_level(l),
        ensures
            l == 1 ==> self.spec_node_state(self.spec_ancestor(c, 1)).spec_depth() <= self.spec_cpu_state(
                c,
            ).spec_depth(),
            l < self.spec_max_level() ==> self.spec_node_state(self.spec_ancestor(c, l + 1)).spec_depth()
                <= self.spec_node_state(self.spec_ancestor(c, l)).spec_depth(),
    {
        let k = self.spec_cpu_count();
        let m = self.spec_ancestor(c, l);
        assert(0 <= m < self.spec_node_count() && self.spec_node_level(m) == l);
        assert(self.spec_node_state(m) == self.shallowest_request(m));
        if l == 1 {
            assert(self.cpu_requests_ok(c));
            assert(self.is_descendant(m, c));
            self.lemma_shallowest_upto_le(m, k, c);
        }
        if l < self.spec_max_level() {
            let p = self.spec_ancestor(c, l + 1);
            assert(0 <= p < self.spec_node_count() && self.spec_node_level(p) == l + 1);
            assert(self.spec_node_state(p) == self.shallowest_request(p));
            self.lemma_shallowest_upto_witness(m, k);
            if self.shallowest_request(m) == P::spec_off() {
                Self::lemma_depth_bounds(self.spec_node_state(p));
            } else {
                let d = choose|d: int|
                    0 <= d < k && self.is_descendant(m, d) && #[trigger] self.spec_request(m, d)
                        == self.shallowest_upto(m, k);
                assert(self.spec_ancestor(d, l) == self.spec_ancestor(c, l));
                assert(self.spec_ancestor(d, l + 1) == p);
                assert(self.is_descendant(p, d));
                self.lemma_shallowest_upto_le(p, k, d);
                assert(self.cpu_requests_ok(d));
                assert(self.spec_request(self.spec_ancestor(d, l + 1), d).spec_depth()
                    <= self.spec_request(self.spec_ancestor(d, l), d).spec_depth());
            }
        }
    }

    /// A domain with a running CPU under it is running.
    pub proof fn lemma_domain_of_running_cpu_runs(&self, n: int, c: int)
        requires
            self.inv(),
            self.is_descendant(n, c),
            self.spec_cpu_state(c) == P::spec_run(),
        ensures
            self.spec_node_state(n) == P::spec_run(),
    {
        assert(self.cpu_requests_ok(c));
        assert(self.spec_request(self.spec_ancestor(c, self.spec_node_level(n)), c) == P::spec_run());
        self.lemma_run_request_makes_run(n, c);
    }

    /// A domain all of whose CPUs request the power down state for it is powered down.
    pub proof fn lemma_domain_of_powered_down_cpus_is_off(&self, n: int)
        requires
            self.inv(),
            0 <= n < self.spec_node_count(),
            forall|d: int| #[trigger] self.is_descendant(n, d) ==> self.spec_request(n, d) == P::spec_off(),
        ensures
            self.spec_node_state(n) == P::spec_off(),
    {
        self.lemma_shallowest_upto_witness(n, self.spec_cpu_count());
    }

    /// A running CPU that moves its ancestors up to level `highest_level` towards a suspend
    /// (`before` to `suspended`, as `enter_state` does) and then starts running again
    /// (`suspended` to `after`, as `restore_running` does) leaves every state of the tree as it
    /// was.
    pub proof fn lemma_suspend_and_wake_restores(
        before: &Self,
        suspended: &Self,
        after: &Self,
        cpu: int,
        highest_level: int,
    )
        requires
            before.inv(),
            before.is_cpu(cpu),
            before.spec_cpu_state(cpu) == P::spec_run(),
            0 <= highest_level <= before.spec_max_level(),
            before.same_shape(suspended),
            forall|c: int|
                0 <= c < before.spec_cpu_count() && c != cpu ==> #[trigger] suspended.spec_cpu_state(c)
                    == before.spec_cpu_state(c),
            forall|c: int| #[trigger] suspended.spec_affinity(c) == before.spec_affinity(c),
            forall|c: int| #[trigger] suspended.spec_entry_point(c) == before.spec_entry_point(c),
            forall|n: int, c: int|
                0 <= n < suspended.spec_node_count() && suspended.is_cpu(c) && c != cpu
                    ==> #[trigger] suspended.spec_request(n, c) == before.spec_request(n, c),
            forall|n: int|
                0 <= n < suspended.spec_node_count() && !suspended.is_ancestor_up_to(cpu, n, highest_level)
                    ==> #[trigger] suspended.spec_node_state(n) == before.spec_node_state(n),
            forall|n: int|
                0 <= n < suspended.spec_node_count() && !suspended.is_ancestor_up_to(cpu, n, highest_level)
                    ==> #[trigger] suspended.spec_request(n, cpu) == before.spec_request(n, cpu),
            suspended.same_shape(after),
            after.spec_cpu_state(cpu) == P::spec_run(),
            after.requests_all_run(cpu),
            forall|l: int|
                after.is_upper_level(l) ==> #[trigger] after.spec_node_state(after.spec_ancestor(cpu, l))
                    == P::spec_run(),
            forall|c: int|
                0 <= c < suspended.spec_cpu_count() && c != cpu ==> #[trigger] after.spec_cpu_state(c)
                    == suspended.spec_cpu_state(c),
            forall|n: int, c: int|
                0 <= n < after.spec_node_count() && after.is_cpu(c) && c != cpu ==> #[trigger] after.spec_request(n, c)
                    == suspended.spec_request(n, c),
            forall|n: int|
                0 <= n < after.spec_node_count() && !after.is_ancestor_up_to(cpu, n, after.spec_max_level())
                    ==> #[trigger] after.spec_node_state(n) == suspended.spec_node_state(n),
            forall|n: int|
                0 <= n < after.spec_node_count() && !after.is_ancestor_up_to(cpu, n, after.spec_max_level())
                    ==> #[trigger] after.spec_request(n, cpu) == suspended.spec_request(n, cpu),
            forall|c: int| #[trigger] after.spec_affinity(c) == suspended.spec_affinity(c),
            forall|c: int| #[trigger] after.spec_entry_point(c) == suspended.spec_entry_point(c),
        ensures
            after.same_states(before),
    {
        let max = before.spec_max_level();
        Self::lemma_same_shape_trans(before, suspended, after);
        assert(before.cpu_requests_ok(cpu));
        assert forall|c: int| after.is_cpu(c) implies #[trigger] after.spec_cpu_state(c)
            == before.spec_cpu_state(c) by {
            if c != cpu {
                assert(suspended.spec_cpu_state(c) == before.spec_cpu_state(c));
            }
        }
        assert forall|n: int| 0 <= n < after.spec_node_count() implies #[trigger] after.spec_node_state(n)
            == before.spec_node_state(n) by {
            let lv = before.spec_node_level(n);
            assert(suspended.spec_node_level(n) == lv && after.spec_node_level(n) == lv);
            assert(1 <= lv <= max);
            assert(suspended.spec_ancestor(cpu, lv) == before.spec_ancestor(cpu, lv));
            assert(after.spec_ancestor(cpu, lv) == before.spec_ancestor(cpu, lv));
            if before.spec_ancestor(cpu, lv) == n {
                assert(after.spec_node_state(after.spec_ancestor(cpu, lv)) == P::spec_run());
                before.lemma_domain_of_running_cpu_runs(n, cpu);
            } else {
                assert(after.spec_node_state(n) == suspended.spec_node_state(n));
                assert(suspended.spec_node_state(n) == before.spec_node_state(n));
            }
        }
        assert forall|n: int, c: int| 0 <= n < after.spec_node_count() && after.is_cpu(c) implies #[trigger] after.spec_request(
            n,
            c,
        ) == before.spec_request(n, c) by {
            if c != cpu {
                assert(after.spec_request(n, c) == suspended.spec_request(n, c));
                assert(suspended.spec_request(n, c) == before.spec_request(n, c));
            } else {
                let lv = before.spec_node_level(n);
                assert(suspended.spec_node_level(n) == lv && after.spec_node_level(n) == lv);
                assert(1 <= lv <= max);
                assert(suspended.spec_ancestor(cpu, lv) == before.spec_ancestor(cpu, lv));
                assert(after.spec_ancestor(cpu, lv) == before.spec_ancestor(cpu, lv));
                if before.spec_ancestor(cpu, lv) == n {
                    assert(after.spec_request(after.spec_ancestor(cpu, lv), cpu) == P::spec_run());
                    assert(before.spec_request(before.spec_ancestor(cpu, lv), cpu) == P::spec_run());
                } else {
                    assert(suspended.spec_request(n, cpu) == before.spec_request(n, cpu));
                    assert(!after.is_ancestor_up_to(cpu, n, after.spec_max_level()));
                    assert(after.spec_request(n, cpu) == suspended.spec_request(n, cpu));
                }
            }
        }
        assert forall|c: int| after.is_cpu(c) implies #[trigger] after.spec_affinity(c) == before.spec_affinity(c) by {
            assert(suspended.spec_affinity(c) == before.spec_affinity(c));
        }
        assert forall|c: int| after.is_cpu(c) implies #[trigger] after.spec_entry_point(c) == before.spec_entry_point(c) by {
            assert(suspended.spec_entry_point(c) == before.spec_entry_point(c));
        }
    }

    /// When every CPU requests the power down state for domain `n`, the shallowest request is the
    /// power down state.
    proof fn lemma_all_off_shallowest(&self, n: int)
        requires
            forall|d: int| 0 <= d < self.spec_cpu_count() ==> #[trigger] self.spec_request(n, d) == P::spec_off(),
        ensures
            self.shallowest_request(n) == P::spec_off(),
    {
        self.lemma_shallowest_upto_witness(n, self.spec_cpu_count());
    }

    /// Returns `count` copies of `value`.
    fn filled<T: Copy>(count: usize, value: T) -> (v: Vec<T>)
        ensures
            v@ == Seq::new(count as nat, |i: int| value),
    {
        let mut v: Vec<T> = Vec::new();
        let mut i: usize = 0;
        while i < count
            invariant
                i <= count,
                v@ == Seq::new(i as nat, |k: int| value),
            decreases count - i,
        {
            v.push(value);
            i = i + 1;
            assert(v@ =~= Seq::new(i as nat, |k: int| value));
        }
        v
    }

    /// Builds the tree of the topology `topology` with the highest power level `max_level`, with
    /// every CPU and domain powered down, every request the power down state, every CPU off and
    /// no entry point set.
    ///
    /// `topology` lists the number of root domains (one) and then, in BFS order, the number of
    /// children of each non-CPU domain; the domains that it gives no count for are the CPUs.
    /// Returns `None` if it does not describe a single tree whose CPUs all lie `max_level`
    /// levels below the root, with at least one CPU, or if the tree does not fit in memory.
    pub fn new(topology: &[usize], max_level: usize) -> (tree: Option<Self>)
        ensures
            tree is Some <==> is_valid_topology(topology@, max_level as int),
            tree matches Some(t) ==> {
                &&& t.inv()
                &&& t.spec_max_level() == max_level
                &&& t.spec_node_count() == topology@.len() - 1
                &&& t.spec_cpu_count() == first_child(topology@, topology@.len() - 1) - (
                topology@.len() - 1)
                &&& forall|c: int| t.is_cpu(c) ==> is_bfs_parent(
                    topology@,
                    #[trigger] t.spec_ancestor(c, 1),
                    t.spec_node_count() + c,
                )
                &&& forall|c: int, l: int|
                    t.is_cpu(c) && 1 <= l < t.spec_max_level() ==> is_bfs_parent(
                        topology@,
                        #[trigger] t.spec_ancestor(c, l + 1),
                        t.spec_ancestor(c, l),
                    )
                &&& forall|c: int| t.is_cpu(c) ==> #[trigger] t.spec_cpu_state(c) == P::spec_off()
                &&& forall|c: int| t.is_cpu(c) ==> #[trigger] t.spec_affinity(c) == AffinityInfo::Off
                &&& forall|c: int| t.is_cpu(c) ==> #[trigger] t.spec_entry_point(c) == None::<EntryPoint>
                &&& forall|n: int| 0 <= n < t.spec_node_count() ==> #[trigger] t.spec_node_state(n) == P::spec_off()
            },
    {
        let ghost valid = is_valid_topology(topology@, max_level as int);
        let ghost assigned: spec_fn(int) -> int = choose|level: spec_fn(int) -> int|
            is_level_assignment(topology@, max_level as int, level);
        let len = topology.len();
        if len < 2 || max_level == 0 || max_level == usize::MAX || topology[0] != 1 {
            return None;
        }
        let node_count = len - 1;
        let mut parent: Vec<usize> = Vec::new();
        let mut level: Vec<usize> = Vec::new();
        parent.push(0);
        level.push(max_level);
        let mut i: usize = 0;
        while i < node_count
            invariant
                node_count == topology@.len() - 1,
                node_count >= 1,
                topology@[0] == 1,
                1 <= max_level < usize::MAX,
                valid == is_valid_topology(topology@, max_level as int),
                valid ==> is_level_assignment(topology@, max_level as int, assigned),
                i <= node_count,
                parent@.len() == level@.len(),
                parent@.len() == first_child(topology@, i as int),
                parent@[0] == 0,
                level@[0] == max_level,
                forall|k: int|
                    1 <= k < parent@.len() ==> #[trigger] parent@[k] < i && is_bfs_parent(
                        topology@,
                        parent@[k] as int,
                        k,
                    ) && level@[k] + 1 == level@[parent@[k] as int],
                forall|k: int| 0 <= k < level@.len() ==> #[trigger] level@[k] <= max_level,
                forall|k: int| 0 <= k < i ==> #[trigger] level@[k] >= 1,
                forall|j: int| 1 <= j <= i ==> #[trigger] topology@[j] >= 1,
                valid ==> forall|k: int| 0 <= k < level@.len() ==> #[trigger] level@[k] == assigned(k),
            decreases node_count - i,
        {
            if i >= parent.len() {
                proof {
                    if valid {
                        lemma_first_child_after(topology@, i as int);
                    }
                }
                return None;
            }
            let lv = level[i];
            let count = topology[i + 1];
            if lv == 0 || count == 0 {
                proof {
                    if valid {
                        assert(level@[i as int] == assigned(i as int));
                        assert(topology@[i + 1] >= 1);
                    }
                }
                return None;
            }
            let ghost start = parent@.len();
            proof {
                if valid {
                    lemma_first_child_monotone(topology@, i + 1, node_count as int);
                }
            }
            let mut j: usize = 0;
            while j < count
                invariant
                    node_count == topology@.len() - 1,
                    i < node_count,
                    i < start,
                    count == topology@[i + 1],
                    lv == level@[i as int],
                    1 <= lv <= max_level,
                    j <= count,
                    start == first_child(topology@, i as int),
                    first_child(topology@, i + 1) == start + count,
                    valid ==> is_level_assignment(topology@, max_level as int, assigned),
                    valid ==> first_child(topology@, i + 1) <= first_child(topology@, node_count as int),
                    parent@.len() == level@.len(),
                    parent@.len() == start + j,
                    parent@[0] == 0,
                    level@[0] == max_level,
                    forall|k: int|
                        1 <= k < start ==> #[trigger] parent@[k] < i && is_bfs_parent(
                            topology@,
                            parent@[k] as int,
                            k,
                        ) && level@[k] + 1 == level@[parent@[k] as int],
                    forall|k: int| start <= k < parent@.len() ==> #[trigger] parent@[k] == i && level@[k] + 1 == lv,
                    forall|k: int| 0 <= k < level@.len() ==> #[trigger] level@[k] <= max_level,
                    forall|k: int| 0 <= k < i ==> #[trigger] level@[k] >= 1,
                    valid ==> forall|k: int| 0 <= k < level@.len() ==> #[trigger] level@[k] == assigned(k),
                decreases count - j,
            {
                proof {
                    if valid {
                        let k = start + j;
                        assert(is_bfs_parent(topology@, i as int, k));
                        assert(assigned(k) == assigned(i as int) - 1);
                    }
                }
                parent.push(i);
                level.push(lv - 1);
                j = j + 1;
            }
            proof {
                assert forall|k: int|
                    1 <= k < parent@.len() implies #[trigger] parent@[k] < i + 1 && is_bfs_parent(
                        topology@,
                        parent@[k] as int,
                        k,
                    ) && level@[k] + 1 == level@[parent@[k] as int] by {
                    if k >= start {
                        assert(parent@[k] == i);
                    }
                }
            }
            i = i + 1;
        }
        let total = parent.len();
        if total <= node_count {
            proof {
                if valid {
                    lemma_first_child_after(topology@, node_count as int);
                }
            }
            return None;
        }
        let mut k: usize = node_count;
        while k < total
            invariant
                node_count <= k <= total,
                total == level@.len(),
                total == first_child(topology@, node_count as int),
                node_count == topology@.len() - 1,
                valid == is_valid_topology(topology@, max_level as int),
                valid ==> is_level_assignment(topology@, max_level as int, assigned),
                valid ==> forall|x: int| 0 <= x < level@.len() ==> #[trigger] level@[x] == assigned(x),
                forall|x: int| node_count <= x < k ==> #[trigger] level@[x] == 0,
            decreases total - k,
        {
            if level[k] != 0 {
                proof {
                    if valid {
                        assert(level@[k as int] == assigned(k as int));
                        let total_nodes = first_child(topology@, node_count as int);
                        assert(node_count <= k < total_nodes);
                        assert(forall|x: int|
                            node_count <= x < total_nodes ==> #[trigger] assigned(x) == 0);
                        assert(assigned(k as int) == 0);
                    }
                }
                return None;
            }
            k = k + 1;
        }
        let cpu_count = total - node_count;
        let request_count = match node_count.checked_mul(cpu_count) {
            Some(n) => n,
            None => return None,
        };
        proof {
            let witness = |x: int| level@[x] as int;
            assert forall|p: int, x: int|
                1 <= x < total && #[trigger] is_bfs_parent(topology@, p, x) implies witness(x) == witness(p)
                - 1 by {
                lemma_bfs_parent_unique(topology@, p, parent@[x] as int, x);
            }
            assert(is_level_assignment(topology@, max_level as int, witness));
            assert(is_valid_topology(topology@, max_level as int));
        }
        // The ancestors of each CPU, walking up through the parents.
        let mut ancestors: Vec<Vec<usize>> = Vec::new();
        let mut c: usize = 0;
        while c < cpu_count
            invariant
                cpu_count == total - node_count,
                total == parent@.len(),
                total == level@.len(),
                node_count >= 1,
                1 <= max_level < usize::MAX,
                c <= cpu_count,
                ancestors@.len() == c,
                parent@[0] == 0,
                level@[0] == max_level,
                forall|x: int|
                    1 <= x < total ==> #[trigger] parent@[x] < node_count && level@[x] + 1 == level@[parent@[x] as int],
                forall|x: int| node_count <= x < total ==> #[trigger] level@[x] == 0,
                forall|x: int| 0 <= x < total ==> #[trigger] level@[x] <= max_level,
                forall|d: int| 0 <= d < c ==> #[trigger] ancestors@[d]@.len() == max_level,
                forall|d: int, l: int|
                    0 <= d < c && 1 <= l <= max_level ==> {
                        &&& (#[trigger] ancestors@[d]@[l - 1] as int) < node_count
                        &&& level@[ancestors@[d]@[l - 1] as int] == l
                        &&& ancestors@[d]@[l - 1] == if l == 1 {
                            parent@[node_count + d]
                        } else {
                            parent@[ancestors@[d]@[l - 2] as int]
                        }
                    },
            decreases cpu_count - c,
        {
            let mut row: Vec<usize> = Vec::new();
            let mut node = node_count + c;
            let mut l: usize = 1;
            while l <= max_level
                invariant
                    total == parent@.len(),
                    total == level@.len(),
                    node_count >= 1,
                    1 <= max_level < usize::MAX,
                    c < cpu_count,
                    cpu_count == total - node_count,
                    1 <= l <= max_level + 1,
                    row@.len() == l - 1,
                    0 <= node < total,
                    level@[node as int] == l - 1,
                    l == 1 ==> node == node_count + c,
                    l > 1 ==> node == row@[l - 2],
                    parent@[0] == 0,
                    level@[0] == max_level,
                    forall|x: int|
                        1 <= x < total ==> #[trigger] parent@[x] < node_count && level@[x] + 1 == level@[parent@[x] as int],
                    forall|x: int| 0 <= x < total ==> #[trigger] level@[x] <= max_level,
                    forall|lv: int|
                        1 <= lv < l ==> {
                            &&& (#[trigger] row@[lv - 1] as int) < node_count
                            &&& level@[row@[lv - 1] as int] == lv
                            &&& row@[lv - 1] == if lv == 1 {
                                parent@[node_count + c]
                            } else {
                                parent@[row@[lv - 2] as int]
                            }
                        },
                decreases max_level + 1 - l,
            {
                proof {
                    if node == 0 {
                        assert(level@[0] == max_level);
                    }
                }
                node = parent[node];
                row.push(node);
                l = l + 1;
            }
            ancestors.push(row);
            proof {
                assert forall|d: int| 0 <= d < c + 1 implies #[trigger] ancestors@[d]@.len() == max_level by {
                    if d == c {
                        assert(ancestors@[d]@ == row@);
                    }
                }
                assert forall|d: int, l2: int|
                    0 <= d < c + 1 && 1 <= l2 <= max_level implies {
                        &&& (#[trigger] ancestors@[d]@[l2 - 1] as int) < node_count
                        &&& level@[ancestors@[d]@[l2 - 1] as int] == l2
                        &&& ancestors@[d]@[l2 - 1] == if l2 == 1 {
                            parent@[node_count + d]
                        } else {
                            parent@[ancestors@[d]@[l2 - 2] as int]
                        }
                    } by {
                    if d == c {
                        assert(ancestors@[d]@ == row@);
                        let _ = row@[l2 - 1];
                    }
                }
            }
            c = c + 1;
        }
        let mut node_level: Vec<usize> = Vec::new();
        let mut n: usize = 0;
        while n < node_count
            invariant
                node_count < total,
                total == level@.len(),
                n <= node_count,
                node_level@ == level@.subrange(0, n as int),
            decreases node_count - n,
        {
            node_level.push(level[n]);
            n = n + 1;
            assert(node_level@ =~= level@.subrange(0, n as int));
        }
        let off = P::off();
        let tree = PowerDomainTree {
            max_level,
            cpu_count,
            ancestors,
            node_level,
            node_state: Self::filled(node_count, off),
            requested: Self::filled(request_count, off),
            cpu_state: Self::filled(cpu_count, off),
            affinity: Self::filled(cpu_count, AffinityInfo::Off),
            entry_point: Self::filled(cpu_count, None),
        };
        proof {
            Self::lemma_depth_bounds(off);
            assert(tree.layout_ok());
            assert forall|n2: int| 0 <= n2 < tree.spec_node_count() implies 1 <= #[trigger] tree.spec_node_level(n2)
                <= tree.spec_max_level() by {
                assert(level@[n2] >= 1);
            }
            assert forall|c2: int, l2: int| tree.is_cpu(c2) && tree.is_upper_level(l2) implies {
                &&& 0 <= #[trigger] tree.spec_ancestor(c2, l2) < tree.spec_node_count()
                &&& tree.spec_node_level(tree.spec_ancestor(c2, l2)) == l2
            } by {
                assert(ancestors@[c2]@.len() == max_level);
            }
            assert forall|c2: int, d: int, l2: int|
                tree.is_cpu(c2) && tree.is_cpu(d) && 1 <= l2 < tree.spec_max_level() && #[trigger] tree.spec_ancestor(c2, l2)
                    == #[trigger] tree.spec_ancestor(d, l2) implies tree.spec_ancestor(c2, l2 + 1)
                == tree.spec_ancestor(d, l2 + 1) by {
                assert(ancestors@[c2]@.len() == max_level);
                assert(ancestors@[d]@.len() == max_level);
                let l3 = l2 + 1;
                let _ = ancestors@[c2]@[l3 - 1];
                let _ = ancestors@[d]@[l3 - 1];
                assert(ancestors@[c2]@[l3 - 1] == parent@[ancestors@[c2]@[l3 - 2] as int]);
                assert(ancestors@[d]@[l3 - 1] == parent@[ancestors@[d]@[l3 - 2] as int]);
            }
            assert(tree.wf());
            assert forall|n2: int| 0 <= n2 < tree.spec_node_count() implies #[trigger] tree.spec_node_state(n2)
                == tree.shallowest_request(n2) by {
                assert forall|d: int| 0 <= d < tree.spec_cpu_count() implies #[trigger] tree.spec_request(n2, d)
                    == P::spec_off() by {
                    lemma_table_index(n2, cpu_count as int, d, node_count as int);
                }
                tree.lemma_all_off_shallowest(n2);
            }
            assert forall|c2: int| tree.is_cpu(c2) implies #[trigger] tree.cpu_requests_ok(c2) by {
                assert forall|l2: int| 1 <= l2 <= max_level implies #[trigger] tree.spec_request(
                    tree.spec_ancestor(c2, l2),
                    c2,
                ) == P::spec_off() by {
                    assert(ancestors@[c2]@.len() == max_level);
                    lemma_table_index(tree.spec_ancestor(c2, l2), cpu_count as int, c2, node_count as int);
                }
                assert(tree.spec_request(tree.spec_ancestor(c2, 1), c2) == P::spec_off());
            }
            assert forall|c2: int| tree.is_cpu(c2) implies is_bfs_parent(
                topology@,
                #[trigger] tree.spec_ancestor(c2, 1),
                tree.spec_node_count() + c2,
            ) by {
                assert(ancestors@[c2]@.len() == max_level);
            }
            assert forall|c2: int, l2: int| tree.is_cpu(c2) && 1 <= l2 < tree.spec_max_level() implies is_bfs_parent(
                topology@,
                #[trigger] tree.spec_ancestor(c2, l2 + 1),
                tree.spec_ancestor(c2, l2),
            ) by {
                assert(ancestors@[c2]@.len() == max_level);
            }
        }
        Some(tree)
    }
}

} // verus!
