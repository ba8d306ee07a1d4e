//! Calibration engine: the fit targets, the candidate gate, and the
//! cost that scores a simulated trajectory against measured points.
//!
//! The derivative-free optimizer proposes scalar candidates; this module
//! decides each one.  A negative candidate is rejected with a fixed
//! penalty before any integration; a nonnegative one yields the
//! parameter set to integrate, and the resulting trajectory is scored by
//! summing, over every selected measured point and every sample within
//! the time tolerance, the absolute difference of the squares of the
//! simulated and measured values.

use vstd::prelude::*;
use vstd::string::StringExecFns;
use crate::fixed::{SCALE, fits, mul_val, div_val, abs_val, fx_add, fx_sub, fx_mul, fx_div};
use crate::model::{Bioreactor, State, HUNDRED, spec_do_pct};
use crate::tree::{Tree, ParentNode, Node};
use crate::integrator::Sample;

verus! {

/// Cost returned for a candidate outside the physical domain.
pub const PENALTY_COST: i64 = 100_000 * SCALE;

/// The measured quantities the store groups points under.
#[derive(Clone, Copy, PartialEq, Eq, Structural, Debug)]
pub enum Group {
    VCD,
    Glucose,
    Glutamin,
    DO,
    Product,
}

/// The display name of a group, also its key in the store.
pub open spec fn spec_label(g: Group) -> Seq<char> {
    match g {
        Group::VCD => "VCD"@,
        Group::Glucose => "Glucose"@,
        Group::Glutamin => "Glutamin"@,
        Group::DO => "DO"@,
        Group::Product => "Product"@,
    }
}

impl Group {
    /// The display name of the group.
    pub fn label(&self) -> (r: String)
        ensures
            r@ == spec_label(*self),
    {
        match self {
            Group::VCD => String::from_str("VCD"),
            Group::Glucose => String::from_str("Glucose"),
            Group::Glutamin => String::from_str("Glutamin"),
            Group::DO => String::from_str("DO"),
            Group::Product => String::from_str("Product"),
        }
    }
}

/// The scalar knobs calibration may tune; each maps to exactly one
/// parameter field.
#[derive(Clone, Copy, PartialEq, Eq, Structural, Debug)]
pub enum Target {
    MuMax,
    NVcd,
    FeedRate,
    Glucose,
    Glutamin,
    Product,
}

/// What the cost scores: a single named group, or every group together.
#[derive(Clone, Copy, PartialEq, Eq, Structural, Debug)]
pub enum Mode {
    Single(Group),
    Mixed,
}

/// A calibration request: which knob to tune and what to score.
#[derive(Clone, Copy, PartialEq, Eq, Structural, Debug)]
pub struct Param {
    pub target: Target,
    pub mode: Mode,
}

impl Param {
    /// The default request: tune the maximum growth rate against every
    /// group.
    pub fn default() -> (r: Param)
        ensures
            r == (Param { target: Target::MuMax, mode: Mode::Mixed }),
    {
        Param { target: Target::MuMax, mode: Mode::Mixed }
    }
}

/// The parameter set a candidate value yields: the base set with exactly
/// the targeted field replaced.  The mapping is exhaustive over the
/// targets and each target touches a distinct field.
pub open spec fn spec_update(p: Bioreactor, param: Param, v: i64) -> Bioreactor {
    match param.target {
        Target::MuMax => Bioreactor { mu: v, ..p },
        Target::NVcd => Bioreactor { n_vcd: v, ..p },
        Target::FeedRate => Bioreactor { fi_v: v, ..p },
        Target::Glucose => Bioreactor { k_gluc: v, ..p },
        Target::Glutamin => Bioreactor { k_glut: v, ..p },
        Target::Product => Bioreactor { k_product: v, ..p },
    }
}

impl Bioreactor {
    /// Replace the one field the request's target selects.
    pub fn update(&mut self, param: &Param, v: i64)
        ensures
            *final(self) == spec_update(*old(self), *param, v),
    {
        match param.target {
            Target::MuMax => {
                self.mu = v;
            },
            Target::NVcd => {
                self.n_vcd = v;
            },
            Target::FeedRate => {
                self.fi_v = v;
            },
            Target::Glucose => {
                self.k_gluc = v;
            },
            Target::Glutamin => {
                self.k_glut = v;
            },
            Target::Product => {
                self.k_product = v;
            },
        }
    }
}

/// One measured point tagged with its group, ready for scoring.
#[derive(Clone, Copy, PartialEq, Eq, Structural, Debug)]
pub struct RegressorNode {
    pub group: Group,
    pub x: i64,
    pub y: i64,
}

impl RegressorNode {
    /// Tag a coordinate pair with its group.
    fn new(group: Group, x: i64, y: i64) -> (r: RegressorNode)
        ensures
            r == (RegressorNode { group, x, y }),
    {
        RegressorNode { group, x, y }
    }
}

/// The group a store name denotes, if any.
pub open spec fn spec_group_of_name(name: Seq<char>) -> Option<Group> {
    if name == "VCD"@ {
        Some(Group::VCD)
    } else if name == "Glucose"@ {
        Some(Group::Glucose)
    } else if name == "Glutamin"@ {
        Some(Group::Glutamin)
    } else if name == "DO"@ {
        Some(Group::DO)
    } else if name == "Product"@ {
        Some(Group::Product)
    } else {
        None
    }
}

/// The tagged points one store group contributes.
pub open spec fn spec_group_nodes(pn: ParentNode) -> Seq<RegressorNode> {
    match spec_group_of_name(pn.name@) {
        Some(g) => pn.children@.map_values(|n: Node| RegressorNode { group: g, x: n.x, y: n.y }),
        None => Seq::<RegressorNode>::empty(),
    }
}

/// Every tagged point a store contributes, group by group in store order.
pub open spec fn spec_node_pool(s: Seq<ParentNode>) -> Seq<RegressorNode>
    decreases s.len(),
{
    if s.len() == 0 {
        Seq::<RegressorNode>::empty()
    } else {
        spec_group_nodes(s[0]) + spec_node_pool(s.drop_first())
    }
}

/// Appending one group to a store appends its contribution to the pool.
proof fn lemma_node_pool_push(s: Seq<ParentNode>, e: ParentNode)
    ensures
        spec_node_pool(s.push(e)) == spec_node_pool(s) + spec_group_nodes(e),
    decreases s.len(),
{
    if s.len() == 0 {
        assert(s.push(e)[0] == e);
        assert(s.push(e).drop_first() =~= Seq::<ParentNode>::empty());
        assert(spec_node_pool(s.push(e)) == spec_group_nodes(e) + spec_node_pool(
            Seq::<ParentNode>::empty(),
        ));
        assert(spec_group_nodes(e) + Seq::<RegressorNode>::empty() =~= spec_group_nodes(e));
        assert(spec_node_pool(s) + spec_group_nodes(e) =~= spec_group_nodes(e));
    } else {
        assert(s.push(e).drop_first() =~= s.drop_first().push(e));
        lemma_node_pool_push(s.drop_first(), e);
        assert(spec_node_pool(s.push(e)) =~= spec_node_pool(s) + spec_group_nodes(e));
    }
}

/// Descending order by time coordinate.
pub open spec fn spec_sorted_desc(s: Seq<RegressorNode>) -> bool {
    forall|i: int, j: int| 0 <= i < j < s.len() ==> (#[trigger] s[i]).x >= (#[trigger] s[j]).x
}

/// Inserting an element anywhere adds exactly that element to the
/// sequence's multiset.
proof fn lemma_insert_multiset(s: Seq<RegressorNode>, pos: int, e: RegressorNode)
    requires
        0 <= pos <= s.len(),
    ensures
        s.insert(pos, e).to_multiset() =~= s.to_multiset().insert(e),
    decreases s.len() - pos,
{
    broadcast use vstd::seq_lib::group_seq_lib_default;

    if pos == s.len() {
        assert(s.insert(pos, e) =~= s.push(e));
        s.to_multiset_ensures();
    } else {
        let s2 = s.remove(s.len() - 1);
        let last = s.last();
        lemma_insert_multiset(s2, pos, e);
        assert(s.insert(pos, e) =~= s2.insert(pos, e).push(last));
        assert(s2.push(last) =~= s);
        s2.to_multiset_ensures();
        s2.insert(pos, e).to_multiset_ensures();
        assert(s2.push(last).to_multiset() =~= s2.to_multiset().insert(last));
        assert(s2.insert(pos, e).push(last).to_multiset() =~= s2.insert(pos, e).to_multiset().insert(
            last,
        ));
    }
}

/// Insert a tagged point before the first strictly smaller time
/// coordinate, keeping the buffer sorted in descending order.
fn insert_sorted(out: &mut Vec<RegressorNode>, e: RegressorNode)
    requires
        spec_sorted_desc(old(out)@),
    ensures
        spec_sorted_desc(final(out)@),
        final(out)@.to_multiset() == old(out)@.to_multiset().insert(e),
{
    let n = out.len();
    let mut pos: usize = 0;
    while pos < n && out[pos].x >= e.x
        invariant
            n == out@.len(),
            0 <= pos <= n,
            *out == *old(out),
            forall|j: int| 0 <= j < pos ==> (#[trigger] out@[j]).x >= e.x,
        decreases n - pos,
    {
        pos = pos + 1;
    }
    proof {
        lemma_insert_multiset(out@, pos as int, e);
        out@.insert_ensures(pos as int, e);
    }
    let ghost prev = out@;
    out.insert(pos, e);
    proof {
        assert forall|a: int, b: int| 0 <= a < b < out@.len() implies (#[trigger] out@[a]).x
            >= (#[trigger] out@[b]).x by {
            let p = pos as int;
            if a < p && b < p {
                assert(out@[a] == prev[a] && out@[b] == prev[b]);
            } else if a < p && b == p {
                assert(out@[a] == prev[a]);
            } else if a < p && b > p {
                assert(out@[a] == prev[a] && out@[b] == prev[b - 1]);
                assert(prev[a].x >= e.x);
                assert(p < prev.len());
                assert(prev[p].x < e.x);
                if b - 1 > p {
                    assert(prev[p].x >= prev[b - 1].x);
                }
            } else if a == p {
                assert(out@[b] == prev[b - 1]);
                assert(p < prev.len());
                assert(prev[p].x < e.x);
                if b - 1 > p {
                    assert(prev[p].x >= prev[b - 1].x);
                }
            } else {
                assert(out@[a] == prev[a - 1] && out@[b] == prev[b - 1]);
            }
        }
    }
}

/// Flatten a store into tagged points, most recent time first: every
/// point of every group whose name denotes a measured quantity, sorted
/// in descending time order.
pub fn translate(tree: Tree) -> (r: Vec<RegressorNode>)
    ensures
        spec_sorted_desc(r@),
        r@.to_multiset() == spec_node_pool(tree.nodes@).to_multiset(),
{
    let mut out: Vec<RegressorNode> = Vec::new();
    let labels = [
        Group::VCD.label(),
        Group::Glucose.label(),
        Group::Glutamin.label(),
        Group::DO.label(),
        Group::Product.label(),
    ];
    let n = tree.nodes.len();
    let mut i: usize = 0;
    proof {
        broadcast use vstd::seq_lib::group_to_multiset_ensures;

        assert(tree.nodes@.take(0) =~= Seq::<ParentNode>::empty());
    }
    while i < n
        invariant
            n == tree.nodes@.len(),
            0 <= i <= n,
            spec_sorted_desc(out@),
            out@.to_multiset() == spec_node_pool(tree.nodes@.take(i as int)).to_multiset(),
            labels@[0]@ == "VCD"@,
            labels@[1]@ == "Glucose"@,
            labels@[2]@ == "Glutamin"@,
            labels@[3]@ == "DO"@,
            labels@[4]@ == "Product"@,
        decreases n - i,
    {
        let pn = &tree.nodes[i];
        let g: Option<Group> = if pn.name == labels[0] {
            Some(Group::VCD)
        } else if pn.name == labels[1] {
            Some(Group::Glucose)
        } else if pn.name == labels[2] {
            Some(Group::Glutamin)
        } else if pn.name == labels[3] {
            Some(Group::DO)
        } else if pn.name == labels[4] {
            Some(Group::Product)
        } else {
            None
        };
        proof {
            assert(g == spec_group_of_name(pn.name@));
        }
        match g {
            Some(gv) => {
                let m = pn.children.len();
                let mut j: usize = 0;
                proof {
                    broadcast use vstd::seq_lib::group_to_multiset_ensures;

                    assert(pn.children@.take(0).map_values(
                        |nd: Node| RegressorNode { group: gv, x: nd.x, y: nd.y },
                    ) =~= Seq::<RegressorNode>::empty());
                }
                while j < m
                    invariant
                        m == pn.children@.len(),
                        0 <= j <= m,
                        spec_sorted_desc(out@),
                        out@.to_multiset() == spec_node_pool(tree.nodes@.take(i as int)).to_multiset().add(
                            pn.children@.take(j as int).map_values(
                                |nd: Node| RegressorNode { group: gv, x: nd.x, y: nd.y },
                            ).to_multiset(),
                        ),
                    decreases m - j,
                {
                    let nd = &pn.children[j];
                    insert_sorted(&mut out, RegressorNode::new(gv, nd.x, nd.y));
                    proof {
                        broadcast use vstd::seq_lib::group_to_multiset_ensures;

                        let f = |nd2: Node| RegressorNode { group: gv, x: nd2.x, y: nd2.y };
                        assert(pn.children@.take(j + 1).map_values(f) =~= pn.children@.take(
                            j as int,
                        ).map_values(f).push(f(pn.children@[j as int])));
                    }
                    j = j + 1;
                }
                proof {
                    broadcast use vstd::seq_lib::group_to_multiset_ensures;

                    let f = |nd2: Node| RegressorNode { group: gv, x: nd2.x, y: nd2.y };
                    assert(pn.children@.take(m as int) =~= pn.children@);
                    assert(spec_group_nodes(tree.nodes@[i as int]) == pn.children@.map_values(f));
                    lemma_node_pool_push(tree.nodes@.take(i as int), tree.nodes@[i as int]);
                    assert(tree.nodes@.take(i + 1) =~= tree.nodes@.take(i as int).push(
                        tree.nodes@[i as int],
                    ));
                    vstd::seq_lib::lemma_multiset_commutative(
                        spec_node_pool(tree.nodes@.take(i as int)),
                        spec_group_nodes(tree.nodes@[i as int]),
                    );
                }
            },
            None => {
                proof {
                    lemma_node_pool_push(tree.nodes@.take(i as int), tree.nodes@[i as int]);
                    assert(tree.nodes@.take(i + 1) =~= tree.nodes@.take(i as int).push(
                        tree.nodes@[i as int],
                    ));
                    assert(spec_group_nodes(tree.nodes@[i as int]) =~= Seq::<RegressorNode>::empty());
                    assert(spec_node_pool(tree.nodes@.take(i + 1)) =~= spec_node_pool(
                        tree.nodes@.take(i as int),
                    ));
                }
            },
        }
        i = i + 1;
    }
    proof {
        assert(tree.nodes@.take(n as int) =~= tree.nodes@);
    }
    out
}

/// Whether the scoring mode selects a group.
pub open spec fn spec_selected(mode: Mode, g: Group) -> bool {
    match mode {
        Mode::Mixed => true,
        Mode::Single(s) => g == s,
    }
}

/// Whether a sample lies within the time tolerance of a measured point.
pub open spec fn spec_matches(nd: RegressorNode, s: Sample, eps: int) -> bool {
    abs_val(nd.x - s.t) <= eps
}

/// The simulated value a group's points compare against: its state
/// channel, with dissolved oxygen read as a percentage of saturation.
pub open spec fn spec_channel_val(p: Bioreactor, g: Group, y: State) -> int {
    match g {
        Group::VCD => y.vcd as int,
        Group::Glucose => y.gluc as int,
        Group::Glutamin => y.glut as int,
        Group::DO => spec_do_pct(p, y.c_O2 as int),
        Group::Product => y.product as int,
    }
}

/// Whether the channel read is representable.
pub open spec fn spec_channel_ok(p: Bioreactor, g: Group, y: State) -> bool {
    match g {
        Group::DO => {
            &&& p.c_O2_SAT != 0
            &&& fits(div_val(y.c_O2 as int, p.c_O2_SAT as int))
            &&& fits(spec_do_pct(p, y.c_O2 as int))
        },
        _ => true,
    }
}

/// One pair's cost contribution: the absolute difference of the squares
/// of simulated and measured value when the point is selected and the
/// sample within tolerance, zero otherwise.
pub open spec fn spec_term_val(p: Bioreactor, mode: Mode, nd: RegressorNode, s: Sample, eps: int) -> int {
    if spec_selected(mode, nd.group) && spec_matches(nd, s, eps) {
        let cv = spec_channel_val(p, nd.group, s.y);
        abs_val(mul_val(cv, cv) - mul_val(nd.y as int, nd.y as int))
    } else {
        0
    }
}

/// Whether one pair's contribution is representable.
pub open spec fn spec_term_ok(p: Bioreactor, mode: Mode, nd: RegressorNode, s: Sample, eps: int) -> bool {
    spec_selected(mode, nd.group) && spec_matches(nd, s, eps) ==> {
        let cv = spec_channel_val(p, nd.group, s.y);
        &&& spec_channel_ok(p, nd.group, s.y)
        &&& fits(mul_val(cv, cv))
        &&& fits(mul_val(nd.y as int, nd.y as int))
        &&& fits(mul_val(cv, cv) - mul_val(nd.y as int, nd.y as int))
        &&& fits(abs_val(mul_val(cv, cv) - mul_val(nd.y as int, nd.y as int)))
    }
}

/// One point's contributions summed over a sample sequence.
pub open spec fn spec_point_sum(p: Bioreactor, mode: Mode, nd: RegressorNode, samples: Seq<Sample>, eps: int) -> int
    decreases samples.len(),
{
    if samples.len() == 0 {
        0
    } else {
        spec_term_val(p, mode, nd, samples[0], eps) + spec_point_sum(p, mode, nd, samples.drop_first(), eps)
    }
}

/// The whole cost: every point's contribution over every sample.
pub open spec fn spec_total(p: Bioreactor, mode: Mode, nodes: Seq<RegressorNode>, samples: Seq<Sample>, eps: int) -> int
    decreases nodes.len(),
{
    if nodes.len() == 0 {
        0
    } else {
        spec_point_sum(p, mode, nodes[0], samples, eps) + spec_total(p, mode, nodes.drop_first(), samples, eps)
    }
}

/// Whether every pair's contribution is representable.
pub open spec fn spec_all_ok(p: Bioreactor, mode: Mode, nodes: Seq<RegressorNode>, samples: Seq<Sample>, eps: int) -> bool {
    forall|i: int, j: int| #![trigger nodes[i], samples[j]]
        0 <= i < nodes.len() && 0 <= j < samples.len() ==> spec_term_ok(p, mode, nodes[i], samples[j], eps)
}

/// A pair's contribution is never negative.
proof fn lemma_term_nonneg(p: Bioreactor, mode: Mode, nd: RegressorNode, s: Sample, eps: int)
    ensures
        spec_term_val(p, mode, nd, s, eps) >= 0,
{
}

/// A point's summed contribution is never negative.
proof fn lemma_point_sum_nonneg(p: Bioreactor, mode: Mode, nd: RegressorNode, samples: Seq<Sample>, eps: int)
    ensures
        spec_point_sum(p, mode, nd, samples, eps) >= 0,
    decreases samples.len(),
{
    if samples.len() > 0 {
        lemma_point_sum_nonneg(p, mode, nd, samples.drop_first(), eps);
    }
}

/// The whole cost is never negative.
proof fn lemma_total_nonneg(p: Bioreactor, mode: Mode, nodes: Seq<RegressorNode>, samples: Seq<Sample>, eps: int)
    ensures
        spec_total(p, mode, nodes, samples, eps) >= 0,
    decreases nodes.len(),
{
    if nodes.len() > 0 {
        lemma_point_sum_nonneg(p, mode, nodes[0], samples, eps);
        lemma_total_nonneg(p, mode, nodes.drop_first(), samples, eps);
    }
}

/// One more sample adds exactly its contribution to a point's sum.
proof fn lemma_point_sum_push(p: Bioreactor, mode: Mode, nd: RegressorNode, samples: Seq<Sample>, s: Sample, eps: int)
    ensures
        spec_point_sum(p, mode, nd, samples.push(s), eps) == spec_point_sum(p, mode, nd, samples, eps)
            + spec_term_val(p, mode, nd, s, eps),
    decreases samples.len(),
{
    let pushed = samples.push(s);
    assert(pushed.len() == samples.len() + 1);
    assert(spec_point_sum(p, mode, nd, pushed, eps) == spec_term_val(p, mode, nd, pushed[0], eps)
        + spec_point_sum(p, mode, nd, pushed.drop_first(), eps));
    if samples.len() == 0 {
        assert(pushed[0] == s);
        assert(pushed.drop_first() =~= Seq::<Sample>::empty());
        assert(spec_point_sum(p, mode, nd, pushed.drop_first(), eps) == 0);
        assert(spec_point_sum(p, mode, nd, samples, eps) == 0);
    } else {
        assert(pushed[0] == samples[0]);
        assert(pushed.drop_first() =~= samples.drop_first().push(s));
        lemma_point_sum_push(p, mode, nd, samples.drop_first(), s, eps);
        assert(spec_point_sum(p, mode, nd, samples, eps) == spec_term_val(p, mode, nd, samples[0], eps)
            + spec_point_sum(p, mode, nd, samples.drop_first(), eps));
    }
}

/// One more point adds exactly its sum to the whole cost.
proof fn lemma_total_push(p: Bioreactor, mode: Mode, nodes: Seq<RegressorNode>, nd: RegressorNode, samples: Seq<Sample>, eps: int)
    ensures
        spec_total(p, mode, nodes.push(nd), samples, eps) == spec_total(p, mode, nodes, samples, eps)
            + spec_point_sum(p, mode, nd, samples, eps),
    decreases nodes.len(),
{
    let pushed = nodes.push(nd);
    assert(pushed.len() == nodes.len() + 1);
    assert(spec_total(p, mode, pushed, samples, eps) == spec_point_sum(p, mode, pushed[0], samples, eps)
        + spec_total(p, mode, pushed.drop_first(), samples, eps));
    if nodes.len() == 0 {
        assert(pushed[0] == nd);
        assert(pushed.drop_first() =~= Seq::<RegressorNode>::empty());
        assert(spec_total(p, mode, pushed.drop_first(), samples, eps) == 0);
        assert(spec_total(p, mode, nodes, samples, eps) == 0);
    } else {
        assert(pushed[0] == nodes[0]);
        assert(pushed.drop_first() =~= nodes.drop_first().push(nd));
        lemma_total_push(p, mode, nodes.drop_first(), nd, samples, eps);
        assert(spec_total(p, mode, nodes, samples, eps) == spec_point_sum(p, mode, nodes[0], samples, eps)
            + spec_total(p, mode, nodes.drop_first(), samples, eps));
    }
}

/// The whole cost dominates any partial accumulation: the sum over the
/// first `ni` points, plus one unfinished point's sum over the first
/// `si` samples, plus that point's term at `si` itself.
proof fn lemma_partial_le_total(
    p: Bioreactor,
    mode: Mode,
    nodes: Seq<RegressorNode>,
    samples: Seq<Sample>,
    eps: int,
    ni: int,
    si: int,
)
    requires
        0 <= ni < nodes.len(),
        0 <= si < samples.len(),
    ensures
        spec_total(p, mode, nodes.take(ni), samples, eps) + spec_point_sum(
            p,
            mode,
            nodes[ni],
            samples.take(si),
            eps,
        ) + spec_term_val(p, mode, nodes[ni], samples[si], eps) <= spec_total(p, mode, nodes, samples, eps),
    decreases ni,
{
    if ni == 0 {
        assert(nodes.take(0) =~= Seq::<RegressorNode>::empty());
        lemma_point_sum_partial_le(p, mode, nodes[0], samples, eps, si);
        lemma_total_nonneg(p, mode, nodes.drop_first(), samples, eps);
    } else {
        lemma_partial_le_total(p, mode, nodes.drop_first(), samples, eps, ni - 1, si);
        assert(nodes.take(ni).drop_first() =~= nodes.drop_first().take(ni - 1));
        assert(nodes.take(ni)[0] == nodes[0]);
        assert(nodes.drop_first()[ni - 1] == nodes[ni]);
    }
}

/// A point's sum over a prefix, plus its term at the next sample, never
/// exceeds its sum over all samples.
proof fn lemma_point_sum_partial_le(
    p: Bioreactor,
    mode: Mode,
    nd: RegressorNode,
    samples: Seq<Sample>,
    eps: int,
    si: int,
)
    requires
        0 <= si < samples.len(),
    ensures
        spec_point_sum(p, mode, nd, samples.take(si), eps) + spec_term_val(p, mode, nd, samples[si], eps)
            <= spec_point_sum(p, mode, nd, samples, eps),
    decreases si,
{
    if si == 0 {
        assert(samples.take(0) =~= Seq::<Sample>::empty());
        lemma_point_sum_nonneg(p, mode, nd, samples.drop_first(), eps);
    } else {
        lemma_point_sum_partial_le(p, mode, nd, samples.drop_first(), eps, si - 1);
        assert(samples.take(si).drop_first() =~= samples.drop_first().take(si - 1));
        assert(samples.take(si)[0] == samples[0]);
        assert(samples.drop_first()[si - 1] == samples[si]);
        lemma_term_nonneg(p, mode, nd, samples[0], eps);
    }
}

/// The outcome of gating one optimizer candidate.
#[derive(Clone, Copy, PartialEq, Eq, Structural, Debug)]
pub enum CandidateOutcome {
    /// The candidate lies outside the physical domain: this fixed cost
    /// is the answer and no integration happens.
    Penalty(i64),
    /// The parameter set to integrate for this candidate.
    Simulate(Bioreactor),
}

/// The calibration cost function's data: the measured points, the base
/// parameter set, the request, and the time tolerance for matching a
/// sample to a point.
#[derive(Clone, Debug)]
pub struct Regressor {
    pub nodes: Vec<RegressorNode>,
    pub simulation: Bioreactor,
    pub param: Param,
    pub epsilon: i64,
}

impl Regressor {
    /// An empty engine over the default parameters.
    pub fn default() -> (r: Regressor)
        ensures
            r.nodes@ == Seq::<RegressorNode>::empty(),
            r.simulation == crate::model::spec_default(),
            r.param == (Param { target: Target::MuMax, mode: Mode::Mixed }),
            r.epsilon == 1_000_000_000,
    {
        Regressor {
            nodes: Vec::new(),
            simulation: Bioreactor::default(),
            epsilon: 1_000_000_000,
            param: Param::default(),
        }
    }

    /// Gate one candidate before any integration: a negative value is
    /// answered with the fixed penalty cost and the integrator is never
    /// invoked; a nonnegative one yields the parameter set to integrate,
    /// the base set with exactly the targeted field replaced.
    pub fn evaluate_candidate(&self, val: i64) -> (r: CandidateOutcome)
        ensures
            r == (if val < 0 {
                CandidateOutcome::Penalty(PENALTY_COST)
            } else {
                CandidateOutcome::Simulate(spec_update(self.simulation, self.param, val))
            }),
    {
        if val < 0 {
            CandidateOutcome::Penalty(PENALTY_COST)
        } else {
            let mut sim = self.simulation;
            sim.update(&self.param, val);
            CandidateOutcome::Simulate(sim)
        }
    }

    /// Score a trajectory: sum `|simulated² - measured²|` over every
    /// selected point and every sample within the time tolerance.  `None`
    /// exactly when some contribution or the sum is unrepresentable.
    pub fn score(&self, samples: &Vec<Sample>) -> (r: Option<i64>)
        ensures
            r == (if spec_all_ok(self.simulation, self.param.mode, self.nodes@, samples@, self.epsilon as int)
                && fits(spec_total(self.simulation, self.param.mode, self.nodes@, samples@, self.epsilon as int)) {
                Some(spec_total(self.simulation, self.param.mode, self.nodes@, samples@, self.epsilon as int) as i64)
            } else {
                None::<i64>
            }),
    {
        let ghost p = self.simulation;
        let ghost mode = self.param.mode;
        let ghost eps = self.epsilon as int;
        let mut running: i64 = 0;
        let n = self.nodes.len();
        let m = samples.len();
        let mut ni: usize = 0;
        proof {
            assert(self.nodes@.take(0) =~= Seq::<RegressorNode>::empty());
        }
        while ni < n
            invariant
                n == self.nodes@.len(),
                m == samples@.len(),
                0 <= ni <= n,
                p == self.simulation,
                mode == self.param.mode,
                eps == self.epsilon as int,
                0 <= running,
                running == spec_total(p, mode, self.nodes@.take(ni as int), samples@, eps),
                forall|i: int, j: int| #![trigger self.nodes@[i], samples@[j]]
                    0 <= i < ni && 0 <= j < m ==> spec_term_ok(p, mode, self.nodes@[i], samples@[j], eps),
            decreases n - ni,
        {
            let nd = self.nodes[ni];
            let mut si: usize = 0;
            proof {
                assert(samples@.take(0) =~= Seq::<Sample>::empty());
            }
            while si < m
                invariant
                    n == self.nodes@.len(),
                    m == samples@.len(),
                    0 <= ni < n,
                    0 <= si <= m,
                    p == self.simulation,
                    mode == self.param.mode,
                    eps == self.epsilon as int,
                    nd == self.nodes@[ni as int],
                    0 <= running,
                    running == spec_total(p, mode, self.nodes@.take(ni as int), samples@, eps)
                        + spec_point_sum(p, mode, nd, samples@.take(si as int), eps),
                    spec_total(p, mode, self.nodes@.take(ni as int), samples@, eps) >= 0,
                    spec_point_sum(p, mode, nd, samples@.take(si as int), eps) >= 0,
                    forall|i: int, j: int| #![trigger self.nodes@[i], samples@[j]]
                        0 <= i < ni && 0 <= j < m ==> spec_term_ok(p, mode, self.nodes@[i], samples@[j], eps),
                    forall|j: int| 0 <= j < si ==> spec_term_ok(p, mode, nd, #[trigger] samples@[j], eps),
                decreases m - si,
            {
                let s = &samples[si];
                let t = match term(&self.simulation, &self.param.mode, &nd, s, self.epsilon) {
                    Some(v) => v,
                    None => {
                        proof {
                            assert(!spec_term_ok(p, mode, self.nodes@[ni as int], samples@[si as int], eps));
                        }
                        return None;
                    },
                };
                let nr = match fx_add(running, t) {
                    Some(v) => v,
                    None => {
                        proof {
                            lemma_partial_le_total(p, mode, self.nodes@, samples@, eps, ni as int, si as int);
                        }
                        return None;
                    },
                };
                running = nr;
                proof {
                    assert(samples@.take(si + 1) =~= samples@.take(si as int).push(samples@[si as int]));
                    lemma_point_sum_push(p, mode, nd, samples@.take(si as int), samples@[si as int], eps);
                    lemma_point_sum_nonneg(p, mode, nd, samples@.take(si + 1), eps);
                }
                si = si + 1;
            }
            proof {
                assert(samples@.take(m as int) =~= samples@);
                assert(self.nodes@.take(ni + 1) =~= self.nodes@.take(ni as int).push(self.nodes@[ni as int]));
                lemma_total_push(p, mode, self.nodes@.take(ni as int), self.nodes@[ni as int], samples@, eps);
            }
            ni = ni + 1;
        }
        proof {
            assert(self.nodes@.take(n as int) =~= self.nodes@);
        }
        Some(running)
    }
}

/// One pair's cost contribution, `None` when it is unrepresentable.
fn term(p: &Bioreactor, mode: &Mode, nd: &RegressorNode, s: &Sample, eps: i64) -> (r: Option<i64>)
    ensures
        r == (if spec_term_ok(*p, *mode, *nd, *s, eps as int) {
            Some(spec_term_val(*p, *mode, *nd, *s, eps as int) as i64)
        } else {
            None::<i64>
        }),
{
    let selected = match mode {
        Mode::Mixed => true,
        Mode::Single(g) => nd.group == *g,
    };
    let d: i128 = (nd.x as i128) - (s.t as i128);
    let ad: i128 = if d < 0 {
        -d
    } else {
        d
    };
    let within = ad <= eps as i128;
    if !(selected && within) {
        return Some(0);
    }
    let cv = match nd.group {
        Group::VCD => s.y.vcd,
        Group::Glucose => s.y.gluc,
        Group::Glutamin => s.y.glut,
        Group::Product => s.y.product,
        Group::DO => {
            let frac = match fx_div(s.y.c_O2, p.c_O2_SAT) {
                Some(v) => v,
                None => {
                    return None;
                },
            };
            match fx_mul(frac, HUNDRED) {
                Some(v) => v,
                None => {
                    return None;
                },
            }
        },
    };
    let sq_y = match fx_mul(cv, cv) {
        Some(v) => v,
        None => {
            return None;
        },
    };
    let sq_o = match fx_mul(nd.y, nd.y) {
        Some(v) => v,
        None => {
            return None;
        },
    };
    let diff = match fx_sub(sq_y, sq_o) {
        Some(v) => v,
        None => {
            return None;
        },
    };
    match crate::fixed::fx_abs(diff) {
        Some(v) => Some(v),
        None => None,
    }
}

/// Every term of a point's sum being zero makes the sum zero.
proof fn lemma_point_sum_zero(p: Bioreactor, mode: Mode, nd: RegressorNode, samples: Seq<Sample>, eps: int)
    requires
        forall|j: int| 0 <= j < samples.len() ==> spec_term_val(p, mode, nd, #[trigger] samples[j], eps) == 0,
    ensures
        spec_point_sum(p, mode, nd, samples, eps) == 0,
    decreases samples.len(),
{
    if samples.len() > 0 {
        assert forall|j: int| 0 <= j < samples.drop_first().len() implies spec_term_val(
            p,
            mode,
            nd,
            #[trigger] samples.drop_first()[j],
            eps,
        ) == 0 by {
            assert(samples.drop_first()[j] == samples[j + 1]);
        }
        lemma_point_sum_zero(p, mode, nd, samples.drop_first(), eps);
    }
}

/// Calibration cost vanishes on noiseless observations: when every
/// selected point coincides in time and value with some trajectory
/// sample, the sample times are farther apart than the matching
/// tolerance, and the measured values' squares are representable, the
/// cost of the generating trajectory is exactly zero.
pub proof fn lemma_exact_observations_zero_cost(
    p: Bioreactor,
    mode: Mode,
    nodes: Seq<RegressorNode>,
    samples: Seq<Sample>,
    eps: int,
)
    requires
        eps >= 0,
        forall|a: int, b: int| #![trigger samples[a], samples[b]]
            0 <= a < samples.len() && 0 <= b < samples.len() && a != b
                ==> abs_val(samples[a].t - samples[b].t) > eps,
        forall|i: int| 0 <= i < nodes.len() && spec_selected(mode, (#[trigger] nodes[i]).group)
            ==> exists|j: int| {
                &&& 0 <= j < samples.len()
                &&& (#[trigger] samples[j]).t == nodes[i].x
                &&& spec_channel_ok(p, nodes[i].group, samples[j].y)
                &&& spec_channel_val(p, nodes[i].group, samples[j].y) == nodes[i].y
            },
        forall|i: int| 0 <= i < nodes.len() ==> fits(mul_val(
            (#[trigger] nodes[i]).y as int,
            nodes[i].y as int,
        )),
    ensures
        spec_all_ok(p, mode, nodes, samples, eps),
        spec_total(p, mode, nodes, samples, eps) == 0,
{
    assert forall|i: int, j: int| #![trigger nodes[i], samples[j]]
        0 <= i < nodes.len() && 0 <= j < samples.len() implies spec_term_ok(
        p,
        mode,
        nodes[i],
        samples[j],
        eps,
    ) && spec_term_val(p, mode, nodes[i], samples[j], eps) == 0 by {
        let nd = nodes[i];
        let s = samples[j];
        if spec_selected(mode, nd.group) && spec_matches(nd, s, eps) {
            let j0 = choose|j0: int| {
                &&& 0 <= j0 < samples.len()
                &&& (#[trigger] samples[j0]).t == nd.x
                &&& spec_channel_ok(p, nd.group, samples[j0].y)
                &&& spec_channel_val(p, nd.group, samples[j0].y) == nd.y
            };
            if j != j0 {
                assert(abs_val(samples[j].t - samples[j0].t) > eps);
                assert(abs_val(nd.x - s.t) <= eps);
                assert(false);
            }
            assert(spec_channel_val(p, nd.group, s.y) == nd.y);
        }
    }
    lemma_total_zero(p, mode, nodes, samples, eps);
}

/// Calibration cost vanishes on noiseless observations of an integrated
/// trajectory: with a matching tolerance below the step size, every
/// selected point that coincides in time and value with a sample of the
/// run — and whose measured square is representable — contributes
/// nothing, and the whole cost is exactly zero.
pub proof fn lemma_trajectory_exact_observations_zero_cost(
    p: Bioreactor,
    mode: Mode,
    nodes: Seq<RegressorNode>,
    it: crate::integrator::Integrator,
    eps: int,
)
    requires
        it.wf(),
        0 <= eps < it.step,
        forall|i: int| 0 <= i < nodes.len() && spec_selected(mode, (#[trigger] nodes[i]).group)
            ==> exists|j: int| {
                &&& 0 <= j < it.samples@.len()
                &&& (#[trigger] it.samples@[j]).t == nodes[i].x
                &&& spec_channel_ok(p, nodes[i].group, it.samples@[j].y)
                &&& spec_channel_val(p, nodes[i].group, it.samples@[j].y) == nodes[i].y
            },
        forall|i: int| 0 <= i < nodes.len() ==> fits(mul_val(
            (#[trigger] nodes[i]).y as int,
            nodes[i].y as int,
        )),
    ensures
        spec_all_ok(p, mode, nodes, it.samples@, eps),
        spec_total(p, mode, nodes, it.samples@, eps) == 0,
{
    crate::integrator::lemma_grid_times_separated(it, eps);
    lemma_exact_observations_zero_cost(p, mode, nodes, it.samples@, eps);
}

/// Every point's sum being zero makes the whole cost zero.
proof fn lemma_total_zero(p: Bioreactor, mode: Mode, nodes: Seq<RegressorNode>, samples: Seq<Sample>, eps: int)
    requires
        forall|i: int, j: int| #![trigger nodes[i], samples[j]]
            0 <= i < nodes.len() && 0 <= j < samples.len() ==> spec_term_val(p, mode, nodes[i], samples[j], eps)
                == 0,
    ensures
        spec_total(p, mode, nodes, samples, eps) == 0,
    decreases nodes.len(),
{
    if nodes.len() > 0 {
        assert forall|j: int| 0 <= j < samples.len() implies spec_term_val(
            p,
            mode,
            nodes[0],
            #[trigger] samples[j],
            eps,
        ) == 0 by {
        }
        lemma_point_sum_zero(p, mode, nodes[0], samples, eps);
        assert forall|i: int, j: int| #![trigger nodes.drop_first()[i], samples[j]]
            0 <= i < nodes.drop_first().len() && 0 <= j < samples.len() implies spec_term_val(
            p,
            mode,
            nodes.drop_first()[i],
            samples[j],
            eps,
        ) == 0 by {
            assert(nodes.drop_first()[i] == nodes[i + 1]);
        }
        lemma_total_zero(p, mode, nodes.drop_first(), samples, eps);
    }
}

} // verus!
