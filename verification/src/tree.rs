//! Observation store: named groups of measured `(time, value)` points.
//!
//! Points are added by value and removed by proximity: the point nearest
//! to the given coordinates is deleted, provided its squared Euclidean
//! distance falls below a fixed threshold, with ties going to the
//! earlier point.  Groups are looked up by name and keep their insertion
//! order, which also gives plots a stable order.

use vstd::prelude::*;
use vstd::string::StringExecFns;

verus! {

/// Squared-distance threshold for removal by proximity: `0.8` in squared
/// fixed-point units.
pub const NEAR_LIMIT: i128 = 800_000_000_000_000_000_000_000;

/// Guard magnitude for the proximity test: a whole unit of distance in
/// either coordinate already exceeds the threshold.
pub const NEAR_GUARD: i128 = 1_000_000_000_000;

/// One measured point.
#[derive(Clone, Copy, PartialEq, Eq, Structural, Debug)]
pub struct Node {
    pub x: i64,
    pub y: i64,
}

impl Node {
    /// The origin point, the seed of a hand-added entry.
    pub fn default() -> (r: Node)
        ensures
            r == (Node { x: 0, y: 0 }),
    {
        Node { x: 0, y: 0 }
    }

    /// A point from its coordinates.
    pub fn new(x: i64, y: i64) -> (r: Node)
        ensures
            r == (Node { x, y }),
    {
        Node { x, y }
    }

    /// The coordinate pair.
    pub fn point(&self) -> (r: (i64, i64))
        ensures
            r == (self.x, self.y),
    {
        (self.x, self.y)
    }
}

/// Squared Euclidean distance between a point and the coordinates.
pub open spec fn spec_dist2(n: Node, x: int, y: int) -> int {
    (n.x - x) * (n.x - x) + (n.y - y) * (n.y - y)
}

/// Whether a point lies within the removal threshold of `(x, y)`.
pub open spec fn spec_near(n: Node, x: int, y: int) -> bool {
    spec_dist2(n, x, y) < NEAR_LIMIT as int
}

/// The squared distance to a point within the removal threshold, or
/// `None` for a point at or beyond it; exact over the full coordinate
/// range.
fn dist2_if_near(n: &Node, x: i64, y: i64) -> (r: Option<i128>)
    ensures
        match r {
            Some(d) => spec_near(*n, x as int, y as int) && d == spec_dist2(*n, x as int, y as int),
            None => !spec_near(*n, x as int, y as int),
        },
{
    let dx: i128 = (n.x as i128) - (x as i128);
    let dy: i128 = (n.y as i128) - (y as i128);
    if dx >= NEAR_GUARD || dx <= -NEAR_GUARD || dy >= NEAR_GUARD || dy <= -NEAR_GUARD {
        proof {
            lemma_far_coordinate(dx as int, dy as int);
        }
        None
    } else {
        proof {
            assert(0 <= dx * dx < (NEAR_GUARD as int) * (NEAR_GUARD as int)) by (nonlinear_arith)
                requires
                    -NEAR_GUARD < dx < NEAR_GUARD,
            ;
            assert(0 <= dy * dy < (NEAR_GUARD as int) * (NEAR_GUARD as int)) by (nonlinear_arith)
                requires
                    -NEAR_GUARD < dy < NEAR_GUARD,
            ;
        }
        let d = dx * dx + dy * dy;
        if d < NEAR_LIMIT {
            Some(d)
        } else {
            None
        }
    }
}

/// A coordinate difference of at least one whole unit puts the squared
/// distance beyond the removal threshold.
proof fn lemma_far_coordinate(dx: int, dy: int)
    requires
        dx >= NEAR_GUARD || dx <= -NEAR_GUARD || dy >= NEAR_GUARD || dy <= -NEAR_GUARD,
    ensures
        dx * dx + dy * dy >= NEAR_LIMIT,
{
    assert(dx * dx >= 0 && dy * dy >= 0) by (nonlinear_arith);
    if dx >= NEAR_GUARD || dx <= -NEAR_GUARD {
        assert(dx * dx >= (NEAR_GUARD as int) * (NEAR_GUARD as int)) by (nonlinear_arith)
            requires
                dx >= NEAR_GUARD || dx <= -NEAR_GUARD,
        ;
    } else {
        assert(dy * dy >= (NEAR_GUARD as int) * (NEAR_GUARD as int)) by (nonlinear_arith)
            requires
                dy >= NEAR_GUARD || dy <= -NEAR_GUARD,
        ;
    }
}

/// The coordinate pairs of a point sequence.
pub open spec fn spec_points(s: Seq<Node>) -> Seq<(i64, i64)> {
    s.map_values(|n: Node| (n.x, n.y))
}

/// A named group of points.
#[derive(Clone, Debug)]
pub struct ParentNode {
    pub name: String,
    pub children: Vec<Node>,
}

impl ParentNode {
    /// An empty group with the given name.
    pub fn new(name: String) -> (r: ParentNode)
        ensures
            r.name@ == name@,
            r.children@ == Seq::<Node>::empty(),
    {
        ParentNode { name, children: Vec::new() }
    }

    /// Append a point.
    pub fn add(&mut self, x: i64, y: i64)
        ensures
            final(self).name@ == old(self).name@,
            final(self).children@ == old(self).children@.push(Node { x, y }),
    {
        self.children.push(Node::new(x, y));
    }

    /// Remove the point nearest to `(x, y)`, provided its squared
    /// distance lies below the threshold; ties go to the earlier point,
    /// and with no point that close the group is unchanged.
    pub fn remove(&mut self, x: i64, y: i64)
        ensures
            final(self).name@ == old(self).name@,
            (forall|j: int| 0 <= j < old(self).children@.len()
                ==> !spec_near(#[trigger] old(self).children@[j], x as int, y as int))
                ==> final(self).children@ == old(self).children@,
            (exists|j: int| 0 <= j < old(self).children@.len()
                && spec_near(#[trigger] old(self).children@[j], x as int, y as int))
                ==> exists|j: int| {
                    &&& 0 <= j < old(self).children@.len()
                    &&& spec_near(#[trigger] old(self).children@[j], x as int, y as int)
                    &&& forall|l: int| 0 <= l < old(self).children@.len()
                        ==> spec_dist2(old(self).children@[j], x as int, y as int) <= spec_dist2(
                            #[trigger] old(self).children@[l],
                            x as int,
                            y as int,
                        )
                    &&& forall|l: int| 0 <= l < j ==> spec_dist2(
                        #[trigger] old(self).children@[l],
                        x as int,
                        y as int,
                    ) > spec_dist2(old(self).children@[j], x as int, y as int)
                    &&& final(self).children@ == old(self).children@.remove(j)
                },
    {
        let n = self.children.len();
        let mut i: usize = 0;
        let mut best_i: usize = 0;
        let mut best_d: i128 = 0;
        let mut found = false;
        while i < n
            invariant
                n == self.children@.len(),
                0 <= i <= n,
                *self == *old(self),
                !found ==> forall|l: int| 0 <= l < i
                    ==> !spec_near(#[trigger] self.children@[l], x as int, y as int),
                found ==> {
                    &&& best_i < i
                    &&& spec_near(self.children@[best_i as int], x as int, y as int)
                    &&& best_d == spec_dist2(self.children@[best_i as int], x as int, y as int)
                    &&& forall|l: int| 0 <= l < i ==> spec_dist2(
                        #[trigger] self.children@[l],
                        x as int,
                        y as int,
                    ) >= best_d
                    &&& forall|l: int| 0 <= l < best_i ==> spec_dist2(
                        #[trigger] self.children@[l],
                        x as int,
                        y as int,
                    ) > best_d
                },
            decreases n - i,
        {
            match dist2_if_near(&self.children[i], x, y) {
                Some(d) => {
                    if !found || d < best_d {
                        best_i = i;
                        best_d = d;
                        found = true;
                    }
                },
                None => {},
            }
            i = i + 1;
        }
        if found {
            self.children.remove(best_i);
        }
    }

    /// The coordinate pairs of every point, or `None` for an empty group.
    pub fn get_vec(&self) -> (r: Option<Vec<(i64, i64)>>)
        ensures
            match r {
                Some(v) => self.children@.len() > 0 && v@ == spec_points(self.children@),
                None => self.children@.len() == 0,
            },
    {
        if self.children.len() == 0 {
            return None;
        }
        let mut out: Vec<(i64, i64)> = Vec::new();
        let n = self.children.len();
        let mut i: usize = 0;
        while i < n
            invariant
                n == self.children@.len(),
                0 <= i <= n,
                out@ == spec_points(self.children@.take(i as int)),
            decreases n - i,
        {
            let p = self.children[i].point();
            out.push(p);
            proof {
                assert(self.children@.take(i + 1 as int) == self.children@.take(i as int).push(
                    self.children@[i as int],
                ));
            }
            i = i + 1;
        }
        proof {
            assert(self.children@.take(n as int) == self.children@);
        }
        Some(out)
    }

    /// The coordinate pairs of every point, possibly empty.
    pub fn points(&self) -> (r: Vec<(i64, i64)>)
        ensures
            r@ == spec_points(self.children@),
    {
        match self.get_vec() {
            Some(v) => v,
            None => {
                proof {
                    assert(spec_points(self.children@) =~= Seq::<(i64, i64)>::empty());
                }
                Vec::new()
            },
        }
    }
}

/// Index of the first group with the given name, or a negative value.
pub open spec fn spec_name_index(s: Seq<ParentNode>, name: Seq<char>) -> int
    decreases s.len(),
{
    if s.len() == 0 {
        -1
    } else if s[0].name@ == name {
        0
    } else {
        let r = spec_name_index(s.drop_first(), name);
        if r < 0 {
            -1
        } else {
            r + 1
        }
    }
}

/// The first index found is in range, carries the name, and nothing
/// before it does; a negative result means no group carries the name.
pub proof fn lemma_name_index(s: Seq<ParentNode>, name: Seq<char>)
    ensures
        spec_name_index(s, name) < 0 ==> forall|j: int| 0 <= j < s.len()
            ==> (#[trigger] s[j]).name@ != name,
        spec_name_index(s, name) >= 0 ==> {
            &&& spec_name_index(s, name) < s.len()
            &&& s[spec_name_index(s, name)].name@ == name
            &&& forall|j: int| 0 <= j < spec_name_index(s, name) ==> (#[trigger] s[j]).name@ != name
        },
    decreases s.len(),
{
    if s.len() == 0 {
    } else if s[0].name@ == name {
    } else {
        lemma_name_index(s.drop_first(), name);
        let r = spec_name_index(s.drop_first(), name);
        if r < 0 {
            assert forall|j: int| 0 <= j < s.len() implies (#[trigger] s[j]).name@ != name by {
                if j > 0 {
                    assert(s.drop_first()[j - 1] == s[j]);
                }
            }
        } else {
            assert(s.drop_first()[r] == s[r + 1]);
            assert forall|j: int| 0 <= j < r + 1 implies (#[trigger] s[j]).name@ != name by {
                if j > 0 {
                    assert(s.drop_first()[j - 1] == s[j]);
                }
            }
        }
    }
}

/// The store: every group, in a stable order.
#[derive(Clone, Debug)]
pub struct Tree {
    pub nodes: Vec<ParentNode>,
}

impl Tree {
    /// Index of the first group with the given name.
    pub fn index_of(&self, name: String) -> (r: Option<usize>)
        ensures
            match r {
                Some(i) => i == spec_name_index(self.nodes@, name@),
                None => spec_name_index(self.nodes@, name@) < 0,
            },
    {
        proof {
            lemma_name_index(self.nodes@, name@);
        }
        let n = self.nodes.len();
        let mut i: usize = 0;
        while i < n
            invariant
                n == self.nodes@.len(),
                0 <= i <= n,
                forall|j: int| 0 <= j < i ==> (#[trigger] self.nodes@[j]).name@ != name@,
            decreases n - i,
        {
            if self.nodes[i].name == name {
                proof {
                    lemma_name_index_found(self.nodes@, name@, i as int);
                }
                return Some(i);
            }
            i = i + 1;
        }
        proof {
            lemma_name_index_missing(self.nodes@, name@);
        }
        None
    }

    /// Append a point to the group with the given name; with no such
    /// group the store is unchanged.
    pub fn add(&mut self, name: String, x: i64, y: i64)
        ensures
            spec_name_index(old(self).nodes@, name@) < 0 ==> *final(self) == *old(self),
            spec_name_index(old(self).nodes@, name@) >= 0 ==> {
                let i = spec_name_index(old(self).nodes@, name@);
                &&& final(self).nodes@.len() == old(self).nodes@.len()
                &&& final(self).nodes@[i].name@ == old(self).nodes@[i].name@
                &&& final(self).nodes@[i].children@ == old(self).nodes@[i].children@.push(
                    Node { x, y },
                )
                &&& forall|j: int| 0 <= j < old(self).nodes@.len() && j != i
                    ==> final(self).nodes@[j] == old(self).nodes@[j]
            },
            spec_tree_view(*final(self)) == spec_view_add(spec_tree_view(*old(self)), name@, x, y),
    {
        proof {
            lemma_view_index_bridge(self.nodes@, name@);
        }
        let pos = match self.index_of(name) {
            Some(p) => p,
            None => {
                return;
            },
        };
        proof {
            lemma_name_index(self.nodes@, name@);
        }
        let node = &mut self.nodes[pos];
        node.add(x, y);
        proof {
            let f = |p: ParentNode| (p.name@, p.children@);
            let vold = old(self).nodes@.map_values(f);
            let vnew = self.nodes@.map_values(f);
            assert forall|j: int| 0 <= j < vnew.len() implies vnew[j] == spec_view_add(
                vold,
                name@,
                x,
                y,
            )[j] by {
                assert(vnew[j] == f(self.nodes@[j]));
                assert(vold[j] == f(old(self).nodes@[j]));
            }
            assert(vnew =~= spec_view_add(vold, name@, x, y));
        }
    }

    /// Remove from the named group the point nearest to `(x, y)` when it
    /// lies within the proximity threshold; with no such group the store
    /// is unchanged.
    pub fn remove(&mut self, name: String, x: i64, y: i64)
        ensures
            spec_name_index(old(self).nodes@, name@) < 0 ==> *final(self) == *old(self),
            spec_name_index(old(self).nodes@, name@) >= 0 ==> {
                let i = spec_name_index(old(self).nodes@, name@);
                &&& final(self).nodes@.len() == old(self).nodes@.len()
                &&& final(self).nodes@[i].name@ == old(self).nodes@[i].name@
                &&& ((forall|j: int| 0 <= j < old(self).nodes@[i].children@.len()
                    ==> !spec_near(#[trigger] old(self).nodes@[i].children@[j], x as int, y as int))
                    ==> final(self).nodes@[i].children@ == old(self).nodes@[i].children@)
                &&& ((exists|j: int| 0 <= j < old(self).nodes@[i].children@.len()
                    && spec_near(#[trigger] old(self).nodes@[i].children@[j], x as int, y as int))
                    ==> exists|j: int| {
                        &&& 0 <= j < old(self).nodes@[i].children@.len()
                        &&& spec_near(#[trigger] old(self).nodes@[i].children@[j], x as int, y as int)
                        &&& forall|l: int| 0 <= l < old(self).nodes@[i].children@.len()
                            ==> spec_dist2(old(self).nodes@[i].children@[j], x as int, y as int)
                                <= spec_dist2(
                                #[trigger] old(self).nodes@[i].children@[l],
                                x as int,
                                y as int,
                            )
                        &&& forall|l: int| 0 <= l < j ==> spec_dist2(
                            #[trigger] old(self).nodes@[i].children@[l],
                            x as int,
                            y as int,
                        ) > spec_dist2(old(self).nodes@[i].children@[j], x as int, y as int)
                        &&& final(self).nodes@[i].children@ == old(self).nodes@[i].children@.remove(j)
                    })
                &&& forall|j: int| 0 <= j < old(self).nodes@.len() && j != i
                    ==> final(self).nodes@[j] == old(self).nodes@[j]
            },
    {
        let pos = match self.index_of(name) {
            Some(p) => p,
            None => {
                return;
            },
        };
        proof {
            lemma_name_index(self.nodes@, name@);
        }
        let node = &mut self.nodes[pos];
        node.remove(x, y);
    }

    /// The coordinate pairs of the named group, or `None` when the group
    /// is missing or empty.
    pub fn get(&self, name: String) -> (r: Option<Vec<(i64, i64)>>)
        ensures
            match r {
                Some(v) => {
                    let i = spec_name_index(self.nodes@, name@);
                    &&& i >= 0
                    &&& self.nodes@[i].children@.len() > 0
                    &&& v@ == spec_points(self.nodes@[i].children@)
                },
                None => {
                    let i = spec_name_index(self.nodes@, name@);
                    i < 0 || self.nodes@[i].children@.len() == 0
                },
            },
    {
        let pos = match self.index_of(name) {
            Some(p) => p,
            None => {
                return None;
            },
        };
        proof {
            lemma_name_index(self.nodes@, name@);
        }
        self.nodes[pos].get_vec()
    }

    /// One series of coordinate pairs per group, in the store's order.
    pub fn plot_points(&self) -> (r: Vec<Vec<(i64, i64)>>)
        ensures
            r@.len() == self.nodes@.len(),
            forall|i: int| 0 <= i < self.nodes@.len() ==> (#[trigger] r@[i])@ == spec_points(
                self.nodes@[i].children@,
            ),
    {
        let mut out: Vec<Vec<(i64, i64)>> = Vec::new();
        let n = self.nodes.len();
        let mut i: usize = 0;
        while i < n
            invariant
                n == self.nodes@.len(),
                0 <= i <= n,
                out@.len() == i,
                forall|j: int| 0 <= j < i ==> (#[trigger] out@[j])@ == spec_points(
                    self.nodes@[j].children@,
                ),
            decreases n - i,
        {
            let series = self.nodes[i].points();
            out.push(series);
            i = i + 1;
        }
        out
    }
}

/// A scan that finds the name at `i` with nothing equal before it finds
/// the first occurrence.
proof fn lemma_name_index_found(s: Seq<ParentNode>, name: Seq<char>, i: int)
    requires
        0 <= i < s.len(),
        s[i].name@ == name,
        forall|j: int| 0 <= j < i ==> (#[trigger] s[j]).name@ != name,
    ensures
        spec_name_index(s, name) == i,
    decreases s.len(),
{
    if i == 0 {
    } else {
        assert forall|j: int| 0 <= j < i - 1 implies (#[trigger] s.drop_first()[j]).name@
            != name by {
            assert(s.drop_first()[j] == s[j + 1]);
        }
        assert(s.drop_first()[i - 1] == s[i]);
        lemma_name_index_found(s.drop_first(), name, i - 1);
    }
}

/// The store a front end starts from: the five measured-quantity
/// groups, always present and initially empty.
pub fn default_store() -> (r: Tree)
    ensures
        r.nodes@.len() == 5,
        r.nodes@[0].name@ == "VCD"@,
        r.nodes@[1].name@ == "Glucose"@,
        r.nodes@[2].name@ == "Glutamin"@,
        r.nodes@[3].name@ == "Product"@,
        r.nodes@[4].name@ == "DO"@,
        forall|i: int| 0 <= i < 5 ==> (#[trigger] r.nodes@[i]).children@ == Seq::<Node>::empty(),
{
    let mut nodes: Vec<ParentNode> = Vec::new();
    nodes.push(ParentNode::new(String::from_str("VCD")));
    nodes.push(ParentNode::new(String::from_str("Glucose")));
    nodes.push(ParentNode::new(String::from_str("Glutamin")));
    nodes.push(ParentNode::new(String::from_str("Product")));
    nodes.push(ParentNode::new(String::from_str("DO")));
    Tree { nodes }
}

/// A store's mathematical view: each group's name and point sequence.
pub open spec fn spec_tree_view(t: Tree) -> Seq<(Seq<char>, Seq<Node>)> {
    t.nodes@.map_values(|p: ParentNode| (p.name@, p.children@))
}

/// Index of the first view entry carrying the given name.
pub open spec fn spec_view_index(v: Seq<(Seq<char>, Seq<Node>)>, name: Seq<char>) -> int
    decreases v.len(),
{
    if v.len() == 0 {
        -1
    } else if v[0].0 == name {
        0
    } else {
        let r = spec_view_index(v.drop_first(), name);
        if r < 0 {
            -1
        } else {
            r + 1
        }
    }
}

/// Appending one point to the named group, at the view level; a missing
/// name leaves the view unchanged.
pub open spec fn spec_view_add(
    v: Seq<(Seq<char>, Seq<Node>)>,
    name: Seq<char>,
    x: i64,
    y: i64,
) -> Seq<(Seq<char>, Seq<Node>)> {
    let i = spec_view_index(v, name);
    if i < 0 {
        v
    } else {
        v.update(i, (v[i].0, v[i].1.push(Node { x, y })))
    }
}

/// The view's first index agrees with the store's.
pub proof fn lemma_view_index_bridge(s: Seq<ParentNode>, name: Seq<char>)
    ensures
        spec_view_index(s.map_values(|p: ParentNode| (p.name@, p.children@)), name)
            == spec_name_index(s, name),
    decreases s.len(),
{
    let f = |p: ParentNode| (p.name@, p.children@);
    if s.len() > 0 {
        assert(s.map_values(f)[0] == f(s[0]));
        assert(s.map_values(f).drop_first() =~= s.drop_first().map_values(f));
        lemma_view_index_bridge(s.drop_first(), name);
    }
}

/// A scan that finds no equal name matches a negative first index.
proof fn lemma_name_index_missing(s: Seq<ParentNode>, name: Seq<char>)
    requires
        forall|j: int| 0 <= j < s.len() ==> (#[trigger] s[j]).name@ != name,
    ensures
        spec_name_index(s, name) < 0,
    decreases s.len(),
{
    if s.len() > 0 {
        assert forall|j: int| 0 <= j < s.drop_first().len() implies (#[trigger] s.drop_first()[j]).name@
            != name by {
            assert(s.drop_first()[j] == s[j + 1]);
        }
        lemma_name_index_missing(s.drop_first(), name);
    }
}

} // verus!
