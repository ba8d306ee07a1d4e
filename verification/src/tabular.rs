//! Tabular boundary: rows of plain values in and out of the library.
//!
//! An imported row carries an optional time and one optional value per
//! measured quantity; rows without a time are skipped, and each present
//! value is appended to its group independently.  An exported row holds
//! one trajectory sample's time and every state channel, with dissolved
//! oxygen both as a concentration and as a percentage of saturation, so
//! that exported values can be re-imported through the matching columns.

use vstd::prelude::*;
use crate::fixed::{fits, mul_val, div_val, fx_div, fx_mul};
use crate::model::HUNDRED;
use crate::tree::{Tree, Node, spec_tree_view, spec_view_add, spec_view_index};
use crate::integrator::Sample;
use crate::regressor::Group;

verus! {

/// One imported row.
#[derive(Clone, Copy, PartialEq, Eq, Debug)]
pub struct Record {
    pub minutes: Option<i64>,
    pub vcd: Option<i64>,
    pub gln: Option<i64>,
    pub gluc: Option<i64>,
    pub do_50: Option<i64>,
    pub product: Option<i64>,
}

/// One exported row.
#[derive(Clone, Copy, PartialEq, Eq, Structural, Debug)]
pub struct Output {
    pub minutes: i64,
    pub volume: i64,
    pub vcd: i64,
    pub glutamin: i64,
    pub glucose: i64,
    pub DO: i64,
    pub c_O2: i64,
    pub oxygen: i64,
    pub product: i64,
}

/// What importing one row does to a store's view: nothing without a
/// time; otherwise each present value is appended to its group, in the
/// fixed column order.
pub open spec fn spec_import_record(v: Seq<(Seq<char>, Seq<Node>)>, rec: Record) -> Seq<(Seq<char>, Seq<Node>)> {
    match rec.minutes {
        None => v,
        Some(t) => {
            let v1 = match rec.vcd {
                Some(val) => spec_view_add(v, "VCD"@, t, val),
                None => v,
            };
            let v2 = match rec.gln {
                Some(val) => spec_view_add(v1, "Glutamin"@, t, val),
                None => v1,
            };
            let v3 = match rec.gluc {
                Some(val) => spec_view_add(v2, "Glucose"@, t, val),
                None => v2,
            };
            let v4 = match rec.do_50 {
                Some(val) => spec_view_add(v3, "DO"@, t, val),
                None => v3,
            };
            match rec.product {
                Some(val) => spec_view_add(v4, "Product"@, t, val),
                None => v4,
            }
        },
    }
}

/// Import one row into the store.
pub fn import_record(tree: &mut Tree, rec: &Record)
    ensures
        spec_tree_view(*final(tree)) == spec_import_record(spec_tree_view(*old(tree)), *rec),
{
    let t = match rec.minutes {
        Some(t) => t,
        None => {
            return;
        },
    };
    match rec.vcd {
        Some(val) => {
            tree.add(Group::VCD.label(), t, val);
        },
        None => {},
    }
    match rec.gln {
        Some(val) => {
            tree.add(Group::Glutamin.label(), t, val);
        },
        None => {},
    }
    match rec.gluc {
        Some(val) => {
            tree.add(Group::Glucose.label(), t, val);
        },
        None => {},
    }
    match rec.do_50 {
        Some(val) => {
            tree.add(Group::DO.label(), t, val);
        },
        None => {},
    }
    match rec.product {
        Some(val) => {
            tree.add(Group::Product.label(), t, val);
        },
        None => {},
    }
}

/// Import a batch of rows, row by row.
pub fn import_rows(tree: &mut Tree, rows: &Vec<Record>)
    ensures
        spec_tree_view(*final(tree)) == spec_import_rows(spec_tree_view(*old(tree)), rows@),
{
    let n = rows.len();
    let mut i: usize = 0;
    proof {
        assert(rows@.take(0) =~= Seq::<Record>::empty());
    }
    while i < n
        invariant
            n == rows@.len(),
            0 <= i <= n,
            spec_tree_view(*tree) == spec_import_rows(spec_tree_view(*old(tree)), rows@.take(i as int)),
        decreases n - i,
    {
        import_record(tree, &rows[i]);
        proof {
            assert(rows@.take(i + 1) =~= rows@.take(i as int).push(rows@[i as int]));
            lemma_import_rows_push(spec_tree_view(*old(tree)), rows@.take(i as int), rows@[i as int]);
        }
        i = i + 1;
    }
    proof {
        assert(rows@.take(n as int) =~= rows@);
    }
}

/// What importing a row sequence does to a store's view.
pub open spec fn spec_import_rows(v: Seq<(Seq<char>, Seq<Node>)>, rows: Seq<Record>) -> Seq<(Seq<char>, Seq<Node>)>
    decreases rows.len(),
{
    if rows.len() == 0 {
        v
    } else {
        spec_import_rows(spec_import_record(v, rows[0]), rows.drop_first())
    }
}

/// One more row imports after the ones before it.
proof fn lemma_import_rows_push(v: Seq<(Seq<char>, Seq<Node>)>, rows: Seq<Record>, r: Record)
    ensures
        spec_import_rows(v, rows.push(r)) == spec_import_record(spec_import_rows(v, rows), r),
    decreases rows.len(),
{
    if rows.len() == 0 {
        assert(rows.push(r)[0] == r);
        assert(rows.push(r).drop_first() =~= Seq::<Record>::empty());
        assert(spec_import_rows(v, rows.push(r)) == spec_import_rows(spec_import_record(v, r), Seq::<Record>::empty()));
    } else {
        assert(rows.push(r)[0] == rows[0]);
        assert(rows.push(r).drop_first() =~= rows.drop_first().push(r));
        lemma_import_rows_push(spec_import_record(v, rows[0]), rows.drop_first(), r);
    }
}

/// Dissolved-oxygen percentage of saturation.
pub open spec fn spec_pct(c: int, sat: int) -> int {
    mul_val(div_val(c, sat), HUNDRED as int)
}

/// Whether a sample's row is representable: the percentage conversion
/// stays in range.
pub open spec fn spec_row_defined(s: Sample, sat: int) -> bool {
    &&& sat != 0
    &&& fits(div_val(s.y.c_O2 as int, sat))
    &&& fits(spec_pct(s.y.c_O2 as int, sat))
}

/// The exported row of one sample.
pub open spec fn spec_row(s: Sample, sat: int) -> Output {
    Output {
        minutes: s.t,
        volume: s.y.volume,
        vcd: s.y.vcd,
        glutamin: s.y.glut,
        glucose: s.y.gluc,
        DO: spec_pct(s.y.c_O2 as int, sat) as i64,
        c_O2: s.y.c_O2,
        oxygen: s.y.O2_flow,
        product: s.y.product,
    }
}

/// Export a trajectory: one row per sample, in order.  `None` exactly
/// when some sample's percentage conversion is unrepresentable.
pub fn export_rows(samples: &Vec<Sample>, sat: i64) -> (r: Option<Vec<Output>>)
    ensures
        match r {
            Some(rows) => {
                &&& forall|i: int| 0 <= i < samples@.len() ==> spec_row_defined(#[trigger] samples@[i], sat as int)
                &&& rows@ == samples@.map_values(|s: Sample| spec_row(s, sat as int))
            },
            None => exists|i: int| 0 <= i < samples@.len() && !spec_row_defined(#[trigger] samples@[i], sat as int),
        },
{
    let mut out: Vec<Output> = Vec::new();
    let n = samples.len();
    let mut i: usize = 0;
    proof {
        assert(samples@.take(0).map_values(|s: Sample| spec_row(s, sat as int)) =~= Seq::<Output>::empty());
    }
    while i < n
        invariant
            n == samples@.len(),
            0 <= i <= n,
            forall|j: int| 0 <= j < i ==> spec_row_defined(#[trigger] samples@[j], sat as int),
            out@ == samples@.take(i as int).map_values(|s: Sample| spec_row(s, sat as int)),
        decreases n - i,
    {
        let s = &samples[i];
        let frac = match fx_div(s.y.c_O2, sat) {
            Some(v) => v,
            None => {
                return None;
            },
        };
        let pct = match fx_mul(frac, HUNDRED) {
            Some(v) => v,
            None => {
                return None;
            },
        };
        let row = Output {
            minutes: s.t,
            volume: s.y.volume,
            vcd: s.y.vcd,
            glutamin: s.y.glut,
            glucose: s.y.gluc,
            DO: pct,
            c_O2: s.y.c_O2,
            oxygen: s.y.O2_flow,
            product: s.y.product,
        };
        out.push(row);
        proof {
            let f = |s2: Sample| spec_row(s2, sat as int);
            assert(samples@.take(i + 1) =~= samples@.take(i as int).push(samples@[i as int]));
            assert(samples@.take(i + 1).map_values(f) =~= samples@.take(i as int).map_values(f).push(
                f(samples@[i as int]),
            ));
        }
        i = i + 1;
    }
    proof {
        assert(samples@.take(n as int) =~= samples@);
    }
    Some(out)
}

/// The import row an exported row's value columns map back to: each
/// measured quantity's column feeds the matching group.
pub open spec fn spec_record_of_row(o: Output) -> Record {
    Record {
        minutes: Some(o.minutes),
        vcd: Some(o.vcd),
        gln: Some(o.glutamin),
        gluc: Some(o.glucose),
        do_50: Some(o.DO),
        product: Some(o.product),
    }
}

/// Map an exported row back to an import row through the matching
/// value columns.
pub fn record_of_row(o: &Output) -> (r: Record)
    ensures
        r == spec_record_of_row(*o),
{
    Record {
        minutes: Some(o.minutes),
        vcd: Some(o.vcd),
        gln: Some(o.glutamin),
        gluc: Some(o.glucose),
        do_50: Some(o.DO),
        product: Some(o.product),
    }
}

/// A found view index is in range, carries the name, and names stay
/// where they are.
proof fn lemma_view_index_props(v: Seq<(Seq<char>, Seq<Node>)>, name: Seq<char>)
    ensures
        spec_view_index(v, name) >= 0 ==> {
            &&& spec_view_index(v, name) < v.len()
            &&& v[spec_view_index(v, name)].0 == name
        },
    decreases v.len(),
{
    if v.len() > 0 && !(v[0].0 == name) {
        lemma_view_index_props(v.drop_first(), name);
        let r = spec_view_index(v.drop_first(), name);
        if r >= 0 {
            assert(v.drop_first()[r] == v[r + 1]);
        }
    }
}

/// Two views with the same names everywhere agree on every first index.
proof fn lemma_view_index_names(v1: Seq<(Seq<char>, Seq<Node>)>, v2: Seq<(Seq<char>, Seq<Node>)>, name: Seq<char>)
    requires
        v1.len() == v2.len(),
        forall|j: int| 0 <= j < v1.len() ==> (#[trigger] v1[j]).0 == v2[j].0,
    ensures
        spec_view_index(v1, name) == spec_view_index(v2, name),
    decreases v1.len(),
{
    if v1.len() > 0 {
        assert(v1[0].0 == v2[0].0);
        assert forall|j: int| 0 <= j < v1.drop_first().len() implies (#[trigger] v1.drop_first()[j]).0
            == v2.drop_first()[j].0 by {
            assert(v1.drop_first()[j] == v1[j + 1]);
            assert(v2.drop_first()[j] == v2[j + 1]);
        }
        lemma_view_index_names(v1.drop_first(), v2.drop_first(), name);
    }
}

/// What one view-level append does: the named group gains the point,
/// every other entry and every name stays.
proof fn lemma_view_add_effect(v: Seq<(Seq<char>, Seq<Node>)>, name: Seq<char>, x: i64, y: i64)
    requires
        spec_view_index(v, name) >= 0,
    ensures
        spec_view_add(v, name, x, y).len() == v.len(),
        forall|j: int| 0 <= j < v.len() ==> (#[trigger] spec_view_add(v, name, x, y)[j]).0 == v[j].0,
        spec_view_add(v, name, x, y)[spec_view_index(v, name)].1 == v[spec_view_index(v, name)].1.push(
            Node { x, y },
        ),
        forall|j: int| 0 <= j < v.len() && j != spec_view_index(v, name)
            ==> spec_view_add(v, name, x, y)[j] == v[j],
        spec_view_index(spec_view_add(v, name, x, y), name) == spec_view_index(v, name),
    {
    lemma_view_index_props(v, name);
    lemma_view_index_names(v, spec_view_add(v, name, x, y), name);
}

/// Round trip: exporting a sample and importing its row back appends,
/// to each group with an import column, exactly that sample's value for
/// the group's quantity — the viable cell density, glutamine, glucose
/// and product channels verbatim, and dissolved oxygen as the exported
/// percentage — while every other group and every name is untouched.
pub proof fn lemma_export_import_round_trip(v: Seq<(Seq<char>, Seq<Node>)>, s: Sample, sat: int)
    requires
        spec_view_index(v, "VCD"@) >= 0,
        spec_view_index(v, "Glutamin"@) >= 0,
        spec_view_index(v, "Glucose"@) >= 0,
        spec_view_index(v, "DO"@) >= 0,
        spec_view_index(v, "Product"@) >= 0,
    ensures
        ({
            let vr = spec_import_record(v, spec_record_of_row(spec_row(s, sat)));
            let i_vcd = spec_view_index(v, "VCD"@);
            let i_gln = spec_view_index(v, "Glutamin"@);
            let i_gluc = spec_view_index(v, "Glucose"@);
            let i_do = spec_view_index(v, "DO"@);
            let i_prod = spec_view_index(v, "Product"@);
            &&& vr.len() == v.len()
            &&& forall|j: int| 0 <= j < v.len() ==> (#[trigger] vr[j]).0 == v[j].0
            &&& vr[i_vcd].1 == v[i_vcd].1.push(Node { x: s.t, y: s.y.vcd })
            &&& vr[i_gln].1 == v[i_gln].1.push(Node { x: s.t, y: s.y.glut })
            &&& vr[i_gluc].1 == v[i_gluc].1.push(Node { x: s.t, y: s.y.gluc })
            &&& vr[i_do].1 == v[i_do].1.push(Node { x: s.t, y: (spec_pct(s.y.c_O2 as int, sat) as i64) })
            &&& vr[i_prod].1 == v[i_prod].1.push(Node { x: s.t, y: s.y.product })
            &&& forall|j: int| 0 <= j < v.len() && j != i_vcd && j != i_gln && j != i_gluc && j != i_do
                && j != i_prod ==> vr[j] == v[j]
        }),
{
    reveal_strlit("VCD");
    reveal_strlit("Glutamin");
    reveal_strlit("Glucose");
    reveal_strlit("DO");
    reveal_strlit("Product");
    assert("VCD"@.len() == 3);
    assert("Glutamin"@.len() == 8);
    assert("Glucose"@.len() == 7);
    assert("DO"@.len() == 2);
    assert("Product"@.len() == 7);
    assert("Glucose"@[0] == 'G' && "Product"@[0] == 'P');
    let i_vcd = spec_view_index(v, "VCD"@);
    let i_gln = spec_view_index(v, "Glutamin"@);
    let i_gluc = spec_view_index(v, "Glucose"@);
    let i_do = spec_view_index(v, "DO"@);
    let i_prod = spec_view_index(v, "Product"@);
    lemma_view_index_props(v, "VCD"@);
    lemma_view_index_props(v, "Glutamin"@);
    lemma_view_index_props(v, "Glucose"@);
    lemma_view_index_props(v, "DO"@);
    lemma_view_index_props(v, "Product"@);
    let t = s.t;
    let v1 = spec_view_add(v, "VCD"@, t, s.y.vcd);
    lemma_view_add_effect(v, "VCD"@, t, s.y.vcd);
    lemma_view_index_names(v, v1, "Glutamin"@);
    lemma_view_index_names(v, v1, "Glucose"@);
    lemma_view_index_names(v, v1, "DO"@);
    lemma_view_index_names(v, v1, "Product"@);
    let v2 = spec_view_add(v1, "Glutamin"@, t, s.y.glut);
    lemma_view_add_effect(v1, "Glutamin"@, t, s.y.glut);
    lemma_view_index_names(v1, v2, "Glucose"@);
    lemma_view_index_names(v1, v2, "DO"@);
    lemma_view_index_names(v1, v2, "Product"@);
    let v3 = spec_view_add(v2, "Glucose"@, t, s.y.gluc);
    lemma_view_add_effect(v2, "Glucose"@, t, s.y.gluc);
    lemma_view_index_names(v2, v3, "DO"@);
    lemma_view_index_names(v2, v3, "Product"@);
    let v4 = spec_view_add(v3, "DO"@, t, (spec_pct(s.y.c_O2 as int, sat) as i64));
    lemma_view_add_effect(v3, "DO"@, t, (spec_pct(s.y.c_O2 as int, sat) as i64));
    lemma_view_index_names(v3, v4, "Product"@);
    let v5 = spec_view_add(v4, "Product"@, t, s.y.product);
    lemma_view_add_effect(v4, "Product"@, t, s.y.product);
    let vr = spec_import_record(v, spec_record_of_row(spec_row(s, sat)));
    assert(vr == v5);
    assert("VCD"@ != "Glutamin"@ && "VCD"@ != "Glucose"@ && "VCD"@ != "DO"@ && "VCD"@
        != "Product"@);
    assert("Glutamin"@ != "Glucose"@ && "Glutamin"@ != "DO"@ && "Glutamin"@ != "Product"@);
    assert("Glucose"@ != "DO"@ && "Glucose"@ != "Product"@);
    assert("DO"@ != "Product"@);
    assert(v[i_vcd].0 == "VCD"@ && v[i_gln].0 == "Glutamin"@ && v[i_gluc].0 == "Glucose"@
        && v[i_do].0 == "DO"@ && v[i_prod].0 == "Product"@);
    assert(i_vcd != i_gln && i_vcd != i_gluc && i_vcd != i_do && i_vcd != i_prod);
    assert(i_gln != i_gluc && i_gln != i_do && i_gln != i_prod);
    assert(i_gluc != i_do && i_gluc != i_prod);
    assert(i_do != i_prod);
    assert(spec_view_index(v1, "Glutamin"@) == i_gln);
    assert(spec_view_index(v2, "Glucose"@) == i_gluc);
    assert(spec_view_index(v3, "DO"@) == i_do);
    assert(spec_view_index(v4, "Product"@) == i_prod);
    assert(v1[i_vcd].1 == v[i_vcd].1.push(Node { x: t, y: s.y.vcd }));
    assert(v2[i_vcd] == v1[i_vcd] && v3[i_vcd] == v2[i_vcd] && v4[i_vcd] == v3[i_vcd] && v5[i_vcd]
        == v4[i_vcd]);
    assert(v1[i_gln] == v[i_gln]);
    assert(v2[i_gln].1 == v1[i_gln].1.push(Node { x: t, y: s.y.glut }));
    assert(v3[i_gln] == v2[i_gln] && v4[i_gln] == v3[i_gln] && v5[i_gln] == v4[i_gln]);
    assert(v1[i_gluc] == v[i_gluc] && v2[i_gluc] == v1[i_gluc]);
    assert(v3[i_gluc].1 == v2[i_gluc].1.push(Node { x: t, y: s.y.gluc }));
    assert(v4[i_gluc] == v3[i_gluc] && v5[i_gluc] == v4[i_gluc]);
    assert(v1[i_do] == v[i_do] && v2[i_do] == v1[i_do] && v3[i_do] == v2[i_do]);
    assert(v4[i_do].1 == v3[i_do].1.push(Node { x: t, y: (spec_pct(s.y.c_O2 as int, sat) as i64) }));
    assert(v5[i_do] == v4[i_do]);
    assert(v1[i_prod] == v[i_prod] && v2[i_prod] == v1[i_prod] && v3[i_prod] == v2[i_prod]
        && v4[i_prod] == v3[i_prod]);
    assert(v5[i_prod].1 == v4[i_prod].1.push(Node { x: t, y: s.y.product }));
    assert forall|j: int| 0 <= j < v.len() && j != i_vcd && j != i_gln && j != i_gluc && j != i_do
        && j != i_prod implies vr[j] == v[j] by {
        assert(v1[j] == v[j]);
        assert(v2[j] == v1[j]);
        assert(v3[j] == v2[j]);
        assert(v4[j] == v3[j]);
        assert(v5[j] == v4[j]);
    }
}

} // verus!
