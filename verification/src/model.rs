//! The model objects of a chart and their canonical JSON representations.
//!
//! Every entity that can appear in the reference graph implements
//! [`ToBokeh`]: it names its kind and describes its configurable attributes,
//! and from the two the canonical record `{ "attributes": ..., "type": ... }`
//! is built.

use vstd::prelude::*;

use crate::json::{
    encoded, json_arr, json_int, json_obj, json_obj_insert, json_obj_new, json_str, no_entries,
    object_entries, to_json_string, value_model, JsonModel,
};

verus! {

/// The model of a typed-model-value record: the object
/// `{ "attributes": attrs, "type": ty }`.
pub open spec fn record_model(attrs: JsonModel, ty: Seq<char>) -> JsonModel {
    JsonModel::Obj(map!["attributes"@ => attrs, "type"@ => JsonModel::Str(ty)])
}

/// Builds the record `{ "attributes": attrs, "type": ty }`.
fn record_value(attrs: serde_json::Value, ty: String) -> (r: serde_json::Value)
    ensures
        value_model(r) == record_model(value_model(attrs), ty@),
{
    let mut m = json_obj_new();
    json_obj_insert(&mut m, "attributes".to_owned(), attrs);
    json_obj_insert(&mut m, "type".to_owned(), json_str(ty));
    proof {
        assert(object_entries(m) =~= map!["attributes"@ => value_model(attrs), "type"@ => JsonModel::Str(ty@)]);
    }
    json_obj(m)
}

/// Capability of producing the canonical JSON representation of a model
/// object: an `attributes` object of its kind-specific fields and a `type`
/// tag naming its kind. The representation is a function of the object's
/// state alone; identity (`id`) is assigned only by the serializer.
pub trait ToBokeh {
    /// The characters of the `type` tag.
    spec fn kind_tag_spec(&self) -> Seq<char>;

    /// The model of the `attributes` object.
    spec fn attributes_model(&self) -> JsonModel;

    /// The `type` tag naming this kind of object.
    fn kind_tag(&self) -> (r: String)
        ensures
            r@ == self.kind_tag_spec(),
    ;

    /// The `attributes` object of this object's representation.
    fn attributes_value(&self) -> (r: serde_json::Value)
        ensures
            value_model(r) == self.attributes_model(),
    ;

    /// The canonical JSON representation,
    /// `{ "attributes": ..., "type": "<KindName>" }`.
    fn as_bokeh_value(&self) -> (r: serde_json::Value)
        ensures
            value_model(r) == record_model(self.attributes_model(), self.kind_tag_spec()),
    {
        let attrs = self.attributes_value();
        let ty = self.kind_tag();
        record_value(attrs, ty)
    }

    /// The canonical JSON text, derived from `as_bokeh_value`. Two calls on
    /// the same object state yield identical text.
    fn as_string(&self) -> (r: String)
        ensures
            r@ == encoded(record_model(self.attributes_model(), self.kind_tag_spec())),
    {
        let v = self.as_bokeh_value();
        to_json_string(&v)
    }
}

/// Law: idempotence of the representation. The canonical JSON text of a
/// model object is a function of the object's state alone, so rendering the
/// same object twice yields byte-identical text both times.
pub proof fn lemma_as_string_deterministic<T: ToBokeh>(t: &T, s1: Seq<char>, s2: Seq<char>)
    requires
        s1 == encoded(record_model(t.attributes_model(), t.kind_tag_spec())),
        s2 == encoded(record_model(t.attributes_model(), t.kind_tag_spec())),
    ensures
        s1 == s2,
{
}

/// Named columnar storage backing a plot: a mapping from column name to a
/// sequence of values, kept in insertion order with unique names.
pub struct ColumnDataSource {
    /// The columns, in insertion order; names are unique.
    pub columns: Vec<(String, Vec<i64>)>,
}

/// The JSON object entries for a sequence of columns: each column name maps
/// to the array of that column's values.
pub open spec fn columns_model(cols: Seq<(Seq<char>, Seq<i64>)>) -> Map<Seq<char>, JsonModel>
    decreases cols.len(),
{
    if cols.len() == 0 {
        Map::empty()
    } else {
        columns_model(cols.drop_last()).insert(
            cols.last().0,
            JsonModel::Arr(cols.last().1.map_values(|v: i64| JsonModel::Int(v as int))),
        )
    }
}

/// The column mapping that a sequence of name/values pairs represents; a
/// later entry under the same name wins.
pub open spec fn data_of(cols: Seq<(Seq<char>, Seq<i64>)>) -> Map<Seq<char>, Seq<i64>>
    decreases cols.len(),
{
    if cols.len() == 0 {
        Map::empty()
    } else {
        data_of(cols.drop_last()).insert(cols.last().0, cols.last().1)
    }
}

/// Replacing the entry whose name is `k` in a sequence of uniquely named
/// columns updates the represented mapping at `k`.
proof fn lemma_data_of_update(cols: Seq<(Seq<char>, Seq<i64>)>, i: int, k: Seq<char>, v: Seq<i64>)
    requires
        0 <= i < cols.len(),
        cols[i].0 == k,
        forall|a: int, b: int| 0 <= a < b < cols.len() ==> cols[a].0 != cols[b].0,
    ensures
        data_of(cols.update(i, (k, v))) == data_of(cols).insert(k, v),
    decreases cols.len(),
{
    let u = cols.update(i, (k, v));
    if i == cols.len() - 1 {
        assert(u.drop_last() =~= cols.drop_last());
        assert(u.last() == (k, v));
        assert(cols.last().0 == k);
        assert(data_of(u) =~= data_of(cols).insert(k, v));
    } else {
        assert(u.drop_last() =~= cols.drop_last().update(i, (k, v)));
        assert(u.last() == cols.last());
        assert(forall|a: int, b: int|
            0 <= a < b < cols.drop_last().len() ==> cols.drop_last()[a].0
                != cols.drop_last()[b].0);
        lemma_data_of_update(cols.drop_last(), i, k, v);
        assert(cols.last().0 != k);
        assert(data_of(u) =~= data_of(cols).insert(k, v));
    }
}

impl ColumnDataSource {
    /// The columns as name/values pairs, in insertion order.
    pub open spec fn cols(&self) -> Seq<(Seq<char>, Seq<i64>)> {
        self.columns@.map_values(|p: (String, Vec<i64>)| (p.0@, p.1@))
    }

    /// The mapping from column name to values that the source holds.
    pub open spec fn data(&self) -> Map<Seq<char>, Seq<i64>> {
        data_of(self.cols())
    }

    /// Column names are unique.
    pub open spec fn wf(&self) -> bool {
        forall|i: int, j: int|
            0 <= i < j < self.cols().len() ==> self.cols()[i].0 != self.cols()[j].0
    }

    /// Creates a data source with no columns.
    pub fn new() -> (r: Self)
        ensures
            r.wf(),
            r.cols().len() == 0,
    {
        ColumnDataSource { columns: Vec::new() }
    }

    /// Adds a column. A column whose name is already present is replaced in
    /// place; a new name is appended after the existing columns.
    pub fn add(&mut self, key: String, values: Vec<i64>)
        requires
            old(self).wf(),
        ensures
            final(self).wf(),
            final(self).data() == old(self).data().insert(key@, values@),
            (forall|j: int| 0 <= j < old(self).cols().len() ==> old(self).cols()[j].0 != key@)
                ==> final(self).cols() =~= old(self).cols().push((key@, values@)),
            forall|j: int|
                0 <= j < old(self).cols().len() && old(self).cols()[j].0 == key@
                    ==> final(self).cols() =~= old(self).cols().update(j, (key@, values@)),
    {
        let mut i: usize = 0;
        while i < self.columns.len()
            invariant
                *self == *old(self),
                old(self).wf(),
                i <= self.columns.len(),
                forall|k: int| 0 <= k < i ==> old(self).cols()[k].0 != key@,
            decreases self.columns@.len() - i,
        {
            if self.columns[i].0 == key {
                self.columns[i] = (key, values);
                proof {
                    let oc = old(self).cols();
                    assert(oc[i as int].0 == key@);
                    assert(self.cols() =~= oc.update(i as int, (key@, values@)));
                    assert forall|a: int, b: int|
                        0 <= a < b < self.cols().len() implies self.cols()[a].0
                        != self.cols()[b].0 by {
                        if a != i as int && b != i as int {
                            assert(oc[a].0 != oc[b].0);
                        } else if a == i as int {
                            assert(oc[a].0 != oc[b].0);
                            assert(self.cols()[a].0 == key@ && key@ == oc[a].0);
                        } else {
                            assert(oc[a].0 != oc[b].0);
                            assert(self.cols()[b].0 == key@ && key@ == oc[b].0);
                        }
                    }
                    assert forall|j: int|
                        0 <= j < oc.len() && oc[j].0 == key@ implies self.cols() =~= oc.update(
                        j,
                        (key@, values@),
                    ) by {
                        if j != i as int {
                            assert(oc[j].0 != oc[i as int].0);
                            assert(false);
                        }
                    }
                    lemma_data_of_update(oc, i as int, key@, values@);
                }
                return ;
            }
            i += 1;
        }
        self.columns.push((key, values));
        proof {
            let oc = old(self).cols();
            assert(self.cols() =~= oc.push((key@, values@)));
            assert(self.cols().drop_last() =~= oc);
            assert forall|a: int, b: int|
                0 <= a < b < self.cols().len() implies self.cols()[a].0 != self.cols()[b].0 by {
                if b == oc.len() as int {
                    assert(oc[a].0 != key@);
                } else {
                    assert(oc[a].0 != oc[b].0);
                }
            }
        }
    }
}

impl ToBokeh for ColumnDataSource {
    open spec fn kind_tag_spec(&self) -> Seq<char> {
        "ColumnDataSource"@
    }

    open spec fn attributes_model(&self) -> JsonModel {
        JsonModel::Obj(map!["data"@ => JsonModel::Obj(columns_model(self.cols()))])
    }

    fn kind_tag(&self) -> (r: String) {
        "ColumnDataSource".to_owned()
    }

    fn attributes_value(&self) -> (r: serde_json::Value) {
        let mut data = json_obj_new();
        let mut i: usize = 0;
        while i < self.columns.len()
            invariant
                i <= self.columns.len(),
                object_entries(data) == columns_model(self.cols().take(i as int)),
            decreases self.columns@.len() - i,
        {
            let mut items: Vec<serde_json::Value> = Vec::new();
            let mut k: usize = 0;
            while k < self.columns[i].1.len()
                invariant
                    i < self.columns.len(),
                    k <= self.columns@[i as int].1@.len(),
                    items@.map_values(|x: serde_json::Value| value_model(x)) =~= self.cols()[
                        i as int
                    ].1.take(k as int).map_values(|v: i64| JsonModel::Int(v as int)),
                decreases self.columns@[i as int].1@.len() - k,
            {
                let value = self.columns[i].1[k];
                let ghost items_before = items@;
                let jv = json_int(value);
                items.push(jv);
                proof {
                    let col = self.cols()[i as int].1;
                    assert(value == col[k as int]);
                    items_before.lemma_push_map_commute(
                        |x: serde_json::Value| value_model(x),
                        jv,
                    );
                    col.lemma_map_take_succ(|v: i64| JsonModel::Int(v as int), k as int);
                    assert(items@.map_values(|x: serde_json::Value| value_model(x)) =~= col.take(
                        k as int + 1,
                    ).map_values(|v: i64| JsonModel::Int(v as int)));
                }
                k += 1;
            }
            proof {
                assert(self.cols()[i as int].1.take(self.cols()[i as int].1.len() as int) =~= self.cols()[
                    i as int
                ].1);
            }
            let name = self.columns[i].0.clone();
            json_obj_insert(&mut data, name, json_arr(items));
            proof {
                assert(self.cols().take(i + 1).drop_last() =~= self.cols().take(i as int));
                assert(self.cols().take(i + 1).last() == self.cols()[i as int]);
            }
            i += 1;
        }
        proof {
            assert(self.cols().take(self.columns@.len() as int) =~= self.cols());
        }
        let mut attrs = json_obj_new();
        json_obj_insert(&mut attrs, "data".to_owned(), json_obj(data));
        proof {
            assert(object_entries(attrs) =~= map![
                "data"@ => JsonModel::Obj(columns_model(self.cols()))
            ]);
        }
        json_obj(attrs)
    }
}

/// A visual mark kind.
pub enum Glyph {
    /// A circle mark.
    Circle(Circle),
}

/// A circle mark: optional column-name references for the visual channels
/// and an optional literal size. Referenced column names are not checked
/// against the bound data source; that is deferred to the rendering runtime.
pub struct Circle {
    /// Column name for the x coordinate.
    pub x: Option<String>,
    /// Column name for the y coordinate.
    pub y: Option<String>,
    /// Column name for the fill color.
    pub fill_color: Option<String>,
    /// Literal mark size.
    pub size: Option<u32>,
    /// Column name for the line color.
    pub line_color: Option<String>,
}

impl Default for Circle {
    /// A circle with every channel absent.
    fn default() -> (r: Self)
        ensures
            r.x is None,
            r.y is None,
            r.fill_color is None,
            r.size is None,
            r.line_color is None,
    {
        Circle { x: None, y: None, fill_color: None, size: None, line_color: None }
    }
}

impl Circle {
    /// Creates a circle with every channel absent.
    pub fn new() -> (r: Self)
        ensures
            r.x is None,
            r.y is None,
            r.fill_color is None,
            r.size is None,
            r.line_color is None,
    {
        Circle::default()
    }
}

impl From<Circle> for Glyph {
    fn from(c: Circle) -> (r: Glyph) {
        Glyph::Circle(c)
    }
}

impl vstd::std_specs::convert::FromSpecImpl<Circle> for Glyph {
    open spec fn obeys_from_spec() -> bool {
        true
    }

    open spec fn from_spec(c: Circle) -> Glyph {
        Glyph::Circle(c)
    }
}

/// Edge of the plot at which a layout element (such as an axis) is placed.
///
/// A plot keeps at most one layout per position; inserting at an occupied
/// position overwrites the previous layout.
#[derive(Clone, Copy, PartialEq, Eq, Hash, Structural, Debug)]
pub enum Position {
    /// Below the plot area.
    Below,
    /// Left of the plot area.
    Left,
    /// Right of the plot area.
    Right,
    /// Above the plot area.
    Above,
}

/// An axis or positional decoration attached to one of the plot's edges.
#[derive(Clone, Copy, PartialEq, Eq, Structural, Debug)]
pub enum Layout {
    /// A linear axis.
    LinearAxis,
}

/// An interactive plot behavior; tools carry no configuration.
#[derive(Clone, Copy, PartialEq, Eq, Structural, Debug)]
pub enum Tool {
    /// Lets the plot pan.
    PanTool,
    /// Zooms with the mouse wheel.
    WheelZoomTool,
}

/// Stateless marker for default tick placement; its only behavior is its
/// fixed typed-model-value representation.
pub struct BasicTicker;

impl BasicTicker {
    /// Creates a ticker.
    pub fn new() -> BasicTicker {
        BasicTicker {}
    }
}

impl ToBokeh for BasicTicker {
    open spec fn kind_tag_spec(&self) -> Seq<char> {
        "BasicTicker"@
    }

    open spec fn attributes_model(&self) -> JsonModel {
        JsonModel::Obj(no_entries())
    }

    fn kind_tag(&self) -> (r: String) {
        "BasicTicker".to_owned()
    }

    fn attributes_value(&self) -> (r: serde_json::Value) {
        json_obj(json_obj_new())
    }
}

/// Stateless marker for default tick label formatting; its only behavior is
/// its fixed typed-model-value representation.
pub struct BasicTickFormatter;

impl BasicTickFormatter {
    /// Creates a formatter.
    pub fn new() -> BasicTickFormatter {
        BasicTickFormatter {}
    }
}

impl ToBokeh for BasicTickFormatter {
    open spec fn kind_tag_spec(&self) -> Seq<char> {
        "BasicTickFormatter"@
    }

    open spec fn attributes_model(&self) -> JsonModel {
        JsonModel::Obj(no_entries())
    }

    fn kind_tag(&self) -> (r: String) {
        "BasicTickFormatter".to_owned()
    }

    fn attributes_value(&self) -> (r: serde_json::Value) {
        json_obj(json_obj_new())
    }
}

} // verus!
