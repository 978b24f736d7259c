//! The document builder, its validated form, and the reference-graph
//! serializer that flattens a validated document into the external wire
//! format.
//!
//! The wire document is
//! `{ "roots": { "references": [ ... ] }, "title": ..., "version": "1.0.3" }`,
//! where `references` holds the record of every distinct reachable model
//! object exactly once, each tagged with an identity assigned by this
//! serializer. Traversal currently reaches the root plot's data source; glyph,
//! layout and tool records are an extension point of the wire format and are
//! deliberately not emitted.

use vstd::prelude::*;
use vstd::string::StringExecFns;

use crate::json::{
    json_arr, json_obj, json_obj_insert, json_obj_new, json_str, object_entries, value_model,
    JsonModel,
};
use crate::model::{ColumnDataSource, ToBokeh};
use crate::plot::{plot_validate_spec, Plot, ValidatedPlot, ValidationError};

verus! {

/// A document under construction: at most one root plot, the last one set
/// winning.
pub struct Document {
    /// The root plot, once one was added.
    pub plot: Option<Plot>,
}

/// A document that has passed validation: its root plot is present and
/// itself validated. Constructed only by [`Document::validate`].
pub struct ValidatedDocument {
    /// The validated root plot.
    pub plot: ValidatedPlot,
}

/// What document validation returns: `MissingPlot` when no root was ever
/// set, the root plot's own validation error when the root is invalid, and
/// otherwise the frozen document.
pub open spec fn document_validate_spec(d: Document) -> Result<
    ValidatedDocument,
    ValidationError,
> {
    match d.plot {
        Some(p) => match plot_validate_spec(p) {
            Ok(vp) => Ok(ValidatedDocument { plot: vp }),
            Err(e) => Err(e),
        },
        None => Err(ValidationError::MissingPlot),
    }
}

impl Document {
    /// Creates a document with no root plot.
    pub fn new() -> (r: Self)
        ensures
            r.plot is None,
    {
        Document { plot: None }
    }

    /// Stores `plot` as the single root; a second call replaces the first.
    pub fn add_root(&mut self, plot: Plot)
        ensures
            final(self).plot == Some(plot),
    {
        self.plot = Some(plot);
    }

    /// Consumes the builder. Fails with `MissingPlot` exactly when no root
    /// was ever set; otherwise validates the root plot, propagating its
    /// error, and freezes the result.
    pub fn validate(self) -> (r: Result<ValidatedDocument, ValidationError>)
        ensures
            r == document_validate_spec(self),
    {
        match self.plot {
            Some(p) => match p.validate() {
                Ok(vp) => Ok(ValidatedDocument { plot: vp }),
                Err(e) => Err(e),
            },
            None => Err(ValidationError::MissingPlot),
        }
    }
}

/// The decimal digit `d` as a character.
pub open spec fn digit_char(d: nat) -> char {
    if d == 0 {
        '0'
    } else if d == 1 {
        '1'
    } else if d == 2 {
        '2'
    } else if d == 3 {
        '3'
    } else if d == 4 {
        '4'
    } else if d == 5 {
        '5'
    } else if d == 6 {
        '6'
    } else if d == 7 {
        '7'
    } else if d == 8 {
        '8'
    } else {
        '9'
    }
}

/// The decimal digits of `n`, most significant first.
pub open spec fn decimal_of(n: nat) -> Seq<char>
    decreases n,
{
    if n < 10 {
        seq![digit_char(n)]
    } else {
        decimal_of(n / 10).push(digit_char(n % 10))
    }
}

/// The decimal digit `d` as a string slice.
fn digit_str(d: u64) -> (r: &'static str)
    requires
        d < 10,
    ensures
        r@ == seq![digit_char(d as nat)],
{
    proof {
        reveal_strlit("0");
        reveal_strlit("1");
        reveal_strlit("2");
        reveal_strlit("3");
        reveal_strlit("4");
        reveal_strlit("5");
        reveal_strlit("6");
        reveal_strlit("7");
        reveal_strlit("8");
        reveal_strlit("9");
    }
    let r = match d {
        0 => "0",
        1 => "1",
        2 => "2",
        3 => "3",
        4 => "4",
        5 => "5",
        6 => "6",
        7 => "7",
        8 => "8",
        _ => "9",
    };
    proof {
        assert(r@ =~= seq![digit_char(d as nat)]);
    }
    r
}

/// Writes `n` in decimal, for use as an assigned identity.
fn u64_to_decimal(n: u64) -> (r: String)
    ensures
        r@ == decimal_of(n as nat),
    decreases n,
{
    if n < 10 {
        digit_str(n).to_owned()
    } else {
        let mut s = u64_to_decimal(n / 10);
        s.append(digit_str(n % 10));
        proof {
            assert(s@ =~= decimal_of(n as nat));
        }
        s
    }
}

/// The model of one entry of the reference list: the record of a reachable
/// model object together with its assigned identity,
/// `{ "id": id, "attributes": attrs, "type": ty }`.
pub open spec fn ref_entry_model(id: Seq<char>, attrs: JsonModel, ty: Seq<char>) -> JsonModel {
    JsonModel::Obj(
        map!["id"@ => JsonModel::Str(id), "attributes"@ => attrs, "type"@ => JsonModel::Str(ty)],
    )
}

/// Builds `{ "id": id, "attributes": attrs, "type": ty }`.
fn ref_entry_value(id: String, attrs: serde_json::Value, ty: String) -> (r: serde_json::Value)
    ensures
        value_model(r) == ref_entry_model(id@, value_model(attrs), ty@),
{
    let mut m = json_obj_new();
    json_obj_insert(&mut m, "id".to_owned(), json_str(id));
    json_obj_insert(&mut m, "attributes".to_owned(), attrs);
    json_obj_insert(&mut m, "type".to_owned(), json_str(ty));
    proof {
        assert(object_entries(m) =~= map![
            "id"@ => JsonModel::Str(id@),
            "attributes"@ => value_model(attrs),
            "type"@ => JsonModel::Str(ty@),
        ]);
    }
    json_obj(m)
}

/// The reference records of a validated document: one entry per distinct
/// reachable model object, in traversal order, each identified by its
/// position. Traversal reaches the root plot's data source.
pub open spec fn references_model(d: ValidatedDocument) -> Seq<JsonModel> {
    seq![
        ref_entry_model(
            decimal_of(0),
            (*d.plot.source).attributes_model(),
            (*d.plot.source).kind_tag_spec(),
        ),
    ]
}

impl ValidatedDocument {
    /// Collects the record of every model object reachable from the root,
    /// each exactly once and tagged with its assigned identity. A data
    /// source shared along several paths yields a single record.
    pub fn references(&self) -> (r: Vec<serde_json::Value>)
        ensures
            r@.map_values(|v: serde_json::Value| value_model(v)) == references_model(*self),
    {
        let mut out: Vec<serde_json::Value> = Vec::new();
        let source: &ColumnDataSource = &self.plot.source;
        let id = u64_to_decimal(out.len() as u64);
        let attrs = source.attributes_value();
        let ty = source.kind_tag();
        out.push(ref_entry_value(id, attrs, ty));
        proof {
            assert(out@.map_values(|v: serde_json::Value| value_model(v)) =~= references_model(
                *self,
            ));
        }
        out
    }
}

/// The model of the wire document: the reference list under
/// `roots.references`, the given title, and the fixed protocol version.
pub open spec fn wire_model(refs: Seq<JsonModel>, title: Seq<char>) -> JsonModel {
    JsonModel::Obj(
        map![
            "roots"@ => JsonModel::Obj(map!["references"@ => JsonModel::Arr(refs)]),
            "title"@ => JsonModel::Str(title),
            "version"@ => JsonModel::Str("1.0.3"@),
        ],
    )
}

/// Flattens a validated document into the wire format:
/// `{ "roots": { "references": [...] }, "title": title, "version": "1.0.3" }`.
/// Serialization of a validated document cannot fail.
pub fn to_bokeh_json(doc: &ValidatedDocument, title: String) -> (r: Result<
    serde_json::Value,
    ValidationError,
>)
    ensures
        r matches Ok(v) && value_model(v) == wire_model(references_model(*doc), title@),
{
    let refs = doc.references();
    let mut roots = json_obj_new();
    json_obj_insert(&mut roots, "references".to_owned(), json_arr(refs));
    proof {
        assert(object_entries(roots) =~= map![
            "references"@ => JsonModel::Arr(references_model(*doc))
        ]);
    }
    let mut m = json_obj_new();
    json_obj_insert(&mut m, "roots".to_owned(), json_obj(roots));
    json_obj_insert(&mut m, "title".to_owned(), json_str(title));
    json_obj_insert(&mut m, "version".to_owned(), json_str("1.0.3".to_owned()));
    proof {
        assert(object_entries(m) =~= map![
            "roots"@ => JsonModel::Obj(map!["references"@ => JsonModel::Arr(references_model(*doc))]),
            "title"@ => JsonModel::Str(title@),
            "version"@ => JsonModel::Str("1.0.3"@),
        ]);
    }
    Ok(json_obj(m))
}

/// Law: a document builder with no root fails validation with
/// `MissingPlot`; one whose root plot is invalid fails by propagating the
/// plot's error; and one whose root plot is valid validates to the frozen
/// root.
pub proof fn lemma_document_validation(d: Document)
    ensures
        d.plot is None ==> document_validate_spec(d) == Result::<
            ValidatedDocument,
            ValidationError,
        >::Err(ValidationError::MissingPlot),
        d.plot matches Some(p) && p.source is None ==> document_validate_spec(d) == Result::<
            ValidatedDocument,
            ValidationError,
        >::Err(ValidationError::MissingDataSource),
        d.plot matches Some(p) && p.source is Some ==> document_validate_spec(d) is Ok,
        d.plot is Some && document_validate_spec(d) is Ok ==> plot_validate_spec(d.plot->Some_0)
            == Result::<ValidatedPlot, ValidationError>::Ok(document_validate_spec(d)->Ok_0.plot),
{
    if d.plot is Some {
        let p = d.plot->Some_0;
        if plot_validate_spec(p) is Ok {
            let vp = plot_validate_spec(p)->Ok_0;
            assert(plot_validate_spec(p) == Result::<ValidatedPlot, ValidationError>::Ok(vp));
            assert(document_validate_spec(d) == Result::<ValidatedDocument, ValidationError>::Ok(
                ValidatedDocument { plot: vp },
            ));
        }
    }
}

/// Law: the wire document is an object with exactly the keys `roots`,
/// `title` and `version`; `roots` has exactly the key `references`, holding
/// an array; and every element of that array is an object with exactly the
/// keys `id`, `attributes` and `type`.
pub proof fn lemma_wire_shape(d: ValidatedDocument, title: Seq<char>)
    ensures
        wire_model(references_model(d), title) matches JsonModel::Obj(m) && m.dom()
            =~= set!["roots"@, "title"@, "version"@],
        wire_model(references_model(d), title)->Obj_0["roots"@] matches JsonModel::Obj(rm)
            && rm.dom() =~= set!["references"@] && rm["references"@] is Arr,
        forall|i: int|
            0 <= i < references_model(d).len() ==> (#[trigger] references_model(d)[i] matches JsonModel::Obj(em)
                && em.dom() =~= set!["id"@, "attributes"@, "type"@]),
{
    reveal_strlit("roots");
    reveal_strlit("title");
    reveal_strlit("version");
    assert(wire_model(references_model(d), title)->Obj_0.dom()
        =~= set!["roots"@, "title"@, "version"@]);
    assert("roots"@[0] == 'r' && "title"@[0] == 't' && "version"@[0] == 'v');
    let rm = map!["references"@ => JsonModel::Arr(references_model(d))];
    assert(rm.dom() =~= set!["references"@]);
    assert(references_model(d)[0]->Obj_0.dom() =~= set!["id"@, "attributes"@, "type"@]);
}

/// Law: no duplication. Each distinct reachable model object appears exactly
/// once in the reference list: the list never holds the same record at two
/// indices, even when the object is reachable along several paths.
pub proof fn lemma_references_no_duplication(d: ValidatedDocument)
    ensures
        forall|i: int, j: int|
            0 <= i < references_model(d).len() && 0 <= j < references_model(d).len()
                && references_model(d)[i] == references_model(d)[j] ==> i == j,
{
}

} // verus!
