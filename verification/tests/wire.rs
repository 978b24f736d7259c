//! The wire-format document produced by the reference-graph serializer.

use std::rc::Rc;

use bokeh_models::{to_bokeh_json, Circle, ColumnDataSource, Document, Glyph, Plot};

fn demo_document() -> bokeh_models::ValidatedDocument {
    let mut cds = ColumnDataSource::new();
    cds.add("x".to_string(), vec![1, 2, 3]);
    cds.add("y".to_string(), vec![4, 5, 6]);
    let source = Rc::new(cds);
    let mut circle = Circle::new();
    circle.x = Some("x".to_string());
    circle.y = Some("y".to_string());
    let mut plot = Plot::new();
    plot.add_glyph(source, Glyph::from(circle));
    let mut doc = Document::new();
    doc.add_root(plot);
    doc.validate().unwrap()
}

#[test]
fn wire_document_has_exactly_the_wire_keys() {
    let doc = demo_document();
    let v = to_bokeh_json(&doc, "t".to_string()).unwrap();
    let keys: Vec<&String> = v.as_object().unwrap().keys().collect();
    assert_eq!(keys, vec!["roots", "title", "version"]);

    let roots = v.get("roots").unwrap().as_object().unwrap();
    let root_keys: Vec<&String> = roots.keys().collect();
    assert_eq!(root_keys, vec!["references"]);

    let refs = roots.get("references").unwrap().as_array().unwrap();
    for entry in refs {
        let entry_keys: Vec<&String> = entry.as_object().unwrap().keys().collect();
        assert_eq!(entry_keys, vec!["attributes", "id", "type"]);
    }
}

#[test]
fn demo_document_wire_output() {
    let doc = demo_document();
    let v = to_bokeh_json(&doc, "demo".to_string()).unwrap();
    assert_eq!(
        v.get("title").unwrap(),
        &serde_json::Value::String("demo".to_string())
    );
    assert_eq!(
        v.get("version").unwrap(),
        &serde_json::Value::String("1.0.3".to_string())
    );
    let refs = v
        .get("roots")
        .unwrap()
        .get("references")
        .unwrap()
        .as_array()
        .unwrap();
    assert_eq!(refs.len(), 1);
    let entry = &refs[0];
    assert_eq!(
        entry.get("type").unwrap(),
        &serde_json::Value::String("ColumnDataSource".to_string())
    );
    let data = entry.get("attributes").unwrap().get("data").unwrap();
    let xs = data.get("x").unwrap().as_array().unwrap();
    assert_eq!(xs.len(), 3);
    assert_eq!(xs[0], serde_json::Value::from(1i64));
    let ys = data.get("y").unwrap().as_array().unwrap();
    assert_eq!(ys[2], serde_json::Value::from(6i64));
}

#[test]
fn references_assigns_identity_by_position() {
    let doc = demo_document();
    let refs = doc.references();
    assert_eq!(refs.len(), 1);
    assert_eq!(
        refs[0].get("id").unwrap(),
        &serde_json::Value::String("0".to_string())
    );
}

#[test]
fn shared_source_appears_once() {
    // The data source is reachable through the document's single root; a
    // source shared by several attachments still yields one record.
    let source = Rc::new(ColumnDataSource::new());
    let mut plot = Plot::new();
    plot.add_glyph(source.clone(), Glyph::from(Circle::new()));
    plot.add_glyph(source.clone(), Glyph::from(Circle::new()));
    let mut doc = Document::new();
    doc.add_root(plot);
    let validated = doc.validate().unwrap();
    let refs = validated.references();
    assert_eq!(refs.len(), 1);
}

#[test]
fn wire_output_parses_back() {
    let doc = demo_document();
    let v = to_bokeh_json(&doc, "demo".to_string()).unwrap();
    let text = serde_json::to_string(&v).unwrap();
    let parsed: serde_json::Value = serde_json::from_str(&text).unwrap();
    assert_eq!(parsed, v);
}
