//! Canonical JSON representations of the leaf model objects.

use bokeh_models::{BasicTickFormatter, BasicTicker, Circle, ColumnDataSource, ToBokeh};

fn empty_record(kind: &str) -> serde_json::Value {
    let mut m = serde_json::Map::new();
    m.insert(
        "attributes".to_string(),
        serde_json::Value::Object(serde_json::Map::new()),
    );
    m.insert(
        "type".to_string(),
        serde_json::Value::String(kind.to_string()),
    );
    serde_json::Value::Object(m)
}

#[test]
fn basic_ticker_value_exact() {
    let v = BasicTicker::new().as_bokeh_value();
    assert_eq!(v, empty_record("BasicTicker"));
    // No `id` field: identity is assigned only by the serializer.
    assert!(v.as_object().unwrap().get("id").is_none());
}

#[test]
fn basic_tick_formatter_value_exact() {
    let v = BasicTickFormatter::new().as_bokeh_value();
    assert_eq!(v, empty_record("BasicTickFormatter"));
}

#[test]
fn basic_ticker_string_exact() {
    let s = BasicTicker::new().as_string();
    assert_eq!(s, "{\"attributes\":{},\"type\":\"BasicTicker\"}");
}

#[test]
fn as_string_is_idempotent() {
    let t = BasicTicker::new();
    assert_eq!(t.as_string(), t.as_string());

    let mut cds = ColumnDataSource::new();
    cds.add("x".to_string(), vec![1, 2, 3]);
    assert_eq!(cds.as_string(), cds.as_string());
}

#[test]
fn circle_new_has_no_channels() {
    let c = Circle::new();
    assert!(c.x.is_none());
    assert!(c.y.is_none());
    assert!(c.fill_color.is_none());
    assert!(c.size.is_none());
    assert!(c.line_color.is_none());
}

#[test]
fn column_data_source_value() {
    let mut cds = ColumnDataSource::new();
    cds.add("x".to_string(), vec![1, 2, 3]);
    let v = cds.as_bokeh_value();
    let obj = v.as_object().unwrap();
    assert_eq!(
        obj.get("type").unwrap(),
        &serde_json::Value::String("ColumnDataSource".to_string())
    );
    let data = obj.get("attributes").unwrap().get("data").unwrap();
    let xs = data.get("x").unwrap().as_array().unwrap();
    let expected: Vec<serde_json::Value> =
        vec![1i64.into(), 2i64.into(), 3i64.into()];
    assert_eq!(xs, &expected);
}

#[test]
fn empty_column_data_source_string_exact() {
    let cds = ColumnDataSource::new();
    assert_eq!(
        cds.as_string(),
        "{\"attributes\":{\"data\":{}},\"type\":\"ColumnDataSource\"}"
    );
}

#[test]
fn column_data_source_add_replaces_existing_column() {
    let mut cds = ColumnDataSource::new();
    cds.add("x".to_string(), vec![1]);
    cds.add("x".to_string(), vec![2, 3]);
    assert_eq!(cds.columns.len(), 1);
    let v = cds.as_bokeh_value();
    let xs = v
        .get("attributes")
        .unwrap()
        .get("data")
        .unwrap()
        .get("x")
        .unwrap()
        .as_array()
        .unwrap();
    assert_eq!(xs.len(), 2);
    assert_eq!(xs[0], serde_json::Value::from(2i64));
    assert_eq!(xs[1], serde_json::Value::from(3i64));
}

#[test]
fn column_data_source_keeps_all_columns() {
    let mut cds = ColumnDataSource::new();
    cds.add("a".to_string(), vec![10]);
    cds.add("b".to_string(), vec![20]);
    let v = cds.as_bokeh_value();
    let data = v.get("attributes").unwrap().get("data").unwrap();
    let keys: Vec<&String> = data.as_object().unwrap().keys().collect();
    assert_eq!(keys, vec!["a", "b"]);
}
