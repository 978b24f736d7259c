//! The builder-to-validated state transitions of plots and documents.

use std::rc::Rc;

use bokeh_models::{
    Circle, ColumnDataSource, Document, Glyph, Layout, Plot, Position, Tool, ValidationError,
};

#[test]
fn empty_plot_fails_validation() {
    let plot = Plot::new();
    assert_eq!(plot.validate().err(), Some(ValidationError::MissingDataSource));
}

#[test]
fn plot_with_glyph_validates() {
    let source = Rc::new(ColumnDataSource::new());
    let mut plot = Plot::new();
    plot.add_glyph(source.clone(), Glyph::from(Circle::new()));
    let validated = plot.validate().unwrap();
    assert!(Rc::ptr_eq(&validated.source, &source));
    assert_eq!(validated.glyphs.len(), 1);
}

#[test]
fn last_attached_source_wins() {
    let first = Rc::new(ColumnDataSource::new());
    let mut second_cds = ColumnDataSource::new();
    second_cds.add("x".to_string(), vec![1]);
    let second = Rc::new(second_cds);
    let mut plot = Plot::new();
    plot.add_glyph(first.clone(), Glyph::from(Circle::new()));
    plot.add_glyph(second.clone(), Glyph::from(Circle::new()));
    let validated = plot.validate().unwrap();
    assert!(Rc::ptr_eq(&validated.source, &second));
    assert!(!Rc::ptr_eq(&validated.source, &first));
    assert_eq!(validated.glyphs.len(), 2);
}

#[test]
fn layout_insertion_overwrites_position() {
    let mut plot = Plot::new();
    plot.add_layout(Position::Below, Layout::LinearAxis);
    plot.add_layout(Position::Below, Layout::LinearAxis);
    plot.add_layout(Position::Left, Layout::LinearAxis);
    assert_eq!(plot.layout_below, Some(Layout::LinearAxis));
    assert_eq!(plot.layout_left, Some(Layout::LinearAxis));
    assert_eq!(plot.layout_right, None);
    assert_eq!(plot.layout_above, None);
}

#[test]
fn tools_keep_insertion_order() {
    let mut plot = Plot::new();
    plot.add_tool(Tool::PanTool);
    plot.add_tool(Tool::WheelZoomTool);
    assert_eq!(plot.tools, vec![Tool::PanTool, Tool::WheelZoomTool]);
}

#[test]
fn validated_plot_keeps_builder_state() {
    let source = Rc::new(ColumnDataSource::new());
    let mut plot = Plot::new();
    plot.min_border = Some(40);
    plot.add_glyph(source, Glyph::from(Circle::new()));
    plot.add_layout(Position::Above, Layout::LinearAxis);
    plot.add_tool(Tool::PanTool);
    let validated = plot.validate().unwrap();
    assert_eq!(validated.min_border, Some(40));
    assert_eq!(validated.layout_above, Some(Layout::LinearAxis));
    assert_eq!(validated.tools, vec![Tool::PanTool]);
}

#[test]
fn document_without_root_fails_validation() {
    let doc = Document::new();
    assert_eq!(doc.validate().err(), Some(ValidationError::MissingPlot));
}

#[test]
fn document_with_invalid_plot_propagates_error() {
    let mut doc = Document::new();
    doc.add_root(Plot::new());
    assert_eq!(doc.validate().err(), Some(ValidationError::MissingDataSource));
}

#[test]
fn document_with_valid_plot_validates() {
    let source = Rc::new(ColumnDataSource::new());
    let mut plot = Plot::new();
    plot.add_glyph(source.clone(), Glyph::from(Circle::new()));
    let mut doc = Document::new();
    doc.add_root(plot);
    let validated = doc.validate().unwrap();
    assert!(Rc::ptr_eq(&validated.plot.source, &source));
}
