//! The plot builder and its validated, immutable form.
//!
//! A [`Plot`] is a mutable accumulator: one shared data source, glyphs in
//! order, at most one layout per edge, and tools in order. [`Plot::validate`]
//! consumes the builder and is the single correctness checkpoint: it fails
//! exactly when no data source was ever attached, and otherwise freezes the
//! accumulated state into a [`ValidatedPlot`].

use std::rc::Rc;
use vstd::prelude::*;

use crate::model::{ColumnDataSource, Glyph, Layout, Position, Tool};

verus! {

/// Why a validation step refused a builder.
#[derive(Clone, Copy, PartialEq, Eq, Structural, Debug)]
pub enum ValidationError {
    /// Plot validation found no attached data source.
    MissingDataSource,
    /// Document validation found no root plot.
    MissingPlot,
}

/// A plot under construction.
pub struct Plot {
    /// Minimum border width.
    pub min_border: Option<u32>,
    /// The data source bound by `add_glyph`; the last one attached wins.
    pub source: Option<Rc<ColumnDataSource>>,
    /// The glyphs, in the order they were added.
    pub glyphs: Vec<Glyph>,
    /// The layout at the lower edge.
    pub layout_below: Option<Layout>,
    /// The layout at the left edge.
    pub layout_left: Option<Layout>,
    /// The layout at the right edge.
    pub layout_right: Option<Layout>,
    /// The layout at the upper edge.
    pub layout_above: Option<Layout>,
    /// The tools, in the order they were added.
    pub tools: Vec<Tool>,
}

/// A plot that has passed validation: structurally a [`Plot`], but with the
/// data source guaranteed present. Constructed only by [`Plot::validate`].
pub struct ValidatedPlot {
    /// Minimum border width.
    pub min_border: Option<u32>,
    /// The data source the glyphs draw from.
    pub source: Rc<ColumnDataSource>,
    /// The glyphs, in the order they were added.
    pub glyphs: Vec<Glyph>,
    /// The layout at the lower edge.
    pub layout_below: Option<Layout>,
    /// The layout at the left edge.
    pub layout_left: Option<Layout>,
    /// The layout at the right edge.
    pub layout_right: Option<Layout>,
    /// The layout at the upper edge.
    pub layout_above: Option<Layout>,
    /// The tools, in the order they were added.
    pub tools: Vec<Tool>,
}

/// What plot validation returns: the builder's state frozen into a
/// [`ValidatedPlot`] when a data source is bound, and `MissingDataSource`
/// when none ever was.
pub open spec fn plot_validate_spec(p: Plot) -> Result<ValidatedPlot, ValidationError> {
    if p.source is Some {
        Ok(
            ValidatedPlot {
                min_border: p.min_border,
                source: p.source->Some_0,
                glyphs: p.glyphs,
                layout_below: p.layout_below,
                layout_left: p.layout_left,
                layout_right: p.layout_right,
                layout_above: p.layout_above,
                tools: p.tools,
            },
        )
    } else {
        Err(ValidationError::MissingDataSource)
    }
}

impl Plot {
    /// The layout at edge `p`, if any.
    pub open spec fn layout_at(&self, p: Position) -> Option<Layout> {
        match p {
            Position::Below => self.layout_below,
            Position::Left => self.layout_left,
            Position::Right => self.layout_right,
            Position::Above => self.layout_above,
        }
    }

    /// The position-keyed layout map that the four edge slots represent.
    pub open spec fn layouts(&self) -> Map<Position, Layout> {
        Map::new(|p: Position| self.layout_at(p) is Some, |p: Position| self.layout_at(p)->Some_0)
    }

    /// Creates an empty plot: no source, no glyphs, no layouts, no tools.
    pub fn new() -> (r: Self)
        ensures
            r.min_border is None,
            r.source is None,
            r.glyphs@.len() == 0,
            r.layout_below is None,
            r.layout_left is None,
            r.layout_right is None,
            r.layout_above is None,
            r.tools@.len() == 0,
    {
        Plot {
            min_border: None,
            source: None,
            glyphs: Vec::new(),
            layout_below: None,
            layout_left: None,
            layout_right: None,
            layout_above: None,
            tools: Vec::new(),
        }
    }

    /// Binds `source` as the plot's data source (the last writer wins when
    /// called repeatedly) and appends `glyph` to the glyph sequence.
    pub fn add_glyph(&mut self, source: Rc<ColumnDataSource>, glyph: Glyph)
        ensures
            final(self).source == Some(source),
            final(self).glyphs@ == old(self).glyphs@.push(glyph),
            final(self).min_border == old(self).min_border,
            final(self).layouts() == old(self).layouts(),
            final(self).tools@ == old(self).tools@,
    {
        self.source = Some(source);
        self.glyphs.push(glyph);
    }

    /// Places `layout` at edge `position`, replacing any layout already
    /// there.
    pub fn add_layout(&mut self, position: Position, layout: Layout)
        ensures
            final(self).layouts() == old(self).layouts().insert(position, layout),
            final(self).min_border == old(self).min_border,
            final(self).source == old(self).source,
            final(self).glyphs@ == old(self).glyphs@,
            final(self).tools@ == old(self).tools@,
    {
        match position {
            Position::Below => self.layout_below = Some(layout),
            Position::Left => self.layout_left = Some(layout),
            Position::Right => self.layout_right = Some(layout),
            Position::Above => self.layout_above = Some(layout),
        }
        proof {
            assert(self.layouts() =~= old(self).layouts().insert(position, layout));
        }
    }

    /// Appends `tool` to the tool sequence.
    pub fn add_tool(&mut self, tool: Tool)
        ensures
            final(self).tools@ == old(self).tools@.push(tool),
            final(self).min_border == old(self).min_border,
            final(self).source == old(self).source,
            final(self).glyphs@ == old(self).glyphs@,
            final(self).layouts() == old(self).layouts(),
    {
        self.tools.push(tool);
    }

    /// Consumes the builder. Fails with `MissingDataSource` exactly when no
    /// data source was ever bound by `add_glyph`; otherwise freezes the
    /// accumulated state into an immutable [`ValidatedPlot`].
    pub fn validate(self) -> (r: Result<ValidatedPlot, ValidationError>)
        ensures
            r == plot_validate_spec(self),
    {
        match self.source {
            Some(source) => Ok(
                ValidatedPlot {
                    min_border: self.min_border,
                    source,
                    glyphs: self.glyphs,
                    layout_below: self.layout_below,
                    layout_left: self.layout_left,
                    layout_right: self.layout_right,
                    layout_above: self.layout_above,
                    tools: self.tools,
                },
            ),
            None => Err(ValidationError::MissingDataSource),
        }
    }
}

impl ValidatedPlot {
    /// The layout at edge `p`, if any.
    pub open spec fn layout_at(&self, p: Position) -> Option<Layout> {
        match p {
            Position::Below => self.layout_below,
            Position::Left => self.layout_left,
            Position::Right => self.layout_right,
            Position::Above => self.layout_above,
        }
    }

    /// The position-keyed layout map that the four edge slots represent.
    pub open spec fn layouts(&self) -> Map<Position, Layout> {
        Map::new(|p: Position| self.layout_at(p) is Some, |p: Position| self.layout_at(p)->Some_0)
    }
}

/// A plot builder with zero glyph and source attachments — no `add_glyph`
/// call ever bound a source — fails validation with `MissingDataSource`.
pub proof fn lemma_plot_without_source_fails(p: Plot)
    requires
        p.source is None,
    ensures
        plot_validate_spec(p) == Result::<ValidatedPlot, ValidationError>::Err(
            ValidationError::MissingDataSource,
        ),
{
}

/// A plot builder whose source was bound — as every `add_glyph` call does —
/// validates, and the validated plot carries the builder's state, its source
/// being the last one attached.
pub proof fn lemma_plot_with_source_validates(p: Plot, s: Rc<ColumnDataSource>)
    requires
        p.source == Some(s),
    ensures
        plot_validate_spec(p) matches Ok(vp) && vp.source == s && vp.min_border == p.min_border
            && vp.glyphs@ == p.glyphs@ && vp.layouts() == p.layouts() && vp.tools@ == p.tools@,
{
    let vp = plot_validate_spec(p)->Ok_0;
    assert(vp.layouts() =~= p.layouts());
}

} // verus!
