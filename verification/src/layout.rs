//! What the editor asks of, and learns from, the laid-out paragraph.
//!
//! Shaping and drawing are the host's business. The editor tells it which
//! pieces of text to lay out in which style, where carets belong and what to
//! scroll into view, and it turns the glyph cluster under a touch into a byte
//! offset of the text.

use vstd::prelude::*;

verus! {

/// The glyph cluster nearest to a point, as the laid-out paragraph reports
/// it.
#[derive(PartialEq, Eq, Structural, Copy, Clone, Debug)]
pub struct GlyphHit {
    /// Byte offset at which the cluster starts.
    pub start: usize,
    /// Byte offset at which the cluster ends.
    pub end: usize,
    /// Whether the point lies in the left half of the cluster.
    pub leading_half: bool,
}

impl GlyphHit {
    /// The end of the cluster that the point is nearer to.
    pub open spec fn nearest_edge(self) -> usize {
        if self.leading_half {
            self.start
        } else {
            self.end
        }
    }

    /// The end of the cluster that the point is nearer to: its start for a
    /// point in the left half, its end otherwise.
    pub fn edge(&self) -> (offset: usize)
        ensures
            offset == self.nearest_edge(),
    {
        if self.leading_half {
            self.start
        } else {
            self.end
        }
    }
}

/// Style of a piece of text in the paragraph.
#[derive(PartialEq, Eq, Structural, Copy, Clone, Debug)]
pub enum RunStyle {
    /// Ordinary text.
    Plain,
    /// Text inside the selection.
    Selected,
    /// Composition text of the input method.
    Preedit,
}

/// A piece of text to lay out in one style.
#[derive(Debug)]
pub struct TextRun {
    /// Style of the piece.
    pub style: RunStyle,
    /// Text of the piece.
    pub text: String,
}

/// Where the metrics for a caret come from.
#[derive(PartialEq, Eq, Structural, Copy, Clone, Debug)]
pub enum CaretAnchor {
    /// Nothing is laid out: use the metrics of the fallback font.
    FontMetrics,
    /// The start of the first line.
    FirstLine,
    /// The start of the line that follows the line feed at this byte, and
    /// the right edge of that byte's cluster if there is no such line.
    AfterNewline(usize),
    /// The right edge of the cluster that holds this byte.
    AfterCluster(usize),
}

/// What to do with the scroll offset before drawing.
#[derive(PartialEq, Eq, Structural, Copy, Clone, Debug)]
pub enum ScrollRequest {
    /// There is no text: scroll back to the top.
    Reset,
    /// Keep the offset within the limits of the content.
    Clamp,
    /// Bring the line of this byte offset into view.
    RevealCursor(usize),
    /// Bring the lines of these two offsets into view, the first one first.
    RevealSelection(usize, usize),
}

/// Which carets to draw.
#[derive(PartialEq, Eq, Structural, Copy, Clone, Debug)]
pub enum CaretRequest {
    /// The text box is not focused: draw none.
    Hidden,
    /// The cursor at this byte offset.
    Cursor(usize),
    /// The two selection handles at these byte offsets.
    Selection(usize, usize),
}

/// What one drawing of the text box consists of.
#[derive(PartialEq, Eq, Structural, Copy, Clone, Debug)]
pub struct DrawPlan {
    /// Whether there is text or composition text to lay out.
    pub has_content: bool,
    /// What to do with the scroll offset.
    pub scroll: ScrollRequest,
    /// Which carets to draw.
    pub carets: CaretRequest,
}

} // verus!
