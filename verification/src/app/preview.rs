//! The pane a document is read in, and how it is scrolled.
use crate::text::Text;
use ratatui_markdown::viewer::MarkdownViewer;
use vstd::prelude::*;

verus! {

/// The widget that lays a document out and keeps the reader's place in it.
#[verifier::external_type_specification]
#[verifier::external_body]
pub struct ExMarkdownViewer(MarkdownViewer);

/// A pane by what it holds and where the reader is in it.
#[verifier::ext_equal]
pub struct Pane {
    /// The document, as it was loaded.
    pub content: Text,
    /// The width it is wrapped to, and nothing where none was asked for.
    pub wrap: usize,
    /// How many lines it was last laid out in.
    pub height: u16,
    /// How many lines the pane was last drawn with.
    pub page: u16,
    /// How many lines are scrolled off above the first one shown.
    pub scroll: u16,
}

/// What a viewer holds: its document, the width it wraps to, the lines it was last
/// laid out in and drawn with, and how far it is scrolled.
pub uninterp spec fn pane_of(viewer: MarkdownViewer) -> Pane;

impl Pane {
    /// A pane with nothing in it.
    pub open spec fn empty() -> Pane {
        Pane { content: Seq::empty(), wrap: 0, height: 0, page: 0, scroll: 0 }
    }

    /// How far the document can be scrolled: until its last line is the last one
    /// shown.
    pub open spec fn limit(self) -> u16 {
        if self.height > self.page {
            (self.height - self.page) as u16
        } else {
            0
        }
    }

    /// The lines a page key moves by: the pane's own height, never nothing.
    pub open spec fn step(self) -> u16 {
        if self.page > 1 {
            self.page
        } else {
            1
        }
    }

    /// The pane scrolled down by some lines, stopping at the end.
    pub open spec fn down(self, lines: u16) -> Pane {
        Pane {
            scroll: if self.scroll + lines < self.limit() {
                (self.scroll + lines) as u16
            } else {
                self.limit()
            },
            ..self
        }
    }

    /// The pane scrolled up by some lines, stopping at the start.
    pub open spec fn up(self, lines: u16) -> Pane {
        Pane {
            scroll: if self.scroll > lines {
                (self.scroll - lines) as u16
            } else {
                0
            },
            ..self
        }
    }

    /// The pane at the start of its document.
    pub open spec fn top(self) -> Pane {
        Pane { scroll: 0, ..self }
    }

    /// The pane at the end of its document.
    pub open spec fn bottom(self) -> Pane {
        Pane { scroll: self.limit(), ..self }
    }

    /// The pane wrapping to a width.
    pub open spec fn wrapped_to(self, width: usize) -> Pane {
        Pane { wrap: width, ..self }
    }
}

/// `MarkdownViewer::new` holds no document, wraps to no width of its own, has been
/// neither laid out nor drawn, and is not scrolled.
pub assume_specification[ MarkdownViewer::new ]() -> (viewer: MarkdownViewer)
    ensures
        pane_of(viewer) == Pane::empty(),
;

/// `MarkdownViewer::with_max_width` sets the width and leaves the rest.
pub assume_specification[ MarkdownViewer::with_max_width ](
    viewer: MarkdownViewer,
    width: usize,
) -> (wrapped: MarkdownViewer)
    ensures
        pane_of(wrapped) == pane_of(viewer).wrapped_to(width),
;

/// `MarkdownViewer::scroll_up` moves up, stopping at the start.
pub assume_specification[ MarkdownViewer::scroll_up ](viewer: &mut MarkdownViewer, n: u16)
    ensures
        pane_of(*final(viewer)) == pane_of(*old(viewer)).up(n),
;

/// `MarkdownViewer::scroll_down` moves down, stopping at the end.
pub assume_specification[ MarkdownViewer::scroll_down ](viewer: &mut MarkdownViewer, n: u16)
    ensures
        pane_of(*final(viewer)) == pane_of(*old(viewer)).down(n),
;

/// `MarkdownViewer::page_up` moves up by the lines last drawn, at least one.
pub assume_specification[ MarkdownViewer::page_up ](viewer: &mut MarkdownViewer)
    ensures
        pane_of(*final(viewer)) == pane_of(*old(viewer)).up(pane_of(*old(viewer)).step()),
;

/// `MarkdownViewer::page_down` moves down by the lines last drawn, at least one.
pub assume_specification[ MarkdownViewer::page_down ](viewer: &mut MarkdownViewer)
    ensures
        pane_of(*final(viewer)) == pane_of(*old(viewer)).down(pane_of(*old(viewer)).step()),
;

/// `MarkdownViewer::scroll_to_top` moves to the start.
pub assume_specification[ MarkdownViewer::scroll_to_top ](viewer: &mut MarkdownViewer)
    ensures
        pane_of(*final(viewer)) == pane_of(*old(viewer)).top(),
;

/// `MarkdownViewer::scroll_to_bottom` moves to the end.
pub assume_specification[ MarkdownViewer::scroll_to_bottom ](viewer: &mut MarkdownViewer)
    ensures
        pane_of(*final(viewer)) == pane_of(*old(viewer)).bottom(),
;

/// A reader inside a document is never scrolled out of it, whichever way they go.
pub proof fn scrolling_stays_inside_the_document(pane: Pane, lines: u16)
    requires
        pane.scroll <= pane.limit(),
    ensures
        pane.down(lines).scroll <= pane.limit(),
        pane.up(lines).scroll <= pane.limit(),
        pane.top().scroll <= pane.limit(),
        pane.bottom().scroll <= pane.limit(),
{
}

/// Scrolling moves the reader and nothing else: the document and its layout stay.
pub proof fn scrolling_changes_no_document(pane: Pane, lines: u16)
    ensures
        pane.down(lines).content == pane.content,
        pane.up(lines).content == pane.content,
        pane.top().content == pane.content,
        pane.bottom().content == pane.content,
        pane.down(lines).limit() == pane.limit(),
        pane.up(lines).limit() == pane.limit(),
        pane.top().limit() == pane.limit(),
        pane.bottom().limit() == pane.limit(),
{
}

/// Scrolling down and back up by what fits leaves the reader where they were.
pub proof fn scrolling_back_undoes_scrolling(pane: Pane, lines: u16)
    requires
        pane.scroll + lines <= pane.limit(),
    ensures
        pane.down(lines).up(lines) == pane,
{
}

/// Scrolling moves by exactly the lines asked for, down to where the last line is the last
/// one shown and up to the first, and a page is as many lines as were drawn, one at least.
pub proof fn scrolling_moves_by_the_lines_asked_for(pane: Pane, lines: u16, width: usize)
    ensures
        ({
            let limit = if pane.height > pane.page {
                pane.height - pane.page
            } else {
                0
            };
            let sum = pane.scroll + lines;
            let moved = |scroll: int| Pane { scroll: scroll as u16, ..pane };
            &&& pane.limit() == limit
            &&& pane.down(lines) == moved(
                if sum < limit {
                    sum
                } else {
                    limit
                },
            )
            &&& pane.up(lines) == moved(
                if pane.scroll > lines {
                    pane.scroll - lines
                } else {
                    0
                },
            )
            &&& pane.top() == moved(0)
            &&& pane.bottom() == moved(limit)
            &&& pane.step() == (if pane.page == 0 {
                1
            } else {
                pane.page
            })
            &&& pane.wrapped_to(width) == (Pane { wrap: width, ..pane })
        }),
        Pane::empty() == (Pane { content: Seq::empty(), wrap: 0, height: 0, page: 0, scroll: 0 }),
{
}

} // verus!
