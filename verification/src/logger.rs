//! The log widget: message history, scroll offset, and box outline.

use vstd::prelude::*;

verus! {

/// Number of messages visible in the scroll window at once.
pub const WINDOW_CAP: usize = 5;

/// Width of the box outline drawn behind the log text.
pub const BOX_WIDTH: u32 = 400;

/// Height of the box outline drawn behind the log text.
pub const BOX_HEIGHT: u32 = 88;

/// An RGBA color with 8-bit channels.
///
/// The log never interprets the channels; they are carried through to the
/// rendering host unchanged.
#[derive(Clone, Copy, Debug, PartialEq, Eq, Structural)]
pub struct Rgba {
    pub r: u8,
    pub g: u8,
    pub b: u8,
    pub a: u8,
}

/// Parameters for configuring the appearance of text in the log.
#[derive(Debug)]
pub struct TextParams {
    color: Rgba,
    line_height: u32,
    font: String,
    stroke_width: u32,
}

impl TextParams {
    /// The color used for the text and the box outline.
    pub closed spec fn spec_color(&self) -> Rgba {
        self.color
    }

    /// The font scale, in pixels.
    pub closed spec fn spec_height(&self) -> u32 {
        self.line_height
    }

    /// The name of the font, as registered with the rendering host.
    pub closed spec fn spec_font(&self) -> Seq<char> {
        self.font@
    }

    /// The line weight used for the box outline.
    pub closed spec fn spec_stroke_width(&self) -> u32 {
        self.stroke_width
    }

    /// Creates a new [`TextParams`] instance.
    ///
    /// Parameters:
    /// - `color`: text and outline color
    /// - `line_height`: scale of the font, in pixels
    /// - `font`: name of the font, as registered with the rendering host
    /// - `stroke_width`: line weight used to construct the bounding box
    ///
    /// All inputs are taken as given; no validation is performed.
    pub fn new(color: Rgba, line_height: u32, font: &str, stroke_width: u32) -> (params:
        TextParams)
        ensures
            params.spec_color() == color,
            params.spec_height() == line_height,
            params.spec_font() == font@,
            params.spec_stroke_width() == stroke_width,
    {
        let font = font.to_owned();
        TextParams { color, line_height, font, stroke_width }
    }

    /// Returns the font used.
    pub fn font(&self) -> (font: &str)
        ensures
            font@ == self.spec_font(),
    {
        self.font.as_str()
    }

    /// Returns the line height, in pixels.
    pub fn height(&self) -> (height: u32)
        ensures
            height == self.spec_height(),
    {
        self.line_height
    }

    /// Returns the color.
    pub fn color(&self) -> (color: Rgba)
        ensures
            color == self.spec_color(),
    {
        self.color
    }
}

/// The stroked rectangular outline drawn behind the log text, described as a
/// plain value. The rendering host builds the actual drawable mesh from it.
///
/// The geometry is fixed at construction; only the color can change later.
#[derive(Clone, Copy, Debug, PartialEq, Eq, Structural)]
pub struct BoxOutline {
    /// Width of the rectangle, in pixels.
    pub width: u32,
    /// Height of the rectangle, in pixels.
    pub height: u32,
    /// Line weight of the stroke, in pixels.
    pub stroke_width: u32,
    /// Color of the stroke.
    pub color: Rgba,
}

/// A renderable multi-line block of text: the visible log lines, newest
/// first, together with the style shared by every line.
#[derive(Debug)]
pub struct TextBlock {
    /// The visible lines, in the order they are to be drawn, top to bottom.
    pub lines: Vec<String>,
    /// The name of the font every line uses.
    pub font: String,
    /// The font scale of every line, in pixels.
    pub scale: u32,
    /// The color of every line.
    pub color: Rgba,
}

/// The exclusive upper end of the visible window: the scroll offset, clamped
/// to the number of messages.
pub open spec fn window_end(count: int, offset: int) -> int {
    if offset <= count {
        offset
    } else {
        count
    }
}

/// The inclusive lower end of the visible window: at most [`WINDOW_CAP`]
/// entries below `end` once the history has grown past the cap, and the very
/// first message otherwise.
pub open spec fn window_start(count: int, end: int) -> int {
    if count > WINDOW_CAP as int {
        if end >= WINDOW_CAP as int {
            end - WINDOW_CAP as int
        } else {
            0
        }
    } else {
        0
    }
}

/// The lines visible at scroll offset `offset`: the window of messages below
/// the offset, newest first.
pub open spec fn visible_lines(messages: Seq<Seq<char>>, offset: int) -> Seq<Seq<char>>
    recommends
        0 <= offset,
{
    let end = window_end(messages.len() as int, offset);
    let start = window_start(messages.len() as int, end);
    messages.subrange(start, end).reverse()
}

/// How [`Log::incr_offset`] moves the scroll offset: one step toward the
/// newest message, unless the offset has already reached the message count.
pub open spec fn incr_step(count: int, offset: int) -> int {
    if offset < count {
        offset + 1
    } else {
        offset
    }
}

/// How [`Log::decr_offset`] moves the scroll offset: one step toward the
/// oldest message, unless the offset has reached the floor. Once the history
/// has grown past [`WINDOW_CAP`] the floor is [`WINDOW_CAP`]; up to that
/// point every offset is at or below the cap and the step is a no-op.
pub open spec fn decr_step(count: int, offset: int) -> int {
    if (count > WINDOW_CAP as int && offset == WINDOW_CAP as int) || (count <= WINDOW_CAP as int
        && offset <= WINDOW_CAP as int) {
        offset
    } else if offset > 0 {
        offset - 1
    } else {
        offset
    }
}

/// The message history that a run of [`Log::push`] calls leaves behind:
/// each message of `pushed` appended to `history`, in call order. Each call
/// contributes exactly the transition that `push` ensures.
pub open spec fn push_run(history: Seq<Seq<char>>, pushed: Seq<Seq<char>>) -> Seq<Seq<char>>
    decreases pushed.len(),
{
    if pushed.len() == 0 {
        history
    } else {
        push_run(history.push(pushed[0]), pushed.subrange(1, pushed.len() as int))
    }
}

/// For every sequence of pushed messages, the message count grows by exactly
/// the number of pushes, and the history holds the old messages followed by
/// the pushed ones in call order.
pub proof fn lemma_push_run(history: Seq<Seq<char>>, pushed: Seq<Seq<char>>)
    ensures
        push_run(history, pushed).len() == history.len() + pushed.len(),
        push_run(history, pushed) == history + pushed,
    decreases pushed.len(),
{
    if pushed.len() == 0 {
        assert(push_run(history, pushed) =~= history + pushed);
    } else {
        lemma_push_run(history.push(pushed[0]), pushed.subrange(1, pushed.len() as int));
        assert(history.push(pushed[0]) + pushed.subrange(1, pushed.len() as int) =~= history
            + pushed);
    }
}

/// Logging system for displaying text on screen.
///
/// Owns an append-only history of messages, a scroll offset into it, the
/// style parameters for the text, and the outline of the box drawn behind it.
#[derive(Debug)]
pub struct Log {
    text: Vec<String>,
    text_params: TextParams,
    mesh: BoxOutline,
    offset: usize,
}

impl Log {
    /// The message history, oldest first.
    pub closed spec fn messages(&self) -> Seq<Seq<char>> {
        self.text@.map_values(|s: String| s@)
    }

    /// The scroll offset: the number of messages at or below the top of the
    /// visible window.
    pub closed spec fn spec_offset(&self) -> int {
        self.offset as int
    }

    /// The style parameters the log was configured with.
    pub closed spec fn params(&self) -> TextParams {
        self.text_params
    }

    /// The outline of the box drawn behind the log text.
    pub closed spec fn box_shape(&self) -> BoxOutline {
        self.mesh
    }

    /// Every state the log can reach keeps the scroll offset within the
    /// history, and never below the window cap once the history has grown
    /// past the cap.
    pub open spec fn wf(&self) -> bool {
        &&& 0 <= self.spec_offset() <= self.messages().len()
        &&& self.messages().len() > WINDOW_CAP as int ==> self.spec_offset() >= WINDOW_CAP as int
    }

    /// Creates a new [`Log`] instance: an empty history, the scroll offset at
    /// zero, and a box outline of the fixed dimensions, stroked with the
    /// weight and color from `params`.
    pub fn new(params: TextParams) -> (log: Log)
        ensures
            log.messages() == Seq::<Seq<char>>::empty(),
            log.spec_offset() == 0,
            log.params() == params,
            log.box_shape() == (BoxOutline {
                width: BOX_WIDTH,
                height: BOX_HEIGHT,
                stroke_width: params.spec_stroke_width(),
                color: params.spec_color(),
            }),
            log.wf(),
    {
        let mesh = BoxOutline {
            width: BOX_WIDTH,
            height: BOX_HEIGHT,
            stroke_width: params.stroke_width,
            color: params.color,
        };
        let log = Log { text: Vec::new(), text_params: params, mesh, offset: 0 };
        proof {
            assert(log.messages() =~= Seq::<Seq<char>>::empty());
        }
        log
    }

    /// Returns the number of messages in the history.
    pub fn len(&self) -> (count: usize)
        ensures
            count == self.messages().len(),
    {
        self.text.len()
    }

    /// Returns the current scroll offset.
    pub fn offset(&self) -> (offset: usize)
        ensures
            offset == self.spec_offset(),
    {
        self.offset
    }

    /// Adds a new message to the log.
    ///
    /// Adding a new message resets the scroll offset to the new message
    /// count, causing a jump to the newest messages.
    pub fn push(&mut self, s: String)
        ensures
            final(self).messages() == old(self).messages().push(s@),
            final(self).spec_offset() == final(self).messages().len(),
            final(self).params() == old(self).params(),
            final(self).box_shape() == old(self).box_shape(),
            final(self).wf(),
    {
        self.text.push(s);
        self.offset = self.text.len();
        proof {
            assert(self.messages() =~= old(self).messages().push(s@));
        }
    }

    /// Increments the scroll offset by one, if the offset is less than the
    /// number of log messages; a no-op otherwise. The offset therefore never
    /// moves past the number of messages.
    pub fn incr_offset(&mut self)
        ensures
            final(self).spec_offset() == incr_step(
                old(self).messages().len() as int,
                old(self).spec_offset(),
            ),
            final(self).messages() == old(self).messages(),
            final(self).params() == old(self).params(),
            final(self).box_shape() == old(self).box_shape(),
            old(self).wf() ==> final(self).wf(),
            old(self).wf() ==> final(self).spec_offset() <= final(self).messages().len(),
    {
        if self.offset < self.text.len() {
            self.offset = self.offset + 1;
        }
    }

    /// Decrements the scroll offset by one, unless the offset has reached
    /// its floor: once the history has grown past [`WINDOW_CAP`] messages the
    /// offset stops at [`WINDOW_CAP`]; while the history holds at most
    /// [`WINDOW_CAP`] messages the offset never moves at all (it is always at
    /// or below the cap then), and in particular never drops below zero.
    pub fn decr_offset(&mut self)
        ensures
            final(self).spec_offset() == decr_step(
                old(self).messages().len() as int,
                old(self).spec_offset(),
            ),
            final(self).messages() == old(self).messages(),
            final(self).params() == old(self).params(),
            final(self).box_shape() == old(self).box_shape(),
            old(self).wf() ==> final(self).wf(),
            old(self).wf() && old(self).messages().len() > WINDOW_CAP as int ==> final(self)
                .spec_offset() >= WINDOW_CAP as int,
    {
        let len = self.text.len();
        if (len > WINDOW_CAP && self.offset == WINDOW_CAP) || (len <= WINDOW_CAP && self.offset
            <= WINDOW_CAP) {
            return;
        } else if self.offset > 0 {
            self.offset = self.offset - 1;
        }
    }

    /// Computes the top-left screen position for the log box, so that it
    /// sits `offset.0` pixels from the left edge and `offset.1` pixels above
    /// the bottom edge of a drawable surface of height `screen_height`.
    ///
    /// The position is recomputed from the live surface height on every
    /// call, so the box follows a window resize; the log itself is not
    /// touched. The vertical coordinate goes negative when the surface is
    /// shorter than the box and its bottom margin.
    pub fn set_box_position(&self, screen_height: u32, offset: (u32, u32)) -> (position: (
        i64,
        i64,
    ))
        ensures
            position.0 == offset.0 as int,
            position.1 == screen_height as int - self.box_shape().height as int - offset.1 as int,
    {
        let width = offset.0 as i64;
        let height = screen_height as i64 - self.mesh.height as i64 - offset.1 as i64;
        (width, height)
    }

    /// Returns a [`TextBlock`] with the log messages visible at the current
    /// scroll offset: the window of at most [`WINDOW_CAP`] messages below the
    /// offset, newest at the top, each styled with the configured font,
    /// scale and color.
    ///
    /// The offset is clamped to the message count on the way (defensively;
    /// no reachable state needs it). The log itself is not touched.
    pub fn text(&self) -> (block: TextBlock)
        ensures
            block.lines@.map_values(|s: String| s@) == visible_lines(
                self.messages(),
                self.spec_offset(),
            ),
            block.lines@.len() <= WINDOW_CAP,
            block.font@ == self.params().spec_font(),
            block.scale == self.params().spec_height(),
            block.color == self.params().spec_color(),
    {
        let vec_len = self.text.len();
        let end = if self.offset < vec_len {
            self.offset
        } else {
            vec_len
        };
        let start = if vec_len > WINDOW_CAP && end >= WINDOW_CAP {
            end - WINDOW_CAP
        } else {
            0
        };
        let count = end - start;
        let mut lines: Vec<String> = Vec::new();
        let mut k: usize = 0;
        while k < count
            invariant
                count == end - start,
                end == window_end(self.messages().len() as int, self.spec_offset()),
                start == window_start(self.messages().len() as int, end as int),
                0 <= start <= end <= self.text@.len(),
                self.text@.len() == self.messages().len(),
                k <= count,
                lines@.len() == k,
                forall|i: int|
                    0 <= i < k ==> #[trigger] lines@[i]@ == self.messages()[end - 1 - i],
            decreases count - k,
        {
            lines.push(self.text[end - 1 - k].clone());
            k = k + 1;
        }
        proof {
            assert(lines@.map_values(|s: String| s@) =~= visible_lines(
                self.messages(),
                self.spec_offset(),
            ));
        }
        TextBlock {
            lines,
            font: self.text_params.font.clone(),
            scale: self.text_params.line_height,
            color: self.text_params.color,
        }
    }

    /// Replaces the color of the text and of the box outline, leaving the
    /// message history, the scroll offset, and every other style parameter
    /// as they were.
    pub fn color_mut(&mut self, new_color: Rgba)
        ensures
            final(self).params().spec_color() == new_color,
            final(self).params().spec_height() == old(self).params().spec_height(),
            final(self).params().spec_font() == old(self).params().spec_font(),
            final(self).params().spec_stroke_width() == old(self).params().spec_stroke_width(),
            final(self).box_shape() == (BoxOutline {
                color: new_color,
                ..old(self).box_shape()
            }),
            final(self).messages() == old(self).messages(),
            final(self).spec_offset() == old(self).spec_offset(),
    {
        self.text_params.color = new_color;
        self.mesh.color = new_color;
    }

    /// Returns a copy of the log's box outline, for composition with the
    /// per-frame canvas.
    pub fn mesh(&self) -> (outline: BoxOutline)
        ensures
            outline == self.box_shape(),
    {
        self.mesh
    }
}

} // verus!
