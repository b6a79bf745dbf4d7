//! Multi-page and animated sources.
//!
//! libvips holds an animation as one tall image, every frame stacked
//! vertically, with a `page-height` saying where one frame ends. What is
//! decided here is which pages to load and whether a stack can be taken apart.

use crate::numbers::{decimal, u64_to_chars};
use crate::processing::options::apply::{ParsedOptions, ParsedOptionsView};
use crate::text::{append_chars, chars_of, string_of};
use crate::processing::save::{format_name, format_of, lemma_canonical_name_spells_its_format, ImageFormat};
use crate::processing::transform::TransformError;
use vstd::prelude::*;

verus! {

/// Formats whose loaders accept `page` and `n`.
pub open spec fn pages_format(f: Seq<char>) -> bool {
    f == "gif"@ || f == "webp"@ || f == "heif"@ || f == "avif"@ || f == "tiff"@ || f == "pdf"@
}

/// Formats that can carry more than one frame in the output.
pub open spec fn animated_format(f: Seq<char>) -> bool {
    f == "gif"@ || f == "webp"@ || f == "avif"@ || f == "heif"@
}

/// Every format animated output can go to is one whose loader reads pages,
/// and on each canonical format name the animated formats are exactly those
/// that can carry more than one frame (as `format_supports_animation` says).
pub proof fn lemma_animated_formats(f: ImageFormat, s: Seq<char>)
    ensures
        animated_format(s) ==> pages_format(s),
        animated_format(format_name(f)) == (format_of(format_name(f)) matches Some(g)
            && g.animation()),
{
    lemma_canonical_name_spells_its_format(f);
    reveal_strlit("gif");
    reveal_strlit("webp");
    reveal_strlit("avif");
    reveal_strlit("heif");
    reveal_strlit("jpeg");
    reveal_strlit("png");
    reveal_strlit("tiff");
    assert("png"@.len() == 3 && "gif"@.len() == 3);
    assert("jpeg"@.len() == 4 && "webp"@.len() == 4 && "tiff"@.len() == 4 && "avif"@.len() == 4);
    assert("heif"@.len() == 4);
    assert("jpeg"@[0] == 'j' && "png"@[0] == 'p' && "webp"@[0] == 'w' && "tiff"@[0] == 't');
    assert("gif"@[0] == 'g' && "avif"@[0] == 'a' && "heif"@[0] == 'h');
}

/// Whether the loader for this format accepts `page` and `n`. Naming a
/// property a loader does not have makes libvips refuse the whole call.
pub fn supports_pages(format: &str) -> (r: bool)
    ensures
        r == pages_format(format@),
{
    let v = chars_of(format);
    let f = v.as_slice();
    crate::text::is(f, "gif") || crate::text::is(f, "webp") || crate::text::is(f, "heif")
        || crate::text::is(f, "avif") || crate::text::is(f, "tiff") || crate::text::is(f, "pdf")
}

/// Whether the format can carry more than one frame in the output.
pub fn supports_animation(format: &str) -> (r: bool)
    ensures
        r == animated_format(format@),
{
    let v = chars_of(format);
    let f = v.as_slice();
    crate::text::is(f, "gif") || crate::text::is(f, "webp") || crate::text::is(f, "avif")
        || crate::text::is(f, "heif")
}

/// What to ask the loader for.
#[derive(Debug, Clone, Copy, PartialEq, Eq, Structural)]
pub struct LoadPlan {
    /// First page to read.
    pub page: u32,
    /// How many pages to read; `None` means all of them.
    pub count: Option<u32>,
}

/// The pages a request needs from a source of this format, or `None` when the
/// loader's defaults serve. `disable_animation` collapses the source to one
/// frame and so outranks an explicit page count; otherwise an explicit count
/// wins, an animated output reads every page, and a still output reads one.
/// A frame limit only matters once it is below what would be read.
pub open spec fn load_plan(
    p: ParsedOptionsView,
    source_format: Option<Seq<char>>,
    output_format: Seq<char>,
) -> Option<LoadPlan> {
    match source_format {
        None => None,
        Some(src) => if !pages_format(src) {
            None
        } else {
            let page: u32 = match p.page {
                Some(n) => n,
                None => 0,
            };
            let count: Option<u32> = if p.disable_animation {
                Some(1)
            } else {
                match p.pages {
                    Some(n) => Some(n),
                    None => if animated_format(output_format) {
                        None
                    } else {
                        Some(1)
                    },
                }
            };
            let count: Option<u32> = match (count, p.max_animation_frames) {
                (Some(c), Some(limit)) => Some(
                    if c as nat <= limit {
                        c
                    } else {
                        limit as u32
                    },
                ),
                (None, Some(limit)) => Some(limit as u32),
                (c, None) => c,
            };
            if page == 0 && count == Some(1u32) && p.max_animation_frames is None {
                None
            } else {
                Some(LoadPlan { page, count })
            }
        },
    }
}

/// `page=P,n=N` with `N` the count, or `-1` for every page.
pub open spec fn load_options_text(plan: LoadPlan) -> Seq<char> {
    "page="@ + decimal(plan.page as nat) + ",n="@ + match plan.count {
        Some(c) => decimal(c as nat),
        None => "-1"@,
    }
}

impl LoadPlan {
    /// Works out which pages a request needs from a source of this format.
    ///
    /// Returns `None` when the defaults are wanted, so the common case opens
    /// the source with no loader options at all.
    pub fn resolve(options: &ParsedOptions, source_format: Option<&str>, output_format: &str) -> (r: Option<
        Self,
    >)
        ensures
            r == load_plan(
                options@,
                match source_format {
                    Some(s) => Some(s@),
                    None => None,
                },
                output_format@,
            ),
    {
        let src = match source_format {
            Some(s) => s,
            None => {
                return None;
            },
        };
        if !supports_pages(src) {
            return None;
        }
        let page = options.page.unwrap_or(0);
        let count: Option<u32> = if options.disable_animation {
            Some(1)
        } else {
            match options.pages {
                Some(n) => Some(n),
                None => if supports_animation(output_format) {
                    None
                } else {
                    Some(1)
                },
            }
        };
        let limit = match options.max_animation_frames {
            Some(l) => Some(l.get()),
            None => None,
        };
        let count: Option<u32> = match (count, limit) {
            (Some(c), Some(l)) => Some(
                if c <= l {
                    c
                } else {
                    l
                },
            ),
            (None, Some(l)) => Some(l),
            (c, None) => c,
        };
        if page == 0 && count == Some(1u32) && limit.is_none() {
            return None;
        }
        Some(LoadPlan { page, count })
    }

    /// Renders the plan as a libvips loader option string.
    pub fn as_load_options(&self) -> (r: String)
        ensures
            r@ == load_options_text(*self),
    {
        let mut out = chars_of("page=");
        let page = u64_to_chars(self.page as u64);
        append_chars(&mut out, page.as_slice());
        let sep = chars_of(",n=");
        append_chars(&mut out, sep.as_slice());
        match self.count {
            Some(c) => {
                let n = u64_to_chars(c as u64);
                append_chars(&mut out, n.as_slice());
            },
            None => {
                let n = chars_of("-1");
                append_chars(&mut out, n.as_slice());
            },
        }
        assert(out@ =~= load_options_text(*self));
        string_of(out.as_slice())
    }
}

/// How many frames a stack of `pages` pages of `page_height` rows holds, and
/// how tall each is: `None` for a still image, including one whose header
/// claims several pages that do not divide its height exactly.
pub open spec fn frame_layout(pages: i32, page_height: i32, height: i32) -> Option<(i32, i32)> {
    if pages <= 1 || page_height <= 0 || height <= 0 {
        None
    } else if page_height * pages != height {
        None
    } else {
        Some((pages, page_height))
    }
}

/// The frame count and frame height of an opened image, from its page count,
/// page height and height.
pub fn frame_geometry(pages: i32, page_height: i32, height: i32) -> (r: Option<(i32, i32)>)
    ensures
        r == frame_layout(pages, page_height, height),
{
    if pages <= 1 || page_height <= 0 || height <= 0 {
        return None;
    }
    match page_height.checked_mul(pages) {
        Some(total) => if total == height {
            Some((pages, page_height))
        } else {
            None
        },
        None => None,
    }
}

/// Whether every frame of a list has the first one's height.
pub open spec fn uniform_heights(heights: Seq<i32>) -> bool {
    forall|i: int| 0 <= i < heights.len() ==> #[trigger] heights[i] == heights[0]
}

/// The frame height to hand the encoder when processed frames are stacked
/// back into one image: none for a single frame, the common height for
/// several. Processing that produced no frames, or frames of different
/// heights, cannot be stacked.
pub fn join_height(heights: &[i32]) -> (r: Result<Option<i32>, TransformError>)
    ensures
        heights@.len() == 0 ==> (r matches Err(TransformError::InvalidArgument { operation, .. })
            && operation == "animation"),
        heights@.len() == 1 ==> r == Ok::<Option<i32>, TransformError>(None),
        heights@.len() > 1 && uniform_heights(heights@) ==> r == Ok::<Option<i32>, TransformError>(
            Some(heights@[0]),
        ),
        heights@.len() > 1 && !uniform_heights(heights@) ==> (r matches Err(
            TransformError::InvalidArgument { operation, .. },
        ) && operation == "animation"),
{
    if heights.len() == 0 {
        return Err(TransformError::invalid("animation", "processing produced no frames"));
    }
    if heights.len() == 1 {
        return Ok(None);
    }
    let first = heights[0];
    let mut i: usize = 1;
    while i < heights.len()
        invariant
            1 <= i <= heights@.len(),
            first == heights@[0],
            forall|j: int| 0 <= j < i ==> heights@[j] == first,
        decreases heights@.len() - i,
    {
        if heights[i] != first {
            return Err(
                TransformError::invalid(
                    "animation",
                    "animation frames came out of processing at different heights",
                ),
            );
        }
        i = i + 1;
    }
    Ok(Some(first))
}

} // verus!
