//! The directive names a URL may use, and their imgproxy-compatible aliases.

use crate::text::is;
use vstd::prelude::*;

verus! {

/// The processing directive a name stands for.
#[derive(Debug, Clone, Copy, PartialEq, Eq, Structural)]
pub enum OptionKind {
    Resize,
    ResizingType,
    Size,
    Width,
    Height,
    Gravity,
    Enlarge,
    Extend,
    ExtendAspectRatio,
    Padding,
    Rotate,
    Flip,
    AutoRotate,
    Raw,
    Blur,
    Crop,
    Format,
    Quality,
    FormatQuality,
    Background,
    BackgroundAlpha,
    Trim,
    MaxResultDimension,
    MaxSrcResolution,
    MaxSrcFileSize,
    MaxAnimationFrames,
    MaxAnimationFrameResolution,
    CacheBuster,
    Dpr,
    MinWidth,
    MinHeight,
    Zoom,
    Sharpen,
    Pixelate,
    Adjust,
    Brightness,
    Contrast,
    Saturation,
    Watermark,
    WatermarkUrl,
    ResizingAlgorithm,
    MaxBytes,
    StripMetadata,
    KeepCopyright,
    StripColorProfile,
    PreserveHdr,
    EnforceThumbnail,
    JpegOptions,
    PngOptions,
    WebpOptions,
    AvifOptions,
    Page,
    Pages,
    DisableAnimation,
    SkipProcessing,
    Expires,
    Filename,
    ReturnAttachment,
}

/// The directive a name or alias stands for; `None` for a name no directive
/// has, which parsing passes over.
pub open spec fn option_kind_of(n: Seq<char>) -> Option<OptionKind> {
    if n == "resize"@ || n == "rs"@ {
        Some(OptionKind::Resize)
    } else if n == "resizing_type"@ || n == "rt"@ {
        Some(OptionKind::ResizingType)
    } else if n == "size"@ || n == "s"@ {
        Some(OptionKind::Size)
    } else if n == "width"@ || n == "w"@ {
        Some(OptionKind::Width)
    } else if n == "height"@ || n == "h"@ {
        Some(OptionKind::Height)
    } else if n == "gravity"@ || n == "g"@ {
        Some(OptionKind::Gravity)
    } else if n == "enlarge"@ || n == "el"@ {
        Some(OptionKind::Enlarge)
    } else if n == "extend"@ || n == "ex"@ {
        Some(OptionKind::Extend)
    } else if n == "extend_aspect_ratio"@ || n == "extend_ar"@ || n == "exar"@ {
        Some(OptionKind::ExtendAspectRatio)
    } else if n == "padding"@ || n == "pd"@ {
        Some(OptionKind::Padding)
    } else if n == "rotate"@ || n == "rot"@ {
        Some(OptionKind::Rotate)
    } else if n == "flip"@ || n == "fl"@ {
        Some(OptionKind::Flip)
    } else if n == "auto_rotate"@ || n == "ar"@ {
        Some(OptionKind::AutoRotate)
    } else if n == "raw"@ {
        Some(OptionKind::Raw)
    } else if n == "blur"@ || n == "bl"@ {
        Some(OptionKind::Blur)
    } else if n == "crop"@ || n == "c"@ {
        Some(OptionKind::Crop)
    } else if n == "format"@ || n == "f"@ || n == "ext"@ {
        Some(OptionKind::Format)
    } else if n == "quality"@ || n == "q"@ {
        Some(OptionKind::Quality)
    } else if n == "format_quality"@ || n == "fq"@ {
        Some(OptionKind::FormatQuality)
    } else if n == "background"@ || n == "bg"@ {
        Some(OptionKind::Background)
    } else if n == "background_alpha"@ || n == "bga"@ {
        Some(OptionKind::BackgroundAlpha)
    } else if n == "trim"@ || n == "t"@ {
        Some(OptionKind::Trim)
    } else if n == "max_result_dimension"@ || n == "mrd"@ {
        Some(OptionKind::MaxResultDimension)
    } else if n == "max_src_resolution"@ || n == "msr"@ {
        Some(OptionKind::MaxSrcResolution)
    } else if n == "max_src_file_size"@ || n == "msfs"@ {
        Some(OptionKind::MaxSrcFileSize)
    } else if n == "max_animation_frames"@ || n == "maf"@ {
        Some(OptionKind::MaxAnimationFrames)
    } else if n == "max_animation_frame_resolution"@ || n == "mafr"@ {
        Some(OptionKind::MaxAnimationFrameResolution)
    } else if n == "cachebuster"@ || n == "cb"@ {
        Some(OptionKind::CacheBuster)
    } else if n == "dpr"@ {
        Some(OptionKind::Dpr)
    } else if n == "min-width"@ || n == "mw"@ {
        Some(OptionKind::MinWidth)
    } else if n == "min-height"@ || n == "mh"@ {
        Some(OptionKind::MinHeight)
    } else if n == "zoom"@ || n == "z"@ {
        Some(OptionKind::Zoom)
    } else if n == "sharpen"@ || n == "sh"@ {
        Some(OptionKind::Sharpen)
    } else if n == "pixelate"@ || n == "pix"@ {
        Some(OptionKind::Pixelate)
    } else if n == "adjust"@ || n == "a"@ {
        Some(OptionKind::Adjust)
    } else if n == "brightness"@ || n == "br"@ {
        Some(OptionKind::Brightness)
    } else if n == "contrast"@ || n == "co"@ {
        Some(OptionKind::Contrast)
    } else if n == "saturation"@ || n == "sa"@ {
        Some(OptionKind::Saturation)
    } else if n == "watermark"@ || n == "wm"@ {
        Some(OptionKind::Watermark)
    } else if n == "watermark_url"@ || n == "wmu"@ {
        Some(OptionKind::WatermarkUrl)
    } else if n == "resizing_algorithm"@ || n == "ra"@ {
        Some(OptionKind::ResizingAlgorithm)
    } else if n == "max_bytes"@ || n == "mb"@ {
        Some(OptionKind::MaxBytes)
    } else if n == "strip_metadata"@ || n == "sm"@ {
        Some(OptionKind::StripMetadata)
    } else if n == "keep_copyright"@ || n == "kcr"@ {
        Some(OptionKind::KeepCopyright)
    } else if n == "strip_color_profile"@ || n == "scp"@ {
        Some(OptionKind::StripColorProfile)
    } else if n == "preserve_hdr"@ || n == "ph"@ {
        Some(OptionKind::PreserveHdr)
    } else if n == "enforce_thumbnail"@ || n == "eth"@ {
        Some(OptionKind::EnforceThumbnail)
    } else if n == "jpeg_options"@ || n == "jpgo"@ {
        Some(OptionKind::JpegOptions)
    } else if n == "png_options"@ || n == "pngo"@ {
        Some(OptionKind::PngOptions)
    } else if n == "webp_options"@ || n == "webpo"@ {
        Some(OptionKind::WebpOptions)
    } else if n == "avif_options"@ || n == "avifo"@ {
        Some(OptionKind::AvifOptions)
    } else if n == "page"@ || n == "pg"@ {
        Some(OptionKind::Page)
    } else if n == "pages"@ || n == "pgs"@ {
        Some(OptionKind::Pages)
    } else if n == "disable_animation"@ || n == "da"@ {
        Some(OptionKind::DisableAnimation)
    } else if n == "skip_processing"@ || n == "skp"@ {
        Some(OptionKind::SkipProcessing)
    } else if n == "expires"@ || n == "exp"@ {
        Some(OptionKind::Expires)
    } else if n == "filename"@ || n == "fn"@ {
        Some(OptionKind::Filename)
    } else if n == "return_attachment"@ || n == "att"@ {
        Some(OptionKind::ReturnAttachment)
    } else {
        None
    }
}

impl OptionKind {
    /// The directive a name or alias stands for.
    pub fn of(n: &[char]) -> (r: Option<OptionKind>)
        ensures
            r == option_kind_of(n@),
    {
        if is(n, "resize") || is(n, "rs") {
            Some(OptionKind::Resize)
        } else if is(n, "resizing_type") || is(n, "rt") {
            Some(OptionKind::ResizingType)
        } else if is(n, "size") || is(n, "s") {
            Some(OptionKind::Size)
        } else if is(n, "width") || is(n, "w") {
            Some(OptionKind::Width)
        } else if is(n, "height") || is(n, "h") {
            Some(OptionKind::Height)
        } else if is(n, "gravity") || is(n, "g") {
            Some(OptionKind::Gravity)
        } else if is(n, "enlarge") || is(n, "el") {
            Some(OptionKind::Enlarge)
        } else if is(n, "extend") || is(n, "ex") {
            Some(OptionKind::Extend)
        } else if is(n, "extend_aspect_ratio") || is(n, "extend_ar") || is(n, "exar") {
            Some(OptionKind::ExtendAspectRatio)
        } else if is(n, "padding") || is(n, "pd") {
            Some(OptionKind::Padding)
        } else if is(n, "rotate") || is(n, "rot") {
            Some(OptionKind::Rotate)
        } else if is(n, "flip") || is(n, "fl") {
            Some(OptionKind::Flip)
        } else if is(n, "auto_rotate") || is(n, "ar") {
            Some(OptionKind::AutoRotate)
        } else if is(n, "raw") {
            Some(OptionKind::Raw)
        } else if is(n, "blur") || is(n, "bl") {
            Some(OptionKind::Blur)
        } else if is(n, "crop") || is(n, "c") {
            Some(OptionKind::Crop)
        } else if is(n, "format") || is(n, "f") || is(n, "ext") {
            Some(OptionKind::Format)
        } else if is(n, "quality") || is(n, "q") {
            Some(OptionKind::Quality)
        } else if is(n, "format_quality") || is(n, "fq") {
            Some(OptionKind::FormatQuality)
        } else if is(n, "background") || is(n, "bg") {
            Some(OptionKind::Background)
        } else if is(n, "background_alpha") || is(n, "bga") {
            Some(OptionKind::BackgroundAlpha)
        } else if is(n, "trim") || is(n, "t") {
            Some(OptionKind::Trim)
        } else if is(n, "max_result_dimension") || is(n, "mrd") {
            Some(OptionKind::MaxResultDimension)
        } else if is(n, "max_src_resolution") || is(n, "msr") {
            Some(OptionKind::MaxSrcResolution)
        } else if is(n, "max_src_file_size") || is(n, "msfs") {
            Some(OptionKind::MaxSrcFileSize)
        } else if is(n, "max_animation_frames") || is(n, "maf") {
            Some(OptionKind::MaxAnimationFrames)
        } else if is(n, "max_animation_frame_resolution") || is(n, "mafr") {
            Some(OptionKind::MaxAnimationFrameResolution)
        } else if is(n, "cachebuster") || is(n, "cb") {
            Some(OptionKind::CacheBuster)
        } else if is(n, "dpr") {
            Some(OptionKind::Dpr)
        } else if is(n, "min-width") || is(n, "mw") {
            Some(OptionKind::MinWidth)
        } else if is(n, "min-height") || is(n, "mh") {
            Some(OptionKind::MinHeight)
        } else if is(n, "zoom") || is(n, "z") {
            Some(OptionKind::Zoom)
        } else if is(n, "sharpen") || is(n, "sh") {
            Some(OptionKind::Sharpen)
        } else if is(n, "pixelate") || is(n, "pix") {
            Some(OptionKind::Pixelate)
        } else if is(n, "adjust") || is(n, "a") {
            Some(OptionKind::Adjust)
        } else if is(n, "brightness") || is(n, "br") {
            Some(OptionKind::Brightness)
        } else if is(n, "contrast") || is(n, "co") {
            Some(OptionKind::Contrast)
        } else if is(n, "saturation") || is(n, "sa") {
            Some(OptionKind::Saturation)
        } else if is(n, "watermark") || is(n, "wm") {
            Some(OptionKind::Watermark)
        } else if is(n, "watermark_url") || is(n, "wmu") {
            Some(OptionKind::WatermarkUrl)
        } else if is(n, "resizing_algorithm") || is(n, "ra") {
            Some(OptionKind::ResizingAlgorithm)
        } else if is(n, "max_bytes") || is(n, "mb") {
            Some(OptionKind::MaxBytes)
        } else if is(n, "strip_metadata") || is(n, "sm") {
            Some(OptionKind::StripMetadata)
        } else if is(n, "keep_copyright") || is(n, "kcr") {
            Some(OptionKind::KeepCopyright)
        } else if is(n, "strip_color_profile") || is(n, "scp") {
            Some(OptionKind::StripColorProfile)
        } else if is(n, "preserve_hdr") || is(n, "ph") {
            Some(OptionKind::PreserveHdr)
        } else if is(n, "enforce_thumbnail") || is(n, "eth") {
            Some(OptionKind::EnforceThumbnail)
        } else if is(n, "jpeg_options") || is(n, "jpgo") {
            Some(OptionKind::JpegOptions)
        } else if is(n, "png_options") || is(n, "pngo") {
            Some(OptionKind::PngOptions)
        } else if is(n, "webp_options") || is(n, "webpo") {
            Some(OptionKind::WebpOptions)
        } else if is(n, "avif_options") || is(n, "avifo") {
            Some(OptionKind::AvifOptions)
        } else if is(n, "page") || is(n, "pg") {
            Some(OptionKind::Page)
        } else if is(n, "pages") || is(n, "pgs") {
            Some(OptionKind::Pages)
        } else if is(n, "disable_animation") || is(n, "da") {
            Some(OptionKind::DisableAnimation)
        } else if is(n, "skip_processing") || is(n, "skp") {
            Some(OptionKind::SkipProcessing)
        } else if is(n, "expires") || is(n, "exp") {
            Some(OptionKind::Expires)
        } else if is(n, "filename") || is(n, "fn") {
            Some(OptionKind::Filename)
        } else if is(n, "return_attachment") || is(n, "att") {
            Some(OptionKind::ReturnAttachment)
        } else {
            None
        }
    }
}

} // verus!
