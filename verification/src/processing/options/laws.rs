//! What holds of option parsing as a whole: directives apply in order, names
//! that are no directive change nothing, and what a URL says overrides what
//! the server configured.

use super::apply::{
    fold_options, option_step, parsed_from, seeded, with_default_fit, OptionDefaults,
    ParsedOptionsView, ProcessingOption,
};
use super::effects::Adjust;
use super::error::{arg_views, spec_arg, spec_positive, spec_quality};
use crate::numbers::Fixed;
use super::kinds::{option_kind_of, OptionKind};
use vstd::prelude::*;

verus! {

/// What one directive does to a parse that may already have been refused.
pub open spec fn then_apply(
    r: Result<ParsedOptionsView, super::error::OptionErrorKind>,
    o: ProcessingOption,
) -> Result<ParsedOptionsView, super::error::OptionErrorKind> {
    match r {
        Ok(q) => option_step(option_kind_of(o.name@), arg_views(o.args@), q),
        Err(e) => Err(e),
    }
}

proof fn lemma_fold_push(ops: Seq<ProcessingOption>, o: ProcessingOption, i: nat, p: ParsedOptionsView)
    requires
        i <= ops.len(),
    ensures
        fold_options(ops.push(o), i, p) == then_apply(fold_options(ops, i, p), o),
    decreases ops.len() - i,
{
    let all = ops.push(o);
    if i == ops.len() {
        assert(all[i as int] == o);
        match option_step(option_kind_of(o.name@), arg_views(o.args@), p) {
            Ok(q) => {
                assert(fold_options(all, i + 1, q) == Ok::<ParsedOptionsView, super::error::OptionErrorKind>(q));
            },
            Err(_) => {},
        }
    } else {
        assert(all[i as int] == ops[i as int]);
        match option_step(option_kind_of(ops[i as int].name@), arg_views(ops[i as int].args@), p) {
            Ok(q) => {
                lemma_fold_push(ops, o, i + 1, q);
            },
            Err(_) => {},
        }
    }
}

/// Directives apply left to right: the options a path with one more directive
/// at its end gives are what that directive makes of the options the rest
/// gives, and a directive refused anywhere refuses the whole path.
pub proof fn lemma_directives_apply_in_order(
    ops: Seq<ProcessingOption>,
    o: ProcessingOption,
    p: ParsedOptionsView,
)
    ensures
        fold_options(ops.push(o), 0, p) == then_apply(fold_options(ops, 0, p), o),
{
    lemma_fold_push(ops, o, 0, p);
}

/// A name that is no directive is ignored: appending it to a path changes
/// nothing the path gives.
pub proof fn lemma_unknown_directive_is_ignored(
    ops: Seq<ProcessingOption>,
    o: ProcessingOption,
    defaults: OptionDefaults,
)
    requires
        option_kind_of(o.name@) is None,
    ensures
        parsed_from(ops.push(o), defaults) == parsed_from(ops, defaults),
{
    lemma_fold_push(ops, o, 0, seeded(defaults));
}

/// A path without directives gives the server's defaults.
pub proof fn lemma_no_directives_give_the_defaults(defaults: OptionDefaults)
    ensures
        parsed_from(Seq::empty(), defaults) == Ok::<
            ParsedOptionsView,
            super::error::OptionErrorKind,
        >(seeded(defaults)),
{
    assert(with_default_fit(seeded(defaults)) == seeded(defaults));
}

/// A quality the URL names overrides the configured default quality, and a
/// later one overrides an earlier one: whatever came before, a valid `quality`
/// directive at the end of a path that parses sets the quality it names.
pub proof fn lemma_last_quality_wins(
    ops: Seq<ProcessingOption>,
    o: ProcessingOption,
    defaults: OptionDefaults,
    q: u8,
)
    requires
        option_kind_of(o.name@) == Some(OptionKind::Quality),
        spec_arg(arg_views(o.args@), 0) matches Some(v) && spec_quality(v, "quality"@) == Ok::<
            u8,
            super::error::OptionErrorKind,
        >(q),
        parsed_from(ops, defaults) is Ok,
    ensures
        parsed_from(ops.push(o), defaults) matches Ok(v) && v.quality == Some(q),
{
    lemma_fold_push(ops, o, 0, seeded(defaults));
}

/// The adjustment a parsed request carries, the identity (brightness 0,
/// contrast and saturation 1) when it carries none.
pub open spec fn adjustment_before(p: ParsedOptionsView) -> Adjust {
    match p.adjust {
        Some(a) => a,
        None => Adjust {
            brightness: 0,
            contrast: Fixed { nanos: 1_000_000_000 },
            saturation: Fixed { nanos: 1_000_000_000 },
        },
    }
}

/// A `contrast` (or `co`) directive with a positive decimal sets the contrast
/// to that decimal and leaves the brightness and the saturation as they were.
pub proof fn lemma_contrast_sets_only_contrast(
    ops: Seq<ProcessingOption>,
    o: ProcessingOption,
    defaults: OptionDefaults,
    n: int,
)
    requires
        option_kind_of(o.name@) == Some(OptionKind::Contrast),
        spec_arg(arg_views(o.args@), 0) matches Some(v) && spec_positive(v, "contrast"@) == Ok::<
            int,
            super::error::OptionErrorKind,
        >(n),
        parsed_from(ops, defaults) is Ok,
    ensures
        parsed_from(ops.push(o), defaults) matches Ok(after) && after.adjust matches Some(a) && a.contrast.nanos
            == n && a.brightness == adjustment_before(parsed_from(ops, defaults)->Ok_0).brightness
            && a.saturation == adjustment_before(parsed_from(ops, defaults)->Ok_0).saturation,
{
    lemma_fold_push(ops, o, 0, seeded(defaults));
}

/// A `saturation` (or `sa`) directive with a positive decimal sets the
/// saturation to that decimal and leaves the brightness and the contrast as
/// they were.
pub proof fn lemma_saturation_sets_only_saturation(
    ops: Seq<ProcessingOption>,
    o: ProcessingOption,
    defaults: OptionDefaults,
    n: int,
)
    requires
        option_kind_of(o.name@) == Some(OptionKind::Saturation),
        spec_arg(arg_views(o.args@), 0) matches Some(v) && spec_positive(v, "saturation"@) == Ok::<
            int,
            super::error::OptionErrorKind,
        >(n),
        parsed_from(ops, defaults) is Ok,
    ensures
        parsed_from(ops.push(o), defaults) matches Ok(after) && after.adjust matches Some(a)
            && a.saturation.nanos == n && a.brightness == adjustment_before(
            parsed_from(ops, defaults)->Ok_0,
        ).brightness && a.contrast == adjustment_before(parsed_from(ops, defaults)->Ok_0).contrast,
{
    lemma_fold_push(ops, o, 0, seeded(defaults));
}

/// A `brightness` (or `br`) directive with a whole number in -255..=255 sets
/// the brightness to it and leaves the contrast and the saturation as they
/// were.
pub proof fn lemma_brightness_sets_only_brightness(
    ops: Seq<ProcessingOption>,
    o: ProcessingOption,
    defaults: OptionDefaults,
    b: int,
)
    requires
        option_kind_of(o.name@) == Some(OptionKind::Brightness),
        spec_arg(arg_views(o.args@), 0) matches Some(v) && crate::numbers::parse_signed(
            v,
            i16::MIN as int,
            i16::MAX as int,
        ) == Some(b) && -255 <= b <= 255,
        parsed_from(ops, defaults) is Ok,
    ensures
        parsed_from(ops.push(o), defaults) matches Ok(after) && after.adjust matches Some(a)
            && a.brightness == b && a.contrast == adjustment_before(
            parsed_from(ops, defaults)->Ok_0,
        ).contrast && a.saturation == adjustment_before(parsed_from(ops, defaults)->Ok_0).saturation,
{
    lemma_fold_push(ops, o, 0, seeded(defaults));
}

} // verus!
