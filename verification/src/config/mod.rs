//! Server configuration, assembled from the environment at startup.

pub mod env_vars;
pub mod source;
pub mod settings;

use crate::numbers::parse_unsigned;
use crate::processing::options::ProcessingOption;
use crate::processing::presets::{options_view, parse_options_string, preset_directives};
use crate::string_map::StringMap;
use crate::text::{
    ascii_lower, chars_of, is, split_char, split_chars, split_once_char, split_once_chars, string_of,
    to_ascii_lower, trim, trim_char, trim_char_chars, trim_chars, views,
};
use vstd::prelude::*;

verus! {

/// The output format used when a URL names none.
#[derive(Clone, Copy, Debug, PartialEq, Eq, Structural)]
pub enum DefaultOutputFormat {
    /// Keep the source's own format.
    Source,
    Jpeg,
    Png,
    Webp,
    Gif,
    Tiff,
    Avif,
    Heif,
}

impl Default for DefaultOutputFormat {
    fn default() -> (r: Self)
        ensures
            r == DefaultOutputFormat::Source,
    {
        DefaultOutputFormat::Source
    }
}

/// The name of a default output format.
pub open spec fn default_format_name(f: DefaultOutputFormat) -> Seq<char> {
    match f {
        DefaultOutputFormat::Source => "source"@,
        DefaultOutputFormat::Jpeg => "jpeg"@,
        DefaultOutputFormat::Png => "png"@,
        DefaultOutputFormat::Webp => "webp"@,
        DefaultOutputFormat::Gif => "gif"@,
        DefaultOutputFormat::Tiff => "tiff"@,
        DefaultOutputFormat::Avif => "avif"@,
        DefaultOutputFormat::Heif => "heif"@,
    }
}

/// The default output format a setting names: trimmed, in any ASCII case,
/// with the `jpg` and `heic` aliases.
pub open spec fn default_format_of(s: Seq<char>) -> Option<DefaultOutputFormat> {
    let v = ascii_lower(trim(s));
    if v == "source"@ {
        Some(DefaultOutputFormat::Source)
    } else if v == "jpeg"@ || v == "jpg"@ {
        Some(DefaultOutputFormat::Jpeg)
    } else if v == "png"@ {
        Some(DefaultOutputFormat::Png)
    } else if v == "webp"@ {
        Some(DefaultOutputFormat::Webp)
    } else if v == "gif"@ {
        Some(DefaultOutputFormat::Gif)
    } else if v == "tiff"@ {
        Some(DefaultOutputFormat::Tiff)
    } else if v == "avif"@ {
        Some(DefaultOutputFormat::Avif)
    } else if v == "heif"@ || v == "heic"@ {
        Some(DefaultOutputFormat::Heif)
    } else {
        None
    }
}

/// A default output format's own name reads back as that format.
pub proof fn lemma_format_name_round_trips(f: DefaultOutputFormat)
    ensures
        default_format_of(default_format_name(f)) == Some(f),
{
    reveal_strlit("source");
    reveal_strlit("jpeg");
    reveal_strlit("jpg");
    reveal_strlit("png");
    reveal_strlit("webp");
    reveal_strlit("gif");
    reveal_strlit("tiff");
    reveal_strlit("avif");
    reveal_strlit("heif");
    reveal_strlit("heic");
    let n = default_format_name(f);
    assert(crate::text::trim_start(n) == n);
    assert(crate::text::trim_end(n) == n);
    assert(ascii_lower(n) =~= n);
    assert("jpeg"@.len() != "jpg"@.len());
    assert("heif"@[3] != "heic"@[3]);
    assert("webp"@[0] != "avif"@[0] && "webp"@[0] != "heif"@[0] && "webp"@[0] != "tiff"@[0]);
    assert("avif"@[0] != "heif"@[0] && "avif"@[0] != "tiff"@[0] && "heif"@[0] != "tiff"@[0]);
    assert("jpeg"@[0] != "webp"@[0] && "jpeg"@[0] != "avif"@[0] && "jpeg"@[0] != "heif"@[0]
        && "jpeg"@[0] != "tiff"@[0]);
    assert("jpeg"@[0] != "heic"@[0] && "webp"@[0] != "heic"@[0] && "avif"@[0] != "heic"@[0]
        && "tiff"@[0] != "heic"@[0]);
    assert("png"@[0] != "jpg"@[0] && "png"@[0] != "gif"@[0] && "jpg"@[0] != "gif"@[0]);
}

/// Rejected value for [`DefaultOutputFormat`]: it names none of source, jpeg,
/// png, webp, gif, tiff, avif or heif.
#[derive(Clone, Copy, Debug, PartialEq, Eq, Structural)]
pub struct DefaultOutputFormatParseError;

impl DefaultOutputFormat {
    /// The format's name.
    pub fn as_str(self) -> (r: &'static str)
        ensures
            r@ == default_format_name(self),
    {
        match self {
            DefaultOutputFormat::Source => "source",
            DefaultOutputFormat::Jpeg => "jpeg",
            DefaultOutputFormat::Png => "png",
            DefaultOutputFormat::Webp => "webp",
            DefaultOutputFormat::Gif => "gif",
            DefaultOutputFormat::Tiff => "tiff",
            DefaultOutputFormat::Avif => "avif",
            DefaultOutputFormat::Heif => "heif",
        }
    }

    /// The format every response is converted to, or `None` to keep the
    /// source's.
    pub fn fixed_format(self) -> (r: Option<&'static str>)
        ensures
            match self {
                DefaultOutputFormat::Source => r is None,
                _ => r matches Some(n) && n@ == default_format_name(self),
            },
    {
        match self {
            DefaultOutputFormat::Source => None,
            f => Some(f.as_str()),
        }
    }

    /// Reads a default output format from a setting.
    pub fn parse_text(value: &str) -> (r: Result<Self, DefaultOutputFormatParseError>)
        ensures
            match default_format_of(value@) {
                Some(f) => r == Ok::<Self, DefaultOutputFormatParseError>(f),
                None => r is Err,
            },
    {
        let v = chars_of(value);
        let t = trim_chars(v.as_slice());
        let l = to_ascii_lower(t.as_slice());
        let s = l.as_slice();
        if is(s, "source") {
            Ok(DefaultOutputFormat::Source)
        } else if is(s, "jpeg") || is(s, "jpg") {
            Ok(DefaultOutputFormat::Jpeg)
        } else if is(s, "png") {
            Ok(DefaultOutputFormat::Png)
        } else if is(s, "webp") {
            Ok(DefaultOutputFormat::Webp)
        } else if is(s, "gif") {
            Ok(DefaultOutputFormat::Gif)
        } else if is(s, "tiff") {
            Ok(DefaultOutputFormat::Tiff)
        } else if is(s, "avif") {
            Ok(DefaultOutputFormat::Avif)
        } else if is(s, "heif") || is(s, "heic") {
            Ok(DefaultOutputFormat::Heif)
        } else {
            Err(DefaultOutputFormatParseError)
        }
    }
}

impl core::str::FromStr for DefaultOutputFormat {
    type Err = DefaultOutputFormatParseError;

    fn from_str(value: &str) -> Result<Self, Self::Err> {
        Self::parse_text(value)
    }
}

/// A refused `presets` setting.
#[derive(Debug)]
pub enum PresetConfigError {
    /// A definition that is not `name=options`, or has an empty side.
    InvalidDefinition { definition: String },
    /// A definition whose options could not be read.
    InvalidOptions { name: String, message: String },
}

/// A directive as text.
pub type Directive = (Seq<char>, Seq<Seq<char>>);

/// What the comma-separated preset definitions make of `m`: each is trimmed,
/// an empty one is skipped, and the rest must be `name=options` with neither
/// side blank; a later definition replaces an earlier one of the same name.
/// On refusal, the definition refused.
pub open spec fn presets_from(defs: Seq<Seq<char>>) -> Result<Map<Seq<char>, Seq<Directive>>, Seq<char>>
    decreases defs.len(),
{
    if defs.len() == 0 {
        Ok(Map::empty())
    } else {
        match presets_from(defs.drop_last()) {
            Err(d) => Err(d),
            Ok(m) => {
                let d = trim(defs.last());
                if d.len() == 0 {
                    Ok(m)
                } else {
                    match split_once_char(d, '=') {
                        None => Err(d),
                        Some((name, options)) => {
                            let name = trim(name);
                            let options = trim(options);
                            if name.len() == 0 || options.len() == 0 {
                                Err(d)
                            } else {
                                Ok(m.insert(name, preset_directives(options)))
                            }
                        },
                    }
                }
            },
        }
    }
}

/// The presets' directives.
pub open spec fn preset_table(presets: StringMap<Vec<ProcessingOption>>) -> Map<Seq<char>, Seq<Directive>> {
    presets.spec_map().map_values(|v: Vec<ProcessingOption>| options_view(v@))
}

/// Parses the `presets` setting: `name=options,name=options`, where options
/// are written as in a URL.
pub fn parse_presets(presets_str: &str) -> (r: Result<StringMap<Vec<ProcessingOption>>, PresetConfigError>)
    ensures
        match presets_from(split_char(presets_str@, ',')) {
            Ok(m) => r matches Ok(p) && preset_table(p) == m,
            Err(d) => r matches Err(PresetConfigError::InvalidDefinition { definition }) && definition@
                == d,
        },
{
    let text = chars_of(presets_str);
    let defs = split_chars(text.as_slice(), ',');
    let ghost ds = views(defs@);
    let mut presets: StringMap<Vec<ProcessingOption>> = StringMap::new();
    assert(preset_table(presets) =~= Map::<Seq<char>, Seq<Directive>>::empty());
    let mut i: usize = 0;
    while i < defs.len()
        invariant
            ds == views(defs@),
            ds == split_char(presets_str@, ','),
            i <= defs@.len(),
            presets_from(ds.take(i as int)) == Ok::<Map<Seq<char>, Seq<Directive>>, Seq<char>>(
                preset_table(presets),
            ),
        decreases defs@.len() - i,
    {
        let ghost t = ds.take(i + 1);
        assert(t.drop_last() =~= ds.take(i as int));
        assert(t.last() == defs@[i as int]@);
        let def = trim_chars(defs[i].as_slice());
        if def.len() > 0 {
            match split_once_chars(def.as_slice(), '=') {
                None => {
                    proof {
                        lemma_presets_refusal_sticks(ds, i + 1, ds.len() as int);
                    }
                    assert(ds.take(ds.len() as int) =~= ds);
                    return Err(PresetConfigError::InvalidDefinition { definition: string_of(def.as_slice()) });
                },
                Some((name, options)) => {
                    let name = trim_chars(name.as_slice());
                    let options = trim_chars(options.as_slice());
                    if name.len() == 0 || options.len() == 0 {
                        proof {
                            lemma_presets_refusal_sticks(ds, i + 1, ds.len() as int);
                        }
                        assert(ds.take(ds.len() as int) =~= ds);
                        return Err(
                            PresetConfigError::InvalidDefinition { definition: string_of(def.as_slice()) },
                        );
                    }
                    let options_text = string_of(options.as_slice());
                    let parsed = match parse_options_string(options_text.as_str()) {
                        Ok(p) => p,
                        Err(message) => {
                            return Err(
                                PresetConfigError::InvalidOptions { name: string_of(name.as_slice()), message },
                            );
                        },
                    };
                    let ghost before = preset_table(presets);
                    presets.insert(string_of(name.as_slice()), parsed);
                    assert(preset_table(presets) =~= before.insert(name@, preset_directives(options@)));
                },
            }
        }
        i = i + 1;
    }
    assert(ds.take(defs@.len() as int) =~= ds);
    Ok(presets)
}

proof fn lemma_presets_refusal_sticks(defs: Seq<Seq<char>>, i: int, n: int)
    requires
        0 <= i <= n <= defs.len(),
        presets_from(defs.take(i)) is Err,
    ensures
        presets_from(defs.take(n)) == presets_from(defs.take(i)),
    decreases n - i,
{
    if n > i {
        lemma_presets_refusal_sticks(defs, i, n - 1);
        assert(defs.take(n).drop_last() =~= defs.take(n - 1));
    }
}

/// A bind address: a bare port number listens on every interface.
pub open spec fn bind_address_of(raw: Seq<char>) -> Seq<char> {
    let t = trim(raw);
    if parse_unsigned(t, u16::MAX as nat) is Some {
        "0.0.0.0:"@ + t
    } else {
        t
    }
}

/// Normalises a bind address, mapping a bare port to `0.0.0.0:port`.
pub fn normalize_bind_address(raw: &str) -> (r: String)
    ensures
        r@ == bind_address_of(raw@),
{
    let v = chars_of(raw);
    let t = trim_chars(v.as_slice());
    match crate::numbers::parse_uint(t.as_slice(), u16::MAX as u64) {
        Some(_) => {
            let mut s = "0.0.0.0:".to_owned();
            s.append(string_of(t.as_slice()).as_str());
            s
        },
        None => string_of(t.as_slice()),
    }
}

/// A mount prefix: empty, or `/segment` with no slash at either end.
pub open spec fn path_prefix_of(prefix: Option<Seq<char>>) -> Seq<char> {
    match prefix {
        None => seq![],
        Some(p) => {
            let t = trim_char(trim(p), '/');
            if t.len() == 0 {
                seq![]
            } else {
                seq!['/'] + t
            }
        },
    }
}

/// A health-check path: `/segment`, or `/health` when none is given.
pub open spec fn health_check_path_of(path: Option<Seq<char>>) -> Seq<char> {
    match path {
        None => "/health"@,
        Some(p) => {
            let t = trim_char(trim(p), '/');
            if t.len() == 0 {
                "/health"@
            } else {
                seq!['/'] + t
            }
        },
    }
}

fn slash_prefixed(v: &[char]) -> (r: String)
    ensures
        r@ == seq!['/'] + v@,
{
    let mut out: Vec<char> = Vec::new();
    out.push('/');
    crate::text::append_chars(&mut out, v);
    assert(out@ =~= seq!['/'] + v@);
    string_of(out.as_slice())
}

/// Normalises a mount prefix to either empty or `/segment` with no trailing
/// slash, so routes can be built by concatenation.
pub fn normalize_path_prefix(prefix: Option<&str>) -> (r: String)
    ensures
        r@ == path_prefix_of(
            match prefix {
                Some(p) => Some(p@),
                None => None,
            },
        ),
{
    match prefix {
        None => String::new(),
        Some(p) => {
            let v = chars_of(p);
            let t = trim_chars(v.as_slice());
            let t = trim_char_chars(t.as_slice(), '/');
            if t.len() == 0 {
                String::new()
            } else {
                slash_prefixed(t.as_slice())
            }
        },
    }
}

/// Normalises the health-check path, defaulting to `/health`.
pub fn normalize_health_check_path(path: Option<&str>) -> (r: String)
    ensures
        r@ == health_check_path_of(
            match path {
                Some(p) => Some(p@),
                None => None,
            },
        ),
{
    match path {
        None => "/health".to_owned(),
        Some(p) => {
            let v = chars_of(p);
            let t = trim_chars(v.as_slice());
            let t = trim_char_chars(t.as_slice(), '/');
            if t.len() == 0 {
                "/health".to_owned()
            } else {
                slash_prefixed(t.as_slice())
            }
        },
    }
}

} // verus!
