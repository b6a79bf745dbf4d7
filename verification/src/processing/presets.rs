//! Named sets of processing directives that a URL can refer to.

use crate::config::preset_table;
use crate::processing::options::error::arg_views;
use crate::processing::options::ProcessingOption;
use crate::string_map::StringMap;
use crate::text::{chars_of, is, split_char, split_chars, string_of, trim, trim_chars, views};
use vstd::prelude::*;

verus! {

/// A directive as text: its name and its arguments.
pub open spec fn option_view(o: ProcessingOption) -> (Seq<char>, Seq<Seq<char>>) {
    (o.name@, arg_views(o.args@))
}

/// The directives as text.
pub open spec fn options_view(s: Seq<ProcessingOption>) -> Seq<(Seq<char>, Seq<Seq<char>>)> {
    s.map_values(|o: ProcessingOption| option_view(o))
}

/// The directives that `/`-separated pieces spell: each piece is trimmed,
/// an empty one is skipped, and the rest is `name:arg:arg...`.
pub open spec fn directives_of(parts: Seq<Seq<char>>) -> Seq<(Seq<char>, Seq<Seq<char>>)>
    decreases parts.len(),
{
    if parts.len() == 0 {
        seq![]
    } else {
        let rest = directives_of(parts.drop_last());
        let t = trim(parts.last());
        if t.len() == 0 {
            rest
        } else {
            let segments = split_char(t, ':');
            rest.push((segments[0], segments.drop_first()))
        }
    }
}

/// The directives a preset's text holds, e.g. `resize:fit:300:300/quality:85`.
pub open spec fn preset_directives(s: Seq<char>) -> Seq<(Seq<char>, Seq<Seq<char>>)> {
    directives_of(split_char(s, '/'))
}

proof fn lemma_split_nonempty(s: Seq<char>, c: char)
    ensures
        split_char(s, c).len() >= 1,
{
    reveal_with_fuel(split_char, 2);
}

fn strings_of(v: &[Vec<char>]) -> (r: Vec<String>)
    ensures
        arg_views(r@) == views(v@),
{
    let mut r: Vec<String> = Vec::new();
    let mut i: usize = 0;
    while i < v.len()
        invariant
            i <= v@.len(),
            arg_views(r@) == views(v@).take(i as int),
        decreases v@.len() - i,
    {
        let ghost before = r@;
        r.push(string_of(v[i].as_slice()));
        assert(arg_views(r@) =~= arg_views(before).push(v@[i as int]@));
        i = i + 1;
        assert(arg_views(r@) =~= views(v@).take(i as int));
    }
    assert(views(v@).take(v@.len() as int) =~= views(v@));
    r
}

/// Parses a preset's text into directives.
///
/// Directives are separated by `/` and written as in a URL, e.g.
/// `resize:fit:300:300/dpr:3/quality:85`. Empty pieces are skipped, so the
/// text never fails to parse.
pub fn parse_options_string(options_str: &str) -> (r: Result<Vec<ProcessingOption>, String>)
    ensures
        r matches Ok(v) && options_view(v@) == preset_directives(options_str@),
{
    let text = chars_of(options_str);
    let parts = split_chars(text.as_slice(), '/');
    let ghost p = views(parts@);
    let mut options: Vec<ProcessingOption> = Vec::new();
    let mut i: usize = 0;
    while i < parts.len()
        invariant
            p == views(parts@),
            p == split_char(options_str@, '/'),
            i <= parts@.len(),
            options_view(options@) == directives_of(p.take(i as int)),
        decreases parts@.len() - i,
    {
        let part = trim_chars(parts[i].as_slice());
        let ghost t = p.take(i + 1);
        assert(t.drop_last() =~= p.take(i as int));
        assert(t.last() == parts@[i as int]@);
        if part.len() > 0 {
            let segments = split_chars(part.as_slice(), ':');
            proof {
                lemma_split_nonempty(part@, ':');
            }
            let name = string_of(segments[0].as_slice());
            let rest = vstd::slice::slice_subrange(segments.as_slice(), 1, segments.len());
            let args = strings_of(rest);
            assert(views(rest@) =~= views(segments@).drop_first());
            let ghost before = options@;
            options.push(ProcessingOption { name, args });
            assert(options_view(options@) =~= options_view(before).push(
                (segments@[0]@, views(segments@).drop_first()),
            ));
        }
        i = i + 1;
    }
    assert(p.take(parts@.len() as int) =~= p);
    Ok(options)
}

/// Whether a directive names a preset.
pub open spec fn is_preset_reference(name: Seq<char>) -> bool {
    name == "preset"@ || name == "pr"@
}

/// The presets' texts.
pub open spec fn preset_texts(presets: StringMap<String>) -> Map<Seq<char>, Seq<char>> {
    presets.spec_map().map_values(|t: String| t@)
}

/// The directives each preset text stands for.
pub open spec fn texts_table(texts: Map<Seq<char>, Seq<char>>) -> Map<Seq<char>, Seq<(Seq<char>, Seq<Seq<char>>)>> {
    texts.map_values(|t: Seq<char>| preset_directives(t))
}

/// The directives before the URL's: the `default` preset's, when there is one.
pub open spec fn default_directives(table: Map<Seq<char>, Seq<(Seq<char>, Seq<Seq<char>>)>>) -> Seq<
    (Seq<char>, Seq<Seq<char>>),
> {
    if table.contains_key("default"@) {
        table["default"@]
    } else {
        seq![]
    }
}

/// What one URL directive expands to, or the message it is refused with.
pub open spec fn expansion_of(
    o: (Seq<char>, Seq<Seq<char>>),
    table: Map<Seq<char>, Seq<(Seq<char>, Seq<Seq<char>>)>>,
    only_presets: bool,
) -> Result<Seq<(Seq<char>, Seq<Seq<char>>)>, Seq<char>> {
    if is_preset_reference(o.0) {
        if o.1.len() == 0 {
            Err("preset option requires a preset name"@)
        } else if !table.contains_key(o.1[0]) {
            Err("unknown preset: "@ + o.1[0])
        } else {
            Ok(table[o.1[0]])
        }
    } else if only_presets {
        Err("only preset references are allowed in only_presets mode, found: "@ + o.0)
    } else {
        Ok(seq![o])
    }
}

/// The URL's first `n` directives expanded in order after `start`; the first
/// refused directive refuses them all.
pub open spec fn expand_prefix(
    ops: Seq<(Seq<char>, Seq<Seq<char>>)>,
    n: int,
    start: Seq<(Seq<char>, Seq<Seq<char>>)>,
    texts: Map<Seq<char>, Seq<(Seq<char>, Seq<Seq<char>>)>>,
    only_presets: bool,
) -> Result<Seq<(Seq<char>, Seq<Seq<char>>)>, Seq<char>>
    decreases n,
{
    if n <= 0 {
        Ok(start)
    } else {
        match expand_prefix(ops, n - 1, start, texts, only_presets) {
            Err(m) => Err(m),
            Ok(done) => match expansion_of(ops[n - 1], texts, only_presets) {
                Err(m) => Err(m),
                Ok(more) => Ok(done + more),
            },
        }
    }
}

proof fn lemma_refusal_sticks(
    ops: Seq<(Seq<char>, Seq<Seq<char>>)>,
    i: int,
    n: int,
    start: Seq<(Seq<char>, Seq<Seq<char>>)>,
    texts: Map<Seq<char>, Seq<(Seq<char>, Seq<Seq<char>>)>>,
    only_presets: bool,
)
    requires
        0 <= i <= n,
        expand_prefix(ops, i, start, texts, only_presets) is Err,
    ensures
        expand_prefix(ops, n, start, texts, only_presets) == expand_prefix(
            ops,
            i,
            start,
            texts,
            only_presets,
        ),
    decreases n - i,
{
    if n > i {
        lemma_refusal_sticks(ops, i, n - 1, start, texts, only_presets);
    }
}

/// Whether any of the directives names a preset.
pub open spec fn has_reference(ops: Seq<(Seq<char>, Seq<Seq<char>>)>) -> bool {
    exists|i: int| 0 <= i < ops.len() && is_preset_reference(#[trigger] ops[i].0)
}

/// What expanding the presets a URL refers to makes of its directives.
pub open spec fn expanded_directives(
    ops: Seq<(Seq<char>, Seq<Seq<char>>)>,
    texts: Map<Seq<char>, Seq<(Seq<char>, Seq<Seq<char>>)>>,
    only_presets: bool,
) -> Result<Seq<(Seq<char>, Seq<Seq<char>>)>, Seq<char>> {
    match expand_prefix(ops, ops.len() as int, default_directives(texts), texts, only_presets) {
        Err(m) => Err(m),
        Ok(done) => if only_presets && !has_reference(ops) && !texts.contains_key("default"@)
            && done.len() > 0 {
            Err("only preset references are allowed in only_presets mode"@)
        } else {
            Ok(done)
        },
    }
}

fn prefixed(prefix: &str, tail: &str) -> (r: String)
    ensures
        r@ == prefix@ + tail@,
{
    let mut s = prefix.to_owned();
    s.append(tail);
    s
}

/// Expands preset references in processing options.
///
/// A `default` preset, when there is one, comes first; each `preset:name`
/// (or `pr:name`) is replaced by that preset's directives, and with
/// `only_presets` any other directive is refused.
pub fn expand_presets(
    options: Vec<ProcessingOption>,
    presets: &StringMap<String>,
    only_presets: bool,
) -> (r: Result<Vec<ProcessingOption>, String>)
    ensures
        match expanded_directives(options_view(options@), texts_table(preset_texts(*presets)), only_presets) {
            Ok(v) => r matches Ok(x) && options_view(x@) == v,
            Err(m) => r matches Err(x) && x@ == m,
        },
{
    let ghost ops = options_view(options@);
    let ghost texts = texts_table(preset_texts(*presets));
    let mut expanded: Vec<ProcessingOption> = Vec::new();
    let mut has_preset_reference = false;
    match presets.get("default") {
        Some(default_options) => {
            proof {
                reveal_strlit("default");
            }
            let mut opts = parse_options_string(default_options.as_str()).unwrap();
            expanded.append(&mut opts);
        },
        None => {},
    }
    assert(options_view(expanded@) =~= default_directives(texts));
    let total = options.len();
    let mut remaining = options;
    let ghost original = remaining@;
    let mut i: usize = 0;
    while remaining.len() > 0
        invariant
            ops == options_view(original),
            texts == texts_table(preset_texts(*presets)),
            i + remaining@.len() == original.len(),
            original.len() == total,
            ops == options_view(options@),
            texts == texts_table(preset_texts(*presets)),
            remaining@ == original.skip(i as int),
            expand_prefix(ops, i as int, default_directives(texts), texts, only_presets) == Ok::<
                Seq<(Seq<char>, Seq<Seq<char>>)>,
                Seq<char>,
            >(options_view(expanded@)),
            has_preset_reference == has_reference(ops.take(i as int)),
        decreases remaining@.len(),
    {
        let option = remaining.remove(0);
        assert(option == original[i as int]);
        assert(ops[i as int] == option_view(option));
        assert(ops.take(i + 1) =~= ops.take(i as int).push(ops[i as int]));
        let name = chars_of(option.name.as_str());
        if is(name.as_slice(), "preset") || is(name.as_slice(), "pr") {
            has_preset_reference = true;
            assert(has_reference(ops.take(i + 1))) by {
                assert(ops.take(i + 1)[i as int] == ops[i as int]);
                assert(is_preset_reference(ops.take(i + 1)[i as int].0));
            }
            if option.args.len() == 0 {
                proof {
                    assert(expansion_of(ops[i as int], texts, only_presets) is Err);
                    assert(expand_prefix(ops, i + 1, default_directives(texts), texts, only_presets) is Err);
                    lemma_refusal_sticks(ops, i + 1, ops.len() as int, default_directives(texts), texts, only_presets);
                    assert(expanded_directives(ops, texts, only_presets) == Err::<Seq<(Seq<char>, Seq<Seq<char>>)>, Seq<char>>("preset option requires a preset name"@));
                }
                return Err("preset option requires a preset name".to_owned());
            }
            let preset_name = &option.args[0];
            assert(option_view(option).1[0] == preset_name@);
            match presets.get(preset_name.as_str()) {
                None => {
                    proof {
                        lemma_refusal_sticks(ops, i + 1, ops.len() as int, default_directives(texts), texts, only_presets);
                    }
                    return Err(prefixed("unknown preset: ", preset_name.as_str()));
                },
                Some(text) => {
                    let ghost before = options_view(expanded@);
                    let mut opts = parse_options_string(text.as_str()).unwrap();
                    expanded.append(&mut opts);
                    assert(options_view(expanded@) =~= before + texts[preset_name@]);
                },
            }
        } else if only_presets {
            proof {
                lemma_refusal_sticks(ops, i + 1, ops.len() as int, default_directives(texts), texts, only_presets);
            }
            return Err(
                prefixed(
                    "only preset references are allowed in only_presets mode, found: ",
                    option.name.as_str(),
                ),
            );
        } else {
            proof {
                assert(!is_preset_reference(ops[i as int].0));
                assert forall|j: int|
                    0 <= j < i + 1 && is_preset_reference(#[trigger] ops.take(i + 1)[j].0) implies has_reference(
                    ops.take(i as int),
                ) by {
                    assert(ops.take(i as int)[j] == ops.take(i + 1)[j]);
                }
            }
            let ghost before = options_view(expanded@);
            expanded.push(option);
            assert(options_view(expanded@) =~= before + seq![ops[i as int]]);
        }
        i = i + 1;
        assert(remaining@ =~= original.skip(i as int));
    }
    assert(ops.take(i as int) =~= ops);
    if only_presets && !has_preset_reference && !presets.contains_key("default") && expanded.len() > 0 {
        return Err("only preset references are allowed in only_presets mode".to_owned());
    }
    Ok(expanded)
}

/// A copy of a list of directives, name and arguments alike.
fn copy_options(options: &Vec<ProcessingOption>) -> (r: Vec<ProcessingOption>)
    ensures
        options_view(r@) == options_view(options@),
{
    let mut out: Vec<ProcessingOption> = Vec::new();
    let mut i: usize = 0;
    while i < options.len()
        invariant
            i <= options@.len(),
            options_view(out@) == options_view(options@).take(i as int),
        decreases options@.len() - i,
    {
        let o = &options[i];
        let mut args: Vec<String> = Vec::new();
        let mut j: usize = 0;
        while j < o.args.len()
            invariant
                j <= o.args@.len(),
                arg_views(args@) == arg_views(o.args@).take(j as int),
            decreases o.args@.len() - j,
        {
            let ghost before = args@;
            args.push(o.args[j].clone());
            assert(arg_views(args@) =~= arg_views(before).push(o.args@[j as int]@));
            j = j + 1;
            assert(arg_views(args@) =~= arg_views(o.args@).take(j as int));
        }
        assert(arg_views(o.args@).take(o.args@.len() as int) =~= arg_views(o.args@));
        let ghost before = out@;
        out.push(ProcessingOption { name: o.name.clone(), args });
        assert(options_view(out@) =~= options_view(before).push(option_view(options@[i as int])));
        i = i + 1;
        assert(options_view(out@) =~= options_view(options@).take(i as int));
    }
    assert(options_view(options@).take(options@.len() as int) =~= options_view(options@));
    out
}

/// Expands preset references against the presets a configuration parsed,
/// with the same rules as [`expand_presets`].
pub fn expand_configured_presets(
    options: Vec<ProcessingOption>,
    presets: &StringMap<Vec<ProcessingOption>>,
    only_presets: bool,
) -> (r: Result<Vec<ProcessingOption>, String>)
    ensures
        match expanded_directives(options_view(options@), preset_table(*presets), only_presets) {
            Ok(v) => r matches Ok(x) && options_view(x@) == v,
            Err(m) => r matches Err(x) && x@ == m,
        },
{
    let ghost ops = options_view(options@);
    let ghost table = preset_table(*presets);
    let mut expanded: Vec<ProcessingOption> = Vec::new();
    let mut has_preset_reference = false;
    match presets.get("default") {
        Some(default_options) => {
            proof {
                reveal_strlit("default");
            }
            let mut opts = copy_options(default_options);
            expanded.append(&mut opts);
        },
        None => {},
    }
    assert(options_view(expanded@) =~= default_directives(table));
    let total = options.len();
    let mut remaining = options;
    let ghost start = remaining@;
    let mut i: usize = 0;
    while remaining.len() > 0
        invariant
            ops == options_view(start),
            ops == options_view(options@),
            table == preset_table(*presets),
            i + remaining@.len() == start.len(),
            start.len() == total,
            remaining@ == start.skip(i as int),
            expand_prefix(ops, i as int, default_directives(table), table, only_presets) == Ok::<
                Seq<(Seq<char>, Seq<Seq<char>>)>,
                Seq<char>,
            >(options_view(expanded@)),
            has_preset_reference == has_reference(ops.take(i as int)),
        decreases remaining@.len(),
    {
        let option = remaining.remove(0);
        assert(option == start[i as int]);
        assert(ops[i as int] == option_view(option));
        assert(ops.take(i + 1) =~= ops.take(i as int).push(ops[i as int]));
        let name = chars_of(option.name.as_str());
        if is(name.as_slice(), "preset") || is(name.as_slice(), "pr") {
            has_preset_reference = true;
            assert(has_reference(ops.take(i + 1))) by {
                assert(ops.take(i + 1)[i as int] == ops[i as int]);
                assert(is_preset_reference(ops.take(i + 1)[i as int].0));
            }
            if option.args.len() == 0 {
                proof {
                    assert(expansion_of(ops[i as int], table, only_presets) is Err);
                    assert(expand_prefix(ops, i + 1, default_directives(table), table, only_presets) is Err);
                    lemma_refusal_sticks(ops, i + 1, ops.len() as int, default_directives(table), table, only_presets);
                    assert(expanded_directives(ops, table, only_presets) == Err::<Seq<(Seq<char>, Seq<Seq<char>>)>, Seq<char>>("preset option requires a preset name"@));
                }
                return Err("preset option requires a preset name".to_owned());
            }
            let preset_name = &option.args[0];
            assert(option_view(option).1[0] == preset_name@);
            match presets.get(preset_name.as_str()) {
                None => {
                    proof {
                        lemma_refusal_sticks(ops, i + 1, ops.len() as int, default_directives(table), table, only_presets);
                    }
                    return Err(prefixed("unknown preset: ", preset_name.as_str()));
                },
                Some(found) => {
                    let ghost before = options_view(expanded@);
                    let mut opts = copy_options(found);
                    expanded.append(&mut opts);
                    assert(options_view(expanded@) =~= before + table[preset_name@]);
                },
            }
        } else if only_presets {
            proof {
                lemma_refusal_sticks(ops, i + 1, ops.len() as int, default_directives(table), table, only_presets);
            }
            return Err(
                prefixed(
                    "only preset references are allowed in only_presets mode, found: ",
                    option.name.as_str(),
                ),
            );
        } else {
            proof {
                assert(!is_preset_reference(ops[i as int].0));
                assert forall|j: int|
                    0 <= j < i + 1 && is_preset_reference(#[trigger] ops.take(i + 1)[j].0) implies has_reference(
                    ops.take(i as int),
                ) by {
                    assert(ops.take(i as int)[j] == ops.take(i + 1)[j]);
                }
            }
            let ghost before = options_view(expanded@);
            expanded.push(option);
            assert(options_view(expanded@) =~= before + seq![ops[i as int]]);
        }
        i = i + 1;
        assert(remaining@ =~= start.skip(i as int));
    }
    assert(ops.take(i as int) =~= ops);
    if only_presets && !has_preset_reference && !presets.contains_key("default") && expanded.len() > 0 {
        return Err("only preset references are allowed in only_presets mode".to_owned());
    }
    Ok(expanded)
}

} // verus!
