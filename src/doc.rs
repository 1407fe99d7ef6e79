//! Help text taken from documentation comments.
use vstd::prelude::*;

use crate::text::{
    push_char, str_eq, strip_prefixes, strip_suffixes, trim, trim_end_matches, trim_spec,
    trim_start_matches,
};

verus! {

/// The blank-paragraph marker that an empty documentation line becomes.
pub open spec fn blank_marker() -> Seq<char> {
    seq!['\n', '\n']
}

/// One documentation line with its comment markers and surrounding
/// whitespace removed.
pub open spec fn doc_text(v: Seq<char>) -> Seq<char> {
    trim_spec(
        strip_suffixes(
            strip_prefixes(
                strip_prefixes(strip_prefixes(strip_prefixes(v, "//!"@), "///"@), "/*!"@),
                "/**"@,
            ),
            "*/"@,
        ),
    )
}

/// What one documentation line is collected as: its text, or the blank
/// marker where no text is left.
pub open spec fn doc_unit(v: Seq<char>) -> Seq<char> {
    if doc_text(v).len() == 0 {
        blank_marker()
    } else {
        doc_text(v)
    }
}

/// The pieces `us` joined with `sep` between each two.
pub open spec fn join(us: Seq<Seq<char>>, sep: Seq<char>) -> Seq<char>
    decreases us.len(),
{
    if us.len() == 0 {
        Seq::empty()
    } else if us.len() == 1 {
        us[0]
    } else {
        join(us.drop_last(), sep) + sep + us.last()
    }
}

/// The text `s`, read after the partial line `cur`, with every line trimmed;
/// lines stay separated by single newlines.
pub open spec fn retrim_from(s: Seq<char>, cur: Seq<char>) -> Seq<char>
    decreases s.len(),
{
    if s.len() == 0 {
        trim_spec(cur)
    } else if s[0] == '\n' {
        trim_spec(cur) + seq!['\n'] + retrim_from(s.subrange(1, s.len() as int), Seq::empty())
    } else {
        retrim_from(s.subrange(1, s.len() as int), cur.push(s[0]))
    }
}

/// The text `s` with every line trimmed.
pub open spec fn retrim(s: Seq<char>) -> Seq<char> {
    retrim_from(s, Seq::empty())
}

/// The collected units: `"\n\n"` for a blank line, the text otherwise.
pub open spec fn doc_units(raw: Seq<Seq<char>>) -> Seq<Seq<char>> {
    raw.map_values(|v: Seq<char>| doc_unit(v))
}

/// The whole documentation: units joined with spaces, each line trimmed.
pub open spec fn merged_doc(units: Seq<Seq<char>>) -> Seq<char> {
    retrim(join(units, seq![' ']))
}

/// Whether the documentation splits into a short and a long form: more than
/// two units, the second being the blank marker.
pub open spec fn splits(units: Seq<Seq<char>>) -> bool {
    units.len() > 2 && units[1] == blank_marker()
}

/// The summary: the first unit, trimmed, without trailing periods.
pub open spec fn short_doc(units: Seq<Seq<char>>) -> Seq<char> {
    strip_suffixes(trim_spec(units[0]), "."@)
}

/// The registrations that the documentation lines `raw` give under the base
/// name `name`: none without documentation; a long form under `long_<name>`
/// and a summary under `name` where it splits; the whole text under `name`
/// otherwise.
pub open spec fn doc_methods(raw: Seq<Seq<char>>, name: Seq<char>) -> Seq<(Seq<char>, Seq<char>)> {
    let units = doc_units(raw);
    if units.len() == 0 {
        Seq::empty()
    } else if splits(units) {
        seq![("long_"@ + name, merged_doc(units)), (name, short_doc(units))]
    } else {
        seq![(name, merged_doc(units))]
    }
}

/// The views of a sequence of string pairs.
pub open spec fn pairs_view(v: Seq<(String, String)>) -> Seq<(Seq<char>, Seq<char>)> {
    v.map_values(|p: (String, String)| (p.0@, p.1@))
}

/// The views of a sequence of strings.
pub open spec fn strings_view(v: Seq<String>) -> Seq<Seq<char>> {
    v.map_values(|s: String| s@)
}

/// Collects one documentation line.
pub fn collect_doc_line(v: &str) -> (r: String)
    ensures
        r@ == doc_unit(v@),
{
    let a = trim_start_matches(v, "//!");
    let b = trim_start_matches(a.as_str(), "///");
    let c = trim_start_matches(b.as_str(), "/*!");
    let d = trim_start_matches(c.as_str(), "/**");
    let e = trim_end_matches(d.as_str(), "*/");
    let t = trim(e.as_str());
    if t.as_str().unicode_len() == 0 {
        let mut m = String::new();
        push_char(&mut m, '\n');
        push_char(&mut m, '\n');
        assert(m@ == blank_marker());
        m
    } else {
        t
    }
}

/// The units joined with single spaces.
fn join_units(units: &Vec<String>) -> (r: String)
    ensures
        r@ == join(strings_view(units@), seq![' ']),
{
    let mut out = String::new();
    let mut i: usize = 0;
    let ghost us = strings_view(units@);
    while i < units.len()
        invariant
            i <= units@.len(),
            us == strings_view(units@),
            out@ == join(us.subrange(0, i as int), seq![' ']),
        decreases units@.len() - i,
    {
        let ghost before = out@;
        if i > 0 {
            push_char(&mut out, ' ');
        }
        out.append(units[i].as_str());
        assert(us.subrange(0, i + 1).drop_last() == us.subrange(0, i as int));
        assert(us.subrange(0, i + 1).last() == units@[i as int]@);
        i = i + 1;
    }
    assert(us.subrange(0, units@.len() as int) == us);
    out
}

/// `s` with every line trimmed.
fn retrim_lines(s: &str) -> (r: String)
    ensures
        r@ == retrim(s@),
{
    let n = s.unicode_len();
    let mut out = String::new();
    let mut cur = String::new();
    let mut i: usize = 0;
    assert(s@.subrange(0, n as int) == s@);
    while i < n
        invariant
            n == s@.len(),
            i <= n,
            out@ + retrim_from(s@.subrange(i as int, n as int), cur@) == retrim(s@),
        decreases n - i,
    {
        let c = s.get_char(i);
        let ghost rest = s@.subrange(i as int, n as int);
        assert(rest.subrange(1, rest.len() as int) == s@.subrange(i + 1, n as int));
        if c == '\n' {
            let t = trim(cur.as_str());
            out.append(t.as_str());
            push_char(&mut out, '\n');
            cur = String::new();
        } else {
            push_char(&mut cur, c);
        }
        i = i + 1;
    }
    let t = trim(cur.as_str());
    out.append(t.as_str());
    out
}

/// The help registrations for the documentation lines `raw` under the base
/// name `name` (`help` for a field, `about` for a declaration).
pub fn extract_doc(raw: &Vec<String>, name: &str) -> (r: Vec<(String, String)>)
    ensures
        pairs_view(r@) == doc_methods(strings_view(raw@), name@),
{
    let mut units: Vec<String> = Vec::new();
    let mut i: usize = 0;
    let ghost rv = strings_view(raw@);
    while i < raw.len()
        invariant
            i <= raw@.len(),
            rv == strings_view(raw@),
            units@.len() == i,
            forall|k: int| 0 <= k < i ==> #[trigger] units@[k]@ == doc_unit(raw@[k]@),
        decreases raw@.len() - i,
    {
        let u = collect_doc_line(raw[i].as_str());
        units.push(u);
        i = i + 1;
    }
    let ghost us = strings_view(units@);
    assert(us =~= doc_units(rv));
    let mut out: Vec<(String, String)> = Vec::new();
    if units.len() == 0 {
        assert(pairs_view(out@) =~= doc_methods(rv, name@));
        return out;
    }
    let joined = join_units(&units);
    let merged = retrim_lines(joined.as_str());
    let mut split = false;
    if units.len() > 2 {
        let mut blank = String::new();
        push_char(&mut blank, '\n');
        push_char(&mut blank, '\n');
        assert(blank@ == blank_marker());
        split = str_eq(units[1].as_str(), blank.as_str());
        assert(us[1] == units@[1]@);
    }
    let base = String::from_str(name);
    assert(merged@ == merged_doc(us));
    assert(split == splits(us));
    if split {
        let mut long_name = String::from_str("long_");
        long_name.append(name);
        out.push((long_name, merged));
        let first = trim(units[0].as_str());
        let short = trim_end_matches(first.as_str(), ".");
        assert(us[0] == units@[0]@);
        out.push((base, short));
        assert(pairs_view(out@)[0] == ("long_"@ + name@, merged_doc(us)));
        assert(pairs_view(out@)[1] == (name@, short_doc(us)));
    } else {
        out.push((base, merged));
        assert(pairs_view(out@)[0] == (name@, merged_doc(us)));
    }
    assert(pairs_view(out@) =~= doc_methods(rv, name@));
    out
}

/// A documentation of at most two collected units never splits: it gives one
/// registration, under the base name. One of more than two units whose second
/// is the blank marker always splits into a long form and a summary.
pub proof fn lemma_doc_split_boundary(raw: Seq<Seq<char>>, name: Seq<char>)
    ensures
        0 < raw.len() <= 2 ==> doc_methods(raw, name).len() == 1 && doc_methods(raw, name)[0].0
            == name,
        raw.len() > 2 && doc_unit(raw[1]) == blank_marker() ==> doc_methods(raw, name).len() == 2
            && doc_methods(raw, name)[0].0 == "long_"@ + name && doc_methods(raw, name)[1].0
            == name,
{
}

} // verus!
