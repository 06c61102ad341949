//! The country tables of the locale generator: IANA `zone1970.tab` to one
//! representative time zone per country, and the Rust source of the
//! generated table.

use crate::strmap::{agrees, insert_if_absent, insert_or_replace, keys_sorted};
use crate::text::{
    chars_of, extend_str, lines_seq, pieces, split_lines, split_on, split_seq, string_of, trim,
    trim_seq,
};
use vstd::prelude::*;

verus! {

/// One emitted table row: an uppercase country code and its ranked language
/// subtags (dominant first).
#[derive(Debug, PartialEq, Eq)]
pub struct CountryRow {
    pub cc: String,
    pub langs: Vec<String>,
}

/// The `(country, zone)` pairs one `zone1970.tab` line contributes: none for
/// a comment, a blank line or a line without a zone; otherwise one per
/// comma-separated country code of the first column, each with the trimmed
/// third column.
pub open spec fn line_entries(line: Seq<char>) -> Seq<(Seq<char>, Seq<char>)> {
    if (line.len() > 0 && line[0] == '#') || trim_seq(line).len() == 0 {
        Seq::empty()
    } else {
        let cols = split_seq(line, '\t');
        let zone = if cols.len() >= 3 {
            trim_seq(cols[2])
        } else {
            Seq::empty()
        };
        if zone.len() == 0 {
            Seq::empty()
        } else {
            split_seq(cols[0], ',').map_values(|cc: Seq<char>| (cc, zone))
        }
    }
}

/// The `(country, zone)` pairs of a list of lines, in order.
pub open spec fn zone_entries(lines: Seq<Seq<char>>) -> Seq<(Seq<char>, Seq<char>)>
    decreases lines.len(),
{
    if lines.len() == 0 {
        Seq::empty()
    } else {
        zone_entries(lines.drop_last()) + line_entries(lines.last())
    }
}

/// Each country's first-appearing zone.
pub open spec fn first_wins(es: Seq<(Seq<char>, Seq<char>)>) -> Map<Seq<char>, Seq<char>>
    decreases es.len(),
{
    if es.len() == 0 {
        Map::empty()
    } else {
        let m = first_wins(es.drop_last());
        if m.dom().contains(es.last().0) {
            m
        } else {
            m.insert(es.last().0, es.last().1)
        }
    }
}

/// The curated primary zones of the large multi-zone countries whose first
/// `zone1970.tab` row is not their most populous zone.
pub open spec fn with_overrides(m: Map<Seq<char>, Seq<char>>) -> Map<Seq<char>, Seq<char>> {
    m.insert("RU"@, "Europe/Moscow"@).insert("UA"@, "Europe/Kyiv"@).insert(
        "CA"@,
        "America/Toronto"@,
    ).insert("AU"@, "Australia/Sydney"@).insert("BR"@, "America/Sao_Paulo"@)
}

/// The country-to-zone table of a `zone1970.tab` text.
pub open spec fn tz_table(raw: Seq<char>) -> Map<Seq<char>, Seq<char>> {
    with_overrides(first_wins(zone_entries(lines_seq(raw))))
}

/// A pair of `line_entries` comes from a line that is not a comment: its
/// country is one of the line's first-column codes and its zone the trimmed
/// third column.
proof fn lemma_line_entry_source(line: Seq<char>, e: (Seq<char>, Seq<char>))
    requires
        line_entries(line).contains(e),
    ensures
        !(line.len() > 0 && line[0] == '#'),
        split_seq(line, '\t').len() >= 3,
        split_seq(split_seq(line, '\t')[0], ',').contains(e.0),
        e.1 == trim_seq(split_seq(line, '\t')[2]),
{
    let cols = split_seq(line, '\t');
    let codes = split_seq(cols[0], ',');
    let zone = trim_seq(cols[2]);
    let i = choose|i: int| 0 <= i < line_entries(line).len() && line_entries(line)[i] == e;
    assert(codes.map_values(|cc: Seq<char>| (cc, zone))[i] == e);
    assert(codes[i] == e.0);
}

/// Every pair of `zone_entries(lines)` is one of some line's pairs.
proof fn lemma_zone_entry_source(lines: Seq<Seq<char>>, i: int)
    requires
        0 <= i < zone_entries(lines).len(),
    ensures
        exists|j: int|
            0 <= j < lines.len() && #[trigger] line_entries(lines[j]).contains(
                zone_entries(lines)[i],
            ),
    decreases lines.len(),
{
    let front = zone_entries(lines.drop_last());
    let back = line_entries(lines.last());
    assert(zone_entries(lines) == front + back);
    if i < front.len() {
        lemma_zone_entry_source(lines.drop_last(), i);
        let j = choose|j: int|
            0 <= j < lines.drop_last().len() && #[trigger] line_entries(
                lines.drop_last()[j],
            ).contains(front[i]);
        assert(lines[j] == lines.drop_last()[j]);
        assert(zone_entries(lines)[i] == front[i]);
        assert(line_entries(lines[j]).contains(zone_entries(lines)[i]));
    } else {
        assert(back[i - front.len()] == zone_entries(lines)[i]);
        assert(back.contains(zone_entries(lines)[i]));
        assert(line_entries(lines[lines.len() - 1]).contains(zone_entries(lines)[i]));
    }
}

/// Every key of `first_wins(es)` is the country of one of the pairs, with
/// that pair's zone.
proof fn lemma_first_wins_source(es: Seq<(Seq<char>, Seq<char>)>, k: Seq<char>)
    requires
        first_wins(es).dom().contains(k),
    ensures
        exists|i: int| 0 <= i < es.len() && #[trigger] es[i] == (k, first_wins(es)[k]),
    decreases es.len(),
{
    let m = first_wins(es.drop_last());
    if m.dom().contains(k) && (m.dom().contains(es.last().0) || k != es.last().0) {
        lemma_first_wins_source(es.drop_last(), k);
        let i = choose|i: int|
            0 <= i < es.drop_last().len() && #[trigger] es.drop_last()[i] == (k, m[k]);
        assert(es[i] == es.drop_last()[i]);
    } else {
        assert(es[es.len() - 1] == (k, first_wins(es)[k]));
    }
}

/// A comment line (one whose first character is `#`) contributes no
/// country: every country of the table is one of the curated overrides or
/// a first-column code of a line that is not a comment and has a third
/// column, and, outside the overrides, its zone is that line's trimmed
/// third column.
pub proof fn comment_lines_contribute_no_country(raw: Seq<char>, k: Seq<char>)
    requires
        tz_table(raw).dom().contains(k),
    ensures
        k == "RU"@ || k == "UA"@ || k == "CA"@ || k == "AU"@ || k == "BR"@ || exists|j: int|
            0 <= j < lines_seq(raw).len() && !(lines_seq(raw)[j].len() > 0 && lines_seq(raw)[j][0]
                == '#') && split_seq(lines_seq(raw)[j], '\t').len() >= 3 && #[trigger] split_seq(
                split_seq(lines_seq(raw)[j], '\t')[0],
                ',',
            ).contains(k) && tz_table(raw)[k] == trim_seq(split_seq(lines_seq(raw)[j], '\t')[2]),
{
    if !(k == "RU"@ || k == "UA"@ || k == "CA"@ || k == "AU"@ || k == "BR"@) {
        let lines = lines_seq(raw);
        let es = zone_entries(lines);
        let m = first_wins(es);
        assert(m.dom().contains(k));
        assert(tz_table(raw)[k] == m[k]);
        lemma_first_wins_source(es, k);
        let i = choose|i: int| 0 <= i < es.len() && #[trigger] es[i] == (k, m[k]);
        lemma_zone_entry_source(lines, i);
        let j = choose|j: int| 0 <= j < lines.len() && #[trigger] line_entries(lines[j]).contains(es[i]);
        lemma_line_entry_source(lines[j], es[i]);
    }
}

/// `first_wins` holds the country of every pair, with the zone of the
/// first pair for that country.
proof fn lemma_first_wins_keeps_first(es: Seq<(Seq<char>, Seq<char>)>, i: int)
    requires
        0 <= i < es.len(),
    ensures
        first_wins(es).dom().contains(es[i].0),
        exists|i2: int| 0 <= i2 <= i && #[trigger] es[i2] == (es[i].0, first_wins(es)[es[i].0]),
    decreases es.len(),
{
    let k = es[i].0;
    let front = es.drop_last();
    let m = first_wins(front);
    if i < es.len() - 1 {
        lemma_first_wins_keeps_first(front, i);
        assert(front[i] == es[i]);
        let i2 = choose|i2: int| 0 <= i2 <= i && #[trigger] front[i2] == (k, m[k]);
        assert(es[i2] == front[i2]);
        assert(first_wins(es)[k] == m[k]);
    } else if m.dom().contains(k) {
        lemma_first_wins_source(front, k);
        let i2 = choose|i2: int| 0 <= i2 < front.len() && #[trigger] front[i2] == (k, m[k]);
        assert(es[i2] == front[i2]);
    } else {
        assert(es[i] == (k, first_wins(es)[k]));
    }
}

/// The pairs of the first `n` lines are the first pairs of all the lines.
proof fn lemma_zone_entries_prefix(lines: Seq<Seq<char>>, n: int)
    requires
        0 <= n <= lines.len(),
    ensures
        zone_entries(lines.subrange(0, n)).len() <= zone_entries(lines).len(),
        forall|i: int|
            0 <= i < zone_entries(lines.subrange(0, n)).len() ==> zone_entries(lines)[i]
                == #[trigger] zone_entries(lines.subrange(0, n))[i],
    decreases lines.len(),
{
    if n == lines.len() {
        assert(lines.subrange(0, n) =~= lines);
    } else {
        let front = lines.drop_last();
        assert(lines.subrange(0, n) =~= front.subrange(0, n));
        lemma_zone_entries_prefix(front, n);
        assert(zone_entries(lines) == zone_entries(front) + line_entries(lines.last()));
    }
}

/// Each country keeps the zone of the first row that lists it: for a row
/// that is not a comment and names a zone, each of its first-column codes
/// (other than the curated overrides) is in the table, with the zone of
/// that row or of an earlier row that lists it too.
pub proof fn first_row_of_a_country_wins(raw: Seq<char>, j: int, k: Seq<char>)
    requires
        0 <= j < lines_seq(raw).len(),
        !(lines_seq(raw)[j].len() > 0 && lines_seq(raw)[j][0] == '#'),
        trim_seq(lines_seq(raw)[j]).len() > 0,
        split_seq(lines_seq(raw)[j], '\t').len() >= 3,
        trim_seq(split_seq(lines_seq(raw)[j], '\t')[2]).len() > 0,
        split_seq(split_seq(lines_seq(raw)[j], '\t')[0], ',').contains(k),
        !(k == "RU"@ || k == "UA"@ || k == "CA"@ || k == "AU"@ || k == "BR"@),
    ensures
        tz_table(raw).dom().contains(k),
        exists|j2: int|
            0 <= j2 <= j && !(lines_seq(raw)[j2].len() > 0 && lines_seq(raw)[j2][0] == '#')
                && split_seq(lines_seq(raw)[j2], '\t').len() >= 3 && #[trigger] split_seq(
                split_seq(lines_seq(raw)[j2], '\t')[0],
                ',',
            ).contains(k) && tz_table(raw)[k] == trim_seq(split_seq(lines_seq(raw)[j2], '\t')[2]),
{
    let lines = lines_seq(raw);
    let es = zone_entries(lines);
    let m = first_wins(es);
    let sub = lines.subrange(0, j + 1);
    let before = zone_entries(lines.subrange(0, j));
    let line = lines[j];
    let cols = split_seq(line, '\t');
    let codes = split_seq(cols[0], ',');
    let zone = trim_seq(cols[2]);
    assert(sub.drop_last() =~= lines.subrange(0, j));
    assert(sub.last() == line);
    assert(zone_entries(sub) == before + line_entries(line));
    assert(line_entries(line) == codes.map_values(|cc: Seq<char>| (cc, zone)));
    let c = choose|c: int| 0 <= c < codes.len() && codes[c] == k;
    let i = before.len() + c;
    assert(zone_entries(sub)[i] == (k, zone));
    lemma_zone_entries_prefix(lines, j + 1);
    assert(es[i] == (k, zone));
    lemma_first_wins_keeps_first(es, i);
    let i2 = choose|i2: int| 0 <= i2 <= i && #[trigger] es[i2] == (k, m[k]);
    assert(es[i2] == zone_entries(sub)[i2]);
    lemma_zone_entry_source(sub, i2);
    let j2 = choose|j2: int|
        0 <= j2 < sub.len() && #[trigger] line_entries(sub[j2]).contains(zone_entries(sub)[i2]);
    assert(sub[j2] == lines[j2]);
    lemma_line_entry_source(lines[j2], (k, m[k]));
    assert(tz_table(raw)[k] == m[k]);
}

/// Parse `zone1970.tab` into a `(country, IANA zone)` list sorted by country:
/// each country's first-appearing row wins, then the curated overrides apply.
pub fn tz_rows_from_zone_tab(raw: &str) -> (r: Vec<(String, String)>)
    ensures
        keys_sorted(r@),
        agrees(r@, tz_table(raw@)),
{
    let cs = chars_of(raw);
    let lines = split_lines(cs.as_slice());
    let ghost all = lines_seq(raw@);
    let mut out: Vec<(String, String)> = Vec::new();
    let mut i: usize = 0;
    proof {
        assert(all.subrange(0, 0) =~= Seq::<Seq<char>>::empty());
    }
    while i < lines.len()
        invariant
            i <= lines@.len(),
            lines@.len() == all.len(),
            forall|k: int| 0 <= k < lines@.len() ==> (#[trigger] lines@[k])@ == all[k],
            keys_sorted(out@),
            agrees(out@, first_wins(zone_entries(all.subrange(0, i as int)))),
        decreases lines@.len() - i,
    {
        let line = lines[i].as_slice();
        let ghost before = zone_entries(all.subrange(0, i as int));
        let ghost es = line_entries(all[i as int]);
        proof {
            let t = all.subrange(0, i + 1);
            assert(t.drop_last() =~= all.subrange(0, i as int));
            assert(t.last() == all[i as int]);
            assert(zone_entries(t) == before + es);
            assert(before + es.subrange(0, 0) =~= before);
        }
        let skip = (line.len() > 0 && line[0] == '#') || trim(line).len() == 0;
        if !skip {
            let cols = split_on(line, '\t');
            proof {
                assert(cols@.len() == pieces(cols@).len());
            }
            let zone_chars = if cols.len() >= 3 {
                proof {
                    assert(pieces(cols@)[2] == cols@[2]@);
                }
                trim(cols[2].as_slice())
            } else {
                Vec::new()
            };
            if zone_chars.len() > 0 {
                proof {
                    assert(pieces(cols@)[0] == cols@[0]@);
                }
                let ccs = split_on(cols[0].as_slice(), ',');
                let zone = string_of(zone_chars.as_slice());
                let mut j: usize = 0;
                while j < ccs.len()
                    invariant
                        j <= ccs@.len(),
                        pieces(ccs@).len() == ccs@.len(),
                        es == pieces(ccs@).map_values(|cc: Seq<char>| (cc, zone@)),
                        keys_sorted(out@),
                        agrees(out@, first_wins(before + es.subrange(0, j as int))),
                    decreases ccs@.len() - j,
                {
                    let cc = string_of(ccs[j].as_slice());
                    let ghost m = first_wins(before + es.subrange(0, j as int));
                    proof {
                        let t = before + es.subrange(0, j + 1);
                        assert(t.drop_last() =~= before + es.subrange(0, j as int));
                        assert(pieces(ccs@)[j as int] == ccs@[j as int]@);
                        assert(t.last() == (cc@, zone@));
                    }
                    insert_if_absent(&mut out, cc, zone.clone(), Ghost(m));
                    j = j + 1;
                }
                proof {
                    assert(es.subrange(0, es.len() as int) =~= es);
                }
            } else {
                proof {
                    assert(es =~= Seq::<(Seq<char>, Seq<char>)>::empty());
                }
            }
        } else {
            proof {
                assert(es =~= Seq::<(Seq<char>, Seq<char>)>::empty());
                assert(before + es =~= before);
            }
        }
        i = i + 1;
    }
    proof {
        assert(all.subrange(0, all.len() as int) =~= all);
    }
    let ghost m0 = first_wins(zone_entries(all));
    insert_or_replace(&mut out, String::from_str("RU"), String::from_str("Europe/Moscow"), Ghost(m0));
    let ghost m1 = m0.insert("RU"@, "Europe/Moscow"@);
    insert_or_replace(&mut out, String::from_str("UA"), String::from_str("Europe/Kyiv"), Ghost(m1));
    let ghost m2 = m1.insert("UA"@, "Europe/Kyiv"@);
    insert_or_replace(&mut out, String::from_str("CA"), String::from_str("America/Toronto"), Ghost(m2));
    let ghost m3 = m2.insert("CA"@, "America/Toronto"@);
    insert_or_replace(&mut out, String::from_str("AU"), String::from_str("Australia/Sydney"), Ghost(m3));
    let ghost m4 = m3.insert("AU"@, "Australia/Sydney"@);
    insert_or_replace(&mut out, String::from_str("BR"), String::from_str("America/Sao_Paulo"), Ghost(m4));
    out
}

/// `s` between double quotes.
pub open spec fn quoted(s: Seq<char>) -> Seq<char> {
    "\""@ + s + "\""@
}

/// The views of a list of strings.
pub open spec fn strs_view(v: Seq<String>) -> Seq<Seq<char>> {
    v.map_values(|s: String| s@)
}

/// Quoted strings joined with `", "`.
pub open spec fn quoted_list(ls: Seq<Seq<char>>) -> Seq<char>
    decreases ls.len(),
{
    if ls.len() == 0 {
        Seq::empty()
    } else if ls.len() == 1 {
        quoted(ls[0])
    } else {
        quoted_list(ls.drop_last()) + ", "@ + quoted(ls.last())
    }
}

/// The table line of one country.
pub open spec fn country_line(r: CountryRow) -> Seq<char> {
    "    (\""@ + r.cc@ + "\", &["@ + quoted_list(strs_view(r.langs@)) + "]),\n"@
}

/// The table lines of a list of countries.
pub open spec fn country_lines(rows: Seq<CountryRow>) -> Seq<char>
    decreases rows.len(),
{
    if rows.len() == 0 {
        Seq::empty()
    } else {
        country_lines(rows.drop_last()) + country_line(rows.last())
    }
}

/// The table line of one country's zone.
pub open spec fn tz_line(r: (String, String)) -> Seq<char> {
    "    (\""@ + r.0@ + "\", \""@ + r.1@ + "\"),\n"@
}

/// The table lines of a list of country zones.
pub open spec fn tz_lines(rows: Seq<(String, String)>) -> Seq<char>
    decreases rows.len(),
{
    if rows.len() == 0 {
        Seq::empty()
    } else {
        tz_lines(rows.drop_last()) + tz_line(rows.last())
    }
}

/// The generated table source.
pub open spec fn emit_spec(
    cldr: Seq<char>,
    rows: Seq<CountryRow>,
    tzdata: Seq<char>,
    tz_rows: Seq<(String, String)>,
) -> Seq<char> {
    "// CLDR "@ + cldr + ", tzdata "@ + tzdata
        + ". Generated by `cargo run -p locale-gen`. DO NOT EDIT.\n"@
        + "pub(crate) static CLDR_VERSION: &str = \""@ + cldr + "\";\n\n"@
        + "/// Sorted by country code (binary-searchable). Ranked language subtags, dominant first.\n"@
        + "pub(crate) static COUNTRIES: &[(&str, &[&str])] = &[\n"@ + country_lines(rows)
        + "];\n\n"@ + "pub(crate) static TZDATA_VERSION: &str = \""@ + tzdata + "\";\n\n"@
        + "/// Sorted by country code (binary-searchable). Representative IANA zone per country.\n"@
        + "pub(crate) static TIMEZONES: &[(&str, &str)] = &[\n"@ + tz_lines(tz_rows) + "];\n"@
}

fn push_quoted_list(v: &mut Vec<char>, ls: &Vec<String>)
    ensures
        final(v)@ == old(v)@ + quoted_list(strs_view(ls@)),
{
    let ghost start = v@;
    let mut i: usize = 0;
    proof {
        assert(strs_view(ls@).subrange(0, 0) =~= Seq::<Seq<char>>::empty());
        assert(v@ =~= start + quoted_list(strs_view(ls@).subrange(0, 0)));
    }
    while i < ls.len()
        invariant
            i <= ls@.len(),
            v@ == start + quoted_list(strs_view(ls@).subrange(0, i as int)),
        decreases ls@.len() - i,
    {
        let ghost prev = v@;
        if i > 0 {
            extend_str(v, ", ");
        }
        extend_str(v, "\"");
        extend_str(v, ls[i].as_str());
        extend_str(v, "\"");
        proof {
            let t = strs_view(ls@).subrange(0, i + 1);
            assert(t.drop_last() =~= strs_view(ls@).subrange(0, i as int));
            assert(t.last() == ls@[i as int]@);
            if i == 0 {
                assert(t.len() == 1);
                assert(v@ =~= start + quoted(ls@[0]@));
            } else {
                assert(v@ =~= prev + ", "@ + quoted(ls@[i as int]@));
            }
        }
        i = i + 1;
    }
    proof {
        assert(strs_view(ls@).subrange(0, ls@.len() as int) =~= strs_view(ls@));
    }
}

/// The Rust source of the stealth crate's locale table: the CLDR-derived
/// country-to-language table and the IANA-derived country-to-zone table,
/// each stamped with the data version it came from.
pub fn emit_rust(
    cldr_version: &str,
    rows: &[CountryRow],
    tzdata_version: &str,
    tz_rows: &[(String, String)],
) -> (r: String)
    ensures
        r@ == emit_spec(cldr_version@, rows@, tzdata_version@, tz_rows@),
{
    let mut v: Vec<char> = Vec::new();
    extend_str(&mut v, "// CLDR ");
    extend_str(&mut v, cldr_version);
    extend_str(&mut v, ", tzdata ");
    extend_str(&mut v, tzdata_version);
    extend_str(&mut v, ". Generated by `cargo run -p locale-gen`. DO NOT EDIT.\n");
    extend_str(&mut v, "pub(crate) static CLDR_VERSION: &str = \"");
    extend_str(&mut v, cldr_version);
    extend_str(&mut v, "\";\n\n");
    extend_str(
        &mut v,
        "/// Sorted by country code (binary-searchable). Ranked language subtags, dominant first.\n",
    );
    extend_str(&mut v, "pub(crate) static COUNTRIES: &[(&str, &[&str])] = &[\n");
    let ghost pre = v@;
    let mut i: usize = 0;
    proof {
        assert(rows@.subrange(0, 0) =~= Seq::<CountryRow>::empty());
        assert(v@ =~= pre + country_lines(rows@.subrange(0, 0)));
    }
    while i < rows.len()
        invariant
            i <= rows@.len(),
            v@ == pre + country_lines(rows@.subrange(0, i as int)),
        decreases rows@.len() - i,
    {
        let ghost prev = v@;
        let r = &rows[i];
        extend_str(&mut v, "    (\"");
        extend_str(&mut v, r.cc.as_str());
        extend_str(&mut v, "\", &[");
        push_quoted_list(&mut v, &r.langs);
        extend_str(&mut v, "]),\n");
        proof {
            let t = rows@.subrange(0, i + 1);
            assert(t.drop_last() =~= rows@.subrange(0, i as int));
            assert(t.last() == rows@[i as int]);
            assert(v@ =~= prev + country_line(rows@[i as int]));
        }
        i = i + 1;
    }
    proof {
        assert(rows@.subrange(0, rows@.len() as int) =~= rows@);
    }
    extend_str(&mut v, "];\n\n");
    extend_str(&mut v, "pub(crate) static TZDATA_VERSION: &str = \"");
    extend_str(&mut v, tzdata_version);
    extend_str(&mut v, "\";\n\n");
    extend_str(
        &mut v,
        "/// Sorted by country code (binary-searchable). Representative IANA zone per country.\n",
    );
    extend_str(&mut v, "pub(crate) static TIMEZONES: &[(&str, &str)] = &[\n");
    let ghost pre2 = v@;
    let mut k: usize = 0;
    proof {
        assert(tz_rows@.subrange(0, 0) =~= Seq::<(String, String)>::empty());
        assert(v@ =~= pre2 + tz_lines(tz_rows@.subrange(0, 0)));
    }
    while k < tz_rows.len()
        invariant
            k <= tz_rows@.len(),
            v@ == pre2 + tz_lines(tz_rows@.subrange(0, k as int)),
        decreases tz_rows@.len() - k,
    {
        let ghost prev = v@;
        extend_str(&mut v, "    (\"");
        extend_str(&mut v, tz_rows[k].0.as_str());
        extend_str(&mut v, "\", \"");
        extend_str(&mut v, tz_rows[k].1.as_str());
        extend_str(&mut v, "\"),\n");
        proof {
            let t = tz_rows@.subrange(0, k + 1);
            assert(t.drop_last() =~= tz_rows@.subrange(0, k as int));
            assert(t.last() == tz_rows@[k as int]);
            assert(v@ =~= prev + tz_line(tz_rows@[k as int]));
        }
        k = k + 1;
    }
    proof {
        assert(tz_rows@.subrange(0, tz_rows@.len() as int) =~= tz_rows@);
    }
    extend_str(&mut v, "];\n");
    proof {
        assert(v@ =~= emit_spec(cldr_version@, rows@, tzdata_version@, tz_rows@));
    }
    string_of(v.as_slice())
}

/// The curated primary zones win over whatever `zone1970.tab` lists first
/// for their countries.
pub proof fn curated_zones_win(raw: Seq<char>)
    ensures
        tz_table(raw).dom().contains("RU"@) && tz_table(raw)["RU"@] == "Europe/Moscow"@,
        tz_table(raw).dom().contains("UA"@) && tz_table(raw)["UA"@] == "Europe/Kyiv"@,
        tz_table(raw).dom().contains("CA"@) && tz_table(raw)["CA"@] == "America/Toronto"@,
        tz_table(raw).dom().contains("AU"@) && tz_table(raw)["AU"@] == "Australia/Sydney"@,
        tz_table(raw).dom().contains("BR"@) && tz_table(raw)["BR"@] == "America/Sao_Paulo"@,
{
    reveal_strlit("RU");
    reveal_strlit("UA");
    reveal_strlit("CA");
    reveal_strlit("AU");
    reveal_strlit("BR");
    let ccs = seq!["RU"@, "UA"@, "CA"@, "AU"@, "BR"@];
    assert forall|i: int, j: int| 0 <= i < j < 5 implies ccs[i] != ccs[j] by {
        assert(ccs[i][0] != ccs[j][0] || ccs[i][1] != ccs[j][1]);
    }
    assert("RU"@ != "UA"@ && "RU"@ != "CA"@ && "RU"@ != "AU"@ && "RU"@ != "BR"@) by {
        assert(ccs[0] != ccs[1] && ccs[0] != ccs[2] && ccs[0] != ccs[3] && ccs[0] != ccs[4]);
    }
    assert("UA"@ != "CA"@ && "UA"@ != "AU"@ && "UA"@ != "BR"@) by {
        assert(ccs[1] != ccs[2] && ccs[1] != ccs[3] && ccs[1] != ccs[4]);
    }
    assert("CA"@ != "AU"@ && "CA"@ != "BR"@) by {
        assert(ccs[2] != ccs[3] && ccs[2] != ccs[4]);
    }
    assert("AU"@ != "BR"@) by {
        assert(ccs[3] != ccs[4]);
    }
}

/// A country outside the curated list keeps the zone of its first row.
pub proof fn first_row_wins_elsewhere(raw: Seq<char>, cc: Seq<char>)
    requires
        cc != "RU"@ && cc != "UA"@ && cc != "CA"@ && cc != "AU"@ && cc != "BR"@,
    ensures
        tz_table(raw).dom().contains(cc) == first_wins(zone_entries(lines_seq(raw))).dom().contains(
            cc,
        ),
        tz_table(raw).dom().contains(cc) ==> tz_table(raw)[cc] == first_wins(
            zone_entries(lines_seq(raw)),
        )[cc],
{
}

} // verus!
