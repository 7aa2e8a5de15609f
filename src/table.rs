//! The schema-table declaration language:
//! `name (key, ...) { column -> Type, column -> Nullable<Type>, ... }`.
use vstd::prelude::*;

use crate::decl::MacroDecl;
use crate::records::{ColumnView, DieselColumn, DieselTable, TableView};
use crate::text::{
    find_white_in, pieces, split_ranges, views,
    chars_of, contains, same_text, find, find_char_in, find_in, find_white, rfind, rfind_char_in, split, substring,
    trim, trim_range,
};

verus! {

/// The separator between a column's name and its type.
pub open spec fn arrow() -> Seq<char> {
    seq!['-', '>']
}

/// The marker that makes a column type a nullable-wrapper candidate.
pub open spec fn nullable_word() -> Seq<char> {
    "Nullable"@
}

/// The type recorded for the trimmed type text `ty`, and whether it is
/// nullable: a type that mentions the marker and has a `<` before its last
/// `>` gives the trimmed text between them; any other type is kept as it is.
pub open spec fn sql_type_of(ty: Seq<char>) -> (Seq<char>, bool) {
    if contains(ty, nullable_word()) {
        match (find(ty, seq!['<']), rfind(ty, '>')) {
            (Some(st), Some(e)) => if st < e {
                (trim(ty.subrange(st + 1, e)), true)
            } else {
                (ty, false)
            },
            _ => (ty, false),
        }
    } else {
        (ty, false)
    }
}

/// The column that `d` declares: it must hold the separator exactly once;
/// the name is what stands before it and the type what follows, trimmed.
pub open spec fn column_def(d: Seq<char>) -> Option<ColumnView> {
    match find(d, arrow()) {
        None => None,
        Some(i) => {
            let rest = d.subrange(i + 2, d.len() as int);
            if contains(rest, arrow()) {
                None
            } else {
                let ty = sql_type_of(trim(rest));
                Some(ColumnView { name: trim(d.subrange(0, i)), sql_type: ty.0, is_nullable: ty.1 })
            }
        },
    }
}

/// A primary-key piece, trimmed, unless it is blank.
pub open spec fn key_name(p: Seq<char>) -> Option<Seq<char>> {
    if trim(p).len() > 0 {
        Some(trim(p))
    } else {
        None
    }
}

/// The column that a piece of the column body declares, if any: blank
/// pieces and a lone `}` are passed over, as are malformed ones.
pub open spec fn column_entry(p: Seq<char>) -> Option<ColumnView> {
    let d = trim(p);
    if d.len() == 0 || d == seq!['}'] {
        None
    } else {
        column_def(d)
    }
}

/// The primary-key names in the pieces of the key list.
pub open spec fn key_names(ps: Seq<Seq<char>>) -> Seq<Seq<char>> {
    ps.filter_map(|p: Seq<char>| key_name(p))
}

/// The columns declared in the pieces of the column body.
pub open spec fn column_entries(ps: Seq<Seq<char>>) -> Seq<ColumnView> {
    ps.filter_map(|p: Seq<char>| column_entry(p))
}

/// The table that the token text `t` declares, if it has the expected shape.
pub open spec fn table_of(t: Seq<char>) -> Option<TableView> {
    let c = trim(t);
    match (find_white(c), find(c, seq!['(']), find(c, seq![')'])) {
        (Some(ne), Some(ps), Some(pe)) => if pe <= ps {
            None
        } else {
            match find(c.subrange(pe, c.len() as int), seq!['{']) {
                None => None,
                Some(bs) => match find(c.subrange(pe + bs, c.len() as int), seq!['}']) {
                    None => None,
                    Some(be) => Some(
                        TableView {
                            name: c.subrange(0, ne),
                            primary_key: key_names(split(c.subrange(ps + 1, pe), ',')),
                            columns: column_entries(
                                split(c.subrange(pe + bs + 1, pe + bs + be), ','),
                            ),
                        },
                    ),
                },
            }
        },
        _ => None,
    }
}

/// The type recorded for the type text `v[a..b]` of `s`, and whether it is nullable.
fn sql_type_in(s: &str, v: &Vec<char>, a: usize, b: usize) -> (r: (String, bool))
    requires
        v@ == s@,
        a <= b <= v.len(),
    ensures
        r.0@ == sql_type_of(v@.subrange(a as int, b as int)).0,
        r.1 == sql_type_of(v@.subrange(a as int, b as int)).1,
{
    let ghost ty = v@.subrange(a as int, b as int);
    let word = chars_of("Nullable");
    if find_in(v, a, b, &word).is_some() {
        let st = find_char_in(v, a, b, '<');
        let e = rfind_char_in(v, a, b, '>');
        if let (Some(st), Some(e)) = (st, e) {
            if st < e {
                let (x, y) = trim_range(v, st + 1, e);
                assert(ty.subrange(st - a + 1, e - a) =~= v@.subrange(st + 1, e as int));
                return (substring(s, x, y), true);
            }
        }
    }
    (substring(s, a, b), false)
}

/// Parses one column declaration `name -> Type` into its name, its type,
/// and whether the type is nullable.
pub fn parse_column_def(def: &str) -> (r: Option<(String, String, bool)>)
    ensures
        match column_def(def@) {
            None => r is None,
            Some(c) => r matches Some(t) && t.0@ == c.name && t.1@ == c.sql_type && t.2
                == c.is_nullable,
        },
{
    let v = chars_of(def);
    let n = v.len();
    assert(v@.subrange(0, n as int) =~= v@);
    let sep = vec!['-', '>'];
    assert(sep@ =~= arrow());
    match find_in(&v, 0, n, &sep) {
        None => None,
        Some(i) => {
            let ghost rest = v@.subrange(i + 2, n as int);
            if find_in(&v, i + 2, n, &sep).is_some() {
                return None;
            }
            let (a, b) = trim_range(&v, 0, i);
            let (ta, tb) = trim_range(&v, i + 2, n);
            let (sql_type, is_nullable) = sql_type_in(def, &v, ta, tb);
            Some((substring(def, a, b), sql_type, is_nullable))
        },
    }
}

/// The primary-key names in the pieces `ranges` of `s`.
fn collect_keys(s: &str, v: &Vec<char>, ranges: &Vec<(usize, usize)>) -> (r: Vec<String>)
    requires
        v@ == s@,
        forall|i: int| 0 <= i < ranges.len() ==> #[trigger] ranges@[i].0 <= ranges@[i].1 <= v.len(),
    ensures
        views(r@) == key_names(pieces(v@, ranges@)),
{
    let ghost all = pieces(v@, ranges@);
    let mut out: Vec<String> = Vec::new();
    let mut i: usize = 0;
    assert(all.subrange(0, 0) =~= Seq::<Seq<char>>::empty());
    assert(views(out@) =~= Seq::<Seq<char>>::empty());
    while i < ranges.len()
        invariant
            v@ == s@,
            all == pieces(v@, ranges@),
            forall|m: int| 0 <= m < ranges.len() ==> #[trigger] ranges@[m].0 <= ranges@[m].1 <= v.len(),
            i <= ranges.len(),
            views(out@) == key_names(all.subrange(0, i as int)),
        decreases ranges.len() - i,
    {
        let (lo, hi) = ranges[i];
        let (a, b) = trim_range(v, lo, hi);
        assert(all.subrange(0, i + 1).drop_last() =~= all.subrange(0, i as int));
        assert(all.subrange(0, i + 1).last() == v@.subrange(lo as int, hi as int));
        if a < b {
            let ghost before = out@;
            out.push(substring(s, a, b));
            assert(views(out@) =~= views(before).push(v@.subrange(a as int, b as int)));
        }
        i += 1;
    }
    assert(all.subrange(0, ranges.len() as int) =~= all);
    out
}

/// The columns declared in the pieces `ranges` of `s`.
fn collect_columns(s: &str, v: &Vec<char>, ranges: &Vec<(usize, usize)>) -> (r: Vec<DieselColumn>)
    requires
        v@ == s@,
        forall|i: int| 0 <= i < ranges.len() ==> #[trigger] ranges@[i].0 <= ranges@[i].1 <= v.len(),
    ensures
        r@.map_values(|c: DieselColumn| c@) == column_entries(pieces(v@, ranges@)),
{
    let ghost all = pieces(v@, ranges@);
    let mut out: Vec<DieselColumn> = Vec::new();
    let mut i: usize = 0;
    assert(all.subrange(0, 0) =~= Seq::<Seq<char>>::empty());
    assert(out@.map_values(|c: DieselColumn| c@) =~= Seq::<ColumnView>::empty());
    while i < ranges.len()
        invariant
            v@ == s@,
            all == pieces(v@, ranges@),
            forall|m: int| 0 <= m < ranges.len() ==> #[trigger] ranges@[m].0 <= ranges@[m].1 <= v.len(),
            i <= ranges.len(),
            out@.map_values(|c: DieselColumn| c@) == column_entries(all.subrange(0, i as int)),
        decreases ranges.len() - i,
    {
        let (lo, hi) = ranges[i];
        let (a, b) = trim_range(v, lo, hi);
        let ghost d = v@.subrange(a as int, b as int);
        assert(all.subrange(0, i + 1).drop_last() =~= all.subrange(0, i as int));
        assert(all.subrange(0, i + 1).last() == v@.subrange(lo as int, hi as int));
        if a == b {
            assert(d.len() == 0);
        } else if b - a == 1 && v[a] == '}' {
            assert(d =~= seq!['}']);
        } else {
            assert(d != seq!['}']) by {
                if b - a == 1 {
                    assert(d[0] == v@[a as int]);
                }
            }
            let def = substring(s, a, b);
            if let Some((name, sql_type, is_nullable)) = parse_column_def(def.as_str()) {
                let ghost before = out@;
                out.push(DieselColumn { name, sql_type, is_nullable });
                assert(out@.map_values(|c: DieselColumn| c@) =~= before.map_values(
                    |c: DieselColumn| c@,
                ).push(column_def(d).unwrap()));
            }
        }
        i += 1;
    }
    assert(all.subrange(0, ranges.len() as int) =~= all);
    out
}

/// Parses the token text of one schema-table declaration. Text that does not
/// have the expected shape gives `None`.
pub fn parse_diesel_table_tokens(tokens: &str) -> (r: Option<DieselTable>)
    ensures
        match table_of(tokens@) {
            None => r is None,
            Some(t) => r matches Some(x) && x@ == t,
        },
{
    let v = chars_of(tokens);
    let n = v.len();
    assert(v@.subrange(0, n as int) =~= v@);
    let (lo, hi) = trim_range(&v, 0, n);
    let ghost c = v@.subrange(lo as int, hi as int);
    let ne = match find_white_in(&v, lo, hi) {
        Some(x) => x,
        None => return None,
    };
    let ps = match find_char_in(&v, lo, hi, '(') {
        Some(x) => x,
        None => return None,
    };
    let pe = match find_char_in(&v, lo, hi, ')') {
        Some(x) => x,
        None => return None,
    };
    if pe <= ps {
        return None;
    }
    assert(c.subrange(pe - lo, c.len() as int) =~= v@.subrange(pe as int, hi as int));
    let bs = match find_char_in(&v, pe, hi, '{') {
        Some(x) => x,
        None => return None,
    };
    assert(c.subrange(bs - lo, c.len() as int) =~= v@.subrange(bs as int, hi as int));
    let be = match find_char_in(&v, bs, hi, '}') {
        Some(x) => x,
        None => return None,
    };
    assert(c.subrange(0, ne - lo) =~= v@.subrange(lo as int, ne as int));
    assert(c.subrange(ps - lo + 1, pe - lo) =~= v@.subrange(ps + 1, pe as int));
    assert(c.subrange(bs - lo + 1, be - lo) =~= v@.subrange(bs + 1, be as int));
    let name = substring(tokens, lo, ne);
    let key_ranges = split_ranges(&v, ps + 1, pe, ',');
    let primary_key = collect_keys(tokens, &v, &key_ranges);
    let column_ranges = split_ranges(&v, bs + 1, be, ',');
    let columns = collect_columns(tokens, &v, &column_ranges);
    Some(DieselTable { name, primary_key, columns })
}

/// The table that the macro invocation `m` declares: only an invocation whose
/// path starts with `table` declares one.
pub open spec fn table_of_macro(m: MacroDecl) -> Option<TableView> {
    if m.path.len() > 0 && m.path[0]@ == "table"@ {
        table_of(m.tokens@)
    } else {
        None
    }
}

/// The table that a macro invocation declares, if it is a schema-table
/// declaration of the expected shape.
pub fn extract_diesel_table(item: &MacroDecl) -> (r: Option<DieselTable>)
    ensures
        match table_of_macro(*item) {
            None => r is None,
            Some(t) => r matches Some(x) && x@ == t,
        },
{
    if item.path.len() > 0 && same_text(item.path[0].as_str(), "table") {
        parse_diesel_table_tokens(item.tokens.as_str())
    } else {
        None
    }
}

} // verus!
