//! The attribute scan: which mapping markers a type's derive attributes name,
//! and which table names its table-binding attributes give. The scan looks
//! for text, not for structure: a marker name that appears anywhere in a
//! derive attribute counts.
use vstd::prelude::*;

use crate::decl::StructDecl;
use crate::records::{DeriveView, DieselDerive};
use crate::text::{chars_of, contains, find, find_in, substring, views};

verus! {

/// `[m]` when `m` occurs in `a`, else nothing.
pub open spec fn listed_if(a: Seq<char>, m: Seq<char>) -> Seq<Seq<char>> {
    if contains(a, m) {
        seq![m]
    } else {
        Seq::empty()
    }
}

/// `a` is the text of a derive attribute, rendered with or without a space
/// after `#`.
pub open spec fn is_derive_attr(a: Seq<char>) -> bool {
    contains(a, "# [derive"@) || contains(a, "#[derive"@)
}

/// `a` is the text of a table-binding attribute.
pub open spec fn is_table_name_attr(a: Seq<char>) -> bool {
    contains(a, "# [table_name"@) || contains(a, "#[table_name"@)
}

/// The recognised markers that the attribute text `a` names, in checklist order.
pub open spec fn markers_in(a: Seq<char>) -> Seq<Seq<char>> {
    if is_derive_attr(a) {
        listed_if(a, "Queryable"@) + listed_if(a, "Insertable"@) + listed_if(a, "AsChangeset"@)
            + listed_if(a, "Associations"@) + listed_if(a, "Identifiable"@)
    } else {
        Seq::empty()
    }
}

/// The table name that the attribute text `a` binds: what stands between the
/// first `= "` and the next `"`.
pub open spec fn bound_names_in(a: Seq<char>) -> Seq<Seq<char>> {
    if is_table_name_attr(a) {
        match find(a, "= \""@) {
            Some(st) => match find(a.subrange(st + 3, a.len() as int), "\""@) {
                Some(e) => seq![a.subrange(st + 3, st + 3 + e)],
                None => Seq::empty(),
            },
            None => Seq::empty(),
        }
    } else {
        Seq::empty()
    }
}

/// The markers named by a sequence of attribute texts, in order.
pub open spec fn derives_of(attrs: Seq<Seq<char>>) -> Seq<Seq<char>>
    decreases attrs.len(),
{
    if attrs.len() == 0 {
        Seq::empty()
    } else {
        derives_of(attrs.drop_last()) + markers_in(attrs.last())
    }
}

/// The table names bound by a sequence of attribute texts, in order.
pub open spec fn associations_of(attrs: Seq<Seq<char>>) -> Seq<Seq<char>>
    decreases attrs.len(),
{
    if attrs.len() == 0 {
        Seq::empty()
    } else {
        associations_of(attrs.drop_last()) + bound_names_in(attrs.last())
    }
}

/// What the attribute scan finds on `d`; nothing when it finds neither a
/// marker nor a table name.
pub open spec fn derive_of(d: StructDecl) -> Option<DeriveView> {
    let ds = derives_of(views(d.attrs@));
    let ts = associations_of(views(d.attrs@));
    if ds.len() == 0 && ts.len() == 0 {
        None
    } else {
        Some(DeriveView { struct_name: d.ident@, derives: ds, associations: ts })
    }
}

/// Whether `pat` occurs in `v`.
fn text_contains(v: &Vec<char>, pat: &str) -> (r: bool)
    ensures
        r == contains(v@, pat@),
{
    let p = chars_of(pat);
    assert(v@.subrange(0, v.len() as int) =~= v@);
    find_in(v, 0, v.len(), &p).is_some()
}

/// Appends `name` to `out` when it occurs in `v`.
fn push_if_found(out: &mut Vec<String>, v: &Vec<char>, name: &str)
    ensures
        views(final(out)@) == views(old(out)@) + listed_if(v@, name@),
{
    if text_contains(v, name) {
        let ghost before = out@;
        out.push(name.to_owned());
        assert(views(out@) =~= views(before) + seq![name@]);
    } else {
        assert(views(out@) =~= views(out@) + Seq::<Seq<char>>::empty());
    }
}

/// The table name bound by the table-binding attribute text `s`, if any.
fn bound_name(s: &str, v: &Vec<char>) -> (r: Option<String>)
    requires
        v@ == s@,
        is_table_name_attr(v@),
    ensures
        match r {
            Some(t) => bound_names_in(v@) == seq![t@],
            None => bound_names_in(v@) == Seq::<Seq<char>>::empty(),
        },
{
    let n = v.len();
    assert(v@.subrange(0, n as int) =~= v@);
    let eq_quote = chars_of("= \"");
    let quote = chars_of("\"");
    match find_in(v, 0, n, &eq_quote) {
        None => None,
        Some(st) => {
            assert(eq_quote@.len() == 3) by {
                reveal_strlit("= \"");
            }
            match find_in(v, st + 3, n, &quote) {
                None => None,
                Some(e) => Some(substring(s, st + 3, e)),
            }
        },
    }
}

/// Scans the attributes of `item` for mapping markers and bound table names.
pub fn extract_diesel_derives(item: &StructDecl) -> (r: Option<DieselDerive>)
    ensures
        match derive_of(*item) {
            None => r is None,
            Some(d) => r matches Some(x) && x@ == d,
        },
{
    let ghost attrs = views(item.attrs@);
    let mut derives: Vec<String> = Vec::new();
    let mut associations: Vec<String> = Vec::new();
    let mut i: usize = 0;
    assert(attrs.subrange(0, 0) =~= Seq::<Seq<char>>::empty());
    assert(views(derives@) =~= Seq::<Seq<char>>::empty());
    assert(views(associations@) =~= Seq::<Seq<char>>::empty());
    while i < item.attrs.len()
        invariant
            attrs == views(item.attrs@),
            i <= item.attrs.len(),
            views(derives@) == derives_of(attrs.subrange(0, i as int)),
            views(associations@) == associations_of(attrs.subrange(0, i as int)),
        decreases item.attrs.len() - i,
    {
        let text = item.attrs[i].as_str();
        let v = chars_of(text);
        assert(attrs.subrange(0, i + 1).drop_last() =~= attrs.subrange(0, i as int));
        assert(attrs.subrange(0, i + 1).last() == v@);
        let ghost ds0 = views(derives@);
        if text_contains(&v, "# [derive") || text_contains(&v, "#[derive") {
            push_if_found(&mut derives, &v, "Queryable");
            push_if_found(&mut derives, &v, "Insertable");
            push_if_found(&mut derives, &v, "AsChangeset");
            push_if_found(&mut derives, &v, "Associations");
            push_if_found(&mut derives, &v, "Identifiable");
            assert(views(derives@) =~= ds0 + markers_in(v@));
        } else {
            assert(views(derives@) =~= ds0 + markers_in(v@));
        }
        let ghost ts0 = views(associations@);
        if text_contains(&v, "# [table_name") || text_contains(&v, "#[table_name") {
            if let Some(t) = bound_name(text, &v) {
                associations.push(t);
                assert(views(associations@) =~= ts0 + bound_names_in(v@));
            } else {
                assert(views(associations@) =~= ts0 + bound_names_in(v@));
            }
        } else {
            assert(views(associations@) =~= ts0 + bound_names_in(v@));
        }
        i += 1;
    }
    assert(attrs.subrange(0, i as int) =~= attrs);
    if derives.len() == 0 && associations.len() == 0 {
        None
    } else {
        Some(DieselDerive { struct_name: item.ident.clone(), derives, associations })
    }
}

} // verus!
