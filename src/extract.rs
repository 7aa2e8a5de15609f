//! One run over the top-level declarations: the type records, table records
//! and derive records, in the order they were found, or the first error.
use vstd::prelude::*;

use crate::decl::{Decl, Fields, StructDecl};
use crate::derives::{derive_of, extract_diesel_derives};
use crate::records::{
    DeriveView, DieselDerive, DieselTable, RustStruct, StructView, TableView,
};
use crate::structs::{all_named, extract_struct_info, struct_of};
use crate::table::{extract_diesel_table, table_of_macro};

verus! {

/// What one run produces.
pub struct Extraction {
    pub structs: Vec<RustStruct>,
    pub diesel_tables: Vec<DieselTable>,
    pub diesel_derives: Vec<DieselDerive>,
}

/// The view of an `Extraction`.
#[verifier::ext_equal]
pub struct ExtractionView {
    pub structs: Seq<StructView>,
    pub diesel_tables: Seq<TableView>,
    pub diesel_derives: Seq<DeriveView>,
}

impl View for Extraction {
    type V = ExtractionView;

    open spec fn view(&self) -> ExtractionView {
        ExtractionView {
            structs: self.structs@.map_values(|s: RustStruct| s@),
            diesel_tables: self.diesel_tables@.map_values(|t: DieselTable| t@),
            diesel_derives: self.diesel_derives@.map_values(|d: DieselDerive| d@),
        }
    }
}

/// `o`'s value appended to `s`, if there is one.
pub open spec fn push_some<A>(s: Seq<A>, o: Option<A>) -> Seq<A> {
    match o {
        Some(x) => s.push(x),
        None => s,
    }
}

/// What a run over `acc`'s declarations followed by `d` gives.
pub open spec fn step(acc: ExtractionView, d: Decl) -> Result<ExtractionView, Seq<char>> {
    match d {
        Decl::Struct(s) => match struct_of(s) {
            Ok(v) => Ok(
                ExtractionView {
                    structs: acc.structs.push(v),
                    diesel_derives: push_some(acc.diesel_derives, derive_of(s)),
                    ..acc
                },
            ),
            Err(e) => Err(e),
        },
        Decl::Macro(m) => Ok(
            ExtractionView { diesel_tables: push_some(acc.diesel_tables, table_of_macro(m)), ..acc },
        ),
        Decl::Other => Ok(acc),
    }
}

/// What a run over `items` gives: the records of every declaration in order,
/// or the error of the first record-like declaration that has no type record.
pub open spec fn run_of(items: Seq<Decl>) -> Result<ExtractionView, Seq<char>>
    decreases items.len(),
{
    if items.len() == 0 {
        Ok(ExtractionView {
            structs: Seq::empty(),
            diesel_tables: Seq::empty(),
            diesel_derives: Seq::empty(),
        })
    } else {
        match run_of(items.drop_last()) {
            Ok(acc) => step(acc, items.last()),
            Err(e) => Err(e),
        }
    }
}

/// A run that fails on a prefix of `items` fails on `items` with the same error.
pub proof fn lemma_run_err_extends(items: Seq<Decl>, j: int)
    requires
        0 <= j <= items.len(),
        run_of(items.subrange(0, j)) is Err,
    ensures
        run_of(items) == run_of(items.subrange(0, j)),
    decreases items.len() - j,
{
    if j == items.len() {
        assert(items.subrange(0, j) =~= items);
    } else {
        assert(items.subrange(0, j + 1).drop_last() =~= items.subrange(0, j));
        lemma_run_err_extends(items, j + 1);
    }
}

/// A record-like declaration whose fields all have names, or that has no
/// fields, always gets a type record.
pub proof fn lemma_named_fields_extract(d: StructDecl)
    requires
        d.fields matches Fields::Named(fs) ==> all_named(fs@),
        !(d.fields is Unnamed),
    ensures
        struct_of(d) is Ok,
{
}

/// A run in which every record-like declaration has only named fields (or
/// none) never fails.
pub proof fn lemma_named_fields_run_ok(items: Seq<Decl>)
    requires
        forall|i: int|
            0 <= i < items.len() ==> (#[trigger] items[i] matches Decl::Struct(d) ==> !(
            d.fields is Unnamed) && (d.fields matches Fields::Named(fs) ==> all_named(fs@))),
    ensures
        run_of(items) is Ok,
    decreases items.len(),
{
    if items.len() > 0 {
        let rest = items.drop_last();
        assert forall|i: int| 0 <= i < rest.len() implies (#[trigger] rest[i] matches Decl::Struct(
            d,
        ) ==> !(d.fields is Unnamed) && (d.fields matches Fields::Named(fs) ==> all_named(
            fs@,
        ))) by {
            assert(rest[i] == items[i]);
        }
        lemma_named_fields_run_ok(rest);
        assert(items[items.len() - 1] == items.last());
    }
}

/// A record-like declaration with positional fields anywhere in `items` makes
/// the whole run fail: no record of any kind comes out of it.
pub proof fn lemma_positional_fields_abort_run(items: Seq<Decl>, i: int)
    requires
        0 <= i < items.len(),
        items[i] matches Decl::Struct(d) && d.fields is Unnamed,
    ensures
        run_of(items) is Err,
{
    assert(items.subrange(0, i + 1).drop_last() =~= items.subrange(0, i));
    assert(items.subrange(0, i + 1).last() == items[i]);
    lemma_run_err_extends(items, i + 1);
}

/// Extracts the type records, table records and derive records of
/// `items`, in order. The first record-like declaration that has no type
/// record ends the run with its error, and nothing else is returned.
pub fn extract_items(items: &Vec<Decl>) -> (r: Result<Extraction, String>)
    ensures
        match run_of(items@) {
            Ok(v) => r matches Ok(x) && x@ == v,
            Err(e) => r matches Err(m) && m@ == e,
        },
{
    let mut out = Extraction {
        structs: Vec::new(),
        diesel_tables: Vec::new(),
        diesel_derives: Vec::new(),
    };
    assert(out@ =~= run_of(items@.subrange(0, 0))->Ok_0) by {
        assert(items@.subrange(0, 0) =~= Seq::<Decl>::empty());
        assert(out@.structs =~= Seq::<StructView>::empty());
        assert(out@.diesel_tables =~= Seq::<TableView>::empty());
        assert(out@.diesel_derives =~= Seq::<DeriveView>::empty());
    }
    let mut i: usize = 0;
    while i < items.len()
        invariant
            i <= items.len(),
            run_of(items@.subrange(0, i as int)) == Ok::<ExtractionView, Seq<char>>(out@),
        decreases items.len() - i,
    {
        let ghost before = out@;
        assert(items@.subrange(0, i + 1).drop_last() =~= items@.subrange(0, i as int));
        assert(items@.subrange(0, i + 1).last() == items@[i as int]);
        match &items[i] {
            Decl::Struct(item) => {
                match extract_struct_info(item) {
                    Ok(s) => {
                        let ghost sv = s@;
                        out.structs.push(s);
                        assert(out@.structs =~= before.structs.push(sv));
                        if let Some(d) = extract_diesel_derives(item) {
                            let ghost dv = d@;
                            out.diesel_derives.push(d);
                            assert(out@.diesel_derives =~= before.diesel_derives.push(dv));
                        }
                    },
                    Err(e) => {
                        proof {
                            lemma_run_err_extends(items@, i + 1);
                        }
                        return Err(e);
                    },
                }
            },
            Decl::Macro(item) => {
                if let Some(t) = extract_diesel_table(item) {
                    let ghost tv = t@;
                    out.diesel_tables.push(t);
                    assert(out@.diesel_tables =~= before.diesel_tables.push(tv));
                }
            },
            Decl::Other => {},
        }
        assert(out@ =~= step(before, items@[i as int])->Ok_0);
        i += 1;
    }
    assert(items@.subrange(0, items.len() as int) =~= items@);
    Ok(out)
}

} // verus!
