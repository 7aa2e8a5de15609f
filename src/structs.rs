//! The type-definition extractor: one record-like declaration to a type record.
use vstd::prelude::*;

use crate::classify::{classify, extract_type_info};
use crate::decl::{FieldDecl, Fields, StructDecl};
use crate::records::{FieldView, RustField, RustStruct, StructView};
use crate::text::views;

verus! {

/// Every field in `fs` has a name.
pub open spec fn all_named(fs: Seq<FieldDecl>) -> bool {
    forall|i: int| 0 <= i < fs.len() ==> (#[trigger] fs[i]).ident is Some
}

/// The record of a field that has a name.
pub open spec fn field_view(f: FieldDecl) -> FieldView {
    FieldView {
        name: f.ident->0@,
        field_type: classify(f.ty).0,
        is_optional: classify(f.ty).1,
        attributes: views(f.attrs@),
    }
}

/// The error for a field without a name.
pub open spec fn unnamed_field_error() -> Seq<char> {
    "Unnamed field"@
}

/// The error for a declaration whose named fields include one without a name.
pub open spec fn field_error() -> Seq<char> {
    "Field error: "@ + unnamed_field_error()
}

/// The error for a declaration with positional fields.
pub open spec fn tuple_error() -> Seq<char> {
    "Tuple structs not supported"@
}

/// The type record of `d`, or the reason it has none.
pub open spec fn struct_of(d: StructDecl) -> Result<StructView, Seq<char>> {
    let rec = |fields: Seq<FieldView>|
        StructView { name: d.ident@, fields: fields, attributes: views(d.attrs@) };
    match d.fields {
        Fields::Named(fs) => if all_named(fs@) {
            Ok(rec(fs@.map_values(|f: FieldDecl| field_view(f))))
        } else {
            Err(field_error())
        },
        Fields::Unnamed => Err(tuple_error()),
        Fields::Unit => Ok(rec(Seq::empty())),
    }
}

/// A copy of `v`.
fn copy_strings(v: &Vec<String>) -> (r: Vec<String>)
    ensures
        r@ == v@,
{
    let mut out: Vec<String> = Vec::new();
    let mut i: usize = 0;
    while i < v.len()
        invariant
            i <= v.len(),
            out@ == v@.subrange(0, i as int),
        decreases v.len() - i,
    {
        out.push(v[i].clone());
        i += 1;
        assert(out@ =~= v@.subrange(0, i as int));
    }
    assert(v@.subrange(0, v.len() as int) =~= v@);
    out
}

/// The record of one field: its name, its classified type and its attribute text.
pub fn extract_field_info(field: &FieldDecl) -> (r: Result<RustField, String>)
    ensures
        match field.ident {
            Some(_) => r matches Ok(x) && x@ == field_view(*field),
            None => r matches Err(e) && e@ == unnamed_field_error(),
        },
{
    let name = match &field.ident {
        Some(ident) => ident.clone(),
        None => return Err("Unnamed field".to_owned()),
    };
    let (field_type, is_optional) = match extract_type_info(&field.ty) {
        Ok(p) => p,
        Err(e) => return Err(e),
    };
    let attributes = copy_strings(&field.attrs);
    Ok(RustField { name, field_type, is_optional, attributes })
}

/// The record of one record-like declaration. Positional fields, or a named
/// field list with a field that has no name, give an error.
pub fn extract_struct_info(item: &StructDecl) -> (r: Result<RustStruct, String>)
    ensures
        match struct_of(*item) {
            Ok(v) => r matches Ok(x) && x@ == v,
            Err(e) => r matches Err(m) && m@ == e,
        },
{
    let name = item.ident.clone();
    let attributes = copy_strings(&item.attrs);
    let mut fields: Vec<RustField> = Vec::new();
    match &item.fields {
        Fields::Named(named) => {
            let mut i: usize = 0;
            while i < named.len()
                invariant
                    item.fields == Fields::Named(*named),
                    i <= named.len(),
                    forall|m: int| 0 <= m < i ==> (#[trigger] named@[m]).ident is Some,
                    fields@.map_values(|f: RustField| f@) == named@.subrange(0, i as int).map_values(
                        |f: FieldDecl| field_view(f),
                    ),
                decreases named.len() - i,
            {
                match extract_field_info(&named[i]) {
                    Ok(field) => {
                        let ghost before = fields@;
                        assert(field@ == field_view(named@[i as int]));
                        fields.push(field);
                        assert(named@.subrange(0, i + 1) =~= named@.subrange(0, i as int).push(
                            named@[i as int],
                        ));
                        assert(fields@.map_values(|f: RustField| f@) =~= before.map_values(
                            |f: RustField| f@,
                        ).push(field_view(named@[i as int])));
                        assert(fields@.map_values(|f: RustField| f@) =~= named@.subrange(
                            0,
                            i + 1,
                        ).map_values(|f: FieldDecl| field_view(f)));
                    },
                    Err(e) => {
                        assert(named@[i as int].ident is None);
                        assert(!all_named(named@));
                        let mut msg = "Field error: ".to_owned();
                        msg.append(e.as_str());
                        return Err(msg);
                    },
                }
                i += 1;
            }
            assert(named@.subrange(0, named.len() as int) =~= named@);
            assert(all_named(named@));
            Ok(RustStruct { name, fields, attributes })
        },
        Fields::Unnamed => Err("Tuple structs not supported".to_owned()),
        Fields::Unit => {
            assert(fields@.map_values(|f: RustField| f@) =~= Seq::<FieldView>::empty());
            Ok(RustStruct { name, fields, attributes })
        },
    }
}

} // verus!
