//! The field-type classifier: a declared-type expression to a semantic type
//! name and whether it was wrapped in `Option<..>`.
use vstd::prelude::*;

use crate::decl::{GenericArgument, PathArguments, PathSegment, TypeExpr};
use crate::text::same_text;

verus! {

/// The idents of a path's segments joined by `::`, in order.
pub open spec fn join_path(segs: Seq<PathSegment>) -> Seq<char>
    decreases segs.len(),
{
    if segs.len() == 0 {
        Seq::empty()
    } else if segs.len() == 1 {
        segs[0].ident@
    } else {
        join_path(segs.drop_last()) + "::"@ + segs.last().ident@
    }
}

/// The semantic type name of `t`, and whether it is optional. An `Option`
/// with exactly one type argument gives what its argument gives, marked
/// optional (an optional inside it collapses into the one mark); any other
/// one-segment path gives its ident; a longer path gives its idents joined
/// by `::`; the composite shapes give a label each.
pub open spec fn classify(t: TypeExpr) -> (Seq<char>, bool)
    decreases t,
{
    match t {
        TypeExpr::Path(segs) => if segs.len() == 1 {
            let seg = segs[0];
            match seg.arguments {
                PathArguments::AngleBracketed(args) => if seg.ident@ == "Option"@ && args.len()
                    == 1 {
                    match args[0] {
                        GenericArgument::Type(inner) => (classify(inner).0, true),
                        GenericArgument::Other => (seg.ident@, false),
                    }
                } else {
                    (seg.ident@, false)
                },
                _ => (seg.ident@, false),
            }
        } else {
            (join_path(segs@), false)
        },
        TypeExpr::Array => ("Array"@, false),
        TypeExpr::Slice => ("Slice"@, false),
        TypeExpr::Ptr => ("Ptr"@, false),
        TypeExpr::Reference => ("Reference"@, false),
        TypeExpr::Tuple => ("Tuple"@, false),
        TypeExpr::Other => ("Unknown"@, false),
    }
}

/// `seg` is `Option<T>` for exactly one type `T`.
pub open spec fn is_option_wrapper(seg: PathSegment) -> bool {
    &&& seg.ident@ == "Option"@
    &&& seg.arguments matches PathArguments::AngleBracketed(args)
    &&& args.len() == 1
    &&& args[0] is Type
}

/// A one-segment path that is not an optional wrapper is classified as its
/// own ident, not optional.
pub proof fn lemma_single_segment_classify(t: TypeExpr)
    requires
        t matches TypeExpr::Path(segs) && segs.len() == 1 && !is_option_wrapper(segs[0]),
    ensures
        classify(t) == (t->Path_0[0].ident@, false),
{
}

/// The segments' idents joined by `::`.
fn join_segments(segs: &Vec<PathSegment>) -> (r: String)
    ensures
        r@ == join_path(segs@),
{
    let mut out = String::new();
    let mut i: usize = 0;
    while i < segs.len()
        invariant
            i <= segs.len(),
            out@ == join_path(segs@.subrange(0, i as int)),
        decreases segs.len() - i,
    {
        let ghost prev = segs@.subrange(0, i as int);
        let ghost next = segs@.subrange(0, i + 1);
        assert(next.drop_last() =~= prev);
        if i > 0 {
            out.append("::");
        }
        out.append(segs[i].ident.as_str());
        i += 1;
    }
    assert(segs@.subrange(0, segs.len() as int) =~= segs@);
    out
}

/// Classifies a declared type. Every type gets a classification.
pub fn extract_type_info(ty: &TypeExpr) -> (r: Result<(String, bool), String>)
    ensures
        r matches Ok(p) && p.0@ == classify(*ty).0 && p.1 == classify(*ty).1,
    decreases ty,
{
    match ty {
        TypeExpr::Path(segs) => {
            if segs.len() == 1 {
                let seg = &segs[0];
                if let PathArguments::AngleBracketed(args) = &seg.arguments {
                    if args.len() == 1 && same_text(seg.ident.as_str(), "Option") {
                        if let GenericArgument::Type(inner) = &args[0] {
                            let (inner_name, _) = match extract_type_info(inner) {
                                Ok(p) => p,
                                Err(e) => return Err(e),
                            };
                            return Ok((inner_name, true));
                        }
                    }
                }
                Ok((seg.ident.clone(), false))
            } else {
                Ok((join_segments(segs), false))
            }
        },
        TypeExpr::Array => Ok(("Array".to_owned(), false)),
        TypeExpr::Slice => Ok(("Slice".to_owned(), false)),
        TypeExpr::Ptr => Ok(("Ptr".to_owned(), false)),
        TypeExpr::Reference => Ok(("Reference".to_owned(), false)),
        TypeExpr::Tuple => Ok(("Tuple".to_owned(), false)),
        TypeExpr::Other => Ok(("Unknown".to_owned(), false)),
    }
}

} // verus!
