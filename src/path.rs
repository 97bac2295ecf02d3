use vstd::prelude::*;

use crate::text::same_text;

verus! {

/// One segment of a scoped path: an identifier and, when present, the text of
/// its generic argument list.
#[derive(Debug)]
pub struct PathSegment {
    pub ident: String,
    pub generic_args: Option<String>,
}

/// A type expression: either a simple scoped path (`a::b::C<T>`), or any other
/// form (a reference, a tuple, a trait object, ...), kept as its text.
#[derive(Debug)]
pub enum TypeExpr {
    Path(Vec<PathSegment>),
    Other(String),
}

/// The last segment of `ty`, when `ty` is a simple path with at least one segment.
pub open spec fn last_segment(ty: TypeExpr) -> Option<PathSegment> {
    match ty {
        TypeExpr::Path(segs) => if segs@.len() > 0 {
            Some(segs@.last())
        } else {
            None
        },
        TypeExpr::Other(_) => None,
    }
}

/// A copy of `seg`.
pub fn copy_segment(seg: &PathSegment) -> (r: PathSegment)
    ensures
        r == *seg,
{
    let generic_args = match &seg.generic_args {
        Some(g) => Some(g.clone()),
        None => None,
    };
    PathSegment { ident: seg.ident.clone(), generic_args }
}

/// Gets the right-most segment of a simple path; `None` for any other type expression.
pub fn extract_typename(ty: &TypeExpr) -> (r: Option<PathSegment>)
    ensures
        r == last_segment(*ty),
        !(ty is Path) ==> r is None,
{
    match ty {
        TypeExpr::Path(segs) => if segs.len() > 0 {
            Some(copy_segment(&segs[segs.len() - 1]))
        } else {
            None
        },
        TypeExpr::Other(_) => None,
    }
}

/// Whether `ty` is a simple path whose last segment's identifier is `expected`.
pub fn path_ends_with_complex(ty: &TypeExpr, expected: &str) -> (r: bool)
    ensures
        r == (last_segment(*ty) is Some && last_segment(*ty)->0.ident@ == expected@),
{
    match ty {
        TypeExpr::Path(segs) => segs.len() > 0 && same_text(&segs[segs.len() - 1].ident, expected),
        TypeExpr::Other(_) => false,
    }
}

} // verus!
