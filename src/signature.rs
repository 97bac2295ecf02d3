use vstd::prelude::*;

use crate::attr::Attribute;
use crate::text::copy_opt_text;
use crate::tokens::{Delimiter, TokenTree};

verus! {

/// A function declaration. Parameters, generic parameters, the `where` clause
/// and the return type are held as their source text.
#[derive(Debug)]
pub struct Function {
    pub attributes: Vec<Attribute>,
    pub vis_marker: Option<String>,
    pub qualifiers: Vec<String>,
    pub name: String,
    pub generic_params: Option<String>,
    pub params: Vec<String>,
    pub where_clause: Option<String>,
    pub return_ty: Option<String>,
    pub has_semicolon: bool,
    pub body: Option<Vec<TokenTree>>,
}

/// Whether `r` is `f` reduced to its signature: no visibility, attributes,
/// semicolon or body, and everything else kept.
pub open spec fn is_signature_of(r: Function, f: Function) -> bool {
    &&& r.vis_marker is None
    &&& r.attributes@.len() == 0
    &&& !r.has_semicolon
    &&& r.body is None
    &&& r.qualifiers@ == f.qualifiers@
    &&& r.name@ == f.name@
    &&& r.generic_params == f.generic_params
    &&& r.params@ == f.params@
    &&& r.where_clause == f.where_clause
    &&& r.return_ty == f.return_ty
}

/// Whether `r` is `s` followed by one empty brace group.
pub open spec fn is_completed(r: Seq<TokenTree>, s: Seq<TokenTree>) -> bool {
    &&& r.len() == s.len() + 1
    &&& r.drop_last() == s
    &&& r.last() matches TokenTree::Group(Delimiter::Brace, inner) && inner@.len() == 0
}

fn copy_texts(v: &Vec<String>) -> (r: Vec<String>)
    ensures
        r@ == v@,
{
    let mut out: Vec<String> = Vec::new();
    let mut i: usize = 0;
    while i < v.len()
        invariant
            i <= v@.len(),
            out@ == v@.take(i as int),
        decreases v@.len() - i,
    {
        out.push(v[i].clone());
        assert(out@ =~= v@.take(i + 1));
        i = i + 1;
    }
    assert(v@.take(i as int) =~= v@);
    out
}

/// A copy of `function` with its visibility, attributes, semicolon and body
/// removed, leaving only the signature.
pub fn reduce_to_signature(function: &Function) -> (r: Function)
    ensures
        is_signature_of(r, *function),
{
    Function {
        attributes: Vec::new(),
        vis_marker: None,
        qualifiers: copy_texts(&function.qualifiers),
        name: function.name.clone(),
        generic_params: copy_opt_text(&function.generic_params),
        params: copy_texts(&function.params),
        where_clause: copy_opt_text(&function.where_clause),
        return_ty: copy_opt_text(&function.return_ty),
        has_semicolon: false,
        body: None,
    }
}

/// Appends an empty `{}` body to a bodiless signature, so that it reads as a
/// complete function declaration.
pub fn complete_as_declaration(signature: Vec<TokenTree>) -> (r: Vec<TokenTree>)
    ensures
        is_completed(r@, signature@),
{
    let mut tokens = signature;
    tokens.push(TokenTree::Group(Delimiter::Brace, Vec::new()));
    assert(tokens@.drop_last() =~= signature@);
    tokens
}

/// Reducing a signature again changes nothing that a signature holds.
pub proof fn lemma_reduce_idempotent(f: Function, r: Function, rr: Function)
    requires
        is_signature_of(r, f),
        is_signature_of(rr, r),
    ensures
        is_signature_of(rr, f),
        rr.attributes@ == r.attributes@,
{
    assert(rr.attributes@ =~= r.attributes@);
}

/// Completing a signature and dropping the added body gives the signature back.
pub proof fn lemma_completion_round_trip(s: Seq<TokenTree>, r: Seq<TokenTree>)
    requires
        is_completed(r, s),
    ensures
        r.take(s.len() as int) == s,
{
    assert(r.take(s.len() as int) =~= r.drop_last());
}

} // verus!
