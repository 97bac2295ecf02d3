use vstd::prelude::*;

use crate::tokens::TokenTree;

verus! {

/// What follows an attribute's path.
#[derive(Debug)]
pub enum AttributeValue {
    /// `#[name(tokens)]`
    Group(Vec<TokenTree>),
    /// `#[name = tokens]`
    Equals(Vec<TokenTree>),
    /// `#[name]`
    Empty,
}

/// An outer attribute `#[path value]`.
#[derive(Debug)]
pub struct Attribute {
    pub path: Vec<TokenTree>,
    pub value: AttributeValue,
}

/// The identifiers among the tokens of a path, in order (`::` and other
/// punctuation are skipped).
pub open spec fn path_idents(p: Seq<TokenTree>) -> Seq<Seq<char>>
    decreases p.len(),
{
    if p.len() == 0 {
        Seq::empty()
    } else {
        let rest = path_idents(p.drop_last());
        match p.last() {
            TokenTree::Ident(s) => rest.push(s@),
            _ => rest,
        }
    }
}

/// The identifier of a path made of exactly one identifier.
pub open spec fn single_segment(p: Seq<TokenTree>) -> Option<Seq<char>> {
    if path_idents(p).len() == 1 {
        Some(path_idents(p)[0])
    } else {
        None
    }
}

/// Whether an attribute's path is the single identifier `name`.
pub open spec fn attr_named(a: Attribute, name: Seq<char>) -> bool {
    single_segment(a.path@) == Some(name)
}

/// The attributes of `attrs` named `cfg`, in order.
pub open spec fn cfg_attrs(attrs: Seq<Attribute>) -> Seq<Attribute>
    decreases attrs.len(),
{
    if attrs.len() == 0 {
        Seq::empty()
    } else {
        let rest = cfg_attrs(attrs.drop_last());
        if attr_named(attrs.last(), seq!['c', 'f', 'g']) {
            rest.push(attrs.last())
        } else {
            rest
        }
    }
}

impl Attribute {
    /// The identifier of the attribute's path, when the path holds exactly one identifier.
    pub fn get_single_path_segment(&self) -> (r: Option<String>)
        ensures
            match r {
                Some(s) => single_segment(self.path@) == Some(s@),
                None => single_segment(self.path@) is None,
            },
    {
        let mut count: usize = 0;
        let mut found: Option<String> = None;
        let mut i: usize = 0;
        while i < self.path.len()
            invariant
                i <= self.path@.len(),
                count == path_idents(self.path@.take(i as int)).len(),
                count <= i,
                count == 1 <==> found is Some,
                found matches Some(s) ==> s@ == path_idents(self.path@.take(i as int))[0],
            decreases self.path@.len() - i,
        {
            proof {
                assert(self.path@.take(i + 1).drop_last() =~= self.path@.take(i as int));
            }
            match &self.path[i] {
                TokenTree::Ident(s) => {
                    count = count + 1;
                    if count == 1 {
                        found = Some(s.clone());
                    } else {
                        found = None;
                    }
                },
                _ => {},
            }
            i = i + 1;
        }
        assert(self.path@.take(i as int) =~= self.path@);
        found
    }
}

/// The attributes named `cfg` among `attrs`.
pub fn extract_cfg_attrs(attrs: &[Attribute]) -> (r: Vec<&Attribute>)
    ensures
        r@.map_values(|a: &Attribute| *a) == cfg_attrs(attrs@),
{
    let mut out: Vec<&Attribute> = Vec::new();
    let mut i: usize = 0;
    while i < attrs.len()
        invariant
            i <= attrs@.len(),
            out@.map_values(|a: &Attribute| *a) == cfg_attrs(attrs@.take(i as int)),
        decreases attrs@.len() - i,
    {
        proof {
            assert(attrs@.take(i + 1).drop_last() =~= attrs@.take(i as int));
        }
        let is_cfg = match attrs[i].get_single_path_segment() {
            Some(name) => crate::text::same_text(&name, "cfg"),
            None => false,
        };
        proof {
            reveal_strlit("cfg");
            assert("cfg"@ =~= seq!['c', 'f', 'g']);
            assert(is_cfg == attr_named(attrs@[i as int], seq!['c', 'f', 'g']));
        }
        if is_cfg {
            out.push(&attrs[i]);
        }
        assert(out@.map_values(|a: &Attribute| *a) =~= cfg_attrs(attrs@.take(i + 1)));
        i = i + 1;
    }
    assert(attrs@.take(i as int) =~= attrs@);
    out
}

} // verus!
