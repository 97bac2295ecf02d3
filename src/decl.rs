use vstd::prelude::*;

use crate::attr::Attribute;
use crate::text::copy_opt_text;

verus! {

/// A struct declaration: its attributes, name, and the text of its generic
/// parameter list and `where` clause, when present.
#[derive(Debug)]
pub struct StructDecl {
    pub attributes: Vec<Attribute>,
    pub name: String,
    pub generic_params: Option<String>,
    pub where_clause: Option<String>,
}

/// An enum declaration, with the same parts as a struct declaration.
#[derive(Debug)]
pub struct EnumDecl {
    pub attributes: Vec<Attribute>,
    pub name: String,
    pub generic_params: Option<String>,
    pub where_clause: Option<String>,
}

/// A declaration: a struct, an enum, or any other item (with its name, if it has one).
#[derive(Debug)]
pub enum Declaration {
    Struct(StructDecl),
    Enum(EnumDecl),
    Other { name: Option<String> },
}

/// What is shared by struct and enum declarations.
#[derive(Debug)]
pub struct DeclInfo {
    pub where_: Option<String>,
    pub generic_params: Option<String>,
    pub name: String,
    pub name_string: String,
}

/// The name, generic parameters and `where` clause of a struct or enum.
pub fn decl_get_info(decl: &Declaration) -> (r: DeclInfo)
    requires
        decl is Struct || decl is Enum,
    ensures
        decl matches Declaration::Struct(s) ==> r.where_ == s.where_clause && r.generic_params
            == s.generic_params && r.name@ == s.name@,
        decl matches Declaration::Enum(e) ==> r.where_ == e.where_clause && r.generic_params
            == e.generic_params && r.name@ == e.name@,
        r.name_string@ == r.name@,
{
    match decl {
        Declaration::Struct(s) => DeclInfo {
            where_: copy_opt_text(&s.where_clause),
            generic_params: copy_opt_text(&s.generic_params),
            name: s.name.clone(),
            name_string: s.name.clone(),
        },
        Declaration::Enum(e) => DeclInfo {
            where_: copy_opt_text(&e.where_clause),
            generic_params: copy_opt_text(&e.generic_params),
            name: e.name.clone(),
            name_string: e.name.clone(),
        },
        Declaration::Other { .. } => DeclInfo {
            where_: None,
            generic_params: None,
            name: String::new(),
            name_string: String::new(),
        },
    }
}

} // verus!
