use vstd::prelude::*;

use crate::attr::{attr_named, Attribute, AttributeValue};
use crate::decl::{Declaration, EnumDecl};
use crate::text::same_text;
use crate::tokens::TokenTree;
use vstd::string::StringExecFns;

verus! {

/// The representation a type converts through.
#[derive(Debug)]
pub enum ViaType {
    /// A struct: the dynamic value representation.
    Struct,
    /// An enum with an explicit integer `repr`: that integer type.
    EnumWithRepr { int_ty: String },
    /// An enum without `repr`: the dynamic value representation.
    Enum,
}

/// Why no representation could be resolved.
#[derive(Debug)]
pub enum ReprError {
    /// `#[repr()]`: the attribute at `attr_index` has an empty list.
    EmptyReprList { attr_index: usize },
    /// The attribute at `attr_index` names `repr`, which is not a supported integer type.
    UnsupportedRepr { attr_index: usize, repr: String },
    /// The declaration is neither a struct nor an enum.
    NotStructOrEnum { name: Option<String> },
}

impl ReprError {
    /// The diagnostic text of the error.
    pub open spec fn message_spec(self) -> Seq<char> {
        match self {
            ReprError::EmptyReprList { .. } => "expected non-empty `repr` list"@,
            ReprError::UnsupportedRepr { repr, .. } => "enum with repr #[repr("@ + repr@
                + ")] cannot implement `GodotConvert`, repr must be one of: i8, i16, i32, i64, u8, u16, u32"@,
            ReprError::NotStructOrEnum { name } => "cannot get via type for "@ + match name {
                Some(n) => "`"@ + n@ + "`"@,
                None => "an unnamed item"@,
            } + ", only structs and enums are supported currently"@,
        }
    }

    /// The diagnostic text of the error.
    pub fn message(&self) -> (r: String)
        ensures
            r@ == self.message_spec(),
    {
        let mut m = String::new();
        match self {
            ReprError::EmptyReprList { .. } => {
                m.append("expected non-empty `repr` list");
            },
            ReprError::UnsupportedRepr { repr, .. } => {
                m.append("enum with repr #[repr(");
                m.append(repr.as_str());
                m.append(
                    ")] cannot implement `GodotConvert`, repr must be one of: i8, i16, i32, i64, u8, u16, u32",
                );
            },
            ReprError::NotStructOrEnum { name } => {
                m.append("cannot get via type for ");
                match name {
                    Some(n) => {
                        m.append("`");
                        m.append(n.as_str());
                        m.append("`");
                    },
                    None => {
                        m.append("an unnamed item");
                    },
                }
                m.append(", only structs and enums are supported currently");
            },
        }
        m
    }
}

impl ViaType {
    /// The path of the type a value converts through: the integer type of an
    /// explicit `repr`, else the dynamic variant type.
    pub fn type_path(&self) -> (r: String)
        ensures
            self matches ViaType::EnumWithRepr { int_ty } ==> r@ == int_ty@,
            !(self is EnumWithRepr) ==> r@ == "::godot::builtin::Variant"@,
    {
        match self {
            ViaType::EnumWithRepr { int_ty } => int_ty.clone(),
            _ => {
                let mut m = String::new();
                m.append("::godot::builtin::Variant");
                m
            },
        }
    }
}

/// The outcome of resolving a representation, as a value of the model.
pub enum ReprOutcome {
    Dynamic,
    Int(Seq<char>),
    EmptyList(int),
    Unsupported(int, Seq<char>),
    NotStructOrEnum,
}

pub open spec fn repr_name() -> Seq<char> {
    seq!['r', 'e', 'p', 'r']
}

/// The integer types an enum may use as its representation.
pub open spec fn is_supported_repr(s: Seq<char>) -> bool {
    s == seq!['i', '8'] || s == seq!['u', '8'] || s == seq!['i', '1', '6'] || s == seq!['u', '1', '6']
        || s == seq!['i', '3', '2'] || s == seq!['u', '3', '2'] || s == seq!['i', '6', '4']
}

/// What the grammar guarantees of a `repr` attribute: a parenthesised list
/// whose first token, if any, is an identifier.
pub open spec fn repr_well_formed(a: Attribute) -> bool {
    attr_named(a, repr_name()) ==> match a.value {
        AttributeValue::Group(toks) => toks@.len() > 0 ==> toks@[0] is Ident,
        _ => false,
    }
}

/// Whether the first `repr` attribute of `attrs`, if any, is well formed.
pub open spec fn first_repr_well_formed(attrs: Seq<Attribute>) -> bool {
    forall|i: int|
        0 <= i < attrs.len() && attr_named(#[trigger] attrs[i], repr_name()) && (forall|j: int|
            0 <= j < i ==> !attr_named(#[trigger] attrs[j], repr_name())) ==> repr_well_formed(
            attrs[i],
        )
}

/// The outcome decided by the `repr` attribute `a`, found at index `i`.
pub open spec fn repr_attr_rule(a: Attribute, i: int) -> ReprOutcome {
    match a.value {
        AttributeValue::Group(toks) => if toks@.len() == 0 {
            ReprOutcome::EmptyList(i)
        } else {
            match toks@[0] {
                TokenTree::Ident(s) => if is_supported_repr(s@) {
                    ReprOutcome::Int(s@)
                } else {
                    ReprOutcome::Unsupported(i, s@)
                },
                _ => ReprOutcome::Dynamic,
            }
        },
        _ => ReprOutcome::Dynamic,
    }
}

/// The outcome for `attrs`, searching for the first `repr` attribute from index `i` on.
pub open spec fn repr_rule_from(attrs: Seq<Attribute>, i: int) -> ReprOutcome
    decreases attrs.len() - i,
{
    if i < 0 || i >= attrs.len() {
        ReprOutcome::Dynamic
    } else if attr_named(attrs[i], repr_name()) {
        repr_attr_rule(attrs[i], i)
    } else {
        repr_rule_from(attrs, i + 1)
    }
}

/// The outcome for an enum with attributes `attrs`.
pub open spec fn repr_rule(attrs: Seq<Attribute>) -> ReprOutcome {
    repr_rule_from(attrs, 0)
}

pub open spec fn repr_outcome(r: Result<ViaType, ReprError>) -> ReprOutcome {
    match r {
        Ok(ViaType::Struct) => ReprOutcome::Dynamic,
        Ok(ViaType::Enum) => ReprOutcome::Dynamic,
        Ok(ViaType::EnumWithRepr { int_ty }) => ReprOutcome::Int(int_ty@),
        Err(ReprError::EmptyReprList { attr_index }) => ReprOutcome::EmptyList(attr_index as int),
        Err(ReprError::UnsupportedRepr { attr_index, repr }) => ReprOutcome::Unsupported(
            attr_index as int,
            repr@,
        ),
        Err(ReprError::NotStructOrEnum { .. }) => ReprOutcome::NotStructOrEnum,
    }
}

/// Whether `s` names a supported integer representation.
pub fn is_supported_repr_text(s: &String) -> (r: bool)
    ensures
        r == is_supported_repr(s@),
{
    proof {
        reveal_strlit("i8");
        reveal_strlit("u8");
        reveal_strlit("i16");
        reveal_strlit("u16");
        reveal_strlit("i32");
        reveal_strlit("u32");
        reveal_strlit("i64");
        assert("i8"@ =~= seq!['i', '8']);
        assert("u8"@ =~= seq!['u', '8']);
        assert("i16"@ =~= seq!['i', '1', '6']);
        assert("u16"@ =~= seq!['u', '1', '6']);
        assert("i32"@ =~= seq!['i', '3', '2']);
        assert("u32"@ =~= seq!['u', '3', '2']);
        assert("i64"@ =~= seq!['i', '6', '4']);
    }
    same_text(s, "i8") || same_text(s, "u8") || same_text(s, "i16") || same_text(s, "u16")
        || same_text(s, "i32") || same_text(s, "u32") || same_text(s, "i64")
}

/// Resolves an enum's representation from its first `repr` attribute; an enum
/// without one uses the dynamic representation.
pub fn enum_repr(enum_: &EnumDecl) -> (r: Result<ViaType, ReprError>)
    requires
        first_repr_well_formed(enum_.attributes@),
    ensures
        repr_outcome(r) == repr_rule(enum_.attributes@),
        r matches Ok(v) ==> !(v is Struct),
        !(r matches Err(ReprError::NotStructOrEnum { .. })),
{
    let attrs = &enum_.attributes;
    let mut i: usize = 0;
    while i < attrs.len()
        invariant
            i <= attrs@.len(),
            attrs@ == enum_.attributes@,
            repr_rule(attrs@) == repr_rule_from(attrs@, i as int),
            first_repr_well_formed(attrs@),
            forall|j: int| 0 <= j < i ==> !attr_named(#[trigger] attrs@[j], repr_name()),
        decreases attrs@.len() - i,
    {
        let is_repr = match attrs[i].get_single_path_segment() {
            Some(name) => same_text(&name, "repr"),
            None => false,
        };
        proof {
            reveal_strlit("repr");
            assert("repr"@ =~= repr_name());
            assert(is_repr == attr_named(attrs@[i as int], repr_name()));
            if is_repr {
                assert(repr_well_formed(attrs@[i as int]));
                assert(repr_rule_from(attrs@, i as int) == repr_attr_rule(attrs@[i as int], i as int));
            }
        }
        if is_repr {
            let repr_value = match &attrs[i].value {
                AttributeValue::Group(toks) => toks,
                _ => {
                    proof {
                        assert(false);
                    }
                    return Ok(ViaType::Enum);
                },
            };
            if repr_value.len() == 0 {
                return Err(ReprError::EmptyReprList { attr_index: i });
            }
            let repr_type = match &repr_value[0] {
                TokenTree::Ident(s) => s,
                _ => {
                    proof {
                        assert(false);
                    }
                    return Ok(ViaType::Enum);
                },
            };
            if !is_supported_repr_text(repr_type) {
                return Err(ReprError::UnsupportedRepr { attr_index: i, repr: repr_type.clone() });
            }
            return Ok(ViaType::EnumWithRepr { int_ty: repr_type.clone() });
        }
        i = i + 1;
    }
    Ok(ViaType::Enum)
}

/// The representation of a struct or enum declaration.
pub fn via_type(declaration: &Declaration) -> (r: Result<ViaType, ReprError>)
    requires
        declaration matches Declaration::Enum(e) ==> first_repr_well_formed(e.attributes@),
    ensures
        declaration matches Declaration::Enum(e) ==> repr_outcome(r) == repr_rule(e.attributes@)
            && !(r matches Ok(ViaType::Struct)),
        declaration is Struct ==> r matches Ok(ViaType::Struct),
        declaration matches Declaration::Other { name } ==> (r matches Err(
            ReprError::NotStructOrEnum { name: n },
        ) && n == name),
{
    match declaration {
        Declaration::Enum(enum_) => enum_repr(enum_),
        Declaration::Struct(_) => Ok(ViaType::Struct),
        Declaration::Other { name } => Err(
            ReprError::NotStructOrEnum { name: crate::text::copy_opt_text(name) },
        ),
    }
}

/// An enum with no `repr` attribute uses the dynamic representation.
pub proof fn lemma_no_repr_is_dynamic(attrs: Seq<Attribute>)
    requires
        forall|i: int| 0 <= i < attrs.len() ==> !attr_named(#[trigger] attrs[i], repr_name()),
    ensures
        repr_rule(attrs) == ReprOutcome::Dynamic,
{
    lemma_no_repr_from(attrs, 0);
}

proof fn lemma_no_repr_from(attrs: Seq<Attribute>, i: int)
    requires
        0 <= i,
        forall|j: int| 0 <= j < attrs.len() ==> !attr_named(#[trigger] attrs[j], repr_name()),
    ensures
        repr_rule_from(attrs, i) == ReprOutcome::Dynamic,
    decreases attrs.len() - i,
{
    if i < attrs.len() {
        lemma_no_repr_from(attrs, i + 1);
    }
}

/// A resolved integer representation is always one of the supported types.
pub proof fn lemma_int_repr_supported(attrs: Seq<Attribute>, s: Seq<char>)
    requires
        repr_rule(attrs) == ReprOutcome::Int(s),
    ensures
        is_supported_repr(s),
{
    lemma_int_repr_supported_from(attrs, 0, s);
}

proof fn lemma_int_repr_supported_from(attrs: Seq<Attribute>, i: int, s: Seq<char>)
    requires
        repr_rule_from(attrs, i) == ReprOutcome::Int(s),
    ensures
        is_supported_repr(s),
    decreases attrs.len() - i,
{
    if 0 <= i < attrs.len() && !attr_named(attrs[i], repr_name()) {
        lemma_int_repr_supported_from(attrs, i + 1, s);
    }
}

} // verus!
