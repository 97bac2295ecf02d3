use vstd::prelude::*;

use crate::path::{extract_typename, last_segment, TypeExpr};
use crate::text::{same_text, starts_with_char};
use vstd::string::StringExecFns;

verus! {

/// The header of an impl block: `impl Trait for SelfTy` or `impl SelfTy`.
#[derive(Debug)]
pub struct ImplBlock {
    pub trait_ty: Option<TypeExpr>,
    pub self_ty: TypeExpr,
}

/// Why an impl block was refused. Each error is reported at the whole impl
/// block and carries the label of the attribute that asked for the check.
#[derive(Debug)]
pub enum ImplError {
    /// The trait is not the one the attribute requires.
    TraitMismatch { attr: String, expected_trait: String },
    /// The trait's name does not start with `I`.
    NotVirtualTrait { attr: String },
    /// The Self type has generic arguments.
    GenericSelf { attr: String },
    /// The Self type is not a simple path.
    SelfNotSimplePath { attr: String },
}

/// The outcome of a validation, as a value of the model.
pub enum ImplOutcome {
    Accepted(Seq<char>),
    TraitMismatch,
    NotVirtualTrait,
    GenericSelf,
    SelfNotSimplePath,
}

impl ImplError {
    /// The attribute label the error was made for.
    pub open spec fn label(self) -> Seq<char> {
        match self {
            ImplError::TraitMismatch { attr, .. } => attr@,
            ImplError::NotVirtualTrait { attr } => attr@,
            ImplError::GenericSelf { attr } => attr@,
            ImplError::SelfNotSimplePath { attr } => attr@,
        }
    }

    /// The diagnostic text of the error.
    pub open spec fn message_spec(self) -> Seq<char> {
        match self {
            ImplError::TraitMismatch { attr, expected_trait } => "#["@ + attr@
                + "] for trait impls requires trait to be `"@ + expected_trait@ + "`"@,
            ImplError::NotVirtualTrait { attr } => "#["@ + attr@
                + "] for trait impls requires a virtual method trait (trait name should start with 'I')"@,
            ImplError::GenericSelf { attr } => "#["@ + attr@
                + "] for does currently not support generic arguments"@,
            ImplError::SelfNotSimplePath { attr } => "#["@ + attr@
                + "] requires Self type to be a simple path"@,
        }
    }

    pub open spec fn outcome(self) -> ImplOutcome {
        match self {
            ImplError::TraitMismatch { .. } => ImplOutcome::TraitMismatch,
            ImplError::NotVirtualTrait { .. } => ImplOutcome::NotVirtualTrait,
            ImplError::GenericSelf { .. } => ImplOutcome::GenericSelf,
            ImplError::SelfNotSimplePath { .. } => ImplOutcome::SelfNotSimplePath,
        }
    }
}

impl ImplError {
    /// The diagnostic text of the error, naming the attribute that asked for the check.
    pub fn message(&self) -> (r: String)
        ensures
            r@ == self.message_spec(),
    {
        let mut m = String::new();
        m.append("#[");
        match self {
            ImplError::TraitMismatch { attr, expected_trait } => {
                m.append(attr.as_str());
                m.append("] for trait impls requires trait to be `");
                m.append(expected_trait.as_str());
                m.append("`");
            },
            ImplError::NotVirtualTrait { attr } => {
                m.append(attr.as_str());
                m.append(
                    "] for trait impls requires a virtual method trait (trait name should start with 'I')",
                );
            },
            ImplError::GenericSelf { attr } => {
                m.append(attr.as_str());
                m.append("] for does currently not support generic arguments");
            },
            ImplError::SelfNotSimplePath { attr } => {
                m.append(attr.as_str());
                m.append("] requires Self type to be a simple path");
            },
        }
        m
    }
}

pub open spec fn outcome_of<T>(r: Result<T, ImplError>, name: spec_fn(T) -> Seq<char>) -> ImplOutcome {
    match r {
        Ok(v) => ImplOutcome::Accepted(name(v)),
        Err(e) => e.outcome(),
    }
}

pub open spec fn str_opt(s: Option<&str>) -> Option<Seq<char>> {
    match s {
        Some(t) => Some(t@),
        None => None,
    }
}

/// Whether `ty` is a simple path whose last identifier is `name`.
pub open spec fn type_named(ty: TypeExpr, name: Seq<char>) -> bool {
    last_segment(ty) is Some && last_segment(ty)->0.ident@ == name
}

/// Whether `ty` is a simple path whose last identifier starts with `I`.
pub open spec fn type_is_virtual(ty: TypeExpr) -> bool {
    last_segment(ty) is Some && last_segment(ty)->0.ident@.len() > 0
        && last_segment(ty)->0.ident@[0] == 'I'
}

/// The rule on the Self type: a simple path without generic arguments; the
/// result is its last identifier.
pub open spec fn self_rule(ty: TypeExpr) -> ImplOutcome {
    match last_segment(ty) {
        None => ImplOutcome::SelfNotSimplePath,
        Some(seg) => if seg.generic_args is Some {
            ImplOutcome::GenericSelf
        } else {
            ImplOutcome::Accepted(seg.ident@)
        },
    }
}

/// The outcome of `validate_impl` with an optional required trait name.
pub open spec fn impl_rule(b: ImplBlock, expected: Option<Seq<char>>) -> ImplOutcome {
    match expected {
        Some(t) => if b.trait_ty is Some && type_named(b.trait_ty->0, t) {
            self_rule(b.self_ty)
        } else {
            ImplOutcome::TraitMismatch
        },
        None => self_rule(b.self_ty),
    }
}

/// The outcome of `validate_trait_impl_virtual`.
pub open spec fn virtual_rule(b: ImplBlock) -> ImplOutcome {
    if b.trait_ty is Some && type_is_virtual(b.trait_ty->0) {
        self_rule(b.self_ty)
    } else {
        ImplOutcome::NotVirtualTrait
    }
}

pub open spec fn string_text(s: String) -> Seq<char> {
    s@
}

pub open spec fn pair_text<'a>(p: (String, &'a TypeExpr)) -> Seq<char> {
    p.0@
}

/// Whether the trait of `original_impl` has the last identifier `name`.
pub fn is_impl_named(original_impl: &ImplBlock, name: &str) -> (r: bool)
    requires
        original_impl.trait_ty is Some,
    ensures
        r == type_named(original_impl.trait_ty->0, name@),
{
    let trait_ty = match &original_impl.trait_ty {
        Some(t) => t,
        None => {
            return false;
        },
    };
    match extract_typename(trait_ty) {
        Some(seg) => same_text(&seg.ident, name),
        None => false,
    }
}

/// Checks the Self type of `original_impl`: it must be a simple path without
/// generic arguments. Returns its last identifier.
pub fn validate_self(original_impl: &ImplBlock, attr: &str) -> (r: Result<String, ImplError>)
    ensures
        outcome_of(r, |s: String| string_text(s)) == self_rule(original_impl.self_ty),
        r matches Err(e) ==> e.label() == attr@,
{
    match extract_typename(&original_impl.self_ty) {
        Some(segment) => if segment.generic_args.is_none() {
            Ok(segment.ident)
        } else {
            Err(ImplError::GenericSelf { attr: attr.to_owned() })
        },
        None => Err(ImplError::SelfNotSimplePath { attr: attr.to_owned() }),
    }
}

/// Validates either `impl Trait for SomeType`, when `expected_trait` is
/// `Some("Trait")`, or `impl SomeType`, when it is `None`. Returns the last
/// identifier of the Self type.
pub fn validate_impl(original_impl: &ImplBlock, expected_trait: Option<&str>, attr: &str) -> (r:
    Result<String, ImplError>)
    ensures
        outcome_of(r, |s: String| string_text(s)) == impl_rule(*original_impl, str_opt(expected_trait)),
        r matches Err(e) ==> e.label() == attr@,
        r matches Err(ImplError::TraitMismatch { expected_trait: t, .. }) ==> Some(t@) == str_opt(
            expected_trait,
        ),
{
    if let Some(expected) = expected_trait {
        let named = match &original_impl.trait_ty {
            Some(_) => is_impl_named(original_impl, expected),
            None => false,
        };
        if !named {
            return Err(
                ImplError::TraitMismatch { attr: attr.to_owned(), expected_trait: expected.to_owned() },
            );
        }
    }
    validate_self(original_impl, attr)
}

/// Validates `impl Trait for SomeType` where the name of `Trait` starts with
/// `I`. Returns the last identifier of the Self type and the trait itself.
pub fn validate_trait_impl_virtual<'a>(original_impl: &'a ImplBlock, attr: &str) -> (r: Result<
    (String, &'a TypeExpr),
    ImplError,
>)
    requires
        original_impl.trait_ty is Some,
    ensures
        outcome_of(r, |p: (String, &'a TypeExpr)| pair_text(p)) == virtual_rule(*original_impl),
        r matches Err(e) ==> e.label() == attr@,
        r matches Ok(p) ==> *p.1 == original_impl.trait_ty->0,
{
    let trait_ty = match &original_impl.trait_ty {
        Some(t) => t,
        None => {
            return Err(ImplError::NotVirtualTrait { attr: attr.to_owned() });
        },
    };
    let is_virtual = match extract_typename(trait_ty) {
        Some(seg) => starts_with_char(&seg.ident, 'I'),
        None => false,
    };
    if !is_virtual {
        return Err(ImplError::NotVirtualTrait { attr: attr.to_owned() });
    }
    match validate_self(original_impl, attr) {
        Ok(class_name) => Ok((class_name, trait_ty)),
        Err(e) => Err(e),
    }
}

/// Whether a Self type passes the Self rule: a simple path whose last segment
/// has no generic arguments.
pub open spec fn self_ok(ty: TypeExpr) -> bool {
    last_segment(ty) is Some && last_segment(ty)->0.generic_args is None
}

/// A Self type with generic arguments is refused on the generics rule, whatever
/// trait is required, as long as the trait check itself passes.
pub proof fn lemma_generic_self_rejected(b: ImplBlock, expected: Option<Seq<char>>)
    requires
        last_segment(b.self_ty) is Some,
        last_segment(b.self_ty)->0.generic_args is Some,
        expected matches Some(t) ==> b.trait_ty is Some && type_named(b.trait_ty->0, t),
    ensures
        impl_rule(b, expected) == ImplOutcome::GenericSelf,
{
}

/// A Self type that is not a simple path is refused on the simple-path rule,
/// whatever trait is required, as long as the trait check itself passes.
pub proof fn lemma_non_path_self_rejected(b: ImplBlock, expected: Option<Seq<char>>)
    requires
        !(b.self_ty is Path),
        expected matches Some(t) ==> b.trait_ty is Some && type_named(b.trait_ty->0, t),
    ensures
        impl_rule(b, expected) == ImplOutcome::SelfNotSimplePath,
{
}

/// Requiring the trait `t` accepts a block exactly when its trait's last
/// identifier is `t` and its Self type passes the Self rule; the result is then
/// the Self type's last identifier.
pub proof fn lemma_named_trait_accepted(b: ImplBlock, t: Seq<char>)
    ensures
        impl_rule(b, Some(t)) is Accepted <==> (b.trait_ty is Some && type_named(b.trait_ty->0, t)
            && self_ok(b.self_ty)),
        impl_rule(b, Some(t)) is Accepted ==> impl_rule(b, Some(t)) == ImplOutcome::Accepted(
            last_segment(b.self_ty)->0.ident@,
        ),
{
}

/// A virtual trait impl is accepted exactly when the trait's last identifier
/// starts with `I` and the Self type passes the Self rule; a trait not starting
/// with `I` is refused on that rule alone.
pub proof fn lemma_virtual_trait_rule(b: ImplBlock)
    ensures
        virtual_rule(b) is Accepted <==> (b.trait_ty is Some && type_is_virtual(b.trait_ty->0)
            && self_ok(b.self_ty)),
        !(b.trait_ty is Some && type_is_virtual(b.trait_ty->0)) ==> virtual_rule(b)
            == ImplOutcome::NotVirtualTrait,
{
}

} // verus!
