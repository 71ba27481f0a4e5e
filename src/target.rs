//! The intermediate representation handed to a backend, and the interface
//! that every language backend implements.
use vstd::prelude::*;

use crate::metadata::{GenError, Metadata};
use crate::text::views;

verus! {

/// A type expression of the target language, with what is known of where it
/// may stand.
pub struct Expr<T> {
    pub expr: String,
    pub meta: T,
}

/// What a backend records of its type expressions.
pub trait ExprMeta: Sized {
    /// Whether an expression with this metadata may stand in any position: a
    /// field, an array element, a map value, a nullable wrapper.
    spec fn is_universal(&self) -> bool;

    /// The value meaning that an expression may stand in any position.
    fn universally_usable() -> (r: Self)
        ensures
            r.is_universal(),
    ;

    /// Whether an expression with this metadata may stand in any position.
    fn is_universally_usable(&self) -> (r: bool)
        ensures
            r == self.is_universal(),
    ;
}

/// How declarations are spread over output units.
pub enum FilePartitioning {
    /// All declarations in one unit of the given name.
    SingleFile(String),
    /// One unit per declaration, under the given directory or package.
    FilePerType(String),
}

/// How a driver represents an optional property.
pub enum OptionalPropertyHandling {
    /// The property's type is wrapped in the nullable form.
    WrapWithNullable,
    /// The target has optional properties of its own.
    NativeOptional,
}

/// How enum variant identifiers are scoped.
pub enum EnumStrategy {
    /// Namespaced under their enum.
    Modularized,
    /// Sharing one flat namespace.
    Unmodularized,
}

/// A named synonym for a type expression.
pub struct Alias<T> {
    pub name: String,
    pub description: String,
    pub metadata: Metadata,
    pub type_: Expr<T>,
}

/// A named string enumeration.
pub struct Enum {
    pub name: String,
    pub description: String,
    pub metadata: Metadata,
    pub variants: Vec<EnumVariant>,
}

/// One member of an enumeration and the JSON string it stands for.
pub struct EnumVariant {
    pub name: String,
    pub description: String,
    pub json_value: String,
}

/// A named record type.
pub struct Struct<T> {
    pub name: String,
    pub description: String,
    pub metadata: Metadata,
    pub has_additional: bool,
    pub fields: Vec<StructField<T>>,
}

/// One field of a record: its identifier, its JSON property name, whether
/// the property may be absent, and its type.
pub struct StructField<T> {
    pub name: String,
    pub json_name: String,
    pub description: String,
    pub optional: bool,
    pub type_: Expr<T>,
}

/// One shape of a tagged union, as its carrier type refers to it.
pub struct DiscriminatorCase {
    /// The field of the carrier that holds this shape.
    pub field_name: String,
    /// The type declared for this shape.
    pub variant_type: String,
    /// The tag value that selects this shape.
    pub tag_value: String,
}

/// A tagged union: one JSON property, the tag, selects the shape of the rest.
pub struct Discriminator {
    pub name: String,
    pub description: String,
    pub metadata: Metadata,
    pub tag_field_name: String,
    pub tag_json_name: String,
    pub variants: Vec<DiscriminatorCase>,
}

/// The record type of one shape of a tagged union.
pub struct DiscriminatorVariant<T> {
    pub name: String,
    pub description: String,
    pub metadata: Metadata,
    /// The JSON name of the tag, which is not one of the shape's own fields.
    pub tag_json_name: String,
    pub fields: Vec<StructField<T>>,
}

/// A language backend. Each `write_` method appends the source of one
/// declaration to `out` and returns the expression that refers to it.
pub trait Target {
    type FileState;

    type ExprMeta: ExprMeta;

    /// How declarations are spread over output units.
    spec fn partitioning_ok(&self, p: FilePartitioning) -> bool;

    spec fn enum_strategy_of(&self) -> EnumStrategy;

    spec fn optional_handling_of(&self) -> OptionalPropertyHandling;

    fn file_partitioning(&self) -> (r: FilePartitioning)
        ensures
            self.partitioning_ok(r),
    ;

    fn enum_strategy(&self) -> (r: EnumStrategy)
        ensures
            r == self.enum_strategy_of(),
    ;

    fn optional_property_handling(&self) -> (r: OptionalPropertyHandling)
        ensures
            r == self.optional_handling_of(),
    ;

    /// The identifier of a type named by the given parts.
    spec fn type_name_of(&self, parts: Seq<Seq<char>>) -> Seq<char>;

    /// The identifier of a field named by the given parts.
    spec fn field_name_of(&self, parts: Seq<Seq<char>>) -> Seq<char>;

    /// The identifier of an enum member named by the given parts.
    spec fn variant_name_of(&self, parts: Seq<Seq<char>>) -> Seq<char>;

    /// Naming is a function of the backend and the name parts alone.
    fn name_type(&self, name_parts: &Vec<String>) -> (r: String)
        ensures
            r@ == self.type_name_of(views(name_parts@)),
    ;

    fn name_field(&self, name_parts: &Vec<String>) -> (r: String)
        ensures
            r@ == self.field_name_of(views(name_parts@)),
    ;

    fn name_enum_variant(&self, name_parts: &Vec<String>) -> (r: String)
        ensures
            r@ == self.variant_name_of(views(name_parts@)),
    ;

    /// Whether `r` is the boolean type, with the file state going from `s0`
    /// to `s1`; likewise for the other scalar builders.
    spec fn boolean_made(&self, s0: Self::FileState, s1: Self::FileState, r: Expr<Self::ExprMeta>) -> bool;

    spec fn string_made(&self, s0: Self::FileState, s1: Self::FileState, r: Expr<Self::ExprMeta>) -> bool;

    spec fn timestamp_made(&self, s0: Self::FileState, s1: Self::FileState, r: Expr<Self::ExprMeta>) -> bool;

    /// Whether `r` is the nullable form of `e`.
    spec fn nullable_made(
        &self,
        e: Expr<Self::ExprMeta>,
        s0: Self::FileState,
        s1: Self::FileState,
        r: Expr<Self::ExprMeta>,
    ) -> bool;

    /// Whether `r` is the array form of `e`.
    spec fn elements_made(
        &self,
        e: Expr<Self::ExprMeta>,
        s0: Self::FileState,
        s1: Self::FileState,
        r: Expr<Self::ExprMeta>,
    ) -> bool;

    fn boolean(&self, state: &mut Self::FileState) -> (r: Expr<Self::ExprMeta>)
        ensures
            self.boolean_made(*old(state), *final(state), r),
    ;

    fn string(&self, state: &mut Self::FileState) -> (r: Expr<Self::ExprMeta>)
        ensures
            self.string_made(*old(state), *final(state), r),
    ;

    fn timestamp(&self, state: &mut Self::FileState) -> (r: Expr<Self::ExprMeta>)
        ensures
            self.timestamp_made(*old(state), *final(state), r),
    ;

    fn nullable_of(&self, state: &mut Self::FileState, expr: Expr<Self::ExprMeta>) -> (r: Expr<
        Self::ExprMeta,
    >)
        ensures
            self.nullable_made(expr, *old(state), *final(state), r),
    ;

    fn elements_of(&self, state: &mut Self::FileState, expr: Expr<Self::ExprMeta>) -> (r: Expr<
        Self::ExprMeta,
    >)
        ensures
            self.elements_made(expr, *old(state), *final(state), r),
    ;

    /// Whether `after` is `before` followed by the head of a file for `state`.
    spec fn preamble_written(&self, state: Self::FileState, before: Seq<char>, after: Seq<char>) -> bool;

    /// Whether writing a declaration took the file state from `s0` to `s1`
    /// and `out` from `before` to `after`, and gave `r`.
    spec fn alias_written(
        &self,
        alias: Alias<Self::ExprMeta>,
        s0: Self::FileState,
        s1: Self::FileState,
        before: Seq<char>,
        after: Seq<char>,
        r: Result<Expr<Self::ExprMeta>, GenError>,
    ) -> bool;

    spec fn enum_written(
        &self,
        enum_: Enum,
        s0: Self::FileState,
        s1: Self::FileState,
        before: Seq<char>,
        after: Seq<char>,
        r: Result<Expr<Self::ExprMeta>, GenError>,
    ) -> bool;

    spec fn struct_written(
        &self,
        struct_: Struct<Self::ExprMeta>,
        s0: Self::FileState,
        s1: Self::FileState,
        before: Seq<char>,
        after: Seq<char>,
        r: Result<Expr<Self::ExprMeta>, GenError>,
    ) -> bool;

    spec fn discriminator_written(
        &self,
        discriminator: Discriminator,
        s0: Self::FileState,
        s1: Self::FileState,
        before: Seq<char>,
        after: Seq<char>,
        r: Result<Expr<Self::ExprMeta>, GenError>,
    ) -> bool;

    spec fn discriminator_variant_written(
        &self,
        variant: DiscriminatorVariant<Self::ExprMeta>,
        s0: Self::FileState,
        s1: Self::FileState,
        before: Seq<char>,
        after: Seq<char>,
        r: Result<Expr<Self::ExprMeta>, GenError>,
    ) -> bool;

    spec fn enum_variant_written(
        &self,
        enum_variant: EnumVariant,
        s0: Self::FileState,
        s1: Self::FileState,
        before: Seq<char>,
        after: Seq<char>,
        r: Result<Expr<Self::ExprMeta>, GenError>,
    ) -> bool;

    fn write_preamble(&self, state: &mut Self::FileState, out: &mut String)
        ensures
            self.preamble_written(*old(state), old(out)@, final(out)@),
    ;

    fn write_alias(
        &self,
        state: &mut Self::FileState,
        out: &mut String,
        alias: Alias<Self::ExprMeta>,
    ) -> (r: Result<Expr<Self::ExprMeta>, GenError>)
        ensures
            self.alias_written(alias, *old(state), *final(state), old(out)@, final(out)@, r),
    ;

    fn write_enum(
        &self,
        state: &mut Self::FileState,
        out: &mut String,
        enum_: Enum,
    ) -> (r: Result<Expr<Self::ExprMeta>, GenError>)
        ensures
            self.enum_written(enum_, *old(state), *final(state), old(out)@, final(out)@, r),
    ;

    fn write_struct(
        &self,
        state: &mut Self::FileState,
        out: &mut String,
        struct_: Struct<Self::ExprMeta>,
    ) -> (r: Result<Expr<Self::ExprMeta>, GenError>)
        ensures
            self.struct_written(struct_, *old(state), *final(state), old(out)@, final(out)@, r),
    ;

    fn write_discriminator(
        &self,
        state: &mut Self::FileState,
        out: &mut String,
        discriminator: Discriminator,
    ) -> (r: Result<Expr<Self::ExprMeta>, GenError>)
        ensures
            self.discriminator_written(discriminator, *old(state), *final(state), old(out)@, final(out)@, r),
    ;

    fn write_discriminator_variant(
        &self,
        state: &mut Self::FileState,
        out: &mut String,
        variant: DiscriminatorVariant<Self::ExprMeta>,
    ) -> (r: Result<Expr<Self::ExprMeta>, GenError>)
        ensures
            self.discriminator_variant_written(variant, *old(state), *final(state), old(out)@, final(out)@, r),
    ;

    fn write_enum_variant(
        &self,
        state: &mut Self::FileState,
        out: &mut String,
        enum_variant: EnumVariant,
    ) -> (r: Result<Expr<Self::ExprMeta>, GenError>)
        ensures
            self.enum_variant_written(enum_variant, *old(state), *final(state), old(out)@, final(out)@, r),
    ;
}

/// Makes `e` fit to stand in any position. An expression that already does
/// is returned as it is, and nothing is written. Any other is declared as an
/// alias named by `name_parts` as the backend names types, without
/// description or metadata, and the alias is returned in its place.
pub fn hoist<T: Target>(
    target: &T,
    state: &mut T::FileState,
    out: &mut String,
    name_parts: &Vec<String>,
    e: Expr<T::ExprMeta>,
) -> (r: Result<Expr<T::ExprMeta>, GenError>)
    ensures
        e.meta.is_universal() ==> r == Ok::<Expr<T::ExprMeta>, GenError>(e) && final(out)@ == old(
            out,
        )@,
        !e.meta.is_universal() ==> exists|a: Alias<T::ExprMeta>|
            {
                &&& a.name@ == target.type_name_of(views(name_parts@))
                &&& a.description@.len() == 0
                &&& a.metadata.entries@.len() == 0
                &&& a.type_ == e
                &&& #[trigger] target.alias_written(
                    a,
                    *old(state),
                    *final(state),
                    old(out)@,
                    final(out)@,
                    r,
                )
            },
{
    if e.meta.is_universally_usable() {
        return Ok(e);
    }
    let alias = Alias {
        name: target.name_type(name_parts),
        description: String::new(),
        metadata: Metadata::new(),
        type_: e,
    };
    let ghost a = alias;
    let r = target.write_alias(state, out, alias);
    assert(target.alias_written(a, *old(state), *state, old(out)@, out@, r));
    r
}

} // verus!
