//! Enum type descriptors for the contract value system: an enum is a named,
//! numbered type with up to 255 variants, each variant a list of named
//! fields. The field type descriptor is the caller's own type, carried
//! through untouched.

use vstd::prelude::*;

verus! {

/// Unique identifier of a user-defined type.
pub type IdentifierType = u16;

/// A variant of an enum: its named fields, like a struct's.
#[derive(Debug, Clone)]
pub struct EnumVariant<T>(Vec<(String, T)>);

impl<T> EnumVariant<T> {
    /// The variant's fields.
    pub closed spec fn spec_fields(&self) -> Seq<(String, T)> {
        self.0@
    }

    /// Builds a variant from its named fields.
    pub fn new(types: Vec<(String, T)>) -> (r: Self)
        ensures
            r.spec_fields() == types@,
    {
        EnumVariant(types)
    }

    /// The variant's fields, in declaration order.
    pub fn fields(&self) -> (r: &[(String, T)])
        ensures
            r@ == self.spec_fields(),
    {
        self.0.as_slice()
    }
}

/// An enum like a language-level one, with named variants; supports up to
/// 255 variants.
#[derive(Debug, Clone)]
pub struct Enum<T> {
    id: IdentifierType,
    name: String,
    variants: Vec<(String, EnumVariant<T>)>,
}

impl<T> Enum<T> {
    /// The unique identifier of the enum.
    pub closed spec fn spec_id(&self) -> IdentifierType {
        self.id
    }

    /// The name of the enum.
    pub closed spec fn spec_name(&self) -> Seq<char> {
        self.name@
    }

    /// The variants of the enum, in declaration order.
    pub closed spec fn spec_variants(&self) -> Seq<(String, EnumVariant<T>)> {
        self.variants@
    }
}

/// Two enums are the same enum exactly when their unique identifiers agree;
/// names and variants do not take part in the comparison.
impl<T> PartialEq for Enum<T> {
    fn eq(&self, other: &Self) -> (r: bool)
    {
        self.id == other.id
    }
}

impl<T> vstd::std_specs::cmp::PartialEqSpecImpl for Enum<T> {
    open spec fn obeys_eq_spec() -> bool {
        true
    }

    open spec fn eq_spec(&self, other: &Self) -> bool {
        self.spec_id() == other.spec_id()
    }
}

/// A selected enum type: the enum descriptor a value's type points at.
#[derive(Debug, Clone)]
pub struct EnumType<T>(Enum<T>);

impl<T> EnumType<T> {
    /// The unique identifier of the enum.
    pub closed spec fn spec_id(&self) -> IdentifierType {
        self.0.spec_id()
    }

    /// The name of the enum.
    pub closed spec fn spec_name(&self) -> Seq<char> {
        self.0.spec_name()
    }

    /// The variants of the enum, in declaration order.
    pub closed spec fn spec_variants(&self) -> Seq<(String, EnumVariant<T>)> {
        self.0.spec_variants()
    }

    /// Builds an enum type from its identifier, name and variants.
    pub fn new(id: IdentifierType, name: String, variants: Vec<(String, EnumVariant<T>)>) -> (r:
        Self)
        ensures
            r.spec_id() == id,
            r.spec_name() == name@,
            r.spec_variants() == variants@,
    {
        EnumType(Enum { id, name, variants })
    }

    /// The unique identifier of the enum.
    pub fn id(&self) -> (r: IdentifierType)
        ensures
            r == self.spec_id(),
    {
        self.0.id
    }

    /// The name of the enum.
    pub fn name(&self) -> (r: &str)
        ensures
            r@ == self.spec_name(),
    {
        self.0.name.as_str()
    }

    /// The variants of the enum.
    pub fn variants(&self) -> (r: &Vec<(String, EnumVariant<T>)>)
        ensures
            r@ == self.spec_variants(),
    {
        &self.0.variants
    }

    /// The variant with the given id: the id indexes the declaration order,
    /// and an id past the last variant yields nothing.
    pub fn get_variant(&self, id: u8) -> (r: Option<&(String, EnumVariant<T>)>)
        ensures
            id < self.spec_variants().len() ==> (r matches Some(v) && *v
                == self.spec_variants()[id as int]),
            id >= self.spec_variants().len() ==> r is None,
    {
        if (id as usize) < self.0.variants.len() {
            Some(&self.0.variants[id as usize])
        } else {
            None
        }
    }
}

/// Enum types compare as the enums they point at: by unique identifier.
impl<T> PartialEq for EnumType<T> {
    fn eq(&self, other: &Self) -> (r: bool)
    {
        self.0.id == other.0.id
    }
}

impl<T> vstd::std_specs::cmp::PartialEqSpecImpl for EnumType<T> {
    open spec fn obeys_eq_spec() -> bool {
        true
    }

    open spec fn eq_spec(&self, other: &Self) -> bool {
        self.spec_id() == other.spec_id()
    }
}

/// The type of a selected enum variant: the enum descriptor plus which
/// variant a value carries, embedded in the value to tell variants apart.
#[derive(Debug, Clone)]
pub struct EnumValueType<T> {
    enum_type: EnumType<T>,
    variant_id: u8,
}

impl<T> EnumValueType<T> {
    /// The enum descriptor.
    pub closed spec fn spec_enum_type(&self) -> EnumType<T> {
        self.enum_type
    }

    /// Which variant the value carries.
    pub closed spec fn spec_variant_id(&self) -> u8 {
        self.variant_id
    }

    /// Builds a variant selection from the enum descriptor and variant id.
    pub fn new(enum_type: EnumType<T>, variant_id: u8) -> (r: Self)
        ensures
            r.spec_enum_type() == enum_type,
            r.spec_variant_id() == variant_id,
    {
        EnumValueType { enum_type, variant_id }
    }

    /// The unique identifier of the enum.
    pub fn id(&self) -> (r: IdentifierType)
        ensures
            r == self.spec_enum_type().spec_id(),
    {
        self.enum_type.id()
    }

    /// The enum descriptor.
    pub fn enum_type(&self) -> (r: &EnumType<T>)
        ensures
            *r == self.spec_enum_type(),
    {
        &self.enum_type
    }

    /// Which variant the value carries.
    pub fn variant_id(&self) -> (r: u8)
        ensures
            r == self.spec_variant_id(),
    {
        self.variant_id
    }
}

/// Variant selections compare by the enum they select from and the variant
/// they carry.
impl<T> PartialEq for EnumValueType<T> {
    fn eq(&self, other: &Self) -> (r: bool)
    {
        self.enum_type.0.id == other.enum_type.0.id && self.variant_id == other.variant_id
    }
}

impl<T> vstd::std_specs::cmp::PartialEqSpecImpl for EnumValueType<T> {
    open spec fn obeys_eq_spec() -> bool {
        true
    }

    open spec fn eq_spec(&self, other: &Self) -> bool {
        self.spec_enum_type().spec_id() == other.spec_enum_type().spec_id()
            && self.spec_variant_id() == other.spec_variant_id()
    }
}

} // verus!
