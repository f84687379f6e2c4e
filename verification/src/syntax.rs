//! The model of the annotated struct that the generator works on: literals,
//! attribute arguments, fields, flag declarations and the errors that
//! validation can raise.
//!
//! Each executable type has a ghost mirror (its `View`) over `Seq<char>`,
//! which the contracts speak of.

use vstd::prelude::*;

verus! {

/// A literal argument of an attribute: an integer (kept as its token text),
/// a string (kept as its value), or anything else.
#[derive(Debug, PartialEq, Eq)]
pub enum Lit {
    IntLit(String),
    StrLit(String),
    OtherLit,
}

pub enum LitV {
    IntLit(Seq<char>),
    StrLit(Seq<char>),
    OtherLit,
}

impl View for Lit {
    type V = LitV;

    open spec fn view(&self) -> LitV {
        match self {
            Lit::IntLit(s) => LitV::IntLit(s@),
            Lit::StrLit(s) => LitV::StrLit(s@),
            Lit::OtherLit => LitV::OtherLit,
        }
    }
}

/// One argument inside an attribute's parenthesised list. A path-like
/// argument carries its identifier when the path is a single plain segment,
/// and nothing otherwise.
#[derive(Debug, PartialEq, Eq)]
pub enum MetaItem {
    /// A bare path, as in `compact`.
    Word(Option<String>),
    /// A `key = literal` pair, as in `name = "BARKS"`.
    KeyValue(Option<String>, Lit),
    /// A nested parenthesised list; its contents are never read at this depth.
    Sublist(Option<String>),
    /// A bare literal argument.
    LitArg(Lit),
}

pub enum MetaItemV {
    Word(Option<Seq<char>>),
    KeyValue(Option<Seq<char>>, LitV),
    Sublist(Option<Seq<char>>),
    LitArg(LitV),
}

pub open spec fn opt_str_view(o: Option<String>) -> Option<Seq<char>> {
    match o {
        Some(s) => Some(s@),
        None => None,
    }
}

impl View for MetaItem {
    type V = MetaItemV;

    open spec fn view(&self) -> MetaItemV {
        match self {
            MetaItem::Word(id) => MetaItemV::Word(opt_str_view(*id)),
            MetaItem::KeyValue(id, l) => MetaItemV::KeyValue(opt_str_view(*id), l@),
            MetaItem::Sublist(id) => MetaItemV::Sublist(opt_str_view(*id)),
            MetaItem::LitArg(l) => MetaItemV::LitArg(l@),
        }
    }
}

/// The parsed shape of one attribute's arguments.
#[derive(Debug, PartialEq, Eq)]
pub enum AttrMeta {
    /// A bare attribute with no arguments, as in `#[flag_debug]`.
    PathMeta,
    /// A parenthesised argument list, as in `#[flag(name = "x", value = 1)]`.
    ListMeta(Vec<MetaItem>),
    /// A `#[key = value]` attribute.
    NameValueMeta,
    /// Arguments that did not parse as any of the above.
    Unparsed,
}

pub enum AttrMetaV {
    PathMeta,
    ListMeta(Seq<MetaItemV>),
    NameValueMeta,
    Unparsed,
}

impl View for AttrMeta {
    type V = AttrMetaV;

    open spec fn view(&self) -> AttrMetaV {
        match self {
            AttrMeta::PathMeta => AttrMetaV::PathMeta,
            AttrMeta::ListMeta(items) => AttrMetaV::ListMeta(
                items@.map_values(|m: MetaItem| m@),
            ),
            AttrMeta::NameValueMeta => AttrMetaV::NameValueMeta,
            AttrMeta::Unparsed => AttrMetaV::Unparsed,
        }
    }
}

/// One attribute on the struct: its path's identifier (when the path is a
/// single plain segment) and the shape of its arguments.
#[derive(Debug, PartialEq, Eq)]
pub struct Attr {
    pub name: Option<String>,
    pub meta: AttrMeta,
}

pub struct AttrV {
    pub name: Option<Seq<char>>,
    pub meta: AttrMetaV,
}

impl View for Attr {
    type V = AttrV;

    open spec fn view(&self) -> AttrV {
        AttrV { name: opt_str_view(self.name), meta: self.meta@ }
    }
}

/// One field of the struct: its name (empty for a tuple field), the token
/// text of its type, and the identifiers of its attributes.
#[derive(Debug, PartialEq, Eq)]
pub struct Field {
    pub name: String,
    pub ty: String,
    pub attrs: Vec<Option<String>>,
}

pub struct FieldV {
    pub name: Seq<char>,
    pub ty: Seq<char>,
    pub attrs: Seq<Option<Seq<char>>>,
}

impl View for Field {
    type V = FieldV;

    open spec fn view(&self) -> FieldV {
        FieldV {
            name: self.name@,
            ty: self.ty@,
            attrs: self.attrs@.map_values(|a: Option<String>| opt_str_view(a)),
        }
    }
}

/// The fields of the struct, as named, tuple-positional, or absent.
#[derive(Debug, PartialEq, Eq)]
pub enum Fields {
    Named(Vec<Field>),
    Unnamed(Vec<Field>),
    Unit,
}

pub enum FieldsV {
    Named(Seq<FieldV>),
    Unnamed(Seq<FieldV>),
    Unit,
}

impl View for Fields {
    type V = FieldsV;

    open spec fn view(&self) -> FieldsV {
        match self {
            Fields::Named(fs) => FieldsV::Named(fs@.map_values(|f: Field| f@)),
            Fields::Unnamed(fs) => FieldsV::Unnamed(fs@.map_values(|f: Field| f@)),
            Fields::Unit => FieldsV::Unit,
        }
    }
}

/// What kind of item the derive was placed on.
#[derive(Debug, PartialEq, Eq)]
pub enum Data {
    StructData(Fields),
    NotStruct,
}

pub enum DataV {
    StructData(FieldsV),
    NotStruct,
}

impl View for Data {
    type V = DataV;

    open spec fn view(&self) -> DataV {
        match self {
            Data::StructData(fs) => DataV::StructData(fs@),
            Data::NotStruct => DataV::NotStruct,
        }
    }
}

/// The whole annotated item: its name, its attributes and its fields.
#[derive(Debug, PartialEq, Eq)]
pub struct Input {
    pub name: String,
    pub attrs: Vec<Attr>,
    pub data: Data,
}

pub struct InputV {
    pub name: Seq<char>,
    pub attrs: Seq<AttrV>,
    pub data: DataV,
}

impl View for Input {
    type V = InputV;

    open spec fn view(&self) -> InputV {
        InputV {
            name: self.name@,
            attrs: self.attrs@.map_values(|a: Attr| a@),
            data: self.data@,
        }
    }
}

/// How the backing field is reached from `self` in the generated code.
#[derive(Debug, PartialEq, Eq)]
pub enum Member {
    Named(String),
    Unnamed(usize),
}

pub enum MemberV {
    Named(Seq<char>),
    Unnamed(nat),
}

impl View for Member {
    type V = MemberV;

    open spec fn view(&self) -> MemberV {
        match self {
            Member::Named(s) => MemberV::Named(s@),
            Member::Unnamed(i) => MemberV::Unnamed(*i as nat),
        }
    }
}

/// One declared flag: its display name, the rendered expression for its bit
/// value, an optional accessor name and an optional documentation line.
#[derive(Debug, PartialEq, Eq)]
pub struct Flag {
    pub name: String,
    pub value: String,
    pub method_name: Option<String>,
    pub doc: Option<String>,
}

pub struct FlagV {
    pub name: Seq<char>,
    pub value: Seq<char>,
    pub method_name: Option<Seq<char>>,
    pub doc: Option<Seq<char>>,
}

impl View for Flag {
    type V = FlagV;

    open spec fn view(&self) -> FlagV {
        FlagV {
            name: self.name@,
            value: self.value@,
            method_name: opt_str_view(self.method_name),
            doc: opt_str_view(self.doc),
        }
    }
}

impl FlagV {
    /// The name the accessor methods are generated under: the explicit
    /// accessor name when one was given, the flag's own name otherwise.
    pub open spec fn spec_method_name(self) -> Seq<char> {
        match self.method_name {
            Some(m) => m,
            None => self.name,
        }
    }
}

impl Flag {
    /// The name the accessor methods are generated under.
    pub fn method_name(&self) -> (r: String)
        ensures
            r@ == self@.spec_method_name(),
    {
        match &self.method_name {
            Some(m) => m.clone(),
            None => self.name.clone(),
        }
    }
}

/// The selected debug formatting: none, a field per flag, or a compact set
/// of the names of the flags that are on.
#[derive(Debug, Clone, Copy, PartialEq, Eq, Structural)]
pub enum DebugMode {
    Off,
    Standard,
    Compact,
}

/// Everything the generator needs: the struct's name, how to reach the
/// backing field, the declared flags, and the debug formatting choice.
#[derive(Debug, PartialEq, Eq)]
pub struct FlagImpl {
    pub struct_name: String,
    pub backing_field_name: Member,
    pub flags: Vec<Flag>,
    pub debug_mode: DebugMode,
}

pub struct FlagImplV {
    pub struct_name: Seq<char>,
    pub backing_field_name: MemberV,
    pub flags: Seq<FlagV>,
    pub debug_mode: DebugMode,
}

impl View for FlagImpl {
    type V = FlagImplV;

    open spec fn view(&self) -> FlagImplV {
        FlagImplV {
            struct_name: self.struct_name@,
            backing_field_name: self.backing_field_name@,
            flags: self.flags@.map_values(|f: Flag| f@),
            debug_mode: self.debug_mode,
        }
    }
}

/// Everything that makes the derive reject its input.
#[derive(Debug, PartialEq, Eq)]
pub enum Error {
    /// A flag value that is neither an integer literal nor a string.
    BadValue,
    /// A string flag value that does not parse as an expression.
    InvalidExpr,
    /// A flag name that is not a string literal.
    BadName,
    /// An accessor name that is not a string literal.
    BadMethodName,
    /// A documentation argument that is not a string literal.
    BadDoc,
    /// A configuration key other than name, value, method_name or doc.
    UnknownOption(String),
    /// A flag declaration without a name or without a value.
    MissingNameOrValue,
    /// The derive was placed on an enum or a union.
    NotAStruct,
    /// Zero, or more than one, field carries the backing-field attribute.
    BackingFieldCount,
    /// Attribute arguments that do not parse, or have the wrong shape.
    BadAttrArgs,
    /// An argument to the debug attribute other than a single `compact`.
    BadDebugOption,
}

pub enum ErrorV {
    BadValue,
    InvalidExpr,
    BadName,
    BadMethodName,
    BadDoc,
    UnknownOption(Seq<char>),
    MissingNameOrValue,
    NotAStruct,
    BackingFieldCount,
    BadAttrArgs,
    BadDebugOption,
}

impl View for Error {
    type V = ErrorV;

    open spec fn view(&self) -> ErrorV {
        match self {
            Error::BadValue => ErrorV::BadValue,
            Error::InvalidExpr => ErrorV::InvalidExpr,
            Error::BadName => ErrorV::BadName,
            Error::BadMethodName => ErrorV::BadMethodName,
            Error::BadDoc => ErrorV::BadDoc,
            Error::UnknownOption(k) => ErrorV::UnknownOption(k@),
            Error::MissingNameOrValue => ErrorV::MissingNameOrValue,
            Error::NotAStruct => ErrorV::NotAStruct,
            Error::BackingFieldCount => ErrorV::BackingFieldCount,
            Error::BadAttrArgs => ErrorV::BadAttrArgs,
            Error::BadDebugOption => ErrorV::BadDebugOption,
        }
    }
}

/// The diagnostic text for each rejection.
pub open spec fn spec_message(e: ErrorV) -> Seq<char> {
    match e {
        ErrorV::BadValue => "Bad value, must be an integer literal or string."@,
        ErrorV::InvalidExpr => "String must contain a valid expression"@,
        ErrorV::BadName => "Bad name"@,
        ErrorV::BadMethodName => "Bad method_name"@,
        ErrorV::BadDoc => "Bad doc attribute"@,
        ErrorV::UnknownOption(k) => "Unknown configuration option \""@ + k
            + "\". Expected one of [name, value, method_name, doc]"@,
        ErrorV::MissingNameOrValue => "Missing name or value argument for flag."@,
        ErrorV::NotAStruct => "Must be a struct"@,
        ErrorV::BackingFieldCount =>
            "Exactly one backing field must have the \"flag_backing_field\" attribute"@,
        ErrorV::BadAttrArgs => "Bad attribute arguments"@,
        ErrorV::BadDebugOption => "Bad option for flag_meta attribute"@,
    }
}

impl Error {
    /// The diagnostic text shown for this rejection.
    pub fn message(&self) -> (r: String)
        ensures
            r@ == spec_message(self@),
    {
        match self {
            Error::BadValue => "Bad value, must be an integer literal or string.".to_owned(),
            Error::InvalidExpr => "String must contain a valid expression".to_owned(),
            Error::BadName => "Bad name".to_owned(),
            Error::BadMethodName => "Bad method_name".to_owned(),
            Error::BadDoc => "Bad doc attribute".to_owned(),
            Error::UnknownOption(k) => {
                let mut r = "Unknown configuration option \"".to_owned();
                crate::text::append_str(&mut r, k.as_str());
                crate::text::append_str(
                    &mut r,
                    "\". Expected one of [name, value, method_name, doc]",
                );
                r
            },
            Error::MissingNameOrValue => "Missing name or value argument for flag.".to_owned(),
            Error::NotAStruct => "Must be a struct".to_owned(),
            Error::BackingFieldCount =>
                "Exactly one backing field must have the \"flag_backing_field\" attribute"
                .to_owned(),
            Error::BadAttrArgs => "Bad attribute arguments".to_owned(),
            Error::BadDebugOption => "Bad option for flag_meta attribute".to_owned(),
        }
    }
}

/// The view of a parse result, with both payload and error taken to their
/// ghost mirrors.
pub open spec fn res_view<T: View>(r: Result<T, Error>) -> Result<T::V, ErrorV> {
    match r {
        Ok(t) => Ok(t@),
        Err(e) => Err(e@),
    }
}

} // verus!
