//! Reading the flag declarations off the annotated struct: the literal
//! readers, the per-flag argument loop, the backing-field search and the
//! walk over the struct's attributes.
//!
//! Every function returns exactly what the ghost fold over its input's view
//! says: the first offending argument decides the error, later duplicate
//! keys win over earlier ones, and a flag needs both a name and a value.

use vstd::prelude::*;

use crate::expr::{expr_parses, is_valid_expr};
use crate::syntax::{
    res_view, opt_str_view, Attr, AttrMeta, AttrMetaV, AttrV, Data, DataV, DebugMode, Error,
    ErrorV, Field, FieldV, Fields, FieldsV, Flag, FlagImpl, FlagImplV, FlagV, Input, InputV, Lit,
    LitV, Member, MemberV, MetaItem, MetaItemV,
};
use crate::text::str_eq;

verus! {

/// What the `name` argument yields: the string's value, or a rejection.
pub open spec fn spec_get_name(l: LitV) -> Result<Seq<char>, ErrorV> {
    match l {
        LitV::StrLit(s) => Ok(s),
        _ => Err(ErrorV::BadName),
    }
}

/// Reads a flag's display name; only a string literal is accepted.
pub fn get_name(lit: &Lit) -> (r: Result<String, Error>)
    ensures
        res_view(r) == spec_get_name(lit@),
{
    match lit {
        Lit::StrLit(s) => Ok(s.clone()),
        _ => Err(Error::BadName),
    }
}

/// What the `method_name` argument yields.
pub open spec fn spec_get_method_name(l: LitV) -> Result<Seq<char>, ErrorV> {
    match l {
        LitV::StrLit(s) => Ok(s),
        _ => Err(ErrorV::BadMethodName),
    }
}

/// Reads a flag's accessor name; only a string literal is accepted.
pub fn get_method_name(lit: &Lit) -> (r: Result<String, Error>)
    ensures
        res_view(r) == spec_get_method_name(lit@),
{
    match lit {
        Lit::StrLit(s) => Ok(s.clone()),
        _ => Err(Error::BadMethodName),
    }
}

/// What the `doc` argument yields.
pub open spec fn spec_get_doc(l: LitV) -> Result<Seq<char>, ErrorV> {
    match l {
        LitV::StrLit(s) => Ok(s),
        _ => Err(ErrorV::BadDoc),
    }
}

/// Reads a flag's documentation line; only a string literal is accepted.
pub fn get_doc(lit: &Lit) -> (r: Result<String, Error>)
    ensures
        res_view(r) == spec_get_doc(lit@),
{
    match lit {
        Lit::StrLit(s) => Ok(s.clone()),
        _ => Err(Error::BadDoc),
    }
}

/// What the `value` argument yields: an integer literal is cast to the
/// backing type as it stands, a string must hold a well-formed expression
/// and is parenthesised before the cast, and anything else is rejected.
pub open spec fn spec_get_value(l: LitV, ty: Seq<char>) -> Result<Seq<char>, ErrorV> {
    match l {
        LitV::IntLit(tok) => Ok(tok + " as "@ + ty),
        LitV::StrLit(s) => if is_valid_expr(s) {
            Ok("("@ + s + ") as "@ + ty)
        } else {
            Err(ErrorV::InvalidExpr)
        },
        LitV::OtherLit => Err(ErrorV::BadValue),
    }
}

/// Renders a flag's bit value as an expression of the backing type.
pub fn get_value(lit: &Lit, value_type: &str) -> (r: Result<String, Error>)
    ensures
        res_view(r) == spec_get_value(lit@, value_type@),
{
    match lit {
        Lit::IntLit(tok) => {
            let mut v = tok.clone();
            crate::text::append_str(&mut v, " as ");
            crate::text::append_str(&mut v, value_type);
            Ok(v)
        },
        Lit::StrLit(s) => {
            if expr_parses(s.as_str()) {
                let mut v = "(".to_owned();
                crate::text::append_str(&mut v, s.as_str());
                crate::text::append_str(&mut v, ") as ");
                crate::text::append_str(&mut v, value_type);
                Ok(v)
            } else {
                Err(Error::InvalidExpr)
            }
        },
        Lit::OtherLit => Err(Error::BadValue),
    }
}

/// The partially gathered arguments of one flag declaration.
pub struct FlagAcc {
    pub name: Option<Seq<char>>,
    pub value: Option<Seq<char>>,
    pub method_name: Option<Seq<char>>,
    pub doc: Option<Seq<char>>,
}

pub open spec fn empty_acc() -> FlagAcc {
    FlagAcc { name: None, value: None, method_name: None, doc: None }
}

pub open spec fn acc_of(
    name: Option<String>,
    value: Option<String>,
    method_name: Option<String>,
    doc: Option<String>,
) -> FlagAcc {
    FlagAcc {
        name: opt_str_view(name),
        value: opt_str_view(value),
        method_name: opt_str_view(method_name),
        doc: opt_str_view(doc),
    }
}

/// How one argument of a flag declaration changes the gathered state: a
/// known key stores its value (a later occurrence wins), an unknown key is
/// rejected, and anything that is not a plain `key = literal` pair is
/// passed over.
pub open spec fn flag_arg_step(item: MetaItemV, ty: Seq<char>, acc: FlagAcc) -> Result<
    FlagAcc,
    ErrorV,
> {
    match item {
        MetaItemV::KeyValue(Some(k), l) => {
            if k == "name"@ {
                match spec_get_name(l) {
                    Ok(s) => Ok(
                        FlagAcc {
                            name: Some(s),
                            value: acc.value,
                            method_name: acc.method_name,
                            doc: acc.doc,
                        },
                    ),
                    Err(e) => Err(e),
                }
            } else if k == "value"@ {
                match spec_get_value(l, ty) {
                    Ok(s) => Ok(
                        FlagAcc {
                            name: acc.name,
                            value: Some(s),
                            method_name: acc.method_name,
                            doc: acc.doc,
                        },
                    ),
                    Err(e) => Err(e),
                }
            } else if k == "method_name"@ {
                match spec_get_method_name(l) {
                    Ok(s) => Ok(
                        FlagAcc {
                            name: acc.name,
                            value: acc.value,
                            method_name: Some(s),
                            doc: acc.doc,
                        },
                    ),
                    Err(e) => Err(e),
                }
            } else if k == "doc"@ {
                match spec_get_doc(l) {
                    Ok(s) => Ok(
                        FlagAcc {
                            name: acc.name,
                            value: acc.value,
                            method_name: acc.method_name,
                            doc: Some(s),
                        },
                    ),
                    Err(e) => Err(e),
                }
            } else {
                Err(ErrorV::UnknownOption(k))
            }
        },
        _ => Ok(acc),
    }
}

/// The argument loop of one flag declaration, from the front.
pub open spec fn flag_args(items: Seq<MetaItemV>, ty: Seq<char>, acc: FlagAcc) -> Result<
    FlagAcc,
    ErrorV,
>
    decreases items.len(),
{
    if items.len() == 0 {
        Ok(acc)
    } else {
        match flag_arg_step(items[0], ty, acc) {
            Ok(a) => flag_args(items.drop_first(), ty, a),
            Err(e) => Err(e),
        }
    }
}

/// A gathered flag is complete only with both a name and a value.
pub open spec fn finish_flag(r: Result<FlagAcc, ErrorV>) -> Result<FlagV, ErrorV> {
    match r {
        Ok(acc) => match (acc.name, acc.value) {
            (Some(n), Some(v)) => Ok(
                FlagV { name: n, value: v, method_name: acc.method_name, doc: acc.doc },
            ),
            _ => Err(ErrorV::MissingNameOrValue),
        },
        Err(e) => Err(e),
    }
}

/// What one `flag` attribute yields: only a parenthesised argument list can
/// declare a flag.
pub open spec fn spec_parse_flag(m: AttrMetaV, ty: Seq<char>) -> Result<FlagV, ErrorV> {
    match m {
        AttrMetaV::ListMeta(items) => finish_flag(flag_args(items, ty, empty_acc())),
        _ => Err(ErrorV::MissingNameOrValue),
    }
}

/// Reads one flag declaration out of a `flag` attribute's arguments.
#[verifier::loop_isolation(false)]
pub fn parse_flag(meta: &AttrMeta, value_type: &str) -> (r: Result<Flag, Error>)
    ensures
        res_view(r) == spec_parse_flag(meta@, value_type@),
{
    match meta {
        AttrMeta::ListMeta(items) => {
            let ghost itemsv = items@.map_values(|m: MetaItem| m@);
            proof {
                assert(meta@ == AttrMetaV::ListMeta(itemsv));
            }
            let mut name: Option<String> = None;
            let mut value: Option<String> = None;
            let mut method_name: Option<String> = None;
            let mut doc: Option<String> = None;
            let mut i: usize = 0;
            proof {
                assert(itemsv.skip(0) =~= itemsv);
            }
            while i < items.len()
                invariant
                    i <= items.len(),
                    itemsv == items@.map_values(|m: MetaItem| m@),
                    flag_args(itemsv, value_type@, empty_acc()) == flag_args(
                        itemsv.skip(i as int),
                        value_type@,
                        acc_of(name, value, method_name, doc),
                    ),
                decreases items.len() - i,
            {
                proof {
                    assert(itemsv.skip(i as int).drop_first() =~= itemsv.skip(i as int + 1));
                    assert(itemsv.skip(i as int)[0] == itemsv[i as int]);
                    assert(flag_args(
                        itemsv.skip(i as int),
                        value_type@,
                        acc_of(name, value, method_name, doc),
                    ) == (match flag_arg_step(
                        itemsv[i as int],
                        value_type@,
                        acc_of(name, value, method_name, doc),
                    ) {
                        Ok(a) => flag_args(itemsv.skip(i as int + 1), value_type@, a),
                        Err(e) => Err(e),
                    }));
                }
                let item = &items[i];
                proof {
                    assert(itemsv[i as int] == item@);
                }
                match item {
                    MetaItem::KeyValue(opt_k, l) => match opt_k {
                        Some(k) => {
                            if str_eq(k.as_str(), "name") {
                                match get_name(l) {
                                    Ok(s) => { name = Some(s); },
                                    Err(e) => { return Err(e); },
                                }
                            } else if str_eq(k.as_str(), "value") {
                                match get_value(l, value_type) {
                                    Ok(s) => { value = Some(s); },
                                    Err(e) => { return Err(e); },
                                }
                            } else if str_eq(k.as_str(), "method_name") {
                                match get_method_name(l) {
                                    Ok(s) => { method_name = Some(s); },
                                    Err(e) => { return Err(e); },
                                }
                            } else if str_eq(k.as_str(), "doc") {
                                match get_doc(l) {
                                    Ok(s) => { doc = Some(s); },
                                    Err(e) => { return Err(e); },
                                }
                            } else {
                                return Err(Error::UnknownOption(k.clone()));
                            }
                        },
                        None => {},
                    },
                    _ => {},
                }
                i += 1;
            }
            proof {
                assert(itemsv.skip(items@.len() as int) =~= Seq::<MetaItemV>::empty());
            }
            match (name, value) {
                (Some(n), Some(v)) => Ok(Flag { name: n, value: v, method_name, doc }),
                _ => Err(Error::MissingNameOrValue),
            }
        },
        _ => Err(Error::MissingNameOrValue),
    }
}

/// Whether a field carries the attribute that marks the backing field.
pub open spec fn is_backing(f: FieldV) -> bool {
    exists|j: int| 0 <= j < f.attrs.len() && f.attrs[j] == Some("flag_backing_field"@)
}

fn field_is_backing(f: &Field) -> (r: bool)
    ensures
        r == is_backing(f@),
{
    let mut i: usize = 0;
    while i < f.attrs.len()
        invariant
            i <= f.attrs.len(),
            forall|j: int| 0 <= j < i ==> f@.attrs[j] != Some("flag_backing_field"@),
        decreases f.attrs.len() - i,
    {
        match &f.attrs[i] {
            Some(a) => {
                if str_eq(a.as_str(), "flag_backing_field") {
                    assert(f@.attrs[i as int] == Some("flag_backing_field"@));
                    return true;
                }
            },
            None => {},
        }
        i += 1;
    }
    false
}

/// How many fields carry the backing-field attribute.
pub open spec fn backing_count(fs: Seq<FieldV>) -> nat
    decreases fs.len(),
{
    if fs.len() == 0 {
        0
    } else {
        (if is_backing(fs[0]) {
            1nat
        } else {
            0nat
        }) + backing_count(fs.drop_first())
    }
}

/// The position of the first field that carries the backing-field attribute
/// (the sequence's length when there is none).
pub open spec fn first_backing(fs: Seq<FieldV>) -> int
    decreases fs.len(),
{
    if fs.len() == 0 {
        0
    } else if is_backing(fs[0]) {
        0
    } else {
        1 + first_backing(fs.drop_first())
    }
}

fn scan_backing(fs: &Vec<Field>) -> (r: (usize, usize))
    ensures
        r.0 as nat == backing_count(fs@.map_values(|f: Field| f@)),
        r.0 > 0 ==> r.1 as int == first_backing(fs@.map_values(|f: Field| f@)) && r.1 < fs.len(),
{
    let ghost fsv = fs@.map_values(|f: Field| f@);
    let mut i: usize = 0;
    let mut count: usize = 0;
    let mut first: usize = 0;
    proof {
        assert(fsv.skip(0) =~= fsv);
    }
    while i < fs.len()
        invariant
            i <= fs.len(),
            count <= i,
            fsv == fs@.map_values(|f: Field| f@),
            backing_count(fsv) == count + backing_count(fsv.skip(i as int)),
            count == 0 ==> first_backing(fsv) == i + first_backing(fsv.skip(i as int)),
            count > 0 ==> first as int == first_backing(fsv) && first < i && is_backing(
                fsv[first as int],
            ),
        decreases fs.len() - i,
    {
        proof {
            assert(fsv.skip(i as int).drop_first() =~= fsv.skip(i as int + 1));
            assert(fsv.skip(i as int)[0] == fsv[i as int]);
        }
        let b = field_is_backing(&fs[i]);
        proof {
            assert(fsv[i as int] == fs@[i as int]@);
        }
        if b {
            if count == 0 {
                first = i;
            }
            count = count + 1;
        }
        i += 1;
    }
    proof {
        assert(fsv.skip(fs@.len() as int) =~= Seq::<FieldV>::empty());
    }
    (count, first)
}

/// The fields of the struct as one sequence, whatever their shape.
pub open spec fn fields_seq(fs: FieldsV) -> Seq<FieldV> {
    match fs {
        FieldsV::Named(s) => s,
        FieldsV::Unnamed(s) => s,
        FieldsV::Unit => Seq::empty(),
    }
}

/// How the backing field at position `i` is reached from `self`.
pub open spec fn member_at(fs: FieldsV, i: int) -> MemberV {
    match fs {
        FieldsV::Named(s) => MemberV::Named(s[i].name),
        FieldsV::Unnamed(_) => MemberV::Unnamed(i as nat),
        FieldsV::Unit => MemberV::Unnamed(i as nat),
    }
}

/// The backing field of the struct: the derive must sit on a struct, and
/// exactly one field must carry the backing-field attribute. The result is
/// how that field is reached and the token text of its type.
pub open spec fn spec_get_backing_field(inp: InputV) -> Result<(MemberV, Seq<char>), ErrorV> {
    match inp.data {
        DataV::StructData(fields) => {
            let fs = fields_seq(fields);
            if backing_count(fs) == 1 {
                Ok((member_at(fields, first_backing(fs)), fs[first_backing(fs)].ty))
            } else {
                Err(ErrorV::BackingFieldCount)
            }
        },
        DataV::NotStruct => Err(ErrorV::NotAStruct),
    }
}

proof fn lemma_first_backing_in_range(fs: Seq<FieldV>)
    requires
        backing_count(fs) > 0,
    ensures
        0 <= first_backing(fs) < fs.len(),
        is_backing(fs[first_backing(fs)]),
    decreases fs.len(),
{
    if fs.len() > 0 && !is_backing(fs[0]) {
        lemma_first_backing_in_range(fs.drop_first());
        assert(fs.drop_first()[first_backing(fs.drop_first())] == fs[1 + first_backing(
            fs.drop_first(),
        )]);
    }
}

/// Finds the single backing field, or says why there is none.
pub fn get_backing_field(input: &Input) -> (r: Result<(Member, String), Error>)
    ensures
        match r {
            Ok(p) => spec_get_backing_field(input@) == Ok::<(MemberV, Seq<char>), ErrorV>(
                (p.0@, p.1@),
            ),
            Err(e) => spec_get_backing_field(input@) == Err::<(MemberV, Seq<char>), ErrorV>(e@),
        },
{
    match &input.data {
        Data::StructData(fields) => match fields {
            Fields::Named(fs) => {
                let (count, first) = scan_backing(fs);
                if count == 1 {
                    let member = Member::Named(fs[first].name.clone());
                    let ty = fs[first].ty.clone();
                    Ok((member, ty))
                } else {
                    Err(Error::BackingFieldCount)
                }
            },
            Fields::Unnamed(fs) => {
                let (count, first) = scan_backing(fs);
                if count == 1 {
                    let ty = fs[first].ty.clone();
                    Ok((Member::Unnamed(first), ty))
                } else {
                    Err(Error::BackingFieldCount)
                }
            },
            Fields::Unit => Err(Error::BackingFieldCount),
        },
        Data::NotStruct => Err(Error::NotAStruct),
    }
}

/// Whether one argument of the debug attribute is path-like (rather than a
/// bare literal), and its identifier when it has one.
pub open spec fn meta_item_ident(it: MetaItemV) -> Option<Seq<char>> {
    match it {
        MetaItemV::Word(id) => id,
        MetaItemV::KeyValue(id, _) => id,
        MetaItemV::Sublist(id) => id,
        MetaItemV::LitArg(_) => None,
    }
}

pub open spec fn item_is_pathlike(it: MetaItemV) -> bool {
    !(it matches MetaItemV::LitArg(_))
}

/// What the `flag_debug` attribute selects: bare, or with an empty list, or
/// with a leading literal argument, the field-listing mode; with the single
/// word `compact`, the compact mode; any other path-like argument is
/// rejected, and so is an attribute that does not parse as a list.
pub open spec fn spec_debug_mode(m: AttrMetaV) -> Result<DebugMode, ErrorV> {
    match m {
        AttrMetaV::PathMeta => Ok(DebugMode::Standard),
        AttrMetaV::ListMeta(items) => {
            if items.len() > 0 && item_is_pathlike(items[0]) {
                if items.len() == 1 && meta_item_ident(items[0]) == Some("compact"@) {
                    Ok(DebugMode::Compact)
                } else {
                    Err(ErrorV::BadDebugOption)
                }
            } else {
                Ok(DebugMode::Standard)
            }
        },
        _ => Err(ErrorV::BadAttrArgs),
    }
}

fn debug_mode_of(meta: &AttrMeta) -> (r: Result<DebugMode, Error>)
    ensures
        match r {
            Ok(d) => spec_debug_mode(meta@) == Ok::<DebugMode, ErrorV>(d),
            Err(e) => spec_debug_mode(meta@) == Err::<DebugMode, ErrorV>(e@),
        },
{
    match meta {
        AttrMeta::PathMeta => Ok(DebugMode::Standard),
        AttrMeta::ListMeta(items) => {
            let ghost itemsv = items@.map_values(|m: MetaItem| m@);
            if items.len() > 0 {
                proof {
                    assert(itemsv[0] == items@[0]@);
                }
                match &items[0] {
                    MetaItem::LitArg(_) => Ok(DebugMode::Standard),
                    item => {
                        let compact = match item {
                            MetaItem::Word(Some(id)) => str_eq(id.as_str(), "compact"),
                            MetaItem::KeyValue(Some(id), _) => str_eq(id.as_str(), "compact"),
                            MetaItem::Sublist(Some(id)) => str_eq(id.as_str(), "compact"),
                            _ => false,
                        };
                        if items.len() == 1 && compact {
                            Ok(DebugMode::Compact)
                        } else {
                            Err(Error::BadDebugOption)
                        }
                    },
                }
            } else {
                Ok(DebugMode::Standard)
            }
        },
        AttrMeta::NameValueMeta => Err(Error::BadAttrArgs),
        AttrMeta::Unparsed => Err(Error::BadAttrArgs),
    }
}

/// The state gathered while walking the struct's attributes.
pub struct ImplAcc {
    pub flags: Seq<FlagV>,
    pub debug_mode: DebugMode,
}

/// How one attribute changes the gathered state: a `flag` attribute must
/// parse and declares one more flag, a `flag_debug` attribute selects the
/// debug mode (the last one wins), anything else is passed over.
pub open spec fn attr_step(a: AttrV, ty: Seq<char>, acc: ImplAcc) -> Result<ImplAcc, ErrorV> {
    match a.name {
        Some(n) => {
            if n == "flag"@ {
                match a.meta {
                    AttrMetaV::Unparsed => Err(ErrorV::BadAttrArgs),
                    m => match spec_parse_flag(m, ty) {
                        Ok(f) => Ok(ImplAcc { flags: acc.flags.push(f), debug_mode: acc.debug_mode }),
                        Err(e) => Err(e),
                    },
                }
            } else if n == "flag_debug"@ {
                match spec_debug_mode(a.meta) {
                    Ok(d) => Ok(ImplAcc { flags: acc.flags, debug_mode: d }),
                    Err(e) => Err(e),
                }
            } else {
                Ok(acc)
            }
        },
        None => Ok(acc),
    }
}

/// The walk over the struct's attributes, from the front.
pub open spec fn attrs_fold(attrs: Seq<AttrV>, ty: Seq<char>, acc: ImplAcc) -> Result<
    ImplAcc,
    ErrorV,
>
    decreases attrs.len(),
{
    if attrs.len() == 0 {
        Ok(acc)
    } else {
        match attr_step(attrs[0], ty, acc) {
            Ok(a) => attrs_fold(attrs.drop_first(), ty, a),
            Err(e) => Err(e),
        }
    }
}

/// What the whole derive input yields before generation: the backing field
/// is found first, then the attributes are read in order, starting with no
/// flags and no debug formatting.
pub open spec fn spec_parse_impl(inp: InputV) -> Result<FlagImplV, ErrorV> {
    match spec_get_backing_field(inp) {
        Ok(p) => match attrs_fold(
            inp.attrs,
            p.1,
            ImplAcc { flags: Seq::empty(), debug_mode: DebugMode::Off },
        ) {
            Ok(acc) => Ok(
                FlagImplV {
                    struct_name: inp.name,
                    backing_field_name: p.0,
                    flags: acc.flags,
                    debug_mode: acc.debug_mode,
                },
            ),
            Err(e) => Err(e),
        },
        Err(e) => Err(e),
    }
}

/// Reads the whole derive input into the generator's model.
#[verifier::loop_isolation(false)]
pub fn parse_impl(input: &Input) -> (r: Result<FlagImpl, Error>)
    ensures
        res_view(r) == spec_parse_impl(input@),
{
    let (member, ty) = match get_backing_field(input) {
        Ok(p) => p,
        Err(e) => { return Err(e); },
    };
    let ghost attrsv = input.attrs@.map_values(|a: Attr| a@);
    let mut flags: Vec<Flag> = Vec::new();
    let mut debug_mode = DebugMode::Off;
    let mut i: usize = 0;
    proof {
        assert(attrsv.skip(0) =~= attrsv);
        assert(flags@.map_values(|f: Flag| f@) =~= Seq::<FlagV>::empty());
    }
    while i < input.attrs.len()
        invariant
            i <= input.attrs.len(),
            attrsv == input.attrs@.map_values(|a: Attr| a@),
            attrs_fold(
                attrsv,
                ty@,
                ImplAcc { flags: Seq::empty(), debug_mode: DebugMode::Off },
            ) == attrs_fold(
                attrsv.skip(i as int),
                ty@,
                ImplAcc { flags: flags@.map_values(|f: Flag| f@), debug_mode },
            ),
        decreases input.attrs.len() - i,
    {
        proof {
            assert(attrsv.skip(i as int).drop_first() =~= attrsv.skip(i as int + 1));
            assert(attrsv.skip(i as int)[0] == attrsv[i as int]);
            assert(attrs_fold(
                attrsv.skip(i as int),
                ty@,
                ImplAcc { flags: flags@.map_values(|f: Flag| f@), debug_mode },
            ) == (match attr_step(
                attrsv[i as int],
                ty@,
                ImplAcc { flags: flags@.map_values(|f: Flag| f@), debug_mode },
            ) {
                Ok(a) => attrs_fold(attrsv.skip(i as int + 1), ty@, a),
                Err(e) => Err(e),
            }));
        }
        let attr = &input.attrs[i];
        proof {
            assert(attrsv[i as int] == attr@);
        }
        match &attr.name {
            Some(n) => {
                if str_eq(n.as_str(), "flag") {
                    match &attr.meta {
                        AttrMeta::Unparsed => { return Err(Error::BadAttrArgs); },
                        m => {
                            proof {
                                assert(m@ == attr@.meta);
                                assert(!(attr@.meta matches AttrMetaV::Unparsed));
                            }
                            match parse_flag(m, ty.as_str()) {
                                Ok(f) => {
                                    let ghost fv = f@;
                                    let ghost oldv = flags@.map_values(|g: Flag| g@);
                                    flags.push(f);
                                    proof {
                                        assert(flags@.map_values(|g: Flag| g@) =~= oldv.push(fv));
                                    }
                                },
                                Err(e) => { return Err(e); },
                            }
                        },
                    }
                } else if str_eq(n.as_str(), "flag_debug") {
                    match debug_mode_of(&attr.meta) {
                        Ok(d) => { debug_mode = d; },
                        Err(e) => { return Err(e); },
                    }
                }
            },
            None => {},
        }
        i += 1;
    }
    proof {
        assert(attrsv.skip(input.attrs@.len() as int) =~= Seq::<AttrV>::empty());
    }
    Ok(FlagImpl { struct_name: input.name.clone(), backing_field_name: member, flags, debug_mode })
}

} // verus!
