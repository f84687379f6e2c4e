use flag_mast::bits::{flag_assign, flag_only};
use flag_mast::gen::derive_flags;
use flag_mast::parse::{get_backing_field, get_value, parse_flag};
use flag_mast::syntax::{
    Attr, AttrMeta, Data, Error, Field, Fields, Flag, Input, Lit, Member, MetaItem,
};

fn s(x: &str) -> String {
    x.to_string()
}

fn str_lit(v: &str) -> Lit {
    Lit::StrLit(s(v))
}

fn int_lit(v: &str) -> Lit {
    Lit::IntLit(s(v))
}

fn kv(k: &str, l: Lit) -> MetaItem {
    MetaItem::KeyValue(Some(s(k)), l)
}

fn flag_attr(items: Vec<MetaItem>) -> Attr {
    Attr { name: Some(s("flag")), meta: AttrMeta::ListMeta(items) }
}

fn backing_field(name: &str, ty: &str) -> Field {
    Field { name: s(name), ty: s(ty), attrs: vec![Some(s("flag_backing_field"))] }
}

fn one_backing_struct(name: &str) -> Input {
    Input {
        name: s(name),
        attrs: vec![],
        data: Data::StructData(Fields::Unnamed(vec![backing_field("", "u8")])),
    }
}

#[test]
fn string_values_go_through_the_expression_parser() {
    // A well-formed expression is parenthesised and cast.
    assert_eq!(
        get_value(&str_lit("BLUE | RED"), "u16"),
        Ok(s("(BLUE | RED) as u16"))
    );
    // A string that is no expression is rejected, so the parser's answer,
    // not the argument itself, decides the outcome.
    assert_eq!(get_value(&str_lit("1 +"), "u16"), Err(Error::InvalidExpr));
    assert_eq!(get_value(&str_lit(""), "u16"), Err(Error::InvalidExpr));
    // An integer literal is cast as it stands.
    assert_eq!(get_value(&int_lit("0x10"), "u32"), Ok(s("0x10 as u32")));
    // Any other literal is rejected.
    assert_eq!(get_value(&Lit::OtherLit, "u32"), Err(Error::BadValue));
}

#[test]
fn unknown_option_is_rejected() {
    let meta = AttrMeta::ListMeta(vec![
        kv("name", str_lit("X")),
        kv("colour", str_lit("blue")),
        kv("value", int_lit("1")),
    ]);
    let r = parse_flag(&meta, "u8");
    assert_eq!(r, Err(Error::UnknownOption(s("colour"))));
    assert_eq!(
        Error::UnknownOption(s("colour")).message(),
        "Unknown configuration option \"colour\". Expected one of [name, value, method_name, doc]"
    );
}

#[test]
fn missing_name_or_value_is_rejected() {
    let no_value = AttrMeta::ListMeta(vec![kv("name", str_lit("X"))]);
    assert_eq!(parse_flag(&no_value, "u8"), Err(Error::MissingNameOrValue));
    let no_name = AttrMeta::ListMeta(vec![kv("value", int_lit("1"))]);
    assert_eq!(parse_flag(&no_name, "u8"), Err(Error::MissingNameOrValue));
    // A bare `#[flag]` has no argument list at all.
    assert_eq!(parse_flag(&AttrMeta::PathMeta, "u8"), Err(Error::MissingNameOrValue));
}

#[test]
fn non_string_arguments_are_rejected() {
    let bad_name = AttrMeta::ListMeta(vec![kv("name", int_lit("3")), kv("value", int_lit("1"))]);
    assert_eq!(parse_flag(&bad_name, "u8"), Err(Error::BadName));
    let bad_method =
        AttrMeta::ListMeta(vec![kv("name", str_lit("X")), kv("method_name", Lit::OtherLit)]);
    assert_eq!(parse_flag(&bad_method, "u8"), Err(Error::BadMethodName));
    let bad_doc = AttrMeta::ListMeta(vec![kv("doc", int_lit("7"))]);
    assert_eq!(parse_flag(&bad_doc, "u8"), Err(Error::BadDoc));
}

#[test]
fn later_arguments_win() {
    let meta = AttrMeta::ListMeta(vec![
        kv("name", str_lit("FIRST")),
        kv("value", int_lit("1")),
        kv("name", str_lit("SECOND")),
        kv("value", int_lit("2")),
    ]);
    let flag = parse_flag(&meta, "u8").expect("both required arguments are present");
    assert_eq!(flag.name, "SECOND");
    assert_eq!(flag.value, "2 as u8");
}

#[test]
fn arguments_that_are_not_pairs_are_passed_over() {
    let meta = AttrMeta::ListMeta(vec![
        MetaItem::Word(Some(s("loose"))),
        MetaItem::LitArg(int_lit("9")),
        MetaItem::KeyValue(None, int_lit("9")),
        MetaItem::Sublist(Some(s("nested"))),
        kv("name", str_lit("X")),
        kv("value", int_lit("1")),
    ]);
    let flag = parse_flag(&meta, "u8").expect("the pairs are enough");
    assert_eq!(flag.name, "X");
}

#[test]
fn method_name_falls_back_to_the_flag_name() {
    let named = Flag { name: s("OBEDIENT"), value: s("4 as u8"), method_name: Some(s("is_obedient")), doc: None };
    assert_eq!(named.method_name(), "is_obedient");
    let bare = Flag { name: s("sits"), value: s("2 as u8"), method_name: None, doc: None };
    assert_eq!(bare.method_name(), "sits");
}

#[test]
fn exactly_one_backing_field_is_required() {
    let none = Input {
        name: s("NoBacking"),
        attrs: vec![],
        data: Data::StructData(Fields::Named(vec![Field {
            name: s("x"),
            ty: s("u8"),
            attrs: vec![],
        }])),
    };
    assert_eq!(get_backing_field(&none), Err(Error::BackingFieldCount));

    let two = Input {
        name: s("TwoBacking"),
        attrs: vec![],
        data: Data::StructData(Fields::Unnamed(vec![
            backing_field("", "u8"),
            backing_field("", "u16"),
        ])),
    };
    assert_eq!(get_backing_field(&two), Err(Error::BackingFieldCount));

    let unit = Input { name: s("Unit"), attrs: vec![], data: Data::StructData(Fields::Unit) };
    assert_eq!(get_backing_field(&unit), Err(Error::BackingFieldCount));

    let named = Input {
        name: s("Colour"),
        attrs: vec![],
        data: Data::StructData(Fields::Named(vec![
            Field { name: s("is_useful"), ty: s("bool"), attrs: vec![] },
            backing_field("flags", "u16"),
        ])),
    };
    assert_eq!(
        get_backing_field(&named),
        Ok((Member::Named(s("flags")), s("u16")))
    );
}

#[test]
fn the_derive_must_sit_on_a_struct() {
    let not_a_struct = Input { name: s("Choice"), attrs: vec![], data: Data::NotStruct };
    assert_eq!(derive_flags(&not_a_struct), Err(Error::NotAStruct));
    assert_eq!(Error::NotAStruct.message(), "Must be a struct");
}

#[test]
fn debug_attribute_grammar() {
    // `#[flag_debug(compact)]` selects the compact form.
    let compact = Input {
        name: s("A"),
        attrs: vec![
            Attr {
                name: Some(s("flag_debug")),
                meta: AttrMeta::ListMeta(vec![MetaItem::Word(Some(s("compact")))]),
            },
            flag_attr(vec![kv("name", str_lit("x")), kv("value", int_lit("1"))]),
        ],
        data: Data::StructData(Fields::Unnamed(vec![backing_field("", "u8")])),
    };
    let code = derive_flags(&compact).expect("compact is a valid option");
    assert!(code.contains("dbg.entry(&\"x\");"));

    // Any other word is rejected.
    let mut wrong = one_backing_struct("B");
    wrong.attrs.push(Attr {
        name: Some(s("flag_debug")),
        meta: AttrMeta::ListMeta(vec![MetaItem::Word(Some(s("verbose")))]),
    });
    assert_eq!(derive_flags(&wrong), Err(Error::BadDebugOption));
    assert_eq!(Error::BadDebugOption.message(), "Bad option for flag_meta attribute");

    // Two arguments are rejected even when the first is `compact`.
    let mut doubled = one_backing_struct("C");
    doubled.attrs.push(Attr {
        name: Some(s("flag_debug")),
        meta: AttrMeta::ListMeta(vec![
            MetaItem::Word(Some(s("compact"))),
            MetaItem::Word(Some(s("compact"))),
        ]),
    });
    assert_eq!(derive_flags(&doubled), Err(Error::BadDebugOption));

    // A leading literal argument falls back to the field-listing form.
    let mut lit_first = one_backing_struct("D");
    lit_first.attrs.push(Attr {
        name: Some(s("flag_debug")),
        meta: AttrMeta::ListMeta(vec![MetaItem::LitArg(str_lit("x"))]),
    });
    let code = derive_flags(&lit_first).expect("a literal argument is passed over");
    assert!(code.contains("f.debug_struct(\"D\")"));

    // `#[flag_debug = ...]` and unparseable arguments are rejected.
    let mut named_value = one_backing_struct("E");
    named_value.attrs.push(Attr { name: Some(s("flag_debug")), meta: AttrMeta::NameValueMeta });
    assert_eq!(derive_flags(&named_value), Err(Error::BadAttrArgs));

    let mut unparsed = one_backing_struct("F");
    unparsed.attrs.push(Attr { name: Some(s("flag")), meta: AttrMeta::Unparsed });
    assert_eq!(derive_flags(&unparsed), Err(Error::BadAttrArgs));
    assert_eq!(Error::BadAttrArgs.message(), "Bad attribute arguments");

    // The last debug selection wins.
    let mut twice = one_backing_struct("G");
    twice.attrs.push(Attr {
        name: Some(s("flag_debug")),
        meta: AttrMeta::ListMeta(vec![MetaItem::Word(Some(s("compact")))]),
    });
    twice.attrs.push(Attr { name: Some(s("flag_debug")), meta: AttrMeta::PathMeta });
    let code = derive_flags(&twice).expect("both selections are valid");
    assert!(code.contains("f.debug_struct(\"G\")"));
    assert!(!code.contains("debug_set"));
}

#[test]
fn remaining_messages_match_the_diagnostics() {
    assert_eq!(Error::BadValue.message(), "Bad value, must be an integer literal or string.");
    assert_eq!(Error::InvalidExpr.message(), "String must contain a valid expression");
    assert_eq!(Error::BadName.message(), "Bad name");
    assert_eq!(Error::BadMethodName.message(), "Bad method_name");
    assert_eq!(Error::BadDoc.message(), "Bad doc attribute");
    assert_eq!(Error::MissingNameOrValue.message(), "Missing name or value argument for flag.");
    assert_eq!(
        Error::BackingFieldCount.message(),
        "Exactly one backing field must have the \"flag_backing_field\" attribute"
    );
}

#[test]
fn exclusivity_means_no_other_bit() {
    let only_one: u64 = flag_assign(0, 0x4, true);
    assert!(flag_only(only_one, 0x4)); // buttons.only_one() with just that flag
    let two_set: u64 = flag_assign(only_one, 0x8, true);
    assert!(!flag_only(two_set, 0x4));
    let cleared: u64 = flag_assign(two_set, 0x4, false);
    assert!(!flag_only(cleared, 0x4));
    assert!(flag_only(cleared, 0x8));
}
