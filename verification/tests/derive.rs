use flag_mast::bits::{flag_assign, flag_get};
use flag_mast::gen::derive_flags;
use flag_mast::syntax::{Attr, AttrMeta, Data, Field, Fields, Input, Lit, MetaItem};

fn s(x: &str) -> String {
    x.to_string()
}

fn str_lit(v: &str) -> Lit {
    Lit::StrLit(s(v))
}

fn int_lit(v: &str) -> Lit {
    Lit::IntLit(s(v))
}

fn kv(k: &str, l: Lit) -> MetaItem {
    MetaItem::KeyValue(Some(s(k)), l)
}

fn flag_attr(items: Vec<MetaItem>) -> Attr {
    Attr { name: Some(s("flag")), meta: AttrMeta::ListMeta(items) }
}

fn backing_field(name: &str, ty: &str) -> Field {
    Field { name: s(name), ty: s(ty), attrs: vec![Some(s("flag_backing_field"))] }
}

#[test]
fn it_works() {
    let dog = Input {
        name: s("Dog"),
        attrs: vec![
            Attr { name: Some(s("flag_debug")), meta: AttrMeta::ListMeta(vec![]) },
            flag_attr(vec![
                kv("name", str_lit("BARKS")),
                kv("method_name", str_lit("can_bark")),
                kv("doc", str_lit("is a borky boi")),
                kv("value", int_lit("0x1")),
            ]),
            flag_attr(vec![kv("name", str_lit("sits")), kv("value", int_lit("0x2"))]),
            flag_attr(vec![
                kv("name", str_lit("OBEDIENT")),
                kv("method_name", str_lit("is_obedient")),
                kv("value", int_lit("0x4")),
            ]),
        ],
        data: Data::StructData(Fields::Unnamed(vec![backing_field("", "u32")])),
    };
    let code = derive_flags(&dog).expect("the dog struct is well-formed");

    assert!(code.contains("impl Dog {"));
    assert!(code.contains("pub fn can_bark(&self) -> bool"));
    assert!(code.contains("self.0 & (0x1 as u32) == (0x1 as u32)"));
    assert!(code.contains("pub fn set_can_bark(&mut self, value: bool) -> &Self"));
    assert!(code.contains("pub fn sits(&self) -> bool"));
    assert!(code.contains("pub fn only_is_obedient(&self) -> bool"));
    assert!(code.contains("#[doc = \"is a borky boi\\n\\nGets the value for the flag.\"]"));
    assert!(code.contains(".field(\"can_bark\", &self.can_bark())"));
    assert!(code.contains(".field(\"is_obedient\", &self.is_obedient())"));

    // The generated methods compute the bit tests below; replay the scenario.
    let mut dog_bits: u64 = 0;
    dog_bits = flag_assign(dog_bits, 0x1, true); // dog.set_can_bark(true)
    dog_bits = flag_assign(dog_bits, 0x2, true); // dog.set_sits(true)
    assert!(flag_get(dog_bits, 0x1) == true); // dog.can_bark()
}

#[test]
fn it_works_two() {
    let colour = Input {
        name: s("Colour"),
        attrs: vec![
            Attr { name: Some(s("flag_debug")), meta: AttrMeta::PathMeta },
            flag_attr(vec![kv("name", str_lit("blue")), kv("value", str_lit("BLUE"))]),
            flag_attr(vec![kv("name", str_lit("red")), kv("value", str_lit("RED"))]),
            flag_attr(vec![
                kv("name", str_lit("yellow")),
                kv("value", str_lit("secondary_colours::YELLOW")),
            ]),
            flag_attr(vec![kv("name", str_lit("purple")), kv("value", str_lit("BLUE | RED"))]),
            flag_attr(vec![kv("name", str_lit("black")), kv("value", int_lit("16"))]),
            Attr {
                name: Some(s("repr")),
                meta: AttrMeta::ListMeta(vec![MetaItem::Word(Some(s("C")))]),
            },
        ],
        data: Data::StructData(Fields::Named(vec![
            Field { name: s("is_useful"), ty: s("bool"), attrs: vec![] },
            backing_field("flags", "u16"),
        ])),
    };
    let code = derive_flags(&colour).expect("the colour struct is well-formed");

    assert!(code.contains("impl Colour {"));
    assert!(code.contains("pub fn purple(&self) -> bool"));
    assert!(code.contains("self.flags & ((BLUE | RED) as u16) == ((BLUE | RED) as u16)"));
    assert!(code.contains("self.flags |= ((secondary_colours::YELLOW) as u16);"));
    assert!(code.contains("self.flags & (16 as u16) == (16 as u16)"));
    assert!(code.contains(".field(\"black\", &self.black())"));
    assert!(code.contains("impl core::fmt::Debug for Colour {"));

    // With BLUE = 0x1 and RED = 0x2, setting blue and red turns purple on.
    let blue: u64 = 0x1;
    let red: u64 = 0x2;
    let mut colour_bits: u64 = 0;
    colour_bits = flag_assign(colour_bits, blue, true); // colour.set_blue(true)
    colour_bits = flag_assign(colour_bits, red, true); // colour.set_red(true)
    assert!(flag_get(colour_bits, blue | red)); // colour.purple()
}

#[test]
fn it_works_three() {
    let buttons = Input {
        name: s("Buttons"),
        attrs: vec![
            Attr {
                name: Some(s("flag_debug")),
                meta: AttrMeta::ListMeta(vec![MetaItem::Word(Some(s("compact")))]),
            },
            flag_attr(vec![kv("name", str_lit("one")), kv("value", int_lit("4"))]),
            flag_attr(vec![
                kv("name", str_lit("second")),
                kv("method_name", str_lit("two")),
                kv("value", int_lit("8")),
            ]),
            flag_attr(vec![kv("name", str_lit("three")), kv("value", int_lit("16"))]),
        ],
        data: Data::StructData(Fields::Unnamed(vec![backing_field("", "u16")])),
    };
    let code = derive_flags(&buttons).expect("the buttons struct is well-formed");

    let mut expected = String::new();
    expected.push_str("impl Buttons {\n");
    for (method, value) in [("one", "4"), ("two", "8"), ("three", "16")] {
        expected.push_str(&format!(
            "#[doc = \"Gets the value for the flag.\"]\npub fn {m}(&self) -> bool {{\n    self.0 & ({v} as u16) == ({v} as u16)\n}}\n",
            m = method,
            v = value
        ));
        expected.push_str(&format!(
            "#[doc = \"Checks if this flag is the only one set.\"]\npub fn only_{m}(&self) -> bool {{\n    self.0 | ({v} as u16) == ({v} as u16)\n}}\n",
            m = method,
            v = value
        ));
        expected.push_str(&format!(
            "#[doc = \"Sets the flag to the given value.\"]\npub fn set_{m}(&mut self, value: bool) -> &Self {{\n    if value {{\n        self.0 |= ({v} as u16);\n    }} else {{\n        self.0 &= !({v} as u16);\n    }}\n    self\n}}\n",
            m = method,
            v = value
        ));
    }
    expected.push_str("}\n\n");
    expected.push_str("impl core::fmt::Debug for Buttons {\n");
    expected.push_str(
        "    fn fmt(&self, f: &mut core::fmt::Formatter<'_>) -> core::fmt::Result {\n",
    );
    expected.push_str("        write!(f, \"Buttons \")?;\n");
    expected.push_str("        let mut dbg = f.debug_set();\n");
    for (name, method) in [("one", "one"), ("second", "two"), ("three", "three")] {
        expected.push_str(&format!(
            "        if self.{m}() {{\n            dbg.entry(&\"{n}\");\n        }}\n",
            m = method,
            n = name
        ));
    }
    expected.push_str("        dbg.finish()\n    }\n}\n");
    assert_eq!(code, expected);

    // The compact debug listing walks the getters; replay the scenario.
    let mut buttons_bits: u64 = 0;
    buttons_bits = flag_assign(buttons_bits, 4, true); // buttons.set_one(true)
    buttons_bits = flag_assign(buttons_bits, 16, true); // buttons.set_three(true)
    assert!(flag_get(buttons_bits, 4));
    assert!(!flag_get(buttons_bits, 8));
    assert!(flag_get(buttons_bits, 16));
}

#[test]
fn tuple_index_past_zero_is_rendered() {
    let wrapped = Input {
        name: s("Wrapped"),
        attrs: vec![flag_attr(vec![kv("name", str_lit("on")), kv("value", int_lit("1"))])],
        data: Data::StructData(Fields::Unnamed(vec![
            Field { name: s(""), ty: s("bool"), attrs: vec![] },
            backing_field("", "u8"),
        ])),
    };
    let code = derive_flags(&wrapped).expect("the wrapped struct is well-formed");
    assert!(code.contains("self.1 & (1 as u8) == (1 as u8)"));
    assert!(code.contains("self.1 |= (1 as u8);"));
    // No debug attribute, so no debug implementation.
    assert!(!code.contains("core::fmt::Debug"));
}

#[test]
fn doc_text_is_escaped() {
    let noisy = Input {
        name: s("Noisy"),
        attrs: vec![flag_attr(vec![
            kv("name", str_lit("loud\"flag")),
            kv("doc", str_lit("says \"hi\"\nback\\slash")),
            kv("value", int_lit("1")),
        ])],
        data: Data::StructData(Fields::Unnamed(vec![backing_field("", "u8")])),
    };
    let code = derive_flags(&noisy).expect("the noisy struct is well-formed");
    assert!(code.contains(
        "#[doc = \"says \\\"hi\\\"\\nback\\\\slash\\n\\nGets the value for the flag.\"]"
    ));
}

#[test]
fn compact_debug_escapes_flag_names() {
    let odd = Input {
        name: s("Odd"),
        attrs: vec![
            Attr {
                name: Some(s("flag_debug")),
                meta: AttrMeta::ListMeta(vec![MetaItem::Word(Some(s("compact")))]),
            },
            flag_attr(vec![
                kv("name", str_lit("a \"quoted\" name")),
                kv("method_name", str_lit("quoted")),
                kv("value", int_lit("2")),
            ]),
        ],
        data: Data::StructData(Fields::Unnamed(vec![backing_field("", "u8")])),
    };
    let code = derive_flags(&odd).expect("the odd struct is well-formed");
    assert!(code.contains("dbg.entry(&\"a \\\"quoted\\\" name\");"));
}
