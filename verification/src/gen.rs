//! Rendering the gathered flag declarations as source text: per flag a
//! getter, an exclusivity check and a setter inside one `impl` block, plus
//! the selected `Debug` implementation.

use vstd::prelude::*;

use crate::parse::{parse_impl, spec_parse_impl};
use crate::syntax::{
    opt_str_view, res_view, DebugMode, Error, ErrorV, Flag, FlagImpl, FlagImplV, FlagV, Input,
    InputV, Member, MemberV,
};
use crate::text::{append_escaped, append_str, dec_string, spec_dec, spec_escape};

verus! {

/// The documentation line of one generated method: the flag's own text, when
/// there is one, stands above the fixed template.
pub open spec fn doc_body(doc: Option<Seq<char>>, template: Seq<char>) -> Seq<char> {
    match doc {
        Some(d) => d + "\n\n"@ + template,
        None => template,
    }
}

/// A documentation attribute holding `text`, escaped for a quoted literal.
pub open spec fn doc_attr(text: Seq<char>) -> Seq<char> {
    "#[doc = \""@ + spec_escape(text) + "\"]\n"@
}

/// How the backing field is written after `self.`.
pub open spec fn member_text(m: MemberV) -> Seq<char> {
    match m {
        MemberV::Named(s) => s,
        MemberV::Unnamed(i) => spec_dec(i),
    }
}

/// The generated getter: true when every bit of the flag's value is set.
pub open spec fn getter_text(f: FlagV, b: Seq<char>) -> Seq<char> {
    doc_attr(doc_body(f.doc, "Gets the value for the flag."@)) + "pub fn "@ + f.spec_method_name()
        + "(&self) -> bool {\n    self."@ + b + " & ("@ + f.value + ") == ("@ + f.value
        + ")\n}\n"@
}

/// The generated exclusivity check: true when no bit outside the flag's
/// value is set.
pub open spec fn only_text(f: FlagV, b: Seq<char>) -> Seq<char> {
    doc_attr(doc_body(f.doc, "Checks if this flag is the only one set."@)) + "pub fn only_"@
        + f.spec_method_name() + "(&self) -> bool {\n    self."@ + b + " | ("@ + f.value
        + ") == ("@ + f.value + ")\n}\n"@
}

/// The generated setter: switches the flag's bits on or off.
pub open spec fn setter_text(f: FlagV, b: Seq<char>) -> Seq<char> {
    doc_attr(doc_body(f.doc, "Sets the flag to the given value."@)) + "pub fn set_"@
        + f.spec_method_name()
        + "(&mut self, value: bool) -> &Self {\n    if value {\n        self."@ + b + " |= ("@
        + f.value + ");\n    } else {\n        self."@ + b + " &= !("@ + f.value
        + ");\n    }\n    self\n}\n"@
}

/// The three methods generated for one flag, in order.
pub open spec fn flag_methods_text(f: FlagV, b: Seq<char>) -> Seq<char> {
    getter_text(f, b) + only_text(f, b) + setter_text(f, b)
}

/// The methods generated for all flags, in declaration order.
pub open spec fn methods_text(flags: Seq<FlagV>, b: Seq<char>) -> Seq<char>
    decreases flags.len(),
{
    if flags.len() == 0 {
        Seq::empty()
    } else {
        methods_text(flags.drop_last(), b) + flag_methods_text(flags.last(), b)
    }
}

/// The `impl` block holding the accessor methods.
pub open spec fn main_impl_text(fi: FlagImplV) -> Seq<char> {
    "impl "@ + fi.struct_name + " {\n"@ + methods_text(
        fi.flags,
        member_text(fi.backing_field_name),
    ) + "}\n"@
}

/// One field entry of the field-listing debug form.
pub open spec fn std_fragment_text(f: FlagV) -> Seq<char> {
    ".field(\""@ + f.spec_method_name() + "\", &self."@ + f.spec_method_name() + "())"@
}

pub open spec fn std_fragments_text(flags: Seq<FlagV>) -> Seq<char>
    decreases flags.len(),
{
    if flags.len() == 0 {
        Seq::empty()
    } else {
        std_fragments_text(flags.drop_last()) + std_fragment_text(flags.last())
    }
}

/// One conditional entry of the compact debug form.
pub open spec fn compact_fragment_text(f: FlagV) -> Seq<char> {
    "        if self."@ + f.spec_method_name() + "() {\n            dbg.entry(&\""@ + spec_escape(
        f.name,
    ) + "\");\n        }\n"@
}

pub open spec fn compact_fragments_text(flags: Seq<FlagV>) -> Seq<char>
    decreases flags.len(),
{
    if flags.len() == 0 {
        Seq::empty()
    } else {
        compact_fragments_text(flags.drop_last()) + compact_fragment_text(flags.last())
    }
}

/// The generated `Debug` implementation, if one was selected.
pub open spec fn debug_impl_text(fi: FlagImplV) -> Seq<char> {
    match fi.debug_mode {
        DebugMode::Off => Seq::empty(),
        DebugMode::Standard => "impl core::fmt::Debug for "@ + fi.struct_name
            + " {\n    fn fmt(&self, f: &mut core::fmt::Formatter<'_>) -> core::fmt::Result {\n        f.debug_struct(\""@
            + fi.struct_name + "\")"@ + std_fragments_text(fi.flags) + ".finish()\n    }\n}\n"@,
        DebugMode::Compact => "impl core::fmt::Debug for "@ + fi.struct_name
            + " {\n    fn fmt(&self, f: &mut core::fmt::Formatter<'_>) -> core::fmt::Result {\n        write!(f, \""@
            + fi.struct_name + " \")?;\n        let mut dbg = f.debug_set();\n"@
            + compact_fragments_text(fi.flags) + "        dbg.finish()\n    }\n}\n"@,
    }
}

/// Everything the derive emits for one gathered input.
pub open spec fn gen_code(fi: FlagImplV) -> Seq<char> {
    match fi.debug_mode {
        DebugMode::Off => main_impl_text(fi),
        _ => main_impl_text(fi) + "\n"@ + debug_impl_text(fi),
    }
}

fn push_member(out: &mut String, m: &Member)
    ensures
        final(out)@ == old(out)@ + member_text(m@),
{
    match m {
        Member::Named(s) => append_str(out, s.as_str()),
        Member::Unnamed(i) => {
            let d = dec_string(*i);
            append_str(out, d.as_str());
        },
    }
}

fn push_doc_attr(out: &mut String, doc: &Option<String>, template: &str)
    ensures
        final(out)@ == old(out)@ + doc_attr(doc_body(opt_str_view(*doc), template@)),
{
    let mut t = String::new();
    match doc {
        Some(d) => {
            append_str(&mut t, d.as_str());
            append_str(&mut t, "\n\n");
            append_str(&mut t, template);
        },
        None => {
            append_str(&mut t, template);
        },
    }
    proof {
        assert(t@ =~= doc_body(opt_str_view(*doc), template@));
    }
    append_str(out, "#[doc = \"");
    append_escaped(out, t.as_str());
    append_str(out, "\"]\n");
    proof {
        assert(out@ =~= old(out)@ + doc_attr(doc_body(opt_str_view(*doc), template@)));
    }
}

fn push_getter(out: &mut String, flag: &Flag, b: &Member)
    ensures
        final(out)@ == old(out)@ + getter_text(flag@, member_text(b@)),
{
    push_doc_attr(out, &flag.doc, "Gets the value for the flag.");
    append_str(out, "pub fn ");
    let m = flag.method_name();
    append_str(out, m.as_str());
    append_str(out, "(&self) -> bool {\n    self.");
    push_member(out, b);
    append_str(out, " & (");
    append_str(out, flag.value.as_str());
    append_str(out, ") == (");
    append_str(out, flag.value.as_str());
    append_str(out, ")\n}\n");
    proof {
        assert(out@ =~= old(out)@ + getter_text(flag@, member_text(b@)));
    }
}

fn push_only(out: &mut String, flag: &Flag, b: &Member)
    ensures
        final(out)@ == old(out)@ + only_text(flag@, member_text(b@)),
{
    push_doc_attr(out, &flag.doc, "Checks if this flag is the only one set.");
    append_str(out, "pub fn only_");
    let m = flag.method_name();
    append_str(out, m.as_str());
    append_str(out, "(&self) -> bool {\n    self.");
    push_member(out, b);
    append_str(out, " | (");
    append_str(out, flag.value.as_str());
    append_str(out, ") == (");
    append_str(out, flag.value.as_str());
    append_str(out, ")\n}\n");
    proof {
        assert(out@ =~= old(out)@ + only_text(flag@, member_text(b@)));
    }
}

fn push_setter(out: &mut String, flag: &Flag, b: &Member)
    ensures
        final(out)@ == old(out)@ + setter_text(flag@, member_text(b@)),
{
    push_doc_attr(out, &flag.doc, "Sets the flag to the given value.");
    append_str(out, "pub fn set_");
    let m = flag.method_name();
    append_str(out, m.as_str());
    append_str(out, "(&mut self, value: bool) -> &Self {\n    if value {\n        self.");
    push_member(out, b);
    append_str(out, " |= (");
    append_str(out, flag.value.as_str());
    append_str(out, ");\n    } else {\n        self.");
    push_member(out, b);
    append_str(out, " &= !(");
    append_str(out, flag.value.as_str());
    append_str(out, ");\n    }\n    self\n}\n");
    proof {
        assert(out@ =~= old(out)@ + setter_text(flag@, member_text(b@)));
    }
}

fn push_flag_methods(out: &mut String, flag: &Flag, b: &Member)
    ensures
        final(out)@ == old(out)@ + flag_methods_text(flag@, member_text(b@)),
{
    push_getter(out, flag, b);
    push_only(out, flag, b);
    push_setter(out, flag, b);
    proof {
        assert(out@ =~= old(out)@ + flag_methods_text(flag@, member_text(b@)));
    }
}

#[verifier::loop_isolation(false)]
fn push_methods(out: &mut String, flags: &Vec<Flag>, b: &Member)
    ensures
        final(out)@ == old(out)@ + methods_text(
            flags@.map_values(|f: Flag| f@),
            member_text(b@),
        ),
{
    let ghost flagsv = flags@.map_values(|f: Flag| f@);
    let mut i: usize = 0;
    proof {
        assert(flagsv.take(0) =~= Seq::<FlagV>::empty());
        assert(out@ + methods_text(flagsv.take(0), member_text(b@)) =~= out@);
    }
    while i < flags.len()
        invariant
            i <= flags.len(),
            out@ == old(out)@ + methods_text(flagsv.take(i as int), member_text(b@)),
        decreases flags.len() - i,
    {
        push_flag_methods(out, &flags[i], b);
        proof {
            assert(flagsv.take(i + 1).drop_last() =~= flagsv.take(i as int));
            assert(flagsv.take(i + 1).last() == flags@[i as int]@);
            assert(out@ =~= old(out)@ + methods_text(flagsv.take(i + 1), member_text(b@)));
        }
        i += 1;
    }
    proof {
        assert(flagsv.take(flags@.len() as int) =~= flagsv);
    }
}

fn push_std_fragment(out: &mut String, flag: &Flag)
    ensures
        final(out)@ == old(out)@ + std_fragment_text(flag@),
{
    append_str(out, ".field(\"");
    let m = flag.method_name();
    append_str(out, m.as_str());
    append_str(out, "\", &self.");
    append_str(out, m.as_str());
    append_str(out, "())");
    proof {
        assert(out@ =~= old(out)@ + std_fragment_text(flag@));
    }
}

#[verifier::loop_isolation(false)]
fn push_std_fragments(out: &mut String, flags: &Vec<Flag>)
    ensures
        final(out)@ == old(out)@ + std_fragments_text(flags@.map_values(|f: Flag| f@)),
{
    let ghost flagsv = flags@.map_values(|f: Flag| f@);
    let mut i: usize = 0;
    proof {
        assert(flagsv.take(0) =~= Seq::<FlagV>::empty());
        assert(out@ + std_fragments_text(flagsv.take(0)) =~= out@);
    }
    while i < flags.len()
        invariant
            i <= flags.len(),
            out@ == old(out)@ + std_fragments_text(flagsv.take(i as int)),
        decreases flags.len() - i,
    {
        push_std_fragment(out, &flags[i]);
        proof {
            assert(flagsv.take(i + 1).drop_last() =~= flagsv.take(i as int));
            assert(flagsv.take(i + 1).last() == flags@[i as int]@);
            assert(out@ =~= old(out)@ + std_fragments_text(flagsv.take(i + 1)));
        }
        i += 1;
    }
    proof {
        assert(flagsv.take(flags@.len() as int) =~= flagsv);
    }
}

fn push_compact_fragment(out: &mut String, flag: &Flag)
    ensures
        final(out)@ == old(out)@ + compact_fragment_text(flag@),
{
    append_str(out, "        if self.");
    let m = flag.method_name();
    append_str(out, m.as_str());
    append_str(out, "() {\n            dbg.entry(&\"");
    append_escaped(out, flag.name.as_str());
    append_str(out, "\");\n        }\n");
    proof {
        assert(out@ =~= old(out)@ + compact_fragment_text(flag@));
    }
}

#[verifier::loop_isolation(false)]
fn push_compact_fragments(out: &mut String, flags: &Vec<Flag>)
    ensures
        final(out)@ == old(out)@ + compact_fragments_text(flags@.map_values(|f: Flag| f@)),
{
    let ghost flagsv = flags@.map_values(|f: Flag| f@);
    let mut i: usize = 0;
    proof {
        assert(flagsv.take(0) =~= Seq::<FlagV>::empty());
        assert(out@ + compact_fragments_text(flagsv.take(0)) =~= out@);
    }
    while i < flags.len()
        invariant
            i <= flags.len(),
            out@ == old(out)@ + compact_fragments_text(flagsv.take(i as int)),
        decreases flags.len() - i,
    {
        push_compact_fragment(out, &flags[i]);
        proof {
            assert(flagsv.take(i + 1).drop_last() =~= flagsv.take(i as int));
            assert(flagsv.take(i + 1).last() == flags@[i as int]@);
            assert(out@ =~= old(out)@ + compact_fragments_text(flagsv.take(i + 1)));
        }
        i += 1;
    }
    proof {
        assert(flagsv.take(flags@.len() as int) =~= flagsv);
    }
}

/// Renders the whole output for one gathered input.
#[verifier::rlimit(100)]
pub fn generate(fi: &FlagImpl) -> (r: String)
    ensures
        r@ == gen_code(fi@),
{
    let mut out = String::new();
    append_str(&mut out, "impl ");
    append_str(&mut out, fi.struct_name.as_str());
    append_str(&mut out, " {\n");
    push_methods(&mut out, &fi.flags, &fi.backing_field_name);
    append_str(&mut out, "}\n");
    proof {
        assert(out@ =~= main_impl_text(fi@));
    }
    match fi.debug_mode {
        DebugMode::Off => {},
        DebugMode::Standard => {
            append_str(&mut out, "\n");
            append_str(&mut out, "impl core::fmt::Debug for ");
            append_str(&mut out, fi.struct_name.as_str());
            append_str(
                &mut out,
                " {\n    fn fmt(&self, f: &mut core::fmt::Formatter<'_>) -> core::fmt::Result {\n        f.debug_struct(\"",
            );
            append_str(&mut out, fi.struct_name.as_str());
            append_str(&mut out, "\")");
            push_std_fragments(&mut out, &fi.flags);
            append_str(&mut out, ".finish()\n    }\n}\n");
            proof {
                assert(out@ =~= main_impl_text(fi@) + "\n"@ + debug_impl_text(fi@));
            }
        },
        DebugMode::Compact => {
            append_str(&mut out, "\n");
            append_str(&mut out, "impl core::fmt::Debug for ");
            append_str(&mut out, fi.struct_name.as_str());
            append_str(
                &mut out,
                " {\n    fn fmt(&self, f: &mut core::fmt::Formatter<'_>) -> core::fmt::Result {\n        write!(f, \"",
            );
            append_str(&mut out, fi.struct_name.as_str());
            append_str(&mut out, " \")?;\n        let mut dbg = f.debug_set();\n");
            push_compact_fragments(&mut out, &fi.flags);
            append_str(&mut out, "        dbg.finish()\n    }\n}\n");
            proof {
                assert(out@ =~= main_impl_text(fi@) + "\n"@ + debug_impl_text(fi@));
            }
        },
    }
    out
}

/// What the whole derive yields for one input: the generated source text,
/// or the first rejection.
pub open spec fn spec_derive_flags(inp: InputV) -> Result<Seq<char>, ErrorV> {
    match spec_parse_impl(inp) {
        Ok(fi) => Ok(gen_code(fi)),
        Err(e) => Err(e),
    }
}

/// Reads the annotated struct and renders the accessor methods and the
/// selected `Debug` implementation for it.
pub fn derive_flags(input: &Input) -> (r: Result<String, Error>)
    ensures
        res_view(r) == spec_derive_flags(input@),
{
    match parse_impl(input) {
        Ok(fi) => Ok(generate(&fi)),
        Err(e) => Err(e),
    }
}

} // verus!
