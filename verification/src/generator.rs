//! The artifact generator: a pure function from the operation table to the
//! four texts that callers, the kernel and the wrapper layer are built from.
//!
//! Each text is one pass over the table in declaration order, between a fixed
//! prologue and a fixed epilogue. A pass renders one template per entry, and a
//! template sees nothing but its entry, so the same table always gives the
//! same bytes and every entry stands at the same place in every text.

use crate::table::{
    name_valid, table_valid, EntryView, OperationEntry, OperationTable, Parameter, ParameterView,
};
use crate::text::{
    ascii_upper, concat, decimal, decimal_value, is_identifier_continue, join, lemma_concat_split,
    lemma_concat_step, lemma_decimal_injective, lemma_decimal_round_trip, lemma_join_step, lit,
    put, put_decimal, put_upper, str_equal,
};
use crate::types::lemma_spellings_are_distinct;
use vstd::prelude::*;
use vstd::utf8::*;

verus! {

/// Where the identifier listing is written.
pub const IDENTIFIER_LISTING_PATH: &'static str = "../include/kernel/syscall_numbers.h";

/// Where the caller prototypes are written.
pub const CALLER_PROTOTYPES_PATH: &'static str = "../include/kernel/user_syscalls.h";

/// Where the callee prototypes are written.
pub const CALLEE_PROTOTYPES_PATH: &'static str = "../include/kernel/do_functions.h";

/// Where the wrapper source is written.
pub const WRAPPER_SOURCE_PATH: &'static str = "src/generated_syscall_interface.rs";

/// What the identifier listing opens with.
pub const LISTING_PROLOGUE: &'static str = "#ifndef _SYSCALL_NUMBERS_H
#define _SYSCALL_NUMBERS_H

";

/// What the identifier listing and the caller prototypes close with.
pub const HEADER_EPILOGUE: &'static str = "
#endif
";

/// What the caller prototypes open with.
pub const CALLER_PROLOGUE: &'static str = "#ifndef _USER_SYSCALLS_H
#define _USER_SYSCALLS_H

#include <stddef.h>  // for size_t
#include \"kernel/syscall_numbers.h\"
// Note: _syscallN macros are now provided by Rust implementation
// C programs should link with Rust library to get syscall functions

";

/// What the callee prototypes open with. The prototypes are wrapped so that
/// both a C and a C++ implementation can satisfy them.
pub const CALLEE_PROLOGUE: &'static str = "#ifndef _DO_FUNCTIONS_H
#define _DO_FUNCTIONS_H

#include <stddef.h>

#ifdef __cplusplus
extern \"C\" {
#endif

";

/// What the callee prototypes close with.
pub const CALLEE_EPILOGUE: &'static str = "
#ifdef __cplusplus
}
#endif

#endif
";

/// What the wrapper source opens with, up to its constants.
pub const WRAPPER_PROLOGUE: &'static str = "// 系统调用统一接口 - 由build.rs自动生成
// 警告：请勿手动编辑此文件！所有修改应该在build.rs中进行
#[allow(dead_code)]

// 系统调用号常量（与C头文件保持一致）
";

/// What stands between the constants and the wrapper functions.
pub const WRAPPER_FUNCTIONS_HEADING: &'static str = "
// Rust用户态系统调用函数（与C函数同名）
";

/// What opens the block of callee declarations in the wrapper source.
pub const CALLEE_BLOCK_OPENING: &'static str = "// do_函数的extern声明（供内核调用，可以是C或Rust实现）
extern \"C\" {
";

/// What closes the block of callee declarations.
pub const CALLEE_BLOCK_CLOSING: &'static str = "}

";

/// The raw trampoline as the wrapper source carries it: the selector goes to
/// `a7`, the arguments to `a0`, `a1` and `a2` in order, one `ecall` is issued
/// and `a0` is read back.
pub const TRAMPOLINE_SOURCE: &'static str = "// 辅助函数：执行原始系统调用
fn syscall_raw<T>(nr: usize, args: &[usize]) -> T {
    let mut ret: isize;
    unsafe {
        match args.len() {
            0 => core::arch::asm!(
                \"ecall\",
                in(\"a7\") nr,
                lateout(\"a0\") ret,
                options(nostack)
            ),
            1 => core::arch::asm!(
                \"ecall\",
                in(\"a7\") nr,
                in(\"a0\") args[0],
                lateout(\"a0\") ret,
                options(nostack)
            ),
            2 => core::arch::asm!(
                \"ecall\",
                in(\"a7\") nr,
                in(\"a0\") args[0],
                in(\"a1\") args[1],
                lateout(\"a0\") ret,
                options(nostack)
            ),
            3 => core::arch::asm!(
                \"ecall\",
                in(\"a7\") nr,
                in(\"a0\") args[0],
                in(\"a1\") args[1],
                in(\"a2\") args[2],
                lateout(\"a0\") ret,
                options(nostack)
            ),
            _ => panic!(\"Too many arguments for syscall\"),
        }
        core::mem::transmute_copy(&ret)
    }
}

";

/// What the wrapper source closes with.
pub const WRAPPER_EPILOGUE: &'static str = "// 添加新系统调用只需要在build.rs的syscalls数组中增加一行即可！
";

/// What one pass renders for each entry.
#[derive(Clone, Copy, PartialEq, Eq, Debug, Structural)]
pub enum Template {
    /// The entry's constant in the identifier listing.
    Define,
    /// The entry's prototype for callers.
    CallerPrototype,
    /// The entry's prototype for the kernel's implementation.
    CalleePrototype,
    /// The entry's constant in the wrapper source.
    Constant,
    /// The entry's typed wrapper function.
    Wrapper,
    /// The entry's implementation as the wrapper source declares it.
    CalleeDeclaration,
}

/// The forms in which a parameter is written.
#[derive(Clone, Copy, PartialEq, Eq, Debug, Structural)]
pub enum ParameterForm {
    /// Type and name, as a C prototype declares a parameter.
    CDeclaration,
    /// Name and type, as the wrapper source declares a parameter.
    RustDeclaration,
    /// The parameter converted to a register-sized word.
    ArgumentWord,
}

/// A full-replacement text and the fixed place it is written to.
#[derive(Debug)]
pub struct GeneratedArtifact {
    pub destination: &'static str,
    pub text: Vec<u8>,
}

/// The four artifacts of one table.
#[derive(Debug)]
pub struct Artifacts {
    pub identifier_listing: GeneratedArtifact,
    pub caller_prototypes: GeneratedArtifact,
    pub callee_prototypes: GeneratedArtifact,
    pub wrapper_source: GeneratedArtifact,
}

/// What an artifact is, as a mathematical value.
pub struct ArtifactView {
    pub destination: Seq<char>,
    pub text: Seq<u8>,
}

/// What the four artifacts are, as a mathematical value.
pub struct ArtifactsView {
    pub identifier_listing: ArtifactView,
    pub caller_prototypes: ArtifactView,
    pub callee_prototypes: ArtifactView,
    pub wrapper_source: ArtifactView,
}

impl View for GeneratedArtifact {
    type V = ArtifactView;

    open spec fn view(&self) -> ArtifactView {
        ArtifactView { destination: self.destination@, text: self.text@ }
    }
}

impl View for Artifacts {
    type V = ArtifactsView;

    open spec fn view(&self) -> ArtifactsView {
        ArtifactsView {
            identifier_listing: self.identifier_listing@,
            caller_prototypes: self.caller_prototypes@,
            callee_prototypes: self.callee_prototypes@,
            wrapper_source: self.wrapper_source@,
        }
    }
}

/// Words that the wrapper source reserves. An operation may be named by one;
/// the wrapper source then declares it in raw form.
pub open spec fn is_reserved_word(name: Seq<char>) -> bool {
    ||| name == "as"@
    ||| name == "break"@
    ||| name == "const"@
    ||| name == "continue"@
    ||| name == "else"@
    ||| name == "enum"@
    ||| name == "extern"@
    ||| name == "false"@
    ||| name == "fn"@
    ||| name == "for"@
    ||| name == "if"@
    ||| name == "impl"@
    ||| name == "in"@
    ||| name == "let"@
    ||| name == "loop"@
    ||| name == "match"@
    ||| name == "mod"@
    ||| name == "move"@
    ||| name == "mut"@
    ||| name == "pub"@
    ||| name == "ref"@
    ||| name == "return"@
    ||| name == "static"@
    ||| name == "struct"@
    ||| name == "trait"@
    ||| name == "true"@
    ||| name == "type"@
    ||| name == "unsafe"@
    ||| name == "use"@
    ||| name == "where"@
    ||| name == "while"@
    ||| name == "async"@
    ||| name == "await"@
    ||| name == "dyn"@
    ||| name == "abstract"@
    ||| name == "become"@
    ||| name == "box"@
    ||| name == "do"@
    ||| name == "final"@
    ||| name == "gen"@
    ||| name == "macro"@
    ||| name == "override"@
    ||| name == "priv"@
    ||| name == "try"@
    ||| name == "typeof"@
    ||| name == "unsized"@
    ||| name == "virtual"@
    ||| name == "yield"@
}

/// The name under which an operation is linked: its own name, in every
/// artifact.
pub open spec fn linkage_name(name: Seq<char>) -> Seq<u8> {
    encode_utf8(name)
}

/// The identifier by which the wrapper source declares an operation: the
/// linkage name, in raw form if the name is a reserved word.
pub open spec fn declared_name(name: Seq<char>) -> Seq<u8> {
    if is_reserved_word(name) {
        lit("r#") + linkage_name(name)
    } else {
        linkage_name(name)
    }
}

/// The name under which a function is exported that the wrapper source
/// declares by the identifier `declared`: the identifier itself, without the
/// mark of the raw form if it has one.
pub open spec fn exported_name(declared: Seq<u8>) -> Seq<u8> {
    if declared.len() >= 2 && declared.take(2) == lit("r#") {
        declared.skip(2)
    } else {
        declared
    }
}

/// The name of an operation's constant: `__NR_` and the name in upper case.
pub open spec fn constant_name(name: Seq<char>) -> Seq<u8> {
    lit("__NR_") + ascii_upper(encode_utf8(name))
}

/// What is rendered for a parameter.
pub open spec fn render_parameter(form: ParameterForm, p: ParameterView) -> Seq<u8> {
    match form {
        ParameterForm::CDeclaration => encode_utf8(p.tag.spec_c_name()) + lit(" ") + encode_utf8(
            p.name,
        ),
        ParameterForm::RustDeclaration => encode_utf8(p.name) + lit(": ") + encode_utf8(
            p.tag.spec_rust_name(),
        ),
        ParameterForm::ArgumentWord => encode_utf8(p.name) + lit(" as usize"),
    }
}

/// What is rendered for each parameter, in declaration order.
pub open spec fn rendered_parameters(form: ParameterForm, ps: Seq<ParameterView>) -> Seq<Seq<u8>> {
    Seq::new(ps.len(), |i: int| render_parameter(form, ps[i]))
}

/// The parameters in one form, in declaration order, with `, ` between each
/// two.
pub open spec fn parameter_list(form: ParameterForm, ps: Seq<ParameterView>) -> Seq<u8> {
    join(rendered_parameters(form, ps), lit(", "))
}

/// The parameter list of a C prototype; `void` where there is no parameter.
pub open spec fn c_parameter_list(ps: Seq<ParameterView>) -> Seq<u8> {
    if ps.len() == 0 {
        lit("void")
    } else {
        parameter_list(ParameterForm::CDeclaration, ps)
    }
}

/// The parameter list of a declaration in the wrapper source.
pub open spec fn rust_parameter_list(ps: Seq<ParameterView>) -> Seq<u8> {
    parameter_list(ParameterForm::RustDeclaration, ps)
}

/// The argument words that a wrapper hands to the trampoline: each parameter
/// converted to a register-sized word, in declaration order.
pub open spec fn argument_list(ps: Seq<ParameterView>) -> Seq<u8> {
    lit("&[") + parameter_list(ParameterForm::ArgumentWord, ps) + lit("]")
}

/// What the two C prototypes of an entry end with: the parameter list and
/// the end of the declaration.
pub open spec fn c_declaration_tail(e: EntryView) -> Seq<u8> {
    lit("(") + c_parameter_list(e.parameters) + lit(");\n")
}

/// What the two declarations of an entry in the wrapper source have after
/// the name: the parameter list and the result type.
pub open spec fn rust_signature_tail(e: EntryView) -> Seq<u8> {
    lit("(") + rust_parameter_list(e.parameters) + lit(") -> ") + encode_utf8(
        e.return_type.spec_rust_name(),
    )
}

/// The signature of an operation's typed wrapper: exported under the
/// operation's own name, with the declared parameter and result types.
pub open spec fn wrapper_signature(e: EntryView) -> Seq<u8> {
    lit("#[no_mangle]\npub extern \"C\" fn ") + declared_name(e.name) + rust_signature_tail(e)
}

/// The body of an operation's typed wrapper: one call of the trampoline with
/// the operation's constant and its argument words.
pub open spec fn wrapper_body(e: EntryView) -> Seq<u8> {
    lit(" {\n    syscall_raw(") + constant_name(e.name) + lit(", ") + argument_list(e.parameters)
        + lit(")\n}\n\n")
}

/// What a template renders for one entry.
pub open spec fn render(template: Template, e: EntryView) -> Seq<u8> {
    match template {
        Template::Define => lit("#define ") + constant_name(e.name) + lit(" ") + decimal(
            e.numeric_id,
        ) + lit("\n"),
        Template::CallerPrototype => lit("extern ") + encode_utf8(e.return_type.spec_c_name())
            + lit(" ") + linkage_name(e.name) + c_declaration_tail(e),
        Template::CalleePrototype => encode_utf8(e.return_type.spec_c_name()) + lit(" do_")
            + linkage_name(e.name) + c_declaration_tail(e),
        Template::Constant => lit("pub const ") + constant_name(e.name) + lit(": usize = ")
            + decimal(e.numeric_id) + lit(";\n"),
        Template::Wrapper => wrapper_signature(e) + wrapper_body(e),
        Template::CalleeDeclaration => lit("    fn do_") + linkage_name(e.name)
            + rust_signature_tail(e) + lit(";\n"),
    }
}

/// What a pass renders, entry by entry, in declaration order.
pub open spec fn rendered(template: Template, t: Seq<EntryView>) -> Seq<Seq<u8>> {
    Seq::new(t.len(), |i: int| render(template, t[i]))
}

/// The text of one pass over the table.
pub open spec fn pass(template: Template, t: Seq<EntryView>) -> Seq<u8> {
    concat(rendered(template, t))
}

/// The text of the identifier listing.
pub open spec fn identifier_listing(t: Seq<EntryView>) -> Seq<u8> {
    lit(LISTING_PROLOGUE) + pass(Template::Define, t) + lit(HEADER_EPILOGUE)
}

/// The text of the caller prototypes.
pub open spec fn caller_prototypes(t: Seq<EntryView>) -> Seq<u8> {
    lit(CALLER_PROLOGUE) + pass(Template::CallerPrototype, t) + lit(HEADER_EPILOGUE)
}

/// The text of the callee prototypes.
pub open spec fn callee_prototypes(t: Seq<EntryView>) -> Seq<u8> {
    lit(CALLEE_PROLOGUE) + pass(Template::CalleePrototype, t) + lit(CALLEE_EPILOGUE)
}

/// The text of the wrapper source.
pub open spec fn wrapper_source(t: Seq<EntryView>) -> Seq<u8> {
    lit(WRAPPER_PROLOGUE) + pass(Template::Constant, t) + lit(WRAPPER_FUNCTIONS_HEADING) + pass(
        Template::Wrapper,
        t,
    ) + lit(CALLEE_BLOCK_OPENING) + pass(Template::CalleeDeclaration, t) + lit(
        CALLEE_BLOCK_CLOSING,
    ) + lit(TRAMPOLINE_SOURCE) + lit(WRAPPER_EPILOGUE)
}

/// The four artifacts of a table.
pub open spec fn generated(t: Seq<EntryView>) -> ArtifactsView {
    ArtifactsView {
        identifier_listing: ArtifactView {
            destination: IDENTIFIER_LISTING_PATH@,
            text: identifier_listing(t),
        },
        caller_prototypes: ArtifactView {
            destination: CALLER_PROTOTYPES_PATH@,
            text: caller_prototypes(t),
        },
        callee_prototypes: ArtifactView {
            destination: CALLEE_PROTOTYPES_PATH@,
            text: callee_prototypes(t),
        },
        wrapper_source: ArtifactView {
            destination: WRAPPER_SOURCE_PATH@,
            text: wrapper_source(t),
        },
    }
}

/// Whether the wrapper source reserves `name`.
pub fn check_reserved_word(name: &str) -> (r: bool)
    ensures
        r == is_reserved_word(name@),
{
    str_equal(name, "as") || str_equal(name, "break") || str_equal(name, "const") || str_equal(
        name,
        "continue",
    ) || str_equal(name, "else") || str_equal(name, "enum") || str_equal(name, "extern")
        || str_equal(name, "false") || str_equal(name, "fn") || str_equal(name, "for")
        || str_equal(name, "if") || str_equal(name, "impl") || str_equal(name, "in") || str_equal(
        name,
        "let",
    ) || str_equal(name, "loop") || str_equal(name, "match") || str_equal(name, "mod")
        || str_equal(name, "move") || str_equal(name, "mut") || str_equal(name, "pub")
        || str_equal(name, "ref") || str_equal(name, "return") || str_equal(name, "static")
        || str_equal(name, "struct") || str_equal(name, "trait") || str_equal(name, "true")
        || str_equal(name, "type") || str_equal(name, "unsafe") || str_equal(name, "use")
        || str_equal(name, "where") || str_equal(name, "while") || str_equal(name, "async")
        || str_equal(name, "await") || str_equal(name, "dyn") || str_equal(name, "abstract")
        || str_equal(name, "become") || str_equal(name, "box") || str_equal(name, "do")
        || str_equal(name, "final") || str_equal(name, "gen") || str_equal(name, "macro")
        || str_equal(name, "override") || str_equal(name, "priv") || str_equal(name, "try")
        || str_equal(name, "typeof") || str_equal(name, "unsized") || str_equal(name, "virtual")
        || str_equal(name, "yield")
}

/// Appends what `form` renders for `p`.
fn put_parameter(out: &mut Vec<u8>, form: ParameterForm, p: &Parameter)
    ensures
        final(out)@ == old(out)@ + render_parameter(form, p@),
{
    match form {
        ParameterForm::CDeclaration => {
            put(out, p.tag().c_name());
            put(out, " ");
            put(out, p.name());
        },
        ParameterForm::RustDeclaration => {
            put(out, p.name());
            put(out, ": ");
            put(out, p.tag().rust_name());
        },
        ParameterForm::ArgumentWord => {
            put(out, p.name());
            put(out, " as usize");
        },
    }
    assert(out@ =~= old(out)@ + render_parameter(form, p@));
}

/// Appends the parameters of `e` in one form, `, ` between each two.
fn put_parameter_list(out: &mut Vec<u8>, form: ParameterForm, e: &OperationEntry)
    ensures
        final(out)@ == old(out)@ + parameter_list(form, e@.parameters),
{
    let ps = e.parameters();
    let ghost parts = rendered_parameters(form, e@.parameters);
    let mut i: usize = 0;
    while i < ps.len()
        invariant
            i <= ps@.len(),
            ps@.len() == e@.parameters.len(),
            forall|j: int| 0 <= j < ps@.len() ==> (#[trigger] ps@[j])@ == e@.parameters[j],
            parts == rendered_parameters(form, e@.parameters),
            out@ == old(out)@ + join(parts.take(i as int), lit(", ")),
        decreases ps@.len() - i,
    {
        if i > 0 {
            put(out, ", ");
        }
        put_parameter(out, form, &ps[i]);
        proof {
            lemma_join_step(parts, lit(", "), i as int);
            assert(parts[i as int] == render_parameter(form, ps@[i as int]@));
            assert(out@ =~= old(out)@ + join(parts.take(i + 1), lit(", ")));
        }
        i += 1;
    }
    assert(parts.take(i as int) =~= parts);
}

/// Appends the name of the constant of `e`.
fn put_constant_name(out: &mut Vec<u8>, e: &OperationEntry)
    ensures
        final(out)@ == old(out)@ + constant_name(e@.name),
{
    put(out, "__NR_");
    put_upper(out, e.name());
    assert(out@ =~= old(out)@ + constant_name(e@.name));
}

/// Appends the parameter list of a C prototype of `e`.
fn put_c_parameter_list(out: &mut Vec<u8>, e: &OperationEntry)
    ensures
        final(out)@ == old(out)@ + c_parameter_list(e@.parameters),
{
    if e.parameter_count() == 0 {
        put(out, "void");
    } else {
        put_parameter_list(out, ParameterForm::CDeclaration, e);
    }
}

/// Appends what the two C prototypes of `e` end with.
fn put_c_declaration_tail(out: &mut Vec<u8>, e: &OperationEntry)
    ensures
        final(out)@ == old(out)@ + c_declaration_tail(e@),
{
    put(out, "(");
    put_c_parameter_list(out, e);
    put(out, ");\n");
    assert(out@ =~= old(out)@ + c_declaration_tail(e@));
}

/// Appends what the two declarations of `e` in the wrapper source have
/// after the name.
fn put_rust_signature_tail(out: &mut Vec<u8>, e: &OperationEntry)
    ensures
        final(out)@ == old(out)@ + rust_signature_tail(e@),
{
    put(out, "(");
    put_parameter_list(out, ParameterForm::RustDeclaration, e);
    put(out, ") -> ");
    put(out, e.return_type().rust_name());
    assert(out@ =~= old(out)@ + rust_signature_tail(e@));
}

/// Appends the constant of `e` as the identifier listing writes it.
fn put_define(out: &mut Vec<u8>, e: &OperationEntry)
    ensures
        final(out)@ == old(out)@ + render(Template::Define, e@),
{
    put(out, "#define ");
    put_constant_name(out, e);
    put(out, " ");
    assert(out@ =~= old(out)@ + (lit("#define ") + constant_name(e@.name) + lit(" ")));
    put_decimal(out, e.numeric_id());
    put(out, "\n");
    assert(out@ =~= old(out)@ + render(Template::Define, e@));
}

/// Appends the prototype of `e` for callers.
fn put_caller_prototype(out: &mut Vec<u8>, e: &OperationEntry)
    ensures
        final(out)@ == old(out)@ + render(Template::CallerPrototype, e@),
{
    put(out, "extern ");
    put(out, e.return_type().c_name());
    put(out, " ");
    assert(out@ =~= old(out)@ + (lit("extern ") + encode_utf8(e@.return_type.spec_c_name()) + lit(
        " ",
    )));
    put(out, e.name());
    put_c_declaration_tail(out, e);
    assert(out@ =~= old(out)@ + render(Template::CallerPrototype, e@));
}

/// Appends the prototype of the implementation of `e`.
fn put_callee_prototype(out: &mut Vec<u8>, e: &OperationEntry)
    ensures
        final(out)@ == old(out)@ + render(Template::CalleePrototype, e@),
{
    put(out, e.return_type().c_name());
    put(out, " do_");
    put(out, e.name());
    put_c_declaration_tail(out, e);
    assert(out@ =~= old(out)@ + render(Template::CalleePrototype, e@));
}

/// Appends the constant of `e` as the wrapper source writes it.
fn put_constant(out: &mut Vec<u8>, e: &OperationEntry)
    ensures
        final(out)@ == old(out)@ + render(Template::Constant, e@),
{
    put(out, "pub const ");
    put_constant_name(out, e);
    put(out, ": usize = ");
    assert(out@ =~= old(out)@ + (lit("pub const ") + constant_name(e@.name) + lit(": usize = ")));
    put_decimal(out, e.numeric_id());
    put(out, ";\n");
    assert(out@ =~= old(out)@ + render(Template::Constant, e@));
}

/// Appends the identifier by which the wrapper source declares `e`.
fn put_declared_name(out: &mut Vec<u8>, e: &OperationEntry)
    ensures
        final(out)@ == old(out)@ + declared_name(e@.name),
{
    if check_reserved_word(e.name()) {
        put(out, "r#");
    }
    put(out, e.name());
    assert(out@ =~= old(out)@ + declared_name(e@.name));
}

/// Appends the argument words that the wrapper of `e` hands on.
fn put_argument_list(out: &mut Vec<u8>, e: &OperationEntry)
    ensures
        final(out)@ == old(out)@ + argument_list(e@.parameters),
{
    put(out, "&[");
    put_parameter_list(out, ParameterForm::ArgumentWord, e);
    put(out, "]");
    assert(out@ =~= old(out)@ + argument_list(e@.parameters));
}

/// Appends the signature of the wrapper of `e`.
fn put_wrapper_signature(out: &mut Vec<u8>, e: &OperationEntry)
    ensures
        final(out)@ == old(out)@ + wrapper_signature(e@),
{
    put(out, "#[no_mangle]\npub extern \"C\" fn ");
    put_declared_name(out, e);
    put_rust_signature_tail(out, e);
    assert(out@ =~= old(out)@ + wrapper_signature(e@));
}

/// Appends the body of the wrapper of `e`: the one call of the trampoline.
fn put_wrapper_body(out: &mut Vec<u8>, e: &OperationEntry)
    ensures
        final(out)@ == old(out)@ + wrapper_body(e@),
{
    put(out, " {\n    syscall_raw(");
    put_constant_name(out, e);
    put(out, ", ");
    assert(out@ =~= old(out)@ + (lit(" {\n    syscall_raw(") + constant_name(e@.name) + lit(", ")));
    put_argument_list(out, e);
    put(out, ")\n}\n\n");
    assert(out@ =~= old(out)@ + wrapper_body(e@));
}

/// Appends the typed wrapper function of `e`.
fn put_wrapper(out: &mut Vec<u8>, e: &OperationEntry)
    ensures
        final(out)@ == old(out)@ + render(Template::Wrapper, e@),
{
    put_wrapper_signature(out, e);
    put_wrapper_body(out, e);
    assert(out@ =~= old(out)@ + render(Template::Wrapper, e@));
}

/// Appends the implementation of `e` as the wrapper source declares it.
fn put_callee_declaration(out: &mut Vec<u8>, e: &OperationEntry)
    ensures
        final(out)@ == old(out)@ + render(Template::CalleeDeclaration, e@),
{
    put(out, "    fn do_");
    put(out, e.name());
    put_rust_signature_tail(out, e);
    put(out, ";\n");
    assert(out@ =~= old(out)@ + render(Template::CalleeDeclaration, e@));
}

/// Appends what `template` renders for `e`.
pub fn put_rendered(out: &mut Vec<u8>, template: Template, e: &OperationEntry)
    ensures
        final(out)@ == old(out)@ + render(template, e@),
{
    match template {
        Template::Define => put_define(out, e),
        Template::CallerPrototype => put_caller_prototype(out, e),
        Template::CalleePrototype => put_callee_prototype(out, e),
        Template::Constant => put_constant(out, e),
        Template::Wrapper => put_wrapper(out, e),
        Template::CalleeDeclaration => put_callee_declaration(out, e),
    }
}

/// Appends one pass over the table: what `template` renders for each entry,
/// in declaration order.
pub fn put_pass(out: &mut Vec<u8>, template: Template, table: &OperationTable)
    ensures
        final(out)@ == old(out)@ + pass(template, table@),
{
    let es = table.entries();
    let ghost parts = rendered(template, table@);
    let mut i: usize = 0;
    while i < es.len()
        invariant
            i <= es@.len(),
            es@.len() == table@.len(),
            forall|j: int| 0 <= j < es@.len() ==> (#[trigger] es@[j])@ == table@[j],
            parts == rendered(template, table@),
            out@ == old(out)@ + concat(parts.take(i as int)),
        decreases es@.len() - i,
    {
        put_rendered(out, template, &es[i]);
        proof {
            lemma_concat_step(parts, i as int);
            assert(parts[i as int] == render(template, es@[i as int]@));
            assert(out@ =~= old(out)@ + concat(parts.take(i + 1)));
        }
        i += 1;
    }
    assert(parts.take(i as int) =~= parts);
}

/// Renders the identifier listing: one symbolic constant per operation, equal
/// to the operation's numeric id.
pub fn generate_identifier_listing(table: &OperationTable) -> (a: GeneratedArtifact)
    ensures
        a@ == generated(table@).identifier_listing,
{
    let mut text: Vec<u8> = Vec::new();
    put(&mut text, LISTING_PROLOGUE);
    put_pass(&mut text, Template::Define, table);
    put(&mut text, HEADER_EPILOGUE);
    assert(text@ =~= identifier_listing(table@));
    GeneratedArtifact { destination: IDENTIFIER_LISTING_PATH, text }
}

/// Renders the caller prototypes: one declaration per operation, under the
/// operation's own name.
pub fn generate_caller_prototypes(table: &OperationTable) -> (a: GeneratedArtifact)
    ensures
        a@ == generated(table@).caller_prototypes,
{
    let mut text: Vec<u8> = Vec::new();
    put(&mut text, CALLER_PROLOGUE);
    put_pass(&mut text, Template::CallerPrototype, table);
    put(&mut text, HEADER_EPILOGUE);
    assert(text@ =~= caller_prototypes(table@));
    GeneratedArtifact { destination: CALLER_PROTOTYPES_PATH, text }
}

/// Renders the callee prototypes: one declaration per operation, under the
/// operation's name with the prefix `do_`.
pub fn generate_callee_prototypes(table: &OperationTable) -> (a: GeneratedArtifact)
    ensures
        a@ == generated(table@).callee_prototypes,
{
    let mut text: Vec<u8> = Vec::new();
    put(&mut text, CALLEE_PROLOGUE);
    put_pass(&mut text, Template::CalleePrototype, table);
    put(&mut text, CALLEE_EPILOGUE);
    assert(text@ =~= callee_prototypes(table@));
    GeneratedArtifact { destination: CALLEE_PROTOTYPES_PATH, text }
}

/// Renders the wrapper source: the constants, one typed wrapper function per
/// operation, the declarations of the implementations and the raw trampoline.
pub fn generate_rust_syscall_interface(table: &OperationTable) -> (a: GeneratedArtifact)
    ensures
        a@ == generated(table@).wrapper_source,
{
    let mut text: Vec<u8> = Vec::new();
    put(&mut text, WRAPPER_PROLOGUE);
    put_pass(&mut text, Template::Constant, table);
    put(&mut text, WRAPPER_FUNCTIONS_HEADING);
    assert(text@ =~= lit(WRAPPER_PROLOGUE) + pass(Template::Constant, table@) + lit(
        WRAPPER_FUNCTIONS_HEADING,
    ));
    put_pass(&mut text, Template::Wrapper, table);
    put(&mut text, CALLEE_BLOCK_OPENING);
    put_pass(&mut text, Template::CalleeDeclaration, table);
    assert(text@ =~= lit(WRAPPER_PROLOGUE) + pass(Template::Constant, table@) + lit(
        WRAPPER_FUNCTIONS_HEADING,
    ) + pass(Template::Wrapper, table@) + lit(CALLEE_BLOCK_OPENING) + pass(
        Template::CalleeDeclaration,
        table@,
    ));
    put(&mut text, CALLEE_BLOCK_CLOSING);
    put(&mut text, TRAMPOLINE_SOURCE);
    put(&mut text, WRAPPER_EPILOGUE);
    assert(text@ =~= wrapper_source(table@));
    GeneratedArtifact { destination: WRAPPER_SOURCE_PATH, text }
}

/// Renders all four artifacts of the table. The result depends on nothing but
/// the table's entries, and the table is a valid one, as every table is.
pub fn generate(table: &OperationTable) -> (artifacts: Artifacts)
    ensures
        artifacts@ == generated(table@),
        table_valid(table@),
{
    proof {
        use_type_invariant(table);
    }
    Artifacts {
        identifier_listing: generate_identifier_listing(table),
        caller_prototypes: generate_caller_prototypes(table),
        callee_prototypes: generate_callee_prototypes(table),
        wrapper_source: generate_rust_syscall_interface(table),
    }
}

/// Declaration order is kept in every pass: what a template renders for the
/// entry at position `i` stands after what it renders for the entries before
/// `i` and before what it renders for the entries after `i`.
pub proof fn lemma_pass_keeps_order(template: Template, t: Seq<EntryView>, i: int)
    requires
        0 <= i < t.len(),
    ensures
        pass(template, t) == pass(template, t.take(i)) + render(template, t[i]) + pass(
            template,
            t.skip(i + 1),
        ),
{
    let parts = rendered(template, t);
    lemma_concat_split(parts, i);
    lemma_concat_split(parts.skip(i), 1);
    assert(parts.take(i) =~= rendered(template, t.take(i)));
    assert(parts.skip(i).skip(1) =~= rendered(template, t.skip(i + 1)));
    assert(parts.skip(i).take(1) =~= seq![render(template, t[i])]);
    assert(concat(seq![render(template, t[i])]) =~= render(template, t[i])) by {
        let single = seq![render(template, t[i])];
        assert(single.drop_last() =~= Seq::<Seq<u8>>::empty());
        assert(concat(single.drop_last()) =~= Seq::<u8>::empty());
        assert(single.last() == render(template, t[i]));
    }
    assert(pass(template, t.take(i)) + (render(template, t[i]) + pass(template, t.skip(i + 1)))
        =~= pass(template, t.take(i)) + render(template, t[i]) + pass(template, t.skip(i + 1)));
}

/// Adding a row to the table adds to every pass what the template renders for
/// the new entry, at the end, and changes nothing of what was rendered before.
pub proof fn lemma_new_row_is_appended(template: Template, t: Seq<EntryView>, e: EntryView)
    ensures
        pass(template, t.push(e)) == pass(template, t) + render(template, e),
{
    let parts = rendered(template, t.push(e));
    assert(parts.drop_last() =~= rendered(template, t));
    assert(parts.last() == render(template, e));
}

/// In the identifier listing of a valid table each entry has its line, in
/// declaration order; the line defines the entry's constant as the decimal
/// numeral of the entry's numeric id, which reads back as that id; and no
/// other entry of the table has that id or that numeral.
pub proof fn lemma_listing_defines_numeric_ids(t: Seq<EntryView>, i: int)
    requires
        table_valid(t),
        0 <= i < t.len(),
    ensures
        identifier_listing(t) == lit(LISTING_PROLOGUE) + (pass(Template::Define, t.take(i))
            + render(Template::Define, t[i]) + pass(Template::Define, t.skip(i + 1))) + lit(
            HEADER_EPILOGUE,
        ),
        render(Template::Define, t[i]) == lit("#define ") + constant_name(t[i].name) + lit(" ")
            + decimal(t[i].numeric_id) + lit("\n"),
        decimal_value(decimal(t[i].numeric_id)) == t[i].numeric_id,
        forall|j: int|
            0 <= j < t.len() && j != i ==> (#[trigger] t[j]).numeric_id != t[i].numeric_id
                && decimal(t[j].numeric_id) != decimal(t[i].numeric_id),
{
    lemma_pass_keeps_order(Template::Define, t, i);
    lemma_decimal_round_trip(t[i].numeric_id);
    assert forall|j: int| 0 <= j < t.len() && j != i implies (#[trigger] t[j]).numeric_id
        != t[i].numeric_id && decimal(t[j].numeric_id) != decimal(t[i].numeric_id) by {
        if j < i {
            assert(t[j].numeric_id != t[i].numeric_id);
        } else {
            assert(t[i].numeric_id != t[j].numeric_id);
        }
        if decimal(t[j].numeric_id) == decimal(t[i].numeric_id) {
            lemma_decimal_injective(t[j].numeric_id, t[i].numeric_id);
        }
    }
}

/// Regenerating from an unchanged table gives the same artifacts, byte for
/// byte and place for place: the artifacts are a function of the entries.
pub proof fn lemma_regeneration_is_identical(first: OperationTable, second: OperationTable)
    requires
        first@ == second@,
    ensures
        generated(first@) == generated(second@),
{
}

/// A type tag is spelled in one way per language wherever it appears. The
/// two C prototypes of an entry share their parameter list and spell the
/// result type alike; the two declarations in the wrapper source share
/// parameter list and result type; parameters with the same tag are spelled
/// alike whatever entry they belong to; and no spelling stands for two tags.
pub proof fn lemma_type_spelling_is_per_tag(e: EntryView, p: ParameterView, q: ParameterView)
    ensures
        render(Template::CallerPrototype, e) == lit("extern ") + encode_utf8(
            e.return_type.spec_c_name(),
        ) + lit(" ") + linkage_name(e.name) + c_declaration_tail(e),
        render(Template::CalleePrototype, e) == encode_utf8(e.return_type.spec_c_name()) + lit(
            " do_",
        ) + linkage_name(e.name) + c_declaration_tail(e),
        render(Template::Wrapper, e) == lit("#[no_mangle]\npub extern \"C\" fn ") + declared_name(
            e.name,
        ) + rust_signature_tail(e) + wrapper_body(e),
        render(Template::CalleeDeclaration, e) == lit("    fn do_") + linkage_name(e.name)
            + rust_signature_tail(e) + lit(";\n"),
        p.tag == q.tag ==> render_parameter(ParameterForm::CDeclaration, q) == encode_utf8(
            p.tag.spec_c_name(),
        ) + lit(" ") + encode_utf8(q.name),
        p.tag == q.tag ==> render_parameter(ParameterForm::RustDeclaration, q) == encode_utf8(
            q.name,
        ) + lit(": ") + encode_utf8(p.tag.spec_rust_name()),
        p.tag.spec_c_name() == q.tag.spec_c_name() ==> p.tag == q.tag,
        p.tag.spec_rust_name() == q.tag.spec_rust_name() ==> p.tag == q.tag,
{
    lemma_spellings_are_distinct(p.tag, q.tag);
}

/// The wrapper source declares an operation by its linkage name, or by the
/// raw form of it if the name is a reserved word. Either way the function is
/// exported under the linkage name: the escape is seen in the source only.
pub proof fn lemma_escape_keeps_linkage_name(name: Seq<char>)
    requires
        name_valid(name),
    ensures
        is_reserved_word(name) ==> declared_name(name) == lit("r#") + linkage_name(name),
        !is_reserved_word(name) ==> declared_name(name) == linkage_name(name),
        exported_name(declared_name(name)) == linkage_name(name),
{
    reveal_strlit("r#");
    assert(is_ascii_chars("r#"@));
    is_ascii_chars_encode_utf8("r#"@);
    let mark = lit("r#");
    assert(mark.len() == 2 && mark[0] == 0x72 && mark[1] == 0x23);
    let link = linkage_name(name);
    if is_reserved_word(name) {
        assert((mark + link).take(2) =~= mark);
        assert((mark + link).skip(2) =~= link);
    } else {
        if link.len() >= 2 && link.take(2) == mark {
            assert(link.take(2)[1] == link[1]);
            assert(is_identifier_continue(link[1]));
        }
    }
}

} // verus!
