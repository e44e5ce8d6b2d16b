//! The closed set of abstract type tags and the one spelling each tag has in
//! each language that the artifacts are written in.

use crate::text::str_equal;
use vstd::prelude::*;

verus! {

/// An abstract type tag: what an operation may take as a parameter or hand
/// back as its result.
#[derive(Clone, Copy, PartialEq, Eq, Debug, Structural)]
pub enum TypeTag {
    /// Nothing. It has no register representation, so it is a result type only.
    Void,
    /// A signed 32-bit integer.
    Int32,
    /// A signed integer as wide as a register.
    SignedWord,
    /// An unsigned integer as wide as a register.
    UnsignedWord,
    /// The address of a byte that the callee only reads.
    ConstBytePtr,
    /// The address of a byte that the callee may write.
    MutBytePtr,
}

impl TypeTag {
    /// How the tag is spelled in a table row and in the C prototypes.
    pub open spec fn spec_c_name(self) -> Seq<char> {
        match self {
            TypeTag::Void => "void"@,
            TypeTag::Int32 => "int"@,
            TypeTag::SignedWord => "long"@,
            TypeTag::UnsignedWord => "size_t"@,
            TypeTag::ConstBytePtr => "const char *"@,
            TypeTag::MutBytePtr => "char *"@,
        }
    }

    /// How the tag is spelled in the wrapper source.
    pub open spec fn spec_rust_name(self) -> Seq<char> {
        match self {
            TypeTag::Void => "()"@,
            TypeTag::Int32 => "i32"@,
            TypeTag::SignedWord => "isize"@,
            TypeTag::UnsignedWord => "usize"@,
            TypeTag::ConstBytePtr => "*const u8"@,
            TypeTag::MutBytePtr => "*mut u8"@,
        }
    }

    /// The tag that a table row's type spelling names, if it names one.
    pub open spec fn spec_parse(name: Seq<char>) -> Option<TypeTag> {
        if name == "void"@ {
            Some(TypeTag::Void)
        } else if name == "int"@ {
            Some(TypeTag::Int32)
        } else if name == "long"@ {
            Some(TypeTag::SignedWord)
        } else if name == "size_t"@ {
            Some(TypeTag::UnsignedWord)
        } else if name == "const char *"@ {
            Some(TypeTag::ConstBytePtr)
        } else if name == "char *"@ {
            Some(TypeTag::MutBytePtr)
        } else {
            None
        }
    }

    /// Whether a value of this type can be passed in a register.
    pub open spec fn spec_is_parameter_type(self) -> bool {
        self != TypeTag::Void
    }

    /// Whether a value of this type fills a register exactly, so that a
    /// register-sized word and a value of the type stand for each other.
    pub open spec fn spec_is_register_sized(self) -> bool {
        match self {
            TypeTag::Void => false,
            TypeTag::Int32 => false,
            TypeTag::SignedWord => true,
            TypeTag::UnsignedWord => true,
            TypeTag::ConstBytePtr => true,
            TypeTag::MutBytePtr => true,
        }
    }

    /// The tag's spelling in a table row and in the C prototypes.
    pub fn c_name(self) -> (s: &'static str)
        ensures
            s@ == self.spec_c_name(),
    {
        match self {
            TypeTag::Void => "void",
            TypeTag::Int32 => "int",
            TypeTag::SignedWord => "long",
            TypeTag::UnsignedWord => "size_t",
            TypeTag::ConstBytePtr => "const char *",
            TypeTag::MutBytePtr => "char *",
        }
    }

    /// The tag's spelling in the wrapper source.
    pub fn rust_name(self) -> (s: &'static str)
        ensures
            s@ == self.spec_rust_name(),
    {
        match self {
            TypeTag::Void => "()",
            TypeTag::Int32 => "i32",
            TypeTag::SignedWord => "isize",
            TypeTag::UnsignedWord => "usize",
            TypeTag::ConstBytePtr => "*const u8",
            TypeTag::MutBytePtr => "*mut u8",
        }
    }

    /// Reads a table row's type spelling. `None` means the spelling names no
    /// tag of the closed set.
    pub fn parse(name: &str) -> (r: Option<TypeTag>)
        ensures
            r == Self::spec_parse(name@),
    {
        if str_equal(name, "void") {
            Some(TypeTag::Void)
        } else if str_equal(name, "int") {
            Some(TypeTag::Int32)
        } else if str_equal(name, "long") {
            Some(TypeTag::SignedWord)
        } else if str_equal(name, "size_t") {
            Some(TypeTag::UnsignedWord)
        } else if str_equal(name, "const char *") {
            Some(TypeTag::ConstBytePtr)
        } else if str_equal(name, "char *") {
            Some(TypeTag::MutBytePtr)
        } else {
            None
        }
    }

    /// Whether a value of this type can be passed in a register.
    pub fn is_parameter_type(self) -> (r: bool)
        ensures
            r == self.spec_is_parameter_type(),
    {
        match self {
            TypeTag::Void => false,
            _ => true,
        }
    }

    /// Whether a value of this type fills a register exactly.
    pub fn is_register_sized(self) -> (r: bool)
        ensures
            r == self.spec_is_register_sized(),
    {
        match self {
            TypeTag::Void => false,
            TypeTag::Int32 => false,
            _ => true,
        }
    }
}

/// The spelling in the wrapper source of the type that a table row spells
/// `c_type`; `None` if `c_type` names no tag of the closed set.
pub fn convert_c_type_to_rust(c_type: &str) -> (r: Option<&'static str>)
    ensures
        match r {
            Some(s) => TypeTag::spec_parse(c_type@) matches Some(tag) && s@
                == tag.spec_rust_name(),
            None => TypeTag::spec_parse(c_type@) is None,
        },
{
    match TypeTag::parse(c_type) {
        Some(tag) => Some(tag.rust_name()),
        None => None,
    }
}

/// Each tag is read back from its own spelling: no two tags share one.
pub proof fn lemma_parse_inverts_c_name(tag: TypeTag)
    ensures
        TypeTag::spec_parse(tag.spec_c_name()) == Some(tag),
{
    reveal_strlit("void");
    reveal_strlit("int");
    reveal_strlit("long");
    reveal_strlit("size_t");
    reveal_strlit("const char *");
    reveal_strlit("char *");
    assert("void"@.len() == 4 && "void"@[0] == 'v');
    assert("int"@.len() == 3);
    assert("long"@.len() == 4 && "long"@[0] == 'l');
    assert("size_t"@.len() == 6 && "size_t"@[0] == 's');
    assert("const char *"@.len() == 12);
    assert("char *"@.len() == 6 && "char *"@[0] == 'c');
}

/// A spelling that names a tag is that tag's spelling.
pub proof fn lemma_c_name_inverts_parse(name: Seq<char>)
    ensures
        TypeTag::spec_parse(name) matches Some(tag) ==> tag.spec_c_name() == name,
{
}

/// Two tags that are spelled alike in either language are the same tag: a
/// spelling stands for one type only.
pub proof fn lemma_spellings_are_distinct(a: TypeTag, b: TypeTag)
    ensures
        a.spec_c_name() == b.spec_c_name() ==> a == b,
        a.spec_rust_name() == b.spec_rust_name() ==> a == b,
{
    lemma_parse_inverts_c_name(a);
    lemma_parse_inverts_c_name(b);
    reveal_strlit("()");
    reveal_strlit("i32");
    reveal_strlit("isize");
    reveal_strlit("usize");
    reveal_strlit("*const u8");
    reveal_strlit("*mut u8");
    assert("()"@.len() == 2);
    assert("i32"@.len() == 3);
    assert("isize"@.len() == 5 && "isize"@[0] == 'i');
    assert("usize"@.len() == 5 && "usize"@[0] == 'u');
    assert("*const u8"@.len() == 9);
    assert("*mut u8"@.len() == 7);
}

} // verus!
