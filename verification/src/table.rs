//! The operation table: the one declarative source that every artifact and
//! every typed wrapper is derived from.
//!
//! A table only grows, one row at a time, through [`OperationTable::register`].
//! A row that breaks a rule of the table is refused and leaves the table as it
//! was, so a table that exists is a valid table: [`table_valid`] is the
//! invariant of the type.

use crate::text::{check_identifier, is_identifier, str_equal};
use crate::trampoline::ARGUMENT_REGISTERS;
use crate::types::TypeTag;
use vstd::prelude::*;
use vstd::utf8::*;

verus! {

/// The most parameters an operation may declare: one per argument register.
pub const MAX_PARAMETERS: usize = ARGUMENT_REGISTERS;

/// Why a row was refused.
#[derive(Clone, Copy, PartialEq, Eq, Debug, Structural)]
pub enum TableError {
    /// The operation's name is not an identifier that the wrapper source can
    /// declare.
    InvalidName,
    /// The row declares more than [`MAX_PARAMETERS`] parameters.
    TooManyParameters,
    /// The result type or a parameter type is outside the closed set of type
    /// tags, or a parameter is declared `void`.
    UnsupportedType,
    /// An earlier row already uses the numeric id.
    DuplicateId,
}

/// What a parameter is, as a mathematical value.
pub struct ParameterView {
    pub tag: TypeTag,
    pub name: Seq<char>,
}

/// What a table entry is, as a mathematical value.
pub struct EntryView {
    pub name: Seq<char>,
    pub numeric_id: nat,
    pub return_type: TypeTag,
    pub parameters: Seq<ParameterView>,
}

/// One declared parameter of an operation.
#[derive(Debug)]
pub struct Parameter {
    tag: TypeTag,
    name: String,
}

/// One operation of the table.
#[derive(Debug)]
pub struct OperationEntry {
    name: String,
    numeric_id: usize,
    return_type: TypeTag,
    parameters: Vec<Parameter>,
}

/// The operations in declaration order.
#[derive(Debug)]
pub struct OperationTable {
    entries: Vec<OperationEntry>,
}

/// Names that are spelled like identifiers but that the wrapper source can
/// declare neither as they are nor in raw form.
pub open spec fn has_no_raw_form(name: Seq<char>) -> bool {
    ||| name == "_"@
    ||| name == "crate"@
    ||| name == "self"@
    ||| name == "super"@
    ||| name == "Self"@
}

/// An operation name is valid if it is an identifier and the wrapper source
/// can declare it, if need be in raw form.
pub open spec fn name_valid(name: Seq<char>) -> bool {
    &&& is_identifier(encode_utf8(name))
    &&& !has_no_raw_form(name)
}

/// A type spelling that may stand at a parameter: one of the closed set, and
/// not `void`.
pub open spec fn parameter_type_supported(spelling: Seq<char>) -> bool {
    TypeTag::spec_parse(spelling) matches Some(tag) && tag.spec_is_parameter_type()
}

/// The invariant of an entry.
pub open spec fn entry_valid(e: EntryView) -> bool {
    &&& name_valid(e.name)
    &&& e.parameters.len() <= MAX_PARAMETERS
    &&& forall|i: int|
        0 <= i < e.parameters.len() ==> (#[trigger] e.parameters[i]).tag.spec_is_parameter_type()
}

/// The invariant of a table: every entry is valid and no numeric id occurs
/// twice.
pub open spec fn table_valid(t: Seq<EntryView>) -> bool {
    &&& forall|i: int| 0 <= i < t.len() ==> entry_valid(#[trigger] t[i])
    &&& forall|i: int, j: int|
        0 <= i < j < t.len() ==> (#[trigger] t[i]).numeric_id != (#[trigger] t[j]).numeric_id
}

/// A row's parameter list as it was written: pairs of type spelling and name.
pub open spec fn declared(parameters: Seq<(&str, &str)>) -> Seq<(Seq<char>, Seq<char>)> {
    Seq::new(parameters.len(), |i: int| (parameters[i].0@, parameters[i].1@))
}

/// The parameter that a declared pair stands for.
pub open spec fn parameter_of(pair: (Seq<char>, Seq<char>)) -> ParameterView {
    ParameterView { tag: TypeTag::spec_parse(pair.0).unwrap(), name: pair.1 }
}

/// The entry that a row stands for.
pub open spec fn row_entry(
    name: Seq<char>,
    numeric_id: nat,
    return_type: Seq<char>,
    parameters: Seq<(Seq<char>, Seq<char>)>,
) -> EntryView {
    EntryView {
        name,
        numeric_id,
        return_type: TypeTag::spec_parse(return_type).unwrap(),
        parameters: Seq::new(parameters.len(), |i: int| parameter_of(parameters[i])),
    }
}

/// The rule that a row breaks when it is added to `table`, if it breaks one.
/// The rules are tried in this order: the name, the number of parameters, the
/// types, the numeric id.
pub open spec fn row_error(
    table: Seq<EntryView>,
    name: Seq<char>,
    numeric_id: nat,
    return_type: Seq<char>,
    parameters: Seq<(Seq<char>, Seq<char>)>,
) -> Option<TableError> {
    if !name_valid(name) {
        Some(TableError::InvalidName)
    } else if parameters.len() > MAX_PARAMETERS {
        Some(TableError::TooManyParameters)
    } else if TypeTag::spec_parse(return_type) is None {
        Some(TableError::UnsupportedType)
    } else if exists|i: int|
        0 <= i < parameters.len() && !parameter_type_supported(#[trigger] parameters[i].0) {
        Some(TableError::UnsupportedType)
    } else if exists|i: int| 0 <= i < table.len() && (#[trigger] table[i]).numeric_id == numeric_id {
        Some(TableError::DuplicateId)
    } else {
        None
    }
}

impl View for Parameter {
    type V = ParameterView;

    closed spec fn view(&self) -> ParameterView {
        ParameterView { tag: self.tag, name: self.name@ }
    }
}

impl Parameter {
    /// The parameter's type.
    pub fn tag(&self) -> (t: TypeTag)
        ensures
            t == self@.tag,
    {
        self.tag
    }

    /// The parameter's name.
    pub fn name(&self) -> (s: &str)
        ensures
            s@ == self@.name,
    {
        self.name.as_str()
    }
}

impl View for OperationEntry {
    type V = EntryView;

    closed spec fn view(&self) -> EntryView {
        EntryView {
            name: self.name@,
            numeric_id: self.numeric_id as nat,
            return_type: self.return_type,
            parameters: Seq::new(self.parameters@.len(), |i: int| self.parameters@[i]@),
        }
    }
}

impl OperationEntry {
    /// The invariant of the type: every entry is a valid one.
    #[verifier::type_invariant]
    pub open spec fn inv(&self) -> bool {
        entry_valid(self@)
    }

    /// The operation's name, which is also the name it is linked under.
    pub fn name(&self) -> (s: &str)
        ensures
            s@ == self@.name,
            name_valid(s@),
    {
        proof {
            use_type_invariant(self);
        }
        self.name.as_str()
    }

    /// The number that selects the operation at the trap.
    pub fn numeric_id(&self) -> (id: usize)
        ensures
            id == self@.numeric_id,
    {
        self.numeric_id
    }

    /// The type of the operation's result.
    pub fn return_type(&self) -> (t: TypeTag)
        ensures
            t == self@.return_type,
    {
        self.return_type
    }

    /// How many parameters the operation declares.
    pub fn parameter_count(&self) -> (n: usize)
        ensures
            n == self@.parameters.len(),
            n <= MAX_PARAMETERS,
    {
        proof {
            use_type_invariant(self);
        }
        self.parameters.len()
    }

    /// The parameters in declaration order.
    pub fn parameters(&self) -> (ps: &[Parameter])
        ensures
            ps@.len() == self@.parameters.len(),
            forall|i: int| 0 <= i < ps@.len() ==> (#[trigger] ps@[i])@ == self@.parameters[i],
            entry_valid(self@),
    {
        proof {
            use_type_invariant(self);
        }
        self.parameters.as_slice()
    }

    /// The parameter at position `i`, or `None` if the operation declares
    /// fewer.
    pub fn parameter(&self, i: usize) -> (r: Option<&Parameter>)
        ensures
            match r {
                Some(p) => i < self@.parameters.len() && p@ == self@.parameters[i as int]
                    && p@.tag.spec_is_parameter_type(),
                None => i >= self@.parameters.len(),
            },
    {
        proof {
            use_type_invariant(self);
        }
        if i < self.parameters.len() {
            Some(&self.parameters[i])
        } else {
            None
        }
    }
}

impl View for OperationTable {
    type V = Seq<EntryView>;

    closed spec fn view(&self) -> Seq<EntryView> {
        Seq::new(self.entries@.len(), |i: int| self.entries@[i]@)
    }
}

/// Whether the wrapper source can declare a name that is spelled like an
/// identifier.
fn check_raw_form(name: &str) -> (r: bool)
    ensures
        r == !has_no_raw_form(name@),
{
    !(str_equal(name, "_") || str_equal(name, "crate") || str_equal(name, "self") || str_equal(
        name,
        "super",
    ) || str_equal(name, "Self"))
}

/// Reads a row's parameter list. `None` means that a type spelling is not one
/// that may stand at a parameter.
fn parse_parameters(parameters: &[(&str, &str)]) -> (r: Option<Vec<Parameter>>)
    ensures
        match r {
            Some(typed) => {
                &&& typed@.len() == parameters@.len()
                &&& forall|j: int|
                    0 <= j < parameters@.len() ==> parameter_type_supported(
                        #[trigger] declared(parameters@)[j].0,
                    )
                &&& forall|j: int|
                    0 <= j < parameters@.len() ==> (#[trigger] typed@[j])@ == parameter_of(
                        declared(parameters@)[j],
                    )
            },
            None => exists|j: int|
                0 <= j < parameters@.len() && !parameter_type_supported(
                    #[trigger] declared(parameters@)[j].0,
                ),
        },
{
    let ghost rows = declared(parameters@);
    let mut typed: Vec<Parameter> = Vec::new();
    let mut i: usize = 0;
    while i < parameters.len()
        invariant
            i <= parameters@.len(),
            rows == declared(parameters@),
            typed@.len() == i,
            forall|j: int| 0 <= j < i ==> parameter_type_supported(#[trigger] rows[j].0),
            forall|j: int| 0 <= j < i ==> (#[trigger] typed@[j])@ == parameter_of(rows[j]),
        decreases parameters@.len() - i,
    {
        let spelling: &str = parameters[i].0;
        let parameter_name: &str = parameters[i].1;
        assert(rows[i as int] == (spelling@, parameter_name@));
        match TypeTag::parse(spelling) {
            Some(tag) => {
                if !tag.is_parameter_type() {
                    assert(!parameter_type_supported(rows[i as int].0));
                    return None;
                }
                typed.push(Parameter { tag, name: parameter_name.to_owned() });
            },
            None => {
                assert(!parameter_type_supported(rows[i as int].0));
                return None;
            },
        }
        i += 1;
    }
    Some(typed)
}

impl OperationTable {
    /// The invariant of the type: every table is a valid one.
    #[verifier::type_invariant]
    pub open spec fn inv(&self) -> bool {
        table_valid(self@)
    }

    /// A table without entries.
    pub fn new() -> (t: OperationTable)
        ensures
            t@ == Seq::<EntryView>::empty(),
    {
        let t = OperationTable { entries: Vec::new() };
        assert(t@ =~= Seq::<EntryView>::empty());
        t
    }

    /// The number of entries.
    pub fn len(&self) -> (n: usize)
        ensures
            n == self@.len(),
    {
        self.entries.len()
    }

    /// The entries in declaration order.
    pub fn entries(&self) -> (es: &[OperationEntry])
        ensures
            es@.len() == self@.len(),
            forall|i: int| 0 <= i < es@.len() ==> (#[trigger] es@[i])@ == self@[i],
            table_valid(self@),
    {
        proof {
            use_type_invariant(self);
        }
        self.entries.as_slice()
    }

    /// The entry at position `i` in declaration order, or `None` if the
    /// table is shorter.
    pub fn entry(&self, i: usize) -> (r: Option<&OperationEntry>)
        ensures
            match r {
                Some(e) => i < self@.len() && e@ == self@[i as int],
                None => i >= self@.len(),
            },
    {
        if i < self.entries.len() {
            Some(&self.entries[i])
        } else {
            None
        }
    }

    /// Whether an entry of the table has the numeric id `numeric_id`.
    pub fn uses_id(&self, numeric_id: usize) -> (r: bool)
        ensures
            r == exists|i: int| 0 <= i < self@.len() && (#[trigger] self@[i]).numeric_id == numeric_id,
    {
        let mut k: usize = 0;
        while k < self.entries.len()
            invariant
                k <= self.entries@.len(),
                forall|j: int| 0 <= j < k ==> (#[trigger] self@[j]).numeric_id != numeric_id,
            decreases self.entries@.len() - k,
        {
            if self.entries[k].numeric_id == numeric_id {
                assert(self@[k as int].numeric_id == numeric_id);
                return true;
            }
            assert(self@[k as int].numeric_id != numeric_id);
            k += 1;
        }
        false
    }

    /// Adds one row at the end of the table.
    ///
    /// The row is refused, and the table left as it was, if it breaks a rule:
    /// the name must be valid, there may be at most [`MAX_PARAMETERS`]
    /// parameters, each type spelling must name a tag of the closed set (and
    /// not `void` at a parameter), and the numeric id must be new to the
    /// table. The first rule that is broken, in this order, decides the error.
    pub fn register(
        &mut self,
        name: &str,
        numeric_id: usize,
        return_type: &str,
        parameters: &[(&str, &str)],
    ) -> (r: Result<(), TableError>)
        ensures
            table_valid(old(self)@),
            table_valid(final(self)@),
            match r {
                Ok(()) => {
                    &&& row_error(
                        old(self)@,
                        name@,
                        numeric_id as nat,
                        return_type@,
                        declared(parameters@),
                    ) is None
                    &&& final(self)@ == old(self)@.push(
                        row_entry(name@, numeric_id as nat, return_type@, declared(parameters@)),
                    )
                },
                Err(e) => {
                    &&& row_error(
                        old(self)@,
                        name@,
                        numeric_id as nat,
                        return_type@,
                        declared(parameters@),
                    ) == Some(e)
                    &&& final(self)@ == old(self)@
                },
            },
    {
        proof {
            use_type_invariant(&*self);
        }
        let ghost rows = declared(parameters@);
        if !check_identifier(name) || !check_raw_form(name) {
            return Err(TableError::InvalidName);
        }
        if parameters.len() > MAX_PARAMETERS {
            return Err(TableError::TooManyParameters);
        }
        let return_tag = match TypeTag::parse(return_type) {
            Some(tag) => tag,
            None => {
                return Err(TableError::UnsupportedType);
            },
        };
        let typed = match parse_parameters(parameters) {
            Some(typed) => typed,
            None => {
                return Err(TableError::UnsupportedType);
            },
        };
        if self.uses_id(numeric_id) {
            return Err(TableError::DuplicateId);
        }
        let ghost added = row_entry(name@, numeric_id as nat, return_type@, rows);
        let entry = OperationEntry {
            name: name.to_owned(),
            numeric_id,
            return_type: return_tag,
            parameters: typed,
        };
        assert(entry@.parameters =~= added.parameters);
        assert(entry@ == added);
        let mut entries: Vec<OperationEntry> = Vec::new();
        std::mem::swap(&mut entries, &mut self.entries);
        entries.push(entry);
        assert(Seq::new(entries@.len(), |i: int| entries@[i]@) =~= old(self)@.push(added));
        self.entries = entries;
        assert(self@ =~= old(self)@.push(added));
        Ok(())
    }
}

} // verus!
