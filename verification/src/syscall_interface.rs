//! The system calls of the kernel: the table that declares them and the typed
//! wrapper of each.
//!
//! A wrapper here is the first half of a call: it converts its typed arguments
//! and hands back the one trampoline call to make. The caller issues the trap
//! and reads the raw word that comes back with [`crate::wrapper::word_to_i32`]
//! or [`crate::wrapper::word_to_isize`], as the table declares the result.
//! `exit` does not come back.

use crate::table::{
    declared, name_valid, parameter_type_supported, row_entry, table_valid, EntryView,
    OperationTable, ParameterView,
};
use crate::text::lemma_identifier_by_chars;
use crate::trampoline::{syscall_raw, TrampolineCall, TrampolineCallView};
use crate::types::{lemma_parse_inverts_c_name, TypeTag};
use crate::wrapper::{i32_to_word, signed_to_word, wrapper_call, Value};
use vstd::prelude::*;

verus! {

/// The numeric id of `exit`.
pub const __NR_EXIT: usize = 1;

/// The numeric id of `write`.
pub const __NR_WRITE: usize = 2;

/// The numeric id of `read`.
pub const __NR_READ: usize = 3;

/// The numeric id of `yield`.
pub const __NR_YIELD: usize = 4;

/// The numeric id of `getpid`.
pub const __NR_GETPID: usize = 5;

/// The entries of the kernel's table, in declaration order.
pub open spec fn standard_entries() -> Seq<EntryView> {
    seq![
        EntryView {
            name: "exit"@,
            numeric_id: __NR_EXIT as nat,
            return_type: TypeTag::Void,
            parameters: seq![ParameterView { tag: TypeTag::Int32, name: "status"@ }],
        },
        EntryView {
            name: "write"@,
            numeric_id: __NR_WRITE as nat,
            return_type: TypeTag::SignedWord,
            parameters: seq![
                ParameterView { tag: TypeTag::Int32, name: "fd"@ },
                ParameterView { tag: TypeTag::ConstBytePtr, name: "buf"@ },
                ParameterView { tag: TypeTag::UnsignedWord, name: "len"@ },
            ],
        },
        EntryView {
            name: "read"@,
            numeric_id: __NR_READ as nat,
            return_type: TypeTag::SignedWord,
            parameters: seq![
                ParameterView { tag: TypeTag::Int32, name: "fd"@ },
                ParameterView { tag: TypeTag::MutBytePtr, name: "buf"@ },
                ParameterView { tag: TypeTag::UnsignedWord, name: "count"@ },
            ],
        },
        EntryView {
            name: "yield"@,
            numeric_id: __NR_YIELD as nat,
            return_type: TypeTag::Void,
            parameters: Seq::<ParameterView>::empty(),
        },
        EntryView {
            name: "getpid"@,
            numeric_id: __NR_GETPID as nat,
            return_type: TypeTag::Int32,
            parameters: Seq::<ParameterView>::empty(),
        },
    ]
}

/// The call that leaves the task with `status`.
pub fn exit(status: i32) -> (call: TrampolineCall)
    ensures
        call@ == wrapper_call(standard_entries()[0], seq![Value::Int32(status)]),
        call@ == (TrampolineCallView {
            numeric_id: __NR_EXIT as nat,
            argument_words: seq![signed_to_word(status as int)],
        }),
{
    let words: [usize; 1] = [i32_to_word(status)];
    let call = syscall_raw(__NR_EXIT, words.as_slice());
    assert(call@.argument_words =~= seq![signed_to_word(status as int)]);
    assert(call@.argument_words =~= wrapper_call(
        standard_entries()[0],
        seq![Value::Int32(status)],
    ).argument_words);
    call
}

/// The call that writes `len` bytes from the address `buf` to the file `fd`.
pub fn write(fd: i32, buf: usize, len: usize) -> (call: TrampolineCall)
    ensures
        call@ == wrapper_call(
            standard_entries()[1],
            seq![Value::Int32(fd), Value::ConstBytePtr(buf), Value::UnsignedWord(len)],
        ),
        call@ == (TrampolineCallView {
            numeric_id: __NR_WRITE as nat,
            argument_words: seq![signed_to_word(fd as int), buf, len],
        }),
{
    let words: [usize; 3] = [i32_to_word(fd), buf, len];
    let call = syscall_raw(__NR_WRITE, words.as_slice());
    assert(call@.argument_words =~= seq![signed_to_word(fd as int), buf, len]);
    assert(call@.argument_words =~= wrapper_call(
        standard_entries()[1],
        seq![Value::Int32(fd), Value::ConstBytePtr(buf), Value::UnsignedWord(len)],
    ).argument_words);
    call
}

/// The call that reads up to `count` bytes from the file `fd` to the address
/// `buf`.
pub fn read(fd: i32, buf: usize, count: usize) -> (call: TrampolineCall)
    ensures
        call@ == wrapper_call(
            standard_entries()[2],
            seq![Value::Int32(fd), Value::MutBytePtr(buf), Value::UnsignedWord(count)],
        ),
        call@ == (TrampolineCallView {
            numeric_id: __NR_READ as nat,
            argument_words: seq![signed_to_word(fd as int), buf, count],
        }),
{
    let words: [usize; 3] = [i32_to_word(fd), buf, count];
    let call = syscall_raw(__NR_READ, words.as_slice());
    assert(call@.argument_words =~= seq![signed_to_word(fd as int), buf, count]);
    assert(call@.argument_words =~= wrapper_call(
        standard_entries()[2],
        seq![Value::Int32(fd), Value::MutBytePtr(buf), Value::UnsignedWord(count)],
    ).argument_words);
    call
}

/// The call that gives up the processor. The operation is named `yield`; the
/// name is a reserved word here, so the wrapper is not.
pub fn sys_yield() -> (call: TrampolineCall)
    ensures
        call@ == wrapper_call(standard_entries()[3], Seq::<Value>::empty()),
        call@ == (TrampolineCallView {
            numeric_id: __NR_YIELD as nat,
            argument_words: Seq::<usize>::empty(),
        }),
{
    let words: [usize; 0] = [];
    let call = syscall_raw(__NR_YIELD, words.as_slice());
    assert(call@.argument_words =~= Seq::<usize>::empty());
    assert(call@.argument_words =~= wrapper_call(
        standard_entries()[3],
        Seq::<Value>::empty(),
    ).argument_words);
    call
}

/// The call that asks for the id of the calling task.
pub fn getpid() -> (call: TrampolineCall)
    ensures
        call@ == wrapper_call(standard_entries()[4], Seq::<Value>::empty()),
        call@ == (TrampolineCallView {
            numeric_id: __NR_GETPID as nat,
            argument_words: Seq::<usize>::empty(),
        }),
{
    let words: [usize; 0] = [];
    let call = syscall_raw(__NR_GETPID, words.as_slice());
    assert(call@.argument_words =~= Seq::<usize>::empty());
    assert(call@.argument_words =~= wrapper_call(
        standard_entries()[4],
        Seq::<Value>::empty(),
    ).argument_words);
    call
}

/// The names of the standard entries are valid operation names.
proof fn lemma_standard_names()
    ensures
        name_valid("exit"@),
        name_valid("write"@),
        name_valid("read"@),
        name_valid("yield"@),
        name_valid("getpid"@),
{
    reveal_strlit("exit");
    reveal_strlit("write");
    reveal_strlit("read");
    reveal_strlit("yield");
    reveal_strlit("getpid");
    reveal_strlit("_");
    reveal_strlit("crate");
    reveal_strlit("self");
    reveal_strlit("super");
    reveal_strlit("Self");
    lemma_identifier_by_chars("exit"@);
    lemma_identifier_by_chars("write"@);
    lemma_identifier_by_chars("read"@);
    lemma_identifier_by_chars("yield"@);
    lemma_identifier_by_chars("getpid"@);
    assert("exit"@[0] == 'e' && "self"@[0] == 's' && "Self"@[0] == 'S');
    assert("write"@[0] == 'w' && "crate"@[0] == 'c' && "super"@[0] == 's');
    assert("read"@[0] == 'r');
    assert("yield"@[0] == 'y');
    assert("getpid"@.len() == 6 && "_"@.len() == 1);
}

/// The kernel's table: `exit`, `write`, `read`, `yield` and `getpid`, numbered
/// from 1 in this order.
pub fn syscall_table() -> (table: OperationTable)
    ensures
        table@ == standard_entries(),
        table_valid(table@),
{
    let mut table = OperationTable::new();
    proof {
        lemma_standard_names();
        lemma_parse_inverts_c_name(TypeTag::Void);
        lemma_parse_inverts_c_name(TypeTag::Int32);
        lemma_parse_inverts_c_name(TypeTag::SignedWord);
        lemma_parse_inverts_c_name(TypeTag::UnsignedWord);
        lemma_parse_inverts_c_name(TypeTag::ConstBytePtr);
        lemma_parse_inverts_c_name(TypeTag::MutBytePtr);
    }
    let ghost expected = standard_entries();

    let exit_parameters: [(&str, &str); 1] = [("int", "status")];
    proof {
        let rows = declared(exit_parameters@);
        assert(rows[0] == ("int"@, "status"@));
        assert(parameter_type_supported(rows[0].0));
        assert(row_entry("exit"@, 1, "void"@, rows).parameters =~= expected[0].parameters);
    }
    let r = table.register("exit", __NR_EXIT, "void", exit_parameters.as_slice());
    assert(r is Ok && table@ == seq![expected[0]]);

    let write_parameters: [(&str, &str); 3] = [
        ("int", "fd"),
        ("const char *", "buf"),
        ("size_t", "len"),
    ];
    proof {
        let rows = declared(write_parameters@);
        assert(rows[0] == ("int"@, "fd"@));
        assert(rows[1] == ("const char *"@, "buf"@));
        assert(rows[2] == ("size_t"@, "len"@));
        assert(parameter_type_supported(rows[0].0));
        assert(parameter_type_supported(rows[1].0));
        assert(parameter_type_supported(rows[2].0));
        assert(row_entry("write"@, 2, "long"@, rows).parameters =~= expected[1].parameters);
    }
    let r = table.register("write", __NR_WRITE, "long", write_parameters.as_slice());
    assert(r is Ok && table@ == seq![expected[0], expected[1]]);

    let read_parameters: [(&str, &str); 3] = [("int", "fd"), ("char *", "buf"), ("size_t", "count")];
    proof {
        let rows = declared(read_parameters@);
        assert(rows[0] == ("int"@, "fd"@));
        assert(rows[1] == ("char *"@, "buf"@));
        assert(rows[2] == ("size_t"@, "count"@));
        assert(parameter_type_supported(rows[0].0));
        assert(parameter_type_supported(rows[1].0));
        assert(parameter_type_supported(rows[2].0));
        assert(row_entry("read"@, 3, "long"@, rows).parameters =~= expected[2].parameters);
    }
    let r = table.register("read", __NR_READ, "long", read_parameters.as_slice());
    assert(r is Ok && table@ == seq![expected[0], expected[1], expected[2]]);

    let no_parameters: [(&str, &str); 0] = [];
    proof {
        let rows = declared(no_parameters@);
        assert(row_entry("yield"@, 4, "void"@, rows).parameters =~= expected[3].parameters);
        assert(row_entry("getpid"@, 5, "int"@, rows).parameters =~= expected[4].parameters);
    }
    let r = table.register("yield", __NR_YIELD, "void", no_parameters.as_slice());
    assert(r is Ok && table@ == seq![expected[0], expected[1], expected[2], expected[3]]);

    let r = table.register("getpid", __NR_GETPID, "int", no_parameters.as_slice());
    assert(r is Ok && table@ == expected);
    table
}

} // verus!
