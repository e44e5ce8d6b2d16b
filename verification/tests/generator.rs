use rvos_core::generator::{
    generate, generate_callee_prototypes, generate_caller_prototypes, generate_identifier_listing,
    generate_rust_syscall_interface,
};
use rvos_core::syscall_interface::syscall_table;
use rvos_core::table::{OperationTable, TableError};

fn text(bytes: &[u8]) -> String {
    String::from_utf8(bytes.to_vec()).unwrap()
}

const STANDARD_LISTING: &str = "#ifndef _SYSCALL_NUMBERS_H\n\
         #define _SYSCALL_NUMBERS_H\n\
         \n\
         #define __NR_EXIT 1\n\
         #define __NR_WRITE 2\n\
         #define __NR_READ 3\n\
         #define __NR_YIELD 4\n\
         #define __NR_GETPID 5\n\
         \n\
         #endif\n\
         ";

const STANDARD_CALLER_PROTOTYPES: &str = "#ifndef _USER_SYSCALLS_H\n\
         #define _USER_SYSCALLS_H\n\
         \n\
         #include <stddef.h>  // for size_t\n\
         #include \"kernel/syscall_numbers.h\"\n\
         // Note: _syscallN macros are now provided by Rust implementation\n\
         // C programs should link with Rust library to get syscall functions\n\
         \n\
         extern void exit(int status);\n\
         extern long write(int fd, const char * buf, size_t len);\n\
         extern long read(int fd, char * buf, size_t count);\n\
         extern void yield(void);\n\
         extern int getpid(void);\n\
         \n\
         #endif\n\
         ";

const STANDARD_CALLEE_PROTOTYPES: &str = "#ifndef _DO_FUNCTIONS_H\n\
         #define _DO_FUNCTIONS_H\n\
         \n\
         #include <stddef.h>\n\
         \n\
         #ifdef __cplusplus\n\
         extern \"C\" {\n\
         #endif\n\
         \n\
         void do_exit(int status);\n\
         long do_write(int fd, const char * buf, size_t len);\n\
         long do_read(int fd, char * buf, size_t count);\n\
         void do_yield(void);\n\
         int do_getpid(void);\n\
         \n\
         #ifdef __cplusplus\n\
         }\n\
         #endif\n\
         \n\
         #endif\n\
         ";

const STANDARD_WRAPPER_SOURCE: &str = "// 系统调用统一接口 - 由build.rs自动生成\n\
         // 警告：请勿手动编辑此文件！所有修改应该在build.rs中进行\n\
         #[allow(dead_code)]\n\
         \n\
         // 系统调用号常量（与C头文件保持一致）\n\
         pub const __NR_EXIT: usize = 1;\n\
         pub const __NR_WRITE: usize = 2;\n\
         pub const __NR_READ: usize = 3;\n\
         pub const __NR_YIELD: usize = 4;\n\
         pub const __NR_GETPID: usize = 5;\n\
         \n\
         // Rust用户态系统调用函数（与C函数同名）\n\
         #[no_mangle]\n\
         pub extern \"C\" fn exit(status: i32) -> () {\n\
         \x20\x20\x20\x20syscall_raw(__NR_EXIT, &[status as usize])\n\
         }\n\
         \n\
         #[no_mangle]\n\
         pub extern \"C\" fn write(fd: i32, buf: *const u8, len: usize) -> isize {\n\
         \x20\x20\x20\x20syscall_raw(__NR_WRITE, &[fd as usize, buf as usize, len as usize])\n\
         }\n\
         \n\
         #[no_mangle]\n\
         pub extern \"C\" fn read(fd: i32, buf: *mut u8, count: usize) -> isize {\n\
         \x20\x20\x20\x20syscall_raw(__NR_READ, &[fd as usize, buf as usize, count as usize])\n\
         }\n\
         \n\
         #[no_mangle]\n\
         pub extern \"C\" fn r#yield() -> () {\n\
         \x20\x20\x20\x20syscall_raw(__NR_YIELD, &[])\n\
         }\n\
         \n\
         #[no_mangle]\n\
         pub extern \"C\" fn getpid() -> i32 {\n\
         \x20\x20\x20\x20syscall_raw(__NR_GETPID, &[])\n\
         }\n\
         \n\
         // do_函数的extern声明（供内核调用，可以是C或Rust实现）\n\
         extern \"C\" {\n\
         \x20\x20\x20\x20fn do_exit(status: i32) -> ();\n\
         \x20\x20\x20\x20fn do_write(fd: i32, buf: *const u8, len: usize) -> isize;\n\
         \x20\x20\x20\x20fn do_read(fd: i32, buf: *mut u8, count: usize) -> isize;\n\
         \x20\x20\x20\x20fn do_yield() -> ();\n\
         \x20\x20\x20\x20fn do_getpid() -> i32;\n\
         }\n\
         \n\
         // 辅助函数：执行原始系统调用\n\
         fn syscall_raw<T>(nr: usize, args: &[usize]) -> T {\n\
         \x20\x20\x20\x20let mut ret: isize;\n\
         \x20\x20\x20\x20unsafe {\n\
         \x20\x20\x20\x20\x20\x20\x20\x20match args.len() {\n\
         \x20\x20\x20\x20\x20\x20\x20\x20\x20\x20\x20\x200 => core::arch::asm!(\n\
         \x20\x20\x20\x20\x20\x20\x20\x20\x20\x20\x20\x20\x20\x20\x20\x20\"ecall\",\n\
         \x20\x20\x20\x20\x20\x20\x20\x20\x20\x20\x20\x20\x20\x20\x20\x20in(\"a7\") nr,\n\
         \x20\x20\x20\x20\x20\x20\x20\x20\x20\x20\x20\x20\x20\x20\x20\x20lateout(\"a0\") ret,\n\
         \x20\x20\x20\x20\x20\x20\x20\x20\x20\x20\x20\x20\x20\x20\x20\x20options(nostack)\n\
         \x20\x20\x20\x20\x20\x20\x20\x20\x20\x20\x20\x20),\n\
         \x20\x20\x20\x20\x20\x20\x20\x20\x20\x20\x20\x201 => core::arch::asm!(\n\
         \x20\x20\x20\x20\x20\x20\x20\x20\x20\x20\x20\x20\x20\x20\x20\x20\"ecall\",\n\
         \x20\x20\x20\x20\x20\x20\x20\x20\x20\x20\x20\x20\x20\x20\x20\x20in(\"a7\") nr,\n\
         \x20\x20\x20\x20\x20\x20\x20\x20\x20\x20\x20\x20\x20\x20\x20\x20in(\"a0\") args[0],\n\
         \x20\x20\x20\x20\x20\x20\x20\x20\x20\x20\x20\x20\x20\x20\x20\x20lateout(\"a0\") ret,\n\
         \x20\x20\x20\x20\x20\x20\x20\x20\x20\x20\x20\x20\x20\x20\x20\x20options(nostack)\n\
         \x20\x20\x20\x20\x20\x20\x20\x20\x20\x20\x20\x20),\n\
         \x20\x20\x20\x20\x20\x20\x20\x20\x20\x20\x20\x202 => core::arch::asm!(\n\
         \x20\x20\x20\x20\x20\x20\x20\x20\x20\x20\x20\x20\x20\x20\x20\x20\"ecall\",\n\
         \x20\x20\x20\x20\x20\x20\x20\x20\x20\x20\x20\x20\x20\x20\x20\x20in(\"a7\") nr,\n\
         \x20\x20\x20\x20\x20\x20\x20\x20\x20\x20\x20\x20\x20\x20\x20\x20in(\"a0\") args[0],\n\
         \x20\x20\x20\x20\x20\x20\x20\x20\x20\x20\x20\x20\x20\x20\x20\x20in(\"a1\") args[1],\n\
         \x20\x20\x20\x20\x20\x20\x20\x20\x20\x20\x20\x20\x20\x20\x20\x20lateout(\"a0\") ret,\n\
         \x20\x20\x20\x20\x20\x20\x20\x20\x20\x20\x20\x20\x20\x20\x20\x20options(nostack)\n\
         \x20\x20\x20\x20\x20\x20\x20\x20\x20\x20\x20\x20),\n\
         \x20\x20\x20\x20\x20\x20\x20\x20\x20\x20\x20\x203 => core::arch::asm!(\n\
         \x20\x20\x20\x20\x20\x20\x20\x20\x20\x20\x20\x20\x20\x20\x20\x20\"ecall\",\n\
         \x20\x20\x20\x20\x20\x20\x20\x20\x20\x20\x20\x20\x20\x20\x20\x20in(\"a7\") nr,\n\
         \x20\x20\x20\x20\x20\x20\x20\x20\x20\x20\x20\x20\x20\x20\x20\x20in(\"a0\") args[0],\n\
         \x20\x20\x20\x20\x20\x20\x20\x20\x20\x20\x20\x20\x20\x20\x20\x20in(\"a1\") args[1],\n\
         \x20\x20\x20\x20\x20\x20\x20\x20\x20\x20\x20\x20\x20\x20\x20\x20in(\"a2\") args[2],\n\
         \x20\x20\x20\x20\x20\x20\x20\x20\x20\x20\x20\x20\x20\x20\x20\x20lateout(\"a0\") ret,\n\
         \x20\x20\x20\x20\x20\x20\x20\x20\x20\x20\x20\x20\x20\x20\x20\x20options(nostack)\n\
         \x20\x20\x20\x20\x20\x20\x20\x20\x20\x20\x20\x20),\n\
         \x20\x20\x20\x20\x20\x20\x20\x20\x20\x20\x20\x20_ => panic!(\"Too many arguments for syscall\"),\n\
         \x20\x20\x20\x20\x20\x20\x20\x20}\n\
         \x20\x20\x20\x20\x20\x20\x20\x20core::mem::transmute_copy(&ret)\n\
         \x20\x20\x20\x20}\n\
         }\n\
         \n\
         // 添加新系统调用只需要在build.rs的syscalls数组中增加一行即可！\n\
         ";

#[test]
fn standard_identifier_listing_text() {
    let artifact = generate_identifier_listing(&syscall_table());
    assert_eq!(text(&artifact.text), STANDARD_LISTING);
    assert_eq!(artifact.destination, "../include/kernel/syscall_numbers.h");
}

#[test]
fn standard_caller_prototypes_text() {
    let artifact = generate_caller_prototypes(&syscall_table());
    assert_eq!(text(&artifact.text), STANDARD_CALLER_PROTOTYPES);
    assert_eq!(artifact.destination, "../include/kernel/user_syscalls.h");
}

#[test]
fn standard_callee_prototypes_text() {
    let artifact = generate_callee_prototypes(&syscall_table());
    assert_eq!(text(&artifact.text), STANDARD_CALLEE_PROTOTYPES);
    assert_eq!(artifact.destination, "../include/kernel/do_functions.h");
}

#[test]
fn standard_wrapper_source_text() {
    let artifact = generate_rust_syscall_interface(&syscall_table());
    assert_eq!(text(&artifact.text), STANDARD_WRAPPER_SOURCE);
    assert_eq!(artifact.destination, "src/generated_syscall_interface.rs");
}

#[test]
fn generate_gives_all_four_artifacts() {
    let artifacts = generate(&syscall_table());
    assert_eq!(text(&artifacts.identifier_listing.text), STANDARD_LISTING);
    assert_eq!(text(&artifacts.caller_prototypes.text), STANDARD_CALLER_PROTOTYPES);
    assert_eq!(text(&artifacts.callee_prototypes.text), STANDARD_CALLEE_PROTOTYPES);
    assert_eq!(text(&artifacts.wrapper_source.text), STANDARD_WRAPPER_SOURCE);
}

#[test]
fn regenerating_gives_identical_bytes() {
    let table = syscall_table();
    let first = generate(&table);
    let second = generate(&table);
    assert_eq!(first.identifier_listing.text, second.identifier_listing.text);
    assert_eq!(first.caller_prototypes.text, second.caller_prototypes.text);
    assert_eq!(first.callee_prototypes.text, second.callee_prototypes.text);
    assert_eq!(first.wrapper_source.text, second.wrapper_source.text);
    let rebuilt = generate(&syscall_table());
    assert_eq!(first.wrapper_source.text, rebuilt.wrapper_source.text);
}

#[test]
fn empty_table_gives_prologue_and_epilogue_only() {
    let table = OperationTable::new();
    let artifacts = generate(&table);
    assert_eq!(
        text(&artifacts.identifier_listing.text),
        "#ifndef _SYSCALL_NUMBERS_H\n#define _SYSCALL_NUMBERS_H\n\n\n#endif\n"
    );
    assert_eq!(
        text(&artifacts.callee_prototypes.text),
        "#ifndef _DO_FUNCTIONS_H\n#define _DO_FUNCTIONS_H\n\n#include <stddef.h>\n\n#ifdef __cplusplus\nextern \"C\" {\n#endif\n\n\n#ifdef __cplusplus\n}\n#endif\n\n#endif\n"
    );
}

#[test]
fn exit_listing_holds_constant_one() {
    let mut table = OperationTable::new();
    assert_eq!(table.register("exit", 1, "void", &[("int", "status")]), Ok(()));
    let listing = text(&generate(&table).identifier_listing.text);
    assert_eq!(
        listing,
        "#ifndef _SYSCALL_NUMBERS_H\n#define _SYSCALL_NUMBERS_H\n\n#define __NR_EXIT 1\n\n#endif\n"
    );
    assert!(listing.contains("#define __NR_EXIT 1\n"));
}

#[test]
fn keyword_name_is_escaped_only_where_declared() {
    let mut table = OperationTable::new();
    assert_eq!(table.register("yield", 4, "void", &[]), Ok(()));
    let artifacts = generate(&table);
    let wrapper = text(&artifacts.wrapper_source.text);
    assert!(wrapper.contains("#[no_mangle]\npub extern \"C\" fn r#yield() -> () {\n    syscall_raw(__NR_YIELD, &[])\n}\n"));
    assert!(wrapper.contains("    fn do_yield() -> ();\n"));
    assert!(wrapper.contains("pub const __NR_YIELD: usize = 4;\n"));
    assert!(text(&artifacts.caller_prototypes.text).contains("extern void yield(void);\n"));
    assert!(text(&artifacts.callee_prototypes.text).contains("void do_yield(void);\n"));
    assert!(text(&artifacts.identifier_listing.text).contains("#define __NR_YIELD 4\n"));
}

#[test]
fn every_reserved_word_is_declared_in_raw_form() {
    let words = [
        "as", "break", "const", "continue", "else", "enum", "extern", "false", "fn", "for", "if",
        "impl", "in", "let", "loop", "match", "mod", "move", "mut", "pub", "ref", "return",
        "static", "struct", "trait", "true", "type", "unsafe", "use", "where", "while", "async",
        "await", "dyn", "abstract", "become", "box", "do", "final", "gen", "macro", "override",
        "priv", "try", "typeof", "unsized", "virtual", "yield",
    ];
    for word in words {
        let mut table = OperationTable::new();
        assert_eq!(table.register(word, 9, "int", &[]), Ok(()));
        let artifacts = generate(&table);
        let wrapper = text(&artifacts.wrapper_source.text);
        assert!(wrapper.contains(&format!("pub extern \"C\" fn r#{}() -> i32 {{\n", word)));
        assert!(wrapper.contains(&format!("    fn do_{}() -> i32;\n", word)));
        assert!(text(&artifacts.caller_prototypes.text)
            .contains(&format!("extern int {}(void);\n", word)));
    }
}

#[test]
fn ordinary_name_is_declared_as_it_is() {
    let mut table = OperationTable::new();
    assert_eq!(table.register("yields", 9, "int", &[]), Ok(()));
    let wrapper = text(&generate(&table).wrapper_source.text);
    assert!(wrapper.contains("pub extern \"C\" fn yields() -> i32 {\n"));
    assert!(!wrapper.contains("r#"));
}

#[test]
fn four_parameters_are_rejected_before_anything_is_rendered() {
    let mut table = OperationTable::new();
    let result = table.register(
        "ioctl",
        6,
        "long",
        &[("int", "fd"), ("size_t", "request"), ("char *", "argp"), ("size_t", "len")],
    );
    assert_eq!(result, Err(TableError::TooManyParameters));
    assert_eq!(table.len(), 0);
}

#[test]
fn names_numbers_and_types_are_rendered_per_entry() {
    let mut table = OperationTable::new();
    assert_eq!(
        table.register("map_Region2", 1234567890, "size_t", &[("long", "offset"), ("char *", "at")]),
        Ok(())
    );
    assert_eq!(table.register("_x", 0, "const char *", &[("const char *", "s")]), Ok(()));
    let artifacts = generate(&table);
    assert_eq!(
        text(&artifacts.identifier_listing.text),
        "#ifndef _SYSCALL_NUMBERS_H\n#define _SYSCALL_NUMBERS_H\n\n#define __NR_MAP_REGION2 1234567890\n#define __NR__X 0\n\n#endif\n"
    );
    let callers = text(&artifacts.caller_prototypes.text);
    assert!(callers.contains("extern size_t map_Region2(long offset, char * at);\nextern const char * _x(const char * s);\n"));
    let callees = text(&artifacts.callee_prototypes.text);
    assert!(callees.contains("size_t do_map_Region2(long offset, char * at);\nconst char * do__x(const char * s);\n"));
    let wrapper = text(&artifacts.wrapper_source.text);
    assert!(wrapper.contains("pub const __NR_MAP_REGION2: usize = 1234567890;\npub const __NR__X: usize = 0;\n"));
    assert!(wrapper.contains("pub extern \"C\" fn map_Region2(offset: isize, at: *mut u8) -> usize {\n    syscall_raw(__NR_MAP_REGION2, &[offset as usize, at as usize])\n}\n"));
    assert!(wrapper.contains("pub extern \"C\" fn _x(s: *const u8) -> *const u8 {\n    syscall_raw(__NR__X, &[s as usize])\n}\n"));
    assert!(wrapper.contains("    fn do_map_Region2(offset: isize, at: *mut u8) -> usize;\n    fn do__x(s: *const u8) -> *const u8;\n"));
}

#[test]
fn listing_constants_equal_the_numeric_ids() {
    let mut table = syscall_table();
    assert_eq!(table.register("sleep", 40, "int", &[("size_t", "ticks")]), Ok(()));
    assert_eq!(table.register("big", usize::MAX, "void", &[]), Ok(()));
    let listing = text(&generate(&table).identifier_listing.text);
    let defines: Vec<(String, usize)> = listing
        .lines()
        .filter(|line| line.starts_with("#define __NR_"))
        .map(|line| {
            let mut words = line["#define __NR_".len()..].split(' ');
            let name = words.next().unwrap().to_string();
            let value = words.next().unwrap().parse::<usize>().unwrap();
            assert!(words.next().is_none());
            (name, value)
        })
        .collect();
    assert_eq!(defines.len(), table.len());
    for (i, (name, value)) in defines.iter().enumerate() {
        let entry = table.entry(i).unwrap();
        assert_eq!(*name, entry.name().to_uppercase());
        assert_eq!(*value, entry.numeric_id());
    }
}

#[test]
fn wrapper_constants_equal_the_listing_constants() {
    let table = syscall_table();
    let artifacts = generate(&table);
    let listing = text(&artifacts.identifier_listing.text);
    let wrapper = text(&artifacts.wrapper_source.text);
    for entry in table.entries() {
        let name = entry.name().to_uppercase();
        let id = entry.numeric_id();
        assert!(listing.contains(&format!("#define __NR_{} {}\n", name, id)));
        assert!(wrapper.contains(&format!("pub const __NR_{}: usize = {};\n", name, id)));
    }
}

#[test]
fn each_tag_is_spelled_alike_wherever_it_appears() {
    let spellings = [
        ("int", "i32"),
        ("long", "isize"),
        ("size_t", "usize"),
        ("const char *", "*const u8"),
        ("char *", "*mut u8"),
    ];
    for (c_name, rust_name) in spellings.iter() {
        let mut table = OperationTable::new();
        assert_eq!(
            table.register("first", 1, c_name, &[(c_name, "a"), ("int", "b"), (c_name, "c")]),
            Ok(())
        );
        assert_eq!(table.register("second", 2, "void", &[(c_name, "x")]), Ok(()));
        let artifacts = generate(&table);
        let callers = text(&artifacts.caller_prototypes.text);
        let callees = text(&artifacts.callee_prototypes.text);
        let wrapper = text(&artifacts.wrapper_source.text);
        assert!(callers.contains(&format!(
            "extern {0} first({0} a, int b, {0} c);\nextern void second({0} x);\n",
            c_name
        )));
        assert!(callees.contains(&format!(
            "{0} do_first({0} a, int b, {0} c);\nvoid do_second({0} x);\n",
            c_name
        )));
        assert!(wrapper.contains(&format!(
            "pub extern \"C\" fn first(a: {0}, b: i32, c: {0}) -> {0} {{\n",
            rust_name
        )));
        assert!(wrapper.contains(&format!(
            "pub extern \"C\" fn second(x: {0}) -> () {{\n",
            rust_name
        )));
        assert!(wrapper.contains(&format!(
            "    fn do_first(a: {0}, b: i32, c: {0}) -> {0};\n    fn do_second(x: {0}) -> ();\n",
            rust_name
        )));
    }
}

#[test]
fn entries_stand_in_declaration_order_in_every_artifact() {
    let mut table = OperationTable::new();
    let names = ["zeta", "alpha", "mid", "beta"];
    for (i, name) in names.iter().enumerate() {
        assert_eq!(table.register(name, 10 - i, "int", &[]), Ok(()));
    }
    let artifacts = generate(&table);
    let texts = [
        text(&artifacts.identifier_listing.text),
        text(&artifacts.caller_prototypes.text),
        text(&artifacts.callee_prototypes.text),
    ];
    let marks: [fn(&str) -> String; 3] = [
        |n| format!("#define __NR_{} ", n.to_uppercase()),
        |n| format!("extern int {}(void);", n),
        |n| format!("int do_{}(void);", n),
    ];
    for (artifact, mark) in texts.iter().zip(marks.iter()) {
        let places: Vec<usize> = names.iter().map(|n| artifact.find(&mark(n)).unwrap()).collect();
        assert!(places.windows(2).all(|w| w[0] < w[1]));
    }
    let wrapper = text(&artifacts.wrapper_source.text);
    let marks: [fn(&str) -> String; 3] = [
        |n| format!("pub const __NR_{}: usize", n.to_uppercase()),
        |n| format!("pub extern \"C\" fn {}(", n),
        |n| format!("    fn do_{}(", n),
    ];
    for mark in marks.iter() {
        let places: Vec<usize> = names.iter().map(|n| wrapper.find(&mark(n)).unwrap()).collect();
        assert!(places.windows(2).all(|w| w[0] < w[1]));
    }
}

#[test]
fn wrapper_source_carries_the_trampoline_once() {
    let wrapper = text(&generate(&syscall_table()).wrapper_source.text);
    assert_eq!(wrapper.matches("fn syscall_raw<T>(nr: usize, args: &[usize]) -> T {").count(), 1);
    assert_eq!(wrapper.matches("\"ecall\"").count(), 4);
    assert_eq!(wrapper.matches("in(\"a7\") nr").count(), 4);
    assert_eq!(wrapper.matches("in(\"a0\") args[0]").count(), 3);
    assert_eq!(wrapper.matches("in(\"a1\") args[1]").count(), 2);
    assert_eq!(wrapper.matches("in(\"a2\") args[2]").count(), 1);
    assert_eq!(wrapper.matches("options(nostack)").count(), 4);
    assert_eq!(wrapper.matches("panic!(\"Too many arguments for syscall\")").count(), 1);
}

#[test]
fn parameter_names_are_rendered_as_they_are() {
    let mut table = OperationTable::new();
    assert_eq!(
        table.register("put", 7, "int", &[("char *", "\u{7f13}\u{51b2}"), ("size_t", "n_1")]),
        Ok(())
    );
    let artifacts = generate(&table);
    assert!(text(&artifacts.caller_prototypes.text)
        .contains("extern int put(char * \u{7f13}\u{51b2}, size_t n_1);\n"));
    assert!(text(&artifacts.callee_prototypes.text)
        .contains("int do_put(char * \u{7f13}\u{51b2}, size_t n_1);\n"));
    let wrapper = text(&artifacts.wrapper_source.text);
    assert!(wrapper.contains(
        "pub extern \"C\" fn put(\u{7f13}\u{51b2}: *mut u8, n_1: usize) -> i32 {\n    syscall_raw(__NR_PUT, &[\u{7f13}\u{51b2} as usize, n_1 as usize])\n}\n"
    ));
}

#[test]
fn artifacts_are_valid_utf8_for_the_standard_table() {
    let artifacts = generate(&syscall_table());
    assert!(String::from_utf8(artifacts.identifier_listing.text).is_ok());
    assert!(String::from_utf8(artifacts.caller_prototypes.text).is_ok());
    assert!(String::from_utf8(artifacts.callee_prototypes.text).is_ok());
    assert!(String::from_utf8(artifacts.wrapper_source.text).is_ok());
}

#[test]
fn a_new_row_adds_its_piece_and_changes_nothing_else() {
    let mut table = syscall_table();
    let before = generate(&table);
    assert_eq!(table.register("sleep", 6, "int", &[("size_t", "ticks")]), Ok(()));
    let after = generate(&table);

    let old_listing = text(&before.identifier_listing.text);
    let new_listing = text(&after.identifier_listing.text);
    let cut = old_listing.len() - "\n#endif\n".len();
    assert_eq!(
        new_listing,
        format!("{}#define __NR_SLEEP 6\n{}", &old_listing[..cut], &old_listing[cut..])
    );

    let old_callers = text(&before.caller_prototypes.text);
    let new_callers = text(&after.caller_prototypes.text);
    let cut = old_callers.len() - "\n#endif\n".len();
    assert_eq!(
        new_callers,
        format!("{}extern int sleep(size_t ticks);\n{}", &old_callers[..cut], &old_callers[cut..])
    );

    let old_callees = text(&before.callee_prototypes.text);
    let new_callees = text(&after.callee_prototypes.text);
    let cut = old_callees.len() - "\n#ifdef __cplusplus\n}\n#endif\n\n#endif\n".len();
    assert_eq!(
        new_callees,
        format!("{}int do_sleep(size_t ticks);\n{}", &old_callees[..cut], &old_callees[cut..])
    );

    let old_wrapper = text(&before.wrapper_source.text);
    let new_wrapper = text(&after.wrapper_source.text);
    let with_constant = old_wrapper.replacen(
        "pub const __NR_GETPID: usize = 5;\n",
        "pub const __NR_GETPID: usize = 5;\npub const __NR_SLEEP: usize = 6;\n",
        1,
    );
    let with_function = with_constant.replacen(
        "    syscall_raw(__NR_GETPID, &[])\n}\n\n",
        "    syscall_raw(__NR_GETPID, &[])\n}\n\n#[no_mangle]\npub extern \"C\" fn sleep(ticks: usize) -> i32 {\n    syscall_raw(__NR_SLEEP, &[ticks as usize])\n}\n\n",
        1,
    );
    let with_declaration = with_function.replacen(
        "    fn do_getpid() -> i32;\n",
        "    fn do_getpid() -> i32;\n    fn do_sleep(ticks: usize) -> i32;\n",
        1,
    );
    assert_eq!(new_wrapper, with_declaration);
}
