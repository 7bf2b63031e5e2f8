use std::collections::HashMap;
use tvm_linker::data::DataValue;
use tvm_linker::error::ParseError;
use tvm_linker::func_id::calc_func_id;
use tvm_linker::parser::ParseEngine;

fn chars(s: &str) -> Vec<char> {
    s.chars().collect()
}

fn parse(source: &str, libs: Vec<&str>) -> (ParseEngine, Result<(), ParseError>) {
    let mut parser = ParseEngine::new();
    let r = parser.parse(source, libs);
    (parser, r)
}

#[test]
fn function_id_of_constructor() {
    // The first four bytes of SHA-256("constructor") are e3 c1 70 3a.
    assert_eq!(calc_func_id("constructor"), 0xE3C1703A);
}

#[test]
fn function_id_depends_on_the_name() {
    assert_ne!(calc_func_id("constructor"), calc_func_id("constructor2"));
    assert_eq!(calc_func_id("foo"), calc_func_id("foo"));
}

#[test]
fn two_file_parse() {
    let primary = ".selector\n\tPUSHINT 1\n\tCALL $foo$\n.globl foo\n.type foo, @function\n\tPUSHINT 2\n";
    let library = ".internal-alias :ep, 0\n.internal :ep\n\tPUSHINT 3\n";
    let (parser, r) = parse(primary, vec![library]);
    assert_eq!(r, Ok(()));
    let foo = calc_func_id("foo");
    assert_eq!(parser.entry(), format!("\tPUSHINT 1\n\tCALL {}", foo));
    let globals = parser.globals();
    assert_eq!(globals.get(&foo).map(|s| s.as_str()), Some("\tPUSHINT 2"));
    assert_eq!(globals.len(), 1);
    assert_eq!(parser.internals().get(&0).map(|s| s.as_str()), Some("\tPUSHINT 3"));
    assert_eq!(parser.internal_by_name(":ep"), Some((0, "\tPUSHINT 3".to_string())));
    assert_eq!(parser.internal_by_name(":nope"), None);
    assert_eq!(parser.signed().get(&foo), Some(&false));
}

#[test]
fn data_segment() {
    let primary = ".selector\n\tNOP\n.globl d\n.type d, @object\n.size d, 6\n.short 1\n.long 2\n";
    let (parser, r) = parse(primary, vec![]);
    assert_eq!(r, Ok(()));
    assert_eq!(parser.data(), vec![(0u64, vec![0x00, 0x01]), (1u64, vec![0x00, 0x00, 0x00, 0x02])]);
}

#[test]
fn negative_data_values_are_twos_complement() {
    let primary = ".selector\n\tNOP\n.globl d\n.type d, @object\n.size d, 3\n.byte -128\n.short -2\n";
    let (parser, r) = parse(primary, vec![]);
    assert_eq!(r, Ok(()));
    assert_eq!(parser.data(), vec![(0u64, vec![0x80]), (1u64, vec![0xFF, 0xFE])]);
}

#[test]
fn data_value_write() {
    assert_eq!(DataValue { value: 258, width: 4 }.write(), vec![0, 0, 1, 2]);
    assert_eq!(DataValue { value: -1, width: 8 }.write(), vec![0xFF; 8]);
    assert_eq!(DataValue { value: -1, width: 2 }.write(), vec![0xFF, 0xFF]);
    assert_eq!(DataValue { value: 258, width: 2 }.write(), vec![0x01, 0x02]);
    assert_eq!(DataValue { value: i64::MIN, width: 8 }.write(), vec![0x80, 0, 0, 0, 0, 0, 0, 0]);
}

#[test]
fn size_accounting_exact() {
    let primary = ".selector\n\tNOP\n.globl d\n.type d, @object\n.size d, 8\n.long 1\n.long 2\n";
    assert_eq!(parse(primary, vec![]).1, Ok(()));
}

#[test]
fn size_accounting_too_small() {
    let primary = ".selector\n\tNOP\n.globl d\n.type d, @object\n.size d, 7\n.long 1\n.long 2\n";
    assert_eq!(parse(primary, vec![]).1, Err(ParseError::SizeTooSmall));
}

#[test]
fn size_accounting_too_big() {
    let primary = ".selector\n\tNOP\n.globl d\n.type d, @object\n.size d, 9\n.long 1\n.long 2\n";
    assert_eq!(parse(primary, vec![]).1, Err(ParseError::SizeTooBig));
}

#[test]
fn unsupported_value_kind() {
    let primary = ".selector\n\tNOP\n.globl d\n.type d, @object\n.size d, 2\n.word 1\n";
    assert_eq!(parse(primary, vec![]).1, Err(ParseError::UnsupportedParameter(chars("word"))));
}

#[test]
fn value_out_of_range() {
    let primary = ".selector\n\tNOP\n.globl d\n.type d, @object\n.size d, 1\n.byte 300\n";
    assert_eq!(parse(primary, vec![]).1, Err(ParseError::InvalidNumber));
}

#[test]
fn duplicate_function_across_files() {
    let library = ".globl foo\n.type foo, @function\n\tNOP\n";
    let primary = ".selector\n\tNOP\n.globl foo\n.type foo, @function\n\tNOP\n";
    let (_, r) = parse(primary, vec![library]);
    assert_eq!(r, Err(ParseError::DuplicateGlobal(calc_func_id("foo"))));
}

#[test]
fn duplicate_internal() {
    let primary = ".selector\n\tNOP\n.internal-alias :a, 7\n.internal-alias :b, 7\n.internal :a\n\tNOP\n.internal :b\n\tNOP\n";
    assert_eq!(parse(primary, vec![]).1, Err(ParseError::DuplicateInternal(7)));
}

#[test]
fn selector_uniqueness() {
    let library = ".selector\n\tPUSHINT 1\n";
    let primary = ".selector\n\tPUSHINT 2\n";
    assert_eq!(parse(primary, vec![library]).1, Err(ParseError::AnotherSelector));
}

#[test]
fn selector_presence() {
    let primary = ".globl foo\n.type foo, @function\n\tNOP\n";
    assert_eq!(parse(primary, vec![]).1, Err(ParseError::SelectorNotFound));
}

#[test]
fn alias_required_for_internals() {
    let primary = ".selector\n\tNOP\n.internal :foo\n\tNOP\n";
    assert_eq!(parse(primary, vec![]).1, Err(ParseError::AliasNotFound(chars(":foo"))));
}

#[test]
fn alias_out_of_range() {
    let primary = ".selector\n\tNOP\n.internal-alias :foo, 99999999999\n";
    assert_eq!(
        parse(primary, vec![]).1,
        Err(ParseError::InvalidAlias(chars(".internal-alias :foo, 99999999999\n")))
    );
}

#[test]
fn negative_alias() {
    let primary = ".selector\n\tCALL $:foo$\n.internal-alias :foo, -3\n.internal :foo\n\tNOP\n";
    let (parser, r) = parse(primary, vec![]);
    assert_eq!(r, Ok(()));
    assert_eq!(parser.internals().get(&-3).map(|s| s.as_str()), Some("\tNOP"));
    assert_eq!(parser.entry(), "\tCALL -3");
}

#[test]
fn missing_type() {
    let primary = ".selector\n\tNOP\n.globl foo\n\tNOP\n";
    assert_eq!(parse(primary, vec![]).1, Err(ParseError::UnknownType(chars("foo"))));
}

#[test]
fn signed_suffix_detection() {
    let primary = ".selector\n\tNOP\n.globl foo_authorized\n.type foo_authorized, @function\n\tNOP\n.globl foo_authorized_x\n.type foo_authorized_x, @function\n\tNOP\n";
    let (parser, r) = parse(primary, vec![]);
    assert_eq!(r, Ok(()));
    assert_eq!(parser.signed().get(&calc_func_id("foo_authorized")), Some(&true));
    assert_eq!(parser.signed().get(&calc_func_id("foo_authorized_x")), Some(&false));
}

#[test]
fn label_substitution() {
    let primary = ".selector\n\tNOP\n.globl foo\n.type foo, @function\n\tNOP\n";
    let (parser, r) = parse(primary, vec![]);
    assert_eq!(r, Ok(()));
    let foo = calc_func_id("foo");
    assert_eq!(parser.replace_labels("CALL $foo$"), format!("CALL {}", foo));
    assert_eq!(parser.replace_labels("CALL $bar$"), "CALL ???");
    assert_eq!(parser.replace_labels("$foo$ $bar$ $foo$"), format!("{} ??? {}", foo, foo));
    assert_eq!(parser.replace_labels("no $ references$"), "no $ references$");
}

#[test]
fn labels_and_params_in_bodies() {
    let primary = ".selector\nstart:\n\t.inline x\n\tNOP\n";
    let (parser, r) = parse(primary, vec![]);
    assert_eq!(r, Ok(()));
    assert_eq!(parser.entry(), "\t.inline x\n\tNOP");
}

#[test]
fn globals_is_a_map_of_functions() {
    let primary = ".selector\n\tNOP\n.globl a\n.type a, @function\n\tA\n.globl b\n.type b, @function\n\tB\n";
    let (parser, r) = parse(primary, vec![]);
    assert_eq!(r, Ok(()));
    let mut expected = HashMap::new();
    expected.insert(calc_func_id("a"), "\tA".to_string());
    expected.insert(calc_func_id("b"), "\tB".to_string());
    assert_eq!(parser.globals(), expected);
}

#[test]
fn malformed_size_is_rejected() {
    let primary = ".selector\nNOP\n.globl d\n.type d, @object\n.size d, abc\n";
    assert_eq!(parse(primary, vec![]).1, Err(ParseError::InvalidSize(chars(".size d, abc\n"))));
}

#[test]
fn oversized_size_is_rejected() {
    let primary = ".selector\nNOP\n.globl d\n.type d, @object\n.size d, 99999999999999999999999\n";
    assert_eq!(
        parse(primary, vec![]).1,
        Err(ParseError::InvalidSize(chars(".size d, 99999999999999999999999\n")))
    );
}
