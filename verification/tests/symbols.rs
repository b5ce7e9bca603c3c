use debugger::debugger::{DebugInfo, Symbol};
use debugger::error::Error;

fn symbol(name: &str, low_pc: u64, high_pc: u64) -> Symbol {
    Symbol { name: name.to_string(), low_pc, high_pc }
}

fn put(image: &mut Vec<u8>, at: usize, width: usize, value: u64) {
    for i in 0..width {
        image[at + i] = (value >> (8 * i)) as u8;
    }
}

struct Entry {
    name: u32,
    info: u8,
    home: u16,
    value: u64,
    size: u64,
}

/// An image with three sections: none, the symbol table, the names.
fn image_of(entries: &[Entry], names: &[u8]) -> Vec<u8> {
    let table_at = 64 + 3 * 64;
    let names_at = table_at + 24 * entries.len();
    let mut image = vec![0u8; names_at + names.len()];
    image[0] = 0x7f;
    image[1] = b'E';
    image[2] = b'L';
    image[3] = b'F';
    image[4] = 2;
    image[5] = 1;
    put(&mut image, 0x28, 8, 64);
    put(&mut image, 0x3a, 2, 64);
    put(&mut image, 0x3c, 2, 3);
    let table = 64 + 64;
    put(&mut image, table + 4, 4, 2);
    put(&mut image, table + 0x18, 8, table_at as u64);
    put(&mut image, table + 0x20, 8, 24 * entries.len() as u64);
    put(&mut image, table + 0x28, 4, 2);
    put(&mut image, table + 0x38, 8, 24);
    let strings = 64 + 128;
    put(&mut image, strings + 4, 4, 3);
    put(&mut image, strings + 0x18, 8, names_at as u64);
    put(&mut image, strings + 0x20, 8, names.len() as u64);
    for (i, entry) in entries.iter().enumerate() {
        let at = table_at + 24 * i;
        put(&mut image, at, 4, entry.name as u64);
        image[at + 4] = entry.info;
        put(&mut image, at + 6, 2, entry.home as u64);
        put(&mut image, at + 8, 8, entry.value);
        put(&mut image, at + 16, 8, entry.size);
    }
    image[names_at..].copy_from_slice(names);
    image
}

fn toy_entries() -> Vec<Entry> {
    vec![
        Entry { name: 0, info: 0, home: 0, value: 0, size: 0 },
        Entry { name: 1, info: 0x12, home: 1, value: 0x4010a0, size: 0x24 },
        Entry { name: 6, info: 0x11, home: 2, value: 0x404000, size: 8 },
        Entry { name: 11, info: 0x12, home: 0, value: 0, size: 0 },
        Entry { name: 18, info: 0x02, home: 1, value: 0x401000, size: 0x10 },
    ]
}

const TOY_NAMES: &[u8] = b"\0main\0data\0printf\0_start\0";

#[test]
fn empty_table_has_no_symbols() {
    let info = DebugInfo::empty();
    assert_eq!(info.len(), 0);
    assert_eq!(info.get("main"), None);
    assert!(info.symbols().is_empty());
}

#[test]
fn insert_then_get_by_exact_name() {
    let mut info = DebugInfo::empty();
    info.insert(symbol("main", 0x4010a0, 0x24));
    info.insert(symbol("helper", 0x401000, 0x10));
    assert_eq!(info.len(), 2);
    assert_eq!(info.get("main"), Some(&symbol("main", 0x4010a0, 0x24)));
    assert_eq!(info.get("helper"), Some(&symbol("helper", 0x401000, 0x10)));
    assert_eq!(info.get("Main"), None);
    assert_eq!(info.get("mai"), None);
    assert_eq!(info.get("main "), None);
}

#[test]
fn insert_replaces_a_symbol_of_the_same_name() {
    let mut info = DebugInfo::empty();
    info.insert(symbol("main", 1, 2));
    info.insert(symbol("other", 3, 4));
    info.insert(symbol("main", 5, 6));
    assert_eq!(info.len(), 2);
    assert_eq!(info.get("main"), Some(&symbol("main", 5, 6)));
    assert_eq!(info.symbols(), &vec![symbol("main", 5, 6), symbol("other", 3, 4)]);
}

#[test]
fn reads_the_functions_of_an_image() {
    let info = DebugInfo::new(&image_of(&toy_entries(), TOY_NAMES)).unwrap();
    assert_eq!(info.len(), 2);
    assert_eq!(info.get("main"), Some(&symbol("main", 0x4010a0, 0x24)));
    assert_eq!(info.get("_start"), Some(&symbol("_start", 0x401000, 0x10)));
    // An object is no function, and a function that is only referred to has no code here.
    assert_eq!(info.get("data"), None);
    assert_eq!(info.get("printf"), None);
}

#[test]
fn later_function_of_a_name_stays() {
    let entries = vec![
        Entry { name: 1, info: 0x12, home: 1, value: 0x10, size: 1 },
        Entry { name: 1, info: 0x12, home: 1, value: 0x20, size: 2 },
    ];
    let info = DebugInfo::new(&image_of(&entries, b"\0f\0")).unwrap();
    assert_eq!(info.symbols(), &vec![symbol("f", 0x20, 2)]);
}

#[test]
fn image_without_symbol_table_has_no_symbols() {
    let mut image = vec![0u8; 64];
    image[..6].copy_from_slice(&[0x7f, b'E', b'L', b'F', 2, 1]);
    assert_eq!(DebugInfo::new(&image), Ok(DebugInfo::empty()));
}

#[test]
fn refuses_what_is_no_elf_image() {
    assert_eq!(DebugInfo::new(&[]), Err(Error::Malformed));
    assert_eq!(DebugInfo::new(b"#!/bin/sh\n"), Err(Error::Malformed));
    let mut image = image_of(&toy_entries(), TOY_NAMES);
    image[4] = 1;
    assert_eq!(DebugInfo::new(&image), Err(Error::Malformed));
    let mut image = image_of(&toy_entries(), TOY_NAMES);
    image[5] = 2;
    assert_eq!(DebugInfo::new(&image), Err(Error::Malformed));
}

#[test]
fn refuses_a_table_beyond_the_end() {
    let mut image = image_of(&toy_entries(), TOY_NAMES);
    let length = image.len() as u64;
    put(&mut image, 128 + 0x20, 8, length);
    assert_eq!(DebugInfo::new(&image), Err(Error::Malformed));
    let mut image = image_of(&toy_entries(), TOY_NAMES);
    put(&mut image, 0x28, 8, u64::MAX - 10);
    assert_eq!(DebugInfo::new(&image), Err(Error::Malformed));
    let mut image = image_of(&toy_entries(), TOY_NAMES);
    put(&mut image, 128 + 0x28, 4, 3);
    assert_eq!(DebugInfo::new(&image), Err(Error::Malformed));
}

#[test]
fn refuses_a_name_that_does_not_end() {
    let image = image_of(&toy_entries(), b"\0main\0data\0printf\0_start");
    assert_eq!(DebugInfo::new(&image), Err(Error::Malformed));
    let entries = vec![Entry { name: 40, info: 0x12, home: 1, value: 1, size: 1 }];
    assert_eq!(DebugInfo::new(&image_of(&entries, b"\0f\0")), Err(Error::Malformed));
}

#[test]
fn refuses_a_name_that_is_not_utf8() {
    let entries = vec![Entry { name: 1, info: 0x12, home: 1, value: 1, size: 1 }];
    assert_eq!(DebugInfo::new(&image_of(&entries, b"\0\xff\xfe\0")), Err(Error::Malformed));
}

#[test]
fn reads_a_name_beyond_ascii() {
    let entries = vec![Entry { name: 1, info: 0x12, home: 1, value: 7, size: 9 }];
    let info = DebugInfo::new(&image_of(&entries, "\0gr\u{fc}\u{df}e\0".as_bytes())).unwrap();
    assert_eq!(info.get("gr\u{fc}\u{df}e"), Some(&symbol("gr\u{fc}\u{df}e", 7, 9)));
}
