use target_tester::image::LoadSegment;
use target_tester::image::ProgramHeader;
use target_tester::image::Symbol;
use target_tester::image::TestBinary;
use target_tester::runner::Runner;

fn half(out: &mut Vec<u8>, value: u16) {
    out.extend(value.to_le_bytes());
}

fn word(out: &mut Vec<u8>, value: u32) {
    out.extend(value.to_le_bytes());
}

fn section(out: &mut Vec<u8>, fields: [u32; 10]) {
    for field in fields {
        word(out, field);
    }
}

/// A little-endian 32-bit ELF file with the given program headers (type,
/// offset into the payload, physical address, size in the file), the payload,
/// and the given symbols.
fn elf_file(headers: &[(u32, u32, u32, u32)], payload: &[u8], symbols: &[(&str, u32)]) -> Vec<u8> {
    let payload_at = 52 + 32 * headers.len() as u32;

    let mut strings = vec![0u8];
    let mut entries = vec![0u8; 16];
    for (name, value) in symbols {
        word(&mut entries, strings.len() as u32);
        word(&mut entries, *value);
        word(&mut entries, 0);
        entries.push(0x12);
        entries.push(0);
        half(&mut entries, 0xFFF1);
        strings.extend(name.as_bytes());
        strings.push(0);
    }
    let section_names = b"\0.symtab\0.strtab\0.shstrtab\0".to_vec();

    let mut padded = payload.to_vec();
    while padded.len() % 4 != 0 {
        padded.push(0);
    }
    let symtab_at = payload_at + padded.len() as u32;
    let strtab_at = symtab_at + entries.len() as u32;
    let shstrtab_at = strtab_at + strings.len() as u32;
    let mut tail = Vec::new();
    tail.extend(&entries);
    tail.extend(&strings);
    tail.extend(&section_names);
    while (payload_at as usize + padded.len() + tail.len()) % 4 != 0 {
        tail.push(0);
    }
    let sections_at = payload_at + (padded.len() + tail.len()) as u32;

    let mut file = vec![0x7F, b'E', b'L', b'F', 1, 1, 1, 0, 0, 0, 0, 0, 0, 0, 0, 0];
    half(&mut file, 2);
    half(&mut file, 40);
    word(&mut file, 1);
    word(&mut file, 0);
    word(&mut file, 52);
    word(&mut file, sections_at);
    word(&mut file, 0);
    half(&mut file, 52);
    half(&mut file, 32);
    half(&mut file, headers.len() as u16);
    half(&mut file, 40);
    half(&mut file, 4);
    half(&mut file, 3);
    for (p_type, offset, paddr, size) in headers {
        word(&mut file, *p_type);
        word(&mut file, payload_at + offset);
        word(&mut file, *paddr);
        word(&mut file, *paddr);
        word(&mut file, *size);
        word(&mut file, *size);
        word(&mut file, 7);
        word(&mut file, 4);
    }
    file.extend(&padded);
    file.extend(&tail);
    section(&mut file, [0; 10]);
    section(&mut file, [1, 2, 0, 0, symtab_at, entries.len() as u32, 2, 1, 4, 16]);
    section(&mut file, [9, 3, 0, 0, strtab_at, strings.len() as u32, 0, 0, 1, 0]);
    section(&mut file, [17, 3, 0, 0, shstrtab_at, section_names.len() as u32, 0, 0, 1, 0]);
    file
}

fn demo_file() -> Vec<u8> {
    let mut payload = Vec::new();
    payload.extend(0x2000_8000u32.to_le_bytes());
    payload.extend(0x0800_0141u32.to_le_bytes());
    payload.extend([1, 2, 3, 4, 5, 6, 7, 8]);
    elf_file(
        &[(1, 0, 0x0800_0000, 8), (6, 0, 0, 4), (1, 8, 0x0800_0010, 8), (1, 0, 0x0900_0000, 0)],
        &payload,
        &[
            ("target_test_data", 0x2000_0000),
            ("target_test_fun_to_run", 0x2000_0018),
            ("main", 0x0800_0140),
            ("target_test_test_demo__target_test__ok", 0x0800_2000),
        ],
    )
}

#[test]
fn an_object_file_is_read_into_headers_and_symbols() {
    let bytes = demo_file();
    let binary = TestBinary::parse(bytes.clone()).unwrap();
    assert_eq!(binary.data, bytes);
    assert_eq!(
        binary.segments,
        vec![
            ProgramHeader { p_type: 1, p_offset: 180, p_paddr: 0x0800_0000, p_filesz: 8 },
            ProgramHeader { p_type: 6, p_offset: 180, p_paddr: 0, p_filesz: 4 },
            ProgramHeader { p_type: 1, p_offset: 188, p_paddr: 0x0800_0010, p_filesz: 8 },
            ProgramHeader { p_type: 1, p_offset: 180, p_paddr: 0x0900_0000, p_filesz: 0 },
        ]
    );
    assert_eq!(
        binary.symbols,
        vec![
            Symbol { name: String::new(), address: 0 },
            Symbol { name: "target_test_data".to_string(), address: 0x2000_0000 },
            Symbol { name: "target_test_fun_to_run".to_string(), address: 0x2000_0018 },
            Symbol { name: "main".to_string(), address: 0x0800_0140 },
            Symbol {
                name: "target_test_test_demo__target_test__ok".to_string(),
                address: 0x0800_2000,
            },
        ]
    );
    assert!(binary.is_well_formed());
}

#[test]
fn what_is_no_object_file_is_not_read() {
    assert!(TestBinary::parse(vec![]).is_none());
    assert!(TestBinary::parse(b"not an object file".to_vec()).is_none());
    let mut wrong_class = demo_file();
    wrong_class[4] = 2;
    assert!(TestBinary::parse(wrong_class).is_none());
    let mut cut = demo_file();
    cut.truncate(60);
    assert!(TestBinary::parse(cut).is_none());
}

#[test]
fn a_symbol_name_that_is_no_text_is_not_read() {
    let good = elf_file(&[], &[], &[("abc", 1)]);
    assert!(TestBinary::parse(good.clone()).is_some());
    let at = good.windows(3).position(|w| w == b"abc").unwrap();
    let mut bad = good;
    bad[at + 1] = 0xFF;
    assert!(TestBinary::parse(bad).is_none());
}

#[test]
fn a_session_is_made_of_an_object_file() {
    let binary = TestBinary::parse(demo_file()).unwrap();
    let segments = LoadSegment::get_from_file(&binary);
    assert_eq!(segments.len(), 2);
    let runner = Runner::new(&binary, 0x0800_0000).unwrap();
    assert_eq!(runner.image().start_addr(), 0x0800_0000);
    assert_eq!(runner.image().data().len(), 0x18);
    assert_eq!(&runner.image().data()[8..16], &[0xFF; 8]);
    assert_eq!(&runner.image().data()[16..], &[1, 2, 3, 4, 5, 6, 7, 8]);
    assert_eq!(runner.stack_pointer(), 0x2000_8000);
    assert_eq!(runner.entry_point(), 0x0800_0141);
    assert_eq!(runner.test_data_addr(), 0x2000_0000);
    assert_eq!(runner.run_test_addr(), 0x2000_0018);
    assert_eq!(runner.tests().len(), 1);
    assert_eq!(runner.tests()[0].suite_name, "demo");
    assert_eq!(runner.tests()[0].test_name, "ok");
    assert_eq!(runner.tests()[0].addr, 0x0800_2000);
}
