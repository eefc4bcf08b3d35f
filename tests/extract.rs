use kindler::book::{extract_bytes, ExtractError, KindleBook};

const EXTH_AUTHOR: u32 = 100;
const EXTH_DESCRIPTION: u32 = 103;
const EXTH_ISBN: u32 = 104;
const EXTH_TITLE: u32 = 503;

/// A minimal book container: one record, a MOBI header, an EXTH block with
/// the given records, and the full name.
fn container(name: &str, exth: &[(u32, &str)]) -> Vec<u8> {
    let mut b: Vec<u8> = Vec::new();
    b.extend_from_slice(&[0u8; 32]);
    b.extend_from_slice(&[0u8; 28]);
    b.extend_from_slice(b"BOOK");
    b.extend_from_slice(b"MOBI");
    b.extend_from_slice(&[0u8; 8]);
    b.extend_from_slice(&1u16.to_be_bytes());
    b.extend_from_slice(&88u32.to_be_bytes());
    b.extend_from_slice(&0u32.to_be_bytes());
    b.extend_from_slice(&0u16.to_be_bytes());
    assert_eq!(b.len(), 88);
    b.extend_from_slice(&1u16.to_be_bytes());
    b.extend_from_slice(&[0u8; 14]);

    let mut records: Vec<u8> = Vec::new();
    for (kind, text) in exth {
        records.extend_from_slice(&kind.to_be_bytes());
        records.extend_from_slice(&(8 + text.len() as u32).to_be_bytes());
        records.extend_from_slice(text.as_bytes());
    }
    let mut block: Vec<u8> = Vec::new();
    block.extend_from_slice(b"EXTH");
    block.extend_from_slice(&(12 + records.len() as u32).to_be_bytes());
    block.extend_from_slice(&(exth.len() as u32).to_be_bytes());
    block.extend_from_slice(&records);

    let mut header = vec![0u8; 224];
    let name_offset = (16 + 232 + block.len()) as u32;
    header[60..64].copy_from_slice(&name_offset.to_be_bytes());
    header[64..68].copy_from_slice(&(name.len() as u32).to_be_bytes());
    header[104..108].copy_from_slice(&0x40u32.to_be_bytes());
    b.extend_from_slice(b"MOBI");
    b.extend_from_slice(&232u32.to_be_bytes());
    b.extend_from_slice(&header);
    b.extend_from_slice(&block);
    b.extend_from_slice(name.as_bytes());
    b
}

fn text(s: &str) -> Option<String> {
    Some(s.to_string())
}

#[test]
fn extracts_all_fields() {
    let bytes = container(
        "Alpha",
        &[(EXTH_AUTHOR, "X"), (EXTH_DESCRIPTION, "About alpha"), (EXTH_ISBN, "978-0")],
    );
    let book: KindleBook = extract_bytes(&"A.mobi".to_string(), &bytes).unwrap();
    assert_eq!(book.title, "Alpha");
    assert_eq!(book.author, text("X"));
    assert_eq!(book.description, text("About alpha"));
    assert_eq!(book.isbn, text("978-0"));
}

#[test]
fn absent_fields_stay_absent() {
    let bytes = container("Beta", &[]);
    let book = extract_bytes(&"B.mobi".to_string(), &bytes).unwrap();
    assert_eq!(book.title, "Beta");
    assert_eq!(book.author, None);
    assert_eq!(book.description, None);
    assert_eq!(book.isbn, None);
}

#[test]
fn title_record_wins_over_name() {
    let bytes = container("short_name", &[(EXTH_TITLE, "The Long Title")]);
    let book = extract_bytes(&"C.mobi".to_string(), &bytes).unwrap();
    assert_eq!(book.title, "The Long Title");
}

#[test]
fn missing_title_is_reported() {
    let bytes = container("", &[(EXTH_AUTHOR, "Nobody")]);
    match extract_bytes(&"D.mobi".to_string(), &bytes) {
        Err(ExtractError::MissingTitle { path }) => assert_eq!(path, "D.mobi"),
        other => panic!("unexpected {:?}", other),
    }
}

#[test]
fn garbage_is_unreadable() {
    let bytes = b"this is not a book at all".to_vec();
    match extract_bytes(&"E.mobi".to_string(), &bytes) {
        Err(ExtractError::Unreadable { path, cause }) => {
            assert_eq!(path, "E.mobi");
            assert!(!cause.is_empty());
        }
        other => panic!("unexpected {:?}", other),
    }
}

#[test]
fn empty_file_is_unreadable() {
    let r = extract_bytes(&"F.mobi".to_string(), &Vec::new());
    assert!(matches!(r, Err(ExtractError::Unreadable { .. })));
}

#[test]
fn truncated_container_is_unreadable() {
    let mut bytes = container("Gamma", &[(EXTH_AUTHOR, "Y")]);
    bytes.truncate(120);
    let r = extract_bytes(&"G.mobi".to_string(), &bytes);
    assert!(matches!(r, Err(ExtractError::Unreadable { .. })));
}

#[test]
fn same_as_compares_every_field() {
    let a = extract_bytes(&"A.mobi".to_string(), &container("Alpha", &[(EXTH_AUTHOR, "X")])).unwrap();
    let b = extract_bytes(&"B.mobi".to_string(), &container("Alpha", &[(EXTH_AUTHOR, "X")])).unwrap();
    let c = extract_bytes(&"C.mobi".to_string(), &container("Alpha", &[])).unwrap();
    assert!(a.same_as(&b));
    assert!(!a.same_as(&c));
}
