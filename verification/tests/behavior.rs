use encunzip::encodings::{check_name, decode_name, find_encoding, supported_encodings};
use encunzip::filter::default_encoding;
use encunzip::{Archive, ExtractStep, Extractor, UnzipError};

/// Builds a stored (uncompressed) zip archive in memory from raw entry
/// names and contents.
fn build_zip(entries: &[(&[u8], &[u8])]) -> Vec<u8> {
    let mut out: Vec<u8> = Vec::new();
    let mut offsets: Vec<u32> = Vec::new();
    for (name, data) in entries {
        offsets.push(out.len() as u32);
        let crc = crc32fast::hash(data);
        out.extend_from_slice(&[0x50, 0x4b, 0x03, 0x04]);
        out.extend_from_slice(&20u16.to_le_bytes()); // version needed
        out.extend_from_slice(&0u16.to_le_bytes()); // flags
        out.extend_from_slice(&0u16.to_le_bytes()); // method: stored
        out.extend_from_slice(&0u16.to_le_bytes()); // mod time
        out.extend_from_slice(&0x21u16.to_le_bytes()); // mod date
        out.extend_from_slice(&crc.to_le_bytes());
        out.extend_from_slice(&(data.len() as u32).to_le_bytes());
        out.extend_from_slice(&(data.len() as u32).to_le_bytes());
        out.extend_from_slice(&(name.len() as u16).to_le_bytes());
        out.extend_from_slice(&0u16.to_le_bytes());
        out.extend_from_slice(name);
        out.extend_from_slice(data);
    }
    let central_start = out.len() as u32;
    for (k, (name, data)) in entries.iter().enumerate() {
        let crc = crc32fast::hash(data);
        out.extend_from_slice(&[0x50, 0x4b, 0x01, 0x02]);
        out.extend_from_slice(&20u16.to_le_bytes()); // version made by
        out.extend_from_slice(&20u16.to_le_bytes()); // version needed
        out.extend_from_slice(&0u16.to_le_bytes()); // flags
        out.extend_from_slice(&0u16.to_le_bytes()); // method: stored
        out.extend_from_slice(&0u16.to_le_bytes()); // mod time
        out.extend_from_slice(&0x21u16.to_le_bytes()); // mod date
        out.extend_from_slice(&crc.to_le_bytes());
        out.extend_from_slice(&(data.len() as u32).to_le_bytes());
        out.extend_from_slice(&(data.len() as u32).to_le_bytes());
        out.extend_from_slice(&(name.len() as u16).to_le_bytes());
        out.extend_from_slice(&0u16.to_le_bytes()); // extra len
        out.extend_from_slice(&0u16.to_le_bytes()); // comment len
        out.extend_from_slice(&0u16.to_le_bytes()); // disk number
        out.extend_from_slice(&0u16.to_le_bytes()); // internal attrs
        out.extend_from_slice(&0u32.to_le_bytes()); // external attrs
        out.extend_from_slice(&offsets[k].to_le_bytes());
        out.extend_from_slice(name);
    }
    let central_size = out.len() as u32 - central_start;
    out.extend_from_slice(&[0x50, 0x4b, 0x05, 0x06]);
    out.extend_from_slice(&0u16.to_le_bytes());
    out.extend_from_slice(&0u16.to_le_bytes());
    out.extend_from_slice(&(entries.len() as u16).to_le_bytes());
    out.extend_from_slice(&(entries.len() as u16).to_le_bytes());
    out.extend_from_slice(&central_size.to_le_bytes());
    out.extend_from_slice(&central_start.to_le_bytes());
    out.extend_from_slice(&0u16.to_le_bytes());
    out
}

/// The names of the candidate encodings of an archive, in order.
fn candidate_names(bytes: Vec<u8>) -> Vec<String> {
    let mut archive = Archive::open(bytes).expect("archive opens");
    let cands = archive.possible_encodings().expect("filter runs");
    cands.iter().map(|e| e.name().to_string()).collect()
}

// Shift-JIS bytes of a katakana name; not valid UTF-8.
const SJIS_NAME: &[u8] = &[0x83, 0x65, 0x83, 0x58, 0x83, 0x67, b'.', b't', b'x', b't'];

#[test]
fn supported_table_order() {
    let all = supported_encodings();
    assert_eq!(all.len(), 39);
    assert_eq!(all[0].name(), "UTF-8");
    assert_eq!(all[1].name(), "gb18030");
    assert_eq!(all[23].name(), "Shift_JIS");
    assert_eq!(all[27].name(), "replacement");
    assert_eq!(all[38].name(), "x-mac-cyrillic");
}

#[test]
fn find_encoding_exact_match() {
    let e = find_encoding("Shift_JIS").expect("canonical name is found");
    assert_eq!(e.name(), "Shift_JIS");
    let u = find_encoding("UTF-8").expect("canonical name is found");
    assert_eq!(u.name(), "UTF-8");
}

#[test]
fn find_encoding_rejects_unknown_name() {
    assert!(find_encoding("bogus").is_none());
    // the match is case-sensitive and exact
    assert!(find_encoding("shift_jis").is_none());
    assert!(find_encoding("utf-8").is_none());
    assert!(find_encoding("").is_none());
}

#[test]
fn decode_name_translates_bytes() {
    let sjis = find_encoding("Shift_JIS").unwrap();
    let (text, had_errors) = decode_name(&sjis, SJIS_NAME);
    assert!(!had_errors);
    // the decoder translated the bytes; it did not hand them back
    assert_eq!(text, "\u{30c6}\u{30b9}\u{30c8}.txt");
}

#[test]
fn decode_name_reports_errors() {
    let utf8 = find_encoding("UTF-8").unwrap();
    let (_, had_errors) = decode_name(&utf8, SJIS_NAME);
    assert!(had_errors);
    let sjis = find_encoding("Shift_JIS").unwrap();
    let (_, bad_sjis) = decode_name(&sjis, &[0xfd, b'a']);
    assert!(bad_sjis);
}

#[test]
fn check_name_requires_nonempty_decode() {
    let utf8 = find_encoding("UTF-8").unwrap();
    assert!(check_name(&utf8, b"hello.txt"));
    assert!(!check_name(&utf8, b"")); // decodes cleanly but to empty text
    assert!(!check_name(&utf8, SJIS_NAME)); // decode error
}

#[test]
fn utf8_archive_lists_utf8_first() {
    let bytes = build_zip(&[(b"hello.txt", b"hi")]);
    let names = candidate_names(bytes);
    assert!(names.contains(&"UTF-8".to_string()));
    assert_eq!(names[0], "UTF-8");
}

#[test]
fn extract_with_first_candidate() {
    // with no encoding requested, the first passing candidate is used
    let bytes = build_zip(&[(b"hello.txt", b"hi")]);
    let mut archive = Archive::open(bytes).unwrap();
    let first = default_encoding(&archive.possible_encodings().unwrap()).unwrap();
    assert_eq!(first.name(), "UTF-8");
    let mut run = Extractor::new(archive, first);
    match run.step() {
        ExtractStep::WriteFile { path, data } => {
            assert_eq!(path, "hello.txt");
            assert_eq!(data, b"hi");
        }
        _ => panic!("expected a file write"),
    }
    assert!(matches!(run.step(), ExtractStep::Done));
}

#[test]
fn sjis_archive_excludes_utf8() {
    let bytes = build_zip(&[(SJIS_NAME, b"data")]);
    let names = candidate_names(bytes);
    assert!(!names.contains(&"UTF-8".to_string()));
    assert!(names.contains(&"Shift_JIS".to_string()));
}

#[test]
fn filter_soundness_on_candidates() {
    // every returned encoding decodes every name without error and
    // to non-empty text
    let bytes = build_zip(&[(b"hello.txt", b"hi"), (SJIS_NAME, b"x")]);
    let mut archive = Archive::open(bytes).unwrap();
    let cands = archive.possible_encodings().unwrap();
    let names = archive.all_names().unwrap();
    for e in &cands {
        for raw in &names {
            assert!(check_name(e, raw));
        }
    }
}

#[test]
fn filter_completeness_on_rejected() {
    // every supported encoding not returned fails on some name
    let bytes = build_zip(&[(b"hello.txt", b"hi"), (SJIS_NAME, b"x")]);
    let mut archive = Archive::open(bytes).unwrap();
    let cands = archive.possible_encodings().unwrap();
    let names = archive.all_names().unwrap();
    for e in supported_encodings() {
        if !cands.contains(&e) {
            assert!(names.iter().any(|raw| !check_name(&e, raw)));
        }
    }
}

#[test]
fn filter_preserves_table_order() {
    let bytes = build_zip(&[(b"hello.txt", b"hi")]);
    let mut archive = Archive::open(bytes).unwrap();
    let cands = archive.possible_encodings().unwrap();
    let all = supported_encodings();
    let table_pos: Vec<usize> =
        cands.iter().map(|e| all.iter().position(|f| f == e).unwrap()).collect();
    assert!(table_pos.windows(2).all(|w| w[0] < w[1]));
}

#[test]
fn filter_drops_everything_on_empty_name() {
    let bytes = build_zip(&[(b"", b"")]);
    let mut archive = Archive::open(bytes).unwrap();
    let cands = archive.possible_encodings().unwrap();
    assert!(cands.is_empty());
    // with no candidate there is no default encoding either
    assert!(default_encoding(&cands).is_none());
}

#[test]
fn extraction_hands_content_verbatim() {
    let bytes = build_zip(&[(b"a/b.txt", b"hello world")]);
    let archive = Archive::open(bytes).unwrap();
    let utf8 = find_encoding("UTF-8").unwrap();
    let mut run = Extractor::new(archive, utf8);
    match run.step() {
        ExtractStep::WriteFile { path, data } => {
            assert_eq!(path, "a/b.txt");
            assert_eq!(data, b"hello world");
        }
        _ => panic!("expected a file write"),
    }
    assert!(matches!(run.step(), ExtractStep::Done));
}

#[test]
fn extraction_orders_directory_before_file() {
    let bytes = build_zip(&[(b"dir/", b""), (b"dir/f.txt", b"content")]);
    let archive = Archive::open(bytes).unwrap();
    let utf8 = find_encoding("UTF-8").unwrap();
    let mut run = Extractor::new(archive, utf8);
    match run.step() {
        ExtractStep::MakeDir { path } => assert_eq!(path, "dir/"),
        _ => panic!("expected a directory"),
    }
    match run.step() {
        ExtractStep::WriteFile { path, data } => {
            assert_eq!(path, "dir/f.txt");
            assert_eq!(data, b"content");
        }
        _ => panic!("expected a file write"),
    }
    assert!(matches!(run.step(), ExtractStep::Done));
}

#[test]
fn extraction_aborts_at_undecodable_name() {
    let bytes = build_zip(&[
        (b"ok.txt", b"first"),
        (&[0xff, 0xfe, b'x'], b"second"),
        (b"later.txt", b"third"),
    ]);
    let archive = Archive::open(bytes).unwrap();
    let utf8 = find_encoding("UTF-8").unwrap();
    let mut run = Extractor::new(archive, utf8);
    // the entry before the bad name is still handed out
    match run.step() {
        ExtractStep::WriteFile { path, data } => {
            assert_eq!(path, "ok.txt");
            assert_eq!(data, b"first");
        }
        _ => panic!("expected a file write"),
    }
    // the bad name aborts the whole run at its own index
    match run.step() {
        ExtractStep::Fail { error } => match error {
            UnzipError::NameDecode { index } => assert_eq!(index, 1),
            UnzipError::Container { .. } => panic!("expected a decode failure"),
        },
        _ => panic!("expected the run to abort"),
    }
}

#[test]
fn extraction_succeeds_with_matching_encoding() {
    let bytes = build_zip(&[(SJIS_NAME, b"payload")]);
    let archive = Archive::open(bytes).unwrap();
    let sjis = find_encoding("Shift_JIS").unwrap();
    let mut run = Extractor::new(archive, sjis);
    match run.step() {
        ExtractStep::WriteFile { path, data } => {
            assert_eq!(path, "\u{30c6}\u{30b9}\u{30c8}.txt");
            assert_eq!(data, b"payload");
        }
        _ => panic!("expected a file write"),
    }
}

#[test]
fn corrupt_content_is_a_container_abort() {
    let mut bytes = build_zip(&[(b"f.txt", b"hello")]);
    // the stored content of the single entry sits right after the
    // 30-byte local header and the name; flipping a byte breaks the
    // checksum, so the content cannot be read in full
    let start = 30 + "f.txt".len();
    bytes[start] ^= 0xff;
    let archive = Archive::open(bytes).unwrap();
    let utf8 = find_encoding("UTF-8").unwrap();
    let mut run = Extractor::new(archive, utf8);
    match run.step() {
        ExtractStep::Fail { error } => {
            assert!(matches!(error, UnzipError::Container { .. }))
        }
        _ => panic!("expected a container abort"),
    }
}

#[test]
fn listing_skips_undecodable_entry() {
    let bytes = build_zip(&[(&[0xfd, b'a'], b"x"), (b"fine.txt", b"y")]);
    let mut archive = Archive::open(bytes).unwrap();
    let sjis = find_encoding("Shift_JIS").unwrap();
    let listed = archive.decoded_names(&sjis).unwrap();
    assert_eq!(listed.len(), 2);
    assert!(listed[0].is_none()); // skipped, not fatal
    assert_eq!(listed[1].as_deref(), Some("fine.txt"));
}

#[test]
fn invalid_archive_is_a_container_error() {
    match Archive::open(b"this is not a zip archive".to_vec()) {
        Err(UnzipError::Container { text }) => assert!(!text.is_empty()),
        _ => panic!("expected a container error"),
    }
    match Archive::open(Vec::new()) {
        Err(err) => assert!(!err.message().is_empty()),
        Ok(_) => panic!("expected a container error"),
    }
}
