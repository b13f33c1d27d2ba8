use std::io::Write;
use zeroidle::archive::{extraction_plan, plan_zip_extraction, ExtractAction, ZipEntry};

fn build_zip(entries: &[(&str, Option<&[u8]>)]) -> Vec<u8> {
    let mut w = zip::ZipWriter::new(std::io::Cursor::new(Vec::new()));
    let opts = zip::write::SimpleFileOptions::default();
    for (name, contents) in entries {
        match contents {
            None => w.add_directory(*name, opts).unwrap(),
            Some(b) => {
                w.start_file(*name, opts).unwrap();
                w.write_all(b).unwrap();
            }
        }
    }
    w.finish().unwrap().into_inner()
}

fn describe(actions: &[ExtractAction]) -> Vec<(bool, String, Vec<u8>)> {
    actions
        .iter()
        .map(|a| match a {
            ExtractAction::CreateDir(n) => (true, n.replace('\\', "/"), Vec::new()),
            ExtractAction::WriteFile(n, b) => (false, n.replace('\\', "/"), b.clone()),
        })
        .collect()
}

#[test]
fn archive_entries_become_directories_and_files() {
    let bytes = build_zip(&[
        ("tool/", None),
        ("tool/data.bin", Some(b"\x00\x01binary")),
        ("readme.txt", Some(b"hello")),
    ]);
    let (actions, outcome) = plan_zip_extraction(&bytes);
    assert_eq!(outcome, Ok(3));
    let d = describe(&actions);
    assert_eq!(d.len(), 3);
    assert!(d[0].0 && d[0].1.trim_end_matches('/') == "tool");
    assert_eq!(d[1], (false, "tool/data.bin".to_string(), b"\x00\x01binary".to_vec()));
    assert_eq!(d[2], (false, "readme.txt".to_string(), b"hello".to_vec()));
}

#[test]
fn empty_archive_extracts_nothing() {
    let bytes = build_zip(&[]);
    let (actions, outcome) = plan_zip_extraction(&bytes);
    assert!(actions.is_empty());
    assert_eq!(outcome, Ok(0));
}

#[test]
fn bytes_that_are_not_an_archive_are_refused() {
    let (actions, outcome) = plan_zip_extraction(&b"definitely not a zip".to_vec());
    assert!(actions.is_empty());
    let err = outcome.unwrap_err();
    assert!(err.starts_with("Invalid zip archive: "), "{}", err);
    assert!(err.len() > "Invalid zip archive: ".len());
}

#[test]
fn an_escaping_name_stops_the_extraction() {
    let bytes = build_zip(&[("ok.txt", Some(b"1")), ("../evil.txt", Some(b"2")), ("later.txt", Some(b"3"))]);
    let (actions, outcome) = plan_zip_extraction(&bytes);
    assert_eq!(outcome, Err("Invalid zip entry name".to_string()));
    assert_eq!(describe(&actions), vec![(false, "ok.txt".to_string(), b"1".to_vec())]);
}

fn file(name: &str, contents: &[u8], read_error: Option<&str>) -> Result<ZipEntry, String> {
    Ok(ZipEntry {
        name: Some(name.to_string()),
        is_dir: false,
        contents: contents.to_vec(),
        read_error: read_error.map(|e| e.to_string()),
    })
}

#[test]
fn plan_stops_at_the_first_problem() {
    let entries = vec![
        Ok(ZipEntry { name: Some("d".to_string()), is_dir: true, contents: Vec::new(), read_error: None }),
        file("a", b"xy", None),
        Err("bad local header".to_string()),
        file("b", b"z", None),
    ];
    let (actions, outcome) = extraction_plan(&entries);
    assert_eq!(outcome, Err("Zip entry error: bad local header".to_string()));
    assert_eq!(
        describe(&actions),
        vec![(true, "d".to_string(), vec![]), (false, "a".to_string(), b"xy".to_vec())]
    );
}

#[test]
fn unreadable_contents_keep_the_bytes_read_and_stop() {
    let entries = vec![file("a", b"partial", Some("invalid checksum")), file("b", b"z", None)];
    let (actions, outcome) = extraction_plan(&entries);
    assert_eq!(outcome, Err("Extract copy error: invalid checksum".to_string()));
    assert_eq!(describe(&actions), vec![(false, "a".to_string(), b"partial".to_vec())]);
}

#[test]
fn corrupted_entry_is_written_then_reported() {
    let mut bytes = build_zip(&[("a.txt", Some(b"hello hello hello hello"))]);
    // change the stored CRC-32 wherever it appears (local header and central directory)
    let crc = bytes[14..18].to_vec();
    let mut flipped = crc.clone();
    flipped[0] ^= 0xff;
    for i in 0..bytes.len().saturating_sub(3) {
        if bytes[i..i + 4] == crc[..] {
            bytes[i..i + 4].copy_from_slice(&flipped);
        }
    }
    let (actions, outcome) = plan_zip_extraction(&bytes);
    let err = outcome.unwrap_err();
    assert!(err.starts_with("Extract copy error: "), "{}", err);
    assert_eq!(describe(&actions), vec![(false, "a.txt".to_string(), b"hello hello hello hello".to_vec())]);
}

#[test]
fn nameless_entry_is_refused_and_all_good_entries_are_counted() {
    let entries = vec![
        file("a", b"1", None),
        Ok(ZipEntry { name: None, is_dir: false, contents: vec![1], read_error: None }),
    ];
    let (actions, outcome) = extraction_plan(&entries);
    assert_eq!(outcome, Err("Invalid zip entry name".to_string()));
    assert_eq!(actions.len(), 1);
    let entries = vec![file("a", b"1", None), file("b", b"", None)];
    let (actions, outcome) = extraction_plan(&entries);
    assert_eq!(outcome, Ok(2));
    assert_eq!(actions.len(), 2);
}
