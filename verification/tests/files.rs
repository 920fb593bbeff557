//! Reading mock file batches and joining their contents.

use demo_server::file_read::{join_contents, mock_files, Error, File};
use demo_server::uris::mock_uris;

#[test]
fn reading_an_intact_file_yields_contents() {
    let file = File { contents: "abc".to_string(), corrupt: false };
    assert_eq!(file.to_string().unwrap(), "abc");
}

#[test]
fn reading_a_corrupt_file_reports_contents() {
    let file = File { contents: "abc".to_string(), corrupt: true };
    match file.to_string() {
        Err(Error::CorruptFile { corrupt_content }) => assert_eq!(corrupt_content, "abc"),
        other => panic!("expected a corruption error, got {other:?}"),
    }
}

#[test]
fn joining_intact_batch_concatenates() {
    let results: Vec<Result<String, Error>> = mock_files()
        .into_iter()
        .filter(|f| !f.corrupt)
        .map(File::to_string)
        .collect();
    let joined = join_contents(results).unwrap();
    assert_eq!(joined, "File contents: --abcdefg--zzzzzzz--uuuuuuu");
}

#[test]
fn joining_reports_first_error() {
    let results: Vec<Result<String, Error>> =
        mock_files().into_iter().map(File::to_string).collect();
    match join_contents(results) {
        Err(Error::CorruptFile { corrupt_content }) => assert_eq!(corrupt_content, "1234567"),
        other => panic!("expected the first corruption error, got {other:?}"),
    }
}

#[test]
fn joining_passes_join_failures_through() {
    let results: Vec<Result<String, Error>> = vec![
        Ok("fine".to_string()),
        Err(Error::JoinFailed),
        Err(Error::CorruptFile { corrupt_content: "later".to_string() }),
    ];
    assert!(matches!(join_contents(results), Err(Error::JoinFailed)));
}

#[test]
fn joining_an_empty_batch_is_just_the_header() {
    let joined = join_contents(Vec::new()).unwrap();
    assert_eq!(joined, "File contents: ");
}

#[test]
fn mock_uris_expected_values() {
    let uris = mock_uris();
    assert_eq!(uris.len(), 4);
    assert_eq!(uris[0], "1.2.3.4:8080/some.pdf");
    assert_eq!(uris[3], "2.2.2.2:8083/some.pdf");
}
