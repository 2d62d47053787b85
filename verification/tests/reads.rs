use skybox::auth::check_auth;
use skybox::disposition::get_filename;
use skybox::record::FileRecord;
use skybox::retrieval::{blob_outcome, get_reply, info_reply, BlobOutcome, GetReply, InfoReply};

fn sample_record() -> FileRecord {
    FileRecord {
        id: "a".repeat(30),
        name: "test.txt".to_string(),
        size: 11,
        created: Some(1_700_000_000),
    }
}

#[test]
fn credential_with_prefix_matches() {
    assert!(check_auth("tok", Some("Basic tok")));
}

#[test]
fn credential_without_prefix_matches_whole_value() {
    assert!(check_auth("tok", Some("tok")));
}

#[test]
fn wrong_or_absent_credential_fails() {
    assert!(!check_auth("tok", Some("Basic wrong")));
    assert!(!check_auth("tok", Some("Basic tok ")));
    assert!(!check_auth("tok", Some("")));
    assert!(!check_auth("tok", None));
}

#[test]
fn quoted_filename_is_extracted() {
    let r = get_filename("attachment; filename=\"test.txt\"");
    assert_eq!(r.as_deref(), Some("test.txt"));
}

#[test]
fn unquoted_filename_is_extracted() {
    let r = get_filename("attachment; filename=report.pdf; foo=bar");
    assert_eq!(r.as_deref(), Some("report.pdf"));
}

#[test]
fn header_without_filename_yields_none() {
    assert_eq!(get_filename("attachment"), None);
    assert_eq!(get_filename(""), None);
}

#[test]
fn empty_filename_is_extracted_as_empty() {
    assert_eq!(get_filename("inline; filename=\"\"").as_deref(), Some(""));
    assert_eq!(get_filename("inline; filename=").as_deref(), Some(""));
}

#[test]
fn info_of_unknown_id_is_missing() {
    match info_reply(None) {
        InfoReply::Missing => {}
        InfoReply::Found(rec) => panic!("nothing was stored, yet found {:?}", rec.id),
    }
}

#[test]
fn info_of_stored_record_reports_it() {
    let rec = sample_record();
    match info_reply(Some(rec.clone())) {
        InfoReply::Found(r) => {
            assert_eq!(r.id, rec.id);
            assert_eq!(r.name, "test.txt");
            assert_eq!(r.size, 11);
            assert_eq!(r.created, Some(1_700_000_000));
        }
        InfoReply::Missing => panic!("stored record not reported"),
    }
}

#[test]
fn get_of_unknown_id_is_missing() {
    match get_reply(None) {
        GetReply::Missing => {}
        GetReply::Fetch { id, .. } => panic!("nothing was stored, yet fetching {id:?}"),
    }
}

#[test]
fn get_of_stored_record_fetches_under_its_name() {
    let rec = sample_record();
    match get_reply(Some(rec.clone())) {
        GetReply::Fetch { id, filename } => {
            assert_eq!(id, rec.id);
            assert_eq!(filename, "test.txt");
        }
        GetReply::Missing => panic!("stored record not served"),
    }
}

#[test]
fn repeated_reads_agree() {
    let rec = sample_record();
    let a = info_reply(Some(rec.clone()));
    let b = info_reply(Some(rec.clone()));
    match (a, b) {
        (InfoReply::Found(x), InfoReply::Found(y)) => {
            assert_eq!(x.id, y.id);
            assert_eq!(x.name, y.name);
            assert_eq!(x.size, y.size);
            assert_eq!(x.created, y.created);
        }
        _ => panic!("repeated info reads disagreed"),
    }
    let a = get_reply(Some(rec.clone()));
    let b = get_reply(Some(rec));
    match (a, b) {
        (GetReply::Fetch { id: ia, filename: fa }, GetReply::Fetch { id: ib, filename: fb }) => {
            assert_eq!(ia, ib);
            assert_eq!(fa, fb);
        }
        _ => panic!("repeated get reads disagreed"),
    }
}

#[test]
fn present_blob_streams_with_the_record_name() {
    match blob_outcome(true, "test.txt".to_string()) {
        BlobOutcome::Stream { filename } => assert_eq!(filename, "test.txt"),
        BlobOutcome::Fault => panic!("open succeeded, yet a fault was reported"),
    }
}

#[test]
fn missing_blob_with_metadata_is_a_fault() {
    match blob_outcome(false, "test.txt".to_string()) {
        BlobOutcome::Fault => {}
        BlobOutcome::Stream { filename } => panic!("blob is gone, yet streaming {filename:?}"),
    }
}
