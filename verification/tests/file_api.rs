use file::Blob;
use file::DataBlob;
use file::File;
use file::FileInput;
use file::FileList;
use file::FileReader;
use file::MimeType;
use file::ReadError;

fn sample_files() -> Vec<File> {
    vec![
        File::new(10, String::from("application/json")),
        File::new(20, String::from("text/plain")),
        File::new(30, String::new()),
    ]
}

#[test]
fn len_matches_collection_length() {
    let list = FileList::from_raw(sample_files());
    assert_eq!(list.len(), 3);

    let empty = FileList::from_raw(Vec::new());
    assert_eq!(empty.len(), 0);
}

#[test]
fn get_succeeds_exactly_within_bounds() {
    let list = FileList::from_raw(sample_files());
    for i in 0..3 {
        let entry = list.get(i);
        assert!(entry.is_some());
        assert_eq!(entry.unwrap().size(), 10 * (i + 1));
    }
    assert!(list.get(3).is_none());
    assert!(list.get(100).is_none());
}

#[test]
fn into_vec_preserves_length_and_order() {
    let list = FileList::from_raw(sample_files());
    let entries = list.into_vec();
    assert_eq!(entries.len(), 3);
    assert_eq!(entries[0].size(), 10);
    assert_eq!(entries[1].size(), 20);
    assert_eq!(entries[2].size(), 30);
    assert_eq!(entries[0].mime_type(), MimeType::ApplicationJson);
    assert_eq!(entries[1].mime_type(), MimeType::Unknown);
    assert_eq!(entries[2].mime_type(), MimeType::Unknown);
}

#[test]
fn iter_yields_entries_in_order() {
    let list = FileList::from_raw(sample_files());
    let mut iter = list.iter();
    assert_eq!(iter.next().unwrap().size(), 10);
    assert_eq!(iter.next().unwrap().size(), 20);
    assert_eq!(iter.next().unwrap().size(), 30);
    assert!(iter.next().is_none());
    assert!(iter.next().is_none());

    let mut again = list.iter();
    assert_eq!(again.next().unwrap().size(), 10);
}

#[test]
fn empty_file_list_yields_nothing() {
    let list = FileList::from_raw(Vec::new());
    assert_eq!(list.len(), 0);
    assert!(list.get(0).is_none());
    let mut iter = list.iter();
    assert!(iter.next().is_none());
    let entries = list.into_vec();
    assert!(entries.is_empty());
}

#[test]
fn file_list_from_input_with_selection() {
    let input = FileInput::with_selection(FileList::from_raw(sample_files()));
    let list = FileList::new(&input).expect("a selection is associated");
    assert_eq!(list.len(), 3);
    assert_eq!(list.get(1).unwrap().size(), 20);
}

#[test]
fn file_list_from_input_without_selection() {
    let input = FileInput::without_selection();
    assert!(FileList::new(&input).is_none());
}

#[test]
fn data_blob_size_is_utf8_byte_length() {
    assert_eq!(DataBlob::new("hello").size(), 5);
    assert_eq!(DataBlob::new("").size(), 0);
    assert_eq!(DataBlob::new("h\u{e9}llo").size(), 6);
    assert_eq!(DataBlob::new("\u{20ac}").size(), 3);
    assert_eq!(DataBlob::new_with_mime("{}", String::from("application/json")).size(), 2);
}

#[test]
fn data_blob_content_round_trip() {
    let blob = DataBlob::new("hello");
    assert_eq!(blob.content(), "hello");
}

#[test]
fn mime_classification_requires_exact_match() {
    let json = |s: &str| DataBlob::new_with_mime("x", String::from(s)).mime_type();
    assert_eq!(json("application/json"), MimeType::ApplicationJson);
    assert_eq!(json(""), MimeType::Unknown);
    assert_eq!(json("text/plain"), MimeType::Unknown);
    assert_eq!(json("application/jso"), MimeType::Unknown);
    assert_eq!(json("application/jsonx"), MimeType::Unknown);
    assert_eq!(json("Application/Json"), MimeType::Unknown);
    assert_eq!(json(" application/json"), MimeType::Unknown);
}

#[test]
fn plain_data_blob_has_unrecognized_mime() {
    assert_eq!(DataBlob::new("hello").mime_type(), MimeType::Unknown);
}

#[test]
fn file_handle_reports_host_values() {
    let f = File::new(42, String::from("application/json"));
    assert_eq!(f.size(), 42);
    assert_eq!(f.mime_type(), MimeType::ApplicationJson);
    let g = File::new(0, String::from("text/css"));
    assert_eq!(g.size(), 0);
    assert_eq!(g.mime_type(), MimeType::Unknown);
}

#[test]
fn read_resolves_to_blob_content() {
    let blob = DataBlob::new("hello");
    let mut pending = FileReader::new().read_as_string(&blob);
    assert!(pending.is_pending());
    assert_eq!(pending.try_take(), None);
    pending.on_load(Some(blob.content().to_string()));
    assert!(!pending.is_pending());
    assert_eq!(pending.try_take(), Some(Ok(String::from("hello"))));
}

#[test]
fn json_blob_scenario() {
    let blob = DataBlob::new_with_mime("{}", String::from("application/json"));
    assert_eq!(blob.mime_type(), MimeType::ApplicationJson);
    let mut pending = FileReader::new().read_as_string(&blob);
    pending.on_load(Some(blob.content().to_string()));
    assert_eq!(pending.try_take(), Some(Ok(String::from("{}"))));
}

#[test]
fn non_text_result_surfaces_read_failure() {
    let blob = DataBlob::new("hello");
    let mut pending = FileReader::new().read_as_string(&blob);
    pending.on_load(None);
    assert_eq!(pending.try_take(), Some(Err(ReadError::ReadFailed)));
}

#[test]
fn only_first_completion_counts() {
    let blob = DataBlob::new("a");
    let mut pending = FileReader::new().read_as_string(&blob);
    pending.on_load(Some(String::from("a")));
    pending.on_load(Some(String::from("b")));
    pending.on_load(None);
    assert_eq!(pending.try_take(), Some(Ok(String::from("a"))));
}

#[test]
fn outcome_is_taken_at_most_once() {
    let blob = DataBlob::new("once");
    let mut pending = FileReader::new().read_as_string(&blob);
    pending.on_load(Some(String::from("once")));
    assert_eq!(pending.try_take(), Some(Ok(String::from("once"))));
    assert_eq!(pending.try_take(), None);
    pending.on_load(Some(String::from("again")));
    assert_eq!(pending.try_take(), None);
}

#[test]
fn dropped_read_ignores_late_completion() {
    let blob = DataBlob::new("hello");
    let mut pending = FileReader::new().read_as_string(&blob);
    pending.cancel();
    pending.on_load(Some(String::from("hello")));
    assert_eq!(pending.try_take(), None);
}

#[test]
fn dropping_pending_read_is_safe() {
    let blob = DataBlob::new("hello");
    let pending = FileReader::new().read_as_string(&blob);
    drop(pending);
    assert_eq!(blob.size(), 5);
}

#[test]
fn classify_is_exposed_directly() {
    assert_eq!(
        MimeType::classify(&String::from("application/json")),
        MimeType::ApplicationJson
    );
    assert_eq!(MimeType::classify(&String::new()), MimeType::Unknown);
}
