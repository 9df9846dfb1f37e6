use bytes::Bytes;
use openai_dive::v1::error::APIError;
use openai_dive::v1::resources::audio::{
    AudioSpeechResponse, AudioSpeechResponseChunkResponse, SaveAction, SaveEvent,
};

fn response() -> AudioSpeechResponse {
    AudioSpeechResponse { bytes: Bytes::from(vec![1u8, 2, 3]) }
}

#[test]
fn save_probes_the_parent_directory() {
    assert_eq!(
        response().save("out/audio/speech.mp3"),
        SaveAction::ProbeDirectory("out/audio".to_string())
    );
    assert_eq!(response().save("/tmp/speech.mp3"), SaveAction::ProbeDirectory("/tmp".to_string()));
}

#[test]
fn save_of_a_bare_file_name_probes_the_empty_directory() {
    assert_eq!(response().save("speech.mp3"), SaveAction::ProbeDirectory(String::new()));
}

#[test]
fn save_without_a_parent_writes_at_once() {
    assert_eq!(response().save(""), SaveAction::WriteFile);
    assert_eq!(response().save("/"), SaveAction::WriteFile);
}

#[test]
fn begin_follows_the_parent() {
    assert_eq!(SaveAction::begin(None), SaveAction::WriteFile);
    assert_eq!(
        SaveAction::begin(Some("out".to_string())),
        SaveAction::ProbeDirectory("out".to_string())
    );
}

#[test]
fn existing_directory_leads_to_the_write() {
    let probe = SaveAction::begin(Some("out".to_string()));
    let write = probe.next(SaveEvent::Exists(true));
    assert_eq!(write, SaveAction::WriteFile);
    assert_eq!(write.next(SaveEvent::Done), SaveAction::Finish(Ok(())));
}

#[test]
fn missing_directory_is_created_first() {
    let probe = SaveAction::begin(Some("out".to_string()));
    let create = probe.next(SaveEvent::Exists(false));
    assert_eq!(create, SaveAction::CreateDirectory("out".to_string()));
    let write = create.next(SaveEvent::Done);
    assert_eq!(write, SaveAction::WriteFile);
    assert_eq!(write.next(SaveEvent::Done), SaveAction::Finish(Ok(())));
}

#[test]
fn failed_probe_ends_the_save() {
    let probe = SaveAction::begin(Some("out".to_string()));
    assert_eq!(
        probe.next(SaveEvent::Failed("permission denied".to_string())),
        SaveAction::Finish(Err(APIError::FileError("permission denied".to_string())))
    );
}

#[test]
fn failed_creation_ends_the_save() {
    let create = SaveAction::CreateDirectory("out".to_string());
    assert_eq!(
        create.next(SaveEvent::Failed("read-only file system".to_string())),
        SaveAction::Finish(Err(APIError::FileError("read-only file system".to_string())))
    );
}

#[test]
fn failed_write_ends_the_save() {
    assert_eq!(
        SaveAction::WriteFile.next(SaveEvent::Failed("disk full".to_string())),
        SaveAction::Finish(Err(APIError::FileError("disk full".to_string())))
    );
}

#[test]
fn events_that_answer_nothing_change_nothing() {
    assert_eq!(
        SaveAction::ProbeDirectory("out".to_string()).next(SaveEvent::Done),
        SaveAction::ProbeDirectory("out".to_string())
    );
    assert_eq!(
        SaveAction::CreateDirectory("out".to_string()).next(SaveEvent::Exists(true)),
        SaveAction::CreateDirectory("out".to_string())
    );
    assert_eq!(SaveAction::WriteFile.next(SaveEvent::Exists(false)), SaveAction::WriteFile);
}

#[test]
fn a_finished_save_stays_finished() {
    let done = SaveAction::Finish(Ok(()));
    let done = done.next(SaveEvent::Failed("late".to_string()));
    assert_eq!(done, SaveAction::Finish(Ok(())));
    let failed = SaveAction::Finish(Err(APIError::FileError("first".to_string())));
    let failed = failed.next(SaveEvent::Done);
    assert_eq!(failed, SaveAction::Finish(Err(APIError::FileError("first".to_string()))));
    let failed = failed.next(SaveEvent::Failed("second".to_string()));
    assert_eq!(failed, SaveAction::Finish(Err(APIError::FileError("first".to_string()))));
}

#[test]
fn a_save_is_over_after_three_answers() {
    let answers = vec![
        vec![SaveEvent::Exists(false), SaveEvent::Done, SaveEvent::Done],
        vec![SaveEvent::Exists(true), SaveEvent::Done, SaveEvent::Done],
        vec![SaveEvent::Exists(false), SaveEvent::Failed("no".to_string()), SaveEvent::Done],
        vec![SaveEvent::Failed("no".to_string()), SaveEvent::Done, SaveEvent::Done],
    ];
    for events in answers {
        let mut action = response().save("out/speech.mp3");
        for event in events {
            action = action.next(event);
        }
        assert!(matches!(action, SaveAction::Finish(_)));
    }
}

#[test]
fn cloned_response_holds_the_same_bytes() {
    let first = response();
    let copy = first.clone();
    assert_eq!(copy.bytes, first.bytes);
    assert_eq!(copy.bytes.as_ref(), &[1u8, 2, 3]);
}

#[test]
fn chunks_compare_by_their_bytes() {
    let a = AudioSpeechResponseChunkResponse { bytes: Bytes::from(vec![7u8, 8]) };
    let b = AudioSpeechResponseChunkResponse { bytes: Bytes::from_static(&[7u8, 8]) };
    let c = AudioSpeechResponseChunkResponse { bytes: Bytes::from(vec![7u8]) };
    assert_eq!(a, b);
    assert_ne!(a, c);
    assert_eq!(a.clone(), a);
}

#[test]
fn the_same_path_always_begins_alike() {
    for path in ["", "/", "speech.mp3", "out/speech.mp3", "/var/tmp/a/b/speech.mp3", "out/"] {
        assert_eq!(response().save(path), response().save(path));
    }
    assert_eq!(response().save("out/"), SaveAction::ProbeDirectory(String::new()));
    assert_eq!(
        response().save("/var/tmp/a/b/speech.mp3"),
        SaveAction::ProbeDirectory("/var/tmp/a/b".to_string())
    );
}
