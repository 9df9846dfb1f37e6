use bytes::Bytes;
use openai_dive::v1::error::BuilderError;
use openai_dive::v1::resources::administration::project_user::{
    CreateProjectUserParameters, CreateProjectUserParametersBuilder, ModifyProjectUserParameters,
    ModifyProjectUserParametersBuilder, ProjectUserRole,
};
use openai_dive::v1::resources::audio::{
    AudioOutputFormat, AudioSpeechParameters, AudioSpeechParametersBuilder,
    AudioSpeechResponseFormat, AudioTranscriptionParameters, AudioTranscriptionParametersBuilder,
    AudioTranslationParameters, AudioTranslationParametersBuilder, AudioVoice,
    StreamAudioSpeechParameters, TimestampGranularity,
};
use openai_dive::v1::resources::shared::{
    FileUpload, FileUploadBytes, SimpleListParameters, SimpleListParametersBuilder,
};

fn missing(field: &'static str) -> BuilderError {
    BuilderError::UninitializedField(field)
}

#[test]
fn speech_with_every_field() {
    let parameters = AudioSpeechParametersBuilder::default()
        .model("tts-1-hd")
        .input("Hello there.")
        .voice(AudioVoice::Nova)
        .instructions("Speak slowly.")
        .response_format(AudioSpeechResponseFormat::Flac)
        .speed(1.5f32.to_bits())
        .build();
    assert_eq!(
        parameters,
        Ok(AudioSpeechParameters {
            model: "tts-1-hd".to_string(),
            input: "Hello there.".to_string(),
            voice: AudioVoice::Nova,
            instructions: Some("Speak slowly.".to_string()),
            response_format: Some(AudioSpeechResponseFormat::Flac),
            speed: Some(0x3fc0_0000),
        })
    );
    assert_eq!(f32::from_bits(parameters.unwrap().speed.unwrap()), 1.5);
}

#[test]
fn speech_leaves_optional_fields_absent() {
    let parameters = AudioSpeechParametersBuilder::default()
        .model("tts-1")
        .input("Hi")
        .voice(AudioVoice::Alloy)
        .build()
        .unwrap();
    assert_eq!(parameters.instructions, None);
    assert_eq!(parameters.response_format, None);
    assert_eq!(parameters.speed, None);
}

#[test]
fn speech_names_the_first_missing_field() {
    assert_eq!(AudioSpeechParametersBuilder::default().build(), Err(missing("model")));
    assert_eq!(
        AudioSpeechParametersBuilder::default().input("Hi").voice(AudioVoice::Ash).build(),
        Err(missing("model"))
    );
    assert_eq!(
        AudioSpeechParametersBuilder::default().model("tts-1").voice(AudioVoice::Ash).build(),
        Err(missing("input"))
    );
    assert_eq!(
        AudioSpeechParametersBuilder::default().model("tts-1").input("Hi").build(),
        Err(missing("voice"))
    );
    assert_eq!(
        AudioSpeechParametersBuilder::default().speed(1.0f32.to_bits()).build(),
        Err(missing("model"))
    );
}

#[test]
fn the_last_value_given_wins() {
    let mut builder = AudioSpeechParametersBuilder::default();
    builder.model("tts-1").input("one").voice(AudioVoice::Echo);
    builder.model("tts-1-hd").voice(AudioVoice::Sage).input("two");
    let parameters = builder.build().unwrap();
    assert_eq!(parameters.model, "tts-1-hd");
    assert_eq!(parameters.input, "two");
    assert_eq!(parameters.voice, AudioVoice::Sage);
}

#[test]
fn building_does_not_use_up_the_builder() {
    let mut builder = AudioSpeechParametersBuilder::default();
    builder.model("tts-1").input("Hi");
    assert_eq!(builder.build(), Err(missing("voice")));
    builder.voice(AudioVoice::Onyx);
    let first = builder.build().unwrap();
    let second = builder.build().unwrap();
    assert_eq!(first, second);
    builder.speed(2.0f32.to_bits());
    let third = builder.build().unwrap();
    assert_eq!(first.speed, None);
    assert_eq!(third.speed, Some(2.0f32.to_bits()));
}

#[test]
fn a_cloned_builder_goes_its_own_way() {
    let mut builder = AudioSpeechParametersBuilder::default();
    builder.model("tts-1").input("Hi").voice(AudioVoice::Coral);
    let mut copy = builder.clone();
    copy.input("Bye");
    assert_eq!(builder.build().unwrap().input, "Hi");
    assert_eq!(copy.build().unwrap().input, "Bye");
}

#[test]
fn speech_default_is_empty() {
    assert_eq!(
        AudioSpeechParameters::default(),
        AudioSpeechParameters {
            model: String::new(),
            input: String::new(),
            voice: AudioVoice::Alloy,
            instructions: None,
            response_format: None,
            speed: None,
        }
    );
}

#[test]
fn transcription_with_every_field() {
    let parameters = AudioTranscriptionParametersBuilder::default()
        .file(FileUpload::File("./audio/micro-machines.mp3".to_string()))
        .model("whisper-1")
        .language("en")
        .prompt("Fast speech.")
        .response_format(AudioOutputFormat::VerboseJson)
        .temperature(0.25f32.to_bits())
        .timestamp_granularities(vec![TimestampGranularity::Word, TimestampGranularity::Segment])
        .build();
    assert_eq!(
        parameters,
        Ok(AudioTranscriptionParameters {
            file: FileUpload::File("./audio/micro-machines.mp3".to_string()),
            model: "whisper-1".to_string(),
            language: Some("en".to_string()),
            prompt: Some("Fast speech.".to_string()),
            response_format: Some(AudioOutputFormat::VerboseJson),
            temperature: Some(0.25f32.to_bits()),
            timestamp_granularities: Some(vec![
                TimestampGranularity::Word,
                TimestampGranularity::Segment
            ]),
        })
    );
}

#[test]
fn transcription_of_bytes_in_memory() {
    let upload = FileUpload::Bytes(FileUploadBytes {
        bytes: Bytes::from(vec![0u8, 1, 2, 255]),
        filename: "speech.wav".to_string(),
    });
    let parameters = AudioTranscriptionParametersBuilder::default()
        .file(upload.clone())
        .model("whisper-1")
        .build()
        .unwrap();
    assert_eq!(parameters.file, upload);
    match parameters.file {
        FileUpload::Bytes(file) => {
            assert_eq!(file.bytes.as_ref(), &[0u8, 1, 2, 255]);
            assert_eq!(file.filename, "speech.wav");
        }
        FileUpload::File(_) => panic!("the upload changed its kind"),
    }
    assert_eq!(parameters.language, None);
    assert_eq!(parameters.prompt, None);
    assert_eq!(parameters.response_format, None);
    assert_eq!(parameters.temperature, None);
    assert_eq!(parameters.timestamp_granularities, None);
}

#[test]
fn transcription_names_the_first_missing_field() {
    assert_eq!(AudioTranscriptionParametersBuilder::default().build(), Err(missing("file")));
    assert_eq!(
        AudioTranscriptionParametersBuilder::default().model("whisper-1").build(),
        Err(missing("file"))
    );
    assert_eq!(
        AudioTranscriptionParametersBuilder::default()
            .file(FileUpload::File("a.mp3".to_string()))
            .language("de")
            .build(),
        Err(missing("model"))
    );
}

#[test]
fn transcription_keeps_an_empty_list_of_granularities() {
    let parameters = AudioTranscriptionParametersBuilder::default()
        .file(FileUpload::File("a.mp3".to_string()))
        .model("whisper-1")
        .timestamp_granularities(Vec::new())
        .build()
        .unwrap();
    assert_eq!(parameters.timestamp_granularities, Some(Vec::new()));
}

#[test]
fn transcription_default_names_no_file() {
    let parameters = AudioTranscriptionParameters::default();
    assert_eq!(parameters.file, FileUpload::File(String::new()));
    assert_eq!(parameters.model, "");
    assert_eq!(parameters.language, None);
    assert_eq!(parameters.prompt, None);
    assert_eq!(parameters.response_format, None);
    assert_eq!(parameters.temperature, None);
    assert_eq!(parameters.timestamp_granularities, None);
}

#[test]
fn translation_with_every_field() {
    let parameters = AudioTranslationParametersBuilder::default()
        .file(FileUpload::File("./audio/multilingual.mp3".to_string()))
        .model("whisper-1")
        .prompt("In English.")
        .response_format(AudioOutputFormat::Srt)
        .temperature(0.0f32.to_bits())
        .build();
    assert_eq!(
        parameters,
        Ok(AudioTranslationParameters {
            file: FileUpload::File("./audio/multilingual.mp3".to_string()),
            model: "whisper-1".to_string(),
            prompt: Some("In English.".to_string()),
            response_format: Some(AudioOutputFormat::Srt),
            temperature: Some(0),
        })
    );
}

#[test]
fn translation_names_the_first_missing_field() {
    assert_eq!(AudioTranslationParametersBuilder::default().build(), Err(missing("file")));
    assert_eq!(
        AudioTranslationParametersBuilder::default()
            .file(FileUpload::File("a.mp3".to_string()))
            .build(),
        Err(missing("model"))
    );
}

#[test]
fn translation_default_names_no_file() {
    assert_eq!(
        AudioTranslationParameters::default(),
        AudioTranslationParameters {
            file: FileUpload::File(String::new()),
            model: String::new(),
            prompt: None,
            response_format: None,
            temperature: None,
        }
    );
}

#[test]
fn stream_parameters_hold_what_they_are_given() {
    let parameters = StreamAudioSpeechParameters {
        model: "tts-1".to_string(),
        input: "Hi".to_string(),
        voice: AudioVoice::Fable,
        response_format: Some(AudioSpeechResponseFormat::Pcm),
        speed: Some(0.25f32.to_bits()),
        stream: true,
    };
    assert_eq!(parameters.clone(), parameters);
    assert!(parameters.stream);
    assert_eq!(f32::from_bits(parameters.speed.unwrap()), 0.25);
}

#[test]
fn file_upload_default_is_an_empty_path() {
    assert_eq!(FileUpload::default(), FileUpload::File(String::new()));
}

#[test]
fn file_upload_clone_keeps_bytes_and_name() {
    let file = FileUploadBytes { bytes: Bytes::from(vec![9u8, 8, 7]), filename: "a.ogg".into() };
    let copy = file.clone();
    assert_eq!(copy, file);
    assert_eq!(copy.bytes.as_ref(), &[9u8, 8, 7]);
    assert_eq!(copy.filename, "a.ogg");
    let path = FileUpload::File("b.ogg".to_string());
    assert_eq!(path.clone(), path);
    assert_ne!(FileUpload::Bytes(file), path);
}

#[test]
fn list_parameters_need_nothing() {
    assert_eq!(
        SimpleListParametersBuilder::default().build(),
        Ok(SimpleListParameters { after: None, limit: None })
    );
    assert_eq!(SimpleListParameters::default(), SimpleListParameters { after: None, limit: None });
}

#[test]
fn list_parameters_with_every_field() {
    assert_eq!(
        SimpleListParametersBuilder::default().limit(20).after("user-abc").build(),
        Ok(SimpleListParameters { after: Some("user-abc".to_string()), limit: Some(20) })
    );
}

#[test]
fn create_project_user_needs_both_fields() {
    assert_eq!(CreateProjectUserParametersBuilder::default().build(), Err(missing("user_id")));
    assert_eq!(
        CreateProjectUserParametersBuilder::default().role(ProjectUserRole::Owner).build(),
        Err(missing("user_id"))
    );
    assert_eq!(
        CreateProjectUserParametersBuilder::default().user_id("user-XXX").build(),
        Err(missing("role"))
    );
    assert_eq!(
        CreateProjectUserParametersBuilder::default()
            .user_id("user-XXX")
            .role(ProjectUserRole::Member)
            .build(),
        Ok(CreateProjectUserParameters {
            user_id: "user-XXX".to_string(),
            role: ProjectUserRole::Member
        })
    );
}

#[test]
fn modify_project_user_needs_the_role() {
    assert_eq!(ModifyProjectUserParametersBuilder::default().build(), Err(missing("role")));
    assert_eq!(
        ModifyProjectUserParametersBuilder::default().role(ProjectUserRole::Owner).build(),
        Ok(ModifyProjectUserParameters { role: ProjectUserRole::Owner })
    );
}
