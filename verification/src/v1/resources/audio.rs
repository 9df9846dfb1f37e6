use crate::v1::error::{APIError, BuilderError};
use crate::v1::resources::shared::{FileUpload, FileUploadView};
use vstd::prelude::*;
use vstd::string::StringExecFns;

verus! {

/// The format in which a transcript or a translation is returned.
#[derive(Debug, Clone, Copy, PartialEq, Eq, Structural)]
pub enum AudioOutputFormat {
    Json,
    Text,
    Srt,
    VerboseJson,
    Vtt,
}

impl AudioOutputFormat {
    /// The name by which the provider knows this format.
    pub open spec fn name(self) -> Seq<char> {
        match self {
            AudioOutputFormat::Json => "json"@,
            AudioOutputFormat::Text => "text"@,
            AudioOutputFormat::Srt => "srt"@,
            AudioOutputFormat::VerboseJson => "verbose_json"@,
            AudioOutputFormat::Vtt => "vtt"@,
        }
    }

    /// The format that goes by `name`, if there is one.
    pub open spec fn named(name: Seq<char>) -> Option<AudioOutputFormat> {
        if exists|format: AudioOutputFormat| format.name() == name {
            Some(choose|format: AudioOutputFormat| format.name() == name)
        } else {
            None
        }
    }

    /// The name by which the provider knows this format.
    pub fn as_str(&self) -> (name: &'static str)
        ensures
            name@ == self.name(),
    {
        match self {
            AudioOutputFormat::Json => "json",
            AudioOutputFormat::Text => "text",
            AudioOutputFormat::Srt => "srt",
            AudioOutputFormat::VerboseJson => "verbose_json",
            AudioOutputFormat::Vtt => "vtt",
        }
    }

    /// The name of this format as an owned string, as it is written into a
    /// request.
    pub fn to_string(&self) -> (name: String)
        ensures
            name@ == self.name(),
    {
        String::from_str(self.as_str())
    }

    /// Reads a format from the name the provider uses for it; `None` for
    /// any other text.
    pub fn from_name(name: &str) -> (format: Option<AudioOutputFormat>)
        ensures
            format == Self::named(name@),
    {
        let text = String::from_str(name);
        let format = if text == String::from_str("json") {
            Some(AudioOutputFormat::Json)
        } else if text == String::from_str("text") {
            Some(AudioOutputFormat::Text)
        } else if text == String::from_str("srt") {
            Some(AudioOutputFormat::Srt)
        } else if text == String::from_str("verbose_json") {
            Some(AudioOutputFormat::VerboseJson)
        } else if text == String::from_str("vtt") {
            Some(AudioOutputFormat::Vtt)
        } else {
            None
        };
        proof {
            if let Some(found) = format {
                assert(found.name() == name@);
                Self::lemma_named(name@);
            }
        }
        format
    }

    /// No two formats share a name.
    pub proof fn lemma_names_differ(self, other: AudioOutputFormat)
        ensures
            self.name() == other.name() <==> self == other,
    {
        reveal_strlit("json");
        reveal_strlit("text");
        reveal_strlit("srt");
        reveal_strlit("verbose_json");
        reveal_strlit("vtt");
        if self.name() == other.name() {
            assert(self.name().len() == other.name().len());
            assert(self.name()[0] == other.name()[0]);
        }
    }

    /// Reading back the name of a format gives that format, and a text that
    /// reads as a format is the name of that format.
    pub proof fn lemma_name_round_trip(self, name: Seq<char>)
        ensures
            Self::named(self.name()) == Some(self),
            Self::named(name) == Some(self) <==> name == self.name(),
    {
        Self::lemma_named(name);
        Self::lemma_named(self.name());
    }

    /// `named` picks the one format whose name is the given text.
    proof fn lemma_named(name: Seq<char>)
        ensures
            forall|format: AudioOutputFormat| #[trigger]
                format.name() == name ==> Self::named(name) == Some(format),
            Self::named(name) matches Some(format) ==> format.name() == name,
    {
        assert forall|format: AudioOutputFormat| #[trigger] format.name() == name implies Self::named(
            name,
        ) == Some(format) by {
            let chosen = choose|format: AudioOutputFormat| format.name() == name;
            chosen.lemma_names_differ(format);
        }
    }
}

/// The encoding of generated speech.
#[derive(Debug, Clone, Copy, PartialEq, Eq, Structural)]
pub enum AudioSpeechResponseFormat {
    Mp3,
    Opus,
    Aac,
    Flac,
    Wav,
    Pcm,
}

impl AudioSpeechResponseFormat {
    /// The name by which the provider knows this format.
    pub open spec fn name(self) -> Seq<char> {
        match self {
            AudioSpeechResponseFormat::Mp3 => "mp3"@,
            AudioSpeechResponseFormat::Opus => "opus"@,
            AudioSpeechResponseFormat::Aac => "aac"@,
            AudioSpeechResponseFormat::Flac => "flac"@,
            AudioSpeechResponseFormat::Wav => "wav"@,
            AudioSpeechResponseFormat::Pcm => "pcm"@,
        }
    }

    /// The format that goes by `name`, if there is one.
    pub open spec fn named(name: Seq<char>) -> Option<AudioSpeechResponseFormat> {
        if exists|format: AudioSpeechResponseFormat| format.name() == name {
            Some(choose|format: AudioSpeechResponseFormat| format.name() == name)
        } else {
            None
        }
    }

    /// The name by which the provider knows this format.
    pub fn as_str(&self) -> (name: &'static str)
        ensures
            name@ == self.name(),
    {
        match self {
            AudioSpeechResponseFormat::Mp3 => "mp3",
            AudioSpeechResponseFormat::Opus => "opus",
            AudioSpeechResponseFormat::Aac => "aac",
            AudioSpeechResponseFormat::Flac => "flac",
            AudioSpeechResponseFormat::Wav => "wav",
            AudioSpeechResponseFormat::Pcm => "pcm",
        }
    }

    /// Reads a format from the name the provider uses for it; `None` for
    /// any other text.
    pub fn from_name(name: &str) -> (format: Option<AudioSpeechResponseFormat>)
        ensures
            format == Self::named(name@),
    {
        let text = String::from_str(name);
        let format = if text == String::from_str("mp3") {
            Some(AudioSpeechResponseFormat::Mp3)
        } else if text == String::from_str("opus") {
            Some(AudioSpeechResponseFormat::Opus)
        } else if text == String::from_str("aac") {
            Some(AudioSpeechResponseFormat::Aac)
        } else if text == String::from_str("flac") {
            Some(AudioSpeechResponseFormat::Flac)
        } else if text == String::from_str("wav") {
            Some(AudioSpeechResponseFormat::Wav)
        } else if text == String::from_str("pcm") {
            Some(AudioSpeechResponseFormat::Pcm)
        } else {
            None
        };
        proof {
            if let Some(found) = format {
                assert(found.name() == name@);
                Self::lemma_named(name@);
            }
        }
        format
    }

    /// No two formats share a name.
    pub proof fn lemma_names_differ(self, other: AudioSpeechResponseFormat)
        ensures
            self.name() == other.name() <==> self == other,
    {
        reveal_strlit("mp3");
        reveal_strlit("opus");
        reveal_strlit("aac");
        reveal_strlit("flac");
        reveal_strlit("wav");
        reveal_strlit("pcm");
        if self.name() == other.name() {
            assert(self.name().len() == other.name().len());
            assert(self.name()[0] == other.name()[0]);
        }
    }

    /// Reading back the name of a format gives that format, and a text that
    /// reads as a format is the name of that format.
    pub proof fn lemma_name_round_trip(self, name: Seq<char>)
        ensures
            Self::named(self.name()) == Some(self),
            Self::named(name) == Some(self) <==> name == self.name(),
    {
        Self::lemma_named(name);
        Self::lemma_named(self.name());
    }

    /// `named` picks the one format whose name is the given text.
    proof fn lemma_named(name: Seq<char>)
        ensures
            forall|format: AudioSpeechResponseFormat| #[trigger]
                format.name() == name ==> Self::named(name) == Some(format),
            Self::named(name) matches Some(format) ==> format.name() == name,
    {
        assert forall|format: AudioSpeechResponseFormat| #[trigger] format.name() == name implies Self::named(
            name,
        ) == Some(format) by {
            let chosen = choose|format: AudioSpeechResponseFormat| format.name() == name;
            chosen.lemma_names_differ(format);
        }
    }
}

/// The voice that speaks generated audio.
#[derive(Debug, Clone, Copy, PartialEq, Eq, Structural)]
pub enum AudioVoice {
    Alloy,
    Ash,
    Coral,
    Echo,
    Fable,
    Onyx,
    Nova,
    Sage,
    Shimmer,
}

impl Default for AudioVoice {
    fn default() -> (voice: AudioVoice)
        ensures
            voice == AudioVoice::Alloy,
    {
        AudioVoice::Alloy
    }
}

impl AudioVoice {
    /// The name by which the provider knows this voice.
    pub open spec fn name(self) -> Seq<char> {
        match self {
            AudioVoice::Alloy => "alloy"@,
            AudioVoice::Ash => "ash"@,
            AudioVoice::Coral => "coral"@,
            AudioVoice::Echo => "echo"@,
            AudioVoice::Fable => "fable"@,
            AudioVoice::Onyx => "onyx"@,
            AudioVoice::Nova => "nova"@,
            AudioVoice::Sage => "sage"@,
            AudioVoice::Shimmer => "shimmer"@,
        }
    }

    /// The voice that goes by `name`, if there is one.
    pub open spec fn named(name: Seq<char>) -> Option<AudioVoice> {
        if exists|voice: AudioVoice| voice.name() == name {
            Some(choose|voice: AudioVoice| voice.name() == name)
        } else {
            None
        }
    }

    /// The name by which the provider knows this voice.
    pub fn as_str(&self) -> (name: &'static str)
        ensures
            name@ == self.name(),
    {
        match self {
            AudioVoice::Alloy => "alloy",
            AudioVoice::Ash => "ash",
            AudioVoice::Coral => "coral",
            AudioVoice::Echo => "echo",
            AudioVoice::Fable => "fable",
            AudioVoice::Onyx => "onyx",
            AudioVoice::Nova => "nova",
            AudioVoice::Sage => "sage",
            AudioVoice::Shimmer => "shimmer",
        }
    }

    /// Reads a voice from the name the provider uses for it; `None` for
    /// any other text.
    pub fn from_name(name: &str) -> (voice: Option<AudioVoice>)
        ensures
            voice == Self::named(name@),
    {
        let text = String::from_str(name);
        let voice = if text == String::from_str("alloy") {
            Some(AudioVoice::Alloy)
        } else if text == String::from_str("ash") {
            Some(AudioVoice::Ash)
        } else if text == String::from_str("coral") {
            Some(AudioVoice::Coral)
        } else if text == String::from_str("echo") {
            Some(AudioVoice::Echo)
        } else if text == String::from_str("fable") {
            Some(AudioVoice::Fable)
        } else if text == String::from_str("onyx") {
            Some(AudioVoice::Onyx)
        } else if text == String::from_str("nova") {
            Some(AudioVoice::Nova)
        } else if text == String::from_str("sage") {
            Some(AudioVoice::Sage)
        } else if text == String::from_str("shimmer") {
            Some(AudioVoice::Shimmer)
        } else {
            None
        };
        proof {
            if let Some(found) = voice {
                assert(found.name() == name@);
                Self::lemma_named(name@);
            }
        }
        voice
    }

    /// No two voices share a name.
    pub proof fn lemma_names_differ(self, other: AudioVoice)
        ensures
            self.name() == other.name() <==> self == other,
    {
        reveal_strlit("alloy");
        reveal_strlit("ash");
        reveal_strlit("coral");
        reveal_strlit("echo");
        reveal_strlit("fable");
        reveal_strlit("onyx");
        reveal_strlit("nova");
        reveal_strlit("sage");
        reveal_strlit("shimmer");
        if self.name() == other.name() {
            assert(self.name().len() == other.name().len());
            assert(self.name()[0] == other.name()[0]);
        }
    }

    /// Reading back the name of a voice gives that voice, and a text that
    /// reads as a voice is the name of that voice.
    pub proof fn lemma_name_round_trip(self, name: Seq<char>)
        ensures
            Self::named(self.name()) == Some(self),
            Self::named(name) == Some(self) <==> name == self.name(),
    {
        Self::lemma_named(name);
        Self::lemma_named(self.name());
    }

    /// `named` picks the one voice whose name is the given text.
    proof fn lemma_named(name: Seq<char>)
        ensures
            forall|voice: AudioVoice| #[trigger]
                voice.name() == name ==> Self::named(name) == Some(voice),
            Self::named(name) matches Some(voice) ==> voice.name() == name,
    {
        assert forall|voice: AudioVoice| #[trigger] voice.name() == name implies Self::named(
            name,
        ) == Some(voice) by {
            let chosen = choose|voice: AudioVoice| voice.name() == name;
            chosen.lemma_names_differ(voice);
        }
    }
}

/// The unit to which a verbose transcript attaches timestamps.
#[derive(Debug, Clone, Copy, PartialEq, Eq, Structural)]
pub enum TimestampGranularity {
    Word,
    Segment,
}

impl TimestampGranularity {
    /// The name by which the provider knows this granularity.
    pub open spec fn name(self) -> Seq<char> {
        match self {
            TimestampGranularity::Word => "word"@,
            TimestampGranularity::Segment => "segment"@,
        }
    }

    /// The granularity that goes by `name`, if there is one.
    pub open spec fn named(name: Seq<char>) -> Option<TimestampGranularity> {
        if exists|granularity: TimestampGranularity| granularity.name() == name {
            Some(choose|granularity: TimestampGranularity| granularity.name() == name)
        } else {
            None
        }
    }

    /// The name by which the provider knows this granularity.
    pub fn as_str(&self) -> (name: &'static str)
        ensures
            name@ == self.name(),
    {
        match self {
            TimestampGranularity::Word => "word",
            TimestampGranularity::Segment => "segment",
        }
    }

    /// The name of this granularity as an owned string, as it is written into a
    /// request.
    pub fn to_string(&self) -> (name: String)
        ensures
            name@ == self.name(),
    {
        String::from_str(self.as_str())
    }

    /// Reads a granularity from the name the provider uses for it; `None` for
    /// any other text.
    pub fn from_name(name: &str) -> (granularity: Option<TimestampGranularity>)
        ensures
            granularity == Self::named(name@),
    {
        let text = String::from_str(name);
        let granularity = if text == String::from_str("word") {
            Some(TimestampGranularity::Word)
        } else if text == String::from_str("segment") {
            Some(TimestampGranularity::Segment)
        } else {
            None
        };
        proof {
            if let Some(found) = granularity {
                assert(found.name() == name@);
                Self::lemma_named(name@);
            }
        }
        granularity
    }

    /// No two granularities share a name.
    pub proof fn lemma_names_differ(self, other: TimestampGranularity)
        ensures
            self.name() == other.name() <==> self == other,
    {
        reveal_strlit("word");
        reveal_strlit("segment");
        if self.name() == other.name() {
            assert(self.name().len() == other.name().len());
            assert(self.name()[0] == other.name()[0]);
        }
    }

    /// Reading back the name of a granularity gives that granularity, and a text that
    /// reads as a granularity is the name of that granularity.
    pub proof fn lemma_name_round_trip(self, name: Seq<char>)
        ensures
            Self::named(self.name()) == Some(self),
            Self::named(name) == Some(self) <==> name == self.name(),
    {
        Self::lemma_named(name);
        Self::lemma_named(self.name());
    }

    /// `named` picks the one granularity whose name is the given text.
    proof fn lemma_named(name: Seq<char>)
        ensures
            forall|granularity: TimestampGranularity| #[trigger]
                granularity.name() == name ==> Self::named(name) == Some(granularity),
            Self::named(name) matches Some(granularity) ==> granularity.name() == name,
    {
        assert forall|granularity: TimestampGranularity| #[trigger] granularity.name() == name implies Self::named(
            name,
        ) == Some(granularity) by {
            let chosen = choose|granularity: TimestampGranularity| granularity.name() == name;
            chosen.lemma_names_differ(granularity);
        }
    }
}

/// What a speech request asks for.
#[derive(Debug, Clone, PartialEq)]
pub struct AudioSpeechParameters {
    /// One of the available TTS models: tts-1 or tts-1-hd.
    pub model: String,
    /// The text to generate audio for. The maximum length is 4096 characters.
    pub input: String,
    /// The voice to use when generating the audio.
    pub voice: AudioVoice,
    /// Additional instructions that control the voice of the generated audio.
    /// Does not work with tts-1 or tts-1-hd.
    pub instructions: Option<String>,
    /// The format to audio in. Supported formats are mp3, opus, aac, flac, wav
    /// and pcm.
    pub response_format: Option<AudioSpeechResponseFormat>,
    /// The speed of the generated audio, from 0.25 to 4.0 with 1.0 as the
    /// default, held as the bit pattern of an IEEE 754 single-precision number.
    pub speed: Option<u32>,
}

/// What an [`AudioSpeechParameters`] holds.
pub struct AudioSpeechParametersView {
    pub model: Seq<char>,
    pub input: Seq<char>,
    pub voice: AudioVoice,
    pub instructions: Option<Seq<char>>,
    pub response_format: Option<AudioSpeechResponseFormat>,
    pub speed: Option<u32>,
}

impl View for AudioSpeechParameters {
    type V = AudioSpeechParametersView;

    open spec fn view(&self) -> AudioSpeechParametersView {
        AudioSpeechParametersView {
            model: self.model@,
            input: self.input@,
            voice: self.voice,
            instructions: match self.instructions {
                Some(instructions) => Some(instructions@),
                None => None,
            },
            response_format: self.response_format,
            speed: self.speed,
        }
    }
}

impl Default for AudioSpeechParameters {
    fn default() -> (parameters: AudioSpeechParameters)
        ensures
            parameters@ == (AudioSpeechParametersView {
                model: Seq::empty(),
                input: Seq::empty(),
                voice: AudioVoice::Alloy,
                instructions: None,
                response_format: None,
                speed: None,
            }),
    {
        AudioSpeechParameters {
            model: String::new(),
            input: String::new(),
            voice: AudioVoice::default(),
            instructions: None,
            response_format: None,
            speed: None,
        }
    }
}

/// Collects the fields of an [`AudioSpeechParameters`] one by one. The model,
/// the input and the voice are required.
#[derive(Debug, Clone)]
pub struct AudioSpeechParametersBuilder {
    model: Option<String>,
    input: Option<String>,
    voice: Option<AudioVoice>,
    instructions: Option<String>,
    response_format: Option<AudioSpeechResponseFormat>,
    speed: Option<u32>,
}

/// What an [`AudioSpeechParametersBuilder`] has collected so far: for each
/// field the value it was last given, or `None` if it was never set.
pub struct AudioSpeechParametersBuilderView {
    pub model: Option<Seq<char>>,
    pub input: Option<Seq<char>>,
    pub voice: Option<AudioVoice>,
    pub instructions: Option<Seq<char>>,
    pub response_format: Option<AudioSpeechResponseFormat>,
    pub speed: Option<u32>,
}

impl AudioSpeechParametersBuilderView {
    /// The builder to which nothing has been given.
    pub open spec fn empty() -> AudioSpeechParametersBuilderView {
        AudioSpeechParametersBuilderView {
            model: None,
            input: None,
            voice: None,
            instructions: None,
            response_format: None,
            speed: None,
        }
    }

    /// The name of the first required field that is still unset, if any.
    pub open spec fn missing(self) -> Option<Seq<char>> {
        if self.model is None {
            Some("model"@)
        } else if self.input is None {
            Some("input"@)
        } else if self.voice is None {
            Some("voice"@)
        } else {
            None
        }
    }

    /// The parameters that these fields make up once nothing is missing.
    pub open spec fn built(self) -> AudioSpeechParametersView
        recommends
            self.missing() is None,
    {
        AudioSpeechParametersView {
            model: self.model->0,
            input: self.input->0,
            voice: self.voice->0,
            instructions: self.instructions,
            response_format: self.response_format,
            speed: self.speed,
        }
    }
}

impl View for AudioSpeechParametersBuilder {
    type V = AudioSpeechParametersBuilderView;

    closed spec fn view(&self) -> AudioSpeechParametersBuilderView {
        AudioSpeechParametersBuilderView {
            model: match self.model {
                Some(model) => Some(model@),
                None => None,
            },
            input: match self.input {
                Some(input) => Some(input@),
                None => None,
            },
            voice: self.voice,
            instructions: match self.instructions {
                Some(instructions) => Some(instructions@),
                None => None,
            },
            response_format: self.response_format,
            speed: self.speed,
        }
    }
}

impl Default for AudioSpeechParametersBuilder {
    fn default() -> (builder: AudioSpeechParametersBuilder)
        ensures
            builder@ == AudioSpeechParametersBuilderView::empty(),
    {
        AudioSpeechParametersBuilder {
            model: None,
            input: None,
            voice: None,
            instructions: None,
            response_format: None,
            speed: None,
        }
    }
}

impl AudioSpeechParametersBuilder {
    /// One of the available TTS models: tts-1 or tts-1-hd.
    pub fn model(&mut self, value: &str) -> (builder: &mut AudioSpeechParametersBuilder)
        ensures
            *final(self) == *final(builder),
            builder@ == (AudioSpeechParametersBuilderView { model: Some(value@), ..old(self)@ }),
    {
        self.model = Some(String::from_str(value));
        self
    }

    /// The text to generate audio for. The maximum length is 4096 characters.
    pub fn input(&mut self, value: &str) -> (builder: &mut AudioSpeechParametersBuilder)
        ensures
            *final(self) == *final(builder),
            builder@ == (AudioSpeechParametersBuilderView { input: Some(value@), ..old(self)@ }),
    {
        self.input = Some(String::from_str(value));
        self
    }

    /// The voice to use when generating the audio.
    pub fn voice(&mut self, value: AudioVoice) -> (builder: &mut AudioSpeechParametersBuilder)
        ensures
            *final(self) == *final(builder),
            builder@ == (AudioSpeechParametersBuilderView { voice: Some(value), ..old(self)@ }),
    {
        self.voice = Some(value);
        self
    }

    /// Additional instructions that control the voice of the generated audio.
    /// Does not work with tts-1 or tts-1-hd.
    pub fn instructions(&mut self, value: &str) -> (builder: &mut AudioSpeechParametersBuilder)
        ensures
            *final(self) == *final(builder),
            builder@ == (AudioSpeechParametersBuilderView {
                instructions: Some(value@),
                ..old(self)@
            }),
    {
        self.instructions = Some(String::from_str(value));
        self
    }

    /// The format to audio in. Supported formats are mp3, opus, aac, flac, wav
    /// and pcm.
    pub fn response_format(&mut self, value: AudioSpeechResponseFormat) -> (builder: &mut AudioSpeechParametersBuilder)
        ensures
            *final(self) == *final(builder),
            builder@ == (AudioSpeechParametersBuilderView {
                response_format: Some(value),
                ..old(self)@
            }),
    {
        self.response_format = Some(value);
        self
    }

    /// The speed of the generated audio, from 0.25 to 4.0 with 1.0 as the
    /// default, held as the bit pattern of an IEEE 754 single-precision number.
    pub fn speed(&mut self, value: u32) -> (builder: &mut AudioSpeechParametersBuilder)
        ensures
            *final(self) == *final(builder),
            builder@ == (AudioSpeechParametersBuilderView { speed: Some(value), ..old(self)@ }),
    {
        self.speed = Some(value);
        self
    }

    /// The parameters collected so far, or the name of the first required field
    /// that was never set.
    pub fn build(&self) -> (result: Result<AudioSpeechParameters, BuilderError>)
        ensures
            match self@.missing() {
                Some(field) => result matches Err(BuilderError::UninitializedField(name))
                    && name@ == field,
                None => result matches Ok(parameters) && parameters@ == self@.built(),
            },
    {
        let model = match &self.model {
            Some(model) => model.clone(),
            None => return Err(BuilderError::UninitializedField("model")),
        };
        let input = match &self.input {
            Some(input) => input.clone(),
            None => return Err(BuilderError::UninitializedField("input")),
        };
        let voice = match self.voice {
            Some(voice) => voice,
            None => return Err(BuilderError::UninitializedField("voice")),
        };
        let instructions = match &self.instructions {
            Some(instructions) => Some(instructions.clone()),
            None => None,
        };
        Ok(
            AudioSpeechParameters {
                model,
                input,
                voice,
                instructions,
                response_format: self.response_format,
                speed: self.speed,
            },
        )
    }
}

/// What a transcription request asks for.
#[derive(Debug, Clone, PartialEq)]
pub struct AudioTranscriptionParameters {
    /// The audio file object (not file name) to transcribe, in one of these
    /// formats: flac, mp3, mp4, mpeg, mpga, m4a, ogg, wav, or webm.
    pub file: FileUpload,
    /// ID of the model to use. Only whisper-1 is currently available.
    pub model: String,
    /// The language of the input audio. Supplying the input language in
    /// ISO-639-1 format will improve accuracy and latency.
    pub language: Option<String>,
    /// An optional text to guide the model's style or continue a previous audio
    /// segment. The prompt should match the audio language.
    pub prompt: Option<String>,
    /// The format of the transcript output, in one of these options: json,
    /// text, srt, verbose_json, or vtt.
    pub response_format: Option<AudioOutputFormat>,
    /// The sampling temperature, between 0 and 1, held as the bit pattern of an
    /// IEEE 754 single-precision number. Higher values like 0.8 make the output
    /// more random, lower values like 0.2 make it more focused and
    /// deterministic. At 0 the model raises the temperature by itself until
    /// certain thresholds are hit.
    pub temperature: Option<u32>,
    /// The timestamp granularities to populate for this transcription.
    /// response_format must be set verbose_json to use timestamp granularities.
    /// Either or both of these options are supported: word, or segment.
    pub timestamp_granularities: Option<Vec<TimestampGranularity>>,
}

/// What an [`AudioTranscriptionParameters`] holds.
pub struct AudioTranscriptionParametersView {
    pub file: FileUploadView,
    pub model: Seq<char>,
    pub language: Option<Seq<char>>,
    pub prompt: Option<Seq<char>>,
    pub response_format: Option<AudioOutputFormat>,
    pub temperature: Option<u32>,
    pub timestamp_granularities: Option<Seq<TimestampGranularity>>,
}

impl View for AudioTranscriptionParameters {
    type V = AudioTranscriptionParametersView;

    open spec fn view(&self) -> AudioTranscriptionParametersView {
        AudioTranscriptionParametersView {
            file: self.file@,
            model: self.model@,
            language: match self.language {
                Some(language) => Some(language@),
                None => None,
            },
            prompt: match self.prompt {
                Some(prompt) => Some(prompt@),
                None => None,
            },
            response_format: self.response_format,
            temperature: self.temperature,
            timestamp_granularities: match self.timestamp_granularities {
                Some(timestamp_granularities) => Some(timestamp_granularities@),
                None => None,
            },
        }
    }
}

impl Default for AudioTranscriptionParameters {
    fn default() -> (parameters: AudioTranscriptionParameters)
        ensures
            parameters@ == (AudioTranscriptionParametersView {
                file: FileUploadView::File(Seq::empty()),
                model: Seq::empty(),
                language: None,
                prompt: None,
                response_format: None,
                temperature: None,
                timestamp_granularities: None,
            }),
    {
        AudioTranscriptionParameters {
            file: FileUpload::default(),
            model: String::new(),
            language: None,
            prompt: None,
            response_format: None,
            temperature: None,
            timestamp_granularities: None,
        }
    }
}

/// Collects the fields of an [`AudioTranscriptionParameters`] one by one. The
/// file and the model are required.
#[derive(Debug, Clone)]
pub struct AudioTranscriptionParametersBuilder {
    file: Option<FileUpload>,
    model: Option<String>,
    language: Option<String>,
    prompt: Option<String>,
    response_format: Option<AudioOutputFormat>,
    temperature: Option<u32>,
    timestamp_granularities: Option<Vec<TimestampGranularity>>,
}

/// What an [`AudioTranscriptionParametersBuilder`] has collected so far: for
/// each field the value it was last given, or `None` if it was never set.
pub struct AudioTranscriptionParametersBuilderView {
    pub file: Option<FileUploadView>,
    pub model: Option<Seq<char>>,
    pub language: Option<Seq<char>>,
    pub prompt: Option<Seq<char>>,
    pub response_format: Option<AudioOutputFormat>,
    pub temperature: Option<u32>,
    pub timestamp_granularities: Option<Seq<TimestampGranularity>>,
}

impl AudioTranscriptionParametersBuilderView {
    /// The builder to which nothing has been given.
    pub open spec fn empty() -> AudioTranscriptionParametersBuilderView {
        AudioTranscriptionParametersBuilderView {
            file: None,
            model: None,
            language: None,
            prompt: None,
            response_format: None,
            temperature: None,
            timestamp_granularities: None,
        }
    }

    /// The name of the first required field that is still unset, if any.
    pub open spec fn missing(self) -> Option<Seq<char>> {
        if self.file is None {
            Some("file"@)
        } else if self.model is None {
            Some("model"@)
        } else {
            None
        }
    }

    /// The parameters that these fields make up once nothing is missing.
    pub open spec fn built(self) -> AudioTranscriptionParametersView
        recommends
            self.missing() is None,
    {
        AudioTranscriptionParametersView {
            file: self.file->0,
            model: self.model->0,
            language: self.language,
            prompt: self.prompt,
            response_format: self.response_format,
            temperature: self.temperature,
            timestamp_granularities: self.timestamp_granularities,
        }
    }
}

impl View for AudioTranscriptionParametersBuilder {
    type V = AudioTranscriptionParametersBuilderView;

    closed spec fn view(&self) -> AudioTranscriptionParametersBuilderView {
        AudioTranscriptionParametersBuilderView {
            file: match self.file {
                Some(file) => Some(file@),
                None => None,
            },
            model: match self.model {
                Some(model) => Some(model@),
                None => None,
            },
            language: match self.language {
                Some(language) => Some(language@),
                None => None,
            },
            prompt: match self.prompt {
                Some(prompt) => Some(prompt@),
                None => None,
            },
            response_format: self.response_format,
            temperature: self.temperature,
            timestamp_granularities: match self.timestamp_granularities {
                Some(timestamp_granularities) => Some(timestamp_granularities@),
                None => None,
            },
        }
    }
}

impl Default for AudioTranscriptionParametersBuilder {
    fn default() -> (builder: AudioTranscriptionParametersBuilder)
        ensures
            builder@ == AudioTranscriptionParametersBuilderView::empty(),
    {
        AudioTranscriptionParametersBuilder {
            file: None,
            model: None,
            language: None,
            prompt: None,
            response_format: None,
            temperature: None,
            timestamp_granularities: None,
        }
    }
}

impl AudioTranscriptionParametersBuilder {
    /// The audio file object (not file name) to transcribe, in one of these
    /// formats: flac, mp3, mp4, mpeg, mpga, m4a, ogg, wav, or webm.
    pub fn file(&mut self, value: FileUpload) -> (builder: &mut AudioTranscriptionParametersBuilder)
        ensures
            *final(self) == *final(builder),
            builder@ == (AudioTranscriptionParametersBuilderView {
                file: Some(value@),
                ..old(self)@
            }),
    {
        self.file = Some(value);
        self
    }

    /// ID of the model to use. Only whisper-1 is currently available.
    pub fn model(&mut self, value: &str) -> (builder: &mut AudioTranscriptionParametersBuilder)
        ensures
            *final(self) == *final(builder),
            builder@ == (AudioTranscriptionParametersBuilderView {
                model: Some(value@),
                ..old(self)@
            }),
    {
        self.model = Some(String::from_str(value));
        self
    }

    /// The language of the input audio. Supplying the input language in
    /// ISO-639-1 format will improve accuracy and latency.
    pub fn language(&mut self, value: &str) -> (builder: &mut AudioTranscriptionParametersBuilder)
        ensures
            *final(self) == *final(builder),
            builder@ == (AudioTranscriptionParametersBuilderView {
                language: Some(value@),
                ..old(self)@
            }),
    {
        self.language = Some(String::from_str(value));
        self
    }

    /// An optional text to guide the model's style or continue a previous audio
    /// segment. The prompt should match the audio language.
    pub fn prompt(&mut self, value: &str) -> (builder: &mut AudioTranscriptionParametersBuilder)
        ensures
            *final(self) == *final(builder),
            builder@ == (AudioTranscriptionParametersBuilderView {
                prompt: Some(value@),
                ..old(self)@
            }),
    {
        self.prompt = Some(String::from_str(value));
        self
    }

    /// The format of the transcript output, in one of these options: json,
    /// text, srt, verbose_json, or vtt.
    pub fn response_format(&mut self, value: AudioOutputFormat) -> (builder: &mut AudioTranscriptionParametersBuilder)
        ensures
            *final(self) == *final(builder),
            builder@ == (AudioTranscriptionParametersBuilderView {
                response_format: Some(value),
                ..old(self)@
            }),
    {
        self.response_format = Some(value);
        self
    }

    /// The sampling temperature, between 0 and 1, held as the bit pattern of an
    /// IEEE 754 single-precision number. Higher values like 0.8 make the output
    /// more random, lower values like 0.2 make it more focused and
    /// deterministic. At 0 the model raises the temperature by itself until
    /// certain thresholds are hit.
    pub fn temperature(&mut self, value: u32) -> (builder: &mut AudioTranscriptionParametersBuilder)
        ensures
            *final(self) == *final(builder),
            builder@ == (AudioTranscriptionParametersBuilderView {
                temperature: Some(value),
                ..old(self)@
            }),
    {
        self.temperature = Some(value);
        self
    }

    /// The timestamp granularities to populate for this transcription.
    /// response_format must be set verbose_json to use timestamp granularities.
    /// Either or both of these options are supported: word, or segment.
    pub fn timestamp_granularities(&mut self, value: Vec<TimestampGranularity>) -> (builder: &mut AudioTranscriptionParametersBuilder)
        ensures
            *final(self) == *final(builder),
            builder@ == (AudioTranscriptionParametersBuilderView {
                timestamp_granularities: Some(value@),
                ..old(self)@
            }),
    {
        self.timestamp_granularities = Some(value);
        self
    }

    /// The parameters collected so far, or the name of the first required field
    /// that was never set.
    pub fn build(&self) -> (result: Result<AudioTranscriptionParameters, BuilderError>)
        ensures
            match self@.missing() {
                Some(field) => result matches Err(BuilderError::UninitializedField(name))
                    && name@ == field,
                None => result matches Ok(parameters) && parameters@ == self@.built(),
            },
    {
        let file = match &self.file {
            Some(file) => file.clone(),
            None => return Err(BuilderError::UninitializedField("file")),
        };
        let model = match &self.model {
            Some(model) => model.clone(),
            None => return Err(BuilderError::UninitializedField("model")),
        };
        let language = match &self.language {
            Some(language) => Some(language.clone()),
            None => None,
        };
        let prompt = match &self.prompt {
            Some(prompt) => Some(prompt.clone()),
            None => None,
        };
        let timestamp_granularities = match &self.timestamp_granularities {
            Some(timestamp_granularities) => Some(timestamp_granularities.clone()),
            None => None,
        };
        Ok(
            AudioTranscriptionParameters {
                file,
                model,
                language,
                prompt,
                response_format: self.response_format,
                temperature: self.temperature,
                timestamp_granularities,
            },
        )
    }
}

/// What a translation request asks for.
#[derive(Debug, Clone, PartialEq)]
pub struct AudioTranslationParameters {
    /// The audio file object to translate, in one of these formats: flac, mp3,
    /// mp4, mpeg, mpga, m4a, ogg, wav, or webm.
    pub file: FileUpload,
    /// ID of the model to use. Only whisper-1 is currently available.
    pub model: String,
    /// An optional text to guide the model's style or continue a previous audio
    /// segment. The prompt should be in English.
    pub prompt: Option<String>,
    /// The format of the transcript output, in one of these options: json,
    /// text, srt, verbose_json, or vtt.
    pub response_format: Option<AudioOutputFormat>,
    /// The sampling temperature, between 0 and 1, held as the bit pattern of an
    /// IEEE 754 single-precision number. Higher values like 0.8 make the output
    /// more random, lower values like 0.2 make it more focused and
    /// deterministic. At 0 the model raises the temperature by itself until
    /// certain thresholds are hit.
    pub temperature: Option<u32>,
}

/// What an [`AudioTranslationParameters`] holds.
pub struct AudioTranslationParametersView {
    pub file: FileUploadView,
    pub model: Seq<char>,
    pub prompt: Option<Seq<char>>,
    pub response_format: Option<AudioOutputFormat>,
    pub temperature: Option<u32>,
}

impl View for AudioTranslationParameters {
    type V = AudioTranslationParametersView;

    open spec fn view(&self) -> AudioTranslationParametersView {
        AudioTranslationParametersView {
            file: self.file@,
            model: self.model@,
            prompt: match self.prompt {
                Some(prompt) => Some(prompt@),
                None => None,
            },
            response_format: self.response_format,
            temperature: self.temperature,
        }
    }
}

impl Default for AudioTranslationParameters {
    fn default() -> (parameters: AudioTranslationParameters)
        ensures
            parameters@ == (AudioTranslationParametersView {
                file: FileUploadView::File(Seq::empty()),
                model: Seq::empty(),
                prompt: None,
                response_format: None,
                temperature: None,
            }),
    {
        AudioTranslationParameters {
            file: FileUpload::default(),
            model: String::new(),
            prompt: None,
            response_format: None,
            temperature: None,
        }
    }
}

/// Collects the fields of an [`AudioTranslationParameters`] one by one. The
/// file and the model are required.
#[derive(Debug, Clone)]
pub struct AudioTranslationParametersBuilder {
    file: Option<FileUpload>,
    model: Option<String>,
    prompt: Option<String>,
    response_format: Option<AudioOutputFormat>,
    temperature: Option<u32>,
}

/// What an [`AudioTranslationParametersBuilder`] has collected so far: for each
/// field the value it was last given, or `None` if it was never set.
pub struct AudioTranslationParametersBuilderView {
    pub file: Option<FileUploadView>,
    pub model: Option<Seq<char>>,
    pub prompt: Option<Seq<char>>,
    pub response_format: Option<AudioOutputFormat>,
    pub temperature: Option<u32>,
}

impl AudioTranslationParametersBuilderView {
    /// The builder to which nothing has been given.
    pub open spec fn empty() -> AudioTranslationParametersBuilderView {
        AudioTranslationParametersBuilderView {
            file: None,
            model: None,
            prompt: None,
            response_format: None,
            temperature: None,
        }
    }

    /// The name of the first required field that is still unset, if any.
    pub open spec fn missing(self) -> Option<Seq<char>> {
        if self.file is None {
            Some("file"@)
        } else if self.model is None {
            Some("model"@)
        } else {
            None
        }
    }

    /// The parameters that these fields make up once nothing is missing.
    pub open spec fn built(self) -> AudioTranslationParametersView
        recommends
            self.missing() is None,
    {
        AudioTranslationParametersView {
            file: self.file->0,
            model: self.model->0,
            prompt: self.prompt,
            response_format: self.response_format,
            temperature: self.temperature,
        }
    }
}

impl View for AudioTranslationParametersBuilder {
    type V = AudioTranslationParametersBuilderView;

    closed spec fn view(&self) -> AudioTranslationParametersBuilderView {
        AudioTranslationParametersBuilderView {
            file: match self.file {
                Some(file) => Some(file@),
                None => None,
            },
            model: match self.model {
                Some(model) => Some(model@),
                None => None,
            },
            prompt: match self.prompt {
                Some(prompt) => Some(prompt@),
                None => None,
            },
            response_format: self.response_format,
            temperature: self.temperature,
        }
    }
}

impl Default for AudioTranslationParametersBuilder {
    fn default() -> (builder: AudioTranslationParametersBuilder)
        ensures
            builder@ == AudioTranslationParametersBuilderView::empty(),
    {
        AudioTranslationParametersBuilder {
            file: None,
            model: None,
            prompt: None,
            response_format: None,
            temperature: None,
        }
    }
}

impl AudioTranslationParametersBuilder {
    /// The audio file object to translate, in one of these formats: flac, mp3,
    /// mp4, mpeg, mpga, m4a, ogg, wav, or webm.
    pub fn file(&mut self, value: FileUpload) -> (builder: &mut AudioTranslationParametersBuilder)
        ensures
            *final(self) == *final(builder),
            builder@ == (AudioTranslationParametersBuilderView {
                file: Some(value@),
                ..old(self)@
            }),
    {
        self.file = Some(value);
        self
    }

    /// ID of the model to use. Only whisper-1 is currently available.
    pub fn model(&mut self, value: &str) -> (builder: &mut AudioTranslationParametersBuilder)
        ensures
            *final(self) == *final(builder),
            builder@ == (AudioTranslationParametersBuilderView {
                model: Some(value@),
                ..old(self)@
            }),
    {
        self.model = Some(String::from_str(value));
        self
    }

    /// An optional text to guide the model's style or continue a previous audio
    /// segment. The prompt should be in English.
    pub fn prompt(&mut self, value: &str) -> (builder: &mut AudioTranslationParametersBuilder)
        ensures
            *final(self) == *final(builder),
            builder@ == (AudioTranslationParametersBuilderView {
                prompt: Some(value@),
                ..old(self)@
            }),
    {
        self.prompt = Some(String::from_str(value));
        self
    }

    /// The format of the transcript output, in one of these options: json,
    /// text, srt, verbose_json, or vtt.
    pub fn response_format(&mut self, value: AudioOutputFormat) -> (builder: &mut AudioTranslationParametersBuilder)
        ensures
            *final(self) == *final(builder),
            builder@ == (AudioTranslationParametersBuilderView {
                response_format: Some(value),
                ..old(self)@
            }),
    {
        self.response_format = Some(value);
        self
    }

    /// The sampling temperature, between 0 and 1, held as the bit pattern of an
    /// IEEE 754 single-precision number. Higher values like 0.8 make the output
    /// more random, lower values like 0.2 make it more focused and
    /// deterministic. At 0 the model raises the temperature by itself until
    /// certain thresholds are hit.
    pub fn temperature(&mut self, value: u32) -> (builder: &mut AudioTranslationParametersBuilder)
        ensures
            *final(self) == *final(builder),
            builder@ == (AudioTranslationParametersBuilderView {
                temperature: Some(value),
                ..old(self)@
            }),
    {
        self.temperature = Some(value);
        self
    }

    /// The parameters collected so far, or the name of the first required field
    /// that was never set.
    pub fn build(&self) -> (result: Result<AudioTranslationParameters, BuilderError>)
        ensures
            match self@.missing() {
                Some(field) => result matches Err(BuilderError::UninitializedField(name))
                    && name@ == field,
                None => result matches Ok(parameters) && parameters@ == self@.built(),
            },
    {
        let file = match &self.file {
            Some(file) => file.clone(),
            None => return Err(BuilderError::UninitializedField("file")),
        };
        let model = match &self.model {
            Some(model) => model.clone(),
            None => return Err(BuilderError::UninitializedField("model")),
        };
        let prompt = match &self.prompt {
            Some(prompt) => Some(prompt.clone()),
            None => None,
        };
        Ok(
            AudioTranslationParameters {
                file,
                model,
                prompt,
                response_format: self.response_format,
                temperature: self.temperature,
            },
        )
    }
}

/// What a streamed speech request asks for.
#[derive(Debug, Clone, PartialEq)]
pub struct StreamAudioSpeechParameters {
    /// One of the available TTS models: tts-1 or tts-1-hd.
    pub model: String,
    /// The text to generate audio for. The maximum length is 4096 characters.
    pub input: String,
    /// The voice to use when generating the audio.
    pub voice: AudioVoice,
    /// The format to audio in. Supported formats are mp3, opus, aac, flac,
    /// wav and pcm.
    pub response_format: Option<AudioSpeechResponseFormat>,
    /// The speed of the generated audio, from 0.25 to 4.0 with 1.0 as the
    /// default, held as the bit pattern of an IEEE 754 single-precision
    /// number.
    pub speed: Option<u32>,
    pub stream: bool,
}

/// The audio that a speech request produced.
#[derive(Debug, Clone)]
pub struct AudioSpeechResponse {
    pub bytes: bytes::Bytes,
}

/// One piece of the audio of a streamed speech request.
#[derive(Debug, Clone, PartialEq)]
pub struct AudioSpeechResponseChunkResponse {
    pub bytes: bytes::Bytes,
}

/// What has to happen next while audio is being saved to a file. The caller
/// carries the action out and reports what came of it with a [`SaveEvent`].
#[derive(Debug, PartialEq)]
pub enum SaveAction {
    /// Find out whether this directory, the parent of the file, exists.
    ProbeDirectory(String),
    /// Create this directory together with every missing ancestor.
    CreateDirectory(String),
    /// Write the audio bytes to the file.
    WriteFile,
    /// Nothing is left to do; this is the outcome of the whole save.
    Finish(Result<(), APIError>),
}

/// What came of carrying out a [`SaveAction`].
#[derive(Debug, Clone, PartialEq)]
pub enum SaveEvent {
    /// The probe ran; `true` when the directory is there.
    Exists(bool),
    /// The directory was created, or the file was written.
    Done,
    /// The file system refused; carries its message.
    Failed(String),
}

impl SaveAction {
    /// The first action of a save, given the parent directory of the
    /// target: a path with a parent has that parent probed, a path without
    /// one is written at once.
    pub open spec fn spec_begin(parent: Option<String>) -> SaveAction {
        match parent {
            Some(directory) => SaveAction::ProbeDirectory(directory),
            None => SaveAction::WriteFile,
        }
    }

    /// Whether `event` is a possible outcome of this action.
    pub open spec fn answered_by(self, event: SaveEvent) -> bool {
        match self {
            SaveAction::ProbeDirectory(_) => event is Exists || event is Failed,
            SaveAction::CreateDirectory(_) => event is Done || event is Failed,
            SaveAction::WriteFile => event is Done || event is Failed,
            SaveAction::Finish(_) => false,
        }
    }

    /// The action that follows this one once `event` has been reported.
    ///
    /// A failure at any step ends the save with a `FileError` that carries
    /// the reported message. A directory that exists, or that has just been
    /// created, leads to the write; a missing one is created first; a
    /// completed write ends the save with success. An event that does not
    /// answer this action changes nothing.
    pub open spec fn spec_next(self, event: SaveEvent) -> SaveAction {
        match (self, event) {
            (SaveAction::ProbeDirectory(_), SaveEvent::Exists(true)) => SaveAction::WriteFile,
            (SaveAction::ProbeDirectory(directory), SaveEvent::Exists(false)) => {
                SaveAction::CreateDirectory(directory)
            },
            (SaveAction::CreateDirectory(_), SaveEvent::Done) => SaveAction::WriteFile,
            (SaveAction::WriteFile, SaveEvent::Done) => SaveAction::Finish(Ok(())),
            (SaveAction::Finish(_), _) => self,
            (_, SaveEvent::Failed(message)) => SaveAction::Finish(
                Err(APIError::FileError(message)),
            ),
            _ => self,
        }
    }

    /// How many answered steps may still lie ahead of this action.
    pub open spec fn steps_left(self) -> nat {
        match self {
            SaveAction::ProbeDirectory(_) => 3,
            SaveAction::CreateDirectory(_) => 2,
            SaveAction::WriteFile => 1,
            SaveAction::Finish(_) => 0,
        }
    }

    /// The first action of a save whose target has the given parent
    /// directory.
    pub fn begin(parent: Option<String>) -> (first: SaveAction)
        ensures
            first == Self::spec_begin(parent),
    {
        match parent {
            Some(directory) => SaveAction::ProbeDirectory(directory),
            None => SaveAction::WriteFile,
        }
    }

    /// Consumes the action that was carried out together with its outcome
    /// and returns the action to carry out next.
    pub fn next(self, event: SaveEvent) -> (following: SaveAction)
        ensures
            following == self.spec_next(event),
    {
        match self {
            SaveAction::ProbeDirectory(directory) => match event {
                SaveEvent::Exists(true) => SaveAction::WriteFile,
                SaveEvent::Exists(false) => SaveAction::CreateDirectory(directory),
                SaveEvent::Failed(message) => SaveAction::Finish(
                    Err(APIError::FileError(message)),
                ),
                SaveEvent::Done => SaveAction::ProbeDirectory(directory),
            },
            SaveAction::CreateDirectory(directory) => match event {
                SaveEvent::Done => SaveAction::WriteFile,
                SaveEvent::Failed(message) => SaveAction::Finish(
                    Err(APIError::FileError(message)),
                ),
                SaveEvent::Exists(_) => SaveAction::CreateDirectory(directory),
            },
            SaveAction::WriteFile => match event {
                SaveEvent::Done => SaveAction::Finish(Ok(())),
                SaveEvent::Failed(message) => SaveAction::Finish(
                    Err(APIError::FileError(message)),
                ),
                SaveEvent::Exists(_) => SaveAction::WriteFile,
            },
            SaveAction::Finish(outcome) => SaveAction::Finish(outcome),
        }
    }

    /// Every answered step brings the save closer to its end, so a save is
    /// over after at most three of them; once it is over, no event changes
    /// its outcome.
    pub proof fn lemma_save_terminates(self, event: SaveEvent)
        ensures
            self.answered_by(event) ==> self.spec_next(event).steps_left() < self.steps_left(),
            !self.answered_by(event) ==> self.spec_next(event) == self,
            self.steps_left() == 0 <==> self is Finish,
    {
    }

    /// A save ends in success only through a write that was reported done,
    /// and every reported failure ends it with a `FileError` that carries
    /// the reported message.
    pub proof fn lemma_save_outcome(self, event: SaveEvent)
        requires
            self !is Finish,
        ensures
            self.spec_next(event) == SaveAction::Finish(Ok(())) <==> self is WriteFile && event
                is Done,
            event matches SaveEvent::Failed(message) ==> self.spec_next(event)
                == SaveAction::Finish(Err(APIError::FileError(message))),
            self.spec_next(event) is Finish ==> event is Failed || (self is WriteFile && event
                is Done),
            self.spec_next(event) is CreateDirectory ==> self is CreateDirectory || (self
                is ProbeDirectory && event == SaveEvent::Exists(false)),
    {
    }
}

/// `std::path::Path::parent` on a path given as text. The result is the
/// parent that [`path_parent`] names, and the empty path has none. The call
/// reads the text alone and does not look at the file system.
#[verifier::external_body]
fn parent_directory(path: &str) -> (parent: Option<String>)
    ensures
        text_of(parent) == path_parent(path@),
        path@.len() == 0 ==> parent is None,
{
    match std::path::Path::new(path).parent() {
        Some(directory) => Some(directory.to_string_lossy().into_owned()),
        None => None,
    }
}

impl AudioSpeechResponse {
    /// Starts saving the audio to `file_path` and returns the first thing
    /// to do: probe the parent directory of the file where it has one,
    /// write the file where it has none. The steps that follow come from
    /// [`SaveAction::next`].
    pub fn save(&self, file_path: &str) -> (first: SaveAction)
        ensures
            match path_parent(file_path@) {
                Some(directory) => first matches SaveAction::ProbeDirectory(probed) && probed@
                    == directory,
                None => first == SaveAction::WriteFile,
            },
            file_path@.len() == 0 ==> first == SaveAction::WriteFile,
    {
        SaveAction::begin(parent_directory(file_path))
    }
}

/// The parent of a path given as text, as `std::path::Path::parent` finds
/// it: the path without its last component, or `None` where the path is
/// empty or ends in a root. It depends on the text alone. How a text divides
/// into components is the rule of the platform that the library is built
/// for, and is not written out here.
pub uninterp spec fn path_parent(path: Seq<char>) -> Option<Seq<char>>;

/// The text of a string that may be absent.
pub open spec fn text_of(text: Option<String>) -> Option<Seq<char>> {
    match text {
        Some(text) => Some(text@),
        None => None,
    }
}

} // verus!
