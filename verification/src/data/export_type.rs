//! What a task exports: an audio or a video file, and its extension.
use vstd::prelude::*;

verus! {

/// The audio file formats.
#[derive(Clone, Copy, PartialEq, Eq, Structural, Debug)]
pub enum AudioExtension {
    Mp3,
    Wav,
    Ogg,
}

/// The video file formats.
#[derive(Clone, Copy, PartialEq, Eq, Structural, Debug)]
pub enum VideoExtension {
    Mp4,
    Mov,
    Mkv,
}

/// The kind and format of an exported file.
#[derive(Clone, Copy, PartialEq, Eq, Structural, Debug)]
pub enum ExportType {
    Audio(AudioExtension),
    Video(VideoExtension),
}

/// The formats offered for the kind of `e`: mp3, wav, ogg for audio and mp4,
/// mov, mkv for video.
pub open spec fn spec_formats(e: ExportType) -> Seq<ExportType> {
    match e {
        ExportType::Audio(_) => seq![
            ExportType::Audio(AudioExtension::Mp3),
            ExportType::Audio(AudioExtension::Wav),
            ExportType::Audio(AudioExtension::Ogg),
        ],
        ExportType::Video(_) => seq![
            ExportType::Video(VideoExtension::Mp4),
            ExportType::Video(VideoExtension::Mov),
            ExportType::Video(VideoExtension::Mkv),
        ],
    }
}

/// The file extension of an audio format, with its leading dot.
pub open spec fn audio_extension_text(a: AudioExtension) -> Seq<char> {
    match a {
        AudioExtension::Mp3 => seq!['.', 'm', 'p', '3'],
        AudioExtension::Wav => seq!['.', 'w', 'a', 'v'],
        AudioExtension::Ogg => seq!['.', 'o', 'g', 'g'],
    }
}

/// The file extension of a video format, with its leading dot.
pub open spec fn video_extension_text(v: VideoExtension) -> Seq<char> {
    match v {
        VideoExtension::Mp4 => seq!['.', 'm', 'p', '4'],
        VideoExtension::Mov => seq!['.', 'm', 'o', 'v'],
        VideoExtension::Mkv => seq!['.', 'm', 'k', 'v'],
    }
}

/// The file extension of an export type, with its leading dot.
pub open spec fn export_type_text(e: ExportType) -> Seq<char> {
    match e {
        ExportType::Audio(a) => audio_extension_text(a),
        ExportType::Video(v) => video_extension_text(v),
    }
}

fn dot_ext(a: char, b: char, c: char) -> (s: String)
    ensures
        s@ == seq!['.', a, b, c],
{
    let mut s = String::new();
    crate::text::push_char(&mut s, '.');
    crate::text::push_char(&mut s, a);
    crate::text::push_char(&mut s, b);
    crate::text::push_char(&mut s, c);
    assert(s@ =~= seq!['.', a, b, c]);
    s
}

impl AudioExtension {
    /// The extension with its leading dot, such as `.mp3`.
    pub fn to_string(&self) -> (s: String)
        ensures
            s@ == audio_extension_text(*self),
    {
        match self {
            AudioExtension::Mp3 => dot_ext('m', 'p', '3'),
            AudioExtension::Wav => dot_ext('w', 'a', 'v'),
            AudioExtension::Ogg => dot_ext('o', 'g', 'g'),
        }
    }
}

impl VideoExtension {
    /// The extension with its leading dot, such as `.mp4`.
    pub fn to_string(&self) -> (s: String)
        ensures
            s@ == video_extension_text(*self),
    {
        match self {
            VideoExtension::Mp4 => dot_ext('m', 'p', '4'),
            VideoExtension::Mov => dot_ext('m', 'o', 'v'),
            VideoExtension::Mkv => dot_ext('m', 'k', 'v'),
        }
    }
}

impl ExportType {
    /// Whether this is an audio format.
    pub fn is_audio(&self) -> (r: bool)
        ensures
            r == (*self is Audio),
    {
        match self {
            Self::Audio(_) => true,
            Self::Video(_) => false,
        }
    }

    /// Whether this is a video format.
    pub fn is_video(&self) -> (r: bool)
        ensures
            r == (*self is Video),
    {
        match self {
            Self::Audio(_) => false,
            Self::Video(_) => true,
        }
    }

    /// The formats of the same kind as this one.
    pub fn formats(&self) -> (r: Vec<ExportType>)
        ensures
            r@ == spec_formats(*self),
    {
        match self {
            Self::Audio(_) => vec![
                AudioExtension::Mp3.into(),
                AudioExtension::Wav.into(),
                AudioExtension::Ogg.into(),
            ],
            Self::Video(_) => vec![
                VideoExtension::Mp4.into(),
                VideoExtension::Mov.into(),
                VideoExtension::Mkv.into(),
            ],
        }
    }

    /// The file extension with its leading dot, such as `.mp3`.
    pub fn to_string(&self) -> (s: String)
        ensures
            s@ == export_type_text(*self),
    {
        match self {
            Self::Audio(a) => a.to_string(),
            Self::Video(v) => v.to_string(),
        }
    }
}

impl From<AudioExtension> for ExportType {
    fn from(value: AudioExtension) -> (r: ExportType) {
        ExportType::Audio(value)
    }
}

impl vstd::std_specs::convert::FromSpecImpl<AudioExtension> for ExportType {
    open spec fn obeys_from_spec() -> bool {
        true
    }

    open spec fn from_spec(v: AudioExtension) -> ExportType {
        ExportType::Audio(v)
    }
}

impl From<VideoExtension> for ExportType {
    fn from(value: VideoExtension) -> (r: ExportType) {
        ExportType::Video(value)
    }
}

impl vstd::std_specs::convert::FromSpecImpl<VideoExtension> for ExportType {
    open spec fn obeys_from_spec() -> bool {
        true
    }

    open spec fn from_spec(v: VideoExtension) -> ExportType {
        ExportType::Video(v)
    }
}

/// Every format is either audio or video, never both; the formats offered for
/// it are three of its own kind, it among them.
pub proof fn law_export_type_kinds(e: ExportType)
    ensures
        (e is Audio) != (e is Video),
        spec_formats(e).len() == 3,
        spec_formats(e).contains(e),
        forall|i: int|
            0 <= i < spec_formats(e).len() ==> ((#[trigger] spec_formats(e)[i]) is Audio
                == e is Audio),
{
    match e {
        ExportType::Audio(a) => {
            match a {
                AudioExtension::Mp3 => assert(spec_formats(e)[0] == e),
                AudioExtension::Wav => assert(spec_formats(e)[1] == e),
                AudioExtension::Ogg => assert(spec_formats(e)[2] == e),
            }
        },
        ExportType::Video(v) => {
            match v {
                VideoExtension::Mp4 => assert(spec_formats(e)[0] == e),
                VideoExtension::Mov => assert(spec_formats(e)[1] == e),
                VideoExtension::Mkv => assert(spec_formats(e)[2] == e),
            }
        },
    }
}

} // verus!
