//! Display metadata of a track: its file type, file name, and the title,
//! artist and album that its tags give, with the file name's stem standing in
//! for a missing title.

use vstd::prelude::*;
use crate::paths::{extension, extension_of, file_name, file_name_of, stem, stem_of};

verus! {

/// The formats whose tags are read.
#[derive(Debug, Clone, Copy, PartialEq, Eq)]
pub enum AudioFileType {
    FLAC,
    WAV,
    MP3,
}

/// Why no metadata could be had.
#[derive(Debug, Clone, Copy, PartialEq, Eq)]
pub enum MetaError {
    /// The path's extension is none of `flac`, `wav` and `mp3`.
    UnsupportedFileType,
}

/// What a track shows: each field absent where nothing gives it.
#[derive(Debug, Clone, PartialEq, Eq)]
pub struct AudioMetadata {
    pub file: Option<String>,
    pub title: Option<String>,
    pub artist: Option<String>,
    pub album: Option<String>,
}

/// The text fields that a file's tags hold, each absent where the tags do
/// not give it.
#[derive(Debug, Clone, PartialEq, Eq)]
pub struct TagFields {
    pub title: Option<String>,
    pub artist: Option<String>,
    pub album: Option<String>,
}

/// Reads metadata for display.
#[derive(Debug, Clone, Copy)]
pub struct Meta {}

/// The format that a path's extension names, exactly and in lower case.
pub open spec fn file_type_of(p: Seq<char>) -> Option<AudioFileType> {
    match extension_of(p) {
        Some(e) => if e == seq!['f', 'l', 'a', 'c'] {
            Some(AudioFileType::FLAC)
        } else if e == seq!['w', 'a', 'v'] {
            Some(AudioFileType::WAV)
        } else if e == seq!['m', 'p', '3'] {
            Some(AudioFileType::MP3)
        } else {
            None
        },
        None => None,
    }
}

/// The text of an optional field.
pub open spec fn text_of(o: Option<String>) -> Option<Seq<char>> {
    match o {
        Some(s) => Some(s@),
        None => None,
    }
}

/// The title shown for `path`: the tag's, or the stem of the file name.
pub open spec fn title_for(path: Seq<char>, file_type: AudioFileType, tags: TagFields) -> Seq<
    char,
> {
    match (file_type, tags.title) {
        (AudioFileType::WAV, _) => stem_of(file_name_of(path)),
        (_, Some(t)) => t@,
        (_, None) => stem_of(file_name_of(path)),
    }
}

impl Meta {
    pub fn new() -> (r: Meta) {
        Meta {  }
    }

    /// The format of `path`, from its extension.
    pub fn detect_file_type(path: &str) -> (r: Result<AudioFileType, MetaError>)
        ensures
            match r {
                Ok(t) => file_type_of(path@) == Some(t),
                Err(e) => e == MetaError::UnsupportedFileType && file_type_of(path@) is None,
            },
    {
        proof {
            reveal_strlit("flac");
            reveal_strlit("wav");
            reveal_strlit("mp3");
            assert("flac"@ =~= seq!['f', 'l', 'a', 'c']);
            assert("wav"@ =~= seq!['w', 'a', 'v']);
            assert("mp3"@ =~= seq!['m', 'p', '3']);
        }
        match extension(path) {
            Some(e) => {
                if e == "flac".to_owned() {
                    Ok(AudioFileType::FLAC)
                } else if e == "wav".to_owned() {
                    Ok(AudioFileType::WAV)
                } else if e == "mp3".to_owned() {
                    Ok(AudioFileType::MP3)
                } else {
                    Err(MetaError::UnsupportedFileType)
                }
            },
            None => Err(MetaError::UnsupportedFileType),
        }
    }

    /// The metadata shown for a file of `file_type` at `path` whose tags
    /// hold `tags`. The file name is the path's last component; the title is
    /// the tag's, or else the file name up to its first `.`. A WAV file's tags
    /// are not read: its artist and album are empty.
    pub fn describe(&self, path: &str, file_type: AudioFileType, tags: TagFields) -> (r:
        AudioMetadata)
        ensures
            text_of(r.file) == Some(file_name_of(path@)),
            text_of(r.title) == Some(title_for(path@, file_type, tags)),
            file_type == AudioFileType::WAV ==> text_of(r.artist) == Some(Seq::<char>::empty())
                && text_of(r.album) == Some(Seq::<char>::empty()),
            file_type != AudioFileType::WAV ==> r.artist == tags.artist && r.album
                == tags.album,
    {
        let name = file_name(path);
        let short = stem(name.as_str());
        match file_type {
            AudioFileType::WAV => AudioMetadata {
                file: Some(name),
                title: Some(short),
                artist: Some(String::new()),
                album: Some(String::new()),
            },
            _ => {
                let title = match tags.title {
                    Some(t) => t,
                    None => short,
                };
                AudioMetadata {
                    file: Some(name),
                    title: Some(title),
                    artist: tags.artist,
                    album: tags.album,
                }
            },
        }
    }
}

} // verus!
