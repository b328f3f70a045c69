//! The types the audio and container codecs share.
use vstd::prelude::*;

verus! {

#[verifier::external_type_specification]
#[verifier::external_body]
pub struct ExIoError(std::io::Error);

#[verifier::external_type_specification]
#[verifier::external_body]
pub struct ExSeekFrom(std::io::SeekFrom);

/// Why an AAC stream could not be read.
#[derive(Debug, Clone, Copy, PartialEq, Eq, Structural)]
pub enum AacError {
    EarlyEof,
    UnsupportedAudioObjectType(u8),
}

/// Decoded audio: one vector of samples per channel.
pub type PcmData = Vec<Vec<i16>>;

/// What reading an audio stream gives: audio, or a change of metadata.
#[derive(Debug)]
pub enum StreamRead {
    Audio(PcmData),
    Metadata(Metadata),
}

/// Why an audio stream could not be read.
#[derive(Debug)]
pub enum StreamError {
    IoError(std::io::Error),
    BadPacket,
}

/// The tags of a stream.
#[derive(Debug, Clone)]
pub struct Metadata {
    pub artist: Option<String>,
    pub title: Option<String>,
}

/// An audio stream a codec reads from.
pub trait AudioStream {
    fn codec_name(&self) -> &'static str;

    fn sample_rate(&self) -> usize;

    fn channels(&self) -> usize;

    fn bitrate_nominal(&self) -> usize;

    fn read(&mut self) -> Result<Option<StreamRead>, StreamError>;
}

/// A source of bytes that a container reader pulls from.
pub trait IoReader {
    type Error;

    fn read(&mut self, out: &mut [u8]) -> Result<usize, Self::Error>;

    fn seek(&mut self, pos: std::io::SeekFrom) -> Result<u64, Self::Error>;

    fn size(&mut self) -> Result<u64, Self::Error>;
}


/// What a reader callback left behind when it failed: its error, or the
/// payload of its panic (`Payload` is the type of panic payloads).
pub enum ReaderError<T, Payload> {
    Error(T),
    Panic(Payload),
}

/// Why a container operation failed: the reader's error, or a libav* code.
#[derive(Debug)]
pub enum AvIoError<E> {
    Io(E),
    Av(crate::ffmpeg::AvError),
}

/// What a container call's return code means, given what the reader left
/// behind: success for 0; otherwise the reader's error if it failed, its
/// panic to be resumed if it panicked, or the libav* error.
pub enum IoOutcome<E, Payload> {
    Success,
    Failed(AvIoError<E>),
    ResumePanic(Payload),
}

/// Classifies a container call's return code, given the slot where the
/// reader callbacks record their failure: on success the slot is left as it
/// is; on failure what it holds is taken out (the slot is empty afterwards)
/// and decides the outcome.
pub fn check_error<E, Payload>(rc: i32, last_error: &mut Option<ReaderError<E, Payload>>) -> (r: IoOutcome<E, Payload>)
    ensures
        rc == 0 ==> r is Success && *final(last_error) == *old(last_error),
        rc != 0 ==> (*final(last_error)) is None && match *old(last_error) {
            Some(ReaderError::Error(e)) => r matches IoOutcome::Failed(AvIoError::Io(f)) && f == e,
            Some(ReaderError::Panic(p)) => r matches IoOutcome::ResumePanic(q) && q == p,
            None => r matches IoOutcome::Failed(AvIoError::Av(a)) && a.0 == rc,
        },
{
    if rc == 0 {
        IoOutcome::Success
    } else {
        match last_error.take() {
            Some(ReaderError::Error(e)) => IoOutcome::Failed(AvIoError::Io(e)),
            Some(ReaderError::Panic(payload)) => IoOutcome::ResumePanic(payload),
            None => IoOutcome::Failed(AvIoError::Av(crate::ffmpeg::AvError(rc))),
        }
    }
}

/// The flag of a seek callback's `whence` that asks for the stream's size
/// rather than a move (`AVSEEK_SIZE`).
pub const AVSEEK_SIZE: i32 = 0x10000;
/// `whence`: from the start of the stream.
pub const SEEK_SET: i32 = 0;
/// `whence`: from the current position.
pub const SEEK_CUR: i32 = 1;
/// `whence`: from the end of the stream.
pub const SEEK_END: i32 = 2;

/// Where a seek moves to.
#[derive(Debug, Clone, Copy, PartialEq, Eq, Structural)]
pub enum SeekTarget {
    Start(u64),
    Current(i64),
    End(i64),
}

/// What a container's seek callback is asked to do.
#[derive(Debug, Clone, Copy, PartialEq, Eq, Structural)]
pub enum SeekRequest {
    /// Report the stream's size.
    Size,
    /// Move the reader.
    Seek(SeekTarget),
    /// An unknown `whence`, answered with the negated `EINVAL`.
    Invalid,
}

/// Reads the arguments of a container's seek callback: the size flag wins;
/// otherwise `whence` says where `pos` counts from. A position from the start
/// must not be negative (the reader stops the program otherwise).
pub fn seek_request(pos: i64, whence: i32) -> (r: SeekRequest)
    requires
        (whence & AVSEEK_SIZE) == 0 && whence == SEEK_SET ==> pos >= 0,
    ensures
        r == (if (whence & AVSEEK_SIZE) != 0 {
            SeekRequest::Size
        } else if whence == SEEK_SET {
            SeekRequest::Seek(SeekTarget::Start(pos as u64))
        } else if whence == SEEK_CUR {
            SeekRequest::Seek(SeekTarget::Current(pos))
        } else if whence == SEEK_END {
            SeekRequest::Seek(SeekTarget::End(pos))
        } else {
            SeekRequest::Invalid
        }),
{
    if (whence & AVSEEK_SIZE) != 0 {
        SeekRequest::Size
    } else if whence == SEEK_SET {
        SeekRequest::Seek(SeekTarget::Start(pos as u64))
    } else if whence == SEEK_CUR {
        SeekRequest::Seek(SeekTarget::Current(pos))
    } else if whence == SEEK_END {
        SeekRequest::Seek(SeekTarget::End(pos))
    } else {
        SeekRequest::Invalid
    }
}

} // verus!
