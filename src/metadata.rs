//! A file's observed format, and its construction from a prober's report.

use itertools::Itertools;
use vstd::prelude::*;

use crate::text::same_chars;

verus! {

/// The one video stream of a file.
pub struct VideoMetadata {
    pub index: i64,
    pub codec: String,
    pub pix_fmt: String,
}

/// The one audio stream of a file.
pub struct AudioMetadata {
    pub index: i64,
    pub codec: String,
    pub channels: i64,
}

/// What was observed of one media file.
pub struct FileMetadata {
    /// Short container name: the prober's format name up to its first comma.
    pub container: String,
    /// The prober's duration field, in seconds, as it reported it.
    pub duration: Option<String>,
    pub video: VideoMetadata,
    pub audio: AudioMetadata,
}

/// One stream as the prober reported it.
pub struct ProbeStream {
    pub index: i64,
    /// "video", "audio", or another kind; absent when the prober gave none.
    pub codec_type: Option<String>,
    pub codec_name: Option<String>,
    pub pix_fmt: Option<String>,
    pub channels: Option<i64>,
}

/// What the prober reported of one file.
pub struct ProbeReport {
    pub filename: String,
    /// Comma-separated names of the container format, such as "mov,mp4,m4a".
    pub format_name: String,
    pub duration: Option<String>,
    pub streams: Vec<ProbeStream>,
}

/// Why a prober's report yields no `FileMetadata`.
pub enum MetadataError {
    /// No stream of this kind in the file.
    NoStream { kind: String, file: String },
    /// More than one stream of this kind in the file.
    MultipleStreams { kind: String, file: String },
    /// The stream with this index names no codec.
    NoCodec { index: i64 },
    /// The video stream with this index names no pixel format.
    NoPixFmt { index: i64 },
}

/// `name` is the short container name within `format_name`: the text before
/// its first comma, or all of it when it holds none.
pub open spec fn is_container_of(name: Seq<char>, format_name: Seq<char>) -> bool {
    &&& name.len() <= format_name.len()
    &&& name == format_name.take(name.len() as int)
    &&& forall|i: int| 0 <= i < name.len() ==> name[i] != ','
    &&& name.len() < format_name.len() ==> format_name[name.len() as int] == ','
}

/// Whether the prober gave `s` the kind `kind`.
pub open spec fn has_kind(s: ProbeStream, kind: Seq<char>) -> bool {
    match s.codec_type {
        Some(t) => t@ == kind,
        None => false,
    }
}

/// The streams of the kind `kind`, in the report's order.
pub open spec fn streams_of_kind(report: ProbeReport, kind: Seq<char>) -> Seq<ProbeStream> {
    report.streams@.filter(|s: ProbeStream| has_kind(s, kind))
}

/// Whether the report lacks exactly one stream of the kind `kind`.
pub open spec fn lookup_fails(report: ProbeReport, kind: Seq<char>) -> bool {
    streams_of_kind(report, kind).len() != 1
}

/// The stream of the kind `kind`, where there is exactly one.
pub open spec fn the_stream(report: ProbeReport, kind: Seq<char>) -> ProbeStream {
    streams_of_kind(report, kind)[0]
}

/// `e` is the error for a report that lacks exactly one stream of the kind `kind`.
pub open spec fn lookup_error(report: ProbeReport, kind: Seq<char>, e: MetadataError) -> bool {
    let n = streams_of_kind(report, kind).len();
    match e {
        MetadataError::NoStream { kind: k, file: f } => n == 0 && k@ == kind && f@
            == report.filename@,
        MetadataError::MultipleStreams { kind: k, file: f } => n >= 2 && k@ == kind && f@
            == report.filename@,
        _ => false,
    }
}

pub open spec fn same_text(a: Option<String>, b: Option<String>) -> bool {
    match (a, b) {
        (Some(x), Some(y)) => x@ == y@,
        (None, None) => true,
        _ => false,
    }
}

/// Whether the report yields no audio stream description.
pub open spec fn audio_fails(report: ProbeReport) -> bool {
    lookup_fails(report, "audio"@) || the_stream(report, "audio"@).codec_name is None
}

/// `e` is the error for a report whose audio stream cannot be described.
pub open spec fn audio_error(report: ProbeReport, e: MetadataError) -> bool {
    if lookup_fails(report, "audio"@) {
        lookup_error(report, "audio"@, e)
    } else {
        e == MetadataError::NoCodec { index: the_stream(report, "audio"@).index }
    }
}

/// `a` describes the one audio stream of the report.
pub open spec fn audio_described(report: ProbeReport, a: AudioMetadata) -> bool {
    let s = the_stream(report, "audio"@);
    &&& a.index == s.index
    &&& same_text(Some(a.codec), s.codec_name)
    &&& a.channels == match s.channels {
        Some(c) => c,
        None => 0,
    }
}

/// Whether the report yields no video stream description.
pub open spec fn video_fails(report: ProbeReport) -> bool {
    ||| lookup_fails(report, "video"@)
    ||| the_stream(report, "video"@).codec_name is None
    ||| the_stream(report, "video"@).pix_fmt is None
}

/// `e` is the error for a report whose video stream cannot be described.
pub open spec fn video_error(report: ProbeReport, e: MetadataError) -> bool {
    let s = the_stream(report, "video"@);
    if lookup_fails(report, "video"@) {
        lookup_error(report, "video"@, e)
    } else if s.codec_name is None {
        e == MetadataError::NoCodec { index: s.index }
    } else {
        e == MetadataError::NoPixFmt { index: s.index }
    }
}

/// `v` describes the one video stream of the report.
pub open spec fn video_described(report: ProbeReport, v: VideoMetadata) -> bool {
    let s = the_stream(report, "video"@);
    &&& v.index == s.index
    &&& same_text(Some(v.codec), s.codec_name)
    &&& same_text(Some(v.pix_fmt), s.pix_fmt)
}

/// Relies on itertools' `Itertools::at_most_one`, which yields `Ok(None)` for
/// no item, `Ok(Some(x))` for the single item `x`, and an error for two or more.
#[verifier::external_body]
fn at_most_one_index(indices: Vec<usize>) -> (r: Result<Option<usize>, ()>)
    ensures
        match r {
            Ok(None) => indices@.len() == 0,
            Ok(Some(i)) => indices@.len() == 1 && i == indices@[0],
            Err(()) => indices@.len() >= 2,
        },
{
    match indices.into_iter().at_most_one() {
        Ok(found) => Ok(found),
        Err(_) => Err(()),
    }
}

/// The short container name: the prober's format name up to its first comma.
pub fn get_container(details: &ProbeReport) -> (r: String)
    ensures
        is_container_of(r@, details.format_name@),
{
    let name = details.format_name.as_str();
    let n = name.unicode_len();
    let mut k: usize = 0;
    while k < n
        invariant
            n == name@.len(),
            name@ == details.format_name@,
            k <= n,
            forall|i: int| 0 <= i < k ==> name@[i] != ',',
        ensures
            k <= n,
            forall|i: int| 0 <= i < k ==> name@[i] != ',',
            k < n ==> name@[k as int] == ',',
        decreases n - k,
    {
        if name.get_char(k) == ',' {
            break;
        }
        k = k + 1;
    }
    let prefix = name.substring_char(0, k);
    let r = prefix.to_string();
    proof {
        broadcast use vstd::string::group_string_axioms;

        assert(r@ == prefix@);
        assert(r@ =~= details.format_name@.take(k as int));
    }
    r
}

/// The one stream of the kind `stream_type`; an error where the report holds
/// none or several.
pub fn find_stream_by_type<'a>(details: &'a ProbeReport, stream_type: &str) -> (r: Result<
    &'a ProbeStream,
    MetadataError,
>)
    ensures
        match r {
            Ok(s) => !lookup_fails(*details, stream_type@) && *s == the_stream(
                *details,
                stream_type@,
            ),
            Err(e) => lookup_fails(*details, stream_type@) && lookup_error(
                *details,
                stream_type@,
                e,
            ),
        },
{
    let ghost pred = |s: ProbeStream| has_kind(s, stream_type@);
    let ghost all = details.streams@;
    let mut found: Vec<usize> = Vec::new();
    let mut i: usize = 0;
    while i < details.streams.len()
        invariant
            i <= all.len(),
            all == details.streams@,
            pred == (|s: ProbeStream| has_kind(s, stream_type@)),
            forall|j: int| 0 <= j < found@.len() ==> found@[j] < i,
            found@.map_values(|j: usize| all[j as int]) == all.take(i as int).filter(pred),
        decreases all.len() - i,
    {
        let is_kind = match &details.streams[i].codec_type {
            Some(t) => same_chars(t.as_str(), stream_type),
            None => false,
        };
        proof {
            assert(all.take(i + 1).drop_last() =~= all.take(i as int));
            assert(all.take(i + 1).last() == all[i as int]);
            assert(is_kind == pred(all[i as int]));
            reveal(Seq::filter);
            assert(all.take(i + 1).filter(pred) == if pred(all[i as int]) {
                all.take(i as int).filter(pred).push(all[i as int])
            } else {
                all.take(i as int).filter(pred)
            });
        }
        let ghost before = found@;
        if is_kind {
            found.push(i);
            proof {
                assert(found@.map_values(|j: usize| all[j as int]) =~= before.map_values(
                    |j: usize| all[j as int],
                ).push(all[i as int]));
            }
        }
        i = i + 1;
    }
    proof {
        reveal(Seq::filter);
        assert(all.take(i as int) =~= all);
    }
    let ghost picked = found@.map_values(|j: usize| all[j as int]);
    match at_most_one_index(found) {
        Ok(Some(j)) => {
            proof {
                assert(picked[0] == all[j as int]);
            }
            Ok(&details.streams[j])
        },
        Ok(None) => Err(
            MetadataError::NoStream {
                kind: stream_type.to_string(),
                file: details.filename.clone(),
            },
        ),
        Err(()) => Err(
            MetadataError::MultipleStreams {
                kind: stream_type.to_string(),
                file: details.filename.clone(),
            },
        ),
    }
}

/// The codec that the prober named for `stream`.
pub fn get_codec(stream: &ProbeStream) -> (r: Result<String, MetadataError>)
    ensures
        match r {
            Ok(c) => same_text(Some(c), stream.codec_name),
            Err(e) => stream.codec_name is None && e == MetadataError::NoCodec {
                index: stream.index,
            },
        },
{
    match &stream.codec_name {
        Some(c) => Ok(c.clone()),
        None => Err(MetadataError::NoCodec { index: stream.index }),
    }
}

/// The pixel format that the prober named for `stream`.
pub fn get_pix_fmt(stream: &ProbeStream) -> (r: Result<String, MetadataError>)
    ensures
        match r {
            Ok(p) => same_text(Some(p), stream.pix_fmt),
            Err(e) => stream.pix_fmt is None && e == MetadataError::NoPixFmt {
                index: stream.index,
            },
        },
{
    match &stream.pix_fmt {
        Some(p) => Ok(p.clone()),
        None => Err(MetadataError::NoPixFmt { index: stream.index }),
    }
}

/// The description of the report's one video stream.
pub fn get_video_metadata(details: &ProbeReport) -> (r: Result<VideoMetadata, MetadataError>)
    ensures
        match r {
            Ok(v) => !video_fails(*details) && video_described(*details, v),
            Err(e) => video_fails(*details) && video_error(*details, e),
        },
{
    let video_stream = find_stream_by_type(details, "video")?;
    let codec = get_codec(video_stream)?;
    let pix_fmt = get_pix_fmt(video_stream)?;
    Ok(VideoMetadata { index: video_stream.index, codec, pix_fmt })
}

/// The description of the report's one audio stream; a missing channel count
/// reads as 0.
pub fn get_audio_metadata(details: &ProbeReport) -> (r: Result<AudioMetadata, MetadataError>)
    ensures
        match r {
            Ok(a) => !audio_fails(*details) && audio_described(*details, a),
            Err(e) => audio_fails(*details) && audio_error(*details, e),
        },
{
    let audio_stream = find_stream_by_type(details, "audio")?;
    let codec = get_codec(audio_stream)?;
    let channels = match audio_stream.channels {
        Some(c) => c,
        None => 0,
    };
    Ok(AudioMetadata { index: audio_stream.index, codec, channels })
}

/// Builds the `FileMetadata` of a prober's report. The audio stream is looked
/// at first, so its error wins where both streams are at fault.
pub fn get_metadata(details: &ProbeReport) -> (r: Result<FileMetadata, MetadataError>)
    ensures
        match r {
            Ok(m) => {
                &&& !audio_fails(*details)
                &&& !video_fails(*details)
                &&& is_container_of(m.container@, details.format_name@)
                &&& same_text(m.duration, details.duration)
                &&& audio_described(*details, m.audio)
                &&& video_described(*details, m.video)
            },
            Err(e) => if audio_fails(*details) {
                audio_error(*details, e)
            } else {
                video_fails(*details) && video_error(*details, e)
            },
        },
{
    let container = get_container(details);
    let duration = match &details.duration {
        Some(d) => Some(d.clone()),
        None => None,
    };
    let audio = get_audio_metadata(details)?;
    let video = get_video_metadata(details)?;
    Ok(FileMetadata { container, duration, video, audio })
}

} // verus!
