//! The remediation planner: derives a minimal re-encode from a verdict, where
//! each compliant stream is copied and each other one converted.

use vstd::prelude::*;

use crate::config::{DefaultFormat, Target};
use crate::metadata::{same_text, FileMetadata};
use crate::validation::{validate_format, validation_of, FormatValidation};

verus! {

/// What the transcoder is asked to do for one file.
pub struct TranscodeDirective {
    pub input: String,
    pub output: String,
    /// "copy", or the codec to convert the video stream to.
    pub video_codec: String,
    /// "copy", or the codec to convert the audio stream to.
    pub audio_codec: String,
    /// The pixel format to convert to; absent where it complies.
    pub pix_fmt: Option<String>,
}

/// Why no remediation was planned.
pub enum RemediationError {
    /// A file already stands where the remediated file would be written.
    OutputExists { path: String },
}

/// What handling one file decided.
pub struct FileOutcome {
    pub validation: FormatValidation,
    /// The planned remediation; absent where none was asked for or needed.
    pub fix: Option<Result<TranscodeDirective, RemediationError>>,
}

/// `d` is the dot that starts the extension of the file name in `path`: the
/// last dot of the last path component, when it is not that component's
/// first character.
pub open spec fn is_extension_dot(path: Seq<char>, d: int) -> bool {
    &&& 0 < d < path.len()
    &&& path[d] == '.'
    &&& path[d - 1] != '/'
    &&& forall|i: int| d < i < path.len() ==> path[i] != '.' && path[i] != '/'
}

/// Where `path` ends once its extension is removed.
pub open spec fn stem_end(path: Seq<char>) -> int {
    if exists|d: int| is_extension_dot(path, d) {
        choose|d: int| is_extension_dot(path, d)
    } else {
        path.len() as int
    }
}

/// The path of the remediated file: `path` with its extension replaced by
/// "fixed.mkv".
pub open spec fn fixed_path_of(path: Seq<char>) -> Seq<char> {
    path.take(stem_end(path)) + ".fixed.mkv"@
}

/// The codec directive for one dimension.
pub open spec fn codec_choice(okay: bool, default: Seq<char>) -> Seq<char> {
    if okay {
        "copy"@
    } else {
        default
    }
}

/// `d` copies each compliant stream of the file at `in_path` and converts each
/// other one to `default`.
pub open spec fn directs(
    d: TranscodeDirective,
    in_path: Seq<char>,
    val: FormatValidation,
    default: DefaultFormat,
) -> bool {
    &&& d.input@ == in_path
    &&& d.output@ == fixed_path_of(in_path)
    &&& d.video_codec@ == codec_choice(val.video_okay, default.video@)
    &&& d.audio_codec@ == codec_choice(val.audio_okay, default.audio@)
    &&& if val.pix_fmt_okay {
        d.pix_fmt is None
    } else {
        same_text(d.pix_fmt, Some(default.pix_fmt))
    }
}

/// `r` is the planning outcome for the file at `in_path`, where
/// `output_exists` tells whether a file stands at its remediated path.
pub open spec fn planned(
    r: Result<TranscodeDirective, RemediationError>,
    in_path: Seq<char>,
    val: FormatValidation,
    default: DefaultFormat,
    output_exists: bool,
) -> bool {
    match r {
        Ok(d) => !output_exists && directs(d, in_path, val, default),
        Err(RemediationError::OutputExists { path }) => output_exists && path@ == fixed_path_of(
            in_path,
        ),
    }
}

/// The arguments that hand `d` to ffmpeg.
pub open spec fn ffmpeg_args_of(d: TranscodeDirective) -> Seq<Seq<char>> {
    seq!["-loglevel"@, "warning"@, "-stats"@, "-i"@, d.input@, "-c:v"@, d.video_codec@] + match d.pix_fmt {
        Some(p) => seq!["-pix_fmt"@, p@],
        None => Seq::empty(),
    } + seq!["-c:a"@, d.audio_codec@, d.output@]
}

/// Where the remediated copy of the file at `in_path` is written: the path
/// with its extension replaced by "fixed.mkv".
pub fn fixed_output_path(in_path: &str) -> (r: String)
    ensures
        r@ == fixed_path_of(in_path@),
{
    let n = in_path.unicode_len();
    let mut i: usize = n;
    while i > 0
        invariant
            n == in_path@.len(),
            i <= n,
            forall|j: int| i <= j < n ==> in_path@[j] != '.' && in_path@[j] != '/',
        ensures
            i <= n,
            forall|j: int| i <= j < n ==> in_path@[j] != '.' && in_path@[j] != '/',
            i > 0 ==> in_path@[i - 1] == '.' || in_path@[i - 1] == '/',
        decreases i,
    {
        let c = in_path.get_char(i - 1);
        if c == '.' || c == '/' {
            break;
        }
        i = i - 1;
    }
    let ghost p = in_path@;
    let mut end: usize = n;
    if i > 1 && in_path.get_char(i - 1) == '.' && in_path.get_char(i - 2) != '/' {
        end = i - 1;
        proof {
            assert(is_extension_dot(p, end as int));
            assert forall|d: int| is_extension_dot(p, d) implies d == end by {
                if d < end {
                    assert(p[end as int] == '.');
                } else if d > end {
                    assert(p[d] != '.');
                }
            }
        }
    } else {
        proof {
            assert forall|d: int| !is_extension_dot(p, d) by {
                if is_extension_dot(p, d) {
                    if d < i - 1 {
                        assert(p[i - 1] != '.' && p[i - 1] != '/');
                    } else if d > i - 1 {
                        assert(p[d] != '.');
                    }
                }
            }
        }
    }
    let mut r = in_path.substring_char(0, end).to_string();
    proof {
        broadcast use vstd::string::group_string_axioms;

    }
    r.append(".fixed.mkv");
    r
}

/// Plans the re-encode of the file at `in_path`: each compliant stream is
/// copied, each other one converted to `default`. Fails, asking nothing of the
/// transcoder, where a file already stands at the remediated path.
pub fn plan_reencode(
    in_path: &str,
    val: &FormatValidation,
    default: &DefaultFormat,
    output_exists: bool,
) -> (r: Result<TranscodeDirective, RemediationError>)
    ensures
        planned(r, in_path@, *val, *default, output_exists),
{
    let output = fixed_output_path(in_path);
    if output_exists {
        return Err(RemediationError::OutputExists { path: output });
    }
    let video_codec = if val.video_okay {
        "copy".to_string()
    } else {
        default.video.clone()
    };
    let audio_codec = if val.audio_okay {
        "copy".to_string()
    } else {
        default.audio.clone()
    };
    let pix_fmt = if val.pix_fmt_okay {
        None
    } else {
        Some(default.pix_fmt.clone())
    };
    let input = in_path.to_string();
    proof {
        broadcast use vstd::string::group_string_axioms;

    }
    Ok(TranscodeDirective { input, output, video_codec, audio_codec, pix_fmt })
}

impl TranscodeDirective {
    /// The command-line arguments that hand this directive to ffmpeg.
    pub fn ffmpeg_args(&self) -> (r: Vec<String>)
        ensures
            r@.map_values(|s: String| s@) == ffmpeg_args_of(*self),
    {
        broadcast use vstd::string::group_string_axioms;

        let mut r: Vec<String> = Vec::new();
        r.push("-loglevel".to_string());
        r.push("warning".to_string());
        r.push("-stats".to_string());
        r.push("-i".to_string());
        r.push(self.input.clone());
        r.push("-c:v".to_string());
        r.push(self.video_codec.clone());
        match &self.pix_fmt {
            Some(p) => {
                r.push("-pix_fmt".to_string());
                r.push(p.clone());
            },
            None => {},
        }
        r.push("-c:a".to_string());
        r.push(self.audio_codec.clone());
        r.push(self.output.clone());
        assert(r@.map_values(|s: String| s@) =~= ffmpeg_args_of(*self));
        r
    }
}

/// Decides what becomes of one file: its verdict under `target`, and, where
/// it is not valid and a fix was asked for, the planned remediation.
/// `output_exists` tells whether a file stands at its remediated path.
pub fn handle_file(
    path: &str,
    metadata: &FileMetadata,
    target: &Target,
    should_fix: bool,
    output_exists: bool,
) -> (r: FileOutcome)
    ensures
        r.validation == validation_of(*metadata, target.format_spec),
        r.fix is Some <==> (should_fix && !r.validation.is_valid()),
        match r.fix {
            Some(p) => planned(p, path@, r.validation, target.default, output_exists),
            None => true,
        },
{
    let validation = validate_format(metadata, &target.format_spec);
    let fix = if !validation.is_valid() && should_fix {
        Some(plan_reencode(path, &validation, &target.default, output_exists))
    } else {
        None
    };
    FileOutcome { validation, fix }
}

/// The mark shown beside a checked value.
pub fn report_status(is_okay: bool) -> (r: &'static str)
    ensures
        r@ == if is_okay {
            "✅"@
        } else {
            "❌"@
        },
{
    if is_okay {
        "✅"
    } else {
        "❌"
    }
}

} // verus!
