//! The compliance engine: each checked dimension of a file is held against
//! its own allow or reject rule, independently of the others.

use vstd::prelude::*;

use crate::metadata::FileMetadata;

verus! {

/// One dimension's rule: a value complies with `Allow(s)` when it is listed in
/// `s`, and with `Reject(s)` when it is not.
pub enum Formats {
    Allow(Vec<String>),
    Reject(Vec<String>),
}

/// A policy: one rule per checked dimension.
pub struct FormatSpec {
    pub audio: Formats,
    pub video: Formats,
    pub container: Formats,
    pub pix_fmt: Formats,
}

/// The engine's verdict on one file, one flag per dimension.
pub struct FormatValidation {
    pub audio_okay: bool,
    pub video_okay: bool,
    pub container_okay: bool,
    pub pix_fmt_okay: bool,
}

/// The values that a list of names holds.
pub open spec fn members(items: Seq<String>) -> Set<Seq<char>> {
    Set::new(|v: Seq<char>| exists|i: int| 0 <= i < items.len() && items[i]@ == v)
}

/// Whether `value` complies with `rule`.
pub open spec fn complies(rule: Formats, value: Seq<char>) -> bool {
    match rule {
        Formats::Allow(items) => members(items@).contains(value),
        Formats::Reject(items) => !members(items@).contains(value),
    }
}

/// The verdict of `spec` on `file`, dimension by dimension.
pub open spec fn validation_of(file: FileMetadata, spec: FormatSpec) -> FormatValidation {
    FormatValidation {
        audio_okay: complies(spec.audio, file.audio.codec@),
        video_okay: complies(spec.video, file.video.codec@),
        container_okay: complies(spec.container, file.container@),
        pix_fmt_okay: complies(spec.pix_fmt, file.video.pix_fmt@),
    }
}

impl FormatValidation {
    pub open spec fn spec_is_valid(&self) -> bool {
        self.audio_okay && self.video_okay && self.container_okay && self.pix_fmt_okay
    }

    /// A file is valid when every dimension complies; recomputed from the
    /// flags on each call.
    #[verifier::when_used_as_spec(spec_is_valid)]
    pub fn is_valid(&self) -> (r: bool)
        ensures
            r == (self.audio_okay && self.video_okay && self.container_okay
                && self.pix_fmt_okay),
    {
        self.audio_okay && self.video_okay && self.container_okay && self.pix_fmt_okay
    }
}

/// Holds each dimension of `file` against the matching rule of `format`.
pub fn validate_format(file: &FileMetadata, format: &FormatSpec) -> (r: FormatValidation)
    ensures
        r == validation_of(*file, *format),
{
    let audio_okay = validate_format_component(&format.audio, &file.audio.codec);
    let video_okay = validate_format_component(&format.video, &file.video.codec);
    let container_okay = validate_format_component(&format.container, &file.container);
    let pix_fmt_okay = validate_format_component(&format.pix_fmt, &file.video.pix_fmt);
    FormatValidation { audio_okay, video_okay, container_okay, pix_fmt_okay }
}

/// Whether one observed value complies with one rule.
pub fn validate_format_component(format: &Formats, value: &String) -> (r: bool)
    ensures
        r == complies(*format, value@),
{
    match format {
        Formats::Allow(items) => allow(items.as_slice(), value),
        Formats::Reject(items) => reject(items.as_slice(), value),
    }
}

/// Whether `value` is listed in `format`.
pub fn allow(format: &[String], value: &String) -> (r: bool)
    ensures
        r == members(format@).contains(value@),
{
    let mut i: usize = 0;
    while i < format.len()
        invariant
            i <= format@.len(),
            forall|j: int| 0 <= j < i ==> format@[j]@ != value@,
        decreases format@.len() - i,
    {
        if format[i] == *value {
            assert(members(format@).contains(value@)) by {
                assert(format@[i as int]@ == value@);
            }
            return true;
        }
        i = i + 1;
    }
    false
}

/// Whether `value` is absent from `format`.
pub fn reject(format: &[String], value: &String) -> (r: bool)
    ensures
        r == !members(format@).contains(value@),
{
    !allow(format, value)
}

/// An `Allow` rule admits exactly the values that its list holds.
pub proof fn lemma_allow_is_membership(items: Vec<String>, value: Seq<char>)
    ensures
        complies(Formats::Allow(items), value) <==> members(items@).contains(value),
{
}

/// A `Reject` rule admits exactly the values that its list does not hold.
pub proof fn lemma_reject_is_non_membership(items: Vec<String>, value: Seq<char>)
    ensures
        complies(Formats::Reject(items), value) <==> !members(items@).contains(value),
{
}

/// An empty `Allow` list admits no value, and an empty `Reject` list admits
/// every value.
pub proof fn lemma_empty_rules(items: Vec<String>, value: Seq<char>)
    requires
        items@.len() == 0,
    ensures
        !complies(Formats::Allow(items), value),
        complies(Formats::Reject(items), value),
{
}

} // verus!
