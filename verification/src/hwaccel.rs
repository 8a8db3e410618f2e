//! Which hardware decoders are worth looking for.
//!
//! For the codecs that graphics hardware commonly decodes, a system may offer
//! decoders that run on it. They are looked up by name; the names are tried in
//! a fixed order of preference and the first one that the system has is
//! reported.

use vstd::prelude::*;

verus! {

/// The codec of a video stream, as far as hardware decoding tells codecs
/// apart.
#[derive(Clone, Copy, Debug, PartialEq, Eq, Structural)]
pub enum VideoCodec {
    H264,
    Hevc,
    Av1,
    Other,
}

/// The names of the hardware decoders for `codec`, most preferred first.
pub open spec fn hardware_decoders_spec(codec: VideoCodec) -> Seq<Seq<char>> {
    match codec {
        VideoCodec::H264 => seq!["h264_nvdec"@, "h264_vaapi"@, "h264_qsv"@],
        VideoCodec::Hevc => seq!["hevc_nvdec"@, "hevc_vaapi"@, "hevc_qsv"@],
        VideoCodec::Av1 => seq!["av1_nvdec"@, "av1_vaapi"@, "av1_qsv"@],
        VideoCodec::Other => seq![],
    }
}

/// `names` holds the strings `expected`, in order.
pub open spec fn spells(names: Seq<&'static str>, expected: Seq<Seq<char>>) -> bool {
    &&& names.len() == expected.len()
    &&& forall|i: int| 0 <= i < names.len() ==> (#[trigger] names[i])@ == expected[i]
}

/// The names of the hardware decoders for `codec`, most preferred first. There
/// are none for a codec that is not among the three named ones.
pub fn hardware_decoders(codec: VideoCodec) -> (names: Vec<&'static str>)
    ensures
        spells(names@, hardware_decoders_spec(codec)),
{
    let mut names: Vec<&'static str> = Vec::new();
    match codec {
        VideoCodec::H264 => {
            names.push("h264_nvdec");
            names.push("h264_vaapi");
            names.push("h264_qsv");
        },
        VideoCodec::Hevc => {
            names.push("hevc_nvdec");
            names.push("hevc_vaapi");
            names.push("hevc_qsv");
        },
        VideoCodec::Av1 => {
            names.push("av1_nvdec");
            names.push("av1_vaapi");
            names.push("av1_qsv");
        },
        VideoCodec::Other => {},
    }
    names
}

/// `index` is the first position at which `available` holds `true`.
pub open spec fn is_first_available(available: Seq<bool>, index: int) -> bool {
    &&& 0 <= index < available.len()
    &&& available[index]
    &&& forall|j: int| 0 <= j < index ==> !available[j]
}

/// The position of the first candidate that is available, where
/// `available[i]` says whether candidate `i` is; `None` where none is.
pub fn first_available(available: &[bool]) -> (found: Option<usize>)
    ensures
        match found {
            Some(index) => is_first_available(available@, index as int),
            None => forall|j: int| 0 <= j < available@.len() ==> !available@[j],
        },
{
    let mut i: usize = 0;
    while i < available.len()
        invariant
            i <= available@.len(),
            forall|j: int| 0 <= j < i ==> !available@[j],
        decreases available@.len() - i,
    {
        if available[i] {
            return Some(i);
        }
        i = i + 1;
    }
    None
}

} // verus!
