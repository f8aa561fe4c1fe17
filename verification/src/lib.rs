//! Typed, validated view of a media-inspection tool's JSON report.
//!
//! The probe tool prints one JSON document describing a media file: its
//! streams, its container format and its chapters. The document is loosely
//! typed: numbers arrive both bare and quoted, optional fields are omitted,
//! and stream records are told apart only by a free-text discriminant. This
//! crate decodes such a document into a closed set of typed entities, or
//! reports exactly why it could not.

use vstd::prelude::*;

pub mod error;
pub mod ffprobe;
pub mod format;
pub mod chapter;
pub mod disposition;
pub mod duration;
pub mod json;
pub mod numbers;
pub mod ratio;
pub mod streams;
pub mod tags;

pub use error::FfProbeError;
pub use error::ProbeOutput;
pub use error::ShapeError;
pub use ratio::Ratio;
pub use duration::Duration;
pub use duration::option_string_to_duration;
pub use tags::Tags;
pub use disposition::Disposition;
pub use streams::AudioStream;
pub use streams::SideData;
pub use streams::Stream;
pub use streams::StreamKinds;
pub use streams::VideoStream;
pub use format::Format;
pub use chapter::Chapter;

pub use ffprobe::FfProbe;

use error::FfProbeErrorView;
use error::ProbeOutputView;
use error::ShapeErrorView;
use ffprobe::FfProbeView;
use ffprobe::spec_decode_document;
use json::parse_json;
use json::parsed_doc;

verus! {

/// What one tool run means: a failed exit short-circuits to an exit failure
/// carrying the whole captured outcome, and the output bytes are never
/// looked at; on a successful exit the bytes must parse as JSON and the
/// document must decode whole.
pub open spec fn spec_ffprobe(o: ProbeOutputView) -> Result<FfProbeView, FfProbeErrorView> {
    if !o.success {
        Err(FfProbeErrorView::Status(o))
    } else {
        match parsed_doc(o.stdout) {
            None => Err(FfProbeErrorView::Deserialize(ShapeErrorView::InvalidJson)),
            Some(j) => match spec_decode_document(j) {
                Ok(f) => Ok(f),
                Err(e) => Err(FfProbeErrorView::Deserialize(e)),
            },
        }
    }
}

/// Turns one captured run of the probe tool into a typed report, or into
/// exactly one error of the taxonomy.
pub fn ffprobe(output: ProbeOutput) -> (r: Result<FfProbe, FfProbeError>)
    ensures
        match r {
            Ok(f) => spec_ffprobe(output@) == Ok::<_, FfProbeErrorView>(f@),
            Err(e) => spec_ffprobe(output@) == Err::<FfProbeView, _>(e@),
        },
        !output.success ==> (r matches Err(e) && e@ == FfProbeErrorView::Status(output@)),
{
    if !output.success {
        return Err(FfProbeError::Status(output));
    }
    let parsed = parse_json(output.stdout.as_slice());
    match parsed {
        None => Err(FfProbeError::Deserialize(ShapeError::InvalidJson)),
        Some(j) => match FfProbe::decode(&j) {
            Ok(f) => Ok(f),
            Err(e) => Err(FfProbeError::Deserialize(e)),
        },
    }
}

} // verus!
