use vstd::prelude::*;

verus! {

/// Outcome of one run of the external probe tool, as plain values: whether it
/// exited successfully, its exit code if it had one, and the captured output
/// and error bytes.
#[derive(Debug)]
pub struct ProbeOutput {
    pub success: bool,
    pub code: Option<i32>,
    pub stdout: Vec<u8>,
    pub stderr: Vec<u8>,
}

pub struct ProbeOutputView {
    pub success: bool,
    pub code: Option<i32>,
    pub stdout: Seq<u8>,
    pub stderr: Seq<u8>,
}

impl View for ProbeOutput {
    type V = ProbeOutputView;

    open spec fn view(&self) -> ProbeOutputView {
        ProbeOutputView {
            success: self.success,
            code: self.code,
            stdout: self.stdout@,
            stderr: self.stderr@,
        }
    }
}

/// A failure of the report to match the expected schema. Each variant carries
/// the offending field name or text, so a caller can diagnose the report
/// without re-running the tool.
#[derive(Debug)]
pub enum ShapeError {
    /// The captured bytes are not a JSON document at all.
    InvalidJson,
    /// A required field is absent.
    MissingField(String),
    /// A field is present but of a shape no decoding accepts.
    WrongType(String),
    /// Text that should read as `N/D` does not.
    InvalidRatio(String),
    /// Text that should read as a decimal number of seconds does not.
    InvalidDuration(String),
    /// A stream record's discriminant names no known stream kind.
    UnknownCodecType(String),
}

pub enum ShapeErrorView {
    InvalidJson,
    MissingField(Seq<char>),
    WrongType(Seq<char>),
    InvalidRatio(Seq<char>),
    InvalidDuration(Seq<char>),
    UnknownCodecType(Seq<char>),
}

impl View for ShapeError {
    type V = ShapeErrorView;

    open spec fn view(&self) -> ShapeErrorView {
        match self {
            ShapeError::InvalidJson => ShapeErrorView::InvalidJson,
            ShapeError::MissingField(f) => ShapeErrorView::MissingField(f@),
            ShapeError::WrongType(f) => ShapeErrorView::WrongType(f@),
            ShapeError::InvalidRatio(t) => ShapeErrorView::InvalidRatio(t@),
            ShapeError::InvalidDuration(t) => ShapeErrorView::InvalidDuration(t@),
            ShapeError::UnknownCodecType(t) => ShapeErrorView::UnknownCodecType(t@),
        }
    }
}

/// The full error taxonomy: the tool could not be launched, the tool ran but
/// failed, or the tool succeeded and its report did not match the schema.
/// The variant alone tells a caller which recovery makes sense.
#[derive(Debug)]
pub enum FfProbeError {
    /// The tool could not be started; carries the launcher's error message.
    Io(String),
    /// The tool exited unsuccessfully; carries the whole captured outcome.
    Status(ProbeOutput),
    /// The report did not decode.
    Deserialize(ShapeError),
}

pub enum FfProbeErrorView {
    Io(Seq<char>),
    Status(ProbeOutputView),
    Deserialize(ShapeErrorView),
}

impl View for FfProbeError {
    type V = FfProbeErrorView;

    open spec fn view(&self) -> FfProbeErrorView {
        match self {
            FfProbeError::Io(m) => FfProbeErrorView::Io(m@),
            FfProbeError::Status(o) => FfProbeErrorView::Status(o@),
            FfProbeError::Deserialize(e) => FfProbeErrorView::Deserialize(e@),
        }
    }
}

} // verus!
