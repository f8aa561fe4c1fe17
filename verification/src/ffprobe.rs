//! The top-level report: what one run of the probe tool said about one file.
//! A report decodes whole or not at all — no partial report is ever returned,
//! since callers index into the stream sequence positionally.

use vstd::prelude::*;

use crate::chapter::Chapter;
use crate::chapter::ChapterView;
use crate::chapter::chapter_dec;
use crate::chapter::chapters_view;
use crate::chapter::decode_chapters;
use crate::error::ShapeError;
use crate::error::ShapeErrorView;
use crate::format::Format;
use crate::format::FormatView;
use crate::format::spec_decode_format;
use crate::json::Json;
use crate::json::decode_seq;
use crate::json::lookup;
use crate::json::spec_lookup;
use crate::streams::Stream;
use crate::streams::StreamView;
use crate::streams::decode_streams;
use crate::streams::stream_dec;
use crate::streams::streams_view;

verus! {

/// The decoded report: the streams in source order, and the container and
/// chapter sections where the tool emitted them.
pub struct FfProbe {
    pub streams: Vec<Stream>,
    pub format: Option<Format>,
    pub chapters: Option<Vec<Chapter>>,
}

pub struct FfProbeView {
    pub streams: Seq<StreamView>,
    pub format: Option<FormatView>,
    pub chapters: Option<Seq<ChapterView>>,
}

pub open spec fn opt_format_view(o: Option<Format>) -> Option<FormatView> {
    match o {
        Some(f) => Some(f@),
        None => None,
    }
}

pub open spec fn opt_chapters_view(o: Option<Vec<Chapter>>) -> Option<Seq<ChapterView>> {
    match o {
        Some(v) => Some(chapters_view(v@)),
        None => None,
    }
}

impl View for FfProbe {
    type V = FfProbeView;

    open spec fn view(&self) -> FfProbeView {
        FfProbeView {
            streams: streams_view(self.streams@),
            format: opt_format_view(self.format),
            chapters: opt_chapters_view(self.chapters),
        }
    }
}

/// The `streams` section: absent or null means no streams were requested, and
/// the report holds an empty sequence.
pub open spec fn spec_streams_field(fields: Seq<(String, Json)>) -> Result<
    Seq<StreamView>,
    ShapeErrorView,
> {
    match spec_lookup(fields, "streams"@) {
        None => Ok(Seq::empty()),
        Some(j) => match j {
            Json::Null => Ok(Seq::empty()),
            Json::Arr(elems) => decode_seq(elems@, stream_dec()),
            _ => Err(ShapeErrorView::WrongType("streams"@)),
        },
    }
}

/// The `format` section: absent or null is a first-class "not present".
pub open spec fn spec_format_field(fields: Seq<(String, Json)>) -> Result<
    Option<FormatView>,
    ShapeErrorView,
> {
    match spec_lookup(fields, "format"@) {
        None => Ok(None),
        Some(j) => match j {
            Json::Null => Ok(None),
            _ => match spec_decode_format(j) {
                Ok(f) => Ok(Some(f)),
                Err(e) => Err(e),
            },
        },
    }
}

/// The `chapters` section: absent or null is a first-class "not present".
pub open spec fn spec_chapters_field(fields: Seq<(String, Json)>) -> Result<
    Option<Seq<ChapterView>>,
    ShapeErrorView,
> {
    match spec_lookup(fields, "chapters"@) {
        None => Ok(None),
        Some(j) => match j {
            Json::Null => Ok(None),
            Json::Arr(elems) => match decode_seq(elems@, chapter_dec()) {
                Ok(l) => Ok(Some(l)),
                Err(e) => Err(e),
            },
            _ => Err(ShapeErrorView::WrongType("chapters"@)),
        },
    }
}

/// One whole document: a JSON object with the three optional sections.
pub open spec fn spec_decode_document(j: Json) -> Result<FfProbeView, ShapeErrorView> {
    match j {
        Json::Obj(fields) => match spec_streams_field(fields@) {
            Err(e) => Err(e),
            Ok(streams) => match spec_format_field(fields@) {
                Err(e) => Err(e),
                Ok(format) => match spec_chapters_field(fields@) {
                    Err(e) => Err(e),
                    Ok(chapters) => Ok(FfProbeView { streams, format, chapters }),
                },
            },
        },
        _ => Err(ShapeErrorView::WrongType("document"@)),
    }
}

impl FfProbe {
    /// Decodes one whole report document.
    pub fn decode(j: &Json) -> (r: Result<FfProbe, ShapeError>)
        ensures
            match r {
                Ok(f) => spec_decode_document(*j) == Ok::<_, ShapeErrorView>(f@),
                Err(e) => spec_decode_document(*j) == Err::<FfProbeView, _>(e@),
            },
    {
        let fields = match j {
            Json::Obj(fields) => fields,
            _ => {
                return Err(ShapeError::WrongType("document".to_owned()));
            },
        };
        let streams: Vec<Stream> = match lookup(fields, "streams") {
            None => Vec::new(),
            Some(sj) => match sj {
                Json::Null => Vec::new(),
                Json::Arr(elems) => match decode_streams(elems) {
                    Ok(v) => v,
                    Err(e) => {
                        return Err(e);
                    },
                },
                _ => {
                    return Err(ShapeError::WrongType("streams".to_owned()));
                },
            },
        };
        proof {
            assert(streams_view(Seq::<Stream>::empty()) =~= Seq::<StreamView>::empty());
        }
        let format: Option<Format> = match lookup(fields, "format") {
            None => None,
            Some(fj) => match fj {
                Json::Null => None,
                _ => match Format::decode(fj) {
                    Ok(f) => Some(f),
                    Err(e) => {
                        return Err(e);
                    },
                },
            },
        };
        let chapters: Option<Vec<Chapter>> = match lookup(fields, "chapters") {
            None => None,
            Some(cj) => match cj {
                Json::Null => None,
                Json::Arr(elems) => match decode_chapters(elems) {
                    Ok(v) => Some(v),
                    Err(e) => {
                        return Err(e);
                    },
                },
                _ => {
                    return Err(ShapeError::WrongType("chapters".to_owned()));
                },
            },
        };
        Ok(FfProbe { streams, format, chapters })
    }
}

} // verus!
