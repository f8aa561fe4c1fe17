//! Stream records: one elementary media track each. A free-text discriminant
//! names the kind; the five known kinds decode to a closed variant type, and
//! an unrecognized discriminant is a failure, never a silently dropped record
//! — dropping one would shift every later stream's position.

use vstd::prelude::*;

use crate::disposition::Disposition;
use crate::disposition::spec_opt_disposition_field;
use crate::disposition::opt_disposition_field;
use crate::error::ShapeError;
use crate::error::ShapeErrorView;
use crate::json::Json;
use crate::json::decode_seq;
use crate::json::lemma_decode_seq_err;
use crate::json::lookup;
use crate::json::opt_int_field;
use crate::json::opt_str_field;
use crate::json::opt_i64_view;
use crate::json::opt_string_view;
use crate::json::req_int_field;
use crate::json::spec_lookup;
use crate::json::spec_opt_int_field;
use crate::json::spec_opt_str_field;
use crate::json::spec_req_int_field;
use crate::json::str_eq;
use crate::ratio::Ratio;
use crate::ratio::opt_ratio_field;
use crate::ratio::opt_ratio_view;
use crate::ratio::spec_opt_ratio_field;
use crate::tags::Tags;
use crate::tags::opt_tags_field;
use crate::tags::opt_tags_view;
use crate::tags::spec_opt_tags_field;

verus! {

/// One side-data record attached to a stream.
pub struct SideData {
    pub side_data_type: Option<String>,
    pub rotation: Option<i64>,
}

pub struct SideDataView {
    pub side_data_type: Option<Seq<char>>,
    pub rotation: Option<int>,
}

impl View for SideData {
    type V = SideDataView;

    open spec fn view(&self) -> SideDataView {
        SideDataView {
            side_data_type: opt_string_view(self.side_data_type),
            rotation: opt_i64_view(self.rotation),
        }
    }
}

/// Kind-specific payload of a video stream.
pub struct VideoStream {
    pub width: i64,
    pub height: i64,
    pub pix_fmt: Option<String>,
    pub avg_frame_rate: Option<Ratio>,
    pub sample_aspect_ratio: Option<Ratio>,
    pub rotation: Option<i64>,
}

pub struct VideoStreamView {
    pub width: int,
    pub height: int,
    pub pix_fmt: Option<Seq<char>>,
    pub avg_frame_rate: Option<(int, int)>,
    pub sample_aspect_ratio: Option<(int, int)>,
    pub rotation: Option<int>,
}

impl View for VideoStream {
    type V = VideoStreamView;

    open spec fn view(&self) -> VideoStreamView {
        VideoStreamView {
            width: self.width as int,
            height: self.height as int,
            pix_fmt: opt_string_view(self.pix_fmt),
            avg_frame_rate: opt_ratio_view(self.avg_frame_rate),
            sample_aspect_ratio: opt_ratio_view(self.sample_aspect_ratio),
            rotation: opt_i64_view(self.rotation),
        }
    }
}

/// Kind-specific payload of an audio stream.
pub struct AudioStream {
    pub sample_rate: Option<i64>,
    pub channels: Option<i64>,
    pub channel_layout: Option<String>,
    pub sample_fmt: Option<String>,
}

pub struct AudioStreamView {
    pub sample_rate: Option<int>,
    pub channels: Option<int>,
    pub channel_layout: Option<Seq<char>>,
    pub sample_fmt: Option<Seq<char>>,
}

impl View for AudioStream {
    type V = AudioStreamView;

    open spec fn view(&self) -> AudioStreamView {
        AudioStreamView {
            sample_rate: opt_i64_view(self.sample_rate),
            channels: opt_i64_view(self.channels),
            channel_layout: opt_string_view(self.channel_layout),
            sample_fmt: opt_string_view(self.sample_fmt),
        }
    }
}

/// The closed set of stream kinds. Subtitle, data and attachment streams
/// carry only the common fields.
pub enum StreamKinds {
    Video(VideoStream),
    Audio(AudioStream),
    Subtitle,
    Data,
    Attachment,
}

pub enum StreamKindsView {
    Video(VideoStreamView),
    Audio(AudioStreamView),
    Subtitle,
    Data,
    Attachment,
}

impl View for StreamKinds {
    type V = StreamKindsView;

    open spec fn view(&self) -> StreamKindsView {
        match self {
            StreamKinds::Video(v) => StreamKindsView::Video(v@),
            StreamKinds::Audio(a) => StreamKindsView::Audio(a@),
            StreamKinds::Subtitle => StreamKindsView::Subtitle,
            StreamKinds::Data => StreamKindsView::Data,
            StreamKinds::Attachment => StreamKindsView::Attachment,
        }
    }
}

/// One stream record: the fields every kind shares, and the kind's own
/// payload. Exactly one kind is populated.
pub struct Stream {
    pub index: i64,
    pub codec_name: Option<String>,
    pub codec_long_name: Option<String>,
    pub profile: Option<String>,
    pub time_base: Option<Ratio>,
    pub bit_rate: Option<i64>,
    pub disposition: Option<Disposition>,
    pub tags: Option<Tags>,
    pub side_data_list: Option<Vec<SideData>>,
    pub kind: StreamKinds,
}

pub open spec fn side_data_list_view(v: Seq<SideData>) -> Seq<SideDataView> {
    v.map_values(|sd: SideData| sd@)
}

pub open spec fn opt_side_data_view(o: Option<Vec<SideData>>) -> Option<Seq<SideDataView>> {
    match o {
        Some(v) => Some(side_data_list_view(v@)),
        None => None,
    }
}

pub struct StreamView {
    pub index: int,
    pub codec_name: Option<Seq<char>>,
    pub codec_long_name: Option<Seq<char>>,
    pub profile: Option<Seq<char>>,
    pub time_base: Option<(int, int)>,
    pub bit_rate: Option<int>,
    pub disposition: Option<Disposition>,
    pub tags: Option<Seq<(Seq<char>, Seq<char>)>>,
    pub side_data_list: Option<Seq<SideDataView>>,
    pub kind: StreamKindsView,
}

impl View for Stream {
    type V = StreamView;

    open spec fn view(&self) -> StreamView {
        StreamView {
            index: self.index as int,
            codec_name: opt_string_view(self.codec_name),
            codec_long_name: opt_string_view(self.codec_long_name),
            profile: opt_string_view(self.profile),
            time_base: opt_ratio_view(self.time_base),
            bit_rate: opt_i64_view(self.bit_rate),
            disposition: self.disposition,
            tags: opt_tags_view(self.tags),
            side_data_list: opt_side_data_view(self.side_data_list),
            kind: self.kind@,
        }
    }
}

pub open spec fn spec_decode_side_data(j: Json) -> Result<SideDataView, ShapeErrorView> {
    match j {
        Json::Obj(fields) => match spec_opt_str_field(fields@, "side_data_type"@) {
            Err(e) => Err(e),
            Ok(side_data_type) => match spec_opt_int_field(fields@, "rotation"@) {
                Err(e) => Err(e),
                Ok(rotation) => Ok(SideDataView { side_data_type, rotation }),
            },
        },
        _ => Err(ShapeErrorView::WrongType("side_data"@)),
    }
}

pub open spec fn side_data_dec() -> spec_fn(Json) -> Result<SideDataView, ShapeErrorView> {
    |e: Json| spec_decode_side_data(e)
}

fn decode_side_data(j: &Json) -> (r: Result<SideData, ShapeError>)
    ensures
        match r {
            Ok(sd) => spec_decode_side_data(*j) == Ok::<_, ShapeErrorView>(sd@),
            Err(e) => spec_decode_side_data(*j) == Err::<SideDataView, _>(e@),
        },
{
    match j {
        Json::Obj(fields) => {
            let side_data_type = match opt_str_field(fields, "side_data_type") {
                Ok(o) => o,
                Err(e) => {
                    return Err(e);
                },
            };
            let rotation = match opt_int_field(fields, "rotation") {
                Ok(o) => o,
                Err(e) => {
                    return Err(e);
                },
            };
            Ok(SideData { side_data_type, rotation })
        },
        _ => Err(ShapeError::WrongType("side_data".to_owned())),
    }
}

/// An optional list of side-data records: absent or null is `None`.
pub open spec fn spec_opt_side_data_field(fields: Seq<(String, Json)>, key: Seq<char>) -> Result<
    Option<Seq<SideDataView>>,
    ShapeErrorView,
> {
    match spec_lookup(fields, key) {
        None => Ok(None),
        Some(j) => match j {
            Json::Null => Ok(None),
            Json::Arr(elems) => match decode_seq(elems@, side_data_dec()) {
                Ok(l) => Ok(Some(l)),
                Err(e) => Err(e),
            },
            _ => Err(ShapeErrorView::WrongType(key)),
        },
    }
}

fn opt_side_data_field(fields: &Vec<(String, Json)>, key: &str) -> (r: Result<
    Option<Vec<SideData>>,
    ShapeError,
>)
    ensures
        match r {
            Ok(o) => spec_opt_side_data_field(fields@, key@) == Ok::<_, ShapeErrorView>(
                opt_side_data_view(o),
            ),
            Err(e) => spec_opt_side_data_field(fields@, key@) == Err::<
                Option<Seq<SideDataView>>,
                _,
            >(e@),
        },
{
    let found = lookup(fields, key);
    match found {
        None => Ok(None),
        Some(j) => match j {
            Json::Null => Ok(None),
            Json::Arr(elems) => {
                let mut out: Vec<SideData> = Vec::new();
                let n = elems.len();
                proof {
                    assert(elems@.take(0) =~= Seq::<Json>::empty());
                    assert(side_data_list_view(out@) =~= Seq::<SideDataView>::empty());
                }
                for i in 0..n
                    invariant
                        n == elems@.len(),
                        spec_lookup(fields@, key@) == Some(Json::Arr(*elems)),
                        decode_seq(elems@.take(i as int), side_data_dec()) == Ok::<
                            _,
                            ShapeErrorView,
                        >(side_data_list_view(out@)),
                    decreases n - i,
                {
                    proof {
                        assert(elems@.take(i + 1).drop_last() =~= elems@.take(i as int));
                        assert(elems@.take(i + 1).last() == elems@[i as int]);
                        assert(side_data_dec()(elems@[i as int]) == spec_decode_side_data(
                            elems@[i as int],
                        ));
                    }
                    match decode_side_data(&elems[i]) {
                        Ok(sd) => {
                            let ghost before = out@;
                            out.push(sd);
                            proof {
                                assert(side_data_list_view(out@) =~= side_data_list_view(
                                    before,
                                ).push(sd@));
                            }
                        },
                        Err(e) => {
                            proof {
                                lemma_decode_seq_err(elems@, side_data_dec(), i + 1);
                            }
                            return Err(e);
                        },
                    }
                }
                proof {
                    assert(elems@.take(n as int) =~= elems@);
                }
                Ok(Some(out))
            },
            _ => Err(ShapeError::WrongType(key.to_owned())),
        },
    }
}

pub open spec fn spec_decode_video(fields: Seq<(String, Json)>) -> Result<
    VideoStreamView,
    ShapeErrorView,
> {
    match spec_req_int_field(fields, "width"@) {
        Err(e) => Err(e),
        Ok(width) => match spec_req_int_field(fields, "height"@) {
            Err(e) => Err(e),
            Ok(height) => match spec_opt_str_field(fields, "pix_fmt"@) {
                Err(e) => Err(e),
                Ok(pix_fmt) => match spec_opt_ratio_field(fields, "avg_frame_rate"@) {
                    Err(e) => Err(e),
                    Ok(avg_frame_rate) => match spec_opt_ratio_field(
                        fields,
                        "sample_aspect_ratio"@,
                    ) {
                        Err(e) => Err(e),
                        Ok(sample_aspect_ratio) => match spec_opt_int_field(fields, "rotation"@) {
                            Err(e) => Err(e),
                            Ok(rotation) => Ok(
                                VideoStreamView {
                                    width,
                                    height,
                                    pix_fmt,
                                    avg_frame_rate,
                                    sample_aspect_ratio,
                                    rotation,
                                },
                            ),
                        },
                    },
                },
            },
        },
    }
}

fn decode_video(fields: &Vec<(String, Json)>) -> (r: Result<VideoStream, ShapeError>)
    ensures
        match r {
            Ok(v) => spec_decode_video(fields@) == Ok::<_, ShapeErrorView>(v@),
            Err(e) => spec_decode_video(fields@) == Err::<VideoStreamView, _>(e@),
        },
{
    let width = match req_int_field(fields, "width") {
        Ok(v) => v,
        Err(e) => {
            return Err(e);
        },
    };
    let height = match req_int_field(fields, "height") {
        Ok(v) => v,
        Err(e) => {
            return Err(e);
        },
    };
    let pix_fmt = match opt_str_field(fields, "pix_fmt") {
        Ok(o) => o,
        Err(e) => {
            return Err(e);
        },
    };
    let avg_frame_rate = match opt_ratio_field(fields, "avg_frame_rate") {
        Ok(o) => o,
        Err(e) => {
            return Err(e);
        },
    };
    let sample_aspect_ratio = match opt_ratio_field(fields, "sample_aspect_ratio") {
        Ok(o) => o,
        Err(e) => {
            return Err(e);
        },
    };
    let rotation = match opt_int_field(fields, "rotation") {
        Ok(o) => o,
        Err(e) => {
            return Err(e);
        },
    };
    Ok(VideoStream { width, height, pix_fmt, avg_frame_rate, sample_aspect_ratio, rotation })
}

pub open spec fn spec_decode_audio(fields: Seq<(String, Json)>) -> Result<
    AudioStreamView,
    ShapeErrorView,
> {
    match spec_opt_int_field(fields, "sample_rate"@) {
        Err(e) => Err(e),
        Ok(sample_rate) => match spec_opt_int_field(fields, "channels"@) {
            Err(e) => Err(e),
            Ok(channels) => match spec_opt_str_field(fields, "channel_layout"@) {
                Err(e) => Err(e),
                Ok(channel_layout) => match spec_opt_str_field(fields, "sample_fmt"@) {
                    Err(e) => Err(e),
                    Ok(sample_fmt) => Ok(
                        AudioStreamView { sample_rate, channels, channel_layout, sample_fmt },
                    ),
                },
            },
        },
    }
}

fn decode_audio(fields: &Vec<(String, Json)>) -> (r: Result<AudioStream, ShapeError>)
    ensures
        match r {
            Ok(a) => spec_decode_audio(fields@) == Ok::<_, ShapeErrorView>(a@),
            Err(e) => spec_decode_audio(fields@) == Err::<AudioStreamView, _>(e@),
        },
{
    let sample_rate = match opt_int_field(fields, "sample_rate") {
        Ok(o) => o,
        Err(e) => {
            return Err(e);
        },
    };
    let channels = match opt_int_field(fields, "channels") {
        Ok(o) => o,
        Err(e) => {
            return Err(e);
        },
    };
    let channel_layout = match opt_str_field(fields, "channel_layout") {
        Ok(o) => o,
        Err(e) => {
            return Err(e);
        },
    };
    let sample_fmt = match opt_str_field(fields, "sample_fmt") {
        Ok(o) => o,
        Err(e) => {
            return Err(e);
        },
    };
    Ok(AudioStream { sample_rate, channels, channel_layout, sample_fmt })
}

/// The discriminant decides the kind: the five known names, case-sensitive
/// and exact, and nothing else.
pub open spec fn spec_kind(fields: Seq<(String, Json)>, ct: Seq<char>) -> Result<
    StreamKindsView,
    ShapeErrorView,
> {
    if ct == "video"@ {
        match spec_decode_video(fields) {
            Ok(v) => Ok(StreamKindsView::Video(v)),
            Err(e) => Err(e),
        }
    } else if ct == "audio"@ {
        match spec_decode_audio(fields) {
            Ok(a) => Ok(StreamKindsView::Audio(a)),
            Err(e) => Err(e),
        }
    } else if ct == "subtitle"@ {
        Ok(StreamKindsView::Subtitle)
    } else if ct == "data"@ {
        Ok(StreamKindsView::Data)
    } else if ct == "attachment"@ {
        Ok(StreamKindsView::Attachment)
    } else {
        Err(ShapeErrorView::UnknownCodecType(ct))
    }
}

pub open spec fn spec_stream_common(fields: Seq<(String, Json)>, kind: StreamKindsView) -> Result<
    StreamView,
    ShapeErrorView,
> {
    match spec_req_int_field(fields, "index"@) {
        Err(e) => Err(e),
        Ok(index) => match spec_opt_str_field(fields, "codec_name"@) {
            Err(e) => Err(e),
            Ok(codec_name) => match spec_opt_str_field(fields, "codec_long_name"@) {
                Err(e) => Err(e),
                Ok(codec_long_name) => match spec_opt_str_field(fields, "profile"@) {
                    Err(e) => Err(e),
                    Ok(profile) => match spec_opt_ratio_field(fields, "time_base"@) {
                        Err(e) => Err(e),
                        Ok(time_base) => match spec_opt_int_field(fields, "bit_rate"@) {
                            Err(e) => Err(e),
                            Ok(bit_rate) => match spec_opt_disposition_field(
                                fields,
                                "disposition"@,
                            ) {
                                Err(e) => Err(e),
                                Ok(disposition) => match spec_opt_tags_field(fields, "tags"@) {
                                    Err(e) => Err(e),
                                    Ok(tags) => match spec_opt_side_data_field(
                                        fields,
                                        "side_data_list"@,
                                    ) {
                                        Err(e) => Err(e),
                                        Ok(side_data_list) => Ok(
                                            StreamView {
                                                index,
                                                codec_name,
                                                codec_long_name,
                                                profile,
                                                time_base,
                                                bit_rate,
                                                disposition,
                                                tags,
                                                side_data_list,
                                                kind,
                                            },
                                        ),
                                    },
                                },
                            },
                        },
                    },
                },
            },
        },
    }
}

/// One whole stream record: the discriminant is authoritative; a missing or
/// non-text discriminant, or an unknown one, fails the record.
pub open spec fn spec_decode_stream(j: Json) -> Result<StreamView, ShapeErrorView> {
    match j {
        Json::Obj(fields) => match spec_lookup(fields@, "codec_type"@) {
            None => Err(ShapeErrorView::MissingField("codec_type"@)),
            Some(ctj) => match ctj {
                Json::Null => Err(ShapeErrorView::MissingField("codec_type"@)),
                Json::Str(ct) => match spec_kind(fields@, ct@) {
                    Err(e) => Err(e),
                    Ok(kind) => spec_stream_common(fields@, kind),
                },
                _ => Err(ShapeErrorView::WrongType("codec_type"@)),
            },
        },
        _ => Err(ShapeErrorView::WrongType("stream"@)),
    }
}

/// An unrecognized discriminant never decodes: it is a failure naming the
/// offending text, not a fallback to any default kind.
pub proof fn lemma_unknown_codec_type_rejected(j: Json, ct: String)
    requires
        j matches Json::Obj(fields) && spec_lookup(fields@, "codec_type"@) == Some(
            Json::Str(ct),
        ),
        ct@ != "video"@,
        ct@ != "audio"@,
        ct@ != "subtitle"@,
        ct@ != "data"@,
        ct@ != "attachment"@,
    ensures
        spec_decode_stream(j) == Err::<StreamView, _>(ShapeErrorView::UnknownCodecType(ct@)),
{
}

impl Stream {
    /// Decodes one stream record.
    pub fn decode(j: &Json) -> (r: Result<Stream, ShapeError>)
        ensures
            match r {
                Ok(st) => spec_decode_stream(*j) == Ok::<_, ShapeErrorView>(st@),
                Err(e) => spec_decode_stream(*j) == Err::<StreamView, _>(e@),
            },
    {
        let fields = match j {
            Json::Obj(fields) => fields,
            _ => {
                return Err(ShapeError::WrongType("stream".to_owned()));
            },
        };
        let ct: &String = match lookup(fields, "codec_type") {
            None => {
                return Err(ShapeError::MissingField("codec_type".to_owned()));
            },
            Some(ctj) => match ctj {
                Json::Null => {
                    return Err(ShapeError::MissingField("codec_type".to_owned()));
                },
                Json::Str(ct) => ct,
                _ => {
                    return Err(ShapeError::WrongType("codec_type".to_owned()));
                },
            },
        };
        let kind: StreamKinds = if str_eq(ct.as_str(), "video") {
            match decode_video(fields) {
                Ok(v) => StreamKinds::Video(v),
                Err(e) => {
                    return Err(e);
                },
            }
        } else if str_eq(ct.as_str(), "audio") {
            match decode_audio(fields) {
                Ok(a) => StreamKinds::Audio(a),
                Err(e) => {
                    return Err(e);
                },
            }
        } else if str_eq(ct.as_str(), "subtitle") {
            StreamKinds::Subtitle
        } else if str_eq(ct.as_str(), "data") {
            StreamKinds::Data
        } else if str_eq(ct.as_str(), "attachment") {
            StreamKinds::Attachment
        } else {
            return Err(ShapeError::UnknownCodecType(ct.clone()));
        };
        let index = match req_int_field(fields, "index") {
            Ok(v) => v,
            Err(e) => {
                return Err(e);
            },
        };
        let codec_name = match opt_str_field(fields, "codec_name") {
            Ok(o) => o,
            Err(e) => {
                return Err(e);
            },
        };
        let codec_long_name = match opt_str_field(fields, "codec_long_name") {
            Ok(o) => o,
            Err(e) => {
                return Err(e);
            },
        };
        let profile = match opt_str_field(fields, "profile") {
            Ok(o) => o,
            Err(e) => {
                return Err(e);
            },
        };
        let time_base = match opt_ratio_field(fields, "time_base") {
            Ok(o) => o,
            Err(e) => {
                return Err(e);
            },
        };
        let bit_rate = match opt_int_field(fields, "bit_rate") {
            Ok(o) => o,
            Err(e) => {
                return Err(e);
            },
        };
        let disposition = match opt_disposition_field(fields, "disposition") {
            Ok(o) => o,
            Err(e) => {
                return Err(e);
            },
        };
        let tags = match opt_tags_field(fields, "tags") {
            Ok(o) => o,
            Err(e) => {
                return Err(e);
            },
        };
        let side_data_list = match opt_side_data_field(fields, "side_data_list") {
            Ok(o) => o,
            Err(e) => {
                return Err(e);
            },
        };
        Ok(
            Stream {
                index,
                codec_name,
                codec_long_name,
                profile,
                time_base,
                bit_rate,
                disposition,
                tags,
                side_data_list,
                kind,
            },
        )
    }
}

pub open spec fn stream_dec() -> spec_fn(Json) -> Result<StreamView, ShapeErrorView> {
    |e: Json| spec_decode_stream(e)
}

pub open spec fn streams_view(v: Seq<Stream>) -> Seq<StreamView> {
    v.map_values(|s: Stream| s@)
}

/// All or nothing over stream records: an array of stream records decodes
/// exactly when every one of its records decodes; one malformed record fails
/// the whole array, and no shorter report is ever produced.
pub proof fn lemma_streams_all_or_nothing(elems: Seq<Json>)
    ensures
        decode_seq(elems, stream_dec()) is Ok <==> (forall|i: int|
            0 <= i < elems.len() ==> spec_decode_stream(#[trigger] elems[i]) is Ok),
{
    crate::json::lemma_decode_seq_all_ok(elems, stream_dec());
    assert(forall|i: int|
        0 <= i < elems.len() ==> stream_dec()(#[trigger] elems[i]) == spec_decode_stream(
            elems[i],
        ));
}

/// Decodes a whole array of stream records, all or nothing.
pub fn decode_streams(elems: &Vec<Json>) -> (r: Result<Vec<Stream>, ShapeError>)
    ensures
        match r {
            Ok(v) => decode_seq(elems@, stream_dec()) == Ok::<_, ShapeErrorView>(
                streams_view(v@),
            ),
            Err(e) => decode_seq(elems@, stream_dec()) == Err::<Seq<StreamView>, _>(e@),
        },
{
    let mut out: Vec<Stream> = Vec::new();
    let n = elems.len();
    proof {
        assert(elems@.take(0) =~= Seq::<Json>::empty());
        assert(streams_view(out@) =~= Seq::<StreamView>::empty());
    }
    for i in 0..n
        invariant
            n == elems@.len(),
            decode_seq(elems@.take(i as int), stream_dec()) == Ok::<_, ShapeErrorView>(
                streams_view(out@),
            ),
        decreases n - i,
    {
        proof {
            assert(elems@.take(i + 1).drop_last() =~= elems@.take(i as int));
            assert(elems@.take(i + 1).last() == elems@[i as int]);
            assert(stream_dec()(elems@[i as int]) == spec_decode_stream(elems@[i as int]));
        }
        match Stream::decode(&elems[i]) {
            Ok(st) => {
                let ghost before = out@;
                out.push(st);
                proof {
                    assert(streams_view(out@) =~= streams_view(before).push(st@));
                }
            },
            Err(e) => {
                proof {
                    lemma_decode_seq_err(elems@, stream_dec(), i + 1);
                }
                return Err(e);
            },
        }
    }
    proof {
        assert(elems@.take(n as int) =~= elems@);
    }
    Ok(out)
}

} // verus!
