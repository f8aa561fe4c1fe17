//! Chapter records: a span given both as integers in the chapter's time base
//! and as derived durations.

use vstd::prelude::*;

use crate::duration::Duration;
use crate::duration::opt_duration_field;
use crate::duration::opt_duration_view;
use crate::duration::spec_opt_duration_field;
use crate::error::ShapeError;
use crate::error::ShapeErrorView;
use crate::json::Json;
use crate::json::decode_seq;
use crate::json::lemma_decode_seq_err;
use crate::json::opt_int_field;
use crate::json::req_int_field;
use crate::json::opt_i64_view;
use crate::json::spec_opt_int_field;
use crate::json::spec_req_int_field;
use crate::ratio::Ratio;
use crate::ratio::opt_ratio_field;
use crate::ratio::opt_ratio_view;
use crate::ratio::spec_opt_ratio_field;
use crate::tags::Tags;
use crate::tags::opt_tags_field;
use crate::tags::opt_tags_view;
use crate::tags::spec_opt_tags_field;

verus! {

/// One chapter: its span as `start`/`end` integers in `time_base` units, the
/// same span as decoded durations, and free tags.
pub struct Chapter {
    pub id: Option<i64>,
    pub time_base: Option<Ratio>,
    pub start: i64,
    pub end: i64,
    pub start_time: Option<Duration>,
    pub end_time: Option<Duration>,
    pub tags: Option<Tags>,
}

pub struct ChapterView {
    pub id: Option<int>,
    pub time_base: Option<(int, int)>,
    pub start: int,
    pub end: int,
    pub start_time: Option<(int, int)>,
    pub end_time: Option<(int, int)>,
    pub tags: Option<Seq<(Seq<char>, Seq<char>)>>,
}

impl View for Chapter {
    type V = ChapterView;

    open spec fn view(&self) -> ChapterView {
        ChapterView {
            id: opt_i64_view(self.id),
            time_base: opt_ratio_view(self.time_base),
            start: self.start as int,
            end: self.end as int,
            start_time: opt_duration_view(self.start_time),
            end_time: opt_duration_view(self.end_time),
            tags: opt_tags_view(self.tags),
        }
    }
}

pub open spec fn spec_decode_chapter(j: Json) -> Result<ChapterView, ShapeErrorView> {
    match j {
        Json::Obj(fields) => match spec_opt_int_field(fields@, "id"@) {
            Err(e) => Err(e),
            Ok(id) => match spec_opt_ratio_field(fields@, "time_base"@) {
                Err(e) => Err(e),
                Ok(time_base) => match spec_req_int_field(fields@, "start"@) {
                    Err(e) => Err(e),
                    Ok(start) => match spec_req_int_field(fields@, "end"@) {
                        Err(e) => Err(e),
                        Ok(end) => match spec_opt_duration_field(fields@, "start_time"@) {
                            Err(e) => Err(e),
                            Ok(start_time) => match spec_opt_duration_field(
                                fields@,
                                "end_time"@,
                            ) {
                                Err(e) => Err(e),
                                Ok(end_time) => match spec_opt_tags_field(fields@, "tags"@) {
                                    Err(e) => Err(e),
                                    Ok(tags) => Ok(
                                        ChapterView {
                                            id,
                                            time_base,
                                            start,
                                            end,
                                            start_time,
                                            end_time,
                                            tags,
                                        },
                                    ),
                                },
                            },
                        },
                    },
                },
            },
        },
        _ => Err(ShapeErrorView::WrongType("chapter"@)),
    }
}

impl Chapter {
    /// Decodes one chapter record.
    pub fn decode(j: &Json) -> (r: Result<Chapter, ShapeError>)
        ensures
            match r {
                Ok(c) => spec_decode_chapter(*j) == Ok::<_, ShapeErrorView>(c@),
                Err(e) => spec_decode_chapter(*j) == Err::<ChapterView, _>(e@),
            },
    {
        let fields = match j {
            Json::Obj(fields) => fields,
            _ => {
                return Err(ShapeError::WrongType("chapter".to_owned()));
            },
        };
        let id = match opt_int_field(fields, "id") {
            Ok(o) => o,
            Err(e) => {
                return Err(e);
            },
        };
        let time_base = match opt_ratio_field(fields, "time_base") {
            Ok(o) => o,
            Err(e) => {
                return Err(e);
            },
        };
        let start = match req_int_field(fields, "start") {
            Ok(v) => v,
            Err(e) => {
                return Err(e);
            },
        };
        let end = match req_int_field(fields, "end") {
            Ok(v) => v,
            Err(e) => {
                return Err(e);
            },
        };
        let start_time = match opt_duration_field(fields, "start_time") {
            Ok(o) => o,
            Err(e) => {
                return Err(e);
            },
        };
        let end_time = match opt_duration_field(fields, "end_time") {
            Ok(o) => o,
            Err(e) => {
                return Err(e);
            },
        };
        let tags = match opt_tags_field(fields, "tags") {
            Ok(o) => o,
            Err(e) => {
                return Err(e);
            },
        };
        Ok(Chapter { id, time_base, start, end, start_time, end_time, tags })
    }
}

pub open spec fn chapter_dec() -> spec_fn(Json) -> Result<ChapterView, ShapeErrorView> {
    |e: Json| spec_decode_chapter(e)
}

pub open spec fn chapters_view(v: Seq<Chapter>) -> Seq<ChapterView> {
    v.map_values(|c: Chapter| c@)
}

/// Decodes a whole array of chapter records, all or nothing.
pub fn decode_chapters(elems: &Vec<Json>) -> (r: Result<Vec<Chapter>, ShapeError>)
    ensures
        match r {
            Ok(v) => decode_seq(elems@, chapter_dec()) == Ok::<_, ShapeErrorView>(
                chapters_view(v@),
            ),
            Err(e) => decode_seq(elems@, chapter_dec()) == Err::<Seq<ChapterView>, _>(e@),
        },
{
    let mut out: Vec<Chapter> = Vec::new();
    let n = elems.len();
    proof {
        assert(elems@.take(0) =~= Seq::<Json>::empty());
        assert(chapters_view(out@) =~= Seq::<ChapterView>::empty());
    }
    for i in 0..n
        invariant
            n == elems@.len(),
            decode_seq(elems@.take(i as int), chapter_dec()) == Ok::<_, ShapeErrorView>(
                chapters_view(out@),
            ),
        decreases n - i,
    {
        proof {
            assert(elems@.take(i + 1).drop_last() =~= elems@.take(i as int));
            assert(elems@.take(i + 1).last() == elems@[i as int]);
            assert(chapter_dec()(elems@[i as int]) == spec_decode_chapter(elems@[i as int]));
        }
        match Chapter::decode(&elems[i]) {
            Ok(c) => {
                let ghost before = out@;
                out.push(c);
                proof {
                    assert(chapters_view(out@) =~= chapters_view(before).push(c@));
                }
            },
            Err(e) => {
                proof {
                    lemma_decode_seq_err(elems@, chapter_dec(), i + 1);
                }
                return Err(e);
            },
        }
    }
    proof {
        assert(elems@.take(n as int) =~= elems@);
    }
    Ok(out)
}

} // verus!
