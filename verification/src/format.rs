//! Container-level facts about the probed file.

use vstd::prelude::*;
use vstd::string::StrSliceExecFns;

use crate::duration::Duration;
use crate::numbers::find_char;
use crate::numbers::scan_char;
use crate::duration::opt_duration_field;
use crate::duration::opt_duration_view;
use crate::duration::spec_opt_duration_field;
use crate::error::ShapeError;
use crate::error::ShapeErrorView;
use crate::json::Json;
use crate::json::opt_int_field;
use crate::json::opt_str_field;
use crate::json::opt_i64_view;
use crate::json::opt_string_view;
use crate::json::spec_opt_int_field;
use crate::json::spec_opt_str_field;
use crate::tags::Tags;
use crate::tags::opt_tags_field;
use crate::tags::opt_tags_view;
use crate::tags::spec_opt_tags_field;

verus! {

/// Container metadata: names of the matching formats (comma-joined, as in the
/// source), overall duration and start time, file size and bit rate, and free
/// tags.
pub struct Format {
    pub format_name: Option<String>,
    pub format_long_name: Option<String>,
    pub duration: Option<Duration>,
    pub size: Option<i64>,
    pub bit_rate: Option<i64>,
    pub start_time: Option<Duration>,
    pub tags: Option<Tags>,
}

pub struct FormatView {
    pub format_name: Option<Seq<char>>,
    pub format_long_name: Option<Seq<char>>,
    pub duration: Option<(int, int)>,
    pub size: Option<int>,
    pub bit_rate: Option<int>,
    pub start_time: Option<(int, int)>,
    pub tags: Option<Seq<(Seq<char>, Seq<char>)>>,
}

impl View for Format {
    type V = FormatView;

    open spec fn view(&self) -> FormatView {
        FormatView {
            format_name: opt_string_view(self.format_name),
            format_long_name: opt_string_view(self.format_long_name),
            duration: opt_duration_view(self.duration),
            size: opt_i64_view(self.size),
            bit_rate: opt_i64_view(self.bit_rate),
            start_time: opt_duration_view(self.start_time),
            tags: opt_tags_view(self.tags),
        }
    }
}

/// The pieces of comma-joined text: each comma ends one piece, and the last
/// piece runs to the end. Joined text with no comma is one piece.
pub open spec fn spec_split_commas(s: Seq<char>) -> Seq<Seq<char>>
    decreases s.len(),
{
    let i = find_char(s, ',');
    if 0 <= i < s.len() {
        seq![s.subrange(0, i)] + spec_split_commas(s.subrange(i + 1, s.len() as int))
    } else {
        seq![s]
    }
}

pub open spec fn names_view(v: Seq<String>) -> Seq<Seq<char>> {
    v.map_values(|x: String| x@)
}

pub open spec fn spec_decode_format(j: Json) -> Result<FormatView, ShapeErrorView> {
    match j {
        Json::Obj(fields) => match spec_opt_str_field(fields@, "format_name"@) {
            Err(e) => Err(e),
            Ok(format_name) => match spec_opt_str_field(fields@, "format_long_name"@) {
                Err(e) => Err(e),
                Ok(format_long_name) => match spec_opt_duration_field(fields@, "duration"@) {
                    Err(e) => Err(e),
                    Ok(duration) => match spec_opt_int_field(fields@, "size"@) {
                        Err(e) => Err(e),
                        Ok(size) => match spec_opt_int_field(fields@, "bit_rate"@) {
                            Err(e) => Err(e),
                            Ok(bit_rate) => match spec_opt_duration_field(
                                fields@,
                                "start_time"@,
                            ) {
                                Err(e) => Err(e),
                                Ok(start_time) => match spec_opt_tags_field(fields@, "tags"@) {
                                    Err(e) => Err(e),
                                    Ok(tags) => Ok(
                                        FormatView {
                                            format_name,
                                            format_long_name,
                                            duration,
                                            size,
                                            bit_rate,
                                            start_time,
                                            tags,
                                        },
                                    ),
                                },
                            },
                        },
                    },
                },
            },
        },
        _ => Err(ShapeErrorView::WrongType("format"@)),
    }
}

impl Format {
    /// Decodes the container object.
    pub fn decode(j: &Json) -> (r: Result<Format, ShapeError>)
        ensures
            match r {
                Ok(f) => spec_decode_format(*j) == Ok::<_, ShapeErrorView>(f@),
                Err(e) => spec_decode_format(*j) == Err::<FormatView, _>(e@),
            },
    {
        let fields = match j {
            Json::Obj(fields) => fields,
            _ => {
                return Err(ShapeError::WrongType("format".to_owned()));
            },
        };
        let format_name = match opt_str_field(fields, "format_name") {
            Ok(o) => o,
            Err(e) => {
                return Err(e);
            },
        };
        let format_long_name = match opt_str_field(fields, "format_long_name") {
            Ok(o) => o,
            Err(e) => {
                return Err(e);
            },
        };
        let duration = match opt_duration_field(fields, "duration") {
            Ok(o) => o,
            Err(e) => {
                return Err(e);
            },
        };
        let size = match opt_int_field(fields, "size") {
            Ok(o) => o,
            Err(e) => {
                return Err(e);
            },
        };
        let bit_rate = match opt_int_field(fields, "bit_rate") {
            Ok(o) => o,
            Err(e) => {
                return Err(e);
            },
        };
        let start_time = match opt_duration_field(fields, "start_time") {
            Ok(o) => o,
            Err(e) => {
                return Err(e);
            },
        };
        let tags = match opt_tags_field(fields, "tags") {
            Ok(o) => o,
            Err(e) => {
                return Err(e);
            },
        };
        Ok(
            Format {
                format_name,
                format_long_name,
                duration,
                size,
                bit_rate,
                start_time,
                tags,
            },
        )
    }

    /// The names in `format_name`, split apart on commas; `None` where the
    /// source had no `format_name`.
    pub fn format_names(&self) -> (r: Option<Vec<String>>)
        ensures
            match r {
                None => self.format_name is None,
                Some(v) => self.format_name matches Some(fname) && names_view(v@)
                    == spec_split_commas(fname@),
            },
    {
        let fname: &String = match &self.format_name {
            None => {
                return None;
            },
            Some(fname) => fname,
        };
        let s: &str = fname.as_str();
        let n = s.unicode_len();
        let mut out: Vec<String> = Vec::new();
        let mut start: usize = 0;
        proof {
            assert(s@.subrange(0, n as int) =~= s@);
            assert(names_view(out@) =~= Seq::<Seq<char>>::empty());
            assert(Seq::<Seq<char>>::empty() + spec_split_commas(s@) =~= spec_split_commas(s@));
        }
        loop
            invariant
                start <= n == s@.len(),
                self.format_name matches Some(f) && f@ == s@,
                spec_split_commas(s@) == names_view(out@) + spec_split_commas(
                    s@.subrange(start as int, n as int),
                ),
            decreases n - start,
        {
            let ghost range = s@.subrange(start as int, n as int);
            let (_, first) = scan_char(s, start, n, ',');
            match first {
                Some(k) => {
                    let piece: String = s.substring_char(start, k).to_owned();
                    let ghost before = out@;
                    out.push(piece);
                    proof {
                        assert(range.subrange(0, k - start) =~= s@.subrange(
                            start as int,
                            k as int,
                        ));
                        assert(range.subrange(k - start + 1, range.len() as int) =~= s@.subrange(
                            k + 1 as int,
                            n as int,
                        ));
                        assert(names_view(out@) =~= names_view(before).push(
                            s@.subrange(start as int, k as int),
                        ));
                        assert(names_view(before).push(s@.subrange(start as int, k as int))
                            =~= names_view(before) + seq![s@.subrange(start as int, k as int)]);
                        assert((names_view(before) + seq![s@.subrange(start as int, k as int)])
                            + spec_split_commas(s@.subrange(k + 1 as int, n as int))
                            =~= names_view(before) + (seq![s@.subrange(start as int, k as int)]
                            + spec_split_commas(s@.subrange(k + 1 as int, n as int))));
                    }
                    start = k + 1;
                },
                None => {
                    let piece: String = s.substring_char(start, n).to_owned();
                    let ghost before = out@;
                    out.push(piece);
                    proof {
                        assert(spec_split_commas(range) == seq![range]);
                        assert(names_view(out@) =~= names_view(before).push(range));
                        assert(names_view(before).push(range) =~= names_view(before) + seq![
                            range,
                        ]);
                        assert(names_view(before) + seq![range] =~= names_view(before) + seq![
                            range,
                        ] + Seq::<Seq<char>>::empty());
                        assert(names_view(out@) =~= names_view(before) + spec_split_commas(
                            range,
                        ));
                    }
                    return Some(out);
                },
            }
        }
    }
}

} // verus!
