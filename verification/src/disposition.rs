//! A stream's role, as a fixed set of named boolean flags. Each flag is an
//! integer zero-or-one field in the source record; an absent flag is `false`,
//! never unknown.

use vstd::prelude::*;

use crate::error::ShapeError;
use crate::error::ShapeErrorView;
use crate::json::Json;
use crate::json::spec_opt_int_field;
use crate::json::opt_int_field;
use crate::json::spec_lookup;
use crate::json::lookup;

verus! {

#[derive(Clone, Copy, Debug, PartialEq, Eq, Structural)]
pub struct Disposition {
    pub default: bool,
    pub dub: bool,
    pub original: bool,
    pub comment: bool,
    pub forced: bool,
    pub hearing_impaired: bool,
    pub visual_impaired: bool,
    pub attached_pic: bool,
}

/// One flag: absent is `false`; a present value must be numeric, and any
/// non-zero value sets the flag.
pub open spec fn spec_flag(fields: Seq<(String, Json)>, key: Seq<char>) -> Result<
    bool,
    ShapeErrorView,
> {
    match spec_opt_int_field(fields, key) {
        Ok(None) => Ok(false),
        Ok(Some(v)) => Ok(v != 0),
        Err(e) => Err(e),
    }
}

pub open spec fn spec_disposition_fields(fields: Seq<(String, Json)>) -> Result<
    Disposition,
    ShapeErrorView,
> {
    match spec_flag(fields, "default"@) {
        Err(e) => Err(e),
        Ok(default) => match spec_flag(fields, "dub"@) {
            Err(e) => Err(e),
            Ok(dub) => match spec_flag(fields, "original"@) {
                Err(e) => Err(e),
                Ok(original) => match spec_flag(fields, "comment"@) {
                    Err(e) => Err(e),
                    Ok(comment) => match spec_flag(fields, "forced"@) {
                        Err(e) => Err(e),
                        Ok(forced) => match spec_flag(fields, "hearing_impaired"@) {
                            Err(e) => Err(e),
                            Ok(hearing_impaired) => match spec_flag(fields, "visual_impaired"@) {
                                Err(e) => Err(e),
                                Ok(visual_impaired) => match spec_flag(fields, "attached_pic"@) {
                                    Err(e) => Err(e),
                                    Ok(attached_pic) => Ok(
                                        Disposition {
                                            default,
                                            dub,
                                            original,
                                            comment,
                                            forced,
                                            hearing_impaired,
                                            visual_impaired,
                                            attached_pic,
                                        },
                                    ),
                                },
                            },
                        },
                    },
                },
            },
        },
    }
}

pub open spec fn spec_decode_disposition(j: Json) -> Result<Disposition, ShapeErrorView> {
    match j {
        Json::Obj(fields) => spec_disposition_fields(fields@),
        _ => Err(ShapeErrorView::WrongType("disposition"@)),
    }
}

fn flag(fields: &Vec<(String, Json)>, key: &str) -> (r: Result<bool, ShapeError>)
    ensures
        match r {
            Ok(b) => spec_flag(fields@, key@) == Ok::<_, ShapeErrorView>(b),
            Err(e) => spec_flag(fields@, key@) == Err::<bool, _>(e@),
        },
{
    match opt_int_field(fields, key) {
        Ok(None) => Ok(false),
        Ok(Some(v)) => Ok(v != 0),
        Err(e) => Err(e),
    }
}

impl Disposition {
    /// Decodes a disposition object; unknown keys are ignored.
    pub fn decode(j: &Json) -> (r: Result<Disposition, ShapeError>)
        ensures
            match r {
                Ok(d) => spec_decode_disposition(*j) == Ok::<_, ShapeErrorView>(d),
                Err(e) => spec_decode_disposition(*j) == Err::<Disposition, _>(e@),
            },
    {
        match j {
            Json::Obj(fields) => {
                let default = match flag(fields, "default") {
                    Ok(b) => b,
                    Err(e) => {
                        return Err(e);
                    },
                };
                let dub = match flag(fields, "dub") {
                    Ok(b) => b,
                    Err(e) => {
                        return Err(e);
                    },
                };
                let original = match flag(fields, "original") {
                    Ok(b) => b,
                    Err(e) => {
                        return Err(e);
                    },
                };
                let comment = match flag(fields, "comment") {
                    Ok(b) => b,
                    Err(e) => {
                        return Err(e);
                    },
                };
                let forced = match flag(fields, "forced") {
                    Ok(b) => b,
                    Err(e) => {
                        return Err(e);
                    },
                };
                let hearing_impaired = match flag(fields, "hearing_impaired") {
                    Ok(b) => b,
                    Err(e) => {
                        return Err(e);
                    },
                };
                let visual_impaired = match flag(fields, "visual_impaired") {
                    Ok(b) => b,
                    Err(e) => {
                        return Err(e);
                    },
                };
                let attached_pic = match flag(fields, "attached_pic") {
                    Ok(b) => b,
                    Err(e) => {
                        return Err(e);
                    },
                };
                Ok(
                    Disposition {
                        default,
                        dub,
                        original,
                        comment,
                        forced,
                        hearing_impaired,
                        visual_impaired,
                        attached_pic,
                    },
                )
            },
            _ => Err(ShapeError::WrongType("disposition".to_owned())),
        }
    }
}

/// An optional disposition field: absent or null is `None`.
pub open spec fn spec_opt_disposition_field(fields: Seq<(String, Json)>, key: Seq<char>) -> Result<
    Option<Disposition>,
    ShapeErrorView,
> {
    match spec_lookup(fields, key) {
        None => Ok(None),
        Some(j) => match j {
            Json::Null => Ok(None),
            _ => match spec_decode_disposition(j) {
                Ok(d) => Ok(Some(d)),
                Err(e) => Err(e),
            },
        },
    }
}

pub fn opt_disposition_field(fields: &Vec<(String, Json)>, key: &str) -> (r: Result<
    Option<Disposition>,
    ShapeError,
>)
    ensures
        match r {
            Ok(o) => spec_opt_disposition_field(fields@, key@) == Ok::<_, ShapeErrorView>(o),
            Err(e) => spec_opt_disposition_field(fields@, key@) == Err::<Option<Disposition>, _>(
                e@,
            ),
        },
{
    match lookup(fields, key) {
        None => Ok(None),
        Some(j) => match j {
            Json::Null => Ok(None),
            _ => match Disposition::decode(j) {
                Ok(d) => Ok(Some(d)),
                Err(e) => Err(e),
            },
        },
    }
}

} // verus!
