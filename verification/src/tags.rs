//! Free-form tag mappings: arbitrary string keys to string values. Unknown
//! keys are preserved transparently, so reports from newer tool versions keep
//! all their tags.

use vstd::prelude::*;

use crate::error::ShapeError;
use crate::error::ShapeErrorView;
use crate::json::Json;
use crate::json::spec_lookup;
use crate::json::lookup;

verus! {

/// A tag mapping, held in source order; order carries no meaning.
pub struct Tags {
    pub entries: Vec<(String, String)>,
}

pub open spec fn tag_entries_view(v: Seq<(String, String)>) -> Seq<(Seq<char>, Seq<char>)> {
    v.map_values(|p: (String, String)| (p.0@, p.1@))
}

impl View for Tags {
    type V = Seq<(Seq<char>, Seq<char>)>;

    open spec fn view(&self) -> Seq<(Seq<char>, Seq<char>)> {
        tag_entries_view(self.entries@)
    }
}

/// Every tag value must be text; the first offending key is the failure.
pub open spec fn spec_tag_entries(fields: Seq<(String, Json)>) -> Result<
    Seq<(Seq<char>, Seq<char>)>,
    ShapeErrorView,
>
    decreases fields.len(),
{
    if fields.len() == 0 {
        Ok(Seq::empty())
    } else {
        match spec_tag_entries(fields.drop_last()) {
            Err(e) => Err(e),
            Ok(r) => match fields.last().1 {
                Json::Str(v) => Ok(r.push((fields.last().0@, v@))),
                _ => Err(ShapeErrorView::WrongType(fields.last().0@)),
            },
        }
    }
}

pub open spec fn spec_decode_tags(j: Json) -> Result<Seq<(Seq<char>, Seq<char>)>, ShapeErrorView> {
    match j {
        Json::Obj(fields) => spec_tag_entries(fields@),
        _ => Err(ShapeErrorView::WrongType("tags"@)),
    }
}

proof fn lemma_tag_entries_err(fields: Seq<(String, Json)>, i: int)
    requires
        0 <= i <= fields.len(),
        spec_tag_entries(fields.take(i)) is Err,
    ensures
        spec_tag_entries(fields) == spec_tag_entries(fields.take(i)),
    decreases fields.len() - i,
{
    if i < fields.len() {
        assert(fields.take(i + 1).drop_last() =~= fields.take(i));
        lemma_tag_entries_err(fields, i + 1);
    } else {
        assert(fields.take(i) =~= fields);
    }
}

impl Tags {
    /// Decodes a tag object; every value must be text.
    pub fn decode(j: &Json) -> (r: Result<Tags, ShapeError>)
        ensures
            match r {
                Ok(t) => spec_decode_tags(*j) == Ok::<_, ShapeErrorView>(t@),
                Err(e) => spec_decode_tags(*j) == Err::<Seq<(Seq<char>, Seq<char>)>, _>(e@),
            },
    {
        match j {
            Json::Obj(fields) => {
                let mut entries: Vec<(String, String)> = Vec::new();
                let n = fields.len();
                proof {
                    assert(fields@.take(0) =~= Seq::<(String, Json)>::empty());
                    assert(tag_entries_view(entries@) =~= Seq::<(Seq<char>, Seq<char>)>::empty());
                }
                for i in 0..n
                    invariant
                        n == fields@.len(),
                        *j == Json::Obj(*fields),
                        spec_tag_entries(fields@.take(i as int)) == Ok::<_, ShapeErrorView>(
                            tag_entries_view(entries@),
                        ),
                    decreases n - i,
                {
                    proof {
                        assert(fields@.take(i + 1).drop_last() =~= fields@.take(i as int));
                        assert(fields@.take(i + 1).last() == fields@[i as int]);
                    }
                    match &fields[i].1 {
                        Json::Str(v) => {
                            let k = fields[i].0.clone();
                            let ghost before = entries@;
                            entries.push((k, v.clone()));
                            proof {
                                assert(tag_entries_view(entries@) =~= tag_entries_view(
                                    before,
                                ).push((fields@[i as int].0@, v@)));
                            }
                        },
                        _ => {
                            let key = fields[i].0.clone();
                            proof {
                                assert(!(fields@[i as int].1 is Str));
                                assert(spec_tag_entries(fields@.take(i + 1)) == Err::<
                                    Seq<(Seq<char>, Seq<char>)>,
                                    _,
                                >(ShapeErrorView::WrongType(fields@[i as int].0@)));
                                lemma_tag_entries_err(fields@, i + 1);
                            }
                            return Err(ShapeError::WrongType(key));
                        },
                    }
                }
                proof {
                    assert(fields@.take(n as int) =~= fields@);
                }
                Ok(Tags { entries })
            },
            _ => Err(ShapeError::WrongType("tags".to_owned())),
        }
    }
}

/// An optional tag-mapping field: absent or null is `None`.
pub open spec fn spec_opt_tags_field(fields: Seq<(String, Json)>, key: Seq<char>) -> Result<
    Option<Seq<(Seq<char>, Seq<char>)>>,
    ShapeErrorView,
> {
    match spec_lookup(fields, key) {
        None => Ok(None),
        Some(j) => match j {
            Json::Null => Ok(None),
            _ => match spec_decode_tags(j) {
                Ok(t) => Ok(Some(t)),
                Err(e) => Err(e),
            },
        },
    }
}

pub open spec fn opt_tags_view(o: Option<Tags>) -> Option<Seq<(Seq<char>, Seq<char>)>> {
    match o {
        Some(t) => Some(t@),
        None => None,
    }
}

pub fn opt_tags_field(fields: &Vec<(String, Json)>, key: &str) -> (r: Result<
    Option<Tags>,
    ShapeError,
>)
    ensures
        match r {
            Ok(o) => spec_opt_tags_field(fields@, key@) == Ok::<_, ShapeErrorView>(
                opt_tags_view(o),
            ),
            Err(e) => spec_opt_tags_field(fields@, key@) == Err::<
                Option<Seq<(Seq<char>, Seq<char>)>>,
                _,
            >(e@),
        },
{
    match lookup(fields, key) {
        None => Ok(None),
        Some(j) => match j {
            Json::Null => Ok(None),
            _ => match Tags::decode(j) {
                Ok(t) => Ok(Some(t)),
                Err(e) => Err(e),
            },
        },
    }
}

} // verus!
