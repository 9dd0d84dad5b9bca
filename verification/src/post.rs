use vstd::prelude::*;

use crate::errors::ErrorKind;

verus! {

/// One parsed feed entry. Immutable once constructed; `id` is the dedup key,
/// `updated_at` the freshness marker, `score` the filter input, `parent_id`
/// and `has_children` drive grouping, `sample_url` is the medium to publish
/// and `source` feeds the caption. The remaining fields are descriptive.
pub struct Post {
    pub id: i32,
    pub tags: String,
    pub created_at: i64,
    pub updated_at: i64,
    pub source: String,
    pub score: i32,
    pub md5: String,
    pub file_size: i32,
    pub file_ext: String,
    pub file_url: String,
    pub sample_url: String,
    pub sample_file_size: i32,
    pub rating: String,
    pub has_children: bool,
    pub parent_id: Option<i32>,
    pub is_held: bool,
}

/// One feed entry as the scraper hands it over, before validation: every
/// field that the feed must supply is still optional, and integers are as
/// wide as the wire format allows.
pub struct RawPost {
    pub id: Option<i64>,
    pub tags: Option<String>,
    pub created_at: Option<i64>,
    pub updated_at: Option<i64>,
    pub source: Option<String>,
    pub score: Option<i64>,
    pub md5: Option<String>,
    pub file_size: Option<i64>,
    pub file_ext: Option<String>,
    pub file_url: Option<String>,
    pub sample_url: Option<String>,
    pub sample_file_size: Option<i64>,
    pub rating: Option<String>,
    pub has_children: Option<bool>,
    pub parent_id: Option<i64>,
    pub is_held: Option<bool>,
}

/// Does `v` hold a value that fits in an `i32`?
pub open spec fn fits_i32(v: Option<i64>) -> bool {
    match v {
        Some(x) => i32::MIN <= x <= i32::MAX,
        None => false,
    }
}

impl RawPost {
    /// Every required field is present and every integer fits its final width.
    /// `parent_id` alone may be absent: a post without a parent.
    pub open spec fn well_formed(self) -> bool {
        &&& fits_i32(self.id)
        &&& self.tags is Some
        &&& self.created_at is Some
        &&& self.updated_at is Some
        &&& self.source is Some
        &&& fits_i32(self.score)
        &&& self.md5 is Some
        &&& fits_i32(self.file_size)
        &&& self.file_ext is Some
        &&& self.file_url is Some
        &&& self.sample_url is Some
        &&& fits_i32(self.sample_file_size)
        &&& self.rating is Some
        &&& self.has_children is Some
        &&& (self.parent_id is Some ==> fits_i32(self.parent_id))
        &&& self.is_held is Some
    }
}

impl Post {
    /// Construct a record directly from already-validated fields.
    #[allow(clippy::too_many_arguments)]
    pub fn new(
        id: i32,
        tags: String,
        created_at: i64,
        updated_at: i64,
        source: String,
        score: i32,
        md5: String,
        file_size: i32,
        file_ext: String,
        file_url: String,
        sample_url: String,
        sample_file_size: i32,
        rating: String,
        has_children: bool,
        parent_id: Option<i32>,
        is_held: bool,
    ) -> (p: Post)
        ensures
            p == (Post {
                id,
                tags,
                created_at,
                updated_at,
                source,
                score,
                md5,
                file_size,
                file_ext,
                file_url,
                sample_url,
                sample_file_size,
                rating,
                has_children,
                parent_id,
                is_held,
            }),
    {
        Post {
            id,
            tags,
            created_at,
            updated_at,
            source,
            score,
            md5,
            file_size,
            file_ext,
            file_url,
            sample_url,
            sample_file_size,
            rating,
            has_children,
            parent_id,
            is_held,
        }
    }

    /// Validate one raw feed entry. Succeeds exactly on well-formed input;
    /// anything else is a malformed record, which aborts that entry alone.
    pub fn from_raw(raw: RawPost) -> (r: Result<Post, ErrorKind>)
        ensures
            raw.well_formed() <==> r is Ok,
            !raw.well_formed() ==> r == Err::<Post, ErrorKind>(ErrorKind::MalformedRecord),
            raw.well_formed() ==> {
                let p = r->Ok_0;
                &&& p.id == raw.id->0
                &&& p.tags == raw.tags->0
                &&& p.created_at == raw.created_at->0
                &&& p.updated_at == raw.updated_at->0
                &&& p.source == raw.source->0
                &&& p.score == raw.score->0
                &&& p.md5 == raw.md5->0
                &&& p.file_size == raw.file_size->0
                &&& p.file_ext == raw.file_ext->0
                &&& p.file_url == raw.file_url->0
                &&& p.sample_url == raw.sample_url->0
                &&& p.sample_file_size == raw.sample_file_size->0
                &&& p.rating == raw.rating->0
                &&& p.has_children == raw.has_children->0
                &&& (match raw.parent_id {
                    Some(v) => p.parent_id == Some(v as i32),
                    None => p.parent_id is None,
                })
                &&& p.is_held == raw.is_held->0
            },
    {
        let parent_id: Option<i32> = match raw.parent_id {
            Some(v) => {
                if i32::MIN as i64 <= v && v <= i32::MAX as i64 {
                    Some(v as i32)
                } else {
                    return Err(ErrorKind::MalformedRecord);
                }
            },
            None => None,
        };
        match (raw.id, raw.tags, raw.created_at, raw.updated_at, raw.source, raw.score, raw.md5,
        raw.file_size, raw.file_ext, raw.file_url, raw.sample_url, raw.sample_file_size,
        raw.rating, raw.has_children, raw.is_held) {
            (
                Some(id),
                Some(tags),
                Some(created_at),
                Some(updated_at),
                Some(source),
                Some(score),
                Some(md5),
                Some(file_size),
                Some(file_ext),
                Some(file_url),
                Some(sample_url),
                Some(sample_file_size),
                Some(rating),
                Some(has_children),
                Some(is_held),
            ) => {
                if i32::MIN as i64 <= id && id <= i32::MAX as i64 && i32::MIN as i64 <= score
                    && score <= i32::MAX as i64 && i32::MIN as i64 <= file_size && file_size
                    <= i32::MAX as i64 && i32::MIN as i64 <= sample_file_size && sample_file_size
                    <= i32::MAX as i64 {
                    Ok(
                        Post {
                            id: id as i32,
                            tags,
                            created_at,
                            updated_at,
                            source,
                            score: score as i32,
                            md5,
                            file_size: file_size as i32,
                            file_ext,
                            file_url,
                            sample_url,
                            sample_file_size: sample_file_size as i32,
                            rating,
                            has_children,
                            parent_id,
                            is_held,
                        },
                    )
                } else {
                    Err(ErrorKind::MalformedRecord)
                }
            },
            _ => Err(ErrorKind::MalformedRecord),
        }
    }

    /// The dedup key.
    pub fn get_id(&self) -> (r: i32)
        ensures
            r == self.id,
    {
        self.id
    }

    /// The parent's id, or an error for a post that has none.
    pub fn get_parent(&self) -> (r: Result<i32, ()>)
        ensures
            match self.parent_id {
                Some(p) => r == Ok::<i32, ()>(p),
                None => r == Err::<i32, ()>(()),
            },
    {
        match self.parent_id {
            Some(parent_id) => Ok(parent_id),
            None => Err(()),
        }
    }

    /// True exactly when the post falls below the score threshold and is to
    /// be skipped before any cache or transport work.
    pub fn score_filter(&self, score_threshold: i32) -> (r: bool)
        ensures
            r == (self.score < score_threshold),
    {
        self.score < score_threshold
    }

    /// The freshness marker the dedup cache stores.
    pub fn get_updated_at(&self) -> (r: i64)
        ensures
            r == self.updated_at,
    {
        self.updated_at
    }

    /// The medium to publish.
    pub fn get_sample_url(&self) -> (r: &str)
        ensures
            r@ == self.sample_url@,
    {
        self.sample_url.as_str()
    }
}

impl Clone for Post {
    /// A clone is field-for-field the same record.
    fn clone(&self) -> (r: Self)
        ensures
            r == *self,
    {
        Post {
            id: self.id,
            tags: self.tags.clone(),
            created_at: self.created_at,
            updated_at: self.updated_at,
            source: self.source.clone(),
            score: self.score,
            md5: self.md5.clone(),
            file_size: self.file_size,
            file_ext: self.file_ext.clone(),
            file_url: self.file_url.clone(),
            sample_url: self.sample_url.clone(),
            sample_file_size: self.sample_file_size,
            rating: self.rating.clone(),
            has_children: self.has_children,
            parent_id: self.parent_id,
            is_held: self.is_held,
        }
    }
}

} // verus!
