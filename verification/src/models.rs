//! Domain records for the two entities the engine serves, and the edit
//! records applied to them. Timestamps are carried as epoch seconds: the
//! engine only compares and orders them, it never formats them.

use vstd::prelude::*;

verus! {

/// Watch progress recorded on a review.
#[derive(Clone, Copy, Debug, PartialEq, Eq, Structural, Hash)]
pub enum WatchStatus {
    Completed,
    Dropped,
    Watching,
    PlanToWatch,
}

/// Whether a review is about a film or a show.
#[derive(Clone, Copy, Debug, PartialEq, Eq, Structural, Hash)]
pub enum MediaCategory {
    Film,
    Show,
}

impl MediaCategory {
    /// Parse the category segment of a request path.
    pub fn try_from(value: String) -> (r: Result<MediaCategory, &'static str>)
        ensures
            value@ == "Film"@ ==> r == Ok::<MediaCategory, &'static str>(MediaCategory::Film),
            value@ == "Show"@ ==> r == Ok::<MediaCategory, &'static str>(MediaCategory::Show),
            value@ != "Film"@ && value@ != "Show"@ ==> r is Err,
            r is Err ==> r->Err_0@ == "Unrecognized MediaCategory"@,
    {
        proof {
            reveal_strlit("Film");
            reveal_strlit("Show");
            // the two names differ in their first character
            assert("Film"@[0] == 'F' && "Show"@[0] == 'S');
            assert("Film"@ != "Show"@);
        }
        let film: String = "Film".to_owned();
        let show: String = "Show".to_owned();
        if value == film {
            Ok(MediaCategory::Film)
        } else if value == show {
            Ok(MediaCategory::Show)
        } else {
            Err("Unrecognized MediaCategory")
        }
    }
}

/// A stored review row. The composite key is `(user_id, tmdb_id, category,
/// season)`, where a review of a whole film or show carries no season.
#[derive(Debug, PartialEq)]
pub struct Review {
    pub user_id: i32,
    pub tmdb_id: i32,
    pub category: MediaCategory,
    pub status: WatchStatus,
    pub text: String,
    pub fun_before: bool,
    pub fun_during: bool,
    pub fun_after: bool,
    pub created_at: i64,
    pub updated_at: i64,
    pub season: i32,
}

impl Clone for Review {
    fn clone(&self) -> (res: Self)
        ensures
            res == *self,
    {
        Review {
            user_id: self.user_id,
            tmdb_id: self.tmdb_id,
            category: self.category,
            status: self.status,
            text: self.text.clone(),
            fun_before: self.fun_before,
            fun_during: self.fun_during,
            fun_after: self.fun_after,
            created_at: self.created_at,
            updated_at: self.updated_at,
            season: self.season,
        }
    }
}

/// A stored user row as listings return it.
#[derive(Debug, PartialEq)]
pub struct User {
    pub id: i32,
    pub name: String,
    pub email: String,
    pub hash: String,
    pub created_at: i64,
    pub updated_at: i64,
}

impl Clone for User {
    fn clone(&self) -> (res: Self)
        ensures
            res == *self,
    {
        User {
            id: self.id,
            name: self.name.clone(),
            email: self.email.clone(),
            hash: self.hash.clone(),
            created_at: self.created_at,
            updated_at: self.updated_at,
        }
    }
}

/// A stored user row as the authentication paths read it.
#[derive(Debug, PartialEq)]
pub struct AuthenticatedUser {
    pub id: i32,
    pub name: String,
    pub email: String,
    pub hash: String,
    pub created_at: i64,
    pub updated_at: i64,
}

impl Clone for AuthenticatedUser {
    fn clone(&self) -> (res: Self)
        ensures
            res == *self,
    {
        AuthenticatedUser {
            id: self.id,
            name: self.name.clone(),
            email: self.email.clone(),
            hash: self.hash.clone(),
            created_at: self.created_at,
            updated_at: self.updated_at,
        }
    }
}

/// The fields of a user row to insert; the store fills in the rest.
#[derive(Debug)]
pub struct NewUser<'a> {
    pub name: &'a str,
    pub email: &'a str,
    pub hash: &'a str,
}

/// The fields of a review row to insert; the store fills in the rest.
#[derive(Debug)]
pub struct NewReview<'a> {
    pub user_id: i32,
    pub tmdb_id: i32,
    pub category: MediaCategory,
    pub season: Option<i32>,
    pub status: WatchStatus,
    pub text: &'a str,
    pub fun_before: bool,
    pub fun_during: bool,
    pub fun_after: bool,
}

/// A partial edit of a review: absent fields leave the row unchanged.
#[derive(Debug)]
pub struct EditReview {
    pub status: Option<WatchStatus>,
    pub text: Option<String>,
    pub fun_before: Option<bool>,
    pub fun_during: Option<bool>,
    pub fun_after: Option<bool>,
}

/// The row a partial edit turns a review into: each present field
/// overwrites the row's field, each absent field leaves it as it was. The
/// key fields and the timestamps never change.
pub open spec fn spec_apply_edit(r: Review, e: EditReview) -> Review {
    Review {
        user_id: r.user_id,
        tmdb_id: r.tmdb_id,
        category: r.category,
        status: match e.status {
            Some(s) => s,
            None => r.status,
        },
        text: match e.text {
            Some(t) => t,
            None => r.text,
        },
        fun_before: match e.fun_before {
            Some(b) => b,
            None => r.fun_before,
        },
        fun_during: match e.fun_during {
            Some(b) => b,
            None => r.fun_during,
        },
        fun_after: match e.fun_after {
            Some(b) => b,
            None => r.fun_after,
        },
        created_at: r.created_at,
        updated_at: r.updated_at,
        season: r.season,
    }
}

/// Apply a partial edit to a review row.
pub fn apply_edit(review: &mut Review, edits: &EditReview)
    ensures
        *final(review) == spec_apply_edit(*old(review), *edits),
{
    match edits.status {
        Some(s) => review.status = s,
        None => (),
    }
    match &edits.text {
        Some(t) => review.text = t.clone(),
        None => (),
    }
    match edits.fun_before {
        Some(b) => review.fun_before = b,
        None => (),
    }
    match edits.fun_during {
        Some(b) => review.fun_during = b,
        None => (),
    }
    match edits.fun_after {
        Some(b) => review.fun_after = b,
        None => (),
    }
}

/// A season value below zero is the store's marker for "no season"; such a
/// value is not a real season.
pub fn invalid_season(season: &i32) -> (b: bool)
    ensures
        b == (*season < 0),
{
    return *season < 0;
}

/// The stored column value standing for an optional season: a missing
/// season is stored as `-1`, the marker the key columns use.
pub open spec fn spec_season_column(season: Option<i32>) -> i32 {
    match season {
        Some(v) => v,
        None => -1i32,
    }
}

pub fn season_to_column(season: Option<i32>) -> (s: i32)
    ensures
        s == spec_season_column(season),
{
    match season {
        Some(v) => v,
        None => -1,
    }
}

/// Read an optional season back from its stored column value.
pub fn season_from_column(column: i32) -> (season: Option<i32>)
    ensures
        season == if column < 0 {
            Option::<i32>::None
        } else {
            Some(column)
        },
{
    if column < 0 {
        None
    } else {
        Some(column)
    }
}

/// Round trip of the season marker: every real (nonnegative) season and the
/// absent season survive storage unchanged.
pub proof fn lemma_season_column_round_trip(season: Option<i32>)
    requires
        season matches Some(v) ==> v >= 0,
    ensures
        (if spec_season_column(season) < 0 {
            Option::<i32>::None
        } else {
            Some(spec_season_column(season))
        }) == season,
{
}

} // verus!
