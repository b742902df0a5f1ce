//! The user listing engine and the account record builders. User listings
//! take no filters; they resolve a sort token and slice pages the same way
//! review listings do.

use vstd::prelude::*;
use vstd::assert_seqs_equal;
use vstd::string::StringSliceAdditionalSpecFns;

use crate::errors::{ServiceError, StoreError};
use crate::models::{AuthenticatedUser, User};
use crate::pagination::{
    spec_ceil_div, spec_clamp_page, spec_clamp_per_page, spec_offset, spec_page_slice, Paginate,
    PaginatedResults,
};
use crate::sorting::{sort_rows, spec_sort_by, spec_str_le, str_le, SortDir, SortableBy};
use crate::sorting::{lemma_sort_by_len, lemma_sort_by_multiset};
use crate::utils::{argon2_hash_of, hash_password};

verus! {

/// The closed set of sort tokens a user listing accepts.
#[derive(Clone, Copy, Debug, PartialEq, Eq, Structural)]
pub enum SortBy {
    IdAsc,
    IdDesc,
    NameAsc,
    NameDesc,
    CreatedAtAsc,
    CreatedAtDesc,
    UpdatedAtAsc,
    UpdatedAtDesc,
}

/// The user columns a listing can order by.
#[derive(Clone, Copy, Debug, PartialEq, Eq, Structural)]
pub enum UserSortField {
    Id,
    Name,
    CreatedAt,
    UpdatedAt,
}

/// One concrete ordering clause over user rows.
#[derive(Clone, Copy, Debug, PartialEq, Eq, Structural)]
pub struct UserOrder {
    pub field: UserSortField,
    pub dir: SortDir,
}

/// Whether `a` stands at or before `b` on the given column, ascending.
pub open spec fn spec_user_le_asc(field: UserSortField, a: User, b: User) -> bool {
    match field {
        UserSortField::Id => a.id <= b.id,
        UserSortField::Name => spec_str_le(a.name@, b.name@),
        UserSortField::CreatedAt => a.created_at <= b.created_at,
        UserSortField::UpdatedAt => a.updated_at <= b.updated_at,
    }
}

impl SortableBy<UserOrder> for User {
    open spec fn le(o: UserOrder, a: User, b: User) -> bool {
        match o.dir {
            SortDir::Asc => spec_user_le_asc(o.field, a, b),
            SortDir::Desc => spec_user_le_asc(o.field, b, a),
        }
    }

    fn le_exec(o: &UserOrder, a: &User, b: &User) -> (r: bool) {
        let (x, y): (&User, &User) = match o.dir {
            SortDir::Asc => (a, b),
            SortDir::Desc => (b, a),
        };
        match o.field {
            UserSortField::Id => x.id <= y.id,
            UserSortField::Name => str_le(x.name.as_str(), y.name.as_str()),
            UserSortField::CreatedAt => x.created_at <= y.created_at,
            UserSortField::UpdatedAt => x.updated_at <= y.updated_at,
        }
    }
}

/// The ordering clause a recognized sort token selects.
pub open spec fn spec_order_of(sort_by: SortBy) -> UserOrder {
    match sort_by {
        SortBy::IdAsc => UserOrder { field: UserSortField::Id, dir: SortDir::Asc },
        SortBy::IdDesc => UserOrder { field: UserSortField::Id, dir: SortDir::Desc },
        SortBy::NameAsc => UserOrder { field: UserSortField::Name, dir: SortDir::Asc },
        SortBy::NameDesc => UserOrder { field: UserSortField::Name, dir: SortDir::Desc },
        SortBy::CreatedAtAsc => UserOrder { field: UserSortField::CreatedAt, dir: SortDir::Asc },
        SortBy::CreatedAtDesc => UserOrder { field: UserSortField::CreatedAt, dir: SortDir::Desc },
        SortBy::UpdatedAtAsc => UserOrder { field: UserSortField::UpdatedAt, dir: SortDir::Asc },
        SortBy::UpdatedAtDesc => UserOrder { field: UserSortField::UpdatedAt, dir: SortDir::Desc },
    }
}

/// The fixed default ordering of user listings: primary key ascending. It
/// is applied whenever the caller supplies no recognized token, so that
/// repeated listings always agree on their page boundaries.
pub open spec fn spec_default_user_order() -> UserOrder {
    UserOrder { field: UserSortField::Id, dir: SortDir::Asc }
}

/// The ordering clause an optional sort token resolves to.
pub open spec fn spec_resolve_sort(sort_by: Option<SortBy>) -> UserOrder {
    match sort_by {
        Some(s) => spec_order_of(s),
        None => spec_default_user_order(),
    }
}

pub fn resolve_sort(sort_by: Option<SortBy>) -> (o: UserOrder)
    ensures
        o == spec_resolve_sort(sort_by),
{
    match sort_by {
        Some(SortBy::IdAsc) => UserOrder { field: UserSortField::Id, dir: SortDir::Asc },
        Some(SortBy::IdDesc) => UserOrder { field: UserSortField::Id, dir: SortDir::Desc },
        Some(SortBy::NameAsc) => UserOrder { field: UserSortField::Name, dir: SortDir::Asc },
        Some(SortBy::NameDesc) => UserOrder { field: UserSortField::Name, dir: SortDir::Desc },
        Some(SortBy::CreatedAtAsc) => UserOrder {
            field: UserSortField::CreatedAt,
            dir: SortDir::Asc,
        },
        Some(SortBy::CreatedAtDesc) => UserOrder {
            field: UserSortField::CreatedAt,
            dir: SortDir::Desc,
        },
        Some(SortBy::UpdatedAtAsc) => UserOrder {
            field: UserSortField::UpdatedAt,
            dir: SortDir::Asc,
        },
        Some(SortBy::UpdatedAtDesc) => UserOrder {
            field: UserSortField::UpdatedAt,
            dir: SortDir::Desc,
        },
        None => UserOrder { field: UserSortField::Id, dir: SortDir::Asc },
    }
}

/// Which token, if any, a raw sort string denotes.
pub open spec fn spec_parse_sort_token(t: Seq<char>) -> Option<SortBy> {
    if t == "id.asc"@ {
        Some(SortBy::IdAsc)
    } else if t == "id.desc"@ {
        Some(SortBy::IdDesc)
    } else if t == "name.asc"@ {
        Some(SortBy::NameAsc)
    } else if t == "name.desc"@ {
        Some(SortBy::NameDesc)
    } else if t == "created_at.asc"@ {
        Some(SortBy::CreatedAtAsc)
    } else if t == "created_at.desc"@ {
        Some(SortBy::CreatedAtDesc)
    } else if t == "updated_at.asc"@ {
        Some(SortBy::UpdatedAtAsc)
    } else if t == "updated_at.desc"@ {
        Some(SortBy::UpdatedAtDesc)
    } else {
        None
    }
}

/// Parse a raw sort string; anything outside the closed set yields `None`
/// and therefore the fixed default ordering.
pub fn parse_sort_token(token: &str) -> (r: Option<SortBy>)
    ensures
        r == spec_parse_sort_token(token@),
{
    let t: String = token.to_owned();
    if t == "id.asc".to_owned() {
        Some(SortBy::IdAsc)
    } else if t == "id.desc".to_owned() {
        Some(SortBy::IdDesc)
    } else if t == "name.asc".to_owned() {
        Some(SortBy::NameAsc)
    } else if t == "name.desc".to_owned() {
        Some(SortBy::NameDesc)
    } else if t == "created_at.asc".to_owned() {
        Some(SortBy::CreatedAtAsc)
    } else if t == "created_at.desc".to_owned() {
        Some(SortBy::CreatedAtDesc)
    } else if t == "updated_at.asc".to_owned() {
        Some(SortBy::UpdatedAtAsc)
    } else if t == "updated_at.desc".to_owned() {
        Some(SortBy::UpdatedAtDesc)
    } else {
        None
    }
}

/// Raw listing parameters of a user listing request.
#[derive(Clone, Copy, Debug)]
pub struct QueryParams {
    pub page: Option<i64>,
    pub per_page: Option<i64>,
    pub sort_by: Option<SortBy>,
}

/// The full ordered listing a raw query denotes, before page slicing.
pub open spec fn spec_users_listing(rows: Seq<User>, q: QueryParams) -> Seq<User> {
    spec_sort_by(spec_resolve_sort(q.sort_by), rows)
}

/// List users from an in-memory relation: resolve the sort token and
/// return one page together with the total row count, computed before the
/// page slice.
pub fn get_all_users(rows: Vec<User>, params: QueryParams) -> (res: PaginatedResults<User>)
    requires
        rows@.len() <= i64::MAX,
    ensures
        res.page == spec_clamp_page(params.page),
        res.total_results == rows@.len(),
        res.total_pages == spec_ceil_div(
            rows@.len() as int,
            spec_clamp_per_page(params.per_page) as int,
        ),
        res.results@ == spec_page_slice(
            spec_users_listing(rows@, params),
            spec_clamp_per_page(params.per_page) as int,
            spec_offset(spec_clamp_page(params.page), spec_clamp_per_page(params.per_page)),
        ),
        res.results@.len() <= spec_clamp_per_page(params.per_page),
{
    let ghost rows0 = rows@;
    let order = resolve_sort(params.sort_by);
    let sorted = sort_rows(&order, rows);
    proof {
        lemma_sort_by_len(order, rows0);
    }
    sorted.paginate_safe(params.page, params.per_page).load_paginated()
}

/// An absent sort token, and every raw sort string outside the closed set,
/// resolves to the one fixed default ordering of user listings; repeated
/// listings with such input therefore order and page their rows alike.
pub proof fn lemma_unrecognized_sort_defaults(token: Seq<char>)
    requires
        spec_parse_sort_token(token) is None,
    ensures
        spec_resolve_sort(spec_parse_sort_token(token)) == spec_default_user_order(),
        spec_resolve_sort(None) == spec_default_user_order(),
{
}

/// Every user ordering clause orders each pair of rows one way or the
/// other, and does so transitively.
pub proof fn lemma_user_order_total(o: UserOrder)
    ensures
        crate::sorting::spec_total_order::<UserOrder, User>(o),
{
    assert forall|a: User, b: User| #[trigger] User::le(o, a, b) || #[trigger] User::le(
        o,
        b,
        a,
    ) by {
        if o.field is Name {
            crate::sorting::lemma_str_le_total(a.name@, b.name@);
        }
    }
    assert forall|a: User, b: User, c: User|
        #[trigger] User::le(o, a, b) && #[trigger] User::le(o, b, c) implies User::le(o, a, c) by {
        if o.field is Name {
            match o.dir {
                SortDir::Asc => crate::sorting::lemma_str_le_trans(a.name@, b.name@, c.name@),
                SortDir::Desc => crate::sorting::lemma_str_le_trans(c.name@, b.name@, a.name@),
            }
        }
    }
}

/// The rows of a user listing stand in the resolved order.
pub proof fn lemma_users_listing_ordered(rows: Seq<User>, q: QueryParams)
    ensures
        crate::sorting::spec_sorted_by(spec_resolve_sort(q.sort_by), spec_users_listing(rows, q)),
{
    lemma_user_order_total(spec_resolve_sort(q.sort_by));
    crate::sorting::lemma_sort_by_ordered(spec_resolve_sort(q.sort_by), rows);
}

/// A user listing holds exactly the stored rows, rearranged by the
/// resolved ordering and nothing else.
pub proof fn lemma_users_listing_is_permutation(rows: Seq<User>, q: QueryParams)
    ensures
        spec_users_listing(rows, q).to_multiset() == rows.to_multiset(),
{
    lemma_sort_by_multiset(spec_resolve_sort(q.sort_by), rows);
}

/// The first stored row carrying the given email, if any.
pub open spec fn spec_find_by_email(rows: Seq<AuthenticatedUser>, email: Seq<char>) -> Option<
    AuthenticatedUser,
>
    decreases rows.len(),
{
    if rows.len() == 0 {
        None
    } else if rows[0].email@ == email {
        Some(rows[0])
    } else {
        spec_find_by_email(rows.drop_first(), email)
    }
}

/// Look a user up by email in an in-memory relation.
pub fn find_auth_user_by_email(rows: &Vec<AuthenticatedUser>, email_in: &str) -> (r: Option<
    AuthenticatedUser,
>)
    ensures
        r == spec_find_by_email(rows@, email_in@),
{
    let email: String = email_in.to_owned();
    let mut i: usize = 0;
    proof {
        assert_seqs_equal!(rows@.skip(0) == rows@);
    }
    while i < rows.len()
        invariant
            i <= rows@.len(),
            email@ == email_in@,
            spec_find_by_email(rows@, email_in@) == spec_find_by_email(
                rows@.skip(i as int),
                email_in@,
            ),
        decreases rows@.len() - i,
    {
        assert(rows@.skip(i as int)[0] == rows@[i as int]);
        let row = &rows[i];
        if row.email == email {
            return Some(row.clone());
        }
        proof {
            assert_seqs_equal!(rows@.skip(i as int).drop_first() == rows@.skip(i + 1));
        }
        i += 1;
    }
    assert(rows@.skip(i as int).len() == 0);
    None
}

/// A partial edit of a user's account: absent fields leave it unchanged.
#[derive(Debug)]
pub struct UpdateUser {
    pub name: Option<String>,
    pub email: Option<String>,
}

/// The account a partial edit turns a user row into: each present field
/// overwrites the row's field, each absent field leaves it as it was;
/// nothing else changes.
pub open spec fn spec_apply_update(u: AuthenticatedUser, up: UpdateUser) -> AuthenticatedUser {
    AuthenticatedUser {
        id: u.id,
        name: match up.name {
            Some(n) => n,
            None => u.name,
        },
        email: match up.email {
            Some(e) => e,
            None => u.email,
        },
        hash: u.hash,
        created_at: u.created_at,
        updated_at: u.updated_at,
    }
}

/// Apply a partial account edit to a user row.
pub fn apply_update(user: &mut AuthenticatedUser, update: &UpdateUser)
    ensures
        *final(user) == spec_apply_update(*old(user), *update),
{
    match &update.name {
        Some(n) => user.name = n.clone(),
        None => (),
    }
    match &update.email {
        Some(e) => user.email = e.clone(),
        None => (),
    }
}

/// The first stored row carrying the given id, if any.
pub open spec fn spec_find_user_by_id(rows: Seq<User>, idx: i32) -> Option<User>
    decreases rows.len(),
{
    if rows.len() == 0 {
        None
    } else if rows[0].id == idx {
        Some(rows[0])
    } else {
        spec_find_user_by_id(rows.drop_first(), idx)
    }
}

/// Look a user up by id in an in-memory relation.
pub fn find_user_by_id(rows: &Vec<User>, idx: i32) -> (r: Option<User>)
    ensures
        r == spec_find_user_by_id(rows@, idx),
{
    let mut i: usize = 0;
    proof {
        assert_seqs_equal!(rows@.skip(0) == rows@);
    }
    while i < rows.len()
        invariant
            i <= rows@.len(),
            spec_find_user_by_id(rows@, idx) == spec_find_user_by_id(rows@.skip(i as int), idx),
        decreases rows@.len() - i,
    {
        assert(rows@.skip(i as int)[0] == rows@[i as int]);
        let row = &rows[i];
        if row.id == idx {
            return Some(row.clone());
        }
        proof {
            assert_seqs_equal!(rows@.skip(i as int).drop_first() == rows@.skip(i + 1));
        }
        i += 1;
    }
    assert(rows@.skip(i as int).len() == 0);
    None
}

/// The first stored row carrying the given id, if any, as the
/// authentication paths read it.
pub open spec fn spec_find_auth_user_by_id(rows: Seq<AuthenticatedUser>, idx: i32) -> Option<
    AuthenticatedUser,
>
    decreases rows.len(),
{
    if rows.len() == 0 {
        None
    } else if rows[0].id == idx {
        Some(rows[0])
    } else {
        spec_find_auth_user_by_id(rows.drop_first(), idx)
    }
}

/// Look a user up by id in an in-memory relation, for the authentication
/// paths.
pub fn find_auth_user_by_id(rows: &Vec<AuthenticatedUser>, idx: i32) -> (r: Option<
    AuthenticatedUser,
>)
    ensures
        r == spec_find_auth_user_by_id(rows@, idx),
{
    let mut i: usize = 0;
    proof {
        assert_seqs_equal!(rows@.skip(0) == rows@);
    }
    while i < rows.len()
        invariant
            i <= rows@.len(),
            spec_find_auth_user_by_id(rows@, idx) == spec_find_auth_user_by_id(
                rows@.skip(i as int),
                idx,
            ),
        decreases rows@.len() - i,
    {
        assert(rows@.skip(i as int)[0] == rows@[i as int]);
        let row = &rows[i];
        if row.id == idx {
            return Some(row.clone());
        }
        proof {
            assert_seqs_equal!(rows@.skip(i as int).drop_first() == rows@.skip(i + 1));
        }
        i += 1;
    }
    assert(rows@.skip(i as int).len() == 0);
    None
}

/// Update the account row with the given id in an in-memory relation: the
/// first matching row takes the edit and its new value is returned; every
/// other row stays untouched; a missing row is reported as such and
/// changes nothing.
pub fn update_auth_user_by_id(
    rows: &mut Vec<AuthenticatedUser>,
    idx: i32,
    update: UpdateUser,
) -> (r: Result<AuthenticatedUser, StoreError>)
    ensures
        r is Ok <==> (exists|j: int|
            0 <= j < old(rows)@.len() && (#[trigger] old(rows)@[j]).id == idx),
        r is Err ==> final(rows)@ == old(rows)@ && r == Err::<AuthenticatedUser, StoreError>(
            StoreError::NotFound,
        ),
        r is Ok ==> (exists|j: int|
            {
                &&& 0 <= j < old(rows)@.len()
                &&& (#[trigger] old(rows)@[j]).id == idx
                &&& forall|i: int| 0 <= i < j ==> (#[trigger] old(rows)@[i]).id != idx
                &&& final(rows)@ == old(rows)@.update(
                    j,
                    spec_apply_update(old(rows)@[j], update),
                )
                &&& r == Ok::<AuthenticatedUser, StoreError>(
                    spec_apply_update(old(rows)@[j], update),
                )
            }),
{
    let mut i: usize = 0;
    while i < rows.len()
        invariant
            i <= rows@.len(),
            rows@ == old(rows)@,
            forall|p: int| 0 <= p < i ==> (#[trigger] old(rows)@[p]).id != idx,
        decreases rows@.len() - i,
    {
        if rows[i].id == idx {
            let ghost j = i as int;
            let mut row = rows.remove(i);
            apply_update(&mut row, &update);
            let updated = row.clone();
            rows.insert(i, row);
            proof {
                assert_seqs_equal!(
                    rows@ == old(rows)@.update(j, spec_apply_update(old(rows)@[j], update))
                );
                assert(updated == spec_apply_update(old(rows)@[j], update));
            }
            return Ok(updated);
        }
        i += 1;
    }
    Err(StoreError::NotFound)
}

/// Delete the user rows with the given id from an in-memory relation, and
/// say how many rows went.
pub fn delete_user_by_id(rows: &mut Vec<User>, idx: i32) -> (deleted: usize)
    ensures
        final(rows)@ == old(rows)@.filter((|u: User| u.id != idx)),
        deleted + final(rows)@.len() == old(rows)@.len(),
{
    let ghost pred = (|u: User| u.id != idx);
    let mut taken: Vec<User> = Vec::new();
    core::mem::swap(rows, &mut taken);
    let ghost rows0 = taken@;
    let total = taken.len();
    let ghost mut k: int = 0;
    proof {
        reveal(Seq::filter);
        assert(rows0.subrange(0, 0).filter(pred) =~= Seq::<User>::empty());
    }
    while taken.len() > 0
        invariant
            0 <= k <= rows0.len(),
            taken@ == rows0.subrange(k, rows0.len() as int),
            rows@ == rows0.subrange(0, k).filter(pred),
            pred == (|u: User| u.id != idx),
        decreases taken@.len(),
    {
        let row = taken.remove(0);
        assert(row == rows0[k]);
        proof {
            reveal(Seq::filter);
            let upto = rows0.subrange(0, k + 1);
            assert_seqs_equal!(upto.drop_last() == rows0.subrange(0, k));
            assert(upto.last() == rows0[k]);
            assert(upto.filter(pred) == if pred(rows0[k]) {
                rows0.subrange(0, k).filter(pred).push(rows0[k])
            } else {
                rows0.subrange(0, k).filter(pred)
            });
        }
        if row.id != idx {
            rows.push(row);
        }
        proof {
            assert_seqs_equal!(taken@ == rows0.subrange(k + 1, rows0.len() as int));
            k = k + 1;
        }
    }
    proof {
        assert_seqs_equal!(rows0.subrange(0, rows0.len() as int) == rows0);
        broadcast use vstd::seq_lib::group_filter_ensures;

        assert(rows@.len() <= rows0.len());
    }
    total - rows.len()
}

/// A new account as a request supplies it.
#[derive(Debug)]
pub struct InputUser {
    pub name: String,
    pub email: String,
    pub password: String,
}

/// The fields of the account row that a successful signup inserts.
#[derive(Debug)]
pub struct NewUserRecord {
    pub name: String,
    pub email: String,
    pub hash: String,
}

/// Build the account row to insert for a signup: the password is hashed
/// under the service's secret key with a fresh salt, and a hashing failure
/// surfaces as an opaque 500.
pub fn create_user(user: InputUser, secret: &[u8]) -> (r: Result<NewUserRecord, ServiceError>)
    ensures
        r matches Ok(rec) ==> rec.name@ == user.name@ && rec.email@ == user.email@ && exists|
            salt: Seq<u8>,
        |
            salt.len() == 32 && rec.hash@ == argon2_hash_of(
                vstd::utf8::encode_utf8(user.password@),
                salt,
                secret@,
            ),
        r matches Err(e) ==> e.status == 500,
{
    match hash_password(user.password.as_str(), secret) {
        Ok(hash) => Ok(NewUserRecord { name: user.name, email: user.email, hash }),
        Err(_) => Err(ServiceError::new(500, "password hashing failed".to_owned())),
    }
}

} // verus!
