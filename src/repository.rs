use vstd::prelude::*;

use crate::errors::{pg_error_text, pg_text_of, AppError, AppErrorType};

verus! {

/// The lower-case hexadecimal digit of `v`, for `v` below 16.
pub open spec fn hex_digit(v: int) -> char {
    seq!['0', '1', '2', '3', '4', '5', '6', '7', '8', '9', 'a', 'b', 'c', 'd', 'e', 'f'][v]
}

/// The number of hex digits before position `p` of the hyphenated form.
pub open spec fn nibble_at(p: int) -> int {
    if p < 8 {
        p
    } else if p < 13 {
        p - 1
    } else if p < 18 {
        p - 2
    } else if p < 23 {
        p - 3
    } else {
        p - 4
    }
}

/// The hyphenated text form of a 128-bit UUID value: 32 lower-case hex
/// digits, most significant first, in groups of 8-4-4-4-12 joined by '-'.
pub open spec fn uuid_text_of(id: u128) -> Seq<char> {
    Seq::new(
        36,
        |p: int|
            if p == 8 || p == 13 || p == 18 || p == 23 {
                '-'
            } else {
                hex_digit(((id >> ((4 * (31 - nibble_at(p))) as u128)) & 15u128) as int)
            },
    )
}

/// Relies on uuid::Uuid::from_u128 (big-endian bytes) and Uuid's Display
/// (the lower-case hyphenated form).
#[verifier::external_body]
fn uuid_text(id: u128) -> (r: String)
    ensures
        r@ == uuid_text_of(id),
{
    uuid::Uuid::from_u128(id).to_string()
}

/// Relies on uuid::Uuid::new_v4 and Uuid's Display: the hyphenated text of
/// a fresh random id.
#[verifier::external_body]
fn random_uuid_text() -> (r: String)
    ensures
        exists|id: u128| r@ == uuid_text_of(id),
{
    uuid::Uuid::new_v4().to_string()
}

/// The SQLSTATE code of a driver error, where the database server reported one.
pub uninterp spec fn sql_state_of(err: tokio_postgres::Error) -> Option<Seq<char>>;

/// The text form of an optional string.
pub open spec fn opt_view(s: Option<String>) -> Option<Seq<char>> {
    match s {
        Some(v) => Some(v@),
        None => None,
    }
}

/// Relies on tokio_postgres::Error::code and SqlState::code: the SQLSTATE
/// code of the error, where it came from the database server; a function
/// of the error alone.
#[verifier::external_body]
fn sql_state_code(err: &tokio_postgres::Error) -> (r: Option<String>)
    ensures
        opt_view(r) == sql_state_of(*err),
{
    err.code().map(|c| c.code().to_string())
}

/// The SQLSTATE code of a uniqueness violation.
pub open spec fn unique_violation() -> Seq<char> {
    "23505"@
}

/// The SQLSTATE code of a foreign-key violation.
pub open spec fn foreign_key_violation() -> Seq<char> {
    "23503"@
}

/// `code` is present and equal to `c`.
pub open spec fn has_code(code: Option<Seq<char>>, c: Seq<char>) -> bool {
    code == Some(c)
}

/// `r` carries exactly the message `m`.
pub open spec fn says(r: AppError, m: Seq<char>) -> bool {
    r.message is Some && r.message->Some_0@ == m
}

/// The message of a lookup of `entity` with id `id` that found nothing.
pub open spec fn not_found_message(entity: Seq<char>, id: u128) -> Seq<char> {
    entity + " with id "@ + uuid_text_of(id) + " not found"@
}

/// `r` is the domain error of a failed user insert with SQLSTATE `code`
/// and driver text `cause`.
pub open spec fn is_user_insert_error(code: Option<Seq<char>>, cause: Seq<char>, r: AppError) -> bool {
    &&& r.cause is Some && r.cause->Some_0@ == cause
    &&& if has_code(code, unique_violation()) {
        r.error_type == AppErrorType::InvalidField && says(
            r,
            "Username or email address already in use."@,
        )
    } else {
        r.error_type == AppErrorType::DbError && r.message is None
    }
}

/// `r` is the domain error of a failed post insert with SQLSTATE `code`,
/// driver text `cause`, for the slug `slug` and the author `author_id`.
pub open spec fn is_post_insert_error(
    code: Option<Seq<char>>,
    cause: Seq<char>,
    slug: Seq<char>,
    author_id: u128,
    r: AppError,
) -> bool {
    &&& r.cause is Some && r.cause->Some_0@ == cause
    &&& if has_code(code, unique_violation()) {
        r.error_type == AppErrorType::InvalidField && says(
            r,
            "Slug "@ + slug + " already exists."@,
        )
    } else if has_code(code, foreign_key_violation()) {
        r.error_type == AppErrorType::InvalidField && says(
            r,
            "Author with id "@ + uuid_text_of(author_id) + " does not exist."@,
        )
    } else {
        r.error_type == AppErrorType::DbError && r.message is None
    }
}

fn code_is(code: &Option<String>, c: &str) -> (r: bool)
    ensures
        r == (code is Some && code->Some_0@ == c@),
{
    match code {
        Some(s) => *s == String::from_str(c),
        None => false,
    }
}

/// The error of a lookup of `entity` with id `id` that found no row.
pub fn not_found_error(entity: &str, id: u128) -> (r: AppError)
    ensures
        r.error_type == AppErrorType::NotFoundError,
        says(r, not_found_message(entity@, id)),
        r.cause is None,
{
    let m = String::from_str(entity).concat(" with id ").concat(uuid_text(id).as_str()).concat(
        " not found",
    );
    AppError::with_message(AppErrorType::NotFoundError, m, None)
}

/// The entity of a single-entity lookup: the last row returned, or
/// `NotFoundError` naming the entity and the id where there is none.
pub fn single_row<E>(rows: Vec<E>, entity: &str, id: u128) -> (r: Result<E, AppError>)
    ensures
        rows@.len() > 0 ==> r == Ok::<E, AppError>(rows@.last()),
        rows@.len() == 0 ==> r is Err && r->Err_0.error_type == AppErrorType::NotFoundError
            && says(r->Err_0, not_found_message(entity@, id)),
{
    let mut rows = rows;
    match rows.pop() {
        Some(row) => Ok(row),
        None => Err(not_found_error(entity, id)),
    }
}

/// The entity an insert returned: the last row, or a `DbError` saying
/// "Error creating {entity}." where the insert returned none.
pub fn created_row<E>(rows: Vec<E>, entity: &str) -> (r: Result<E, AppError>)
    ensures
        rows@.len() > 0 ==> r == Ok::<E, AppError>(rows@.last()),
        rows@.len() == 0 ==> r is Err && r->Err_0.error_type == AppErrorType::DbError && says(
            r->Err_0,
            "Error creating "@ + entity@ + "."@,
        ) && r->Err_0.cause is None,
{
    let mut rows = rows;
    match rows.pop() {
        Some(row) => Ok(row),
        None => {
            let m = String::from_str("Error creating ").concat(entity).concat(".");
            Err(AppError::with_message(AppErrorType::DbError, m, None))
        },
    }
}

/// The rows of a query result, decoded one by one: all of them where every
/// row decoded, else the error of the first row that did not. An empty
/// result is an empty success, never an error.
pub fn collect_rows<E>(decoded: Vec<Result<E, AppError>>) -> (r: Result<Vec<E>, AppError>)
    ensures
        decoded@.len() == 0 ==> r is Ok && r->Ok_0@.len() == 0,
        r is Ok <==> forall|i: int| 0 <= i < decoded@.len() ==> #[trigger] decoded@[i] is Ok,
        r is Ok ==> r->Ok_0@.len() == decoded@.len() && forall|i: int|
            0 <= i < decoded@.len() ==> #[trigger] r->Ok_0@[i] == decoded@[i]->Ok_0,
        r is Err ==> exists|i: int|
            0 <= i < decoded@.len() && #[trigger] decoded@[i] is Err && r->Err_0 == decoded@[i]->Err_0
                && forall|j: int| 0 <= j < i ==> #[trigger] decoded@[j] is Ok,
{
    let ghost d = decoded@;
    let mut rest = decoded;
    let n: usize = rest.len();
    let mut out: Vec<E> = Vec::new();
    let mut i: usize = 0;
    while rest.len() > 0
        invariant
            d == decoded@,
            n == d.len(),
            i + rest@.len() == d.len(),
            rest@ == d.subrange(i as int, d.len() as int),
            out@.len() == i,
            forall|j: int| 0 <= j < i ==> #[trigger] d[j] is Ok && out@[j] == d[j]->Ok_0,
        decreases rest@.len(),
    {
        let item = rest.remove(0);
        assert(item == d[i as int]);
        match item {
            Ok(v) => {
                out.push(v);
            },
            Err(e) => {
                assert(d[i as int] is Err && i < d.len());
                return Err(e);
            },
        }
        i = i + 1;
    }
    Ok(out)
}

/// The slug of a new post: the one given, or the text of a fresh random id.
pub fn post_slug(given: Option<String>) -> (r: String)
    ensures
        given is Some ==> r == given->Some_0,
        given is None ==> exists|id: u128| r@ == uuid_text_of(id),
{
    match given {
        Some(s) => s,
        None => random_uuid_text(),
    }
}

/// The domain error of a failed user insert, from its SQLSTATE code and
/// driver text: a uniqueness violation is an invalid field, anything else
/// an unclassified storage failure.
pub fn user_insert_error(code: Option<String>, cause: String) -> (r: AppError)
    ensures
        is_user_insert_error(opt_view(code), cause@, r),
{
    if code_is(&code, "23505") {
        proof {
            reveal_strlit("23505");
        }
        AppError::with_message(
            AppErrorType::InvalidField,
            String::from_str("Username or email address already in use."),
            Some(cause),
        )
    } else {
        proof {
            reveal_strlit("23505");
        }
        AppError::db(cause)
    }
}

/// The domain error of a failed post insert, from its SQLSTATE code and
/// driver text: a uniqueness violation names the slug, a foreign-key
/// violation names the author, anything else is an unclassified failure.
pub fn post_insert_error(code: Option<String>, cause: String, slug: &str, author_id: u128) -> (r:
    AppError)
    ensures
        is_post_insert_error(opt_view(code), cause@, slug@, author_id, r),
{
    proof {
        reveal_strlit("23505");
        reveal_strlit("23503");
    }
    if code_is(&code, "23505") {
        let m = String::from_str("Slug ").concat(slug).concat(" already exists.");
        AppError::with_message(AppErrorType::InvalidField, m, Some(cause))
    } else if code_is(&code, "23503") {
        let m = String::from_str("Author with id ").concat(uuid_text(author_id).as_str()).concat(
            " does not exist.",
        );
        AppError::with_message(AppErrorType::InvalidField, m, Some(cause))
    } else {
        AppError::db(cause)
    }
}

/// The domain error of a user insert that the driver failed.
pub fn user_insert_failure(err: &tokio_postgres::Error) -> (r: AppError)
    ensures
        is_user_insert_error(sql_state_of(*err), pg_text_of(*err), r),
{
    user_insert_error(sql_state_code(err), pg_error_text(err))
}

/// The domain error of a post insert that the driver failed.
pub fn post_insert_failure(err: &tokio_postgres::Error, slug: &str, author_id: u128) -> (r:
    AppError)
    ensures
        is_post_insert_error(sql_state_of(*err), pg_text_of(*err), slug@, author_id, r),
{
    post_insert_error(sql_state_code(err), pg_error_text(err), slug, author_id)
}

} // verus!
