use std::collections::HashMap;
use vstd::prelude::*;

use crate::errors::AppError;
use crate::loader::{resolution_of, Loader, DEFAULT_MAX_BATCH_SIZE};
use crate::models::Post;

verus! {

broadcast use vstd::std_specs::hash::group_hash_axioms;

/// The posts of `rows` written by `author`, in the order of `rows`.
pub open spec fn posts_of(rows: Seq<Post>, author: u128) -> Seq<Post>
    decreases rows.len(),
{
    if rows.len() == 0 {
        Seq::empty()
    } else {
        let prev = posts_of(rows.drop_last(), author);
        if rows.last().author_id == author {
            prev.push(rows.last())
        } else {
            prev
        }
    }
}

/// `r` is the per-key result of one posts-by-author fetch for `keys`:
/// every requested key is present, with the error of a failed fetch, or
/// with the key's own posts (possibly none) of a successful one.
pub open spec fn is_fan_out(
    keys: Seq<u128>,
    fetched: Result<Vec<Post>, AppError>,
    r: Map<u128, Result<Vec<Post>, AppError>>,
) -> bool {
    &&& r.dom() == keys.to_set()
    &&& forall|k: u128|
        #[trigger] r.contains_key(k) ==> match fetched {
            Err(e) => r[k] == Err::<Vec<Post>, AppError>(e),
            Ok(rows) => r[k] is Ok && r[k]->Ok_0@ == posts_of(rows@, k),
        }
}

/// The posts of `rows` written by `author`, in their order in `rows`.
pub fn posts_by_author(rows: &Vec<Post>, author: u128) -> (r: Vec<Post>)
    ensures
        r@ == posts_of(rows@, author),
{
    let mut out: Vec<Post> = Vec::new();
    let mut i: usize = 0;
    while i < rows.len()
        invariant
            i <= rows@.len(),
            out@ == posts_of(rows@.subrange(0, i as int), author),
        decreases rows@.len() - i,
    {
        assert(rows@.subrange(0, i + 1).drop_last() =~= rows@.subrange(0, i as int));
        if rows[i].author_id == author {
            out.push(rows[i].duplicate());
        }
        i = i + 1;
    }
    assert(rows@.subrange(0, rows@.len() as int) =~= rows@);
    out
}

/// The batch function of the posts loader.
pub struct PostBatcher;

impl PostBatcher {
    /// The batch function of the posts loader: spreads the rows of one
    /// posts-by-author query over the requested keys. A failed query gives
    /// every key the same error; a key without rows gets an empty sequence.
    pub fn load(&self, keys: &Vec<u128>, fetched: &Result<Vec<Post>, AppError>) -> (r: HashMap<
        u128,
        Result<Vec<Post>, AppError>,
    >)
        ensures
            is_fan_out(keys@, *fetched, r@),
    {
        let mut out: HashMap<u128, Result<Vec<Post>, AppError>> = HashMap::new();
        let mut i: usize = 0;
        while i < keys.len()
            invariant
                i <= keys@.len(),
                out@.dom() == keys@.subrange(0, i as int).to_set(),
                forall|k: u128|
                    #[trigger] out@.contains_key(k) ==> match *fetched {
                        Err(e) => out@[k] == Err::<Vec<Post>, AppError>(e),
                        Ok(rows) => out@[k] is Ok && out@[k]->Ok_0@ == posts_of(rows@, k),
                    },
            decreases keys@.len() - i,
        {
            let key = keys[i];
            let value = match fetched {
                Err(e) => Err(e.duplicate()),
                Ok(rows) => Ok(posts_by_author(rows, key)),
            };
            out.insert(key, value);
            assert(keys@.subrange(0, i + 1) =~= keys@.subrange(0, i as int).push(key));
            proof {
                keys@.subrange(0, i as int).lemma_push_to_set_commute(key);
            }
            assert(out@.dom() =~= keys@.subrange(0, i + 1).to_set());
            i = i + 1;
        }
        assert(keys@.subrange(0, keys@.len() as int) =~= keys@);
        out
    }
}

/// A fresh posts-by-author loader for one request, flushing at the default batch size.
pub fn get_posts_loader() -> (r: Loader<Post>)
    ensures
        r.wf(),
        r@.cache == Map::<u128, Seq<Post>>::empty(),
        r@.window == Seq::<u128>::empty(),
        r@.max_batch_size == DEFAULT_MAX_BATCH_SIZE,
{
    Loader::new(DEFAULT_MAX_BATCH_SIZE)
}

/// Fate-sharing over a whole batch: when the posts query fails, every
/// requested key resolves with that one error.
pub proof fn lemma_failed_fetch_shared_by_all_keys(
    keys: Seq<u128>,
    e: AppError,
    r: Map<u128, Result<Vec<Post>, AppError>>,
)
    requires
        is_fan_out(keys, Err(e), r),
    ensures
        forall|k: u128| keys.contains(k) ==> #[trigger] resolution_of(r, k) == Err::<(), AppError>(e),
        forall|k: u128| keys.contains(k) ==> #[trigger] r[k] == Err::<Vec<Post>, AppError>(e),
{
    assert forall|k: u128| keys.contains(k) implies #[trigger] r[k] == Err::<Vec<Post>, AppError>(e) by {
        assert(keys.to_set().contains(k));
        assert(r.contains_key(k));
    }
    assert forall|k: u128| keys.contains(k) implies #[trigger] resolution_of(r, k) == Err::<(), AppError>(e) by {
        assert(keys.to_set().contains(k));
        assert(r.contains_key(k));
    }
}

/// Fate-sharing: when the posts query fails, every requested key, here
/// `a` and `b`, resolves with the same error: equal kind and equal
/// user-facing message.
pub proof fn lemma_failure_fate_shared(
    keys: Seq<u128>,
    e: AppError,
    r: Map<u128, Result<Vec<Post>, AppError>>,
    a: u128,
    b: u128,
)
    requires
        is_fan_out(keys, Err(e), r),
        keys.contains(a),
        keys.contains(b),
    ensures
        resolution_of(r, a) == Err::<(), AppError>(e),
        resolution_of(r, b) == Err::<(), AppError>(e),
        r[a]->Err_0.error_type == r[b]->Err_0.error_type,
        r[a]->Err_0.user_message() == r[b]->Err_0.user_message(),
{
    assert(keys.to_set().contains(a));
    assert(keys.to_set().contains(b));
    assert(r.contains_key(a));
    assert(r.contains_key(b));
}

} // verus!
