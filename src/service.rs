//! Store outcomes turned into results, the composition of records with their
//! annotations, and the replies that requests get.
//!
//! The store calls themselves happen outside: each function here takes what a
//! call returned and decides what follows.
use vstd::prelude::*;
use crate::codec::{parse_identifier, parsed_identifier, CodecError, StorageId};
use crate::response::Response;
use crate::tweet::{views_of_likes, wire_likes, Like, LikeDB, Tweet, TweetDB, TweetRequest, TweetView, Tweets};

verus! {

/// The most records a listing returns.
pub const LIST_LIMIT: usize = 50;

/// How a store call failed.
#[derive(Clone, Copy, Debug, PartialEq, Eq, Structural)]
pub enum StoreError {
    /// No row matched where one was required.
    NotFound,
    /// The backend failed or could not be reached.
    Backend,
    /// No pooled connection could be leased in time.
    PoolExhausted,
}

/// How a request failed.
#[derive(Clone, Copy, Debug, PartialEq, Eq, Structural)]
pub enum ServiceError {
    InvalidIdentifier,
    NotFound,
    StoreError,
    PoolExhausted,
    ValidationError,
}

pub open spec fn service_error(e: StoreError) -> ServiceError {
    match e {
        StoreError::NotFound => ServiceError::NotFound,
        StoreError::Backend => ServiceError::StoreError,
        StoreError::PoolExhausted => ServiceError::PoolExhausted,
    }
}

/// The request failure for a store failure.
pub fn from_store_error(e: StoreError) -> (r: ServiceError)
    ensures
        r == service_error(e),
{
    match e {
        StoreError::NotFound => ServiceError::NotFound,
        StoreError::Backend => ServiceError::StoreError,
        StoreError::PoolExhausted => ServiceError::PoolExhausted,
    }
}

pub open spec fn status_of_error(e: ServiceError) -> u16 {
    match e {
        ServiceError::InvalidIdentifier => 400,
        ServiceError::NotFound => 404,
        ServiceError::StoreError => 502,
        ServiceError::PoolExhausted => 503,
        ServiceError::ValidationError => 400,
    }
}

impl ServiceError {
    /// The HTTP status that reports the failure.
    pub fn status(&self) -> (r: u16)
        ensures
            r == status_of_error(*self),
    {
        match self {
            ServiceError::InvalidIdentifier => 400,
            ServiceError::NotFound => 404,
            ServiceError::StoreError => 502,
            ServiceError::PoolExhausted => 503,
            ServiceError::ValidationError => 400,
        }
    }
}

/// The identifier named by a request path, or `InvalidIdentifier`.
pub fn identifier_of(wire: &str) -> (r: Result<StorageId, ServiceError>)
    ensures
        r matches Ok(id) ==> parsed_identifier(wire@) == Ok::<StorageId, CodecError>(id),
        r matches Err(e) ==> e == ServiceError::InvalidIdentifier && parsed_identifier(wire@) is Err,
        r is Ok <==> parsed_identifier(wire@) is Ok,
{
    match parse_identifier(wire) {
        Ok(id) => Ok(id),
        Err(_) => Err(ServiceError::InvalidIdentifier),
    }
}

pub open spec fn views_of_tweets(s: Seq<Tweet>) -> Seq<TweetView> {
    s.map_values(|t: Tweet| t@)
}

pub open spec fn wire_tweets(rows: Seq<TweetDB>) -> Seq<TweetView> {
    rows.map_values(|t: TweetDB| t.wire())
}

/// Each record is at least as new as the one after it.
pub open spec fn newest_first(s: Seq<TweetView>) -> bool {
    forall|i: int| 0 <= i < s.len() - 1 ==> (#[trigger] s[i]).created_at.millis >= s[i + 1].created_at.millis
}

pub open spec fn min(a: int, b: int) -> int {
    if a <= b { a } else { b }
}

/// What a listing shows of the rows the store returned: the first `total` of them.
pub open spec fn listing(rows: Seq<TweetDB>, total: int) -> Seq<TweetView> {
    wire_tweets(rows).take(min(total, rows.len() as int))
}

fn rows_newest_first(rows: &Vec<TweetDB>) -> (r: bool)
    ensures
        r == newest_first(wire_tweets(rows@)),
{
    let mut i: usize = 1;
    while i < rows.len()
        invariant
            1 <= i,
            forall|j: int| 0 <= j < i - 1 && j + 1 < rows@.len() ==> (#[trigger] rows@[j]).created_at.millis >= rows@[j + 1].created_at.millis,
        decreases rows.len() - i,
    {
        if rows[i - 1].created_at.millis < rows[i].created_at.millis {
            assert(wire_tweets(rows@)[i - 1].created_at.millis < wire_tweets(rows@)[i as int].created_at.millis);
            return false;
        }
        i = i + 1;
    }
    assert forall|j: int| 0 <= j < wire_tweets(rows@).len() - 1 implies
        (#[trigger] wire_tweets(rows@)[j]).created_at.millis >= wire_tweets(rows@)[j + 1].created_at.millis by {
        assert(rows@[j].created_at.millis >= rows@[j + 1].created_at.millis);
    }
    true
}

/// The records of a listing, from what the record store's ordered, capped
/// query returned. A failed query lists nothing, unless no connection could be
/// leased, which fails the request. Rows that are not newest first mean the
/// store broke its ordering, which fails the request as a store error.
#[verifier::loop_isolation(false)]
pub fn list_tweets(rows: Result<Vec<TweetDB>, StoreError>, total_tweets: usize) -> (r: Result<Tweets, ServiceError>)
    ensures
        rows == Err::<Vec<TweetDB>, StoreError>(StoreError::PoolExhausted) <==> r == Err::<Tweets, ServiceError>(ServiceError::PoolExhausted),
        rows matches Ok(v) ==> (newest_first(wire_tweets(v@)) ==> (r matches Ok(l)
            && views_of_tweets(l.results@) == listing(v@, total_tweets as int))),
        rows matches Ok(v) ==> (!newest_first(wire_tweets(v@)) ==> r == Err::<Tweets, ServiceError>(ServiceError::StoreError)),
        rows matches Err(e) ==> (e != StoreError::PoolExhausted ==> (r matches Ok(l) && l.results@.len() == 0)),
        r matches Ok(l) ==> l.results@.len() <= total_tweets && newest_first(views_of_tweets(l.results@)),
{
    match rows {
        Err(StoreError::PoolExhausted) => Err(ServiceError::PoolExhausted),
        Err(_) => {
            let l = Response::new();
            assert(views_of_tweets(l.results@) =~= Seq::empty());
            Ok(l)
        },
        Ok(rows) => {
            let mut results: Vec<Tweet> = Vec::new();
            if !rows_newest_first(&rows) {
                return Err(ServiceError::StoreError);
            }
            {
                let n: usize = if total_tweets < rows.len() { total_tweets } else { rows.len() };
                let mut i: usize = 0;
                while i < n
                    invariant
                        n <= rows@.len(),
                        n == min(total_tweets as int, rows@.len() as int),
                        i <= n,
                        views_of_tweets(results@) =~= wire_tweets(rows@).take(i as int),
                    decreases n - i,
                {
                    let t = rows[i].to_tweet();
                    results.push(t);
                    i = i + 1;
                    assert(views_of_tweets(results@) =~= wire_tweets(rows@).take(i as int));
                }
            }
            assert(views_of_tweets(results@) =~= listing(rows@, total_tweets as int));
            Ok(Response { results })
        },
    }
}

/// The position of the first row with identifier `id`.
pub open spec fn first_with_id(rows: Seq<TweetDB>, id: StorageId, k: int) -> bool {
    &&& 0 <= k < rows.len()
    &&& rows[k].id == id
    &&& forall|j: int| 0 <= j < k ==> (#[trigger] rows[j]).id != id
}

/// The record with identifier `id`, from the rows that the store's lookup
/// returned: the first row that carries the identifier, `NotFound` if none does.
/// The record's identifier text parses back to `id`.
#[verifier::loop_isolation(false)]
pub fn find_tweet(id: StorageId, rows: Result<Vec<TweetDB>, StoreError>) -> (r: Result<Tweet, ServiceError>)
    ensures
        rows matches Err(e) ==> r == Err::<Tweet, ServiceError>(service_error(e)),
        rows matches Ok(v) ==> (r is Err <==> forall|k: int| 0 <= k < v@.len() ==> (#[trigger] v@[k]).id != id),
        rows matches Ok(v) && r is Err ==> r == Err::<Tweet, ServiceError>(ServiceError::NotFound),
        r matches Ok(t) ==> rows matches Ok(v) && exists|k: int| first_with_id(v@, id, k) && t@ == (#[trigger] v@[k]).wire(),
        r matches Ok(t) ==> parsed_identifier(t.id@) == Ok::<StorageId, CodecError>(id),
{
    match rows {
        Err(e) => Err(from_store_error(e)),
        Ok(v) => {
            let mut i: usize = 0;
            while i < v.len()
                invariant
                    forall|j: int| 0 <= j < i ==> (#[trigger] v@[j]).id != id,
                decreases v.len() - i,
            {
                if v[i].id == id {
                    let t = v[i].to_tweet();
                    assert(first_with_id(v@, id, i as int));
                    return Ok(t);
                }
                i = i + 1;
            }
            Err(ServiceError::NotFound)
        },
    }
}

/// The record just created, once the store has confirmed the insert of `tweet_db`.
/// A failed insert fails the request.
pub fn create_tweet(tweet_db: TweetDB, inserted: Result<usize, StoreError>) -> (r: Result<Tweet, ServiceError>)
    ensures
        inserted matches Err(e) ==> r == Err::<Tweet, ServiceError>(service_error(e)),
        inserted is Ok ==> (r matches Ok(t) && t@ == tweet_db.wire()
            && parsed_identifier(t.id@) == Ok::<StorageId, CodecError>(tweet_db.id)),
{
    match inserted {
        Ok(_) => Ok(tweet_db.to_tweet()),
        Err(e) => Err(from_store_error(e)),
    }
}

pub open spec fn delete_outcome(deleted: Result<usize, StoreError>) -> Result<(), ServiceError> {
    match deleted {
        Ok(_) => Ok(()),
        Err(e) => Err(service_error(e)),
    }
}

/// The outcome of a delete, from the number of rows the store deleted.
/// Deleting no rows is no error.
pub fn delete_tweet(deleted: Result<usize, StoreError>) -> (r: Result<(), ServiceError>)
    ensures
        r == delete_outcome(deleted),
{
    match deleted {
        Ok(_) => Ok(()),
        Err(e) => Err(from_store_error(e)),
    }
}

/// A new record from a creation request; a request without a message is invalid.
pub fn tweet_from_request(req: &TweetRequest) -> (r: Result<Tweet, ServiceError>)
    ensures
        req.message is None <==> r == Err::<Tweet, ServiceError>(ServiceError::ValidationError),
        req.message is Some <==> r is Ok,
        r matches Ok(t) ==> {
            &&& t.message@ == req.message->Some_0@
            &&& parsed_identifier(t.id@) matches Ok(id) && crate::codec::is_random_uuid(id.value)
                && t.id@ == crate::codec::uuid_text(id.value)
            &&& t.created_at.wf()
            &&& t.likes@.len() == 0
        },
{
    match req.to_tweet() {
        Some(t) => Ok(t),
        None => Err(ServiceError::ValidationError),
    }
}

/// The wire forms of annotation rows, in the same order.
pub fn likes_from_rows(rows: &Vec<LikeDB>) -> (r: Vec<Like>)
    ensures
        views_of_likes(r@) == wire_likes(rows@),
{
    let mut r: Vec<Like> = Vec::new();
    let mut i: usize = 0;
    while i < rows.len()
        invariant
            i <= rows@.len(),
            r@.len() == i,
            views_of_likes(r@) =~= wire_likes(rows@).take(i as int),
        decreases rows.len() - i,
    {
        let l = rows[i].to_like();
        r.push(l);
        assert(views_of_likes(r@)[i as int] == wire_likes(rows@)[i as int]);
        i = i + 1;
        assert(views_of_likes(r@) =~= wire_likes(rows@).take(i as int));
    }
    assert(wire_likes(rows@).take(rows@.len() as int) =~= wire_likes(rows@));
    r
}

/// The record with the annotations that the annotation store returned for it.
pub open spec fn enriched(t: TweetView, likes: Seq<LikeDB>) -> TweetView {
    TweetView { likes: wire_likes(likes), ..t }
}

/// `tweet` with the annotations that the annotation store returned for it; a
/// failed annotation lookup fails the request.
pub fn enrich_one(tweet: &Tweet, likes: Result<Vec<LikeDB>, StoreError>) -> (r: Result<Tweet, ServiceError>)
    ensures
        likes matches Err(e) ==> r == Err::<Tweet, ServiceError>(service_error(e)),
        likes matches Ok(v) ==> r matches Ok(t) && t@ == enriched(tweet@, v@),
{
    match likes {
        Ok(v) => Ok(tweet.add_likes(likes_from_rows(&v))),
        Err(e) => Err(from_store_error(e)),
    }
}

/// The first failed lookup is at `k`.
pub open spec fn first_failure(likes: Seq<Result<Vec<LikeDB>, StoreError>>, k: int) -> bool {
    &&& 0 <= k < likes.len()
    &&& likes[k] is Err
    &&& forall|j: int| 0 <= j < k ==> (#[trigger] likes[j]) is Ok
}

/// Each record of `tweets` with the annotations looked up for it (`likes[i]`
/// for `tweets[i]`), in the order of `tweets`. The first failed lookup fails
/// the request.
pub fn enrich_many(tweets: &Vec<Tweet>, likes: Vec<Result<Vec<LikeDB>, StoreError>>) -> (r: Result<Vec<Tweet>, ServiceError>)
    requires
        tweets@.len() == likes@.len(),
    ensures
        r is Ok <==> forall|k: int| 0 <= k < likes@.len() ==> (#[trigger] likes@[k]) is Ok,
        r matches Ok(v) ==> v@.len() == tweets@.len() && forall|i: int| 0 <= i < v@.len() ==>
            (#[trigger] v@[i])@ == enriched(tweets@[i]@, likes@[i]->Ok_0@),
        r matches Err(e) ==> exists|k: int| first_failure(likes@, k)
            && e == service_error((#[trigger] likes@[k])->Err_0),
{
    let mut out: Vec<Tweet> = Vec::new();
    let mut i: usize = 0;
    while i < tweets.len()
        invariant
            tweets@.len() == likes@.len(),
            i <= tweets@.len(),
            out@.len() == i,
            forall|j: int| 0 <= j < i ==> (#[trigger] likes@[j]) is Ok,
            forall|j: int| 0 <= j < i ==> (#[trigger] out@[j])@ == enriched(tweets@[j]@, likes@[j]->Ok_0@),
        decreases tweets.len() - i,
    {
        match &likes[i] {
            Ok(v) => {
                out.push(tweets[i].add_likes(likes_from_rows(v)));
            },
            Err(e) => {
                assert(first_failure(likes@, i as int));
                return Err(from_store_error(*e));
            },
        }
        i = i + 1;
    }
    Ok(out)
}

/// What a request gets back.
#[derive(Debug)]
pub enum Reply {
    /// 200 with an envelope of records.
    Listed(Tweets),
    /// 200 with an envelope holding the one record found.
    Found(Tweets),
    /// 201 with an envelope holding the created record.
    Created(Tweets),
    /// 204 with an empty body.
    NoContent,
    /// The failure's status, with its kind and no backend detail.
    Failed(ServiceError),
}

pub open spec fn status_of_reply(r: Reply) -> u16 {
    match r {
        Reply::Listed(_) => 200,
        Reply::Found(_) => 200,
        Reply::Created(_) => 201,
        Reply::NoContent => 204,
        Reply::Failed(e) => status_of_error(e),
    }
}

impl Reply {
    /// The HTTP status of the reply.
    pub fn status(&self) -> (r: u16)
        ensures
            r == status_of_reply(*self),
    {
        match self {
            Reply::Listed(_) => 200,
            Reply::Found(_) => 200,
            Reply::Created(_) => 201,
            Reply::NoContent => 204,
            Reply::Failed(e) => e.status(),
        }
    }
}

/// The reply to a listing: the enriched records in an envelope.
pub fn list_reply(outcome: Result<Vec<Tweet>, ServiceError>) -> (r: Reply)
    ensures
        outcome matches Ok(v) ==> r matches Reply::Listed(l) && l.results@ == v@,
        outcome matches Err(e) ==> r == Reply::Failed(e),
{
    match outcome {
        Ok(v) => Reply::Listed(Response { results: v }),
        Err(e) => Reply::Failed(e),
    }
}

/// The reply to a lookup by identifier.
pub fn get_reply(outcome: Result<Tweet, ServiceError>) -> (r: Reply)
    ensures
        outcome matches Ok(t) ==> (r matches Reply::Found(l) && l.results@ == seq![t]),
        outcome matches Err(e) ==> r == Reply::Failed(e),
{
    match outcome {
        Ok(t) => Reply::Found(Response { results: vec![t] }),
        Err(e) => Reply::Failed(e),
    }
}

/// The reply to a creation request.
pub fn create_reply(outcome: Result<Tweet, ServiceError>) -> (r: Reply)
    ensures
        outcome matches Ok(t) ==> (r matches Reply::Created(l) && l.results@ == seq![t]),
        outcome matches Err(e) ==> r == Reply::Failed(e),
{
    match outcome {
        Ok(t) => Reply::Created(Response { results: vec![t] }),
        Err(e) => Reply::Failed(e),
    }
}

pub open spec fn delete_reply_of(outcome: Result<(), ServiceError>) -> Reply {
    match outcome {
        Err(ServiceError::InvalidIdentifier) => Reply::Failed(ServiceError::InvalidIdentifier),
        Err(ServiceError::PoolExhausted) => Reply::Failed(ServiceError::PoolExhausted),
        _ => Reply::NoContent,
    }
}

/// The reply to a delete: 204 whether or not a row was deleted, and whatever
/// the backend said; only a malformed identifier or an exhausted pool fails it.
pub fn delete_reply(outcome: Result<(), ServiceError>) -> (r: Reply)
    ensures
        r == delete_reply_of(outcome),
{
    match outcome {
        Err(ServiceError::InvalidIdentifier) => Reply::Failed(ServiceError::InvalidIdentifier),
        Err(ServiceError::PoolExhausted) => Reply::Failed(ServiceError::PoolExhausted),
        _ => Reply::NoContent,
    }
}

/// Deleting answers 204 whether or not a row carried the identifier, and
/// whatever the backend reported, unless no connection could be leased.
pub proof fn lemma_delete_answers_no_content(deleted: Result<usize, StoreError>)
    requires
        deleted != Err::<usize, StoreError>(StoreError::PoolExhausted),
    ensures
        delete_reply_of(delete_outcome(deleted)) == Reply::NoContent,
        status_of_reply(delete_reply_of(delete_outcome(deleted))) == 204,
{
}

/// The records of a listing, each with the annotations looked up for it.
pub open spec fn enrich_all(listed: Seq<TweetView>, likes: Seq<Seq<LikeDB>>) -> Seq<TweetView> {
    Seq::new(listed.len(), |i: int| enriched(listed[i], likes[i]))
}

/// A listing, which is made only of rows in newest-first order, holds at most
/// `LIST_LIMIT` records, newest first, and attaching annotations to its
/// records keeps both.
pub proof fn lemma_listing_capped_newest_first(rows: Seq<TweetDB>, likes: Seq<Seq<LikeDB>>)
    requires
        newest_first(wire_tweets(rows)),
        likes.len() == listing(rows, LIST_LIMIT as int).len(),
    ensures
        listing(rows, LIST_LIMIT as int).len() <= LIST_LIMIT,
        newest_first(listing(rows, LIST_LIMIT as int)),
        enrich_all(listing(rows, LIST_LIMIT as int), likes).len() <= LIST_LIMIT,
        newest_first(enrich_all(listing(rows, LIST_LIMIT as int), likes)),
{
    let l = listing(rows, LIST_LIMIT as int);
    let e = enrich_all(l, likes);
    assert forall|i: int| 0 <= i < e.len() - 1 implies (#[trigger] e[i]).created_at.millis >= e[i + 1].created_at.millis by {
        assert(e[i].created_at == l[i].created_at);
        assert(e[i + 1].created_at == l[i + 1].created_at);
        assert(l[i] == wire_tweets(rows)[i]);
    }
}

} // verus!
