use tweet_service::codec::{parse_identifier, StorageId, Timestamp};
use tweet_service::service::{
    create_reply, create_tweet, delete_reply, delete_tweet, enrich_many, enrich_one, find_tweet,
    from_store_error, get_reply, identifier_of, list_reply, list_tweets, tweet_from_request,
    Reply, ServiceError, StoreError, LIST_LIMIT,
};
use tweet_service::tweet::{LikeDB, Tweet, TweetDB, TweetRequest};

fn row(value: u128, millis: i64, message: &str) -> TweetDB {
    TweetDB {
        id: StorageId { value },
        created_at: Timestamp { millis },
        message: message.to_string(),
    }
}

fn like_row(value: u128, tweet: u128) -> LikeDB {
    LikeDB {
        id: StorageId { value },
        tweet_id: StorageId { value: tweet },
        created_at: Timestamp { millis: 1000 },
    }
}

#[test]
fn create_hello_answers_created_with_empty_likes() {
    let req = TweetRequest { message: Some("hello".to_string()) };
    let tweet = tweet_from_request(&req).unwrap();
    let db = tweet.to_tweet_db();
    let stored_id = db.id;
    let reply = create_reply(create_tweet(db, Ok(1)));
    assert_eq!(reply.status(), 201);
    match reply {
        Reply::Created(l) => {
            assert_eq!(l.results.len(), 1);
            let t = &l.results[0];
            assert_eq!(t.id.len(), 36);
            assert_eq!(parse_identifier(&t.id), Ok(stored_id));
            assert_eq!(t.message, "hello");
            assert!(t.likes.is_empty());
        }
        _ => panic!("expected a created record"),
    }
}

#[test]
fn create_without_message_is_a_validation_error() {
    let req = TweetRequest { message: None };
    let outcome = tweet_from_request(&req);
    assert!(matches!(outcome, Err(ServiceError::ValidationError)));
    assert_eq!(create_reply(outcome).status(), 400);
}

#[test]
fn create_with_failed_insert_reports_the_store_error() {
    let db = row(1, 0, "lost");
    let outcome = create_tweet(db, Err(StoreError::Backend));
    assert!(matches!(outcome, Err(ServiceError::StoreError)));
    assert_eq!(create_reply(outcome).status(), 502);
}

#[test]
fn get_of_missing_identifier_is_not_found() {
    let id = identifier_of("550e8400-e29b-41d4-a716-446655440000").unwrap();
    let outcome = find_tweet(id, Ok(vec![]));
    assert!(matches!(outcome, Err(ServiceError::NotFound)));
    assert_eq!(get_reply(outcome).status(), 404);
}

#[test]
fn get_of_malformed_identifier_is_invalid_identifier() {
    let outcome = identifier_of("not-a-uuid");
    assert_eq!(outcome, Err(ServiceError::InvalidIdentifier));
    assert_eq!(ServiceError::InvalidIdentifier.status(), 400);
}

#[test]
fn get_returns_the_row_with_the_identifier() {
    let id = StorageId { value: 42 };
    let rows = vec![row(41, 5, "other"), row(42, 4, "mine"), row(42, 3, "later copy")];
    let t = find_tweet(id, Ok(rows)).unwrap();
    assert_eq!(t.message, "mine");
    assert_eq!(parse_identifier(&t.id), Ok(id));
    let enriched = enrich_one(&t, Ok(vec![like_row(1, 42), like_row(2, 42)])).unwrap();
    assert_eq!(enriched.likes.len(), 2);
    assert_eq!(enriched.likes[0].id, "00000000-0000-0000-0000-000000000001");
    assert_eq!(enriched.likes[1].id, "00000000-0000-0000-0000-000000000002");
    assert_eq!(get_reply(Ok(enriched)).status(), 200);
}

#[test]
fn get_with_store_failure_is_a_store_error() {
    let outcome = find_tweet(StorageId { value: 1 }, Err(StoreError::Backend));
    assert!(matches!(outcome, Err(ServiceError::StoreError)));
    assert_eq!(get_reply(outcome).status(), 502);
}

#[test]
fn enrich_one_failure_is_a_store_error() {
    let t = row(3, 0, "m").to_tweet();
    assert!(matches!(enrich_one(&t, Err(StoreError::Backend)), Err(ServiceError::StoreError)));
}

#[test]
fn listing_is_capped_and_newest_first() {
    let rows: Vec<TweetDB> = (0..60).map(|i| row(i as u128, 1000 - i, "m")).collect();
    let listed = list_tweets(Ok(rows), LIST_LIMIT).unwrap();
    assert_eq!(listed.results.len(), 50);
    for w in listed.results.windows(2) {
        assert!(w[0].created_at.millis >= w[1].created_at.millis);
    }
    assert_eq!(listed.results[0].id, "00000000-0000-0000-0000-000000000000");
}

#[test]
fn listing_keeps_equal_timestamps() {
    let rows = vec![row(1, 7, "a"), row(2, 7, "b")];
    let listed = list_tweets(Ok(rows), LIST_LIMIT).unwrap();
    assert_eq!(listed.results.len(), 2);
    assert_eq!(listed.results[0].message, "a");
    assert_eq!(listed.results[1].message, "b");
}

#[test]
fn listing_out_of_order_rows_is_a_store_error() {
    let rows = vec![row(1, 1, "old"), row(2, 2, "new")];
    let listed = list_tweets(Ok(rows), LIST_LIMIT);
    assert!(matches!(listed, Err(ServiceError::StoreError)));
    assert_eq!(list_reply(listed.map(|l| l.results)).status(), 502);
}

#[test]
fn get_reply_wraps_the_record_in_an_envelope() {
    let t = row(5, 1, "one").to_tweet();
    let id = t.id.clone();
    match get_reply(Ok(t)) {
        Reply::Found(l) => {
            assert_eq!(l.results.len(), 1);
            assert_eq!(l.results[0].id, id);
        }
        _ => panic!("expected a found record"),
    }
}

#[test]
fn listing_store_failure_lists_nothing() {
    let listed = list_tweets(Err(StoreError::Backend), LIST_LIMIT).unwrap();
    assert!(listed.results.is_empty());
    assert_eq!(list_reply(Ok(listed.results)).status(), 200);
}

#[test]
fn pool_exhaustion_fails_each_operation() {
    let listed = list_tweets(Err(StoreError::PoolExhausted), LIST_LIMIT);
    assert!(matches!(listed, Err(ServiceError::PoolExhausted)));
    let found = find_tweet(StorageId { value: 1 }, Err(StoreError::PoolExhausted));
    assert_eq!(get_reply(found).status(), 503);
    let created = create_tweet(row(1, 0, "m"), Err(StoreError::PoolExhausted));
    assert_eq!(create_reply(created).status(), 503);
    assert_eq!(delete_reply(delete_tweet(Err(StoreError::PoolExhausted))).status(), 503);
    let t = row(2, 0, "m").to_tweet();
    assert!(matches!(enrich_one(&t, Err(StoreError::PoolExhausted)), Err(ServiceError::PoolExhausted)));
}

#[test]
fn delete_of_missing_identifier_answers_no_content() {
    let outcome = delete_tweet(Ok(0));
    assert_eq!(outcome, Ok(()));
    let reply = delete_reply(outcome);
    assert!(matches!(reply, Reply::NoContent));
    assert_eq!(reply.status(), 204);
}

#[test]
fn delete_ignores_backend_failure_but_not_bad_identifiers() {
    assert_eq!(delete_reply(delete_tweet(Err(StoreError::Backend))).status(), 204);
    assert_eq!(delete_reply(delete_tweet(Ok(3))).status(), 204);
    let bad = identifier_of("nope").map(|_| ());
    assert_eq!(delete_reply(bad).status(), 400);
}

#[test]
fn enrich_many_preserves_order() {
    let tweets: Vec<Tweet> = vec![row(1, 9, "r1").to_tweet(), row(2, 8, "r2").to_tweet()];
    let likes = vec![Ok(vec![like_row(10, 1)]), Ok(vec![])];
    let out = enrich_many(&tweets, likes).unwrap();
    let ids: Vec<String> = out.iter().map(|t| t.id.clone()).collect();
    assert_eq!(ids, vec![tweets[0].id.clone(), tweets[1].id.clone()]);
    assert_eq!(out[0].likes.len(), 1);
    assert_eq!(out[0].likes[0].tweet_id, tweets[0].id);
    assert!(out[1].likes.is_empty());
}

#[test]
fn enrich_many_fails_on_first_failed_lookup() {
    let tweets: Vec<Tweet> = vec![
        row(1, 9, "r1").to_tweet(),
        row(2, 8, "r2").to_tweet(),
        row(3, 7, "r3").to_tweet(),
    ];
    let likes = vec![Ok(vec![]), Err(StoreError::Backend), Err(StoreError::PoolExhausted)];
    assert!(matches!(enrich_many(&tweets, likes), Err(ServiceError::StoreError)));
    let empty: Vec<Tweet> = vec![];
    assert!(enrich_many(&empty, vec![]).unwrap().is_empty());
}

#[test]
fn error_statuses() {
    assert_eq!(ServiceError::InvalidIdentifier.status(), 400);
    assert_eq!(ServiceError::NotFound.status(), 404);
    assert_eq!(ServiceError::StoreError.status(), 502);
    assert_eq!(ServiceError::PoolExhausted.status(), 503);
    assert_eq!(ServiceError::ValidationError.status(), 400);
    assert_eq!(from_store_error(StoreError::NotFound), ServiceError::NotFound);
    assert_eq!(from_store_error(StoreError::Backend), ServiceError::StoreError);
    assert_eq!(Reply::NoContent.status(), 204);
}
