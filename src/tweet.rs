//! Records and their annotations, in wire form and in storage form.
use vstd::prelude::*;
use crate::codec::{is_random_uuid, mint_identifier, now, parsed_identifier, uuid_text, StorageId, Timestamp};
use crate::response::Response;

verus! {

/// An annotation (a like) in wire form.
#[derive(Debug)]
pub struct Like {
    pub id: String,
    pub tweet_id: String,
    pub created_at: Timestamp,
}

pub struct LikeView {
    pub id: Seq<char>,
    pub tweet_id: Seq<char>,
    pub created_at: Timestamp,
}

impl View for Like {
    type V = LikeView;

    open spec fn view(&self) -> LikeView {
        LikeView { id: self.id@, tweet_id: self.tweet_id@, created_at: self.created_at }
    }
}

/// An annotation as the annotation store holds it, keyed by its record's identifier.
#[derive(Debug)]
pub struct LikeDB {
    pub id: StorageId,
    pub tweet_id: StorageId,
    pub created_at: Timestamp,
}

impl LikeDB {
    pub open spec fn wire(self) -> LikeView {
        LikeView {
            id: uuid_text(self.id.value),
            tweet_id: uuid_text(self.tweet_id.value),
            created_at: self.created_at,
        }
    }

    /// The wire form of the annotation.
    pub fn to_like(&self) -> (r: Like)
        ensures
            r@ == self.wire(),
    {
        Like { id: self.id.to_wire(), tweet_id: self.tweet_id.to_wire(), created_at: self.created_at }
    }
}

/// The wire forms of annotations as the store returned them, in the same order.
pub open spec fn wire_likes(rows: Seq<LikeDB>) -> Seq<LikeView> {
    rows.map_values(|l: LikeDB| l.wire())
}

pub open spec fn views_of_likes(likes: Seq<Like>) -> Seq<LikeView> {
    likes.map_values(|l: Like| l@)
}

/// A record in wire form: its identifier as text and its annotations attached.
#[derive(Debug)]
pub struct Tweet {
    pub id: String,
    pub created_at: Timestamp,
    pub message: String,
    pub likes: Vec<Like>,
}

pub struct TweetView {
    pub id: Seq<char>,
    pub created_at: Timestamp,
    pub message: Seq<char>,
    pub likes: Seq<LikeView>,
}

impl View for Tweet {
    type V = TweetView;

    open spec fn view(&self) -> TweetView {
        TweetView {
            id: self.id@,
            created_at: self.created_at,
            message: self.message@,
            likes: views_of_likes(self.likes@),
        }
    }
}

pub type Tweets = Response<Tweet>;

impl Tweet {
    /// A new record with a fresh identifier, the current time, and no annotations.
    pub fn new(message: String) -> (r: Tweet)
        ensures
            parsed_identifier(r.id@) matches Ok(id) && is_random_uuid(id.value) && r.id@ == uuid_text(id.value),
            r.created_at.wf(),
            r.message@ == message@,
            r.likes@.len() == 0,
    {
        Tweet { id: mint_identifier().to_wire(), created_at: now(), message, likes: Vec::new() }
    }

    /// The storage form of the record. Its identifier is minted afresh and its
    /// time read anew; only the message is carried over.
    pub fn to_tweet_db(&self) -> (r: TweetDB)
        ensures
            is_random_uuid(r.id.value),
            r.message@ == self.message@,
            r.created_at.wf(),
    {
        TweetDB { id: mint_identifier(), created_at: now(), message: self.message.clone() }
    }

    /// The same record with `likes` as its annotations.
    pub fn add_likes(&self, likes: Vec<Like>) -> (r: Tweet)
        ensures
            r@ == (TweetView { likes: views_of_likes(likes@), ..self@ }),
    {
        Tweet {
            id: self.id.clone(),
            created_at: self.created_at,
            message: self.message.clone(),
            likes,
        }
    }
}

/// A record as the record store holds it.
#[derive(Debug)]
pub struct TweetDB {
    pub id: StorageId,
    pub created_at: Timestamp,
    pub message: String,
}

impl TweetDB {
    /// The wire form of a stored record, before annotations are attached.
    pub open spec fn wire(self) -> TweetView {
        TweetView {
            id: uuid_text(self.id.value),
            created_at: self.created_at,
            message: self.message@,
            likes: Seq::empty(),
        }
    }

    /// The wire form of the record, with no annotations. Its identifier text
    /// parses back to the stored identifier.
    pub fn to_tweet(&self) -> (r: Tweet)
        ensures
            r@ == self.wire(),
            parsed_identifier(r.id@) == Ok::<StorageId, crate::codec::CodecError>(self.id),
    {
        let likes: Vec<Like> = Vec::new();
        let r = Tweet {
            id: self.id.to_wire(),
            created_at: self.created_at,
            message: self.message.clone(),
            likes,
        };
        assert(views_of_likes(r.likes@) =~= Seq::empty());
        r
    }
}

/// A creation request; the message may be missing.
#[derive(Debug)]
pub struct TweetRequest {
    pub message: Option<String>,
}

impl TweetRequest {
    /// A new record carrying the request's message, or `None` if it has none.
    pub fn to_tweet(&self) -> (r: Option<Tweet>)
        ensures
            r is Some <==> self.message is Some,
            r matches Some(t) ==> {
                &&& t.message@ == self.message->Some_0@
                &&& parsed_identifier(t.id@) matches Ok(id) && is_random_uuid(id.value) && t.id@ == uuid_text(id.value)
                &&& t.created_at.wf()
                &&& t.likes@.len() == 0
            },
    {
        match &self.message {
            Some(message) => Some(Tweet::new(message.clone())),
            None => None,
        }
    }
}

} // verus!
