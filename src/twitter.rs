use vstd::prelude::*;
use vstd::utf8::encode_utf8;
use vstd::slice::slice_to_vec;
use crate::address::{
    Address, byte_len, find_program_address, found_at, found_bump, found_view, program_address_of,
};

verus! {

/// Longest topic, in UTF-8 bytes.
pub const TOPIC_LENGTH: usize = 32;

/// Longest tweet body, in UTF-8 bytes.
pub const CONTENT_LENGTH: usize = 500;

/// Longest comment, in UTF-8 bytes.
pub const COMMENT_LENGTH: usize = 500;

#[derive(Clone, Copy, Debug, PartialEq, Eq, Structural)]
pub enum TwitterError {
    TopicTooLong,
    ContentTooLong,
    CommentTooLong,
    MinLikesReached,
    MinDislikesReached,
    NotReactionAuthor,
    AddressMismatch,
}

#[derive(Clone, Copy, Debug, PartialEq, Eq, Structural)]
pub enum ReactionType {
    Like,
    Dislike,
}

#[derive(Clone, Debug)]
pub struct Tweet {
    pub tweet_author: Address,
    pub topic: String,
    pub content: String,
    pub likes: u64,
    pub dislikes: u64,
    pub bump: u8,
}

#[derive(Clone, Debug)]
pub struct Comment {
    pub comment_author: Address,
    pub parent_tweet: Address,
    pub content: String,
    pub bump: u8,
}

#[derive(Clone, Copy, Debug)]
pub struct Reaction {
    pub reaction_author: Address,
    pub parent_tweet: Address,
    pub reaction: ReactionType,
    pub bump: u8,
}

/// The accounts of a new tweet: its author, the address of the record, and
/// the record to fill.
#[derive(Clone, Debug)]
pub struct InitializeTweet {
    pub tweet_authority: Address,
    pub tweet_key: Address,
    pub tweet: Tweet,
}

/// The accounts of a new comment: its author, the address of the record, the
/// record to fill, and the commented tweet's address.
#[derive(Clone, Debug)]
pub struct AddCommentContext {
    pub comment_author: Address,
    pub comment_key: Address,
    pub comment: Comment,
    pub tweet: Address,
}

/// The accounts of a reaction's removal: its author, the reaction, and the
/// tweet whose counter goes down.
#[derive(Clone, Debug)]
pub struct RemoveReactionContext {
    pub reaction_author: Address,
    pub tweet_reaction: Reaction,
    pub tweet: Tweet,
}

pub open spec fn tweet_error(ctx: InitializeTweet, topic: Seq<char>, content: Seq<char>, program_id: Seq<u8>) -> Option<
    TwitterError,
> {
    if byte_len(topic) > TOPIC_LENGTH {
        Some(TwitterError::TopicTooLong)
    } else if byte_len(content) > CONTENT_LENGTH {
        Some(TwitterError::ContentTooLong)
    } else if !found_at(program_address_of(tweet_seeds(topic, ctx.tweet_authority@), program_id), ctx.tweet_key@) {
        Some(TwitterError::AddressMismatch)
    } else {
        None
    }
}

/// Fills a new tweet record with zero likes and dislikes, once topic and body
/// are within their length limits and the record sits at the address derived
/// from topic and author, whose bump it keeps.
pub fn initialize_tweet(ctx: &mut InitializeTweet, topic: String, content: String, program_id: &Address) -> (r: Result<
    (),
    TwitterError,
>)
    requires
        byte_len(topic@) <= usize::MAX,
        byte_len(content@) <= usize::MAX,
    ensures
        match tweet_error(*old(ctx), topic@, content@, program_id@) {
            Some(e) => r == Err::<(), TwitterError>(e) && *final(ctx) == *old(ctx),
            None => {
                &&& r is Ok
                &&& final(ctx).tweet_authority == old(ctx).tweet_authority
                &&& final(ctx).tweet_key == old(ctx).tweet_key
                &&& final(ctx).tweet.tweet_author == old(ctx).tweet_authority
                &&& final(ctx).tweet.topic@ == topic@
                &&& final(ctx).tweet.content@ == content@
                &&& final(ctx).tweet.likes == 0
                &&& final(ctx).tweet.dislikes == 0
                &&& final(ctx).tweet.bump == found_bump(
                    program_address_of(tweet_seeds(topic@, old(ctx).tweet_authority@), program_id@),
                )
            },
        },
{
    if topic.as_str().len() > TOPIC_LENGTH {
        return Err(TwitterError::TopicTooLong);
    }
    if content.as_str().len() > CONTENT_LENGTH {
        return Err(TwitterError::ContentTooLong);
    }
    let bump = match find_tweet_address(&topic, &ctx.tweet_authority, program_id) {
        Some((a, b)) => {
            if !a.same_as(&ctx.tweet_key) {
                return Err(TwitterError::AddressMismatch);
            }
            b
        },
        None => {
            return Err(TwitterError::AddressMismatch);
        },
    };
    ctx.tweet.tweet_author = ctx.tweet_authority;
    ctx.tweet.topic = topic;
    ctx.tweet.content = content;
    ctx.tweet.likes = 0;
    ctx.tweet.dislikes = 0;
    ctx.tweet.bump = bump;
    Ok(())
}

pub open spec fn comment_error(ctx: AddCommentContext, content: Seq<char>, program_id: Seq<u8>) -> Option<
    TwitterError,
> {
    if byte_len(content) > COMMENT_LENGTH {
        Some(TwitterError::CommentTooLong)
    } else if !found_at(
        program_address_of(comment_seeds(ctx.comment_author@, content, ctx.tweet@), program_id),
        ctx.comment_key@,
    ) {
        Some(TwitterError::AddressMismatch)
    } else {
        None
    }
}

/// Fills a new comment record on a tweet, once the comment is within its
/// length limit and the record sits at the address derived from author, text
/// digest and tweet, whose bump it keeps.
pub fn add_comment(ctx: &mut AddCommentContext, comment_content: String, program_id: &Address) -> (r: Result<
    (),
    TwitterError,
>)
    requires
        byte_len(comment_content@) <= usize::MAX,
    ensures
        match comment_error(*old(ctx), comment_content@, program_id@) {
            Some(e) => r == Err::<(), TwitterError>(e) && *final(ctx) == *old(ctx),
            None => {
                &&& r is Ok
                &&& final(ctx).comment_author == old(ctx).comment_author
                &&& final(ctx).comment_key == old(ctx).comment_key
                &&& final(ctx).tweet == old(ctx).tweet
                &&& final(ctx).comment.content@ == comment_content@
                &&& final(ctx).comment.comment_author == old(ctx).comment_author
                &&& final(ctx).comment.parent_tweet == old(ctx).tweet
                &&& final(ctx).comment.bump == found_bump(
                    program_address_of(
                        comment_seeds(old(ctx).comment_author@, comment_content@, old(ctx).tweet@),
                        program_id@,
                    ),
                )
            },
        },
{
    if comment_content.as_str().len() > COMMENT_LENGTH {
        return Err(TwitterError::CommentTooLong);
    }
    let bump = match find_comment_address(&ctx.comment_author, &comment_content, &ctx.tweet, program_id) {
        Some((a, b)) => {
            if !a.same_as(&ctx.comment_key) {
                return Err(TwitterError::AddressMismatch);
            }
            b
        },
        None => {
            return Err(TwitterError::AddressMismatch);
        },
    };
    ctx.comment.content = comment_content;
    ctx.comment.comment_author = ctx.comment_author;
    ctx.comment.parent_tweet = ctx.tweet;
    ctx.comment.bump = bump;
    Ok(())
}

pub open spec fn remove_reaction_error(ctx: RemoveReactionContext) -> Option<TwitterError> {
    if ctx.tweet_reaction.reaction_author@ != ctx.reaction_author@ {
        Some(TwitterError::NotReactionAuthor)
    } else {
        match ctx.tweet_reaction.reaction {
            ReactionType::Like => if ctx.tweet.likes == 0 {
                Some(TwitterError::MinLikesReached)
            } else {
                None
            },
            ReactionType::Dislike => if ctx.tweet.dislikes == 0 {
                Some(TwitterError::MinDislikesReached)
            } else {
                None
            },
        }
    }
}

/// Takes a reaction back, for its own author only: the tweet's matching
/// counter goes down by one, and never below zero.
pub fn remove_reaction(ctx: &mut RemoveReactionContext) -> (r: Result<(), TwitterError>)
    ensures
        match remove_reaction_error(*old(ctx)) {
            Some(e) => r == Err::<(), TwitterError>(e) && *final(ctx) == *old(ctx),
            None => {
                &&& r is Ok
                &&& final(ctx).reaction_author == old(ctx).reaction_author
                &&& final(ctx).tweet_reaction == old(ctx).tweet_reaction
                &&& final(ctx).tweet.tweet_author == old(ctx).tweet.tweet_author
                &&& final(ctx).tweet.topic == old(ctx).tweet.topic
                &&& final(ctx).tweet.content == old(ctx).tweet.content
                &&& final(ctx).tweet.bump == old(ctx).tweet.bump
                &&& match old(ctx).tweet_reaction.reaction {
                    ReactionType::Like => final(ctx).tweet.likes == old(ctx).tweet.likes - 1
                        && final(ctx).tweet.dislikes == old(ctx).tweet.dislikes,
                    ReactionType::Dislike => final(ctx).tweet.dislikes == old(ctx).tweet.dislikes - 1
                        && final(ctx).tweet.likes == old(ctx).tweet.likes,
                }
            },
        },
{
    if !ctx.tweet_reaction.reaction_author.same_as(&ctx.reaction_author) {
        return Err(TwitterError::NotReactionAuthor);
    }
    match ctx.tweet_reaction.reaction {
        ReactionType::Like => {
            match ctx.tweet.likes.checked_sub(1) {
                Some(n) => ctx.tweet.likes = n,
                None => return Err(TwitterError::MinLikesReached),
            }
        },
        ReactionType::Dislike => {
            match ctx.tweet.dislikes.checked_sub(1) {
                Some(n) => ctx.tweet.dislikes = n,
                None => return Err(TwitterError::MinDislikesReached),
            }
        },
    }
    Ok(())
}

/// The SHA-256 digest of `data`.
pub uninterp spec fn sha256_of(data: Seq<u8>) -> Seq<u8>;

/// Relies on `solana_program::hash::hash`: the SHA-256 digest of the bytes,
/// which depends on them alone.
#[verifier::external_body]
fn sha256(data: &[u8]) -> (r: [u8; 32])
    ensures
        r@ == sha256_of(data@),
{
    anchor_lang::solana_program::hash::hash(data).to_bytes()
}

/// The bytes of "TWEET_SEED".
pub open spec fn tweet_seed() -> Seq<u8> {
    seq![84u8, 87u8, 69u8, 69u8, 84u8, 95u8, 83u8, 69u8, 69u8, 68u8]
}

/// The bytes of "COMMENT_SEED".
pub open spec fn comment_seed() -> Seq<u8> {
    seq![67u8, 79u8, 77u8, 77u8, 69u8, 78u8, 84u8, 95u8, 83u8, 69u8, 69u8, 68u8]
}

/// The bytes of "TWEET_REACTION_SEED".
pub open spec fn reaction_seed() -> Seq<u8> {
    seq![84u8, 87u8, 69u8, 69u8, 84u8, 95u8, 82u8, 69u8, 65u8, 67u8, 84u8, 73u8, 79u8, 78u8, 95u8, 83u8, 69u8, 69u8, 68u8]
}

/// A tweet's record lives at an address derived from its topic, the tweet tag
/// and its author.
pub open spec fn tweet_seeds(topic: Seq<char>, author: Seq<u8>) -> Seq<Seq<u8>> {
    seq![encode_utf8(topic), tweet_seed(), author]
}

/// A comment's record lives at an address derived from the comment tag, its
/// author, the digest of its text and the tweet it answers.
pub open spec fn comment_seeds(author: Seq<u8>, content: Seq<char>, tweet: Seq<u8>) -> Seq<Seq<u8>> {
    seq![comment_seed(), author, sha256_of(encode_utf8(content)), tweet]
}

/// A reaction's record lives at an address derived from the reaction tag, its
/// author and the tweet it is about.
pub open spec fn reaction_seeds(author: Seq<u8>, tweet: Seq<u8>) -> Seq<Seq<u8>> {
    seq![reaction_seed(), author, tweet]
}

pub fn find_tweet_address(topic: &String, tweet_authority: &Address, program_id: &Address) -> (r: Option<(Address, u8)>)
    ensures
        found_view(r) == program_address_of(tweet_seeds(topic@, tweet_authority@), program_id@),
{
    let tag: Vec<u8> = vec![84u8, 87u8, 69u8, 69u8, 84u8, 95u8, 83u8, 69u8, 69u8, 68u8];
    assert(tag@ =~= tweet_seed());
    let mut seeds: Vec<Vec<u8>> = Vec::new();
    seeds.push(slice_to_vec(topic.as_str().as_bytes()));
    seeds.push(tag);
    seeds.push(tweet_authority.to_vec());
    assert(seeds@[0].deep_view() =~= encode_utf8(topic@));
    assert(seeds@[1].deep_view() =~= tweet_seed());
    assert(seeds@[2].deep_view() =~= tweet_authority@);
    assert(seeds.deep_view() =~= tweet_seeds(topic@, tweet_authority@));
    find_program_address(&seeds, program_id)
}

pub fn find_comment_address(
    comment_author: &Address,
    comment_content: &String,
    tweet: &Address,
    program_id: &Address,
) -> (r: Option<(Address, u8)>)
    ensures
        found_view(r) == program_address_of(
            comment_seeds(comment_author@, comment_content@, tweet@),
            program_id@,
        ),
{
    let tag: Vec<u8> = vec![67u8, 79u8, 77u8, 77u8, 69u8, 78u8, 84u8, 95u8, 83u8, 69u8, 69u8, 68u8];
    assert(tag@ =~= comment_seed());
    let digest = Address::new(sha256(comment_content.as_str().as_bytes()));
    let mut seeds: Vec<Vec<u8>> = Vec::new();
    seeds.push(tag);
    seeds.push(comment_author.to_vec());
    seeds.push(digest.to_vec());
    seeds.push(tweet.to_vec());
    assert(seeds@[0].deep_view() =~= comment_seed());
    assert(seeds@[1].deep_view() =~= comment_author@);
    assert(seeds@[2].deep_view() =~= sha256_of(encode_utf8(comment_content@)));
    assert(seeds@[3].deep_view() =~= tweet@);
    assert(seeds.deep_view() =~= comment_seeds(comment_author@, comment_content@, tweet@));
    find_program_address(&seeds, program_id)
}

pub fn find_reaction_address(reaction_author: &Address, tweet: &Address, program_id: &Address) -> (r: Option<(Address, u8)>)
    ensures
        found_view(r) == program_address_of(reaction_seeds(reaction_author@, tweet@), program_id@),
{
    let tag: Vec<u8> = vec![
        84u8, 87u8, 69u8, 69u8, 84u8, 95u8, 82u8, 69u8, 65u8, 67u8, 84u8, 73u8, 79u8, 78u8, 95u8, 83u8, 69u8, 69u8, 68u8,
    ];
    assert(tag@ =~= reaction_seed());
    let mut seeds: Vec<Vec<u8>> = Vec::new();
    seeds.push(tag);
    seeds.push(reaction_author.to_vec());
    seeds.push(tweet.to_vec());
    assert(seeds@[0].deep_view() =~= reaction_seed());
    assert(seeds@[1].deep_view() =~= reaction_author@);
    assert(seeds@[2].deep_view() =~= tweet@);
    assert(seeds.deep_view() =~= reaction_seeds(reaction_author@, tweet@));
    find_program_address(&seeds, program_id)
}

} // verus!
