//! The Subscriber: identifier resolution and webhook registration for
//! one transport session.
//!
//! The REST calls themselves are collaborators of the surrounding
//! program; this module holds the decisions between them: which row of
//! a channel search names the streamer, which reward carries the
//! configured title, and what the registration payload must say.

use vstd::prelude::*;
use vstd::string::StringExecFns;

use crate::log::StatusLog;

verus! {

/// Why one Subscriber invocation failed.
#[derive(Clone, Debug)]
pub enum SubscribeError {
    /// The channel search returned no row for the streamer.
    BroadcasterNotFound,
    /// None of the channel's rewards carries the configured title.
    RewardNotFound,
    /// The registration call itself failed; the detail is the
    /// transport's own wording, kept for the transcript.
    Registration { detail: String },
}

impl SubscribeError {
    /// Both resolution failures are the `NotFound` outcome of the
    /// identifier-resolution collaborator.
    pub open spec fn is_not_found(&self) -> bool {
        self is BroadcasterNotFound || self is RewardNotFound
    }

    pub open spec fn message_spec(&self) -> Seq<char> {
        match self {
            SubscribeError::BroadcasterNotFound => "oh no, no id found"@,
            SubscribeError::RewardNotFound => "reward not found"@,
            SubscribeError::Registration { detail } => detail@,
        }
    }

    /// The line the transcript gets when this failure is logged.
    pub fn message(&self) -> (r: String)
        ensures
            r@ == self.message_spec(),
    {
        match self {
            SubscribeError::BroadcasterNotFound => "oh no, no id found".to_owned(),
            SubscribeError::RewardNotFound => "reward not found".to_owned(),
            SubscribeError::Registration { detail } => detail.clone(),
        }
    }
}

/// One row of the channel search, reduced to the fields the relay reads.
#[derive(Clone, Debug)]
pub struct ChannelHit {
    pub broadcaster_login: String,
    pub id: String,
}

/// One custom reward of the channel, reduced to the fields the relay reads.
#[derive(Clone, Debug)]
pub struct RewardHit {
    pub title: String,
    pub id: String,
}

pub open spec fn channel_matches(hit: ChannelHit, login: Seq<char>) -> bool {
    hit.broadcaster_login@ == login
}

pub open spec fn some_channel_matches(hits: Seq<ChannelHit>, login: Seq<char>) -> bool {
    exists|i: int| 0 <= i < hits.len() && #[trigger] channel_matches(hits[i], login)
}

pub open spec fn reward_matches(hit: RewardHit, title: Seq<char>) -> bool {
    hit.title@ == title
}

pub open spec fn some_reward_matches(hits: Seq<RewardHit>, title: Seq<char>) -> bool {
    exists|i: int| 0 <= i < hits.len() && #[trigger] reward_matches(hits[i], title)
}

/// Picks the broadcaster id out of a channel search: the id of the
/// first row whose login is exactly the streamer's, `NotFound` when no
/// row matches.
pub fn resolve_broadcaster(hits: &Vec<ChannelHit>, streamer: &String) -> (r: Result<
    String,
    SubscribeError,
>)
    ensures
        r is Ok <==> some_channel_matches(hits@, streamer@),
        r matches Ok(id) ==> exists|i: int|
            0 <= i < hits@.len() && #[trigger] channel_matches(hits@[i], streamer@) && id@
                == hits@[i].id@ && (forall|j: int|
                0 <= j < i ==> !channel_matches(hits@[j], streamer@)),
        r matches Err(e) ==> e is BroadcasterNotFound,
{
    let mut k: usize = 0;
    while k < hits.len()
        invariant
            k <= hits@.len(),
            forall|j: int| 0 <= j < k ==> !channel_matches(hits@[j], streamer@),
        decreases hits@.len() - k,
    {
        if hits[k].broadcaster_login == *streamer {
            proof {
                assert(channel_matches(hits@[k as int], streamer@));
            }
            return Ok(hits[k].id.clone());
        }
        k += 1;
    }
    proof {
        assert(forall|i: int| 0 <= i < hits@.len() ==> !channel_matches(hits@[i], streamer@));
    }
    Err(SubscribeError::BroadcasterNotFound)
}

/// Picks the reward id out of the channel's reward listing: the id of
/// the first reward whose title is exactly the configured one,
/// `NotFound` when no reward matches.
pub fn resolve_reward(hits: &Vec<RewardHit>, reward_title: &String) -> (r: Result<
    String,
    SubscribeError,
>)
    ensures
        r is Ok <==> some_reward_matches(hits@, reward_title@),
        r matches Ok(id) ==> exists|i: int|
            0 <= i < hits@.len() && #[trigger] reward_matches(hits@[i], reward_title@) && id@
                == hits@[i].id@ && (forall|j: int|
                0 <= j < i ==> !reward_matches(hits@[j], reward_title@)),
        r matches Err(e) ==> e is RewardNotFound,
{
    let mut k: usize = 0;
    while k < hits.len()
        invariant
            k <= hits@.len(),
            forall|j: int| 0 <= j < k ==> !reward_matches(hits@[j], reward_title@),
        decreases hits@.len() - k,
    {
        if hits[k].title == *reward_title {
            proof {
                assert(reward_matches(hits@[k as int], reward_title@));
            }
            return Ok(hits[k].id.clone());
        }
        k += 1;
    }
    proof {
        assert(forall|i: int| 0 <= i < hits@.len() ==> !reward_matches(hits@[i], reward_title@));
    }
    Err(SubscribeError::RewardNotFound)
}

/// The registration payload for one redemption webhook, as the
/// subscription endpoint expects it.
#[derive(Clone, Debug)]
pub struct SubscriptionRequest {
    pub kind: String,
    pub version: String,
    pub broadcaster_user_id: String,
    pub reward_id: String,
    pub method: String,
    pub session_id: String,
}

/// Builds the registration payload for `(broadcaster, reward, session)`:
/// a version-1 redemption subscription delivered over the websocket
/// session.
pub fn build_subscription_request(
    session_id: String,
    broadcaster_id: String,
    reward_id: String,
) -> (r: SubscriptionRequest)
    ensures
        r.kind@ == "channel.channel_points_custom_reward_redemption.add"@,
        r.version@ == "1"@,
        r.method@ == "websocket"@,
        r.broadcaster_user_id@ == broadcaster_id@,
        r.reward_id@ == reward_id@,
        r.session_id@ == session_id@,
{
    SubscriptionRequest {
        kind: "channel.channel_points_custom_reward_redemption.add".to_owned(),
        version: "1".to_owned(),
        method: "websocket".to_owned(),
        broadcaster_user_id: broadcaster_id,
        reward_id,
        session_id,
    }
}

/// The transcript entry that records the two resolved identifiers.
pub open spec fn found_ids_text(broadcaster_id: Seq<char>, reward_id: Seq<char>) -> Seq<char> {
    "Found all required ids:\n Broadcaster:\n  "@ + broadcaster_id + "\n Reward:\n  "@ + reward_id
}

pub fn found_ids_line(broadcaster_id: &String, reward_id: &String) -> (r: String)
    ensures
        r@ == found_ids_text(broadcaster_id@, reward_id@),
{
    let mut s = "Found all required ids:\n Broadcaster:\n  ".to_owned();
    s.append(broadcaster_id.as_str());
    s.append("\n Reward:\n  ");
    s.append(reward_id.as_str());
    s
}

/// One Subscriber invocation, taken up after the identifier resolution
/// has answered.  On resolved identifiers it records them in the
/// transcript and yields the registration payload for the session; a
/// resolution failure is passed through unchanged, nothing is written
/// and nothing is registered.
pub fn subscribe(
    output: &mut StatusLog,
    session_id: String,
    ids: Result<(String, String), SubscribeError>,
) -> (r: Result<SubscriptionRequest, SubscribeError>)
    ensures
        r is Ok <==> ids is Ok,
        ids matches Err(e) ==> r == Err::<SubscriptionRequest, SubscribeError>(e)
            && final(output)@ == old(output)@,
        ids matches Ok(p) ==> ({
            let req = r->Ok_0;
            &&& req.kind@ == "channel.channel_points_custom_reward_redemption.add"@
            &&& req.version@ == "1"@
            &&& req.method@ == "websocket"@
            &&& req.broadcaster_user_id@ == p.0@
            &&& req.reward_id@ == p.1@
            &&& req.session_id@ == session_id@
            &&& final(output)@ == old(output)@.push(found_ids_text(p.0@, p.1@))
        }),
{
    match ids {
        Ok(p) => {
            let line = found_ids_line(&p.0, &p.1);
            output.append(line);
            Ok(build_subscription_request(session_id, p.0, p.1))
        },
        Err(e) => Err(e),
    }
}

} // verus!
