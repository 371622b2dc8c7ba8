//! Runtime settings for the relay.

use vstd::prelude::*;

verus! {

/// Identity of the streamer, the reward that triggers a toggle cycle,
/// the command to toggle, and the credentials the REST calls need.
#[derive(Clone, Debug)]
pub struct Config {
    pub client_id: String,
    pub streamer: String,
    pub user_access_token: String,
    pub reward_title: String,
    pub jwt: String,
    pub command_name: String,
}

impl Default for Config {
    fn default() -> (c: Config)
        ensures
            c.client_id@ == ""@,
            c.streamer@ == "chobo"@,
            c.user_access_token@ == ""@,
            c.reward_title@ == "5 Minute Fishing Trip"@,
            c.jwt@ == ""@,
            c.command_name@ == "fishinge"@,
    {
        Config {
            client_id: "".to_owned(),
            streamer: "chobo".to_owned(),
            user_access_token: "".to_owned(),
            reward_title: "5 Minute Fishing Trip".to_owned(),
            jwt: "".to_owned(),
            command_name: "fishinge".to_owned(),
        }
    }
}

impl Config {
    /// A configuration with every credential blank and the default
    /// streamer, reward and command filled in.
    pub fn empty() -> (c: Config)
        ensures
            c.client_id@ == ""@,
            c.streamer@ == "chobo"@,
            c.user_access_token@ == ""@,
            c.reward_title@ == "5 Minute Fishing Trip"@,
            c.jwt@ == ""@,
            c.command_name@ == "fishinge"@,
    {
        Default::default()
    }

    pub fn client_id(&self) -> (r: &str)
        ensures
            r@ == self.client_id@,
    {
        self.client_id.as_str()
    }

    pub fn streamer(&self) -> (r: &str)
        ensures
            r@ == self.streamer@,
    {
        self.streamer.as_str()
    }

    pub fn user_access_token(&self) -> (r: &str)
        ensures
            r@ == self.user_access_token@,
    {
        self.user_access_token.as_str()
    }

    pub fn reward_title(&self) -> (r: &str)
        ensures
            r@ == self.reward_title@,
    {
        self.reward_title.as_str()
    }

    pub fn jwt(&self) -> (r: &str)
        ensures
            r@ == self.jwt@,
    {
        self.jwt.as_str()
    }

    pub fn command_name(&self) -> (r: &str)
        ensures
            r@ == self.command_name@,
    {
        self.command_name.as_str()
    }
}

} // verus!
