//! Stream metadata.

use vstd::prelude::*;
use vstd::string::StringExecFns;

verus! {

/// Channel information as Helix reports it, held as plain values.
#[derive(Debug, PartialEq, Eq)]
pub struct ChannelInfo {
    pub broadcaster_id: String,
    pub broadcaster_login: String,
    pub broadcaster_name: String,
    pub game_id: String,
    pub game_name: String,
    pub broadcaster_language: String,
    pub title: String,
    pub description: String,
    pub delay: i64,
    pub tags: Vec<String>,
    pub content_classification_labels: Vec<String>,
    pub is_branded_content: bool,
}


/// A copy of a list of strings.
fn copy_strings(v: &Vec<String>) -> (res: Vec<String>)
    ensures
        res@ == v@,
{
    let res = v.clone();
    proof {
        assert forall|i: int| 0 <= i < res@.len() implies res@[i] == v@[i] by {
            assert(vstd::pervasive::cloned::<String>(v[i], res[i]));
        }
        assert(res@ =~= v@);
    }
    res
}

impl Clone for ChannelInfo {
    fn clone(&self) -> (res: Self)
        ensures
            res.broadcaster_id == self.broadcaster_id,
            res.broadcaster_login == self.broadcaster_login,
            res.broadcaster_name == self.broadcaster_name,
            res.game_id == self.game_id,
            res.game_name == self.game_name,
            res.broadcaster_language == self.broadcaster_language,
            res.title == self.title,
            res.description == self.description,
            res.delay == self.delay,
            res.tags@ == self.tags@,
            res.content_classification_labels@ == self.content_classification_labels@,
            res.is_branded_content == self.is_branded_content,
    {
        ChannelInfo {
            broadcaster_id: self.broadcaster_id.clone(),
            broadcaster_login: self.broadcaster_login.clone(),
            broadcaster_name: self.broadcaster_name.clone(),
            game_id: self.game_id.clone(),
            game_name: self.game_name.clone(),
            broadcaster_language: self.broadcaster_language.clone(),
            title: self.title.clone(),
            description: self.description.clone(),
            delay: self.delay,
            tags: copy_strings(&self.tags),
            content_classification_labels: copy_strings(&self.content_classification_labels),
            is_branded_content: self.is_branded_content,
        }
    }
}

/// The part of the channel information the stream-info pane shows.
#[derive(Debug)]
pub struct PartialChannelInformation {
    pub title: String,
    pub description: String,
    pub game: String,
}

impl From<ChannelInfo> for PartialChannelInformation {
    fn from(value: ChannelInfo) -> (res: Self) {
        PartialChannelInformation {
            title: value.title,
            description: value.description,
            game: value.game_name,
        }
    }
}

impl vstd::std_specs::convert::FromSpecImpl<ChannelInfo> for PartialChannelInformation {
    open spec fn obeys_from_spec() -> bool {
        true
    }

    open spec fn from_spec(v: ChannelInfo) -> Self {
        PartialChannelInformation { title: v.title, description: v.description, game: v.game_name }
    }
}

/// The stream-info pane.
pub struct Metadata {
    pub data: ChannelInfo,
}

impl Metadata {
    /// The pane's title.
    pub fn name(&self) -> (title: String)
        ensures
            title@ == "Stream info"@,
    {
        String::from_str("Stream info")
    }

    /// The part of the channel information the pane shows.
    pub fn summary(&self) -> (res: PartialChannelInformation)
        ensures
            res.title == self.data.title,
            res.description == self.data.description,
            res.game == self.data.game_name,
    {
        PartialChannelInformation::from(self.data.clone())
    }
}

} // verus!
