//! Post chat messages to Slack.
//!
//! For more information, see [Slack's API documentation](https://api.slack.com/methods).
use vstd::prelude::*;

use super::{
    ApiRequest,
    choice_pair,
    no_params,
    push_opt_choice,
    push_opt_text,
    push_text,
    request,
    text_pair,
};
use crate::json::{read_member, member, DecodeError, FromJson, Json, decodable, DecodeFailure, member_text};

verus! {

/// Deletes a message.
///
/// Wraps https://api.slack.com/methods/chat.delete
pub fn delete(token: &str, ts: &str, channel: &str) -> (r: ApiRequest)
    ensures
        r.method@ == "chat.delete"@,
        r.token@ == token@,
        r.pairs() == seq![("ts"@, ts@)] + seq![("channel"@, channel@)],
{
    let mut params = no_params();
    push_text(&mut params, "ts", ts);
    push_text(&mut params, "channel", channel);
    let r = request("chat.delete", token, params);
    assert(r.pairs() =~= seq![("ts"@, ts@)] + seq![("channel"@, channel@)]);
    r
}

#[derive(Clone, Debug)]
pub struct DeleteResponse {
    pub channel: String,
    pub ts: String,
}

impl FromJson for DeleteResponse {
    open spec fn decoded_from(&self, j: Json) -> bool {
        &&& j is Object
        &&& self.channel.decoded_from(member(j, "channel"@))
        &&& self.ts.decoded_from(member(j, "ts"@))
    }

    open spec fn failure(j: Json) -> DecodeFailure {
        if !(j is Object) {
            DecodeFailure::Malformed
        } else if !decodable::<String>(member(j, "channel"@)) {
            <String as FromJson>::failure(member(j, "channel"@))
        } else if !decodable::<String>(member(j, "ts"@)) {
            <String as FromJson>::failure(member(j, "ts"@))
        } else {
            DecodeFailure::Malformed
        }
    }

    fn from_json(j: &Json) -> (r: Result<Self, DecodeError>) {
        if !j.is_object() {
            return Err(DecodeError::Malformed);
        }
        let channel = read_member::<String>(j, "channel")?;
        let ts = read_member::<String>(j, "ts")?;
        Ok(DeleteResponse { channel, ts })
    }
}

/// A `DeleteResponse` read out of a JSON value: the value is an object and each field
/// holds the member of the same name (`null` for an absent optional one).
pub proof fn lemma_delete_response_members(j: Json, x: DeleteResponse)
    requires
        x.decoded_from(j),
    ensures
        j is Object,
        member_text(j, "channel"@) == Some(x.channel@),
        member_text(j, "ts"@) == Some(x.ts@),
{
}

/// Sends a message to a channel.
///
/// Wraps https://api.slack.com/methods/chat.postMessage
pub fn post_message(
    token: &str,
    channel: &str,
    text: &str,
    username: Option<&str>,
    as_user: Option<bool>,
    parse: Option<&str>,
    link_names: Option<bool>,
    attachments: Option<&str>,
    unfurl_links: Option<bool>,
    unfurl_media: Option<bool>,
    icon_url: Option<&str>,
    icon_emoji: Option<&str>,
) -> (r: ApiRequest)
    ensures
        r.method@ == "chat.postMessage"@,
        r.token@ == token@,
        r.pairs() == seq![("channel"@, channel@)]
            + seq![("text"@, text@)]
            + text_pair("username"@, username)
            + choice_pair("as_user"@, as_user, "true"@, "false"@)
            + text_pair("parse"@, parse)
            + choice_pair("link_names"@, link_names, "1"@, "0"@)
            + text_pair("attachments"@, attachments)
            + choice_pair("unfurl_links"@, unfurl_links, "true"@, "false"@)
            + choice_pair("unfurl_media"@, unfurl_media, "true"@, "false"@)
            + text_pair("icon_url"@, icon_url)
            + text_pair("icon_emoji"@, icon_emoji),
{
    let mut params = no_params();
    push_text(&mut params, "channel", channel);
    push_text(&mut params, "text", text);
    push_opt_text(&mut params, "username", username);
    push_opt_choice(&mut params, "as_user", as_user, "true", "false");
    push_opt_text(&mut params, "parse", parse);
    push_opt_choice(&mut params, "link_names", link_names, "1", "0");
    push_opt_text(&mut params, "attachments", attachments);
    push_opt_choice(&mut params, "unfurl_links", unfurl_links, "true", "false");
    push_opt_choice(&mut params, "unfurl_media", unfurl_media, "true", "false");
    push_opt_text(&mut params, "icon_url", icon_url);
    push_opt_text(&mut params, "icon_emoji", icon_emoji);
    let r = request("chat.postMessage", token, params);
    assert(r.pairs() =~= seq![("channel"@, channel@)]
        + seq![("text"@, text@)]
        + text_pair("username"@, username)
        + choice_pair("as_user"@, as_user, "true"@, "false"@)
        + text_pair("parse"@, parse)
        + choice_pair("link_names"@, link_names, "1"@, "0"@)
        + text_pair("attachments"@, attachments)
        + choice_pair("unfurl_links"@, unfurl_links, "true"@, "false"@)
        + choice_pair("unfurl_media"@, unfurl_media, "true"@, "false"@)
        + text_pair("icon_url"@, icon_url)
        + text_pair("icon_emoji"@, icon_emoji));
    r
}

#[derive(Debug)]
pub struct PostMessageResponse {
    pub ts: String,
    pub channel: String,
    pub message: super::Message,
}

impl FromJson for PostMessageResponse {
    open spec fn decoded_from(&self, j: Json) -> bool {
        &&& j is Object
        &&& self.ts.decoded_from(member(j, "ts"@))
        &&& self.channel.decoded_from(member(j, "channel"@))
        &&& self.message.decoded_from(member(j, "message"@))
    }

    open spec fn failure(j: Json) -> DecodeFailure {
        if !(j is Object) {
            DecodeFailure::Malformed
        } else if !decodable::<String>(member(j, "ts"@)) {
            <String as FromJson>::failure(member(j, "ts"@))
        } else if !decodable::<String>(member(j, "channel"@)) {
            <String as FromJson>::failure(member(j, "channel"@))
        } else if !decodable::<super::Message>(member(j, "message"@)) {
            <super::Message as FromJson>::failure(member(j, "message"@))
        } else {
            DecodeFailure::Malformed
        }
    }

    fn from_json(j: &Json) -> (r: Result<Self, DecodeError>) {
        if !j.is_object() {
            return Err(DecodeError::Malformed);
        }
        let ts = read_member::<String>(j, "ts")?;
        let channel = read_member::<String>(j, "channel")?;
        let message = read_member::<super::Message>(j, "message")?;
        Ok(PostMessageResponse { ts, channel, message })
    }
}

/// A `PostMessageResponse` read out of a JSON value: the value is an object and each field
/// holds the member of the same name (`null` for an absent optional one).
pub proof fn lemma_post_message_response_members(j: Json, x: PostMessageResponse)
    requires
        x.decoded_from(j),
    ensures
        j is Object,
        member_text(j, "ts"@) == Some(x.ts@),
        member_text(j, "channel"@) == Some(x.channel@),
        x.message.decoded_from(member(j, "message"@)),
{
}

/// Updates a message.
///
/// Wraps https://api.slack.com/methods/chat.update
pub fn update(
    token: &str,
    ts: &str,
    channel: &str,
    text: &str,
    attachments: Option<&str>,
    parse: Option<&str>,
    link_names: Option<bool>,
) -> (r: ApiRequest)
    ensures
        r.method@ == "chat.update"@,
        r.token@ == token@,
        r.pairs() == seq![("ts"@, ts@)]
            + seq![("channel"@, channel@)]
            + seq![("text"@, text@)]
            + text_pair("attachments"@, attachments)
            + text_pair("parse"@, parse)
            + choice_pair("link_names"@, link_names, "1"@, "0"@),
{
    let mut params = no_params();
    push_text(&mut params, "ts", ts);
    push_text(&mut params, "channel", channel);
    push_text(&mut params, "text", text);
    push_opt_text(&mut params, "attachments", attachments);
    push_opt_text(&mut params, "parse", parse);
    push_opt_choice(&mut params, "link_names", link_names, "1", "0");
    let r = request("chat.update", token, params);
    assert(r.pairs() =~= seq![("ts"@, ts@)]
        + seq![("channel"@, channel@)]
        + seq![("text"@, text@)]
        + text_pair("attachments"@, attachments)
        + text_pair("parse"@, parse)
        + choice_pair("link_names"@, link_names, "1"@, "0"@));
    r
}

#[derive(Clone, Debug)]
pub struct UpdateResponse {
    pub channel: String,
    pub ts: String,
    pub text: String,
}

impl FromJson for UpdateResponse {
    open spec fn decoded_from(&self, j: Json) -> bool {
        &&& j is Object
        &&& self.channel.decoded_from(member(j, "channel"@))
        &&& self.ts.decoded_from(member(j, "ts"@))
        &&& self.text.decoded_from(member(j, "text"@))
    }

    open spec fn failure(j: Json) -> DecodeFailure {
        if !(j is Object) {
            DecodeFailure::Malformed
        } else if !decodable::<String>(member(j, "channel"@)) {
            <String as FromJson>::failure(member(j, "channel"@))
        } else if !decodable::<String>(member(j, "ts"@)) {
            <String as FromJson>::failure(member(j, "ts"@))
        } else if !decodable::<String>(member(j, "text"@)) {
            <String as FromJson>::failure(member(j, "text"@))
        } else {
            DecodeFailure::Malformed
        }
    }

    fn from_json(j: &Json) -> (r: Result<Self, DecodeError>) {
        if !j.is_object() {
            return Err(DecodeError::Malformed);
        }
        let channel = read_member::<String>(j, "channel")?;
        let ts = read_member::<String>(j, "ts")?;
        let text = read_member::<String>(j, "text")?;
        Ok(UpdateResponse { channel, ts, text })
    }
}

/// A `UpdateResponse` read out of a JSON value: the value is an object and each field
/// holds the member of the same name (`null` for an absent optional one).
pub proof fn lemma_update_response_members(j: Json, x: UpdateResponse)
    requires
        x.decoded_from(j),
    ensures
        j is Object,
        member_text(j, "channel"@) == Some(x.channel@),
        member_text(j, "ts"@) == Some(x.ts@),
        member_text(j, "text"@) == Some(x.text@),
{
}

} // verus!
