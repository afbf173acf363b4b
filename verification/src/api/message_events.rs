use vstd::prelude::*;

use crate::json::{find_member, read_member, member, str_eq, DecodeError, FromJson, Json, decodable, DecodeFailure, lemma_present_decreases, present, member_text};
use crate::string_map::StringMap;

verus! {

/// The metadata of an edited [`Message`](https://api.slack.com/events/message).
#[derive(Clone, Debug)]
pub struct EditedMessageData {
    pub user: String,
    pub ts: String,
}

impl FromJson for EditedMessageData {
    open spec fn decoded_from(&self, j: Json) -> bool {
        &&& j is Object
        &&& self.user.decoded_from(member(j, "user"@))
        &&& self.ts.decoded_from(member(j, "ts"@))
    }

    open spec fn failure(j: Json) -> DecodeFailure {
        if !(j is Object) {
            DecodeFailure::Malformed
        } else if !decodable::<String>(member(j, "user"@)) {
            <String as FromJson>::failure(member(j, "user"@))
        } else if !decodable::<String>(member(j, "ts"@)) {
            <String as FromJson>::failure(member(j, "ts"@))
        } else {
            DecodeFailure::Malformed
        }
    }

    fn from_json(j: &Json) -> (r: Result<Self, DecodeError>) {
        if !j.is_object() {
            return Err(DecodeError::Malformed);
        }
        let user = read_member::<String>(j, "user")?;
        let ts = read_member::<String>(j, "ts")?;
        Ok(EditedMessageData { user, ts })
    }
}

/// A `EditedMessageData` read out of a JSON value: the value is an object and each field
/// holds the member of the same name (`null` for an absent optional one).
pub proof fn lemma_edited_message_data_members(j: Json, x: EditedMessageData)
    requires
        x.decoded_from(j),
    ensures
        j is Object,
        member_text(j, "user"@) == Some(x.user@),
        member_text(j, "ts"@) == Some(x.ts@),
{
}

/// Represents Slack [message event](https://api.slack.com/events/message) types.
#[derive(Debug)]
pub enum Message {
    /// The Slack [`Message`](https://api.slack.com/events/message) event that represents a message
    /// to a channel, group or im.
    Standard {
        ts: String,
        channel: Option<String>,
        user: Option<String>,
        text: Option<String>,
        is_starred: Option<bool>,
        pinned_to: Option<Vec<String>>,
        reactions: Option<Vec<super::Reaction>>,
        edited: Option<EditedMessageData>,
        attachments: Option<Vec<super::Attachment>>,
    },
    /// Wraps the [`bot_message`](https://api.slack.com/events/message/bot_message) message event.
    BotMessage {
        ts: String,
        text: String,
        bot_id: String,
        username: Option<String>,
        icons: Option<StringMap>,
    },
    /// Wraps the [`me_message`](https://api.slack.com/events/message/me_message) message event.
    MeMessage {
        channel: String,
        user: String,
        text: String,
        ts: String,
    },
    /// Wraps the [`message_changed`](https://api.slack.com/events/message/message_changed) message
    /// event.
    MessageChanged {
        hidden: bool,
        channel: String,
        ts: String,
        message: Box<Message>,
    },
    /// Wraps the [`message_deleted`](https://api.slack.com/events/message/message_deleted) message
    /// event.
    MessageDeleted {
        hidden: bool,
        channel: String,
        ts: String,
        deleted_ts: String,
    },
    /// Wraps the [`channel_join`](https://api.slack.com/events/message/channel_join) message
    /// event.
    ChannelJoin {
        ts: String,
        user: String,
        text: String,
        inviter: Option<String>,
    },
    /// Wraps the [`channel_leave`](https://api.slack.com/events/message/channel_leave) message
    /// event.
    ChannelLeave {
        ts: String,
        user: String,
        text: String,
    },
    /// Wraps the [`channel_topic`](https://api.slack.com/events/message/channel_topic) message
    /// event.
    ChannelTopic {
        ts: String,
        user: String,
        topic: String,
        text: String,
    },
    /// Wraps the [`channel_purpose`](https://api.slack.com/events/message/channel_purpose) message
    /// event.
    ChannelPurpose {
        ts: String,
        user: String,
        purpose: String,
        text: String,
    },
    /// Wraps the [`channel_name`](https://api.slack.com/events/message/channel_name) message
    /// event.
    ChannelName {
        ts: String,
        user: String,
        old_name: String,
        name: String,
        text: String,
    },
    /// Wraps the [`channel_archive`](https://api.slack.com/events/message/channel_archive) message
    /// event.
    ChannelArchive {
        ts: String,
        text: String,
        user: String,
        members: Vec<String>,
    },
    /// Wraps the [`channel_unarchive`](https://api.slack.com/events/message/channel_unarchive)
    /// message event.
    ChannelUnarchive {
        ts: String,
        text: String,
        user: String,
    },
    /// Wraps the [`group_join`](https://api.slack.com/events/message/group_join) message event.
    GroupJoin {
        ts: String,
        user: String,
        text: String,
        inviter: Option<String>,
    },
    /// Wraps the [`group_leave`](https://api.slack.com/events/message/group_leave) message event.
    GroupLeave {
        ts: String,
        user: String,
        text: String,
    },
    /// Wraps the [`group_topic`](https://api.slack.com/events/message/group_topic) message event.
    GroupTopic {
        ts: String,
        user: String,
        topic: String,
        text: String,
    },
    /// Wraps the [`group_purpose`](https://api.slack.com/events/message/group_purpose) message
    /// event.
    GroupPurpose {
        ts: String,
        user: String,
        purpose: String,
        text: String,
    },
    /// Wraps the [`group_name`](https://api.slack.com/events/message/group_name) message event.
    GroupName {
        ts: String,
        user: String,
        old_name: String,
        name: String,
        text: String,
    },
    /// Wraps the [`group_archive`](https://api.slack.com/events/message/group_archive) message
    /// event.
    GroupArchive {
        ts: String,
        text: String,
        user: String,
        members: Vec<String>,
    },
    /// Wraps the [`group_unarchive`](https://api.slack.com/events/message/group_unarchive)
    /// message event.
    GroupUnarchive {
        ts: String,
        text: String,
        user: String,
    },
    /// Wraps the [`file_share`](https://api.slack.com/events/message/file_share) message event.
    FileShare {
        ts: String,
        text: String,
        file: super::File,
        user: String,
        upload: bool,
    },
    /// Wraps the [`file_comment`](https://api.slack.com/events/message/file_comment) message
    /// event.
    FileComment {
        ts: String,
        text: String,
        file: super::File,
        comment: super::Comment,
    },
    /// Wraps the [`file_mention`](https://api.slack.com/events/message/file_mention) message
    /// event.
    FileMention {
        ts: String,
        text: String,
        file: super::File,
        user: String,
    },
    /// Wraps the [`pinned_item`](https://api.slack.com/events/message/pinned_item) message event.
    PinnedItem {
        user: String,
        item_type: String,
        text: String,
        item: Option<super::Item>,
        channel: String,
        ts: String,
        attachments: Option<Vec<super::Attachment>>,
    },
    /// Wraps the [`unpinned_item`](https://api.slack.com/events/message/unpinned_item) message
    /// event.
    UnpinnedItem {
        user: String,
        item_type: String,
        text: String,
        item: Option<super::Item>,
        channel: String,
        ts: String,
        attachments: Option<Vec<super::Attachment>>,
    },
}

impl Message {
    /// What reading `j` reports when no value is read out of it: `Malformed`
    /// for what is not an object or has no text tag, `Unknown` with the tag
    /// for a tag that names no variant, and else the failure of the first
    /// member of the selected variant that is not read.
    pub open spec fn failure_of(j: Json) -> DecodeFailure
        decreases j, 1nat,
    {
        if !(j is Object) {
            DecodeFailure::Malformed
        } else {
            match member(j, "subtype"@) {
                Json::Null => Self::variant_failure(j, 0),
                Json::Str(t) => if Self::tag_index(t@) == -1 {
                    DecodeFailure::Unknown("Unknown Message type: "@ + t@)
                } else {
                    Self::variant_failure(j, Self::tag_index(t@))
                },
                _ => DecodeFailure::Malformed,
            }
        }
    }

    /// What reading `j` as variant `k` reports: the failure of its first
    /// member, in reading order, that is not read.
    pub open spec fn variant_failure(j: Json, k: int) -> DecodeFailure
        decreases j, 0nat,
    {
        if k == 0 {
            if !decodable::<String>(member(j, "ts"@)) {
                <String as FromJson>::failure(member(j, "ts"@))
            } else if !decodable::<Option<String>>(member(j, "channel"@)) {
                <Option<String> as FromJson>::failure(member(j, "channel"@))
            } else if !decodable::<Option<String>>(member(j, "user"@)) {
                <Option<String> as FromJson>::failure(member(j, "user"@))
            } else if !decodable::<Option<String>>(member(j, "text"@)) {
                <Option<String> as FromJson>::failure(member(j, "text"@))
            } else if !decodable::<Option<bool>>(member(j, "is_starred"@)) {
                <Option<bool> as FromJson>::failure(member(j, "is_starred"@))
            } else if !decodable::<Option<Vec<String>>>(member(j, "pinned_to"@)) {
                <Option<Vec<String>> as FromJson>::failure(member(j, "pinned_to"@))
            } else if !decodable::<Option<Vec<super::Reaction>>>(member(j, "reactions"@)) {
                <Option<Vec<super::Reaction>> as FromJson>::failure(member(j, "reactions"@))
            } else if !decodable::<Option<EditedMessageData>>(member(j, "edited"@)) {
                <Option<EditedMessageData> as FromJson>::failure(member(j, "edited"@))
            } else if !decodable::<Option<Vec<super::Attachment>>>(member(j, "attachments"@)) {
                <Option<Vec<super::Attachment>> as FromJson>::failure(member(j, "attachments"@))
            } else {
                DecodeFailure::Malformed
            }
        } else if k == 1 {
            if !decodable::<String>(member(j, "ts"@)) {
                <String as FromJson>::failure(member(j, "ts"@))
            } else if !decodable::<String>(member(j, "text"@)) {
                <String as FromJson>::failure(member(j, "text"@))
            } else if !decodable::<String>(member(j, "bot_id"@)) {
                <String as FromJson>::failure(member(j, "bot_id"@))
            } else if !decodable::<Option<String>>(member(j, "username"@)) {
                <Option<String> as FromJson>::failure(member(j, "username"@))
            } else if !decodable::<Option<StringMap>>(member(j, "icons"@)) {
                <Option<StringMap> as FromJson>::failure(member(j, "icons"@))
            } else {
                DecodeFailure::Malformed
            }
        } else if k == 2 {
            if !decodable::<String>(member(j, "channel"@)) {
                <String as FromJson>::failure(member(j, "channel"@))
            } else if !decodable::<String>(member(j, "user"@)) {
                <String as FromJson>::failure(member(j, "user"@))
            } else if !decodable::<String>(member(j, "text"@)) {
                <String as FromJson>::failure(member(j, "text"@))
            } else if !decodable::<String>(member(j, "ts"@)) {
                <String as FromJson>::failure(member(j, "ts"@))
            } else {
                DecodeFailure::Malformed
            }
        } else if k == 3 {
            if !decodable::<bool>(member(j, "hidden"@)) {
                <bool as FromJson>::failure(member(j, "hidden"@))
            } else if !decodable::<String>(member(j, "channel"@)) {
                <String as FromJson>::failure(member(j, "channel"@))
            } else if !decodable::<String>(member(j, "ts"@)) {
                <String as FromJson>::failure(member(j, "ts"@))
            } else if !(exists|m: Message| m.matches_json(member(j, "message"@))) {
                match present(j, "message"@) {
                    Some(v) => {
                        proof {
                            lemma_present_decreases(j, "message"@);
                        }
                        Message::failure_of(v)
                    },
                    None => DecodeFailure::Malformed,
                }
            } else {
                DecodeFailure::Malformed
            }
        } else if k == 4 {
            if !decodable::<bool>(member(j, "hidden"@)) {
                <bool as FromJson>::failure(member(j, "hidden"@))
            } else if !decodable::<String>(member(j, "channel"@)) {
                <String as FromJson>::failure(member(j, "channel"@))
            } else if !decodable::<String>(member(j, "ts"@)) {
                <String as FromJson>::failure(member(j, "ts"@))
            } else if !decodable::<String>(member(j, "deleted_ts"@)) {
                <String as FromJson>::failure(member(j, "deleted_ts"@))
            } else {
                DecodeFailure::Malformed
            }
        } else if k == 5 {
            if !decodable::<String>(member(j, "ts"@)) {
                <String as FromJson>::failure(member(j, "ts"@))
            } else if !decodable::<String>(member(j, "user"@)) {
                <String as FromJson>::failure(member(j, "user"@))
            } else if !decodable::<String>(member(j, "text"@)) {
                <String as FromJson>::failure(member(j, "text"@))
            } else if !decodable::<Option<String>>(member(j, "inviter"@)) {
                <Option<String> as FromJson>::failure(member(j, "inviter"@))
            } else {
                DecodeFailure::Malformed
            }
        } else if k == 6 {
            if !decodable::<String>(member(j, "ts"@)) {
                <String as FromJson>::failure(member(j, "ts"@))
            } else if !decodable::<String>(member(j, "user"@)) {
                <String as FromJson>::failure(member(j, "user"@))
            } else if !decodable::<String>(member(j, "text"@)) {
                <String as FromJson>::failure(member(j, "text"@))
            } else {
                DecodeFailure::Malformed
            }
        } else if k == 7 {
            if !decodable::<String>(member(j, "ts"@)) {
                <String as FromJson>::failure(member(j, "ts"@))
            } else if !decodable::<String>(member(j, "user"@)) {
                <String as FromJson>::failure(member(j, "user"@))
            } else if !decodable::<String>(member(j, "topic"@)) {
                <String as FromJson>::failure(member(j, "topic"@))
            } else if !decodable::<String>(member(j, "text"@)) {
                <String as FromJson>::failure(member(j, "text"@))
            } else {
                DecodeFailure::Malformed
            }
        } else if k == 8 {
            if !decodable::<String>(member(j, "ts"@)) {
                <String as FromJson>::failure(member(j, "ts"@))
            } else if !decodable::<String>(member(j, "user"@)) {
                <String as FromJson>::failure(member(j, "user"@))
            } else if !decodable::<String>(member(j, "purpose"@)) {
                <String as FromJson>::failure(member(j, "purpose"@))
            } else if !decodable::<String>(member(j, "text"@)) {
                <String as FromJson>::failure(member(j, "text"@))
            } else {
                DecodeFailure::Malformed
            }
        } else if k == 9 {
            if !decodable::<String>(member(j, "ts"@)) {
                <String as FromJson>::failure(member(j, "ts"@))
            } else if !decodable::<String>(member(j, "user"@)) {
                <String as FromJson>::failure(member(j, "user"@))
            } else if !decodable::<String>(member(j, "old_name"@)) {
                <String as FromJson>::failure(member(j, "old_name"@))
            } else if !decodable::<String>(member(j, "name"@)) {
                <String as FromJson>::failure(member(j, "name"@))
            } else if !decodable::<String>(member(j, "text"@)) {
                <String as FromJson>::failure(member(j, "text"@))
            } else {
                DecodeFailure::Malformed
            }
        } else if k == 10 {
            if !decodable::<String>(member(j, "ts"@)) {
                <String as FromJson>::failure(member(j, "ts"@))
            } else if !decodable::<String>(member(j, "text"@)) {
                <String as FromJson>::failure(member(j, "text"@))
            } else if !decodable::<String>(member(j, "user"@)) {
                <String as FromJson>::failure(member(j, "user"@))
            } else if !decodable::<Vec<String>>(member(j, "members"@)) {
                <Vec<String> as FromJson>::failure(member(j, "members"@))
            } else {
                DecodeFailure::Malformed
            }
        } else if k == 11 {
            if !decodable::<String>(member(j, "ts"@)) {
                <String as FromJson>::failure(member(j, "ts"@))
            } else if !decodable::<String>(member(j, "text"@)) {
                <String as FromJson>::failure(member(j, "text"@))
            } else if !decodable::<String>(member(j, "user"@)) {
                <String as FromJson>::failure(member(j, "user"@))
            } else {
                DecodeFailure::Malformed
            }
        } else if k == 12 {
            if !decodable::<String>(member(j, "ts"@)) {
                <String as FromJson>::failure(member(j, "ts"@))
            } else if !decodable::<String>(member(j, "user"@)) {
                <String as FromJson>::failure(member(j, "user"@))
            } else if !decodable::<String>(member(j, "text"@)) {
                <String as FromJson>::failure(member(j, "text"@))
            } else if !decodable::<Option<String>>(member(j, "inviter"@)) {
                <Option<String> as FromJson>::failure(member(j, "inviter"@))
            } else {
                DecodeFailure::Malformed
            }
        } else if k == 13 {
            if !decodable::<String>(member(j, "ts"@)) {
                <String as FromJson>::failure(member(j, "ts"@))
            } else if !decodable::<String>(member(j, "user"@)) {
                <String as FromJson>::failure(member(j, "user"@))
            } else if !decodable::<String>(member(j, "text"@)) {
                <String as FromJson>::failure(member(j, "text"@))
            } else {
                DecodeFailure::Malformed
            }
        } else if k == 14 {
            if !decodable::<String>(member(j, "ts"@)) {
                <String as FromJson>::failure(member(j, "ts"@))
            } else if !decodable::<String>(member(j, "user"@)) {
                <String as FromJson>::failure(member(j, "user"@))
            } else if !decodable::<String>(member(j, "topic"@)) {
                <String as FromJson>::failure(member(j, "topic"@))
            } else if !decodable::<String>(member(j, "text"@)) {
                <String as FromJson>::failure(member(j, "text"@))
            } else {
                DecodeFailure::Malformed
            }
        } else if k == 15 {
            if !decodable::<String>(member(j, "ts"@)) {
                <String as FromJson>::failure(member(j, "ts"@))
            } else if !decodable::<String>(member(j, "user"@)) {
                <String as FromJson>::failure(member(j, "user"@))
            } else if !decodable::<String>(member(j, "purpose"@)) {
                <String as FromJson>::failure(member(j, "purpose"@))
            } else if !decodable::<String>(member(j, "text"@)) {
                <String as FromJson>::failure(member(j, "text"@))
            } else {
                DecodeFailure::Malformed
            }
        } else if k == 16 {
            if !decodable::<String>(member(j, "ts"@)) {
                <String as FromJson>::failure(member(j, "ts"@))
            } else if !decodable::<String>(member(j, "user"@)) {
                <String as FromJson>::failure(member(j, "user"@))
            } else if !decodable::<String>(member(j, "old_name"@)) {
                <String as FromJson>::failure(member(j, "old_name"@))
            } else if !decodable::<String>(member(j, "name"@)) {
                <String as FromJson>::failure(member(j, "name"@))
            } else if !decodable::<String>(member(j, "text"@)) {
                <String as FromJson>::failure(member(j, "text"@))
            } else {
                DecodeFailure::Malformed
            }
        } else if k == 17 {
            if !decodable::<String>(member(j, "ts"@)) {
                <String as FromJson>::failure(member(j, "ts"@))
            } else if !decodable::<String>(member(j, "text"@)) {
                <String as FromJson>::failure(member(j, "text"@))
            } else if !decodable::<String>(member(j, "user"@)) {
                <String as FromJson>::failure(member(j, "user"@))
            } else if !decodable::<Vec<String>>(member(j, "members"@)) {
                <Vec<String> as FromJson>::failure(member(j, "members"@))
            } else {
                DecodeFailure::Malformed
            }
        } else if k == 18 {
            if !decodable::<String>(member(j, "ts"@)) {
                <String as FromJson>::failure(member(j, "ts"@))
            } else if !decodable::<String>(member(j, "text"@)) {
                <String as FromJson>::failure(member(j, "text"@))
            } else if !decodable::<String>(member(j, "user"@)) {
                <String as FromJson>::failure(member(j, "user"@))
            } else {
                DecodeFailure::Malformed
            }
        } else if k == 19 {
            if !decodable::<String>(member(j, "ts"@)) {
                <String as FromJson>::failure(member(j, "ts"@))
            } else if !decodable::<String>(member(j, "text"@)) {
                <String as FromJson>::failure(member(j, "text"@))
            } else if !decodable::<super::File>(member(j, "file"@)) {
                <super::File as FromJson>::failure(member(j, "file"@))
            } else if !decodable::<String>(member(j, "user"@)) {
                <String as FromJson>::failure(member(j, "user"@))
            } else if !decodable::<bool>(member(j, "upload"@)) {
                <bool as FromJson>::failure(member(j, "upload"@))
            } else {
                DecodeFailure::Malformed
            }
        } else if k == 20 {
            if !decodable::<String>(member(j, "ts"@)) {
                <String as FromJson>::failure(member(j, "ts"@))
            } else if !decodable::<String>(member(j, "text"@)) {
                <String as FromJson>::failure(member(j, "text"@))
            } else if !decodable::<super::File>(member(j, "file"@)) {
                <super::File as FromJson>::failure(member(j, "file"@))
            } else if !decodable::<super::Comment>(member(j, "comment"@)) {
                <super::Comment as FromJson>::failure(member(j, "comment"@))
            } else {
                DecodeFailure::Malformed
            }
        } else if k == 21 {
            if !decodable::<String>(member(j, "ts"@)) {
                <String as FromJson>::failure(member(j, "ts"@))
            } else if !decodable::<String>(member(j, "text"@)) {
                <String as FromJson>::failure(member(j, "text"@))
            } else if !decodable::<super::File>(member(j, "file"@)) {
                <super::File as FromJson>::failure(member(j, "file"@))
            } else if !decodable::<String>(member(j, "user"@)) {
                <String as FromJson>::failure(member(j, "user"@))
            } else {
                DecodeFailure::Malformed
            }
        } else if k == 22 {
            if !decodable::<String>(member(j, "user"@)) {
                <String as FromJson>::failure(member(j, "user"@))
            } else if !decodable::<String>(member(j, "item_type"@)) {
                <String as FromJson>::failure(member(j, "item_type"@))
            } else if !decodable::<String>(member(j, "text"@)) {
                <String as FromJson>::failure(member(j, "text"@))
            } else if (match present(j, "item"@) {
                Some(v) => !(v is Null) && !(exists|it: super::Item| it.matches_json(v)),
                None => false,
            }) {
                match present(j, "item"@) {
                    Some(v) => {
                        proof {
                            lemma_present_decreases(j, "item"@);
                        }
                        super::Item::failure_of(v)
                    },
                    None => DecodeFailure::Malformed,
                }
            } else if !decodable::<String>(member(j, "channel"@)) {
                <String as FromJson>::failure(member(j, "channel"@))
            } else if !decodable::<String>(member(j, "ts"@)) {
                <String as FromJson>::failure(member(j, "ts"@))
            } else if !decodable::<Option<Vec<super::Attachment>>>(member(j, "attachments"@)) {
                <Option<Vec<super::Attachment>> as FromJson>::failure(member(j, "attachments"@))
            } else {
                DecodeFailure::Malformed
            }
        } else if k == 23 {
            if !decodable::<String>(member(j, "user"@)) {
                <String as FromJson>::failure(member(j, "user"@))
            } else if !decodable::<String>(member(j, "item_type"@)) {
                <String as FromJson>::failure(member(j, "item_type"@))
            } else if !decodable::<String>(member(j, "text"@)) {
                <String as FromJson>::failure(member(j, "text"@))
            } else if (match present(j, "item"@) {
                Some(v) => !(v is Null) && !(exists|it: super::Item| it.matches_json(v)),
                None => false,
            }) {
                match present(j, "item"@) {
                    Some(v) => {
                        proof {
                            lemma_present_decreases(j, "item"@);
                        }
                        super::Item::failure_of(v)
                    },
                    None => DecodeFailure::Malformed,
                }
            } else if !decodable::<String>(member(j, "channel"@)) {
                <String as FromJson>::failure(member(j, "channel"@))
            } else if !decodable::<String>(member(j, "ts"@)) {
                <String as FromJson>::failure(member(j, "ts"@))
            } else if !decodable::<Option<Vec<super::Attachment>>>(member(j, "attachments"@)) {
                <Option<Vec<super::Attachment>> as FromJson>::failure(member(j, "attachments"@))
            } else {
                DecodeFailure::Malformed
            }
        } else {
            DecodeFailure::Malformed
        }
    }

    /// The position of `t` among the `subtype` tags that name a variant, or -1.
    pub open spec fn tag_index(t: Seq<char>) -> int {
        if t == "bot_message"@ {
            1
        } else if t == "me_message"@ {
            2
        } else if t == "message_changed"@ {
            3
        } else if t == "message_deleted"@ {
            4
        } else if t == "channel_join"@ {
            5
        } else if t == "channel_leave"@ {
            6
        } else if t == "channel_topic"@ {
            7
        } else if t == "channel_purpose"@ {
            8
        } else if t == "channel_name"@ {
            9
        } else if t == "channel_archive"@ {
            10
        } else if t == "channel_unarchive"@ {
            11
        } else if t == "group_join"@ {
            12
        } else if t == "group_leave"@ {
            13
        } else if t == "group_topic"@ {
            14
        } else if t == "group_purpose"@ {
            15
        } else if t == "group_name"@ {
            16
        } else if t == "group_archive"@ {
            17
        } else if t == "group_unarchive"@ {
            18
        } else if t == "file_share"@ {
            19
        } else if t == "file_comment"@ {
            20
        } else if t == "file_mention"@ {
            21
        } else if t == "pinned_item"@ {
            22
        } else if t == "unpinned_item"@ {
            23
        } else {
            -1
        }
    }

    /// The variant that the `subtype` member of `j` selects, or -1.
    pub open spec fn variant_of(j: Json) -> int {
        match member(j, "subtype"@) {
            Json::Null => 0,
            Json::Str(t) => Self::tag_index(t@),
            _ => -1,
        }
    }

    /// The tag of an object whose `subtype` member is text that names no variant.
    pub open spec fn unknown_tag(j: Json) -> Option<Seq<char>> {
        match member(j, "subtype"@) {
            Json::Str(t) => if j is Object && Self::tag_index(t@) == -1 {
                Some(t@)
            } else {
                None
            },
            _ => None,
        }
    }

    /// `self` is the message that `j` holds: the variant that its `subtype` member
    /// selects, with each field read from the member of the same name.
    pub open spec fn matches_json(&self, j: Json) -> bool
        decreases self,
    {
        &&& j is Object
        &&& match self {
            Message::Standard {
                ts,
                channel,
                user,
                text,
                is_starred,
                pinned_to,
                reactions,
                edited,
                attachments,
            } => {
                &&& Self::variant_of(j) == 0
                &&& ts.decoded_from(member(j, "ts"@))
                &&& channel.decoded_from(member(j, "channel"@))
                &&& user.decoded_from(member(j, "user"@))
                &&& text.decoded_from(member(j, "text"@))
                &&& is_starred.decoded_from(member(j, "is_starred"@))
                &&& pinned_to.decoded_from(member(j, "pinned_to"@))
                &&& reactions.decoded_from(member(j, "reactions"@))
                &&& edited.decoded_from(member(j, "edited"@))
                &&& attachments.decoded_from(member(j, "attachments"@))
            },
            Message::BotMessage { ts, text, bot_id, username, icons } => {
                &&& Self::variant_of(j) == 1
                &&& ts.decoded_from(member(j, "ts"@))
                &&& text.decoded_from(member(j, "text"@))
                &&& bot_id.decoded_from(member(j, "bot_id"@))
                &&& username.decoded_from(member(j, "username"@))
                &&& icons.decoded_from(member(j, "icons"@))
            },
            Message::MeMessage { channel, user, text, ts } => {
                &&& Self::variant_of(j) == 2
                &&& channel.decoded_from(member(j, "channel"@))
                &&& user.decoded_from(member(j, "user"@))
                &&& text.decoded_from(member(j, "text"@))
                &&& ts.decoded_from(member(j, "ts"@))
            },
            Message::MessageChanged { hidden, channel, ts, message } => {
                &&& Self::variant_of(j) == 3
                &&& hidden.decoded_from(member(j, "hidden"@))
                &&& channel.decoded_from(member(j, "channel"@))
                &&& ts.decoded_from(member(j, "ts"@))
                &&& message.matches_json(member(j, "message"@))
            },
            Message::MessageDeleted { hidden, channel, ts, deleted_ts } => {
                &&& Self::variant_of(j) == 4
                &&& hidden.decoded_from(member(j, "hidden"@))
                &&& channel.decoded_from(member(j, "channel"@))
                &&& ts.decoded_from(member(j, "ts"@))
                &&& deleted_ts.decoded_from(member(j, "deleted_ts"@))
            },
            Message::ChannelJoin { ts, user, text, inviter } => {
                &&& Self::variant_of(j) == 5
                &&& ts.decoded_from(member(j, "ts"@))
                &&& user.decoded_from(member(j, "user"@))
                &&& text.decoded_from(member(j, "text"@))
                &&& inviter.decoded_from(member(j, "inviter"@))
            },
            Message::ChannelLeave { ts, user, text } => {
                &&& Self::variant_of(j) == 6
                &&& ts.decoded_from(member(j, "ts"@))
                &&& user.decoded_from(member(j, "user"@))
                &&& text.decoded_from(member(j, "text"@))
            },
            Message::ChannelTopic { ts, user, topic, text } => {
                &&& Self::variant_of(j) == 7
                &&& ts.decoded_from(member(j, "ts"@))
                &&& user.decoded_from(member(j, "user"@))
                &&& topic.decoded_from(member(j, "topic"@))
                &&& text.decoded_from(member(j, "text"@))
            },
            Message::ChannelPurpose { ts, user, purpose, text } => {
                &&& Self::variant_of(j) == 8
                &&& ts.decoded_from(member(j, "ts"@))
                &&& user.decoded_from(member(j, "user"@))
                &&& purpose.decoded_from(member(j, "purpose"@))
                &&& text.decoded_from(member(j, "text"@))
            },
            Message::ChannelName { ts, user, old_name, name, text } => {
                &&& Self::variant_of(j) == 9
                &&& ts.decoded_from(member(j, "ts"@))
                &&& user.decoded_from(member(j, "user"@))
                &&& old_name.decoded_from(member(j, "old_name"@))
                &&& name.decoded_from(member(j, "name"@))
                &&& text.decoded_from(member(j, "text"@))
            },
            Message::ChannelArchive { ts, text, user, members } => {
                &&& Self::variant_of(j) == 10
                &&& ts.decoded_from(member(j, "ts"@))
                &&& text.decoded_from(member(j, "text"@))
                &&& user.decoded_from(member(j, "user"@))
                &&& members.decoded_from(member(j, "members"@))
            },
            Message::ChannelUnarchive { ts, text, user } => {
                &&& Self::variant_of(j) == 11
                &&& ts.decoded_from(member(j, "ts"@))
                &&& text.decoded_from(member(j, "text"@))
                &&& user.decoded_from(member(j, "user"@))
            },
            Message::GroupJoin { ts, user, text, inviter } => {
                &&& Self::variant_of(j) == 12
                &&& ts.decoded_from(member(j, "ts"@))
                &&& user.decoded_from(member(j, "user"@))
                &&& text.decoded_from(member(j, "text"@))
                &&& inviter.decoded_from(member(j, "inviter"@))
            },
            Message::GroupLeave { ts, user, text } => {
                &&& Self::variant_of(j) == 13
                &&& ts.decoded_from(member(j, "ts"@))
                &&& user.decoded_from(member(j, "user"@))
                &&& text.decoded_from(member(j, "text"@))
            },
            Message::GroupTopic { ts, user, topic, text } => {
                &&& Self::variant_of(j) == 14
                &&& ts.decoded_from(member(j, "ts"@))
                &&& user.decoded_from(member(j, "user"@))
                &&& topic.decoded_from(member(j, "topic"@))
                &&& text.decoded_from(member(j, "text"@))
            },
            Message::GroupPurpose { ts, user, purpose, text } => {
                &&& Self::variant_of(j) == 15
                &&& ts.decoded_from(member(j, "ts"@))
                &&& user.decoded_from(member(j, "user"@))
                &&& purpose.decoded_from(member(j, "purpose"@))
                &&& text.decoded_from(member(j, "text"@))
            },
            Message::GroupName { ts, user, old_name, name, text } => {
                &&& Self::variant_of(j) == 16
                &&& ts.decoded_from(member(j, "ts"@))
                &&& user.decoded_from(member(j, "user"@))
                &&& old_name.decoded_from(member(j, "old_name"@))
                &&& name.decoded_from(member(j, "name"@))
                &&& text.decoded_from(member(j, "text"@))
            },
            Message::GroupArchive { ts, text, user, members } => {
                &&& Self::variant_of(j) == 17
                &&& ts.decoded_from(member(j, "ts"@))
                &&& text.decoded_from(member(j, "text"@))
                &&& user.decoded_from(member(j, "user"@))
                &&& members.decoded_from(member(j, "members"@))
            },
            Message::GroupUnarchive { ts, text, user } => {
                &&& Self::variant_of(j) == 18
                &&& ts.decoded_from(member(j, "ts"@))
                &&& text.decoded_from(member(j, "text"@))
                &&& user.decoded_from(member(j, "user"@))
            },
            Message::FileShare { ts, text, file, user, upload } => {
                &&& Self::variant_of(j) == 19
                &&& ts.decoded_from(member(j, "ts"@))
                &&& text.decoded_from(member(j, "text"@))
                &&& file.decoded_from(member(j, "file"@))
                &&& user.decoded_from(member(j, "user"@))
                &&& upload.decoded_from(member(j, "upload"@))
            },
            Message::FileComment { ts, text, file, comment } => {
                &&& Self::variant_of(j) == 20
                &&& ts.decoded_from(member(j, "ts"@))
                &&& text.decoded_from(member(j, "text"@))
                &&& file.decoded_from(member(j, "file"@))
                &&& comment.decoded_from(member(j, "comment"@))
            },
            Message::FileMention { ts, text, file, user } => {
                &&& Self::variant_of(j) == 21
                &&& ts.decoded_from(member(j, "ts"@))
                &&& text.decoded_from(member(j, "text"@))
                &&& file.decoded_from(member(j, "file"@))
                &&& user.decoded_from(member(j, "user"@))
            },
            Message::PinnedItem { user, item_type, text, item, channel, ts, attachments } => {
                &&& Self::variant_of(j) == 22
                &&& user.decoded_from(member(j, "user"@))
                &&& item_type.decoded_from(member(j, "item_type"@))
                &&& text.decoded_from(member(j, "text"@))
                &&& (match item {
                    None => member(j, "item"@) is Null,
                    Some(it) => !(member(j, "item"@) is Null) && it.matches_json(member(j, "item"@)),
                })
                &&& channel.decoded_from(member(j, "channel"@))
                &&& ts.decoded_from(member(j, "ts"@))
                &&& attachments.decoded_from(member(j, "attachments"@))
            },
            Message::UnpinnedItem { user, item_type, text, item, channel, ts, attachments } => {
                &&& Self::variant_of(j) == 23
                &&& user.decoded_from(member(j, "user"@))
                &&& item_type.decoded_from(member(j, "item_type"@))
                &&& text.decoded_from(member(j, "text"@))
                &&& (match item {
                    None => member(j, "item"@) is Null,
                    Some(it) => !(member(j, "item"@) is Null) && it.matches_json(member(j, "item"@)),
                })
                &&& channel.decoded_from(member(j, "channel"@))
                &&& ts.decoded_from(member(j, "ts"@))
                &&& attachments.decoded_from(member(j, "attachments"@))
            },
        }
    }

    /// Reads the message that `j` holds. A tag that names no variant is reported
    /// as `DecodeError::Unknown("Unknown Message type: <tag>")`.
    pub fn decode(j: &Json) -> (r: Result<Message, DecodeError>)
        ensures
            r matches Ok(x) ==> x.matches_json(*j),
            r is Err ==> forall|x: Message| !x.matches_json(*j),
            Self::unknown_tag(*j) matches Some(t) ==> r matches Err(DecodeError::Unknown(m))
                && m@ == "Unknown Message type: "@ + t,
            r matches Err(e) ==> e@ == Self::failure_of(*j),
        decreases *j, 1nat,
    {
        if !j.is_object() {
            return Err(DecodeError::Malformed);
        }
        match find_member(j, "subtype") {
            None => Self::decode_standard(j),
            Some(Json::Null) => Self::decode_standard(j),
            Some(Json::Str(t)) => {
                if str_eq(t.as_str(), "bot_message") {
                    Self::decode_bot_message(j)
                } else if str_eq(t.as_str(), "me_message") {
                    Self::decode_me_message(j)
                } else if str_eq(t.as_str(), "message_changed") {
                    Self::decode_message_changed(j)
                } else if str_eq(t.as_str(), "message_deleted") {
                    Self::decode_message_deleted(j)
                } else if str_eq(t.as_str(), "channel_join") {
                    Self::decode_channel_join(j)
                } else if str_eq(t.as_str(), "channel_leave") {
                    Self::decode_channel_leave(j)
                } else if str_eq(t.as_str(), "channel_topic") {
                    Self::decode_channel_topic(j)
                } else if str_eq(t.as_str(), "channel_purpose") {
                    Self::decode_channel_purpose(j)
                } else if str_eq(t.as_str(), "channel_name") {
                    Self::decode_channel_name(j)
                } else if str_eq(t.as_str(), "channel_archive") {
                    Self::decode_channel_archive(j)
                } else if str_eq(t.as_str(), "channel_unarchive") {
                    Self::decode_channel_unarchive(j)
                } else if str_eq(t.as_str(), "group_join") {
                    Self::decode_group_join(j)
                } else if str_eq(t.as_str(), "group_leave") {
                    Self::decode_group_leave(j)
                } else if str_eq(t.as_str(), "group_topic") {
                    Self::decode_group_topic(j)
                } else if str_eq(t.as_str(), "group_purpose") {
                    Self::decode_group_purpose(j)
                } else if str_eq(t.as_str(), "group_name") {
                    Self::decode_group_name(j)
                } else if str_eq(t.as_str(), "group_archive") {
                    Self::decode_group_archive(j)
                } else if str_eq(t.as_str(), "group_unarchive") {
                    Self::decode_group_unarchive(j)
                } else if str_eq(t.as_str(), "file_share") {
                    Self::decode_file_share(j)
                } else if str_eq(t.as_str(), "file_comment") {
                    Self::decode_file_comment(j)
                } else if str_eq(t.as_str(), "file_mention") {
                    Self::decode_file_mention(j)
                } else if str_eq(t.as_str(), "pinned_item") {
                    Self::decode_pinned_item(j)
                } else if str_eq(t.as_str(), "unpinned_item") {
                    Self::decode_unpinned_item(j)
                } else {
                    Err(DecodeError::Unknown("Unknown Message type: ".to_owned().concat(t.as_str())))
                }
            },
            _ => Err(DecodeError::Malformed),
        }
    }

    fn decode_standard(j: &Json) -> (r: Result<Message, DecodeError>)
        requires
            j is Object,
            Self::variant_of(*j) == 0,
        ensures
            r matches Ok(x) ==> x.matches_json(*j),
            r is Err ==> forall|x: Message| !x.matches_json(*j),
            r matches Err(e) ==> e@ == Self::variant_failure(*j, 0),
        decreases *j, 0nat,
    {
        let ts = read_member::<String>(j, "ts")?;
        let channel = read_member::<Option<String>>(j, "channel")?;
        let user = read_member::<Option<String>>(j, "user")?;
        let text = read_member::<Option<String>>(j, "text")?;
        let is_starred = read_member::<Option<bool>>(j, "is_starred")?;
        let pinned_to = read_member::<Option<Vec<String>>>(j, "pinned_to")?;
        let reactions = read_member::<Option<Vec<super::Reaction>>>(j, "reactions")?;
        let edited = read_member::<Option<EditedMessageData>>(j, "edited")?;
        let attachments = read_member::<Option<Vec<super::Attachment>>>(j, "attachments")?;
        Ok(Message::Standard {
            ts,
            channel,
            user,
            text,
            is_starred,
            pinned_to,
            reactions,
            edited,
            attachments,
        })
    }

    fn decode_bot_message(j: &Json) -> (r: Result<Message, DecodeError>)
        requires
            j is Object,
            Self::variant_of(*j) == 1,
        ensures
            r matches Ok(x) ==> x.matches_json(*j),
            r is Err ==> forall|x: Message| !x.matches_json(*j),
            r matches Err(e) ==> e@ == Self::variant_failure(*j, 1),
        decreases *j, 0nat,
    {
        let ts = read_member::<String>(j, "ts")?;
        let text = read_member::<String>(j, "text")?;
        let bot_id = read_member::<String>(j, "bot_id")?;
        let username = read_member::<Option<String>>(j, "username")?;
        let icons = read_member::<Option<StringMap>>(j, "icons")?;
        Ok(Message::BotMessage { ts, text, bot_id, username, icons })
    }

    fn decode_me_message(j: &Json) -> (r: Result<Message, DecodeError>)
        requires
            j is Object,
            Self::variant_of(*j) == 2,
        ensures
            r matches Ok(x) ==> x.matches_json(*j),
            r is Err ==> forall|x: Message| !x.matches_json(*j),
            r matches Err(e) ==> e@ == Self::variant_failure(*j, 2),
        decreases *j, 0nat,
    {
        let channel = read_member::<String>(j, "channel")?;
        let user = read_member::<String>(j, "user")?;
        let text = read_member::<String>(j, "text")?;
        let ts = read_member::<String>(j, "ts")?;
        Ok(Message::MeMessage { channel, user, text, ts })
    }

    fn decode_message_changed(j: &Json) -> (r: Result<Message, DecodeError>)
        requires
            j is Object,
            Self::variant_of(*j) == 3,
        ensures
            r matches Ok(x) ==> x.matches_json(*j),
            r is Err ==> forall|x: Message| !x.matches_json(*j),
            r matches Err(e) ==> e@ == Self::variant_failure(*j, 3),
        decreases *j, 0nat,
    {
        let hidden = read_member::<bool>(j, "hidden")?;
        let channel = read_member::<String>(j, "channel")?;
        let ts = read_member::<String>(j, "ts")?;
        let message = match find_member(j, "message") {
            Some(v) => match Message::decode(v) {
                Ok(m) => Box::new(m),
                Err(e) => {
                    assert forall|x: Message| !x.matches_json(*j) by {
                        if let Message::MessageChanged { message, .. } = x {
                            assert(!message.matches_json(*v));
                        }
                    }
                    return Err(e);
                },
            },
            None => {
                assert forall|x: Message| !x.matches_json(*j) by {
                    if let Message::MessageChanged { message, .. } = x {
                        assert(!message.matches_json(Json::Null));
                    }
                }
                return Err(DecodeError::Malformed);
            },
        };
        Ok(Message::MessageChanged { hidden, channel, ts, message })
    }

    fn decode_message_deleted(j: &Json) -> (r: Result<Message, DecodeError>)
        requires
            j is Object,
            Self::variant_of(*j) == 4,
        ensures
            r matches Ok(x) ==> x.matches_json(*j),
            r is Err ==> forall|x: Message| !x.matches_json(*j),
            r matches Err(e) ==> e@ == Self::variant_failure(*j, 4),
        decreases *j, 0nat,
    {
        let hidden = read_member::<bool>(j, "hidden")?;
        let channel = read_member::<String>(j, "channel")?;
        let ts = read_member::<String>(j, "ts")?;
        let deleted_ts = read_member::<String>(j, "deleted_ts")?;
        Ok(Message::MessageDeleted { hidden, channel, ts, deleted_ts })
    }

    fn decode_channel_join(j: &Json) -> (r: Result<Message, DecodeError>)
        requires
            j is Object,
            Self::variant_of(*j) == 5,
        ensures
            r matches Ok(x) ==> x.matches_json(*j),
            r is Err ==> forall|x: Message| !x.matches_json(*j),
            r matches Err(e) ==> e@ == Self::variant_failure(*j, 5),
        decreases *j, 0nat,
    {
        let ts = read_member::<String>(j, "ts")?;
        let user = read_member::<String>(j, "user")?;
        let text = read_member::<String>(j, "text")?;
        let inviter = read_member::<Option<String>>(j, "inviter")?;
        Ok(Message::ChannelJoin { ts, user, text, inviter })
    }

    fn decode_channel_leave(j: &Json) -> (r: Result<Message, DecodeError>)
        requires
            j is Object,
            Self::variant_of(*j) == 6,
        ensures
            r matches Ok(x) ==> x.matches_json(*j),
            r is Err ==> forall|x: Message| !x.matches_json(*j),
            r matches Err(e) ==> e@ == Self::variant_failure(*j, 6),
        decreases *j, 0nat,
    {
        let ts = read_member::<String>(j, "ts")?;
        let user = read_member::<String>(j, "user")?;
        let text = read_member::<String>(j, "text")?;
        Ok(Message::ChannelLeave { ts, user, text })
    }

    fn decode_channel_topic(j: &Json) -> (r: Result<Message, DecodeError>)
        requires
            j is Object,
            Self::variant_of(*j) == 7,
        ensures
            r matches Ok(x) ==> x.matches_json(*j),
            r is Err ==> forall|x: Message| !x.matches_json(*j),
            r matches Err(e) ==> e@ == Self::variant_failure(*j, 7),
        decreases *j, 0nat,
    {
        let ts = read_member::<String>(j, "ts")?;
        let user = read_member::<String>(j, "user")?;
        let topic = read_member::<String>(j, "topic")?;
        let text = read_member::<String>(j, "text")?;
        Ok(Message::ChannelTopic { ts, user, topic, text })
    }

    fn decode_channel_purpose(j: &Json) -> (r: Result<Message, DecodeError>)
        requires
            j is Object,
            Self::variant_of(*j) == 8,
        ensures
            r matches Ok(x) ==> x.matches_json(*j),
            r is Err ==> forall|x: Message| !x.matches_json(*j),
            r matches Err(e) ==> e@ == Self::variant_failure(*j, 8),
        decreases *j, 0nat,
    {
        let ts = read_member::<String>(j, "ts")?;
        let user = read_member::<String>(j, "user")?;
        let purpose = read_member::<String>(j, "purpose")?;
        let text = read_member::<String>(j, "text")?;
        Ok(Message::ChannelPurpose { ts, user, purpose, text })
    }

    fn decode_channel_name(j: &Json) -> (r: Result<Message, DecodeError>)
        requires
            j is Object,
            Self::variant_of(*j) == 9,
        ensures
            r matches Ok(x) ==> x.matches_json(*j),
            r is Err ==> forall|x: Message| !x.matches_json(*j),
            r matches Err(e) ==> e@ == Self::variant_failure(*j, 9),
        decreases *j, 0nat,
    {
        let ts = read_member::<String>(j, "ts")?;
        let user = read_member::<String>(j, "user")?;
        let old_name = read_member::<String>(j, "old_name")?;
        let name = read_member::<String>(j, "name")?;
        let text = read_member::<String>(j, "text")?;
        Ok(Message::ChannelName { ts, user, old_name, name, text })
    }

    fn decode_channel_archive(j: &Json) -> (r: Result<Message, DecodeError>)
        requires
            j is Object,
            Self::variant_of(*j) == 10,
        ensures
            r matches Ok(x) ==> x.matches_json(*j),
            r is Err ==> forall|x: Message| !x.matches_json(*j),
            r matches Err(e) ==> e@ == Self::variant_failure(*j, 10),
        decreases *j, 0nat,
    {
        let ts = read_member::<String>(j, "ts")?;
        let text = read_member::<String>(j, "text")?;
        let user = read_member::<String>(j, "user")?;
        let members = read_member::<Vec<String>>(j, "members")?;
        Ok(Message::ChannelArchive { ts, text, user, members })
    }

    fn decode_channel_unarchive(j: &Json) -> (r: Result<Message, DecodeError>)
        requires
            j is Object,
            Self::variant_of(*j) == 11,
        ensures
            r matches Ok(x) ==> x.matches_json(*j),
            r is Err ==> forall|x: Message| !x.matches_json(*j),
            r matches Err(e) ==> e@ == Self::variant_failure(*j, 11),
        decreases *j, 0nat,
    {
        let ts = read_member::<String>(j, "ts")?;
        let text = read_member::<String>(j, "text")?;
        let user = read_member::<String>(j, "user")?;
        Ok(Message::ChannelUnarchive { ts, text, user })
    }

    fn decode_group_join(j: &Json) -> (r: Result<Message, DecodeError>)
        requires
            j is Object,
            Self::variant_of(*j) == 12,
        ensures
            r matches Ok(x) ==> x.matches_json(*j),
            r is Err ==> forall|x: Message| !x.matches_json(*j),
            r matches Err(e) ==> e@ == Self::variant_failure(*j, 12),
        decreases *j, 0nat,
    {
        let ts = read_member::<String>(j, "ts")?;
        let user = read_member::<String>(j, "user")?;
        let text = read_member::<String>(j, "text")?;
        let inviter = read_member::<Option<String>>(j, "inviter")?;
        Ok(Message::GroupJoin { ts, user, text, inviter })
    }

    fn decode_group_leave(j: &Json) -> (r: Result<Message, DecodeError>)
        requires
            j is Object,
            Self::variant_of(*j) == 13,
        ensures
            r matches Ok(x) ==> x.matches_json(*j),
            r is Err ==> forall|x: Message| !x.matches_json(*j),
            r matches Err(e) ==> e@ == Self::variant_failure(*j, 13),
        decreases *j, 0nat,
    {
        let ts = read_member::<String>(j, "ts")?;
        let user = read_member::<String>(j, "user")?;
        let text = read_member::<String>(j, "text")?;
        Ok(Message::GroupLeave { ts, user, text })
    }

    fn decode_group_topic(j: &Json) -> (r: Result<Message, DecodeError>)
        requires
            j is Object,
            Self::variant_of(*j) == 14,
        ensures
            r matches Ok(x) ==> x.matches_json(*j),
            r is Err ==> forall|x: Message| !x.matches_json(*j),
            r matches Err(e) ==> e@ == Self::variant_failure(*j, 14),
        decreases *j, 0nat,
    {
        let ts = read_member::<String>(j, "ts")?;
        let user = read_member::<String>(j, "user")?;
        let topic = read_member::<String>(j, "topic")?;
        let text = read_member::<String>(j, "text")?;
        Ok(Message::GroupTopic { ts, user, topic, text })
    }

    fn decode_group_purpose(j: &Json) -> (r: Result<Message, DecodeError>)
        requires
            j is Object,
            Self::variant_of(*j) == 15,
        ensures
            r matches Ok(x) ==> x.matches_json(*j),
            r is Err ==> forall|x: Message| !x.matches_json(*j),
            r matches Err(e) ==> e@ == Self::variant_failure(*j, 15),
        decreases *j, 0nat,
    {
        let ts = read_member::<String>(j, "ts")?;
        let user = read_member::<String>(j, "user")?;
        let purpose = read_member::<String>(j, "purpose")?;
        let text = read_member::<String>(j, "text")?;
        Ok(Message::GroupPurpose { ts, user, purpose, text })
    }

    fn decode_group_name(j: &Json) -> (r: Result<Message, DecodeError>)
        requires
            j is Object,
            Self::variant_of(*j) == 16,
        ensures
            r matches Ok(x) ==> x.matches_json(*j),
            r is Err ==> forall|x: Message| !x.matches_json(*j),
            r matches Err(e) ==> e@ == Self::variant_failure(*j, 16),
        decreases *j, 0nat,
    {
        let ts = read_member::<String>(j, "ts")?;
        let user = read_member::<String>(j, "user")?;
        let old_name = read_member::<String>(j, "old_name")?;
        let name = read_member::<String>(j, "name")?;
        let text = read_member::<String>(j, "text")?;
        Ok(Message::GroupName { ts, user, old_name, name, text })
    }

    fn decode_group_archive(j: &Json) -> (r: Result<Message, DecodeError>)
        requires
            j is Object,
            Self::variant_of(*j) == 17,
        ensures
            r matches Ok(x) ==> x.matches_json(*j),
            r is Err ==> forall|x: Message| !x.matches_json(*j),
            r matches Err(e) ==> e@ == Self::variant_failure(*j, 17),
        decreases *j, 0nat,
    {
        let ts = read_member::<String>(j, "ts")?;
        let text = read_member::<String>(j, "text")?;
        let user = read_member::<String>(j, "user")?;
        let members = read_member::<Vec<String>>(j, "members")?;
        Ok(Message::GroupArchive { ts, text, user, members })
    }

    fn decode_group_unarchive(j: &Json) -> (r: Result<Message, DecodeError>)
        requires
            j is Object,
            Self::variant_of(*j) == 18,
        ensures
            r matches Ok(x) ==> x.matches_json(*j),
            r is Err ==> forall|x: Message| !x.matches_json(*j),
            r matches Err(e) ==> e@ == Self::variant_failure(*j, 18),
        decreases *j, 0nat,
    {
        let ts = read_member::<String>(j, "ts")?;
        let text = read_member::<String>(j, "text")?;
        let user = read_member::<String>(j, "user")?;
        Ok(Message::GroupUnarchive { ts, text, user })
    }

    fn decode_file_share(j: &Json) -> (r: Result<Message, DecodeError>)
        requires
            j is Object,
            Self::variant_of(*j) == 19,
        ensures
            r matches Ok(x) ==> x.matches_json(*j),
            r is Err ==> forall|x: Message| !x.matches_json(*j),
            r matches Err(e) ==> e@ == Self::variant_failure(*j, 19),
        decreases *j, 0nat,
    {
        let ts = read_member::<String>(j, "ts")?;
        let text = read_member::<String>(j, "text")?;
        let file = read_member::<super::File>(j, "file")?;
        let user = read_member::<String>(j, "user")?;
        let upload = read_member::<bool>(j, "upload")?;
        Ok(Message::FileShare { ts, text, file, user, upload })
    }

    fn decode_file_comment(j: &Json) -> (r: Result<Message, DecodeError>)
        requires
            j is Object,
            Self::variant_of(*j) == 20,
        ensures
            r matches Ok(x) ==> x.matches_json(*j),
            r is Err ==> forall|x: Message| !x.matches_json(*j),
            r matches Err(e) ==> e@ == Self::variant_failure(*j, 20),
        decreases *j, 0nat,
    {
        let ts = read_member::<String>(j, "ts")?;
        let text = read_member::<String>(j, "text")?;
        let file = read_member::<super::File>(j, "file")?;
        let comment = read_member::<super::Comment>(j, "comment")?;
        Ok(Message::FileComment { ts, text, file, comment })
    }

    fn decode_file_mention(j: &Json) -> (r: Result<Message, DecodeError>)
        requires
            j is Object,
            Self::variant_of(*j) == 21,
        ensures
            r matches Ok(x) ==> x.matches_json(*j),
            r is Err ==> forall|x: Message| !x.matches_json(*j),
            r matches Err(e) ==> e@ == Self::variant_failure(*j, 21),
        decreases *j, 0nat,
    {
        let ts = read_member::<String>(j, "ts")?;
        let text = read_member::<String>(j, "text")?;
        let file = read_member::<super::File>(j, "file")?;
        let user = read_member::<String>(j, "user")?;
        Ok(Message::FileMention { ts, text, file, user })
    }

    fn decode_pinned_item(j: &Json) -> (r: Result<Message, DecodeError>)
        requires
            j is Object,
            Self::variant_of(*j) == 22,
        ensures
            r matches Ok(x) ==> x.matches_json(*j),
            r is Err ==> forall|x: Message| !x.matches_json(*j),
            r matches Err(e) ==> e@ == Self::variant_failure(*j, 22),
        decreases *j, 0nat,
    {
        let user = read_member::<String>(j, "user")?;
        let item_type = read_member::<String>(j, "item_type")?;
        let text = read_member::<String>(j, "text")?;
        let item = match find_member(j, "item") {
            Some(v) => {
                if v.is_null() {
                    None
                } else {
                    match super::Item::decode(v) {
                        Ok(it) => Some(it),
                        Err(e) => {
                            assert forall|x: Message| !x.matches_json(*j) by {
                                if let Message::PinnedItem { item: Some(it), .. } = x {
                                    assert(!it.matches_json(*v));
                                }
                            }
                            return Err(e);
                        },
                    }
                }
            },
            None => None,
        };
        let channel = read_member::<String>(j, "channel")?;
        let ts = read_member::<String>(j, "ts")?;
        let attachments = read_member::<Option<Vec<super::Attachment>>>(j, "attachments")?;
        Ok(Message::PinnedItem { user, item_type, text, item, channel, ts, attachments })
    }

    fn decode_unpinned_item(j: &Json) -> (r: Result<Message, DecodeError>)
        requires
            j is Object,
            Self::variant_of(*j) == 23,
        ensures
            r matches Ok(x) ==> x.matches_json(*j),
            r is Err ==> forall|x: Message| !x.matches_json(*j),
            r matches Err(e) ==> e@ == Self::variant_failure(*j, 23),
        decreases *j, 0nat,
    {
        let user = read_member::<String>(j, "user")?;
        let item_type = read_member::<String>(j, "item_type")?;
        let text = read_member::<String>(j, "text")?;
        let item = match find_member(j, "item") {
            Some(v) => {
                if v.is_null() {
                    None
                } else {
                    match super::Item::decode(v) {
                        Ok(it) => Some(it),
                        Err(e) => {
                            assert forall|x: Message| !x.matches_json(*j) by {
                                if let Message::UnpinnedItem { item: Some(it), .. } = x {
                                    assert(!it.matches_json(*v));
                                }
                            }
                            return Err(e);
                        },
                    }
                }
            },
            None => None,
        };
        let channel = read_member::<String>(j, "channel")?;
        let ts = read_member::<String>(j, "ts")?;
        let attachments = read_member::<Option<Vec<super::Attachment>>>(j, "attachments")?;
        Ok(Message::UnpinnedItem { user, item_type, text, item, channel, ts, attachments })
    }
}

/// A message without a `subtype` member, or with a `null` one, is read as a
/// `Standard` message; one with a `subtype` is never read as one.
pub proof fn lemma_untagged_is_standard(x: Message, j: Json)
    requires
        x.matches_json(j),
    ensures
        x is Standard <==> member(j, "subtype"@) is Null,
{
}

impl FromJson for Message {
    open spec fn decoded_from(&self, j: Json) -> bool {
        self.matches_json(j)
    }

    open spec fn failure(j: Json) -> DecodeFailure {
        Self::failure_of(j)
    }

    fn from_json(j: &Json) -> (r: Result<Self, DecodeError>) {
        Message::decode(j)
    }
}

/// A `Message` read out of a JSON value: the value is an object whose `subtype`
/// member names the variant, and each field of the variant holds the member
/// of the same name (`null` for an absent optional one).
pub proof fn lemma_message_members(j: Json, x: Message)
    requires
        x.matches_json(j),
    ensures
        j is Object,
        match x {
            Message::Standard { ts, channel, user, text, is_starred, pinned_to, reactions, edited, attachments } => {
                &&& member(j, "subtype"@) is Null
                &&& member_text(j, "ts"@) == Some(ts@)
                &&& (match channel { Some(s) => member_text(j, "channel"@) == Some(s@), None => member(j, "channel"@) is Null })
                &&& (match user { Some(s) => member_text(j, "user"@) == Some(s@), None => member(j, "user"@) is Null })
                &&& (match text { Some(s) => member_text(j, "text"@) == Some(s@), None => member(j, "text"@) is Null })
                &&& member(j, "is_starred"@) == (match is_starred { Some(b) => Json::Bool(b), None => Json::Null })
                &&& pinned_to.decoded_from(member(j, "pinned_to"@))
                &&& reactions.decoded_from(member(j, "reactions"@))
                &&& edited.decoded_from(member(j, "edited"@))
                &&& attachments.decoded_from(member(j, "attachments"@))
            },
            Message::BotMessage { ts, text, bot_id, username, icons } => {
                &&& member_text(j, "subtype"@) == Some("bot_message"@)
                &&& member_text(j, "ts"@) == Some(ts@)
                &&& member_text(j, "text"@) == Some(text@)
                &&& member_text(j, "bot_id"@) == Some(bot_id@)
                &&& (match username { Some(s) => member_text(j, "username"@) == Some(s@), None => member(j, "username"@) is Null })
                &&& icons.decoded_from(member(j, "icons"@))
            },
            Message::MeMessage { channel, user, text, ts } => {
                &&& member_text(j, "subtype"@) == Some("me_message"@)
                &&& member_text(j, "channel"@) == Some(channel@)
                &&& member_text(j, "user"@) == Some(user@)
                &&& member_text(j, "text"@) == Some(text@)
                &&& member_text(j, "ts"@) == Some(ts@)
            },
            Message::MessageChanged { hidden, channel, ts, message } => {
                &&& member_text(j, "subtype"@) == Some("message_changed"@)
                &&& member(j, "hidden"@) == Json::Bool(hidden)
                &&& member_text(j, "channel"@) == Some(channel@)
                &&& member_text(j, "ts"@) == Some(ts@)
                &&& message.matches_json(member(j, "message"@))
            },
            Message::MessageDeleted { hidden, channel, ts, deleted_ts } => {
                &&& member_text(j, "subtype"@) == Some("message_deleted"@)
                &&& member(j, "hidden"@) == Json::Bool(hidden)
                &&& member_text(j, "channel"@) == Some(channel@)
                &&& member_text(j, "ts"@) == Some(ts@)
                &&& member_text(j, "deleted_ts"@) == Some(deleted_ts@)
            },
            Message::ChannelJoin { ts, user, text, inviter } => {
                &&& member_text(j, "subtype"@) == Some("channel_join"@)
                &&& member_text(j, "ts"@) == Some(ts@)
                &&& member_text(j, "user"@) == Some(user@)
                &&& member_text(j, "text"@) == Some(text@)
                &&& (match inviter { Some(s) => member_text(j, "inviter"@) == Some(s@), None => member(j, "inviter"@) is Null })
            },
            Message::ChannelLeave { ts, user, text } => {
                &&& member_text(j, "subtype"@) == Some("channel_leave"@)
                &&& member_text(j, "ts"@) == Some(ts@)
                &&& member_text(j, "user"@) == Some(user@)
                &&& member_text(j, "text"@) == Some(text@)
            },
            Message::ChannelTopic { ts, user, topic, text } => {
                &&& member_text(j, "subtype"@) == Some("channel_topic"@)
                &&& member_text(j, "ts"@) == Some(ts@)
                &&& member_text(j, "user"@) == Some(user@)
                &&& member_text(j, "topic"@) == Some(topic@)
                &&& member_text(j, "text"@) == Some(text@)
            },
            Message::ChannelPurpose { ts, user, purpose, text } => {
                &&& member_text(j, "subtype"@) == Some("channel_purpose"@)
                &&& member_text(j, "ts"@) == Some(ts@)
                &&& member_text(j, "user"@) == Some(user@)
                &&& member_text(j, "purpose"@) == Some(purpose@)
                &&& member_text(j, "text"@) == Some(text@)
            },
            Message::ChannelName { ts, user, old_name, name, text } => {
                &&& member_text(j, "subtype"@) == Some("channel_name"@)
                &&& member_text(j, "ts"@) == Some(ts@)
                &&& member_text(j, "user"@) == Some(user@)
                &&& member_text(j, "old_name"@) == Some(old_name@)
                &&& member_text(j, "name"@) == Some(name@)
                &&& member_text(j, "text"@) == Some(text@)
            },
            Message::ChannelArchive { ts, text, user, members } => {
                &&& member_text(j, "subtype"@) == Some("channel_archive"@)
                &&& member_text(j, "ts"@) == Some(ts@)
                &&& member_text(j, "text"@) == Some(text@)
                &&& member_text(j, "user"@) == Some(user@)
                &&& members.decoded_from(member(j, "members"@))
            },
            Message::ChannelUnarchive { ts, text, user } => {
                &&& member_text(j, "subtype"@) == Some("channel_unarchive"@)
                &&& member_text(j, "ts"@) == Some(ts@)
                &&& member_text(j, "text"@) == Some(text@)
                &&& member_text(j, "user"@) == Some(user@)
            },
            Message::GroupJoin { ts, user, text, inviter } => {
                &&& member_text(j, "subtype"@) == Some("group_join"@)
                &&& member_text(j, "ts"@) == Some(ts@)
                &&& member_text(j, "user"@) == Some(user@)
                &&& member_text(j, "text"@) == Some(text@)
                &&& (match inviter { Some(s) => member_text(j, "inviter"@) == Some(s@), None => member(j, "inviter"@) is Null })
            },
            Message::GroupLeave { ts, user, text } => {
                &&& member_text(j, "subtype"@) == Some("group_leave"@)
                &&& member_text(j, "ts"@) == Some(ts@)
                &&& member_text(j, "user"@) == Some(user@)
                &&& member_text(j, "text"@) == Some(text@)
            },
            Message::GroupTopic { ts, user, topic, text } => {
                &&& member_text(j, "subtype"@) == Some("group_topic"@)
                &&& member_text(j, "ts"@) == Some(ts@)
                &&& member_text(j, "user"@) == Some(user@)
                &&& member_text(j, "topic"@) == Some(topic@)
                &&& member_text(j, "text"@) == Some(text@)
            },
            Message::GroupPurpose { ts, user, purpose, text } => {
                &&& member_text(j, "subtype"@) == Some("group_purpose"@)
                &&& member_text(j, "ts"@) == Some(ts@)
                &&& member_text(j, "user"@) == Some(user@)
                &&& member_text(j, "purpose"@) == Some(purpose@)
                &&& member_text(j, "text"@) == Some(text@)
            },
            Message::GroupName { ts, user, old_name, name, text } => {
                &&& member_text(j, "subtype"@) == Some("group_name"@)
                &&& member_text(j, "ts"@) == Some(ts@)
                &&& member_text(j, "user"@) == Some(user@)
                &&& member_text(j, "old_name"@) == Some(old_name@)
                &&& member_text(j, "name"@) == Some(name@)
                &&& member_text(j, "text"@) == Some(text@)
            },
            Message::GroupArchive { ts, text, user, members } => {
                &&& member_text(j, "subtype"@) == Some("group_archive"@)
                &&& member_text(j, "ts"@) == Some(ts@)
                &&& member_text(j, "text"@) == Some(text@)
                &&& member_text(j, "user"@) == Some(user@)
                &&& members.decoded_from(member(j, "members"@))
            },
            Message::GroupUnarchive { ts, text, user } => {
                &&& member_text(j, "subtype"@) == Some("group_unarchive"@)
                &&& member_text(j, "ts"@) == Some(ts@)
                &&& member_text(j, "text"@) == Some(text@)
                &&& member_text(j, "user"@) == Some(user@)
            },
            Message::FileShare { ts, text, file, user, upload } => {
                &&& member_text(j, "subtype"@) == Some("file_share"@)
                &&& member_text(j, "ts"@) == Some(ts@)
                &&& member_text(j, "text"@) == Some(text@)
                &&& file.decoded_from(member(j, "file"@))
                &&& member_text(j, "user"@) == Some(user@)
                &&& member(j, "upload"@) == Json::Bool(upload)
            },
            Message::FileComment { ts, text, file, comment } => {
                &&& member_text(j, "subtype"@) == Some("file_comment"@)
                &&& member_text(j, "ts"@) == Some(ts@)
                &&& member_text(j, "text"@) == Some(text@)
                &&& file.decoded_from(member(j, "file"@))
                &&& comment.decoded_from(member(j, "comment"@))
            },
            Message::FileMention { ts, text, file, user } => {
                &&& member_text(j, "subtype"@) == Some("file_mention"@)
                &&& member_text(j, "ts"@) == Some(ts@)
                &&& member_text(j, "text"@) == Some(text@)
                &&& file.decoded_from(member(j, "file"@))
                &&& member_text(j, "user"@) == Some(user@)
            },
            Message::PinnedItem { user, item_type, text, item, channel, ts, attachments } => {
                &&& member_text(j, "subtype"@) == Some("pinned_item"@)
                &&& member_text(j, "user"@) == Some(user@)
                &&& member_text(j, "item_type"@) == Some(item_type@)
                &&& member_text(j, "text"@) == Some(text@)
                &&& (match item { Some(it) => it.matches_json(member(j, "item"@)), None => member(j, "item"@) is Null })
                &&& member_text(j, "channel"@) == Some(channel@)
                &&& member_text(j, "ts"@) == Some(ts@)
                &&& attachments.decoded_from(member(j, "attachments"@))
            },
            Message::UnpinnedItem { user, item_type, text, item, channel, ts, attachments } => {
                &&& member_text(j, "subtype"@) == Some("unpinned_item"@)
                &&& member_text(j, "user"@) == Some(user@)
                &&& member_text(j, "item_type"@) == Some(item_type@)
                &&& member_text(j, "text"@) == Some(text@)
                &&& (match item { Some(it) => it.matches_json(member(j, "item"@)), None => member(j, "item"@) is Null })
                &&& member_text(j, "channel"@) == Some(channel@)
                &&& member_text(j, "ts"@) == Some(ts@)
                &&& attachments.decoded_from(member(j, "attachments"@))
            },
        },
{
}

/// Two objects whose members other than `type` agree have the same members
/// under each name that a message reads.
proof fn lemma_message_members_agree(j1: Json, j2: Json)
    requires
        forall|k: Seq<char>| k != "type"@ ==> #[trigger] present(j1, k) == present(j2, k),
    ensures
        member(j1, "attachments"@) == member(j2, "attachments"@),
        member(j1, "bot_id"@) == member(j2, "bot_id"@),
        member(j1, "channel"@) == member(j2, "channel"@),
        member(j1, "comment"@) == member(j2, "comment"@),
        member(j1, "deleted_ts"@) == member(j2, "deleted_ts"@),
        member(j1, "edited"@) == member(j2, "edited"@),
        member(j1, "file"@) == member(j2, "file"@),
        member(j1, "hidden"@) == member(j2, "hidden"@),
        member(j1, "icons"@) == member(j2, "icons"@),
        member(j1, "inviter"@) == member(j2, "inviter"@),
        member(j1, "is_starred"@) == member(j2, "is_starred"@),
        member(j1, "item"@) == member(j2, "item"@),
        member(j1, "item_type"@) == member(j2, "item_type"@),
        member(j1, "members"@) == member(j2, "members"@),
        member(j1, "message"@) == member(j2, "message"@),
        member(j1, "name"@) == member(j2, "name"@),
        member(j1, "old_name"@) == member(j2, "old_name"@),
        member(j1, "pinned_to"@) == member(j2, "pinned_to"@),
        member(j1, "purpose"@) == member(j2, "purpose"@),
        member(j1, "reactions"@) == member(j2, "reactions"@),
        member(j1, "text"@) == member(j2, "text"@),
        member(j1, "topic"@) == member(j2, "topic"@),
        member(j1, "ts"@) == member(j2, "ts"@),
        member(j1, "upload"@) == member(j2, "upload"@),
        member(j1, "user"@) == member(j2, "user"@),
        member(j1, "username"@) == member(j2, "username"@),
        member(j1, "subtype"@) == member(j2, "subtype"@),
        present(j1, "message"@) == present(j2, "message"@),
        present(j1, "item"@) == present(j2, "item"@),
{
    assert(present(j1, "attachments"@) == present(j2, "attachments"@)) by {
        reveal_strlit("attachments");
        reveal_strlit("type");
        assert("attachments"@.len() != "type"@.len());
    }
    assert(present(j1, "bot_id"@) == present(j2, "bot_id"@)) by {
        reveal_strlit("bot_id");
        reveal_strlit("type");
        assert("bot_id"@.len() != "type"@.len());
    }
    assert(present(j1, "channel"@) == present(j2, "channel"@)) by {
        reveal_strlit("channel");
        reveal_strlit("type");
        assert("channel"@.len() != "type"@.len());
    }
    assert(present(j1, "comment"@) == present(j2, "comment"@)) by {
        reveal_strlit("comment");
        reveal_strlit("type");
        assert("comment"@.len() != "type"@.len());
    }
    assert(present(j1, "deleted_ts"@) == present(j2, "deleted_ts"@)) by {
        reveal_strlit("deleted_ts");
        reveal_strlit("type");
        assert("deleted_ts"@.len() != "type"@.len());
    }
    assert(present(j1, "edited"@) == present(j2, "edited"@)) by {
        reveal_strlit("edited");
        reveal_strlit("type");
        assert("edited"@.len() != "type"@.len());
    }
    assert(present(j1, "file"@) == present(j2, "file"@)) by {
        reveal_strlit("file");
        reveal_strlit("type");
        assert("file"@[0] != "type"@[0]);
    }
    assert(present(j1, "hidden"@) == present(j2, "hidden"@)) by {
        reveal_strlit("hidden");
        reveal_strlit("type");
        assert("hidden"@.len() != "type"@.len());
    }
    assert(present(j1, "icons"@) == present(j2, "icons"@)) by {
        reveal_strlit("icons");
        reveal_strlit("type");
        assert("icons"@.len() != "type"@.len());
    }
    assert(present(j1, "inviter"@) == present(j2, "inviter"@)) by {
        reveal_strlit("inviter");
        reveal_strlit("type");
        assert("inviter"@.len() != "type"@.len());
    }
    assert(present(j1, "is_starred"@) == present(j2, "is_starred"@)) by {
        reveal_strlit("is_starred");
        reveal_strlit("type");
        assert("is_starred"@.len() != "type"@.len());
    }
    assert(present(j1, "item"@) == present(j2, "item"@)) by {
        reveal_strlit("item");
        reveal_strlit("type");
        assert("item"@[0] != "type"@[0]);
    }
    assert(present(j1, "item_type"@) == present(j2, "item_type"@)) by {
        reveal_strlit("item_type");
        reveal_strlit("type");
        assert("item_type"@.len() != "type"@.len());
    }
    assert(present(j1, "members"@) == present(j2, "members"@)) by {
        reveal_strlit("members");
        reveal_strlit("type");
        assert("members"@.len() != "type"@.len());
    }
    assert(present(j1, "message"@) == present(j2, "message"@)) by {
        reveal_strlit("message");
        reveal_strlit("type");
        assert("message"@.len() != "type"@.len());
    }
    assert(present(j1, "name"@) == present(j2, "name"@)) by {
        reveal_strlit("name");
        reveal_strlit("type");
        assert("name"@[0] != "type"@[0]);
    }
    assert(present(j1, "old_name"@) == present(j2, "old_name"@)) by {
        reveal_strlit("old_name");
        reveal_strlit("type");
        assert("old_name"@.len() != "type"@.len());
    }
    assert(present(j1, "pinned_to"@) == present(j2, "pinned_to"@)) by {
        reveal_strlit("pinned_to");
        reveal_strlit("type");
        assert("pinned_to"@.len() != "type"@.len());
    }
    assert(present(j1, "purpose"@) == present(j2, "purpose"@)) by {
        reveal_strlit("purpose");
        reveal_strlit("type");
        assert("purpose"@.len() != "type"@.len());
    }
    assert(present(j1, "reactions"@) == present(j2, "reactions"@)) by {
        reveal_strlit("reactions");
        reveal_strlit("type");
        assert("reactions"@.len() != "type"@.len());
    }
    assert(present(j1, "text"@) == present(j2, "text"@)) by {
        reveal_strlit("text");
        reveal_strlit("type");
        assert("text"@[1] != "type"@[1]);
    }
    assert(present(j1, "topic"@) == present(j2, "topic"@)) by {
        reveal_strlit("topic");
        reveal_strlit("type");
        assert("topic"@.len() != "type"@.len());
    }
    assert(present(j1, "ts"@) == present(j2, "ts"@)) by {
        reveal_strlit("ts");
        reveal_strlit("type");
        assert("ts"@.len() != "type"@.len());
    }
    assert(present(j1, "upload"@) == present(j2, "upload"@)) by {
        reveal_strlit("upload");
        reveal_strlit("type");
        assert("upload"@.len() != "type"@.len());
    }
    assert(present(j1, "user"@) == present(j2, "user"@)) by {
        reveal_strlit("user");
        reveal_strlit("type");
        assert("user"@[0] != "type"@[0]);
    }
    assert(present(j1, "username"@) == present(j2, "username"@)) by {
        reveal_strlit("username");
        reveal_strlit("type");
        assert("username"@.len() != "type"@.len());
    }
    assert(present(j1, "subtype"@) == present(j2, "subtype"@)) by {
        reveal_strlit("subtype");
        reveal_strlit("type");
        assert("subtype"@.len() != "type"@.len());
    }
    lemma_present_decreases(j1, "attachments"@);
    lemma_present_decreases(j2, "attachments"@);
    lemma_present_decreases(j1, "bot_id"@);
    lemma_present_decreases(j2, "bot_id"@);
    lemma_present_decreases(j1, "channel"@);
    lemma_present_decreases(j2, "channel"@);
    lemma_present_decreases(j1, "comment"@);
    lemma_present_decreases(j2, "comment"@);
    lemma_present_decreases(j1, "deleted_ts"@);
    lemma_present_decreases(j2, "deleted_ts"@);
    lemma_present_decreases(j1, "edited"@);
    lemma_present_decreases(j2, "edited"@);
    lemma_present_decreases(j1, "file"@);
    lemma_present_decreases(j2, "file"@);
    lemma_present_decreases(j1, "hidden"@);
    lemma_present_decreases(j2, "hidden"@);
    lemma_present_decreases(j1, "icons"@);
    lemma_present_decreases(j2, "icons"@);
    lemma_present_decreases(j1, "inviter"@);
    lemma_present_decreases(j2, "inviter"@);
    lemma_present_decreases(j1, "is_starred"@);
    lemma_present_decreases(j2, "is_starred"@);
    lemma_present_decreases(j1, "item"@);
    lemma_present_decreases(j2, "item"@);
    lemma_present_decreases(j1, "item_type"@);
    lemma_present_decreases(j2, "item_type"@);
    lemma_present_decreases(j1, "members"@);
    lemma_present_decreases(j2, "members"@);
    lemma_present_decreases(j1, "message"@);
    lemma_present_decreases(j2, "message"@);
    lemma_present_decreases(j1, "name"@);
    lemma_present_decreases(j2, "name"@);
    lemma_present_decreases(j1, "old_name"@);
    lemma_present_decreases(j2, "old_name"@);
    lemma_present_decreases(j1, "pinned_to"@);
    lemma_present_decreases(j2, "pinned_to"@);
    lemma_present_decreases(j1, "purpose"@);
    lemma_present_decreases(j2, "purpose"@);
    lemma_present_decreases(j1, "reactions"@);
    lemma_present_decreases(j2, "reactions"@);
    lemma_present_decreases(j1, "text"@);
    lemma_present_decreases(j2, "text"@);
    lemma_present_decreases(j1, "topic"@);
    lemma_present_decreases(j2, "topic"@);
    lemma_present_decreases(j1, "ts"@);
    lemma_present_decreases(j2, "ts"@);
    lemma_present_decreases(j1, "upload"@);
    lemma_present_decreases(j2, "upload"@);
    lemma_present_decreases(j1, "user"@);
    lemma_present_decreases(j2, "user"@);
    lemma_present_decreases(j1, "username"@);
    lemma_present_decreases(j2, "username"@);
    lemma_present_decreases(j1, "subtype"@);
    lemma_present_decreases(j2, "subtype"@);
}

/// The `type` member of an object does not count when a message is read out
/// of it: two objects that differ at most in that member hold the same
/// messages, name the same unknown subtype if any, and when no message is
/// read out of them report the same error.
#[verifier::rlimit(40)]
pub proof fn lemma_message_ignores_type(j1: Json, j2: Json)
    requires
        j1 is Object,
        j2 is Object,
        forall|k: Seq<char>| k != "type"@ ==> #[trigger] present(j1, k) == present(j2, k),
    ensures
        forall|m: Message| m.matches_json(j1) <==> m.matches_json(j2),
        Message::unknown_tag(j1) == Message::unknown_tag(j2),
        Message::failure_of(j1) == Message::failure_of(j2),
{
    lemma_message_members_agree(j1, j2);
    assert(Message::variant_failure(j1, 0) == Message::variant_failure(j2, 0));
    assert(Message::variant_failure(j1, 1) == Message::variant_failure(j2, 1));
    assert(Message::variant_failure(j1, 2) == Message::variant_failure(j2, 2));
    assert(Message::variant_failure(j1, 3) == Message::variant_failure(j2, 3));
    assert(Message::variant_failure(j1, 4) == Message::variant_failure(j2, 4));
    assert(Message::variant_failure(j1, 5) == Message::variant_failure(j2, 5));
    assert(Message::variant_failure(j1, 6) == Message::variant_failure(j2, 6));
    assert(Message::variant_failure(j1, 7) == Message::variant_failure(j2, 7));
    assert(Message::variant_failure(j1, 8) == Message::variant_failure(j2, 8));
    assert(Message::variant_failure(j1, 9) == Message::variant_failure(j2, 9));
    assert(Message::variant_failure(j1, 10) == Message::variant_failure(j2, 10));
    assert(Message::variant_failure(j1, 11) == Message::variant_failure(j2, 11));
    assert(Message::variant_failure(j1, 12) == Message::variant_failure(j2, 12));
    assert(Message::variant_failure(j1, 13) == Message::variant_failure(j2, 13));
    assert(Message::variant_failure(j1, 14) == Message::variant_failure(j2, 14));
    assert(Message::variant_failure(j1, 15) == Message::variant_failure(j2, 15));
    assert(Message::variant_failure(j1, 16) == Message::variant_failure(j2, 16));
    assert(Message::variant_failure(j1, 17) == Message::variant_failure(j2, 17));
    assert(Message::variant_failure(j1, 18) == Message::variant_failure(j2, 18));
    assert(Message::variant_failure(j1, 19) == Message::variant_failure(j2, 19));
    assert(Message::variant_failure(j1, 20) == Message::variant_failure(j2, 20));
    assert(Message::variant_failure(j1, 21) == Message::variant_failure(j2, 21));
    assert(Message::variant_failure(j1, 22) == Message::variant_failure(j2, 22));
    assert(Message::variant_failure(j1, 23) == Message::variant_failure(j2, 23));
}

} // verus!
