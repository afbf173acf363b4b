use vstd::prelude::*;

use crate::json::{decodable, find_member, read_member, member, str_eq, DecodeError, FromJson, Json, DecodeFailure, lemma_present_decreases, present, member_text};

verus! {

/// The `Reaction` object as found in the [`File`](https://api.slack.com/types/file) type and some
/// [`Message`](https://api.slack.com/events/message) responses.
#[derive(Clone, Debug)]
pub struct Reaction {
    pub name: String,
    pub count: u32,
    pub users: Vec<String>,
}

impl FromJson for Reaction {
    open spec fn decoded_from(&self, j: Json) -> bool {
        &&& j is Object
        &&& self.name.decoded_from(member(j, "name"@))
        &&& self.count.decoded_from(member(j, "count"@))
        &&& self.users.decoded_from(member(j, "users"@))
    }

    open spec fn failure(j: Json) -> DecodeFailure {
        if !(j is Object) {
            DecodeFailure::Malformed
        } else if !decodable::<String>(member(j, "name"@)) {
            <String as FromJson>::failure(member(j, "name"@))
        } else if !decodable::<u32>(member(j, "count"@)) {
            <u32 as FromJson>::failure(member(j, "count"@))
        } else if !decodable::<Vec<String>>(member(j, "users"@)) {
            <Vec<String> as FromJson>::failure(member(j, "users"@))
        } else {
            DecodeFailure::Malformed
        }
    }

    fn from_json(j: &Json) -> (r: Result<Self, DecodeError>) {
        if !j.is_object() {
            return Err(DecodeError::Malformed);
        }
        let name = read_member::<String>(j, "name")?;
        let count = read_member::<u32>(j, "count")?;
        let users = read_member::<Vec<String>>(j, "users")?;
        Ok(Reaction { name, count, users })
    }
}

/// A `Reaction` read out of a JSON value: the value is an object and each field
/// holds the member of the same name (`null` for an absent optional one).
pub proof fn lemma_reaction_members(j: Json, x: Reaction)
    requires
        x.decoded_from(j),
    ensures
        j is Object,
        member_text(j, "name"@) == Some(x.name@),
        member(j, "count"@) == Json::Int(x.count as i128),
        x.users.decoded_from(member(j, "users"@)),
{
}

/// The `Comment` object as found in the [`File`](https://api.slack.com/types/file) type and the
/// [`files.info`](https://api.slack.com/methods/files.info) response.
#[derive(Clone, Debug)]
pub struct Comment {
    pub id: String,
    pub timestamp: u32,
    pub user: String,
    pub comment: String,
    pub reactions: Option<Vec<Reaction>>,
}

impl FromJson for Comment {
    open spec fn decoded_from(&self, j: Json) -> bool {
        &&& j is Object
        &&& self.id.decoded_from(member(j, "id"@))
        &&& self.timestamp.decoded_from(member(j, "timestamp"@))
        &&& self.user.decoded_from(member(j, "user"@))
        &&& self.comment.decoded_from(member(j, "comment"@))
        &&& self.reactions.decoded_from(member(j, "reactions"@))
    }

    open spec fn failure(j: Json) -> DecodeFailure {
        if !(j is Object) {
            DecodeFailure::Malformed
        } else if !decodable::<String>(member(j, "id"@)) {
            <String as FromJson>::failure(member(j, "id"@))
        } else if !decodable::<u32>(member(j, "timestamp"@)) {
            <u32 as FromJson>::failure(member(j, "timestamp"@))
        } else if !decodable::<String>(member(j, "user"@)) {
            <String as FromJson>::failure(member(j, "user"@))
        } else if !decodable::<String>(member(j, "comment"@)) {
            <String as FromJson>::failure(member(j, "comment"@))
        } else if !decodable::<Option<Vec<Reaction>>>(member(j, "reactions"@)) {
            <Option<Vec<Reaction>> as FromJson>::failure(member(j, "reactions"@))
        } else {
            DecodeFailure::Malformed
        }
    }

    fn from_json(j: &Json) -> (r: Result<Self, DecodeError>) {
        if !j.is_object() {
            return Err(DecodeError::Malformed);
        }
        let id = read_member::<String>(j, "id")?;
        let timestamp = read_member::<u32>(j, "timestamp")?;
        let user = read_member::<String>(j, "user")?;
        let comment = read_member::<String>(j, "comment")?;
        let reactions = read_member::<Option<Vec<Reaction>>>(j, "reactions")?;
        Ok(Comment { id, timestamp, user, comment, reactions })
    }
}

/// A `Comment` read out of a JSON value: the value is an object and each field
/// holds the member of the same name (`null` for an absent optional one).
pub proof fn lemma_comment_members(j: Json, x: Comment)
    requires
        x.decoded_from(j),
    ensures
        j is Object,
        member_text(j, "id"@) == Some(x.id@),
        member(j, "timestamp"@) == Json::Int(x.timestamp as i128),
        member_text(j, "user"@) == Some(x.user@),
        member_text(j, "comment"@) == Some(x.comment@),
        x.reactions.decoded_from(member(j, "reactions"@)),
{
}

/// The Slack [`File`](https://api.slack.com/types/file) type.
#[derive(Clone, Debug)]
pub struct File {
    pub id: String,
    pub created: Option<u32>,
    pub timestamp: Option<u32>,
    pub name: Option<String>,
    pub title: String,
    pub mimetype: String,
    pub filetype: String,
    pub pretty_type: String,
    pub user: String,
    pub mode: String,
    pub editable: bool,
    pub is_external: bool,
    pub external_type: String,
    pub size: u32,
    pub url: String,
    pub url_download: Option<String>,
    pub url_private: String,
    pub url_private_download: String,
    pub thumb_64: String,
    pub thumb_80: String,
    pub thumb_360: String,
    pub thumb_360_gif: Option<String>,
    pub thumb_360_w: u32,
    pub thumb_360_h: u32,
    pub permalink: String,
    pub edit_link: Option<String>,
    pub preview: Option<String>,
    pub preview_highlight: Option<String>,
    pub lines: Option<u32>,
    pub lines_more: Option<u32>,
    pub is_public: bool,
    pub public_url_shared: bool,
    pub channels: Vec<String>,
    pub groups: Vec<String>,
    pub ims: Option<Vec<String>>,
    pub initial_comment: Option<Comment>,
    pub num_stars: Option<u32>,
    pub is_starred: Option<bool>,
    pub pinned_to: Option<Vec<String>>,
    pub reactions: Option<Vec<Reaction>>,
}

impl FromJson for File {
    open spec fn decoded_from(&self, j: Json) -> bool {
        &&& j is Object
        &&& self.id.decoded_from(member(j, "id"@))
        &&& self.created.decoded_from(member(j, "created"@))
        &&& self.timestamp.decoded_from(member(j, "timestamp"@))
        &&& self.name.decoded_from(member(j, "name"@))
        &&& self.title.decoded_from(member(j, "title"@))
        &&& self.mimetype.decoded_from(member(j, "mimetype"@))
        &&& self.filetype.decoded_from(member(j, "filetype"@))
        &&& self.pretty_type.decoded_from(member(j, "pretty_type"@))
        &&& self.user.decoded_from(member(j, "user"@))
        &&& self.mode.decoded_from(member(j, "mode"@))
        &&& self.editable.decoded_from(member(j, "editable"@))
        &&& self.is_external.decoded_from(member(j, "is_external"@))
        &&& self.external_type.decoded_from(member(j, "external_type"@))
        &&& self.size.decoded_from(member(j, "size"@))
        &&& self.url.decoded_from(member(j, "url"@))
        &&& self.url_download.decoded_from(member(j, "url_download"@))
        &&& self.url_private.decoded_from(member(j, "url_private"@))
        &&& self.url_private_download.decoded_from(member(j, "url_private_download"@))
        &&& self.thumb_64.decoded_from(member(j, "thumb_64"@))
        &&& self.thumb_80.decoded_from(member(j, "thumb_80"@))
        &&& self.thumb_360.decoded_from(member(j, "thumb_360"@))
        &&& self.thumb_360_gif.decoded_from(member(j, "thumb_360_gif"@))
        &&& self.thumb_360_w.decoded_from(member(j, "thumb_360_w"@))
        &&& self.thumb_360_h.decoded_from(member(j, "thumb_360_h"@))
        &&& self.permalink.decoded_from(member(j, "permalink"@))
        &&& self.edit_link.decoded_from(member(j, "edit_link"@))
        &&& self.preview.decoded_from(member(j, "preview"@))
        &&& self.preview_highlight.decoded_from(member(j, "preview_highlight"@))
        &&& self.lines.decoded_from(member(j, "lines"@))
        &&& self.lines_more.decoded_from(member(j, "lines_more"@))
        &&& self.is_public.decoded_from(member(j, "is_public"@))
        &&& self.public_url_shared.decoded_from(member(j, "public_url_shared"@))
        &&& self.channels.decoded_from(member(j, "channels"@))
        &&& self.groups.decoded_from(member(j, "groups"@))
        &&& self.ims.decoded_from(member(j, "ims"@))
        &&& self.initial_comment.decoded_from(member(j, "initial_comment"@))
        &&& self.num_stars.decoded_from(member(j, "num_stars"@))
        &&& self.is_starred.decoded_from(member(j, "is_starred"@))
        &&& self.pinned_to.decoded_from(member(j, "pinned_to"@))
        &&& self.reactions.decoded_from(member(j, "reactions"@))
    }

    open spec fn failure(j: Json) -> DecodeFailure {
        if !(j is Object) {
            DecodeFailure::Malformed
        } else if !decodable::<String>(member(j, "id"@)) {
            <String as FromJson>::failure(member(j, "id"@))
        } else if !decodable::<Option<u32>>(member(j, "created"@)) {
            <Option<u32> as FromJson>::failure(member(j, "created"@))
        } else if !decodable::<Option<u32>>(member(j, "timestamp"@)) {
            <Option<u32> as FromJson>::failure(member(j, "timestamp"@))
        } else if !decodable::<Option<String>>(member(j, "name"@)) {
            <Option<String> as FromJson>::failure(member(j, "name"@))
        } else if !decodable::<String>(member(j, "title"@)) {
            <String as FromJson>::failure(member(j, "title"@))
        } else if !decodable::<String>(member(j, "mimetype"@)) {
            <String as FromJson>::failure(member(j, "mimetype"@))
        } else if !decodable::<String>(member(j, "filetype"@)) {
            <String as FromJson>::failure(member(j, "filetype"@))
        } else if !decodable::<String>(member(j, "pretty_type"@)) {
            <String as FromJson>::failure(member(j, "pretty_type"@))
        } else if !decodable::<String>(member(j, "user"@)) {
            <String as FromJson>::failure(member(j, "user"@))
        } else if !decodable::<String>(member(j, "mode"@)) {
            <String as FromJson>::failure(member(j, "mode"@))
        } else if !decodable::<bool>(member(j, "editable"@)) {
            <bool as FromJson>::failure(member(j, "editable"@))
        } else if !decodable::<bool>(member(j, "is_external"@)) {
            <bool as FromJson>::failure(member(j, "is_external"@))
        } else if !decodable::<String>(member(j, "external_type"@)) {
            <String as FromJson>::failure(member(j, "external_type"@))
        } else if !decodable::<u32>(member(j, "size"@)) {
            <u32 as FromJson>::failure(member(j, "size"@))
        } else if !decodable::<String>(member(j, "url"@)) {
            <String as FromJson>::failure(member(j, "url"@))
        } else if !decodable::<Option<String>>(member(j, "url_download"@)) {
            <Option<String> as FromJson>::failure(member(j, "url_download"@))
        } else if !decodable::<String>(member(j, "url_private"@)) {
            <String as FromJson>::failure(member(j, "url_private"@))
        } else if !decodable::<String>(member(j, "url_private_download"@)) {
            <String as FromJson>::failure(member(j, "url_private_download"@))
        } else if !decodable::<String>(member(j, "thumb_64"@)) {
            <String as FromJson>::failure(member(j, "thumb_64"@))
        } else if !decodable::<String>(member(j, "thumb_80"@)) {
            <String as FromJson>::failure(member(j, "thumb_80"@))
        } else if !decodable::<String>(member(j, "thumb_360"@)) {
            <String as FromJson>::failure(member(j, "thumb_360"@))
        } else if !decodable::<Option<String>>(member(j, "thumb_360_gif"@)) {
            <Option<String> as FromJson>::failure(member(j, "thumb_360_gif"@))
        } else if !decodable::<u32>(member(j, "thumb_360_w"@)) {
            <u32 as FromJson>::failure(member(j, "thumb_360_w"@))
        } else if !decodable::<u32>(member(j, "thumb_360_h"@)) {
            <u32 as FromJson>::failure(member(j, "thumb_360_h"@))
        } else if !decodable::<String>(member(j, "permalink"@)) {
            <String as FromJson>::failure(member(j, "permalink"@))
        } else if !decodable::<Option<String>>(member(j, "edit_link"@)) {
            <Option<String> as FromJson>::failure(member(j, "edit_link"@))
        } else if !decodable::<Option<String>>(member(j, "preview"@)) {
            <Option<String> as FromJson>::failure(member(j, "preview"@))
        } else if !decodable::<Option<String>>(member(j, "preview_highlight"@)) {
            <Option<String> as FromJson>::failure(member(j, "preview_highlight"@))
        } else if !decodable::<Option<u32>>(member(j, "lines"@)) {
            <Option<u32> as FromJson>::failure(member(j, "lines"@))
        } else if !decodable::<Option<u32>>(member(j, "lines_more"@)) {
            <Option<u32> as FromJson>::failure(member(j, "lines_more"@))
        } else if !decodable::<bool>(member(j, "is_public"@)) {
            <bool as FromJson>::failure(member(j, "is_public"@))
        } else if !decodable::<bool>(member(j, "public_url_shared"@)) {
            <bool as FromJson>::failure(member(j, "public_url_shared"@))
        } else if !decodable::<Vec<String>>(member(j, "channels"@)) {
            <Vec<String> as FromJson>::failure(member(j, "channels"@))
        } else if !decodable::<Vec<String>>(member(j, "groups"@)) {
            <Vec<String> as FromJson>::failure(member(j, "groups"@))
        } else if !decodable::<Option<Vec<String>>>(member(j, "ims"@)) {
            <Option<Vec<String>> as FromJson>::failure(member(j, "ims"@))
        } else if !decodable::<Option<Comment>>(member(j, "initial_comment"@)) {
            <Option<Comment> as FromJson>::failure(member(j, "initial_comment"@))
        } else if !decodable::<Option<u32>>(member(j, "num_stars"@)) {
            <Option<u32> as FromJson>::failure(member(j, "num_stars"@))
        } else if !decodable::<Option<bool>>(member(j, "is_starred"@)) {
            <Option<bool> as FromJson>::failure(member(j, "is_starred"@))
        } else if !decodable::<Option<Vec<String>>>(member(j, "pinned_to"@)) {
            <Option<Vec<String>> as FromJson>::failure(member(j, "pinned_to"@))
        } else if !decodable::<Option<Vec<Reaction>>>(member(j, "reactions"@)) {
            <Option<Vec<Reaction>> as FromJson>::failure(member(j, "reactions"@))
        } else {
            DecodeFailure::Malformed
        }
    }

    fn from_json(j: &Json) -> (r: Result<Self, DecodeError>) {
        if !j.is_object() {
            return Err(DecodeError::Malformed);
        }
        let id = read_member::<String>(j, "id")?;
        let created = read_member::<Option<u32>>(j, "created")?;
        let timestamp = read_member::<Option<u32>>(j, "timestamp")?;
        let name = read_member::<Option<String>>(j, "name")?;
        let title = read_member::<String>(j, "title")?;
        let mimetype = read_member::<String>(j, "mimetype")?;
        let filetype = read_member::<String>(j, "filetype")?;
        let pretty_type = read_member::<String>(j, "pretty_type")?;
        let user = read_member::<String>(j, "user")?;
        let mode = read_member::<String>(j, "mode")?;
        let editable = read_member::<bool>(j, "editable")?;
        let is_external = read_member::<bool>(j, "is_external")?;
        let external_type = read_member::<String>(j, "external_type")?;
        let size = read_member::<u32>(j, "size")?;
        let url = read_member::<String>(j, "url")?;
        let url_download = read_member::<Option<String>>(j, "url_download")?;
        let url_private = read_member::<String>(j, "url_private")?;
        let url_private_download = read_member::<String>(j, "url_private_download")?;
        let thumb_64 = read_member::<String>(j, "thumb_64")?;
        let thumb_80 = read_member::<String>(j, "thumb_80")?;
        let thumb_360 = read_member::<String>(j, "thumb_360")?;
        let thumb_360_gif = read_member::<Option<String>>(j, "thumb_360_gif")?;
        let thumb_360_w = read_member::<u32>(j, "thumb_360_w")?;
        let thumb_360_h = read_member::<u32>(j, "thumb_360_h")?;
        let permalink = read_member::<String>(j, "permalink")?;
        let edit_link = read_member::<Option<String>>(j, "edit_link")?;
        let preview = read_member::<Option<String>>(j, "preview")?;
        let preview_highlight = read_member::<Option<String>>(j, "preview_highlight")?;
        let lines = read_member::<Option<u32>>(j, "lines")?;
        let lines_more = read_member::<Option<u32>>(j, "lines_more")?;
        let is_public = read_member::<bool>(j, "is_public")?;
        let public_url_shared = read_member::<bool>(j, "public_url_shared")?;
        let channels = read_member::<Vec<String>>(j, "channels")?;
        let groups = read_member::<Vec<String>>(j, "groups")?;
        let ims = read_member::<Option<Vec<String>>>(j, "ims")?;
        let initial_comment = read_member::<Option<Comment>>(j, "initial_comment")?;
        let num_stars = read_member::<Option<u32>>(j, "num_stars")?;
        let is_starred = read_member::<Option<bool>>(j, "is_starred")?;
        let pinned_to = read_member::<Option<Vec<String>>>(j, "pinned_to")?;
        let reactions = read_member::<Option<Vec<Reaction>>>(j, "reactions")?;
        Ok(File {
            id,
            created,
            timestamp,
            name,
            title,
            mimetype,
            filetype,
            pretty_type,
            user,
            mode,
            editable,
            is_external,
            external_type,
            size,
            url,
            url_download,
            url_private,
            url_private_download,
            thumb_64,
            thumb_80,
            thumb_360,
            thumb_360_gif,
            thumb_360_w,
            thumb_360_h,
            permalink,
            edit_link,
            preview,
            preview_highlight,
            lines,
            lines_more,
            is_public,
            public_url_shared,
            channels,
            groups,
            ims,
            initial_comment,
            num_stars,
            is_starred,
            pinned_to,
            reactions,
        })
    }
}

/// A `File` read out of a JSON value: the value is an object and each field
/// holds the member of the same name (`null` for an absent optional one).
pub proof fn lemma_file_members(j: Json, x: File)
    requires
        x.decoded_from(j),
    ensures
        j is Object,
        member_text(j, "id"@) == Some(x.id@),
        member(j, "created"@) == (match x.created { Some(n) => Json::Int(n as i128), None => Json::Null }),
        member(j, "timestamp"@) == (match x.timestamp { Some(n) => Json::Int(n as i128), None => Json::Null }),
        (match x.name { Some(s) => member_text(j, "name"@) == Some(s@), None => member(j, "name"@) is Null }),
        member_text(j, "title"@) == Some(x.title@),
        member_text(j, "mimetype"@) == Some(x.mimetype@),
        member_text(j, "filetype"@) == Some(x.filetype@),
        member_text(j, "pretty_type"@) == Some(x.pretty_type@),
        member_text(j, "user"@) == Some(x.user@),
        member_text(j, "mode"@) == Some(x.mode@),
        member(j, "editable"@) == Json::Bool(x.editable),
        member(j, "is_external"@) == Json::Bool(x.is_external),
        member_text(j, "external_type"@) == Some(x.external_type@),
        member(j, "size"@) == Json::Int(x.size as i128),
        member_text(j, "url"@) == Some(x.url@),
        (match x.url_download { Some(s) => member_text(j, "url_download"@) == Some(s@), None => member(j, "url_download"@) is Null }),
        member_text(j, "url_private"@) == Some(x.url_private@),
        member_text(j, "url_private_download"@) == Some(x.url_private_download@),
        member_text(j, "thumb_64"@) == Some(x.thumb_64@),
        member_text(j, "thumb_80"@) == Some(x.thumb_80@),
        member_text(j, "thumb_360"@) == Some(x.thumb_360@),
        (match x.thumb_360_gif { Some(s) => member_text(j, "thumb_360_gif"@) == Some(s@), None => member(j, "thumb_360_gif"@) is Null }),
        member(j, "thumb_360_w"@) == Json::Int(x.thumb_360_w as i128),
        member(j, "thumb_360_h"@) == Json::Int(x.thumb_360_h as i128),
        member_text(j, "permalink"@) == Some(x.permalink@),
        (match x.edit_link { Some(s) => member_text(j, "edit_link"@) == Some(s@), None => member(j, "edit_link"@) is Null }),
        (match x.preview { Some(s) => member_text(j, "preview"@) == Some(s@), None => member(j, "preview"@) is Null }),
        (match x.preview_highlight { Some(s) => member_text(j, "preview_highlight"@) == Some(s@), None => member(j, "preview_highlight"@) is Null }),
        member(j, "lines"@) == (match x.lines { Some(n) => Json::Int(n as i128), None => Json::Null }),
        member(j, "lines_more"@) == (match x.lines_more { Some(n) => Json::Int(n as i128), None => Json::Null }),
        member(j, "is_public"@) == Json::Bool(x.is_public),
        member(j, "public_url_shared"@) == Json::Bool(x.public_url_shared),
        x.channels.decoded_from(member(j, "channels"@)),
        x.groups.decoded_from(member(j, "groups"@)),
        x.ims.decoded_from(member(j, "ims"@)),
        x.initial_comment.decoded_from(member(j, "initial_comment"@)),
        member(j, "num_stars"@) == (match x.num_stars { Some(n) => Json::Int(n as i128), None => Json::Null }),
        member(j, "is_starred"@) == (match x.is_starred { Some(b) => Json::Bool(b), None => Json::Null }),
        x.pinned_to.decoded_from(member(j, "pinned_to"@)),
        x.reactions.decoded_from(member(j, "reactions"@)),
{
}

/// The `Paging` object as found in API endpoints that return pages of items.
#[derive(Clone, Debug)]
pub struct Pagination {
    pub count: u32,
    pub total: u32,
    pub page: u32,
    pub pages: u32,
}

impl FromJson for Pagination {
    open spec fn decoded_from(&self, j: Json) -> bool {
        &&& j is Object
        &&& self.count.decoded_from(member(j, "count"@))
        &&& self.total.decoded_from(member(j, "total"@))
        &&& self.page.decoded_from(member(j, "page"@))
        &&& self.pages.decoded_from(member(j, "pages"@))
    }

    open spec fn failure(j: Json) -> DecodeFailure {
        if !(j is Object) {
            DecodeFailure::Malformed
        } else if !decodable::<u32>(member(j, "count"@)) {
            <u32 as FromJson>::failure(member(j, "count"@))
        } else if !decodable::<u32>(member(j, "total"@)) {
            <u32 as FromJson>::failure(member(j, "total"@))
        } else if !decodable::<u32>(member(j, "page"@)) {
            <u32 as FromJson>::failure(member(j, "page"@))
        } else if !decodable::<u32>(member(j, "pages"@)) {
            <u32 as FromJson>::failure(member(j, "pages"@))
        } else {
            DecodeFailure::Malformed
        }
    }

    fn from_json(j: &Json) -> (r: Result<Self, DecodeError>) {
        if !j.is_object() {
            return Err(DecodeError::Malformed);
        }
        let count = read_member::<u32>(j, "count")?;
        let total = read_member::<u32>(j, "total")?;
        let page = read_member::<u32>(j, "page")?;
        let pages = read_member::<u32>(j, "pages")?;
        Ok(Pagination { count, total, page, pages })
    }
}

/// A `Pagination` read out of a JSON value: the value is an object and each field
/// holds the member of the same name (`null` for an absent optional one).
pub proof fn lemma_pagination_members(j: Json, x: Pagination)
    requires
        x.decoded_from(j),
    ensures
        j is Object,
        member(j, "count"@) == Json::Int(x.count as i128),
        member(j, "total"@) == Json::Int(x.total as i128),
        member(j, "page"@) == Json::Int(x.page as i128),
        member(j, "pages"@) == Json::Int(x.pages as i128),
{
}

/// The Slack [`Channel`](https://api.slack.com/types/channel) type.
#[derive(Clone, Debug)]
pub struct Channel {
    pub id: String,
    pub name: String,
    pub is_channel: bool,
    pub created: i64,
    pub creator: String,
    pub is_archived: bool,
    pub is_general: bool,
    pub members: Option<Vec<String>>,
    pub topic: Option<Topic>,
    pub purpose: Option<Purpose>,
    pub is_member: bool,
    pub last_read: Option<String>,
    pub unread_count: Option<i64>,
    pub unread_count_display: Option<i64>,
}

impl FromJson for Channel {
    open spec fn decoded_from(&self, j: Json) -> bool {
        &&& j is Object
        &&& self.id.decoded_from(member(j, "id"@))
        &&& self.name.decoded_from(member(j, "name"@))
        &&& self.is_channel.decoded_from(member(j, "is_channel"@))
        &&& self.created.decoded_from(member(j, "created"@))
        &&& self.creator.decoded_from(member(j, "creator"@))
        &&& self.is_archived.decoded_from(member(j, "is_archived"@))
        &&& self.is_general.decoded_from(member(j, "is_general"@))
        &&& self.members.decoded_from(member(j, "members"@))
        &&& self.topic.decoded_from(member(j, "topic"@))
        &&& self.purpose.decoded_from(member(j, "purpose"@))
        &&& self.is_member.decoded_from(member(j, "is_member"@))
        &&& self.last_read.decoded_from(member(j, "last_read"@))
        &&& self.unread_count.decoded_from(member(j, "unread_count"@))
        &&& self.unread_count_display.decoded_from(member(j, "unread_count_display"@))
    }

    open spec fn failure(j: Json) -> DecodeFailure {
        if !(j is Object) {
            DecodeFailure::Malformed
        } else if !decodable::<String>(member(j, "id"@)) {
            <String as FromJson>::failure(member(j, "id"@))
        } else if !decodable::<String>(member(j, "name"@)) {
            <String as FromJson>::failure(member(j, "name"@))
        } else if !decodable::<bool>(member(j, "is_channel"@)) {
            <bool as FromJson>::failure(member(j, "is_channel"@))
        } else if !decodable::<i64>(member(j, "created"@)) {
            <i64 as FromJson>::failure(member(j, "created"@))
        } else if !decodable::<String>(member(j, "creator"@)) {
            <String as FromJson>::failure(member(j, "creator"@))
        } else if !decodable::<bool>(member(j, "is_archived"@)) {
            <bool as FromJson>::failure(member(j, "is_archived"@))
        } else if !decodable::<bool>(member(j, "is_general"@)) {
            <bool as FromJson>::failure(member(j, "is_general"@))
        } else if !decodable::<Option<Vec<String>>>(member(j, "members"@)) {
            <Option<Vec<String>> as FromJson>::failure(member(j, "members"@))
        } else if !decodable::<Option<Topic>>(member(j, "topic"@)) {
            <Option<Topic> as FromJson>::failure(member(j, "topic"@))
        } else if !decodable::<Option<Purpose>>(member(j, "purpose"@)) {
            <Option<Purpose> as FromJson>::failure(member(j, "purpose"@))
        } else if !decodable::<bool>(member(j, "is_member"@)) {
            <bool as FromJson>::failure(member(j, "is_member"@))
        } else if !decodable::<Option<String>>(member(j, "last_read"@)) {
            <Option<String> as FromJson>::failure(member(j, "last_read"@))
        } else if !decodable::<Option<i64>>(member(j, "unread_count"@)) {
            <Option<i64> as FromJson>::failure(member(j, "unread_count"@))
        } else if !decodable::<Option<i64>>(member(j, "unread_count_display"@)) {
            <Option<i64> as FromJson>::failure(member(j, "unread_count_display"@))
        } else {
            DecodeFailure::Malformed
        }
    }

    fn from_json(j: &Json) -> (r: Result<Self, DecodeError>) {
        if !j.is_object() {
            return Err(DecodeError::Malformed);
        }
        let id = read_member::<String>(j, "id")?;
        let name = read_member::<String>(j, "name")?;
        let is_channel = read_member::<bool>(j, "is_channel")?;
        let created = read_member::<i64>(j, "created")?;
        let creator = read_member::<String>(j, "creator")?;
        let is_archived = read_member::<bool>(j, "is_archived")?;
        let is_general = read_member::<bool>(j, "is_general")?;
        let members = read_member::<Option<Vec<String>>>(j, "members")?;
        let topic = read_member::<Option<Topic>>(j, "topic")?;
        let purpose = read_member::<Option<Purpose>>(j, "purpose")?;
        let is_member = read_member::<bool>(j, "is_member")?;
        let last_read = read_member::<Option<String>>(j, "last_read")?;
        let unread_count = read_member::<Option<i64>>(j, "unread_count")?;
        let unread_count_display = read_member::<Option<i64>>(j, "unread_count_display")?;
        Ok(Channel {
            id,
            name,
            is_channel,
            created,
            creator,
            is_archived,
            is_general,
            members,
            topic,
            purpose,
            is_member,
            last_read,
            unread_count,
            unread_count_display,
        })
    }
}

/// A `Channel` read out of a JSON value: the value is an object and each field
/// holds the member of the same name (`null` for an absent optional one).
pub proof fn lemma_channel_members(j: Json, x: Channel)
    requires
        x.decoded_from(j),
    ensures
        j is Object,
        member_text(j, "id"@) == Some(x.id@),
        member_text(j, "name"@) == Some(x.name@),
        member(j, "is_channel"@) == Json::Bool(x.is_channel),
        member(j, "created"@) == Json::Int(x.created as i128),
        member_text(j, "creator"@) == Some(x.creator@),
        member(j, "is_archived"@) == Json::Bool(x.is_archived),
        member(j, "is_general"@) == Json::Bool(x.is_general),
        x.members.decoded_from(member(j, "members"@)),
        x.topic.decoded_from(member(j, "topic"@)),
        x.purpose.decoded_from(member(j, "purpose"@)),
        member(j, "is_member"@) == Json::Bool(x.is_member),
        (match x.last_read { Some(s) => member_text(j, "last_read"@) == Some(s@), None => member(j, "last_read"@) is Null }),
        member(j, "unread_count"@) == (match x.unread_count { Some(n) => Json::Int(n as i128), None => Json::Null }),
        member(j, "unread_count_display"@) == (match x.unread_count_display { Some(n) => Json::Int(n as i128), None => Json::Null }),
{
}

/// The Slack [`Group`](https://api.slack.com/types/group) type.
#[derive(Clone, Debug)]
pub struct Group {
    pub id: String,
    pub name: String,
    pub is_group: bool,
    pub created: i64,
    pub creator: String,
    pub is_archived: bool,
    pub members: Option<Vec<String>>,
    pub topic: Option<Topic>,
    pub purpose: Option<Purpose>,
    pub last_read: Option<String>,
    pub unread_count: Option<i64>,
    pub unread_count_display: Option<i64>,
}

impl FromJson for Group {
    open spec fn decoded_from(&self, j: Json) -> bool {
        &&& j is Object
        &&& self.id.decoded_from(member(j, "id"@))
        &&& self.name.decoded_from(member(j, "name"@))
        &&& self.is_group.decoded_from(member(j, "is_group"@))
        &&& self.created.decoded_from(member(j, "created"@))
        &&& self.creator.decoded_from(member(j, "creator"@))
        &&& self.is_archived.decoded_from(member(j, "is_archived"@))
        &&& self.members.decoded_from(member(j, "members"@))
        &&& self.topic.decoded_from(member(j, "topic"@))
        &&& self.purpose.decoded_from(member(j, "purpose"@))
        &&& self.last_read.decoded_from(member(j, "last_read"@))
        &&& self.unread_count.decoded_from(member(j, "unread_count"@))
        &&& self.unread_count_display.decoded_from(member(j, "unread_count_display"@))
    }

    open spec fn failure(j: Json) -> DecodeFailure {
        if !(j is Object) {
            DecodeFailure::Malformed
        } else if !decodable::<String>(member(j, "id"@)) {
            <String as FromJson>::failure(member(j, "id"@))
        } else if !decodable::<String>(member(j, "name"@)) {
            <String as FromJson>::failure(member(j, "name"@))
        } else if !decodable::<bool>(member(j, "is_group"@)) {
            <bool as FromJson>::failure(member(j, "is_group"@))
        } else if !decodable::<i64>(member(j, "created"@)) {
            <i64 as FromJson>::failure(member(j, "created"@))
        } else if !decodable::<String>(member(j, "creator"@)) {
            <String as FromJson>::failure(member(j, "creator"@))
        } else if !decodable::<bool>(member(j, "is_archived"@)) {
            <bool as FromJson>::failure(member(j, "is_archived"@))
        } else if !decodable::<Option<Vec<String>>>(member(j, "members"@)) {
            <Option<Vec<String>> as FromJson>::failure(member(j, "members"@))
        } else if !decodable::<Option<Topic>>(member(j, "topic"@)) {
            <Option<Topic> as FromJson>::failure(member(j, "topic"@))
        } else if !decodable::<Option<Purpose>>(member(j, "purpose"@)) {
            <Option<Purpose> as FromJson>::failure(member(j, "purpose"@))
        } else if !decodable::<Option<String>>(member(j, "last_read"@)) {
            <Option<String> as FromJson>::failure(member(j, "last_read"@))
        } else if !decodable::<Option<i64>>(member(j, "unread_count"@)) {
            <Option<i64> as FromJson>::failure(member(j, "unread_count"@))
        } else if !decodable::<Option<i64>>(member(j, "unread_count_display"@)) {
            <Option<i64> as FromJson>::failure(member(j, "unread_count_display"@))
        } else {
            DecodeFailure::Malformed
        }
    }

    fn from_json(j: &Json) -> (r: Result<Self, DecodeError>) {
        if !j.is_object() {
            return Err(DecodeError::Malformed);
        }
        let id = read_member::<String>(j, "id")?;
        let name = read_member::<String>(j, "name")?;
        let is_group = read_member::<bool>(j, "is_group")?;
        let created = read_member::<i64>(j, "created")?;
        let creator = read_member::<String>(j, "creator")?;
        let is_archived = read_member::<bool>(j, "is_archived")?;
        let members = read_member::<Option<Vec<String>>>(j, "members")?;
        let topic = read_member::<Option<Topic>>(j, "topic")?;
        let purpose = read_member::<Option<Purpose>>(j, "purpose")?;
        let last_read = read_member::<Option<String>>(j, "last_read")?;
        let unread_count = read_member::<Option<i64>>(j, "unread_count")?;
        let unread_count_display = read_member::<Option<i64>>(j, "unread_count_display")?;
        Ok(Group {
            id,
            name,
            is_group,
            created,
            creator,
            is_archived,
            members,
            topic,
            purpose,
            last_read,
            unread_count,
            unread_count_display,
        })
    }
}

/// A `Group` read out of a JSON value: the value is an object and each field
/// holds the member of the same name (`null` for an absent optional one).
pub proof fn lemma_group_members(j: Json, x: Group)
    requires
        x.decoded_from(j),
    ensures
        j is Object,
        member_text(j, "id"@) == Some(x.id@),
        member_text(j, "name"@) == Some(x.name@),
        member(j, "is_group"@) == Json::Bool(x.is_group),
        member(j, "created"@) == Json::Int(x.created as i128),
        member_text(j, "creator"@) == Some(x.creator@),
        member(j, "is_archived"@) == Json::Bool(x.is_archived),
        x.members.decoded_from(member(j, "members"@)),
        x.topic.decoded_from(member(j, "topic"@)),
        x.purpose.decoded_from(member(j, "purpose"@)),
        (match x.last_read { Some(s) => member_text(j, "last_read"@) == Some(s@), None => member(j, "last_read"@) is Null }),
        member(j, "unread_count"@) == (match x.unread_count { Some(n) => Json::Int(n as i128), None => Json::Null }),
        member(j, "unread_count_display"@) == (match x.unread_count_display { Some(n) => Json::Int(n as i128), None => Json::Null }),
{
}

/// The Profile that belongs to a [`User`](https://api.slack.com/types/user).
#[derive(Clone, Debug)]
pub struct UserProfile {
    pub first_name: Option<String>,
    pub last_name: Option<String>,
    pub real_name: Option<String>,
    pub email: Option<String>,
    pub skype: Option<String>,
    pub phone: Option<String>,
    pub image_24: String,
    pub image_32: String,
    pub image_48: String,
    pub image_72: String,
    pub image_192: String,
}

impl FromJson for UserProfile {
    open spec fn decoded_from(&self, j: Json) -> bool {
        &&& j is Object
        &&& self.first_name.decoded_from(member(j, "first_name"@))
        &&& self.last_name.decoded_from(member(j, "last_name"@))
        &&& self.real_name.decoded_from(member(j, "real_name"@))
        &&& self.email.decoded_from(member(j, "email"@))
        &&& self.skype.decoded_from(member(j, "skype"@))
        &&& self.phone.decoded_from(member(j, "phone"@))
        &&& self.image_24.decoded_from(member(j, "image_24"@))
        &&& self.image_32.decoded_from(member(j, "image_32"@))
        &&& self.image_48.decoded_from(member(j, "image_48"@))
        &&& self.image_72.decoded_from(member(j, "image_72"@))
        &&& self.image_192.decoded_from(member(j, "image_192"@))
    }

    open spec fn failure(j: Json) -> DecodeFailure {
        if !(j is Object) {
            DecodeFailure::Malformed
        } else if !decodable::<Option<String>>(member(j, "first_name"@)) {
            <Option<String> as FromJson>::failure(member(j, "first_name"@))
        } else if !decodable::<Option<String>>(member(j, "last_name"@)) {
            <Option<String> as FromJson>::failure(member(j, "last_name"@))
        } else if !decodable::<Option<String>>(member(j, "real_name"@)) {
            <Option<String> as FromJson>::failure(member(j, "real_name"@))
        } else if !decodable::<Option<String>>(member(j, "email"@)) {
            <Option<String> as FromJson>::failure(member(j, "email"@))
        } else if !decodable::<Option<String>>(member(j, "skype"@)) {
            <Option<String> as FromJson>::failure(member(j, "skype"@))
        } else if !decodable::<Option<String>>(member(j, "phone"@)) {
            <Option<String> as FromJson>::failure(member(j, "phone"@))
        } else if !decodable::<String>(member(j, "image_24"@)) {
            <String as FromJson>::failure(member(j, "image_24"@))
        } else if !decodable::<String>(member(j, "image_32"@)) {
            <String as FromJson>::failure(member(j, "image_32"@))
        } else if !decodable::<String>(member(j, "image_48"@)) {
            <String as FromJson>::failure(member(j, "image_48"@))
        } else if !decodable::<String>(member(j, "image_72"@)) {
            <String as FromJson>::failure(member(j, "image_72"@))
        } else if !decodable::<String>(member(j, "image_192"@)) {
            <String as FromJson>::failure(member(j, "image_192"@))
        } else {
            DecodeFailure::Malformed
        }
    }

    fn from_json(j: &Json) -> (r: Result<Self, DecodeError>) {
        if !j.is_object() {
            return Err(DecodeError::Malformed);
        }
        let first_name = read_member::<Option<String>>(j, "first_name")?;
        let last_name = read_member::<Option<String>>(j, "last_name")?;
        let real_name = read_member::<Option<String>>(j, "real_name")?;
        let email = read_member::<Option<String>>(j, "email")?;
        let skype = read_member::<Option<String>>(j, "skype")?;
        let phone = read_member::<Option<String>>(j, "phone")?;
        let image_24 = read_member::<String>(j, "image_24")?;
        let image_32 = read_member::<String>(j, "image_32")?;
        let image_48 = read_member::<String>(j, "image_48")?;
        let image_72 = read_member::<String>(j, "image_72")?;
        let image_192 = read_member::<String>(j, "image_192")?;
        Ok(UserProfile {
            first_name,
            last_name,
            real_name,
            email,
            skype,
            phone,
            image_24,
            image_32,
            image_48,
            image_72,
            image_192,
        })
    }
}

/// A `UserProfile` read out of a JSON value: the value is an object and each field
/// holds the member of the same name (`null` for an absent optional one).
pub proof fn lemma_user_profile_members(j: Json, x: UserProfile)
    requires
        x.decoded_from(j),
    ensures
        j is Object,
        (match x.first_name { Some(s) => member_text(j, "first_name"@) == Some(s@), None => member(j, "first_name"@) is Null }),
        (match x.last_name { Some(s) => member_text(j, "last_name"@) == Some(s@), None => member(j, "last_name"@) is Null }),
        (match x.real_name { Some(s) => member_text(j, "real_name"@) == Some(s@), None => member(j, "real_name"@) is Null }),
        (match x.email { Some(s) => member_text(j, "email"@) == Some(s@), None => member(j, "email"@) is Null }),
        (match x.skype { Some(s) => member_text(j, "skype"@) == Some(s@), None => member(j, "skype"@) is Null }),
        (match x.phone { Some(s) => member_text(j, "phone"@) == Some(s@), None => member(j, "phone"@) is Null }),
        member_text(j, "image_24"@) == Some(x.image_24@),
        member_text(j, "image_32"@) == Some(x.image_32@),
        member_text(j, "image_48"@) == Some(x.image_48@),
        member_text(j, "image_72"@) == Some(x.image_72@),
        member_text(j, "image_192"@) == Some(x.image_192@),
{
}

/// The Slack [`User`](https://api.slack.com/types/user) type.
#[derive(Clone, Debug)]
pub struct User {
    pub id: String,
    pub name: String,
    pub deleted: bool,
    pub color: Option<String>,
    pub profile: UserProfile,
    pub is_admin: Option<bool>,
    pub is_owner: Option<bool>,
    pub is_primary_owner: Option<bool>,
    pub is_restricted: Option<bool>,
    pub is_ultra_restricted: Option<bool>,
    pub has_2fa: Option<bool>,
    pub two_factor_type: Option<String>,
    pub has_files: Option<bool>,
}

impl FromJson for User {
    open spec fn decoded_from(&self, j: Json) -> bool {
        &&& j is Object
        &&& self.id.decoded_from(member(j, "id"@))
        &&& self.name.decoded_from(member(j, "name"@))
        &&& self.deleted.decoded_from(member(j, "deleted"@))
        &&& self.color.decoded_from(member(j, "color"@))
        &&& self.profile.decoded_from(member(j, "profile"@))
        &&& self.is_admin.decoded_from(member(j, "is_admin"@))
        &&& self.is_owner.decoded_from(member(j, "is_owner"@))
        &&& self.is_primary_owner.decoded_from(member(j, "is_primary_owner"@))
        &&& self.is_restricted.decoded_from(member(j, "is_restricted"@))
        &&& self.is_ultra_restricted.decoded_from(member(j, "is_ultra_restricted"@))
        &&& self.has_2fa.decoded_from(member(j, "has_2fa"@))
        &&& self.two_factor_type.decoded_from(member(j, "two_factor_type"@))
        &&& self.has_files.decoded_from(member(j, "has_files"@))
    }

    open spec fn failure(j: Json) -> DecodeFailure {
        if !(j is Object) {
            DecodeFailure::Malformed
        } else if !decodable::<String>(member(j, "id"@)) {
            <String as FromJson>::failure(member(j, "id"@))
        } else if !decodable::<String>(member(j, "name"@)) {
            <String as FromJson>::failure(member(j, "name"@))
        } else if !decodable::<bool>(member(j, "deleted"@)) {
            <bool as FromJson>::failure(member(j, "deleted"@))
        } else if !decodable::<Option<String>>(member(j, "color"@)) {
            <Option<String> as FromJson>::failure(member(j, "color"@))
        } else if !decodable::<UserProfile>(member(j, "profile"@)) {
            <UserProfile as FromJson>::failure(member(j, "profile"@))
        } else if !decodable::<Option<bool>>(member(j, "is_admin"@)) {
            <Option<bool> as FromJson>::failure(member(j, "is_admin"@))
        } else if !decodable::<Option<bool>>(member(j, "is_owner"@)) {
            <Option<bool> as FromJson>::failure(member(j, "is_owner"@))
        } else if !decodable::<Option<bool>>(member(j, "is_primary_owner"@)) {
            <Option<bool> as FromJson>::failure(member(j, "is_primary_owner"@))
        } else if !decodable::<Option<bool>>(member(j, "is_restricted"@)) {
            <Option<bool> as FromJson>::failure(member(j, "is_restricted"@))
        } else if !decodable::<Option<bool>>(member(j, "is_ultra_restricted"@)) {
            <Option<bool> as FromJson>::failure(member(j, "is_ultra_restricted"@))
        } else if !decodable::<Option<bool>>(member(j, "has_2fa"@)) {
            <Option<bool> as FromJson>::failure(member(j, "has_2fa"@))
        } else if !decodable::<Option<String>>(member(j, "two_factor_type"@)) {
            <Option<String> as FromJson>::failure(member(j, "two_factor_type"@))
        } else if !decodable::<Option<bool>>(member(j, "has_files"@)) {
            <Option<bool> as FromJson>::failure(member(j, "has_files"@))
        } else {
            DecodeFailure::Malformed
        }
    }

    fn from_json(j: &Json) -> (r: Result<Self, DecodeError>) {
        if !j.is_object() {
            return Err(DecodeError::Malformed);
        }
        let id = read_member::<String>(j, "id")?;
        let name = read_member::<String>(j, "name")?;
        let deleted = read_member::<bool>(j, "deleted")?;
        let color = read_member::<Option<String>>(j, "color")?;
        let profile = read_member::<UserProfile>(j, "profile")?;
        let is_admin = read_member::<Option<bool>>(j, "is_admin")?;
        let is_owner = read_member::<Option<bool>>(j, "is_owner")?;
        let is_primary_owner = read_member::<Option<bool>>(j, "is_primary_owner")?;
        let is_restricted = read_member::<Option<bool>>(j, "is_restricted")?;
        let is_ultra_restricted = read_member::<Option<bool>>(j, "is_ultra_restricted")?;
        let has_2fa = read_member::<Option<bool>>(j, "has_2fa")?;
        let two_factor_type = read_member::<Option<String>>(j, "two_factor_type")?;
        let has_files = read_member::<Option<bool>>(j, "has_files")?;
        Ok(User {
            id,
            name,
            deleted,
            color,
            profile,
            is_admin,
            is_owner,
            is_primary_owner,
            is_restricted,
            is_ultra_restricted,
            has_2fa,
            two_factor_type,
            has_files,
        })
    }
}

/// A `User` read out of a JSON value: the value is an object and each field
/// holds the member of the same name (`null` for an absent optional one).
pub proof fn lemma_user_members(j: Json, x: User)
    requires
        x.decoded_from(j),
    ensures
        j is Object,
        member_text(j, "id"@) == Some(x.id@),
        member_text(j, "name"@) == Some(x.name@),
        member(j, "deleted"@) == Json::Bool(x.deleted),
        (match x.color { Some(s) => member_text(j, "color"@) == Some(s@), None => member(j, "color"@) is Null }),
        x.profile.decoded_from(member(j, "profile"@)),
        member(j, "is_admin"@) == (match x.is_admin { Some(b) => Json::Bool(b), None => Json::Null }),
        member(j, "is_owner"@) == (match x.is_owner { Some(b) => Json::Bool(b), None => Json::Null }),
        member(j, "is_primary_owner"@) == (match x.is_primary_owner { Some(b) => Json::Bool(b), None => Json::Null }),
        member(j, "is_restricted"@) == (match x.is_restricted { Some(b) => Json::Bool(b), None => Json::Null }),
        member(j, "is_ultra_restricted"@) == (match x.is_ultra_restricted { Some(b) => Json::Bool(b), None => Json::Null }),
        member(j, "has_2fa"@) == (match x.has_2fa { Some(b) => Json::Bool(b), None => Json::Null }),
        (match x.two_factor_type { Some(s) => member_text(j, "two_factor_type"@) == Some(s@), None => member(j, "two_factor_type"@) is Null }),
        member(j, "has_files"@) == (match x.has_files { Some(b) => Json::Bool(b), None => Json::Null }),
{
}

/// The `Team` object as found in the [`rtm.start`](https://api.slack.com/methods/rtm.start)
/// response.
#[derive(Clone, Debug)]
pub struct Team {
    pub id: String,
    pub name: String,
    pub email_domain: String,
    pub domain: String,
    pub msg_edit_window_mins: i64,
    pub over_storage_limit: bool,
    pub plan: String,
}

impl FromJson for Team {
    open spec fn decoded_from(&self, j: Json) -> bool {
        &&& j is Object
        &&& self.id.decoded_from(member(j, "id"@))
        &&& self.name.decoded_from(member(j, "name"@))
        &&& self.email_domain.decoded_from(member(j, "email_domain"@))
        &&& self.domain.decoded_from(member(j, "domain"@))
        &&& self.msg_edit_window_mins.decoded_from(member(j, "msg_edit_window_mins"@))
        &&& self.over_storage_limit.decoded_from(member(j, "over_storage_limit"@))
        &&& self.plan.decoded_from(member(j, "plan"@))
    }

    open spec fn failure(j: Json) -> DecodeFailure {
        if !(j is Object) {
            DecodeFailure::Malformed
        } else if !decodable::<String>(member(j, "id"@)) {
            <String as FromJson>::failure(member(j, "id"@))
        } else if !decodable::<String>(member(j, "name"@)) {
            <String as FromJson>::failure(member(j, "name"@))
        } else if !decodable::<String>(member(j, "email_domain"@)) {
            <String as FromJson>::failure(member(j, "email_domain"@))
        } else if !decodable::<String>(member(j, "domain"@)) {
            <String as FromJson>::failure(member(j, "domain"@))
        } else if !decodable::<i64>(member(j, "msg_edit_window_mins"@)) {
            <i64 as FromJson>::failure(member(j, "msg_edit_window_mins"@))
        } else if !decodable::<bool>(member(j, "over_storage_limit"@)) {
            <bool as FromJson>::failure(member(j, "over_storage_limit"@))
        } else if !decodable::<String>(member(j, "plan"@)) {
            <String as FromJson>::failure(member(j, "plan"@))
        } else {
            DecodeFailure::Malformed
        }
    }

    fn from_json(j: &Json) -> (r: Result<Self, DecodeError>) {
        if !j.is_object() {
            return Err(DecodeError::Malformed);
        }
        let id = read_member::<String>(j, "id")?;
        let name = read_member::<String>(j, "name")?;
        let email_domain = read_member::<String>(j, "email_domain")?;
        let domain = read_member::<String>(j, "domain")?;
        let msg_edit_window_mins = read_member::<i64>(j, "msg_edit_window_mins")?;
        let over_storage_limit = read_member::<bool>(j, "over_storage_limit")?;
        let plan = read_member::<String>(j, "plan")?;
        Ok(Team { id, name, email_domain, domain, msg_edit_window_mins, over_storage_limit, plan })
    }
}

/// A `Team` read out of a JSON value: the value is an object and each field
/// holds the member of the same name (`null` for an absent optional one).
pub proof fn lemma_team_members(j: Json, x: Team)
    requires
        x.decoded_from(j),
    ensures
        j is Object,
        member_text(j, "id"@) == Some(x.id@),
        member_text(j, "name"@) == Some(x.name@),
        member_text(j, "email_domain"@) == Some(x.email_domain@),
        member_text(j, "domain"@) == Some(x.domain@),
        member(j, "msg_edit_window_mins"@) == Json::Int(x.msg_edit_window_mins as i128),
        member(j, "over_storage_limit"@) == Json::Bool(x.over_storage_limit),
        member_text(j, "plan"@) == Some(x.plan@),
{
}

/// The `Topic` object as found in the [`Group`](https://api.slack.com/types/group) and
/// [`Channel`](https://api.slack.com/types/channel) types.
#[derive(Clone, Debug)]
pub struct Topic {
    pub value: String,
    pub creator: String,
    pub last_set: i64,
}

impl FromJson for Topic {
    open spec fn decoded_from(&self, j: Json) -> bool {
        &&& j is Object
        &&& self.value.decoded_from(member(j, "value"@))
        &&& self.creator.decoded_from(member(j, "creator"@))
        &&& self.last_set.decoded_from(member(j, "last_set"@))
    }

    open spec fn failure(j: Json) -> DecodeFailure {
        if !(j is Object) {
            DecodeFailure::Malformed
        } else if !decodable::<String>(member(j, "value"@)) {
            <String as FromJson>::failure(member(j, "value"@))
        } else if !decodable::<String>(member(j, "creator"@)) {
            <String as FromJson>::failure(member(j, "creator"@))
        } else if !decodable::<i64>(member(j, "last_set"@)) {
            <i64 as FromJson>::failure(member(j, "last_set"@))
        } else {
            DecodeFailure::Malformed
        }
    }

    fn from_json(j: &Json) -> (r: Result<Self, DecodeError>) {
        if !j.is_object() {
            return Err(DecodeError::Malformed);
        }
        let value = read_member::<String>(j, "value")?;
        let creator = read_member::<String>(j, "creator")?;
        let last_set = read_member::<i64>(j, "last_set")?;
        Ok(Topic { value, creator, last_set })
    }
}

/// A `Topic` read out of a JSON value: the value is an object and each field
/// holds the member of the same name (`null` for an absent optional one).
pub proof fn lemma_topic_members(j: Json, x: Topic)
    requires
        x.decoded_from(j),
    ensures
        j is Object,
        member_text(j, "value"@) == Some(x.value@),
        member_text(j, "creator"@) == Some(x.creator@),
        member(j, "last_set"@) == Json::Int(x.last_set as i128),
{
}

/// The `Purpose` object as found in the [`Group`](https://api.slack.com/types/group) and
/// [`Channel`](https://api.slack.com/types/channel) types.
#[derive(Clone, Debug)]
pub struct Purpose {
    pub value: String,
    pub creator: String,
    pub last_set: i64,
}

impl FromJson for Purpose {
    open spec fn decoded_from(&self, j: Json) -> bool {
        &&& j is Object
        &&& self.value.decoded_from(member(j, "value"@))
        &&& self.creator.decoded_from(member(j, "creator"@))
        &&& self.last_set.decoded_from(member(j, "last_set"@))
    }

    open spec fn failure(j: Json) -> DecodeFailure {
        if !(j is Object) {
            DecodeFailure::Malformed
        } else if !decodable::<String>(member(j, "value"@)) {
            <String as FromJson>::failure(member(j, "value"@))
        } else if !decodable::<String>(member(j, "creator"@)) {
            <String as FromJson>::failure(member(j, "creator"@))
        } else if !decodable::<i64>(member(j, "last_set"@)) {
            <i64 as FromJson>::failure(member(j, "last_set"@))
        } else {
            DecodeFailure::Malformed
        }
    }

    fn from_json(j: &Json) -> (r: Result<Self, DecodeError>) {
        if !j.is_object() {
            return Err(DecodeError::Malformed);
        }
        let value = read_member::<String>(j, "value")?;
        let creator = read_member::<String>(j, "creator")?;
        let last_set = read_member::<i64>(j, "last_set")?;
        Ok(Purpose { value, creator, last_set })
    }
}

/// A `Purpose` read out of a JSON value: the value is an object and each field
/// holds the member of the same name (`null` for an absent optional one).
pub proof fn lemma_purpose_members(j: Json, x: Purpose)
    requires
        x.decoded_from(j),
    ensures
        j is Object,
        member_text(j, "value"@) == Some(x.value@),
        member_text(j, "creator"@) == Some(x.creator@),
        member(j, "last_set"@) == Json::Int(x.last_set as i128),
{
}

/// The Slack [`Im`](https://api.slack.com/types/im) type.
#[derive(Clone, Debug)]
pub struct Im {
    pub id: String,
    pub is_im: bool,
    pub user: String,
    pub created: i64,
    pub is_user_deleted: Option<bool>,
}

impl FromJson for Im {
    open spec fn decoded_from(&self, j: Json) -> bool {
        &&& j is Object
        &&& self.id.decoded_from(member(j, "id"@))
        &&& self.is_im.decoded_from(member(j, "is_im"@))
        &&& self.user.decoded_from(member(j, "user"@))
        &&& self.created.decoded_from(member(j, "created"@))
        &&& self.is_user_deleted.decoded_from(member(j, "is_user_deleted"@))
    }

    open spec fn failure(j: Json) -> DecodeFailure {
        if !(j is Object) {
            DecodeFailure::Malformed
        } else if !decodable::<String>(member(j, "id"@)) {
            <String as FromJson>::failure(member(j, "id"@))
        } else if !decodable::<bool>(member(j, "is_im"@)) {
            <bool as FromJson>::failure(member(j, "is_im"@))
        } else if !decodable::<String>(member(j, "user"@)) {
            <String as FromJson>::failure(member(j, "user"@))
        } else if !decodable::<i64>(member(j, "created"@)) {
            <i64 as FromJson>::failure(member(j, "created"@))
        } else if !decodable::<Option<bool>>(member(j, "is_user_deleted"@)) {
            <Option<bool> as FromJson>::failure(member(j, "is_user_deleted"@))
        } else {
            DecodeFailure::Malformed
        }
    }

    fn from_json(j: &Json) -> (r: Result<Self, DecodeError>) {
        if !j.is_object() {
            return Err(DecodeError::Malformed);
        }
        let id = read_member::<String>(j, "id")?;
        let is_im = read_member::<bool>(j, "is_im")?;
        let user = read_member::<String>(j, "user")?;
        let created = read_member::<i64>(j, "created")?;
        let is_user_deleted = read_member::<Option<bool>>(j, "is_user_deleted")?;
        Ok(Im { id, is_im, user, created, is_user_deleted })
    }
}

/// A `Im` read out of a JSON value: the value is an object and each field
/// holds the member of the same name (`null` for an absent optional one).
pub proof fn lemma_im_members(j: Json, x: Im)
    requires
        x.decoded_from(j),
    ensures
        j is Object,
        member_text(j, "id"@) == Some(x.id@),
        member(j, "is_im"@) == Json::Bool(x.is_im),
        member_text(j, "user"@) == Some(x.user@),
        member(j, "created"@) == Json::Int(x.created as i128),
        member(j, "is_user_deleted"@) == (match x.is_user_deleted { Some(b) => Json::Bool(b), None => Json::Null }),
{
}

/// A field within an [`Attachment`](https://api.slack.com/docs/attachments).
#[derive(Clone, Debug)]
pub struct AttachmentField {
    pub title: String,
    pub value: String,
    pub short: bool,
}

impl FromJson for AttachmentField {
    open spec fn decoded_from(&self, j: Json) -> bool {
        &&& j is Object
        &&& self.title.decoded_from(member(j, "title"@))
        &&& self.value.decoded_from(member(j, "value"@))
        &&& self.short.decoded_from(member(j, "short"@))
    }

    open spec fn failure(j: Json) -> DecodeFailure {
        if !(j is Object) {
            DecodeFailure::Malformed
        } else if !decodable::<String>(member(j, "title"@)) {
            <String as FromJson>::failure(member(j, "title"@))
        } else if !decodable::<String>(member(j, "value"@)) {
            <String as FromJson>::failure(member(j, "value"@))
        } else if !decodable::<bool>(member(j, "short"@)) {
            <bool as FromJson>::failure(member(j, "short"@))
        } else {
            DecodeFailure::Malformed
        }
    }

    fn from_json(j: &Json) -> (r: Result<Self, DecodeError>) {
        if !j.is_object() {
            return Err(DecodeError::Malformed);
        }
        let title = read_member::<String>(j, "title")?;
        let value = read_member::<String>(j, "value")?;
        let short = read_member::<bool>(j, "short")?;
        Ok(AttachmentField { title, value, short })
    }
}

/// A `AttachmentField` read out of a JSON value: the value is an object and each field
/// holds the member of the same name (`null` for an absent optional one).
pub proof fn lemma_attachment_field_members(j: Json, x: AttachmentField)
    requires
        x.decoded_from(j),
    ensures
        j is Object,
        member_text(j, "title"@) == Some(x.title@),
        member_text(j, "value"@) == Some(x.value@),
        member(j, "short"@) == Json::Bool(x.short),
{
}

/// The Slack [`Attachment`](https://api.slack.com/docs/attachments) object as found in
/// richly-formatted messages.
#[derive(Clone, Debug)]
pub struct Attachment {
    pub fallback: String,
    pub color: Option<String>,
    pub pretext: Option<String>,
    pub author_name: Option<String>,
    pub author_link: Option<String>,
    pub author_icon: Option<String>,
    pub title: Option<String>,
    pub title_link: Option<String>,
    pub text: String,
    pub fields: Option<Vec<AttachmentField>>,
    pub image_url: Option<String>,
    pub thumb_url: Option<String>,
}

impl FromJson for Attachment {
    open spec fn decoded_from(&self, j: Json) -> bool {
        &&& j is Object
        &&& self.fallback.decoded_from(member(j, "fallback"@))
        &&& self.color.decoded_from(member(j, "color"@))
        &&& self.pretext.decoded_from(member(j, "pretext"@))
        &&& self.author_name.decoded_from(member(j, "author_name"@))
        &&& self.author_link.decoded_from(member(j, "author_link"@))
        &&& self.author_icon.decoded_from(member(j, "author_icon"@))
        &&& self.title.decoded_from(member(j, "title"@))
        &&& self.title_link.decoded_from(member(j, "title_link"@))
        &&& self.text.decoded_from(member(j, "text"@))
        &&& self.fields.decoded_from(member(j, "fields"@))
        &&& self.image_url.decoded_from(member(j, "image_url"@))
        &&& self.thumb_url.decoded_from(member(j, "thumb_url"@))
    }

    open spec fn failure(j: Json) -> DecodeFailure {
        if !(j is Object) {
            DecodeFailure::Malformed
        } else if !decodable::<String>(member(j, "fallback"@)) {
            <String as FromJson>::failure(member(j, "fallback"@))
        } else if !decodable::<Option<String>>(member(j, "color"@)) {
            <Option<String> as FromJson>::failure(member(j, "color"@))
        } else if !decodable::<Option<String>>(member(j, "pretext"@)) {
            <Option<String> as FromJson>::failure(member(j, "pretext"@))
        } else if !decodable::<Option<String>>(member(j, "author_name"@)) {
            <Option<String> as FromJson>::failure(member(j, "author_name"@))
        } else if !decodable::<Option<String>>(member(j, "author_link"@)) {
            <Option<String> as FromJson>::failure(member(j, "author_link"@))
        } else if !decodable::<Option<String>>(member(j, "author_icon"@)) {
            <Option<String> as FromJson>::failure(member(j, "author_icon"@))
        } else if !decodable::<Option<String>>(member(j, "title"@)) {
            <Option<String> as FromJson>::failure(member(j, "title"@))
        } else if !decodable::<Option<String>>(member(j, "title_link"@)) {
            <Option<String> as FromJson>::failure(member(j, "title_link"@))
        } else if !decodable::<String>(member(j, "text"@)) {
            <String as FromJson>::failure(member(j, "text"@))
        } else if !decodable::<Option<Vec<AttachmentField>>>(member(j, "fields"@)) {
            <Option<Vec<AttachmentField>> as FromJson>::failure(member(j, "fields"@))
        } else if !decodable::<Option<String>>(member(j, "image_url"@)) {
            <Option<String> as FromJson>::failure(member(j, "image_url"@))
        } else if !decodable::<Option<String>>(member(j, "thumb_url"@)) {
            <Option<String> as FromJson>::failure(member(j, "thumb_url"@))
        } else {
            DecodeFailure::Malformed
        }
    }

    fn from_json(j: &Json) -> (r: Result<Self, DecodeError>) {
        if !j.is_object() {
            return Err(DecodeError::Malformed);
        }
        let fallback = read_member::<String>(j, "fallback")?;
        let color = read_member::<Option<String>>(j, "color")?;
        let pretext = read_member::<Option<String>>(j, "pretext")?;
        let author_name = read_member::<Option<String>>(j, "author_name")?;
        let author_link = read_member::<Option<String>>(j, "author_link")?;
        let author_icon = read_member::<Option<String>>(j, "author_icon")?;
        let title = read_member::<Option<String>>(j, "title")?;
        let title_link = read_member::<Option<String>>(j, "title_link")?;
        let text = read_member::<String>(j, "text")?;
        let fields = read_member::<Option<Vec<AttachmentField>>>(j, "fields")?;
        let image_url = read_member::<Option<String>>(j, "image_url")?;
        let thumb_url = read_member::<Option<String>>(j, "thumb_url")?;
        Ok(Attachment {
            fallback,
            color,
            pretext,
            author_name,
            author_link,
            author_icon,
            title,
            title_link,
            text,
            fields,
            image_url,
            thumb_url,
        })
    }
}

/// A `Attachment` read out of a JSON value: the value is an object and each field
/// holds the member of the same name (`null` for an absent optional one).
pub proof fn lemma_attachment_members(j: Json, x: Attachment)
    requires
        x.decoded_from(j),
    ensures
        j is Object,
        member_text(j, "fallback"@) == Some(x.fallback@),
        (match x.color { Some(s) => member_text(j, "color"@) == Some(s@), None => member(j, "color"@) is Null }),
        (match x.pretext { Some(s) => member_text(j, "pretext"@) == Some(s@), None => member(j, "pretext"@) is Null }),
        (match x.author_name { Some(s) => member_text(j, "author_name"@) == Some(s@), None => member(j, "author_name"@) is Null }),
        (match x.author_link { Some(s) => member_text(j, "author_link"@) == Some(s@), None => member(j, "author_link"@) is Null }),
        (match x.author_icon { Some(s) => member_text(j, "author_icon"@) == Some(s@), None => member(j, "author_icon"@) is Null }),
        (match x.title { Some(s) => member_text(j, "title"@) == Some(s@), None => member(j, "title"@) is Null }),
        (match x.title_link { Some(s) => member_text(j, "title_link"@) == Some(s@), None => member(j, "title_link"@) is Null }),
        member_text(j, "text"@) == Some(x.text@),
        x.fields.decoded_from(member(j, "fields"@)),
        (match x.image_url { Some(s) => member_text(j, "image_url"@) == Some(s@), None => member(j, "image_url"@) is Null }),
        (match x.thumb_url { Some(s) => member_text(j, "thumb_url"@) == Some(s@), None => member(j, "thumb_url"@) is Null }),
{
}

/// Represents a `Message`, `File` or `Comment` as returned by
/// [`pins.list`](https://api.slack.com/methods/pins.list),
/// [`reactions.list`](https://api.slack.com/methods/reactions.list), and
/// [`reactions.get`](https://api.slack.com/methods/reactions.get).
#[derive(Debug)]
pub enum Item {
    Message {
        channel: String,
        message: Box<super::Message>,
    },
    File {
        file: File,
    },
    FileComment {
        file: File,
        comment: Comment,
    },
}

impl Item {
    /// What reading `j` reports when no value is read out of it: `Malformed`
    /// for what is not an object or has no text tag, `Unknown` with the tag
    /// for a tag that names no variant, and else the failure of the first
    /// member of the selected variant that is not read.
    pub open spec fn failure_of(j: Json) -> DecodeFailure
        decreases j, 1nat,
    {
        if !(j is Object) {
            DecodeFailure::Malformed
        } else {
            match member(j, "type"@) {
                Json::Str(t) => if Self::tag_index(t@) == -1 {
                    DecodeFailure::Unknown("Unknown Item type: "@ + t@)
                } else {
                    Self::variant_failure(j, Self::tag_index(t@))
                },
                _ => DecodeFailure::Malformed,
            }
        }
    }

    /// What reading `j` as variant `k` reports: the failure of its first
    /// member, in reading order, that is not read.
    pub open spec fn variant_failure(j: Json, k: int) -> DecodeFailure
        decreases j, 0nat,
    {
        if k == 0 {
            if !decodable::<String>(member(j, "channel"@)) {
                <String as FromJson>::failure(member(j, "channel"@))
            } else if !(exists|m: super::Message| m.matches_json(member(j, "message"@))) {
                match present(j, "message"@) {
                    Some(v) => {
                        proof {
                            lemma_present_decreases(j, "message"@);
                        }
                        super::Message::failure_of(v)
                    },
                    None => DecodeFailure::Malformed,
                }
            } else {
                DecodeFailure::Malformed
            }
        } else if k == 1 {
            if !decodable::<File>(member(j, "file"@)) {
                <File as FromJson>::failure(member(j, "file"@))
            } else {
                DecodeFailure::Malformed
            }
        } else if k == 2 {
            if !decodable::<File>(member(j, "file"@)) {
                <File as FromJson>::failure(member(j, "file"@))
            } else if !decodable::<Comment>(member(j, "comment"@)) {
                <Comment as FromJson>::failure(member(j, "comment"@))
            } else {
                DecodeFailure::Malformed
            }
        } else {
            DecodeFailure::Malformed
        }
    }

    /// The position of `t` among the `type` tags that name a variant, or -1.
    pub open spec fn tag_index(t: Seq<char>) -> int {
        if t == "message"@ {
            0
        } else if t == "file"@ {
            1
        } else if t == "file_comment"@ {
            2
        } else {
            -1
        }
    }

    /// The variant that the `type` member of `j` selects, or -1.
    pub open spec fn variant_of(j: Json) -> int {
        match member(j, "type"@) {
            Json::Str(t) => Self::tag_index(t@),
            _ => -1,
        }
    }

    /// The tag of an object whose `type` member is text that names no variant.
    pub open spec fn unknown_tag(j: Json) -> Option<Seq<char>> {
        match member(j, "type"@) {
            Json::Str(t) => if j is Object && Self::tag_index(t@) == -1 {
                Some(t@)
            } else {
                None
            },
            _ => None,
        }
    }

    /// `self` is the item that `j` holds: the variant that its `type` member
    /// selects, with each field read from the member of the same name.
    pub open spec fn matches_json(&self, j: Json) -> bool
        decreases self,
    {
        &&& j is Object
        &&& match self {
            Item::Message { channel, message } => {
                &&& Self::variant_of(j) == 0
                &&& channel.decoded_from(member(j, "channel"@))
                &&& message.matches_json(member(j, "message"@))
            },
            Item::File { file } => {
                &&& Self::variant_of(j) == 1
                &&& file.decoded_from(member(j, "file"@))
            },
            Item::FileComment { file, comment } => {
                &&& Self::variant_of(j) == 2
                &&& file.decoded_from(member(j, "file"@))
                &&& comment.decoded_from(member(j, "comment"@))
            },
        }
    }

    /// Reads the item that `j` holds. A tag that names no variant is reported
    /// as `DecodeError::Unknown("Unknown Item type: <tag>")`.
    pub fn decode(j: &Json) -> (r: Result<Item, DecodeError>)
        ensures
            r matches Ok(x) ==> x.matches_json(*j),
            r is Err ==> forall|x: Item| !x.matches_json(*j),
            Self::unknown_tag(*j) matches Some(t) ==> r matches Err(DecodeError::Unknown(m))
                && m@ == "Unknown Item type: "@ + t,
            r matches Err(e) ==> e@ == Self::failure_of(*j),
        decreases *j, 1nat,
    {
        if !j.is_object() {
            return Err(DecodeError::Malformed);
        }
        match find_member(j, "type") {
            Some(Json::Str(t)) => {
                if str_eq(t.as_str(), "message") {
                    Self::decode_message(j)
                } else if str_eq(t.as_str(), "file") {
                    Self::decode_file(j)
                } else if str_eq(t.as_str(), "file_comment") {
                    Self::decode_file_comment(j)
                } else {
                    Err(DecodeError::Unknown("Unknown Item type: ".to_owned().concat(t.as_str())))
                }
            },
            _ => Err(DecodeError::Malformed),
        }
    }

    fn decode_message(j: &Json) -> (r: Result<Item, DecodeError>)
        requires
            j is Object,
            Self::variant_of(*j) == 0,
        ensures
            r matches Ok(x) ==> x.matches_json(*j),
            r is Err ==> forall|x: Item| !x.matches_json(*j),
            r matches Err(e) ==> e@ == Self::variant_failure(*j, 0),
        decreases *j, 0nat,
    {
        let channel = read_member::<String>(j, "channel")?;
        let message = match find_member(j, "message") {
            Some(v) => match super::Message::decode(v) {
                Ok(m) => Box::new(m),
                Err(e) => {
                    assert forall|x: Item| !x.matches_json(*j) by {
                        if let Item::Message { message, .. } = x {
                            assert(!message.matches_json(*v));
                        }
                    }
                    return Err(e);
                },
            },
            None => {
                assert forall|x: Item| !x.matches_json(*j) by {
                    if let Item::Message { message, .. } = x {
                        assert(!message.matches_json(Json::Null));
                    }
                }
                return Err(DecodeError::Malformed);
            },
        };
        Ok(Item::Message { channel, message })
    }

    fn decode_file(j: &Json) -> (r: Result<Item, DecodeError>)
        requires
            j is Object,
            Self::variant_of(*j) == 1,
        ensures
            r matches Ok(x) ==> x.matches_json(*j),
            r is Err ==> forall|x: Item| !x.matches_json(*j),
            r matches Err(e) ==> e@ == Self::variant_failure(*j, 1),
        decreases *j, 0nat,
    {
        let file = read_member::<File>(j, "file")?;
        Ok(Item::File { file })
    }

    fn decode_file_comment(j: &Json) -> (r: Result<Item, DecodeError>)
        requires
            j is Object,
            Self::variant_of(*j) == 2,
        ensures
            r matches Ok(x) ==> x.matches_json(*j),
            r is Err ==> forall|x: Item| !x.matches_json(*j),
            r matches Err(e) ==> e@ == Self::variant_failure(*j, 2),
        decreases *j, 0nat,
    {
        let file = read_member::<File>(j, "file")?;
        let comment = read_member::<Comment>(j, "comment")?;
        Ok(Item::FileComment { file, comment })
    }
}

impl FromJson for Item {
    open spec fn decoded_from(&self, j: Json) -> bool {
        self.matches_json(j)
    }

    open spec fn failure(j: Json) -> DecodeFailure {
        Self::failure_of(j)
    }

    fn from_json(j: &Json) -> (r: Result<Self, DecodeError>) {
        Item::decode(j)
    }
}

/// A `Item` read out of a JSON value: the value is an object whose `type`
/// member names the variant, and each field of the variant holds the member
/// of the same name (`null` for an absent optional one).
pub proof fn lemma_item_members(j: Json, x: Item)
    requires
        x.matches_json(j),
    ensures
        j is Object,
        match x {
            Item::Message { channel, message } => {
                &&& member_text(j, "type"@) == Some("message"@)
                &&& member_text(j, "channel"@) == Some(channel@)
                &&& message.matches_json(member(j, "message"@))
            },
            Item::File { file } => {
                &&& member_text(j, "type"@) == Some("file"@)
                &&& file.decoded_from(member(j, "file"@))
            },
            Item::FileComment { file, comment } => {
                &&& member_text(j, "type"@) == Some("file_comment"@)
                &&& file.decoded_from(member(j, "file"@))
                &&& comment.decoded_from(member(j, "comment"@))
            },
        },
{
}

/// Represents a starred item as returned by [`stars.list`](https://api.slack.com/methods/stars.list).
#[derive(Debug)]
pub enum StarredItem {
    Message {
        channel: String,
        message: super::Message,
    },
    File {
        file: super::File,
    },
    FileComment {
        file: super::File,
        comment: super::Comment,
    },
    Channel {
        channel: String,
    },
    Group {
        group: String,
    },
    Im {
        channel: String,
    },
}

impl StarredItem {
    /// What reading `j` reports when no value is read out of it: `Malformed`
    /// for what is not an object or has no text tag, `Unknown` with the tag
    /// for a tag that names no variant, and else the failure of the first
    /// member of the selected variant that is not read.
    pub open spec fn failure_of(j: Json) -> DecodeFailure
    {
        if !(j is Object) {
            DecodeFailure::Malformed
        } else {
            match member(j, "type"@) {
                Json::Str(t) => if Self::tag_index(t@) == -1 {
                    DecodeFailure::Unknown("Unknown StarredItem type: "@ + t@)
                } else {
                    Self::variant_failure(j, Self::tag_index(t@))
                },
                _ => DecodeFailure::Malformed,
            }
        }
    }

    /// What reading `j` as variant `k` reports: the failure of its first
    /// member, in reading order, that is not read.
    pub open spec fn variant_failure(j: Json, k: int) -> DecodeFailure
    {
        if k == 0 {
            if !decodable::<String>(member(j, "channel"@)) {
                <String as FromJson>::failure(member(j, "channel"@))
            } else if !decodable::<super::Message>(member(j, "message"@)) {
                <super::Message as FromJson>::failure(member(j, "message"@))
            } else {
                DecodeFailure::Malformed
            }
        } else if k == 1 {
            if !decodable::<super::File>(member(j, "file"@)) {
                <super::File as FromJson>::failure(member(j, "file"@))
            } else {
                DecodeFailure::Malformed
            }
        } else if k == 2 {
            if !decodable::<super::File>(member(j, "file"@)) {
                <super::File as FromJson>::failure(member(j, "file"@))
            } else if !decodable::<super::Comment>(member(j, "comment"@)) {
                <super::Comment as FromJson>::failure(member(j, "comment"@))
            } else {
                DecodeFailure::Malformed
            }
        } else if k == 3 {
            if !decodable::<String>(member(j, "channel"@)) {
                <String as FromJson>::failure(member(j, "channel"@))
            } else {
                DecodeFailure::Malformed
            }
        } else if k == 4 {
            if !decodable::<String>(member(j, "group"@)) {
                <String as FromJson>::failure(member(j, "group"@))
            } else {
                DecodeFailure::Malformed
            }
        } else if k == 5 {
            if !decodable::<String>(member(j, "channel"@)) {
                <String as FromJson>::failure(member(j, "channel"@))
            } else {
                DecodeFailure::Malformed
            }
        } else {
            DecodeFailure::Malformed
        }
    }

    /// The position of `t` among the `type` tags that name a variant, or -1.
    pub open spec fn tag_index(t: Seq<char>) -> int {
        if t == "message"@ {
            0
        } else if t == "file"@ {
            1
        } else if t == "file_comment"@ {
            2
        } else if t == "channel"@ {
            3
        } else if t == "group"@ {
            4
        } else if t == "im"@ {
            5
        } else {
            -1
        }
    }

    /// The variant that the `type` member of `j` selects, or -1.
    pub open spec fn variant_of(j: Json) -> int {
        match member(j, "type"@) {
            Json::Str(t) => Self::tag_index(t@),
            _ => -1,
        }
    }

    /// The tag of an object whose `type` member is text that names no variant.
    pub open spec fn unknown_tag(j: Json) -> Option<Seq<char>> {
        match member(j, "type"@) {
            Json::Str(t) => if j is Object && Self::tag_index(t@) == -1 {
                Some(t@)
            } else {
                None
            },
            _ => None,
        }
    }

    /// `self` is the item that `j` holds: the variant that its `type` member
    /// selects, with each field read from the member of the same name.
    pub open spec fn matches_json(&self, j: Json) -> bool
    {
        &&& j is Object
        &&& match self {
            StarredItem::Message { channel, message } => {
                &&& Self::variant_of(j) == 0
                &&& channel.decoded_from(member(j, "channel"@))
                &&& message.decoded_from(member(j, "message"@))
            },
            StarredItem::File { file } => {
                &&& Self::variant_of(j) == 1
                &&& file.decoded_from(member(j, "file"@))
            },
            StarredItem::FileComment { file, comment } => {
                &&& Self::variant_of(j) == 2
                &&& file.decoded_from(member(j, "file"@))
                &&& comment.decoded_from(member(j, "comment"@))
            },
            StarredItem::Channel { channel } => {
                &&& Self::variant_of(j) == 3
                &&& channel.decoded_from(member(j, "channel"@))
            },
            StarredItem::Group { group } => {
                &&& Self::variant_of(j) == 4
                &&& group.decoded_from(member(j, "group"@))
            },
            StarredItem::Im { channel } => {
                &&& Self::variant_of(j) == 5
                &&& channel.decoded_from(member(j, "channel"@))
            },
        }
    }

    /// Reads the item that `j` holds. A tag that names no variant is reported
    /// as `DecodeError::Unknown("Unknown StarredItem type: <tag>")`.
    pub fn decode(j: &Json) -> (r: Result<StarredItem, DecodeError>)
        ensures
            r matches Ok(x) ==> x.matches_json(*j),
            r is Err ==> forall|x: StarredItem| !x.matches_json(*j),
            Self::unknown_tag(*j) matches Some(t) ==> r matches Err(DecodeError::Unknown(m))
                && m@ == "Unknown StarredItem type: "@ + t,
            r matches Err(e) ==> e@ == Self::failure_of(*j),
    {
        if !j.is_object() {
            return Err(DecodeError::Malformed);
        }
        match find_member(j, "type") {
            Some(Json::Str(t)) => {
                if str_eq(t.as_str(), "message") {
                    Self::decode_message(j)
                } else if str_eq(t.as_str(), "file") {
                    Self::decode_file(j)
                } else if str_eq(t.as_str(), "file_comment") {
                    Self::decode_file_comment(j)
                } else if str_eq(t.as_str(), "channel") {
                    Self::decode_channel(j)
                } else if str_eq(t.as_str(), "group") {
                    Self::decode_group(j)
                } else if str_eq(t.as_str(), "im") {
                    Self::decode_im(j)
                } else {
                    Err(DecodeError::Unknown("Unknown StarredItem type: ".to_owned().concat(t.as_str())))
                }
            },
            _ => Err(DecodeError::Malformed),
        }
    }

    fn decode_message(j: &Json) -> (r: Result<StarredItem, DecodeError>)
        requires
            j is Object,
            Self::variant_of(*j) == 0,
        ensures
            r matches Ok(x) ==> x.matches_json(*j),
            r is Err ==> forall|x: StarredItem| !x.matches_json(*j),
            r matches Err(e) ==> e@ == Self::variant_failure(*j, 0),
    {
        let channel = read_member::<String>(j, "channel")?;
        let message = read_member::<super::Message>(j, "message")?;
        Ok(StarredItem::Message { channel, message })
    }

    fn decode_file(j: &Json) -> (r: Result<StarredItem, DecodeError>)
        requires
            j is Object,
            Self::variant_of(*j) == 1,
        ensures
            r matches Ok(x) ==> x.matches_json(*j),
            r is Err ==> forall|x: StarredItem| !x.matches_json(*j),
            r matches Err(e) ==> e@ == Self::variant_failure(*j, 1),
    {
        let file = read_member::<super::File>(j, "file")?;
        Ok(StarredItem::File { file })
    }

    fn decode_file_comment(j: &Json) -> (r: Result<StarredItem, DecodeError>)
        requires
            j is Object,
            Self::variant_of(*j) == 2,
        ensures
            r matches Ok(x) ==> x.matches_json(*j),
            r is Err ==> forall|x: StarredItem| !x.matches_json(*j),
            r matches Err(e) ==> e@ == Self::variant_failure(*j, 2),
    {
        let file = read_member::<super::File>(j, "file")?;
        let comment = read_member::<super::Comment>(j, "comment")?;
        Ok(StarredItem::FileComment { file, comment })
    }

    fn decode_channel(j: &Json) -> (r: Result<StarredItem, DecodeError>)
        requires
            j is Object,
            Self::variant_of(*j) == 3,
        ensures
            r matches Ok(x) ==> x.matches_json(*j),
            r is Err ==> forall|x: StarredItem| !x.matches_json(*j),
            r matches Err(e) ==> e@ == Self::variant_failure(*j, 3),
    {
        let channel = read_member::<String>(j, "channel")?;
        Ok(StarredItem::Channel { channel })
    }

    fn decode_group(j: &Json) -> (r: Result<StarredItem, DecodeError>)
        requires
            j is Object,
            Self::variant_of(*j) == 4,
        ensures
            r matches Ok(x) ==> x.matches_json(*j),
            r is Err ==> forall|x: StarredItem| !x.matches_json(*j),
            r matches Err(e) ==> e@ == Self::variant_failure(*j, 4),
    {
        let group = read_member::<String>(j, "group")?;
        Ok(StarredItem::Group { group })
    }

    fn decode_im(j: &Json) -> (r: Result<StarredItem, DecodeError>)
        requires
            j is Object,
            Self::variant_of(*j) == 5,
        ensures
            r matches Ok(x) ==> x.matches_json(*j),
            r is Err ==> forall|x: StarredItem| !x.matches_json(*j),
            r matches Err(e) ==> e@ == Self::variant_failure(*j, 5),
    {
        let channel = read_member::<String>(j, "channel")?;
        Ok(StarredItem::Im { channel })
    }
}

impl FromJson for StarredItem {
    open spec fn decoded_from(&self, j: Json) -> bool {
        self.matches_json(j)
    }

    open spec fn failure(j: Json) -> DecodeFailure {
        Self::failure_of(j)
    }

    fn from_json(j: &Json) -> (r: Result<Self, DecodeError>) {
        StarredItem::decode(j)
    }
}

/// A `StarredItem` read out of a JSON value: the value is an object whose `type`
/// member names the variant, and each field of the variant holds the member
/// of the same name (`null` for an absent optional one).
pub proof fn lemma_starred_item_members(j: Json, x: StarredItem)
    requires
        x.matches_json(j),
    ensures
        j is Object,
        match x {
            StarredItem::Message { channel, message } => {
                &&& member_text(j, "type"@) == Some("message"@)
                &&& member_text(j, "channel"@) == Some(channel@)
                &&& message.decoded_from(member(j, "message"@))
            },
            StarredItem::File { file } => {
                &&& member_text(j, "type"@) == Some("file"@)
                &&& file.decoded_from(member(j, "file"@))
            },
            StarredItem::FileComment { file, comment } => {
                &&& member_text(j, "type"@) == Some("file_comment"@)
                &&& file.decoded_from(member(j, "file"@))
                &&& comment.decoded_from(member(j, "comment"@))
            },
            StarredItem::Channel { channel } => {
                &&& member_text(j, "type"@) == Some("channel"@)
                &&& member_text(j, "channel"@) == Some(channel@)
            },
            StarredItem::Group { group } => {
                &&& member_text(j, "type"@) == Some("group"@)
                &&& member_text(j, "group"@) == Some(group@)
            },
            StarredItem::Im { channel } => {
                &&& member_text(j, "type"@) == Some("im"@)
                &&& member_text(j, "channel"@) == Some(channel@)
            },
        },
{
}

/// For a `type` of `message`, `file` or `file_comment`, a starred item and an
/// item are read out of the same JSON value alike: the one is read exactly
/// when the other is, with the same fields (the item's message boxed), and
/// both report the same error when neither is read.
pub proof fn lemma_starred_item_agrees_with_item(j: Json)
    requires
        0 <= StarredItem::variant_of(j) <= 2,
    ensures
        Item::variant_of(j) == StarredItem::variant_of(j),
        forall|channel: String, message: super::Message|
            (StarredItem::Message { channel, message }).matches_json(j) <==> (Item::Message {
                channel,
                message: Box::new(message),
            }).matches_json(j),
        forall|file: File|
            (StarredItem::File { file }).matches_json(j) <==> (Item::File { file }).matches_json(j),
        forall|file: File, comment: Comment|
            (StarredItem::FileComment { file, comment }).matches_json(j) <==> (Item::FileComment {
                file,
                comment,
            }).matches_json(j),
        decodable::<StarredItem>(j) <==> decodable::<Item>(j),
        StarredItem::failure_of(j) == Item::failure_of(j),
{
    lemma_present_decreases(j, "message"@);
    let mj = member(j, "message"@);
    assert(super::Message::failure_of(Json::Null) == DecodeFailure::Malformed);
    assert(decodable::<super::Message>(mj) <==> (exists|m: super::Message| m.matches_json(mj))) by {
        if decodable::<super::Message>(mj) {
            let m = choose|m: super::Message| m.decoded_from(mj);
            assert(m.matches_json(mj));
        }
        if exists|m: super::Message| m.matches_json(mj) {
            let m = choose|m: super::Message| m.matches_json(mj);
            assert(m.decoded_from(mj));
        }
    }
    assert(<super::Message as FromJson>::failure(mj) == super::Message::failure_of(mj));
    assert(StarredItem::variant_failure(j, 0) == Item::variant_failure(j, 0));
    assert(StarredItem::variant_failure(j, 1) == Item::variant_failure(j, 1));
    assert(StarredItem::variant_failure(j, 2) == Item::variant_failure(j, 2));
    if decodable::<StarredItem>(j) {
        let x = choose|x: StarredItem| x.decoded_from(j);
        match x {
            StarredItem::Message { channel, message } => {
                assert((Item::Message { channel, message: Box::new(message) }).decoded_from(j));
            },
            StarredItem::File { file } => {
                assert((Item::File { file }).decoded_from(j));
            },
            StarredItem::FileComment { file, comment } => {
                assert((Item::FileComment { file, comment }).decoded_from(j));
            },
            _ => {},
        }
    }
    if decodable::<Item>(j) {
        let x = choose|x: Item| x.decoded_from(j);
        match x {
            Item::Message { channel, message } => {
                assert((StarredItem::Message { channel, message: *message }).decoded_from(j));
            },
            Item::File { file } => {
                assert((StarredItem::File { file }).decoded_from(j));
            },
            Item::FileComment { file, comment } => {
                assert((StarredItem::FileComment { file, comment }).decoded_from(j));
            },
        }
    }
}

} // verus!
