//! What the realtime messaging client computes: the JSON messages it writes on
//! the socket and the directory of channels, groups and users that it learns
//! when it logs in.
use vstd::prelude::*;

use crate::api::{Channel, Group, Im, Team, User};
use crate::api::rtm::StartResponse;
use crate::error::Error;
use crate::string_map::{StringMap, pairs_view, pairs_map, pairs_put_each, lemma_pairs_put_each, lemma_pairs_map_lookup};
use crate::text::{decimal, json_escape, json_string_literal, usize_text};

verus! {

/// Used for passing websocket messages in channels
#[derive(Debug)]
pub enum WsMessage {
    Close,
    Text(String),
}

/// The text of the `message` payload with id `id` for `channel_id`, whose text
/// is the JSON-escaped `escaped`.
pub open spec fn message_text(id: nat, channel_id: Seq<char>, escaped: Seq<char>) -> Seq<char> {
    "{\"id\": "@ + decimal(id) + ",\"type\": \"message\", \"channel\": \""@ + channel_id
        + "\",\"text\": \""@ + escaped + "\"}"@
}

/// The text of the `typing` payload with id `id` for `channel_id`.
pub open spec fn typing_text(id: nat, channel_id: Seq<char>) -> Seq<char> {
    "{\"id\": "@ + decimal(id) + ", \"type\": \"typing\", \"channel\": \""@ + channel_id + "\"}"@
}

/// The socket payloads are laid out as the realtime API spells them: the
/// message id in decimal first, then the type, the channel and, for a
/// message, its escaped text, each in double quotes.
pub proof fn lemma_payload_layout(id: nat, channel_id: Seq<char>, escaped: Seq<char>, ids: Seq<Seq<char>>)
    ensures
        message_text(id, channel_id, escaped) == "{\"id\": "@ + decimal(id) + ",\"type\": \"message\", \"channel\": \""@
            + channel_id + "\",\"text\": \""@ + escaped + "\"}"@,
        typing_text(id, channel_id) == "{\"id\": "@ + decimal(id) + ", \"type\": \"typing\", \"channel\": \""@
            + channel_id + "\"}"@,
        presence_text(ids) == "{\"type\": \"presence_sub\", \"ids\": "@ + debug_list(ids) + "}"@,
{
}

/// The `Debug` form of a string slice: the text quoted, with quotes,
/// backslashes and unprintable characters escaped.
pub uninterp spec fn debug_str(s: Seq<char>) -> Seq<char>;

/// `format!("{:?}", s)` for a string slice.
#[verifier::external_body]
fn debug_quoted(s: &str) -> (r: String)
    ensures
        r@ == debug_str(s@),
{
    format!("{:?}", s)
}

/// The entries of a list in `Debug` form, separated by `", "`.
pub open spec fn debug_entries(items: Seq<Seq<char>>) -> Seq<char>
    decreases items.len(),
{
    if items.len() == 0 {
        Seq::empty()
    } else if items.len() == 1 {
        debug_str(items[0])
    } else {
        debug_entries(items.drop_last()) + ", "@ + debug_str(items.last())
    }
}

/// The `Debug` form of a list of string slices, as `[..]` writes it.
pub open spec fn debug_list(items: Seq<Seq<char>>) -> Seq<char> {
    "["@ + debug_entries(items) + "]"@
}

/// The text of each string slice of a list.
pub open spec fn str_views(items: Seq<&str>) -> Seq<Seq<char>> {
    items.map_values(|s: &str| s@)
}

/// The text of the `presence_sub` payload for `ids`.
pub open spec fn presence_text(ids: Seq<Seq<char>>) -> Seq<char> {
    "{\"type\": \"presence_sub\", \"ids\": "@ + debug_list(ids) + "}"@
}

/// The `message` payload that sends `msg` to the channel with id
/// `channel_id`, with message id `id`; `msg` is written as `serde_json`
/// escapes it inside a JSON string.
pub fn message_payload(id: usize, channel_id: &str, msg: &str) -> (s: String)
    ensures
        s@ == message_text(id as nat, channel_id@, json_escape(msg@)),
{
    let msg_json = match json_string_literal(msg) {
        Ok(t) => t,
        Err(_) => vstd::pervasive::unreached(),
    };
    let n = msg_json.as_str().unicode_len();
    let inner = msg_json.as_str().substring_char(1, n - 1);
    assert(inner@ =~= json_escape(msg@));
    "{\"id\": ".to_owned().concat(usize_text(id).as_str()).concat(
        ",\"type\": \"message\", \"channel\": \"",
    ).concat(channel_id).concat("\",\"text\": \"").concat(inner).concat("\"}")
}

/// The `typing` payload for the channel with id `channel_id`, with message
/// id `id`.
pub fn typing_payload(id: usize, channel_id: &str) -> (s: String)
    ensures
        s@ == typing_text(id as nat, channel_id@),
{
    "{\"id\": ".to_owned().concat(usize_text(id).as_str()).concat(
        ", \"type\": \"typing\", \"channel\": \"",
    ).concat(channel_id).concat("\"}")
}

/// The `presence_sub` payload that subscribes to presence updates of the
/// users `user_list`.
pub fn presence_payload(user_list: &[&str]) -> (s: String)
    ensures
        s@ == presence_text(str_views(user_list@)),
{
    let ghost items = str_views(user_list@);
    let mut entries = String::new();
    let mut i: usize = 0;
    while i < user_list.len()
        invariant
            i <= user_list@.len(),
            items == str_views(user_list@),
            entries@ == debug_entries(items.take(i as int)),
        decreases user_list@.len() - i,
    {
        let q = debug_quoted(user_list[i]);
        proof {
            assert(items.take(i + 1).drop_last() =~= items.take(i as int));
            assert(items.take(i + 1).last() == user_list@[i as int]@);
        }
        if i == 0 {
            entries = q;
            assert(items.take(1) =~= seq![user_list@[0]@]);
        } else {
            entries.append(", ");
            entries.append(q.as_str());
        }
        i = i + 1;
    }
    assert(items.take(user_list@.len() as int) =~= items);
    "{\"type\": \"presence_sub\", \"ids\": ".to_owned().concat("[").concat(entries.as_str()).concat(
        "]",
    ).concat("}")
}

/// What `url::Url::parse_with_params` makes of `base` with the query pair
/// `key=value` appended: the address as text, or the message of the parse
/// error.
pub uninterp spec fn url_with_query_pair(base: Seq<char>, key: Seq<char>, value: Seq<char>) -> Result<
    Seq<char>,
    Seq<char>,
>;

/// A result of texts by the characters they hold.
pub open spec fn text_result(r: Result<String, String>) -> Result<Seq<char>, Seq<char>> {
    match r {
        Ok(u) => Ok(u@),
        Err(m) => Err(m@),
    }
}

/// `url::Url::parse_with_params` with one pair, the address given back as
/// text (`Url::as_str`) and a parse error as its message (`Display`).
#[verifier::external_body]
fn parse_url_with_pair(base: &str, key: &str, value: &str) -> (r: Result<String, String>)
    ensures
        text_result(r) == url_with_query_pair(base@, key@, value@),
{
    match url::Url::parse_with_params(base, &[(key, value)]) {
        Ok(u) => Ok(u.as_str().to_owned()),
        Err(e) => Err(e.to_string()),
    }
}

/// The address of the realtime socket for the address that `rtm.start`
/// gave: `batch_presence_aware=1` added to its query. With no address the
/// answer is `Error::Api("Slack did not provide a URL")`; an address that
/// does not parse is `Error::Url` with the parser's message.
pub fn socket_address(url: Option<&str>) -> (r: Result<String, Error>)
    ensures
        match url {
            None => r matches Err(Error::Api(m)) && m@ == "Slack did not provide a URL"@,
            Some(u) => match r {
                Ok(a) => url_with_query_pair(u@, "batch_presence_aware"@, "1"@) == Ok::<
                    Seq<char>,
                    Seq<char>,
                >(a@),
                Err(e) => e matches Error::Url(m) && url_with_query_pair(u@, "batch_presence_aware"@, "1"@)
                    == Err::<Seq<char>, Seq<char>>(m@),
            },
        },
{
    match url {
        None => Err(Error::Api("Slack did not provide a URL".to_owned())),
        Some(u) => match parse_url_with_pair(u, "batch_presence_aware", "1") {
            Ok(a) => Ok(a),
            Err(m) => Err(Error::Url(m)),
        },
    }
}

/// The address of the realtime socket: the `url` of the `rtm.start` answer
/// with `batch_presence_aware=1` added to its query.
pub fn socket_url(start: &StartResponse) -> (r: Result<String, Error>)
    ensures
        match r {
            Ok(u) => url_with_query_pair(start.url@, "batch_presence_aware"@, "1"@) == Ok::<
                Seq<char>,
                Seq<char>,
            >(u@),
            Err(e) => e matches Error::Url(m) && url_with_query_pair(start.url@, "batch_presence_aware"@, "1"@)
                == Err::<Seq<char>, Seq<char>>(m@),
        },
{
    socket_address(Some(start.url.as_str()))
}

/// What `url::Url::parse` makes of `input`: the address as text, or the
/// message of the parse error.
pub uninterp spec fn parsed_url(input: Seq<char>) -> Result<Seq<char>, Seq<char>>;

/// `url::Url::parse`, the address given back as text (`Url::as_str`) and a
/// parse error as its message (`Display`).
#[verifier::external_body]
fn parse_url(input: &str) -> (r: Result<String, String>)
    ensures
        text_result(r) == parsed_url(input@),
{
    match url::Url::parse(input) {
        Ok(u) => Ok(u.as_str().to_owned()),
        Err(e) => Err(e.to_string()),
    }
}

/// An entry of the team's directory: something with a name and an id.
pub trait Named {
    /// The name of the entry.
    spec fn name_view(&self) -> Seq<char>;

    /// The id of the entry.
    spec fn id_view(&self) -> Seq<char>;

    fn name_text(&self) -> (s: &String)
        ensures
            s@ == self.name_view(),
    ;

    fn id_text(&self) -> (s: &String)
        ensures
            s@ == self.id_view(),
    ;
}

impl Named for Channel {
    open spec fn name_view(&self) -> Seq<char> {
        self.name@
    }

    open spec fn id_view(&self) -> Seq<char> {
        self.id@
    }

    fn name_text(&self) -> (s: &String) {
        &self.name
    }

    fn id_text(&self) -> (s: &String) {
        &self.id
    }
}

impl Named for Group {
    open spec fn name_view(&self) -> Seq<char> {
        self.name@
    }

    open spec fn id_view(&self) -> Seq<char> {
        self.id@
    }

    fn name_text(&self) -> (s: &String) {
        &self.name
    }

    fn id_text(&self) -> (s: &String) {
        &self.id
    }
}

impl Named for User {
    open spec fn name_view(&self) -> Seq<char> {
        self.name@
    }

    open spec fn id_view(&self) -> Seq<char> {
        self.id@
    }

    fn name_text(&self) -> (s: &String) {
        &self.name
    }

    fn id_text(&self) -> (s: &String) {
        &self.id
    }
}

/// The name-to-id pairs of a list of directory entries.
pub open spec fn name_pairs<T: Named>(items: Seq<T>) -> Seq<(Seq<char>, Seq<char>)> {
    items.map_values(|x: T| (x.name_view(), x.id_view()))
}

/// Records in `map` the id of each entry of `items` under its name, a later
/// entry of the same name replacing the id of an earlier one.
fn add_names<T: Named>(map: &mut StringMap, items: &Vec<T>)
    ensures
        pairs_view(final(map).entries@) == pairs_put_each(pairs_view(old(map).entries@), name_pairs(items@)),
{
    let ghost start = pairs_view(map.entries@);
    let mut i: usize = 0;
    assert(name_pairs(items@.take(0)) =~= Seq::<(Seq<char>, Seq<char>)>::empty());
    while i < items.len()
        invariant
            i <= items@.len(),
            pairs_view(map.entries@) == pairs_put_each(start, name_pairs(items@.take(i as int))),
        decreases items@.len() - i,
    {
        let k = items[i].name_text().clone();
        let v = items[i].id_text().clone();
        proof {
            assert(name_pairs(items@.take(i + 1)) =~= name_pairs(items@.take(i as int)).push(
                (items@[i as int].name_view(), items@[i as int].id_view()),
            ));
            assert(name_pairs(items@.take(i + 1)).drop_last() =~= name_pairs(items@.take(i as int)));
        }
        map.insert(k, v);
        i = i + 1;
    }
    assert(items@.take(items@.len() as int) =~= items@);
}

/// `chan` names a channel by name (`#general`) rather than by id.
pub open spec fn is_channel_name(chan: Seq<char>) -> bool {
    chan.len() > 0 && chan[0] == '#'
}

/// The slack messaging client: the token it logs in with and what it learns
/// of the team when it does.
#[derive(Clone, Debug)]
pub struct Client {
    pub token: String,
    pub start_info: Option<StartResponse>,
    pub channel_ids: StringMap,
    pub group_ids: StringMap,
    pub user_ids: StringMap,
    /// The address of the realtime socket, known once logged in.
    pub wss_url: Option<String>,
}

impl Client {
    /// Creates a new client from a token
    pub fn new(token: &str) -> (c: Client)
        ensures
            c.token@ == token@,
            c.start_info is None,
            c.wss_url is None,
            c.channel_ids@ == Map::<Seq<char>, Seq<char>>::empty(),
            c.group_ids@ == Map::<Seq<char>, Seq<char>>::empty(),
            c.user_ids@ == Map::<Seq<char>, Seq<char>>::empty(),
            c.channel_ids.entries@.len() == 0,
            c.group_ids.entries@.len() == 0,
            c.user_ids.entries@.len() == 0,
    {
        Client {
            token: token.to_owned(),
            start_info: None,
            channel_ids: StringMap::new(),
            group_ids: StringMap::new(),
            user_ids: StringMap::new(),
            wss_url: None,
        }
    }

    /// Takes in what `rtm.start` answered: parses the socket address and
    /// keeps it, records the id of each channel, group and user under its
    /// name, and keeps the answer. An address that does not parse is
    /// reported as `Error::Url` with the client left as it was.
    pub fn login_with(&mut self, start: StartResponse) -> (r: Result<(), Error>)
        ensures
            match parsed_url(start.url@) {
                Ok(u) => {
                    &&& r is Ok
                    &&& final(self).wss_url matches Some(w) && w@ == u
                    &&& final(self).token == old(self).token
                    &&& final(self).start_info == Some(start)
                    &&& pairs_view(final(self).channel_ids.entries@) == pairs_put_each(
                        pairs_view(old(self).channel_ids.entries@),
                        name_pairs(start.channels@),
                    )
                    &&& pairs_view(final(self).group_ids.entries@) == pairs_put_each(
                        pairs_view(old(self).group_ids.entries@),
                        name_pairs(start.groups@),
                    )
                    &&& pairs_view(final(self).user_ids.entries@) == pairs_put_each(
                        pairs_view(old(self).user_ids.entries@),
                        name_pairs(start.users@),
                    )
                },
                Err(m) => {
                    &&& r matches Err(Error::Url(e)) && e@ == m
                    &&& *final(self) == *old(self)
                },
            },
    {
        let wss = match parse_url(start.url.as_str()) {
            Ok(u) => u,
            Err(m) => {
                return Err(Error::Url(m));
            },
        };
        self.wss_url = Some(wss);
        add_names(&mut self.channel_ids, &start.channels);
        add_names(&mut self.group_ids, &start.groups);
        add_names(&mut self.user_ids, &start.users);
        self.start_info = Some(start);
        Ok(())
    }

    /// Returns the Team struct of the bot/user connected to the client.
    /// Only valid after login, otherwise None.
    pub fn get_team(&self) -> (r: Option<&Team>)
        ensures
            match self.start_info {
                Some(s) => r == Some(&s.team),
                None => r is None,
            },
    {
        match &self.start_info {
            Some(s) => Some(&s.team),
            None => None,
        }
    }

    /// Get a user id from a username
    /// Only valid after login.
    pub fn get_user_id(&self, username: &str) -> (r: Option<&String>)
        ensures
            r is Some <==> self.user_ids@.contains_key(username@),
            r matches Some(id) ==> id@ == self.user_ids@[username@],
    {
        self.user_ids.get(username)
    }

    /// Get a channel id from a channel name, note that channel_name does not begin with a '#'
    /// Only valid after login.
    pub fn get_channel_id(&self, channel_name: &str) -> (r: Option<&String>)
        ensures
            r is Some <==> self.channel_ids@.contains_key(channel_name@),
            r matches Some(id) ==> id@ == self.channel_ids@[channel_name@],
    {
        self.channel_ids.get(channel_name)
    }

    /// Get a group id from a group name
    /// Only valid after login.
    pub fn get_group_id(&self, group_name: &str) -> (r: Option<&String>)
        ensures
            r is Some <==> self.group_ids@.contains_key(group_name@),
            r matches Some(id) ==> id@ == self.group_ids@[group_name@],
    {
        self.group_ids.get(group_name)
    }

    /// Returns the Users from the team the bot/client is connected to.
    /// Only valid after login; empty before.
    pub fn get_users(&self) -> (r: &[User])
        ensures
            r@ == match self.start_info {
                Some(s) => s.users@,
                None => Seq::empty(),
            },
    {
        match &self.start_info {
            Some(s) => s.users.as_slice(),
            None => &[],
        }
    }

    /// Returns the Channels from the team the bot/client is connected to.
    /// Only valid after login; empty before.
    pub fn get_channels(&self) -> (r: &[Channel])
        ensures
            r@ == match self.start_info {
                Some(s) => s.channels@,
                None => Seq::empty(),
            },
    {
        match &self.start_info {
            Some(s) => s.channels.as_slice(),
            None => &[],
        }
    }

    /// Returns the Groups from the team the bot/client is connected to.
    /// Only valid after login; empty before.
    pub fn get_groups(&self) -> (r: &[Group])
        ensures
            r@ == match self.start_info {
                Some(s) => s.groups@,
                None => Seq::empty(),
            },
    {
        match &self.start_info {
            Some(s) => s.groups.as_slice(),
            None => &[],
        }
    }

    /// Returns the Ims received on login the bot/client is connected to.
    /// Only valid after login, otherwise None.
    pub fn get_start_ims(&self) -> (r: Option<&Vec<Im>>)
        ensures
            match self.start_info {
                Some(s) => r == Some(&s.ims),
                None => r is None,
            },
    {
        match &self.start_info {
            Some(s) => Some(&s.ims),
            None => None,
        }
    }

    /// Evaluate if chan is a channel name or channel id
    /// If channel name, returns its id
    /// If channel id, returns itself
    /// Only valid after login.
    pub fn evaluate_channel_id(&self, chan: &str) -> (r: Result<String, Error>)
        ensures
            match r {
                Ok(id) => self.resolved_channel(chan@) == Some(id@),
                Err(e) => {
                    &&& self.resolved_channel(chan@) is None
                    &&& e matches Error::Internal(m)
                    &&& m@ == "need to login first to retrieve channel list"@
                },
            },
    {
        let n = chan.unicode_len();
        if n > 0 && chan.get_char(0) == '#' {
            let name = chan.substring_char(1, n);
            assert(name@ =~= chan@.drop_first());
            match self.get_channel_id(name) {
                Some(id) => Ok(id.clone()),
                None => Err(Error::Internal("need to login first to retrieve channel list".to_owned())),
            }
        } else {
            Ok(chan.to_owned())
        }
    }

    /// The `message` payload that sends `msg` to `chan`, a channel's id or
    /// its name after a `#`, with message id `id`.
    pub fn message_payload(&self, id: usize, chan: &str, msg: &str) -> (r: Result<String, Error>)
        ensures
            match r {
                Ok(s) => {
                    &&& self.resolved_channel(chan@) matches Some(chan_id)
                    &&& s@ == message_text(id as nat, chan_id, json_escape(msg@))
                },
                Err(e) => {
                    &&& self.resolved_channel(chan@) is None
                    &&& e matches Error::Internal(m)
                    &&& m@ == "Failed to get channel id"@
                },
            },
    {
        let chan_id = match self.evaluate_channel_id(chan) {
            Ok(id) => id,
            Err(_) => {
                return Err(Error::Internal("Failed to get channel id".to_owned()));
            },
        };
        Ok(message_payload(id, chan_id.as_str(), msg))
    }

    /// The `typing` payload for `chan`, a channel's id or its name after a
    /// `#`, with message id `id`.
    pub fn typing_payload(&self, id: usize, chan: &str) -> (r: Result<String, Error>)
        ensures
            match r {
                Ok(s) => {
                    &&& self.resolved_channel(chan@) matches Some(chan_id)
                    &&& s@ == typing_text(id as nat, chan_id)
                },
                Err(e) => {
                    &&& self.resolved_channel(chan@) is None
                    &&& e matches Error::Internal(m)
                    &&& m@ == "Failed to get channel id"@
                },
            },
    {
        let chan_id = match self.evaluate_channel_id(chan) {
            Ok(id) => id,
            Err(_) => {
                return Err(Error::Internal("Failed to get channel id".to_owned()));
            },
        };
        Ok(typing_payload(id, chan_id.as_str()))
    }

    /// The channel id that `chan` stands for: the id recorded under the name
    /// after its `#`, if any, or `chan` itself.
    pub open spec fn resolved_channel(&self, chan: Seq<char>) -> Option<Seq<char>> {
        if !is_channel_name(chan) {
            Some(chan)
        } else if self.channel_ids@.contains_key(chan.drop_first()) {
            Some(self.channel_ids@[chan.drop_first()])
        } else {
            None
        }
    }

    /// The message that shuts the connection down; there is none to send
    /// before login.
    pub fn shutdown_message(&self) -> (r: Result<WsMessage, Error>)
        ensures
            match r {
                Ok(m) => self.start_info is Some && m is Close,
                Err(e) => {
                    &&& self.start_info is None
                    &&& e matches Error::Internal(m)
                    &&& m@ == "Cannot shutdown without a sender. Ensure you have run `login`."@
                },
            },
    {
        match &self.start_info {
            Some(_) => Ok(WsMessage::Close),
            None => Err(
                Error::Internal("Cannot shutdown without a sender. Ensure you have run `login`.".to_owned()),
            ),
        }
    }
}

/// After login, a client that knew no channel (group, user) knows the id of
/// each one of the answer under its name: a name is known exactly when some
/// entry bears it, and stands for the id of the last entry that does. Login
/// records `start.channels` in `channel_ids`, `start.groups` in `group_ids`
/// and `start.users` in `user_ids` so.
pub proof fn lemma_login_ids<T: Named>(before: StringMap, after: StringMap, items: Seq<T>, name: Seq<char>)
    requires
        before.entries@.len() == 0,
        pairs_view(after.entries@) == pairs_put_each(pairs_view(before.entries@), name_pairs(items)),
    ensures
        after@.contains_key(name) <==> exists|i: int| 0 <= i < items.len() && #[trigger] items[i].name_view() == name,
        after@.contains_key(name) ==> exists|i: int|
            {
                &&& 0 <= i < items.len()
                &&& #[trigger] items[i].name_view() == name
                &&& after@[name] == items[i].id_view()
                &&& forall|k: int| i < k < items.len() ==> items[k].name_view() != name
            },
{
    let ps = name_pairs(items);
    lemma_pairs_put_each(pairs_view(before.entries@), ps);
    assert(pairs_view(before.entries@) + ps =~= ps);
    lemma_pairs_map_lookup(ps, name);
    if after@.contains_key(name) {
        let i = choose|i: int|
            {
                &&& 0 <= i < ps.len()
                &&& #[trigger] ps[i].0 == name
                &&& pairs_map(ps)[name] == ps[i].1
                &&& forall|k: int| i < k < ps.len() ==> ps[k].0 != name
            };
        assert(items[i].name_view() == name);
        assert forall|k: int| i < k < items.len() implies items[k].name_view() != name by {
            assert(ps[k].0 != name);
        }
    }
    if exists|i: int| 0 <= i < items.len() && #[trigger] items[i].name_view() == name {
        let i = choose|i: int| 0 <= i < items.len() && #[trigger] items[i].name_view() == name;
        assert(ps[i].0 == name);
    }
}

/// A channel named with a leading `#` stands for the id that
/// `get_channel_id` gives for the name after it; any other text stands for
/// itself.
pub proof fn lemma_hash_name_is_lookup(c: Client, name: Seq<char>)
    ensures
        c.resolved_channel("#"@ + name) == (if c.channel_ids@.contains_key(name) {
            Some(c.channel_ids@[name])
        } else {
            None
        }),
        !is_channel_name(name) ==> c.resolved_channel(name) == Some(name),
{
    reveal_strlit("#");
    assert(("#"@ + name).drop_first() =~= name);
}

/// After a client that knew no channel logs in, `#name` stands for the id of
/// the last channel of the answer named `name`, and for nothing when no
/// channel bears that name.
pub proof fn lemma_login_then_resolve(before: Client, after: Client, start: StartResponse, name: Seq<char>)
    requires
        before.channel_ids.entries@.len() == 0,
        pairs_view(after.channel_ids.entries@) == pairs_put_each(
            pairs_view(before.channel_ids.entries@),
            name_pairs(start.channels@),
        ),
    ensures
        after.resolved_channel("#"@ + name) is None <==> forall|i: int|
            0 <= i < start.channels@.len() ==> #[trigger] start.channels@[i].name@ != name,
        after.resolved_channel("#"@ + name) matches Some(id) ==> exists|i: int|
            {
                &&& 0 <= i < start.channels@.len()
                &&& #[trigger] start.channels@[i].name@ == name
                &&& id == start.channels@[i].id@
                &&& forall|k: int| i < k < start.channels@.len() ==> start.channels@[k].name@ != name
            },
{
    lemma_login_ids(before.channel_ids, after.channel_ids, start.channels@, name);
    lemma_hash_name_is_lookup(after, name);
    if exists|i: int| 0 <= i < start.channels@.len() && #[trigger] start.channels@[i].name@ == name {
        let i = choose|i: int| 0 <= i < start.channels@.len() && #[trigger] start.channels@[i].name@ == name;
        assert(start.channels@[i].name_view() == name);
    }
    if after.channel_ids@.contains_key(name) {
        let i = choose|i: int|
            {
                &&& 0 <= i < start.channels@.len()
                &&& #[trigger] start.channels@[i].name_view() == name
                &&& after.channel_ids@[name] == start.channels@[i].id_view()
                &&& forall|k: int| i < k < start.channels@.len() ==> start.channels@[k].name_view() != name
            };
        assert(start.channels@[i].name@ == name);
    }
}

} // verus!
