//! The status of a game server: what a status document says, and what is
//! known of one monitored address.

use vstd::prelude::*;
use crate::json::{
    bool_of, items_of, json_document, json_of, member, member_of, parse_json, text_of, u64_of,
    Json,
};
use crate::text::texts_of;

verus! {

/// Why the status of a server could not be had.
#[derive(Clone, Copy, Debug, PartialEq, Eq, Structural)]
pub enum FetchError {
    /// The server's status service could not be reached or refused.
    Network,
    /// No answer came in time.
    Timeout,
    /// The answer is no JSON document.
    MalformedJson,
}

/// What a status document says of a server.
#[derive(Clone, Debug, PartialEq, Eq)]
pub struct ServerStatus {
    pub online: bool,
    pub player_count: u64,
    pub max_players: u64,
    pub players: Vec<String>,
}

/// A `ServerStatus` as plain values.
pub ghost struct StatusView {
    pub online: bool,
    pub player_count: u64,
    pub max_players: u64,
    pub players: Seq<Seq<char>>,
}

/// The fields of a status document as they were found: each is absent
/// where the document lacks it or holds a value of another kind there.
#[derive(Clone, Debug, PartialEq, Eq)]
pub struct RawStatus {
    pub online: Option<bool>,
    pub players_online: Option<u64>,
    pub players_max: Option<u64>,
    /// The `name_clean` of each item of the list of players.
    pub player_names: Option<Vec<Option<String>>>,
}

/// A `RawStatus` as plain values.
pub ghost struct RawStatusView {
    pub online: Option<bool>,
    pub players_online: Option<u64>,
    pub players_max: Option<u64>,
    pub player_names: Option<Seq<Option<Seq<char>>>>,
}

/// The text of a name that may be absent.
pub open spec fn found_text(name: Option<String>) -> Option<Seq<char>> {
    match name {
        Some(s) => Some(s@),
        None => None,
    }
}

/// The status of a server of which nothing is known yet: offline, without
/// players.
pub open spec fn unknown_status() -> StatusView {
    StatusView { online: false, player_count: 0, max_players: 0, players: Seq::empty() }
}

/// A name as it was found, or the empty name.
pub open spec fn name_or_empty(name: Option<Seq<char>>) -> Seq<char> {
    match name {
        Some(s) => s,
        None => Seq::empty(),
    }
}

/// The status that the found fields give: an absent field counts as
/// `false`, as 0, as no players, and an absent name as the empty name.
pub open spec fn status_of_raw(raw: RawStatusView) -> StatusView {
    StatusView {
        online: match raw.online {
            Some(b) => b,
            None => false,
        },
        player_count: match raw.players_online {
            Some(n) => n,
            None => 0,
        },
        max_players: match raw.players_max {
            Some(n) => n,
            None => 0,
        },
        players: match raw.player_names {
            Some(names) => names.map_values(|name: Option<Seq<char>>| name_or_empty(name)),
            None => Seq::empty(),
        },
    }
}

/// The fields that a status document holds: `online`, under `players` the
/// members `online`, `max` and `list`, and of each item of that list the
/// member `name_clean`.
pub open spec fn raw_status_of(doc: Json) -> RawStatusView {
    let players = member_of(doc, "players"@);
    RawStatusView {
        online: bool_of(member_of(doc, "online"@)),
        players_online: u64_of(member_of(players, "online"@)),
        players_max: u64_of(member_of(players, "max"@)),
        player_names: match items_of(member_of(players, "list"@)) {
            Some(items) => Some(
                items.map_values(|item: Json| text_of(member_of(item, "name_clean"@))),
            ),
            None => None,
        },
    }
}

/// What reading a text as a status document gives: the status that its
/// fields give, or `MalformedJson` where the text is no JSON document.
pub open spec fn parsed_status(text: Seq<char>) -> Result<StatusView, FetchError> {
    match json_document(text) {
        Some(doc) => Ok(status_of_raw(raw_status_of(doc))),
        None => Err(FetchError::MalformedJson),
    }
}

/// A document without a member `players`, or with one that is no object,
/// gives the status of a server without players: none counted, none
/// allowed, none named.
pub proof fn lemma_without_players(doc: Json)
    requires
        !(member_of(doc, "players"@) is Object),
    ensures
        status_of_raw(raw_status_of(doc)).player_count == 0,
        status_of_raw(raw_status_of(doc)).max_players == 0,
        status_of_raw(raw_status_of(doc)).players == Seq::<Seq<char>>::empty(),
        status_of_raw(raw_status_of(doc)).online == (bool_of(member_of(doc, "online"@)) == Some(
            true,
        )),
{
}

/// Whatever a text holds, reading it as a status document fails in one
/// way only: the text is no JSON document. No field that is missing or of
/// another kind makes it fail.
pub proof fn lemma_only_malformed_fails(text: Seq<char>)
    ensures
        parsed_status(text) is Err <==> json_document(text) is None,
        parsed_status(text) is Err ==> parsed_status(text) == Err::<StatusView, FetchError>(
            FetchError::MalformedJson,
        ),
{
}

impl View for ServerStatus {
    type V = StatusView;

    open spec fn view(&self) -> StatusView {
        StatusView {
            online: self.online,
            player_count: self.player_count,
            max_players: self.max_players,
            players: texts_of(self.players@),
        }
    }
}

impl View for RawStatus {
    type V = RawStatusView;

    open spec fn view(&self) -> RawStatusView {
        RawStatusView {
            online: self.online,
            players_online: self.players_online,
            players_max: self.players_max,
            player_names: match self.player_names {
                Some(names) => Some(names@.map_values(|name: Option<String>| found_text(name))),
                None => None,
            },
        }
    }
}

impl Default for ServerStatus {
    /// The status of a server of which nothing is known yet.
    fn default() -> (s: Self)
        ensures
            s@ == unknown_status(),
    {
        let s = ServerStatus {
            online: false,
            player_count: 0,
            max_players: 0,
            players: Vec::new(),
        };
        assert(s@.players =~= Seq::<Seq<char>>::empty());
        s
    }
}

/// A copy of a list of strings.
pub(crate) fn copy_names(names: &Vec<String>) -> (copy: Vec<String>)
    ensures
        copy@ == names@,
{
    let mut copy: Vec<String> = Vec::new();
    let mut i: usize = 0;
    while i < names.len()
        invariant
            i <= names.len(),
            copy@ == names@.take(i as int),
        decreases names.len() - i,
    {
        copy.push(names[i].clone());
        i += 1;
        assert(copy@ =~= names@.take(i as int));
    }
    assert(names@.take(names.len() as int) =~= names@);
    copy
}

impl ServerStatus {
    /// The status that the found fields of a document give.
    pub fn from_raw(raw: &RawStatus) -> (s: ServerStatus)
        ensures
            s@ == status_of_raw(raw@),
    {
        let online: bool = match raw.online {
            Some(b) => b,
            None => false,
        };
        let player_count: u64 = match raw.players_online {
            Some(n) => n,
            None => 0,
        };
        let max_players: u64 = match raw.players_max {
            Some(n) => n,
            None => 0,
        };
        let mut players: Vec<String> = Vec::new();
        match &raw.player_names {
            Some(names) => {
                let ghost found = raw@.player_names->0;
                let mut i: usize = 0;
                while i < names.len()
                    invariant
                        i <= names.len(),
                        found == names@.map_values(|name: Option<String>| found_text(name)),
                        players@.len() == i,
                        forall|k: int|
                            0 <= k < i ==> (#[trigger] players@[k])@ == name_or_empty(found[k]),
                    decreases names.len() - i,
                {
                    let name: String = match &names[i] {
                        Some(s) => s.clone(),
                        None => String::new(),
                    };
                    players.push(name);
                    i += 1;
                }
                assert(texts_of(players@) =~= found.map_values(
                    |name: Option<Seq<char>>| name_or_empty(name),
                ));
            },
            None => {
                assert(texts_of(players@) =~= Seq::<Seq<char>>::empty());
            },
        }
        ServerStatus { online, player_count, max_players, players }
    }
}

/// Reads the fields of a status document out of a JSON value.
pub fn read_raw_status(doc: &serde_json::Value) -> (raw: RawStatus)
    ensures
        raw@ == raw_status_of(json_of(*doc)),
{
    let online = member(doc, "online").as_bool();
    let players = member(doc, "players");
    let players_online = member(players, "online").as_u64();
    let players_max = member(players, "max").as_u64();
    let player_names: Option<Vec<Option<String>>> = match member(players, "list").as_array() {
        Some(items) => {
            let ghost list = items@.map_values(|item: serde_json::Value| json_of(item));
            let mut names: Vec<Option<String>> = Vec::new();
            let mut i: usize = 0;
            while i < items.len()
                invariant
                    i <= items.len(),
                    names@.len() == i,
                    forall|k: int|
                        0 <= k < i ==> found_text(#[trigger] names@[k]) == text_of(
                            member_of(json_of(items@[k]), "name_clean"@),
                        ),
                decreases items.len() - i,
            {
                let name: Option<String> = match member(&items[i], "name_clean").as_str() {
                    Some(s) => Some(String::from_str(s)),
                    None => None,
                };
                names.push(name);
                i += 1;
            }
            assert(names@.map_values(|name: Option<String>| found_text(name)) =~= list.map_values(
                |item: Json| text_of(member_of(item, "name_clean"@)),
            ));
            Some(names)
        },
        None => None,
    };
    RawStatus { online, players_online, players_max, player_names }
}

/// Reads a text as a status document.
pub fn parse_status(text: &str) -> (r: Result<ServerStatus, FetchError>)
    ensures
        match r {
            Ok(s) => parsed_status(text@) == Ok::<StatusView, FetchError>(s@),
            Err(e) => parsed_status(text@) == Err::<StatusView, FetchError>(e),
        },
{
    match parse_json(text) {
        Ok(doc) => {
            let raw = read_raw_status(&doc);
            Ok(ServerStatus::from_raw(&raw))
        },
        Err(_) => Err(FetchError::MalformedJson),
    }
}

/// What is known of one monitored address.
#[derive(Clone, Debug, PartialEq, Eq)]
pub struct ServerState {
    /// The address, as it is handed to the status service.
    pub ip: String,
    /// Whether the server was online when its status was last had.
    pub status: bool,
    pub player_count: u64,
    pub max_players: u64,
    pub players: Vec<String>,
    /// Why the latest update failed, if it did.
    pub last_update_error: Option<FetchError>,
}

/// A `ServerState` as plain values.
pub ghost struct ServerStateView {
    pub ip: Seq<char>,
    pub status: StatusView,
    pub last_update_error: Option<FetchError>,
}

impl View for ServerState {
    type V = ServerStateView;

    open spec fn view(&self) -> ServerStateView {
        ServerStateView {
            ip: self.ip@,
            status: StatusView {
                online: self.status,
                player_count: self.player_count,
                max_players: self.max_players,
                players: texts_of(self.players@),
            },
            last_update_error: self.last_update_error,
        }
    }
}

/// The entry of an address before anything is known of its server.
pub open spec fn fresh_entry(ip: Seq<char>) -> ServerStateView {
    ServerStateView { ip, status: unknown_status(), last_update_error: None }
}

/// An entry after the outcome of an update: a status takes the place of
/// the one before and clears the error; a failure is noted and leaves the
/// status as it was.
pub open spec fn applied(
    entry: ServerStateView,
    outcome: Result<StatusView, FetchError>,
) -> ServerStateView {
    match outcome {
        Ok(status) => ServerStateView { ip: entry.ip, status, last_update_error: None },
        Err(e) => ServerStateView {
            ip: entry.ip,
            status: entry.status,
            last_update_error: Some(e),
        },
    }
}

/// The outcome of an update as plain values.
pub open spec fn outcome_view(outcome: Result<ServerStatus, FetchError>) -> Result<
    StatusView,
    FetchError,
> {
    match outcome {
        Ok(status) => Ok(status@),
        Err(e) => Err(e),
    }
}

/// The outcome of an update whose answer was fetched: the status read
/// from the answer's text, or the reason why there is none.
pub open spec fn fetched_outcome(fetched: Result<&str, FetchError>) -> Result<
    StatusView,
    FetchError,
> {
    match fetched {
        Ok(text) => parsed_status(text@),
        Err(e) => Err(e),
    }
}

/// What a fetch of a status document brought, read: the status that the
/// answer's text gives, or the reason why there is none.
pub fn read_fetched(fetched: Result<&str, FetchError>) -> (outcome: Result<ServerStatus, FetchError>)
    ensures
        outcome_view(outcome) == fetched_outcome(fetched),
{
    match fetched {
        Ok(text) => parse_status(text),
        Err(e) => Err(e),
    }
}

/// An entry whose updates have all failed still has the status of a
/// server of which nothing is known: a failure shows as stale data, never
/// as an error.
pub proof fn lemma_failure_shows_stale(entry: ServerStateView, e: FetchError)
    ensures
        applied(entry, Err(e)).status == entry.status,
        applied(entry, Err(e)).ip == entry.ip,
        applied(fresh_entry(entry.ip), Err(e)).status == unknown_status(),
{
}

impl ServerState {
    /// The entry of the address `ip`, with nothing known of its server.
    pub fn new(ip: &str) -> (s: Self)
        ensures
            s@ == fresh_entry(ip@),
    {
        let s = ServerState {
            ip: String::from_str(ip),
            status: false,
            player_count: 0,
            max_players: 0,
            players: Vec::new(),
            last_update_error: None,
        };
        assert(texts_of(s.players@) =~= Seq::<Seq<char>>::empty());
        s
    }

    /// The status of the server as it was last had.
    pub fn get_status(&self) -> (s: ServerStatus)
        ensures
            s@ == self@.status,
    {
        ServerStatus {
            online: self.status,
            player_count: self.player_count,
            max_players: self.max_players,
            players: copy_names(&self.players),
        }
    }

    /// Takes in the outcome of an update. A status replaces the one before,
    /// whole, and clears the error. A failure is noted and changes nothing
    /// else.
    pub fn apply(&mut self, outcome: Result<ServerStatus, FetchError>)
        ensures
            final(self)@ == applied(old(self)@, outcome_view(outcome)),
            final(self).ip == old(self).ip,
            match outcome {
                Ok(status) => {
                    &&& final(self).status == status.online
                    &&& final(self).player_count == status.player_count
                    &&& final(self).max_players == status.max_players
                    &&& final(self).players == status.players
                    &&& final(self).last_update_error is None
                },
                Err(e) => {
                    &&& final(self).status == old(self).status
                    &&& final(self).player_count == old(self).player_count
                    &&& final(self).max_players == old(self).max_players
                    &&& final(self).players == old(self).players
                    &&& final(self).last_update_error == Some(e)
                },
            },
    {
        match outcome {
            Ok(status) => {
                self.status = status.online;
                self.player_count = status.player_count;
                self.max_players = status.max_players;
                self.players = status.players;
                self.last_update_error = None;
            },
            Err(e) => {
                self.last_update_error = Some(e);
            },
        }
    }

    /// Takes in what a fetch of the server's status document brought: the
    /// text of the answer, or the reason why there is none. The text is
    /// read as a status document, and the outcome is applied as `apply`
    /// does. The result says whether the entry has a new status.
    pub fn update(&mut self, fetched: Result<&str, FetchError>) -> (r: Result<(), FetchError>)
        ensures
            final(self)@ == applied(old(self)@, fetched_outcome(fetched)),
            r == (match fetched_outcome(fetched) {
                Ok(_) => Ok::<(), FetchError>(()),
                Err(e) => Err::<(), FetchError>(e),
            }),
            r is Err ==> {
                &&& final(self).ip == old(self).ip
                &&& final(self).status == old(self).status
                &&& final(self).player_count == old(self).player_count
                &&& final(self).max_players == old(self).max_players
                &&& final(self).players == old(self).players
            },
    {
        let outcome = read_fetched(fetched);
        let r: Result<(), FetchError> = match &outcome {
            Ok(_) => Ok(()),
            Err(e) => Err(*e),
        };
        self.apply(outcome);
        r
    }
}

} // verus!
