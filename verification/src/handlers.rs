//! The key routes of the HTTP server: which client of the pool serves a request, and
//! what the request is answered.

use crate::json::{
    empty_object, insert_bool, insert_number, insert_optional_text, insert_text, json_members,
    json_optional, Json,
};
use crate::text::optional_text;
use vstd::prelude::*;

verus! {

/// The number of clients in the pool.
pub const POOL_SIZE: usize = 3;

/// The dispatch state that all handlers share: how many requests were handed a client.
pub struct AppState {
    counter: usize,
}

impl View for AppState {
    type V = usize;

    closed spec fn view(&self) -> usize {
        self.counter
    }
}

/// The client that a request is handed when `counter` requests came before it.
pub open spec fn client_for(counter: usize) -> usize {
    (counter as int % POOL_SIZE as int) as usize
}

/// The counter after one more request. It wraps around at the end of its range.
pub open spec fn counter_after(counter: usize) -> usize {
    if counter == usize::MAX {
        0
    } else {
        (counter + 1) as usize
    }
}

/// The counter after `requests` more requests.
pub open spec fn counter_after_many(counter: usize, requests: nat) -> usize
    decreases requests,
{
    if requests == 0 {
        counter
    } else {
        counter_after(counter_after_many(counter, (requests - 1) as nat))
    }
}

impl AppState {
    /// The state of a server that has served nothing yet.
    pub fn new() -> (state: Self)
        ensures
            state@ == 0,
    {
        AppState { counter: 0 }
    }

    /// Hands out the next client, by its index in the pool.
    pub fn next_client(&mut self) -> (client_idx: usize)
        ensures
            client_idx == client_for(old(self)@),
            client_idx < POOL_SIZE,
            client_idx == old(self)@ as int % POOL_SIZE as int,
            final(self)@ == counter_after(old(self)@),
            old(self)@ < usize::MAX ==> final(self)@ == old(self)@ + 1,
            old(self)@ == usize::MAX ==> final(self)@ == 0,
    {
        let client_idx: usize = self.counter % POOL_SIZE;
        self.counter = self.counter.wrapping_add(1);
        client_idx
    }
}

/// A read that was handed a client and waits for the cluster.
pub struct GetCall {
    pub key: String,
    pub client_idx: usize,
}

/// A write that was handed a client and waits for the cluster.
pub struct SetCall {
    pub key: String,
    pub value: String,
    pub client_idx: usize,
}

/// The reply to a read: the value, or the message of the error that came in its place.
pub open spec fn get_reply(
    key: Seq<char>,
    client_idx: nat,
    outcome: Result<Option<Seq<char>>, Seq<char>>,
    elapsed_ms: nat,
) -> Map<Seq<char>, Json> {
    match outcome {
        Ok(value) => map![
            "key"@ => Json::Text(key),
            "value"@ => json_optional(value),
            "client_idx"@ => Json::Number(client_idx),
            "elapsed_ms"@ => Json::Number(elapsed_ms),
        ],
        Err(error) => map![
            "key"@ => Json::Text(key),
            "error"@ => Json::Text(error),
            "client_idx"@ => Json::Number(client_idx),
            "elapsed_ms"@ => Json::Number(elapsed_ms),
        ],
    }
}

/// The reply to a write: the value that was written, or the message of the error.
pub open spec fn set_reply(
    key: Seq<char>,
    value: Seq<char>,
    client_idx: nat,
    outcome: Result<(), Seq<char>>,
    elapsed_ms: nat,
) -> Map<Seq<char>, Json> {
    match outcome {
        Ok(_) => map![
            "ok"@ => Json::Bool(true),
            "key"@ => Json::Text(key),
            "value"@ => Json::Text(value),
            "client_idx"@ => Json::Number(client_idx),
            "elapsed_ms"@ => Json::Number(elapsed_ms),
        ],
        Err(error) => map![
            "ok"@ => Json::Bool(false),
            "key"@ => Json::Text(key),
            "error"@ => Json::Text(error),
            "client_idx"@ => Json::Number(client_idx),
            "elapsed_ms"@ => Json::Number(elapsed_ms),
        ],
    }
}

/// The view of what a read came back with.
pub open spec fn read_outcome(
    outcome: Result<Option<String>, String>,
) -> Result<Option<Seq<char>>, Seq<char>> {
    match outcome {
        Ok(value) => Ok(optional_text(value)),
        Err(error) => Err(error@),
    }
}

/// The view of what a write came back with.
pub open spec fn write_outcome(outcome: Result<(), String>) -> Result<(), Seq<char>> {
    match outcome {
        Ok(_) => Ok(()),
        Err(error) => Err(error@),
    }
}

/// `GET /get/:key`: hands the read to the next client.
pub fn handle_get(state: &mut AppState, key: String) -> (call: GetCall)
    ensures
        call.key@ == key@,
        call.client_idx == client_for(old(state)@),
        call.client_idx < POOL_SIZE,
        call.client_idx == old(state)@ as int % POOL_SIZE as int,
        final(state)@ == counter_after(old(state)@),
        old(state)@ < usize::MAX ==> final(state)@ == old(state)@ + 1,
        old(state)@ == usize::MAX ==> final(state)@ == 0,
{
    let client_idx: usize = state.next_client();
    GetCall { key, client_idx }
}

impl GetCall {
    /// The reply to the read, once the client has answered. An elapsed time that JSON
    /// numbers cannot hold has no reply.
    pub fn reply(
        &self,
        outcome: &Result<Option<String>, String>,
        elapsed_ms: u128,
    ) -> (reply: serde_json::Map<String, serde_json::Value>)
        requires
            elapsed_ms <= u64::MAX,
        ensures
            json_members(reply) == get_reply(
                self.key@,
                self.client_idx as nat,
                read_outcome(*outcome),
                elapsed_ms as nat,
            ),
            json_members(reply)["key"@] == Json::Text(self.key@),
            json_members(reply)["client_idx"@] == Json::Number(self.client_idx as nat),
            json_members(reply)["elapsed_ms"@] == Json::Number(elapsed_ms as nat),
            *outcome matches Ok(Some(text)) ==> json_members(reply)["value"@] == Json::Text(text@),
            *outcome matches Ok(None) ==> json_members(reply)["value"@] == Json::Null,
            *outcome matches Err(error) ==> json_members(reply)["error"@] == Json::Text(error@),
            *outcome is Ok ==> json_members(reply).dom() == set![
                "key"@,
                "value"@,
                "client_idx"@,
                "elapsed_ms"@,
            ],
            *outcome is Err ==> json_members(reply).dom() == set![
                "key"@,
                "error"@,
                "client_idx"@,
                "elapsed_ms"@,
            ],
    {
        proof {
            lemma_names_differ();
        }
        let mut reply = empty_object();
        insert_text(&mut reply, "key", self.key.as_str());
        match outcome {
            Ok(value) => insert_optional_text(&mut reply, "value", value),
            Err(error) => insert_text(&mut reply, "error", error.as_str()),
        }
        insert_number(&mut reply, "client_idx", self.client_idx as u64);
        insert_number(&mut reply, "elapsed_ms", elapsed_ms as u64);
        reply
    }
}

/// `GET /set/:key/:value`: hands the write to the next client.
pub fn handle_set(state: &mut AppState, key: String, value: String) -> (call: SetCall)
    ensures
        call.key@ == key@,
        call.value@ == value@,
        call.client_idx == client_for(old(state)@),
        call.client_idx < POOL_SIZE,
        call.client_idx == old(state)@ as int % POOL_SIZE as int,
        final(state)@ == counter_after(old(state)@),
        old(state)@ < usize::MAX ==> final(state)@ == old(state)@ + 1,
        old(state)@ == usize::MAX ==> final(state)@ == 0,
{
    let client_idx: usize = state.next_client();
    SetCall { key, value, client_idx }
}

impl SetCall {
    /// The reply to the write, once the client has answered. An elapsed time that JSON
    /// numbers cannot hold has no reply.
    pub fn reply(
        &self,
        outcome: &Result<(), String>,
        elapsed_ms: u128,
    ) -> (reply: serde_json::Map<String, serde_json::Value>)
        requires
            elapsed_ms <= u64::MAX,
        ensures
            json_members(reply) == set_reply(
                self.key@,
                self.value@,
                self.client_idx as nat,
                write_outcome(*outcome),
                elapsed_ms as nat,
            ),
            json_members(reply)["ok"@] == Json::Bool(*outcome is Ok),
            json_members(reply)["key"@] == Json::Text(self.key@),
            json_members(reply)["client_idx"@] == Json::Number(self.client_idx as nat),
            json_members(reply)["elapsed_ms"@] == Json::Number(elapsed_ms as nat),
            *outcome is Ok ==> json_members(reply)["value"@] == Json::Text(self.value@),
            *outcome matches Err(error) ==> json_members(reply)["error"@] == Json::Text(error@),
            *outcome is Ok ==> json_members(reply).dom() == set![
                "ok"@,
                "key"@,
                "value"@,
                "client_idx"@,
                "elapsed_ms"@,
            ],
            *outcome is Err ==> json_members(reply).dom() == set![
                "ok"@,
                "key"@,
                "error"@,
                "client_idx"@,
                "elapsed_ms"@,
            ],
    {
        proof {
            lemma_names_differ();
        }
        let mut reply = empty_object();
        match outcome {
            Ok(_) => {
                insert_bool(&mut reply, "ok", true);
                insert_text(&mut reply, "key", self.key.as_str());
                insert_text(&mut reply, "value", self.value.as_str());
            },
            Err(error) => {
                insert_bool(&mut reply, "ok", false);
                insert_text(&mut reply, "key", self.key.as_str());
                insert_text(&mut reply, "error", error.as_str());
            },
        }
        insert_number(&mut reply, "client_idx", self.client_idx as u64);
        insert_number(&mut reply, "elapsed_ms", elapsed_ms as u64);
        reply
    }
}

/// The reply to a status request.
pub open spec fn status_reply(pool_size: nat, counter: nat) -> Map<Seq<char>, Json> {
    map![
        "pool_size"@ => Json::Number(pool_size),
        "counter"@ => Json::Number(counter),
    ]
}

/// `GET /status`: the size of the pool and the dispatch counter, which stays as it is.
pub fn handle_status(
    state: &AppState,
    pool_size: usize,
) -> (reply: serde_json::Map<String, serde_json::Value>)
    ensures
        json_members(reply) == status_reply(pool_size as nat, state@ as nat),
        json_members(reply)["pool_size"@] == Json::Number(pool_size as nat),
        json_members(reply)["counter"@] == Json::Number(state@ as nat),
        json_members(reply).dom() == set!["pool_size"@, "counter"@],
{
    proof {
        lemma_names_differ();
    }
    let mut reply = empty_object();
    insert_number(&mut reply, "pool_size", pool_size as u64);
    insert_number(&mut reply, "counter", state.counter as u64);
    reply
}

/// A client is found in the pool by what remains of the counter after whole rounds, at
/// every counter.
pub proof fn law_client_is_what_remains(counter: usize)
    ensures
        client_for(counter) < POOL_SIZE,
        client_for(counter) < 3,
        (counter - client_for(counter)) % 3 == 0,
{
}

/// The counter counts every request: it goes up by one, and after the largest number it
/// begins again at zero.
pub proof fn law_counter_counts_and_wraps(counter: usize)
    ensures
        counter < usize::MAX ==> counter_after(counter) == counter + 1,
        counter_after(counter) == 0 <==> counter == usize::MAX,
{
}

/// Requests go round the pool: a request that comes `requests` requests later is handed
/// the client that lies that many places further on, as long as the counter does not
/// wrap around in between.
pub proof fn law_requests_go_round(counter: usize, requests: nat)
    requires
        counter + requests <= usize::MAX,
    ensures
        counter_after_many(counter, requests) == counter + requests,
        client_for(counter_after_many(counter, requests)) == (client_for(counter) + requests)
            % (POOL_SIZE as int),
    decreases requests,
{
    if requests > 0 {
        law_requests_go_round(counter, (requests - 1) as nat);
    }
}

/// As many requests in a row as there are clients are handed different clients.
pub proof fn law_neighbours_differ(counter: usize, i: nat, j: nat)
    requires
        i < j < POOL_SIZE,
        counter + j <= usize::MAX,
    ensures
        client_for(counter_after_many(counter, i)) != client_for(counter_after_many(counter, j)),
{
    law_requests_go_round(counter, i);
    law_requests_go_round(counter, j);
}

/// How many of `requests` requests in a row one client is handed.
pub open spec fn share(client_idx: usize, counter: usize, requests: nat) -> nat
    decreases requests,
{
    if requests == 0 {
        0
    } else {
        let earlier = (requests - 1) as nat;
        share(client_idx, counter, earlier) + (if client_for(counter_after_many(counter, earlier))
            == client_idx {
            1nat
        } else {
            0nat
        })
    }
}

/// How many requests pass before a client has its turn.
pub open spec fn wait_for_turn(client_idx: usize, counter: usize) -> int {
    (client_idx - client_for(counter)) % (POOL_SIZE as int)
}

/// The load is spread evenly: of any number of requests in a row each client of the pool
/// is handed its share, rounded down or up, and the whole share after whole rounds. The
/// counter does not wrap around in between.
pub proof fn law_load_is_even(client_idx: usize, counter: usize, requests: nat)
    requires
        client_idx < POOL_SIZE,
        counter + requests <= usize::MAX + 1,
    ensures
        share(client_idx, counter, requests) == requests as int / POOL_SIZE as int || share(
            client_idx,
            counter,
            requests,
        ) == (requests + POOL_SIZE - 1) / POOL_SIZE as int,
        requests as int % POOL_SIZE as int == 0 ==> share(client_idx, counter, requests)
            * POOL_SIZE == requests,
{
    lemma_share(client_idx, counter, requests);
}

/// A client is handed the request at its turn and every one that lies whole rounds on.
proof fn lemma_share(client_idx: usize, counter: usize, requests: nat)
    requires
        client_idx < POOL_SIZE,
        counter + requests <= usize::MAX + 1,
    ensures
        share(client_idx, counter, requests) == (requests + POOL_SIZE - 1 - wait_for_turn(
            client_idx,
            counter,
        )) / POOL_SIZE as int,
    decreases requests,
{
    if requests > 0 {
        let earlier = (requests - 1) as nat;
        lemma_share(client_idx, counter, earlier);
        law_requests_go_round(counter, earlier);
    }
}

/// A reply to a read names the key, the client and the time, and besides them either the
/// value or the error, and nothing else. A text that was read is answered as that very
/// text, whatever it is; `null` is the answer for a missing key alone.
pub proof fn law_get_reply_holds_value_or_error(
    key: Seq<char>,
    client_idx: nat,
    outcome: Result<Option<Seq<char>>, Seq<char>>,
    elapsed_ms: nat,
)
    ensures
        ({
            let reply = get_reply(key, client_idx, outcome, elapsed_ms);
            &&& reply["key"@] == Json::Text(key)
            &&& reply["client_idx"@] == Json::Number(client_idx)
            &&& reply["elapsed_ms"@] == Json::Number(elapsed_ms)
            &&& reply.contains_key("value"@) <==> outcome is Ok
            &&& reply.contains_key("error"@) <==> outcome is Err
            &&& outcome matches Ok(value) ==> reply["value"@] == json_optional(value)
            &&& outcome matches Ok(Some(text)) ==> reply["value"@] == Json::Text(text)
            &&& outcome matches Ok(value) ==> (reply["value"@] == Json::Null <==> value is None)
            &&& outcome matches Err(error) ==> reply["error"@] == Json::Text(error)
            &&& reply.dom() == (if outcome is Ok {
                set!["key"@, "value"@, "client_idx"@, "elapsed_ms"@]
            } else {
                set!["key"@, "error"@, "client_idx"@, "elapsed_ms"@]
            })
        }),
{
    lemma_names_differ();
    let reply = get_reply(key, client_idx, outcome, elapsed_ms);
    if outcome is Ok {
        assert(reply.dom() =~= set!["key"@, "value"@, "client_idx"@, "elapsed_ms"@]);
    } else {
        assert(reply.dom() =~= set!["key"@, "error"@, "client_idx"@, "elapsed_ms"@]);
    }
}

/// Replies to reads tell texts apart: two texts that were read are answered alike only
/// where they are the same text, and never like a missing key.
pub proof fn law_get_replies_tell_values_apart(
    key: Seq<char>,
    client_idx: nat,
    text: Seq<char>,
    other: Seq<char>,
    elapsed_ms: nat,
)
    ensures
        get_reply(key, client_idx, Ok(Some(text)), elapsed_ms) == get_reply(
            key,
            client_idx,
            Ok(Some(other)),
            elapsed_ms,
        ) <==> text == other,
        get_reply(key, client_idx, Ok(Some(text)), elapsed_ms) != get_reply(
            key,
            client_idx,
            Ok(None),
            elapsed_ms,
        ),
{
    law_get_reply_holds_value_or_error(key, client_idx, Ok(Some(text)), elapsed_ms);
    law_get_reply_holds_value_or_error(key, client_idx, Ok(Some(other)), elapsed_ms);
    law_get_reply_holds_value_or_error(key, client_idx, Ok(None), elapsed_ms);
}

/// What was written comes back: a read that gives the value of a write is answered with
/// the same member `value` as the write was, under the same key.
pub proof fn law_a_read_shows_what_a_write_showed(
    key: Seq<char>,
    value: Seq<char>,
    writer_idx: nat,
    reader_idx: nat,
    write_ms: nat,
    read_ms: nat,
)
    ensures
        ({
            let written = set_reply(key, value, writer_idx, Ok(()), write_ms);
            let read = get_reply(key, reader_idx, Ok(Some(value)), read_ms);
            &&& read["value"@] == written["value"@]
            &&& read["key"@] == written["key"@]
            &&& read["value"@] == Json::Text(value)
        }),
{
    lemma_names_differ();
}

/// A reply to a write says whether it was done, and holds the value where it was and the
/// error where it was not, besides the key, the client and the time, and nothing else.
pub proof fn law_set_reply_holds_value_or_error(
    key: Seq<char>,
    value: Seq<char>,
    client_idx: nat,
    outcome: Result<(), Seq<char>>,
    elapsed_ms: nat,
)
    ensures
        ({
            let reply = set_reply(key, value, client_idx, outcome, elapsed_ms);
            &&& reply["ok"@] == Json::Bool(outcome is Ok)
            &&& reply["key"@] == Json::Text(key)
            &&& reply["client_idx"@] == Json::Number(client_idx)
            &&& reply["elapsed_ms"@] == Json::Number(elapsed_ms)
            &&& reply.contains_key("value"@) <==> outcome is Ok
            &&& reply.contains_key("error"@) <==> outcome is Err
            &&& outcome is Ok ==> reply["value"@] == Json::Text(value)
            &&& outcome matches Err(error) ==> reply["error"@] == Json::Text(error)
            &&& reply.dom() == (if outcome is Ok {
                set!["ok"@, "key"@, "value"@, "client_idx"@, "elapsed_ms"@]
            } else {
                set!["ok"@, "key"@, "error"@, "client_idx"@, "elapsed_ms"@]
            })
        }),
{
    lemma_names_differ();
    let reply = set_reply(key, value, client_idx, outcome, elapsed_ms);
    if outcome is Ok {
        assert(reply.dom() =~= set!["ok"@, "key"@, "value"@, "client_idx"@, "elapsed_ms"@]);
    } else {
        assert(reply.dom() =~= set!["ok"@, "key"@, "error"@, "client_idx"@, "elapsed_ms"@]);
    }
}

/// A status reply holds the two numbers that it was asked for, and nothing else.
pub proof fn law_status_reply_holds_the_numbers(pool_size: nat, counter: nat)
    ensures
        status_reply(pool_size, counter)["pool_size"@] == Json::Number(pool_size),
        status_reply(pool_size, counter)["counter"@] == Json::Number(counter),
        status_reply(pool_size, counter).dom() == set!["pool_size"@, "counter"@],
{
    lemma_names_differ();
    assert(status_reply(pool_size, counter).dom() =~= set!["pool_size"@, "counter"@]);
}

/// The views of outcomes lose nothing: a value stays that value, a missing one stays
/// missing, and an error keeps its message.
pub proof fn law_outcomes_are_seen_as_they_are(
    read: Result<Option<String>, String>,
    write: Result<(), String>,
)
    ensures
        read matches Ok(Some(text)) ==> read_outcome(read) == Ok::<_, Seq<char>>(Some(text@)),
        read matches Ok(None) ==> read_outcome(read) == Ok::<_, Seq<char>>(None::<Seq<char>>),
        read matches Err(error) ==> read_outcome(read) == Err::<Option<Seq<char>>, _>(error@),
        write is Ok ==> write_outcome(write) is Ok,
        write matches Err(error) ==> write_outcome(write) == Err::<(), _>(error@),
{
}

/// The names of the members of the replies are different names.
proof fn lemma_names_differ()
    ensures
        "ok"@ != "key"@,
        "ok"@ != "value"@,
        "ok"@ != "error"@,
        "ok"@ != "client_idx"@,
        "ok"@ != "elapsed_ms"@,
        "key"@ != "value"@,
        "key"@ != "error"@,
        "key"@ != "client_idx"@,
        "key"@ != "elapsed_ms"@,
        "value"@ != "error"@,
        "value"@ != "client_idx"@,
        "value"@ != "elapsed_ms"@,
        "error"@ != "client_idx"@,
        "error"@ != "elapsed_ms"@,
        "client_idx"@ != "elapsed_ms"@,
        "pool_size"@ != "counter"@,
{
    reveal_strlit("pool_size");
    reveal_strlit("counter");
    assert("pool_size"@.len() == 9 && "counter"@.len() == 7);
    reveal_strlit("ok");
    reveal_strlit("key");
    reveal_strlit("value");
    reveal_strlit("error");
    reveal_strlit("client_idx");
    reveal_strlit("elapsed_ms");
    assert("ok"@.len() == 2 && "key"@.len() == 3);
    assert("value"@.len() == 5 && "error"@.len() == 5);
    assert("client_idx"@.len() == 10 && "elapsed_ms"@.len() == 10);
    assert("value"@[0] == 'v');
    assert("error"@[0] == 'e');
    assert("client_idx"@[0] == 'c');
    assert("elapsed_ms"@[0] == 'e');
}

} // verus!
