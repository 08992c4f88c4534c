use vstd::prelude::*;
use crate::json::{Json, JsonNumber, lemma_lookup_absent, lemma_lookup_first};

verus! {

/// A command of the DevTools protocol: its method name and its parameters.
#[derive(Debug)]
pub struct CdpRequest {
    pub method: String,
    pub params: Json,
}

/// The ids of successive commands: the first is 1, each next one is one
/// more, wrapping at `u32::MAX` as an atomic fetch-and-add does.
pub struct RequestIds {
    next: u32,
}

/// The id after `id`.
pub open spec fn successor(id: u32) -> u32 {
    if id == u32::MAX {
        0
    } else {
        (id + 1) as u32
    }
}

/// The id handed out `k` allocations after one that handed out `start`.
pub open spec fn id_after(start: u32, k: nat) -> u32 {
    ((start + k) % 0x1_0000_0000) as u32
}

impl View for RequestIds {
    type V = u32;

    closed spec fn view(&self) -> u32 {
        self.next
    }
}

impl RequestIds {
    /// A counter whose first id is 1.
    pub fn new() -> (r: RequestIds)
        ensures
            r@ == 1,
    {
        RequestIds { next: 1 }
    }

    /// Hands out the next id.
    pub fn allocate(&mut self) -> (id: u32)
        ensures
            id == old(self)@,
            final(self)@ == successor(old(self)@),
    {
        let id = self.next;
        self.next = if id == u32::MAX {
            0
        } else {
            id + 1
        };
        id
    }
}

/// Successive allocations step through the ids one by one.
pub proof fn lemma_successor_steps(start: u32, k: nat)
    ensures
        successor(id_after(start, k)) == id_after(start, k + 1),
{
    assert(successor(id_after(start, k)) == id_after(start, k + 1)) by (nonlinear_arith);
}

/// Fewer than 2^32 successive allocations never hand out the same id twice.
pub proof fn lemma_ids_distinct(start: u32, i: nat, j: nat)
    requires
        i < j < 0x1_0000_0000,
    ensures
        id_after(start, i) != id_after(start, j),
{
    assert(((start + i) % 0x1_0000_0000) != ((start + j) % 0x1_0000_0000)) by (nonlinear_arith)
        requires
            i < j < 0x1_0000_0000,
            0 <= start < 0x1_0000_0000,
    ;
}

/// Before the ids reach `u32::MAX`, a later allocation hands out a larger
/// id than an earlier one: from a fresh counter (first id 1), of fewer than
/// 2^32 allocations each one's id is larger than those before it.
pub proof fn lemma_ids_increase(start: u32, i: nat, j: nat)
    requires
        i < j,
        start + j <= u32::MAX,
    ensures
        id_after(start, i) == start + i,
        id_after(start, j) == start + j,
        id_after(start, i) < id_after(start, j),
{
    assert((start + i) % 0x1_0000_0000 == start + i) by (nonlinear_arith)
        requires
            0 <= start + i < 0x1_0000_0000,
    ;
    assert((start + j) % 0x1_0000_0000 == start + j) by (nonlinear_arith)
        requires
            0 <= start + j < 0x1_0000_0000,
    ;
}

/// The message that carries a command to the browser: an object with the
/// command's id, method and parameters, and the target session when the
/// command is addressed to one.
pub open spec fn is_envelope(
    r: Json,
    id: u32,
    method: Seq<char>,
    params: Json,
    session_id: Option<Seq<char>>,
) -> bool {
    &&& r is Object
    &&& r.keys() == (match session_id {
        Some(_) => seq!["id"@, "method"@, "params"@, "sessionId"@],
        None => seq!["id"@, "method"@, "params"@],
    })
    &&& r.at("id"@) == Json::Number(JsonNumber::PosInt(id as u64))
    &&& r.at("method"@).str_value() == Some(method)
    &&& r.at("params"@) == params
    &&& r.at("sessionId"@).str_value() == session_id
}

/// Wraps `request` as command number `id`, addressed to `session_id` when
/// one is given.
pub fn envelope(id: u32, request: CdpRequest, session_id: Option<&str>) -> (r: Json)
    ensures
        is_envelope(
            r,
            id,
            request.method@,
            request.params,
            match session_id {
                Some(s) => Some(s@),
                None => None,
            },
        ),
{
    let ghost method = request.method@;
    let ghost params = request.params;
    let mut members: Vec<(String, Json)> = Vec::new();
    members.push(("id".to_owned(), Json::Number(JsonNumber::PosInt(id as u64))));
    members.push(("method".to_owned(), Json::Text(request.method)));
    members.push(("params".to_owned(), request.params));
    match session_id {
        Some(s) => {
            members.push(("sessionId".to_owned(), Json::text(s)));
        },
        None => {},
    }
    let r = Json::Object(members);
    proof {
        reveal_strlit("id");
        reveal_strlit("method");
        reveal_strlit("params");
        reveal_strlit("sessionId");
        let m = r.members();
        assert("id"@.len() != "method"@.len());
        assert("id"@.len() != "params"@.len());
        assert("id"@.len() != "sessionId"@.len());
        assert("method"@[0] != "params"@[0]);
        assert("method"@.len() != "sessionId"@.len());
        assert("params"@.len() != "sessionId"@.len());
        lemma_lookup_first(m, "id"@, 0);
        lemma_lookup_first(m, "method"@, 1);
        lemma_lookup_first(m, "params"@, 2);
        if session_id is Some {
            lemma_lookup_first(m, "sessionId"@, 3);
        } else {
            lemma_lookup_absent(m, "sessionId"@);
        }
        assert(r.keys() =~= (match session_id {
            Some(_) => seq!["id"@, "method"@, "params"@, "sessionId"@],
            None => seq!["id"@, "method"@, "params"@],
        }));
    }
    r
}

} // verus!
