use vstd::prelude::*;

use crate::registry::{names_of, no_duplicates, NameRegistry};

verus! {

/// HTTP 200: the request succeeded.
pub const STATUS_OK: u16 = 200;

/// HTTP 201: the name was added.
pub const STATUS_CREATED: u16 = 201;

/// HTTP 400: the name to greet is not registered.
pub const STATUS_BAD_REQUEST: u16 = 400;

/// HTTP 409: the name to add is already registered.
pub const STATUS_CONFLICT: u16 = 409;

/// A response: its status code and its body.
pub struct Reply<B> {
    pub status: u16,
    pub body: B,
}

/// The body of a request to add a name.
pub struct NameRequest {
    pub name: String,
}

/// The body of the response to a request to add a name.
pub struct NameResponse {
    pub message: String,
}

/// The text with which a registered name is greeted.
pub open spec fn greeting(name: Seq<char>) -> Seq<char> {
    "Hello "@ + name + "!"@
}

/// The text answered for a name that is not registered.
pub open spec fn not_listed_text() -> Seq<char> {
    "Name not in the list"@
}

/// The message answered when a name was added.
pub open spec fn created_text() -> Seq<char> {
    "Successfully created."@
}

/// The message answered when the name to add was already there.
pub open spec fn duplicate_text() -> Seq<char> {
    "Already contains name"@
}

/// The status of the greeting of `name` while `names` are registered.
pub open spec fn greet_status(names: Seq<Seq<char>>, name: Seq<char>) -> u16 {
    if names.contains(name) {
        STATUS_OK
    } else {
        STATUS_BAD_REQUEST
    }
}

/// The body of the greeting of `name` while `names` are registered.
pub open spec fn greet_body(names: Seq<Seq<char>>, name: Seq<char>) -> Seq<char> {
    if names.contains(name) {
        greeting(name)
    } else {
        not_listed_text()
    }
}

/// The status of a request to add `name` while `names` are registered.
pub open spec fn add_status(names: Seq<Seq<char>>, name: Seq<char>) -> u16 {
    if names.contains(name) {
        STATUS_CONFLICT
    } else {
        STATUS_CREATED
    }
}

/// The message answered to a request to add `name` while `names` are registered.
pub open spec fn add_message(names: Seq<Seq<char>>, name: Seq<char>) -> Seq<char> {
    if names.contains(name) {
        duplicate_text()
    } else {
        created_text()
    }
}

/// The registered names after a request to add `name` to `names`.
pub open spec fn after_add(names: Seq<Seq<char>>, name: Seq<char>) -> Seq<Seq<char>> {
    if names.contains(name) {
        names
    } else {
        names.push(name)
    }
}

/// `GET /hello/{name}`: greets `name` if it is registered, else answers
/// that it is not in the list.
pub fn greet(registry: &NameRegistry, name: &String) -> (r: Reply<String>)
    ensures
        r.status == greet_status(registry@, name@),
        r.body@ == greet_body(registry@, name@),
{
    if !registry.contains(name) {
        return Reply { status: STATUS_BAD_REQUEST, body: String::from_str("Name not in the list") };
    }
    let mut body = String::from_str("Hello ");
    body.append(name.as_str());
    body.append("!");
    Reply { status: STATUS_OK, body }
}

/// `GET /names`: all registered names, in insertion order.
pub fn get_names(registry: &NameRegistry) -> (r: Reply<Vec<String>>)
    ensures
        r.status == STATUS_OK,
        names_of(r.body@) == registry@,
{
    Reply { status: STATUS_OK, body: registry.list() }
}

/// `POST /names`: adds the requested name unless it is already registered.
pub fn name(registry: &mut NameRegistry, request: NameRequest) -> (r: Reply<NameResponse>)
    ensures
        no_duplicates(final(registry)@),
        final(registry)@ == after_add(old(registry)@, request.name@),
        r.status == add_status(old(registry)@, request.name@),
        r.body.message@ == add_message(old(registry)@, request.name@),
{
    match registry.add(request.name) {
        Ok(()) => Reply {
            status: STATUS_CREATED,
            body: NameResponse { message: String::from_str("Successfully created.") },
        },
        Err(_) => Reply {
            status: STATUS_CONFLICT,
            body: NameResponse { message: String::from_str("Already contains name") },
        },
    }
}

/// A greeting succeeds with 200 exactly for a registered name, and every
/// other name is answered with 400.
pub proof fn lemma_greet_status_follows_membership(names: Seq<Seq<char>>, name: Seq<char>)
    ensures
        names.contains(name) ==> greet_status(names, name) == STATUS_OK,
        !names.contains(name) ==> greet_status(names, name) == STATUS_BAD_REQUEST,
{
}

/// Adding a name that is not yet registered answers 201, and the names
/// listed afterwards are the earlier ones followed by it, so they include it.
pub proof fn lemma_new_name_is_listed(names: Seq<Seq<char>>, name: Seq<char>)
    requires
        no_duplicates(names),
        !names.contains(name),
    ensures
        add_status(names, name) == STATUS_CREATED,
        after_add(names, name) == names.push(name),
        after_add(names, name).contains(name),
        no_duplicates(after_add(names, name)),
{
    let after = names.push(name);
    assert(after[names.len() as int] == name);
    assert forall|i: int, j: int| 0 <= i < j < after.len() implies after[i] != after[j] by {
        if j == names.len() {
            assert(names[i] == after[i]);
        }
    }
}

/// Adding a name that is already registered answers 409 and leaves the
/// registered names as they were: nothing is appended.
pub proof fn lemma_duplicate_changes_nothing(names: Seq<Seq<char>>, name: Seq<char>)
    requires
        names.contains(name),
    ensures
        add_status(names, name) == STATUS_CONFLICT,
        add_message(names, name) == duplicate_text(),
        after_add(names, name) == names,
{
}

/// Repeating a failing request to add a name fails again in the same way,
/// and neither attempt changes the registered names.
pub proof fn lemma_repeated_duplicate(names: Seq<Seq<char>>, name: Seq<char>)
    requires
        names.contains(name),
    ensures
        add_status(names, name) == STATUS_CONFLICT,
        add_status(after_add(names, name), name) == STATUS_CONFLICT,
        add_message(after_add(names, name), name) == add_message(names, name),
        after_add(after_add(names, name), name) == names,
{
}

} // verus!
