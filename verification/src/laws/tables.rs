//! Laws of tables and their keys.

use vstd::prelude::*;
use vstd::string::*;

use crate::admission::{AdmissionRequest, Client, Request};
use crate::config::Config;
use crate::manager::QueuedPlayer;
use crate::table::{Key, Table};

verus! {

/// Two clients have the same key exactly if they agree in address, port and user agent.
pub proof fn law_clients_are_their_fields(one: &Client, two: &Client)
    ensures
        one.key() == two.key() <==> one.address@ == two.address@ && one.port == two.port && (
        one.user_agent is Some <==> two.user_agent is Some) && (one.user_agent is Some
            ==> one.user_agent->Some_0@ == two.user_agent->Some_0@),
{
}

/// A copy is the same again.
pub proof fn law_copies(
    client: &Client,
    same_client: Client,
    request: &Request,
    same_request: Request,
    admission: &AdmissionRequest,
    same_admission: AdmissionRequest,
    config: &Config,
    same_config: Config,
    player: &QueuedPlayer,
    same_player: QueuedPlayer,
)
    requires
        call_ensures(Client::clone, (client,), same_client),
        call_ensures(Request::clone, (request,), same_request),
        call_ensures(AdmissionRequest::clone, (admission,), same_admission),
        call_ensures(Config::clone, (config,), same_config),
        call_ensures(QueuedPlayer::clone, (player,), same_player),
    ensures
        same_client == *client,
        same_request == *request,
        same_admission == *admission,
        same_config == *config,
        same_player == *player,
{
}

/// Two texts have the same key exactly if they have the same characters.
pub proof fn law_texts_are_their_keys(one: &String, two: &String)
    ensures
        one.key() == two.key() <==> one@ =~= two@,
{
}

/// What is put into a table is found under its key, in place of what stood there; what is taken out
/// is found no more; everything else stays. A new table is empty, and its list holds every entry
/// once.
pub proof fn law_table<K: Key, D>(
    fresh: Table<K, D>,
    t: &mut Table<K, D>,
    key: K,
    value: D,
    u: &mut Table<K, D>,
    gone: &K,
    taken: Option<D>,
    other: &K,
)
    requires
        call_ensures(Table::<K, D>::new, (), fresh),
        call_ensures(Table::<K, D>::insert, (t, key, value), ()),
        call_ensures(Table::<K, D>::remove, (u, gone), taken),
    ensures
        fresh.wf(),
        !fresh@.contains_key(other.key()),
        final(t).wf(),
        final(t)@.contains_key(key.key()),
        final(t)@[key.key()] == value,
        other.key() != key.key() ==> final(t)@.contains_key(other.key()) == old(t)@.contains_key(
            other.key(),
        ),
        other.key() != key.key() && old(t)@.contains_key(other.key()) ==> final(t)@[other.key()]
            == old(t)@[other.key()],
        final(u).wf(),
        !final(u)@.contains_key(gone.key()),
        taken is Some <==> old(u)@.contains_key(gone.key()),
        taken matches Some(value) ==> value == old(u)@[gone.key()],
        other.key() != gone.key() ==> final(u)@.contains_key(other.key()) == old(u)@.contains_key(
            other.key(),
        ),
        other.key() != gone.key() && old(u)@.contains_key(other.key()) ==> final(u)@[other.key()]
            == old(u)@[other.key()],
{
}

/// A table is asked by key: a key is found exactly if it is there, with the value that is there, and
/// the list of the entries holds it once.
pub proof fn law_table_is_asked<K: Key, D>(
    t: &Table<K, D>,
    key: &K,
    found: bool,
    value: Option<&D>,
    list: &Vec<(K, D)>,
)
    requires
        call_ensures(Table::<K, D>::contains, (t, key), found),
        call_ensures(Table::<K, D>::get, (t, key), value),
        call_ensures(Table::<K, D>::list, (t,), list),
    ensures
        found <==> t@.contains_key(key.key()),
        value is Some <==> found,
        value matches Some(value) ==> *value == t@[key.key()],
        found <==> exists|i: int|
            0 <= i < list@.len() && (#[trigger] list@[i]).0.key() == key.key(),
        forall|i: int|
            0 <= i < list@.len() && (#[trigger] list@[i]).0.key() == key.key() ==> list@[i].1
                == t@[key.key()],
        forall|i: int, j: int|
            0 <= i < j < list@.len() ==> (#[trigger] list@[i]).0.key() != (
            #[trigger] list@[j]).0.key(),
{
}

} // verus!
