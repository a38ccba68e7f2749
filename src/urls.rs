use vstd::prelude::*;

verus! {

/// The canonical id of an actor: `https://<domain>/<prefix>/<actor_id>`.
pub open spec fn actor_url(domain: Seq<char>, prefix: Seq<char>, actor_id: Seq<char>) -> Seq<char> {
    "https://"@ + domain + "/"@ + prefix + "/"@ + actor_id
}

/// A box (inbox, outbox, feed) below an actor's canonical id.
pub open spec fn box_url(id: Seq<char>, name: Seq<char>) -> Seq<char> {
    id + "/"@ + name
}

/// The identifier under which peers fetch an actor's public key.
pub open spec fn key_id_of(id: Seq<char>) -> Seq<char> {
    id + "#main-key"@
}

pub fn make_actor_url(domain: &str, prefix: &str, actor_id: &str) -> (r: String)
    ensures
        r@ == actor_url(domain@, prefix@, actor_id@),
{
    let mut s = String::from_str("https://");
    s.append(domain);
    s.append("/");
    s.append(prefix);
    s.append("/");
    s.append(actor_id);
    s
}

pub fn make_box_url(id: &str, name: &str) -> (r: String)
    ensures
        r@ == box_url(id@, name@),
{
    let mut s = String::from_str(id);
    s.append("/");
    s.append(name);
    s
}

pub fn make_key_id(id: &str) -> (r: String)
    ensures
        r@ == key_id_of(id@),
{
    let mut s = String::from_str(id);
    s.append("#main-key");
    s
}

} // verus!
