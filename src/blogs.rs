use vstd::prelude::*;
use vstd::utf8::encode_utf8;
use openssl::pkey::{PKey, Private};
use crate::keys::{
    gen_keypair, load_private_key, private_pem_usable, rsa_sha256_signature, sign_with_pem, KeyError,
};
use crate::store::{BlogStore, BoxField, LookupError};
use crate::urls::{actor_url, box_url, key_id_of, make_actor_url, make_box_url, make_key_id};

verus! {

/// The kinds of federated actors; each kind has its own URL namespace.
#[derive(Debug, Clone, Copy, PartialEq, Eq, Structural)]
pub enum ActorType {
    Person,
    Blog,
}

/// The instance (federation domain) that owns actors.
#[derive(Debug, Clone)]
pub struct Instance {
    pub id: i32,
    pub public_domain: String,
}

impl Instance {
    /// A field-by-field copy.
    pub fn snapshot(&self) -> (r: Instance)
        ensures
            r == *self,
    {
        Instance { id: self.id, public_domain: self.public_domain.clone() }
    }
}

/// A blog, as stored: an actor of the federation.
#[derive(Debug, Clone)]
pub struct Blog {
    pub id: i32,
    pub actor_id: String,
    pub title: String,
    pub summary: String,
    pub outbox_url: String,
    pub inbox_url: String,
    pub instance_id: i32,
    /// Seconds since the Unix epoch.
    pub creation_date: i64,
    pub ap_url: String,
    pub private_key: Option<String>,
    pub public_key: String,
}

/// A blog before it is stored.
#[derive(Debug, Clone)]
pub struct NewBlog {
    pub actor_id: String,
    pub title: String,
    pub summary: String,
    pub outbox_url: String,
    pub inbox_url: String,
    pub instance_id: i32,
    pub ap_url: String,
    pub private_key: Option<String>,
    pub public_key: String,
}

fn copy_key(k: &Option<String>) -> (r: Option<String>)
    ensures
        r == *k,
{
    match k {
        Some(s) => Some(s.clone()),
        None => None,
    }
}

/// The three derived URLs of a blog: outbox, inbox, canonical id.
pub open spec fn urls_of(b: Blog) -> (Seq<char>, Seq<char>, Seq<char>) {
    (b.outbox_url@, b.inbox_url@, b.ap_url@)
}

/// A derived URL after backfill: the computed value when the snapshot that the
/// decision was taken on had none, else what is stored.
pub open spec fn refill(stored: Seq<char>, seen: Seq<char>, computed: Seq<char>) -> Seq<char> {
    if seen.len() == 0 {
        computed
    } else {
        stored
    }
}

/// The derived URLs after backfill, given those stored, those of the snapshot,
/// and the canonical id.
pub open spec fn backfill_urls(
    stored: (Seq<char>, Seq<char>, Seq<char>),
    seen: (Seq<char>, Seq<char>, Seq<char>),
    id: Seq<char>,
) -> (Seq<char>, Seq<char>, Seq<char>) {
    (
        refill(stored.0, seen.0, box_url(id, "outbox"@)),
        refill(stored.1, seen.1, box_url(id, "inbox"@)),
        refill(stored.2, seen.2, id),
    )
}

/// Backfill is idempotent: a second backfill decided on the same snapshot
/// leaves the derived URLs as the first one left them. This is also the
/// outcome of two concurrent backfills of one actor, whichever writes last.
pub proof fn backfill_twice_same_snapshot(
    stored: (Seq<char>, Seq<char>, Seq<char>),
    seen: (Seq<char>, Seq<char>, Seq<char>),
    id: Seq<char>,
)
    ensures
        backfill_urls(backfill_urls(stored, seen, id), seen, id) == backfill_urls(stored, seen, id),
{
}

/// A backfill decided on a fresh snapshot of what an earlier backfill stored
/// changes nothing.
pub proof fn backfill_after_backfill(stored: (Seq<char>, Seq<char>, Seq<char>), id: Seq<char>)
    ensures
        backfill_urls(
            backfill_urls(stored, stored, id),
            backfill_urls(stored, stored, id),
            id,
        ) == backfill_urls(stored, stored, id),
{
}

/// The key id survives backfill: a backfill decided on a fresh snapshot
/// leaves `key_id_for` the stored canonical id as it was; and once a backfill
/// has filled an empty canonical id, the key id is the stored `ap_url` followed
/// by `#main-key`, and no later backfill, on whatever snapshot, changes it.
pub proof fn key_id_stable_after_backfill(
    stored: (Seq<char>, Seq<char>, Seq<char>),
    seen: (Seq<char>, Seq<char>, Seq<char>),
    id: Seq<char>,
)
    ensures
        key_id_for(backfill_urls(stored, stored, id).2, id) == key_id_for(stored.2, id),
        seen.2.len() == 0 ==> key_id_of(backfill_urls(stored, seen, id).2) == key_id_of(id),
        seen.2.len() == 0 ==> forall|later: (Seq<char>, Seq<char>, Seq<char>)|
            #[trigger] backfill_urls(backfill_urls(stored, seen, id), later, id).2 == backfill_urls(
                stored,
                seen,
                id,
            ).2,
{
}

/// The writes a backfill makes for a snapshot with derived URLs `seen`: each
/// missing field with its computed value, in the order outbox, inbox,
/// canonical id.
pub open spec fn missing_urls(seen: (Seq<char>, Seq<char>, Seq<char>), id: Seq<char>) -> Seq<
    (BoxField, Seq<char>),
> {
    (if seen.0.len() == 0 {
        seq![(BoxField::Outbox, box_url(id, "outbox"@))]
    } else {
        seq![]
    }) + (if seen.1.len() == 0 {
        seq![(BoxField::Inbox, box_url(id, "inbox"@))]
    } else {
        seq![]
    }) + (if seen.2.len() == 0 {
        seq![(BoxField::ApUrl, id)]
    } else {
        seq![]
    })
}

pub open spec fn updates_view(v: Seq<(BoxField, String)>) -> Seq<(BoxField, Seq<char>)> {
    v.map_values(|p: (BoxField, String)| (p.0, p.1@))
}

/// The derived URLs `u` after writing `value` to `field`.
pub open spec fn set_url(u: (Seq<char>, Seq<char>, Seq<char>), field: BoxField, value: Seq<char>) -> (
    Seq<char>,
    Seq<char>,
    Seq<char>,
) {
    match field {
        BoxField::Outbox => (value, u.1, u.2),
        BoxField::Inbox => (u.0, value, u.2),
        BoxField::ApUrl => (u.0, u.1, value),
    }
}

/// The derived URLs `u` after the writes `ups`, in order.
pub open spec fn apply_urls(
    u: (Seq<char>, Seq<char>, Seq<char>),
    ups: Seq<(BoxField, Seq<char>)>,
) -> (Seq<char>, Seq<char>, Seq<char>)
    decreases ups.len(),
{
    if ups.len() == 0 {
        u
    } else {
        set_url(apply_urls(u, ups.drop_last()), ups.last().0, ups.last().1)
    }
}

proof fn lemma_missing_urls_backfill(
    stored: (Seq<char>, Seq<char>, Seq<char>),
    seen: (Seq<char>, Seq<char>, Seq<char>),
    id: Seq<char>,
)
    ensures
        apply_urls(stored, missing_urls(seen, id)) == backfill_urls(stored, seen, id),
{
    let ups = missing_urls(seen, id);
    let n = ups.len();
    assert(n <= 3);
    reveal_with_fuel(apply_urls, 4);
    if n > 0 {
        assert(ups.drop_last() =~= ups.take(n - 1));
        if n > 1 {
            assert(ups.drop_last().drop_last() =~= ups.take(n - 2));
            if n > 2 {
                assert(ups.drop_last().drop_last().drop_last() =~= ups.take(0));
            }
        }
    }
}

/// The derived URL of `u` that `field` names.
pub open spec fn get_url(u: (Seq<char>, Seq<char>, Seq<char>), field: BoxField) -> Seq<char> {
    match field {
        BoxField::Outbox => u.0,
        BoxField::Inbox => u.1,
        BoxField::ApUrl => u.2,
    }
}

proof fn lemma_apply_writes(
    u: (Seq<char>, Seq<char>, Seq<char>),
    w: Seq<(BoxField, Seq<char>)>,
    ups: Seq<(BoxField, Seq<char>)>,
)
    requires
        forall|k: int| 0 <= k < w.len() ==> ups.contains(#[trigger] w[k]),
        forall|a: int, b: int|
            0 <= a < ups.len() && 0 <= b < ups.len() && (#[trigger] ups[a]).0 == (#[trigger] ups[b]).0
                ==> a == b,
    ensures
        forall|f: BoxField, a: int|
            0 <= a < ups.len() && (#[trigger] ups[a]).0 == f && (exists|k: int|
                0 <= k < w.len() && (#[trigger] w[k]).0 == f) ==> #[trigger] get_url(
                apply_urls(u, w),
                f,
            ) == ups[a].1,
        forall|f: BoxField|
            (forall|k: int| 0 <= k < w.len() ==> (#[trigger] w[k]).0 != f) ==> #[trigger] get_url(
                apply_urls(u, w),
                f,
            ) == get_url(u, f),
    decreases w.len(),
{
    if w.len() > 0 {
        let prev = w.drop_last();
        assert forall|k: int| 0 <= k < prev.len() implies ups.contains(#[trigger] prev[k]) by {
            assert(prev[k] == w[k]);
        }
        lemma_apply_writes(u, prev, ups);
        let last = w.last();
        assert(ups.contains(w[w.len() - 1]));
        let a0 = choose|a: int| 0 <= a < ups.len() && ups[a] == last;
        assert(apply_urls(u, w) == set_url(apply_urls(u, prev), last.0, last.1));
        assert forall|f: BoxField, a: int|
            0 <= a < ups.len() && (#[trigger] ups[a]).0 == f && (exists|k: int|
                0 <= k < w.len() && (#[trigger] w[k]).0 == f) implies #[trigger] get_url(
            apply_urls(u, w),
            f,
        ) == ups[a].1 by {
            if f == last.0 {
                assert(ups[a0].0 == ups[a].0);
            } else {
                let k = choose|k: int| 0 <= k < w.len() && (#[trigger] w[k]).0 == f;
                assert(k != w.len() - 1);
                assert(prev[k].0 == f);
                assert(get_url(apply_urls(u, prev), f) == ups[a].1);
                assert(get_url(apply_urls(u, w), f) == get_url(apply_urls(u, prev), f));
            }
        }
        assert forall|f: BoxField|
            (forall|k: int| 0 <= k < w.len() ==> (#[trigger] w[k]).0 != f) implies #[trigger] get_url(
            apply_urls(u, w),
            f,
        ) == get_url(u, f) by {
            assert(w[w.len() - 1].0 != f);
            assert forall|k: int| 0 <= k < prev.len() implies (#[trigger] prev[k]).0 != f by {
                assert(prev[k] == w[k]);
            }
            assert(get_url(apply_urls(u, prev), f) == get_url(u, f));
            assert(get_url(apply_urls(u, w), f) == get_url(apply_urls(u, prev), f));
        }
    }
}

/// Concurrent backfills of one actor cannot diverge: whatever the
/// interleaving of the writes of backfills decided on the same snapshot, once
/// each of those writes has landed the derived URLs are what one backfill
/// stores.
pub proof fn backfill_interleaved(
    stored: (Seq<char>, Seq<char>, Seq<char>),
    seen: (Seq<char>, Seq<char>, Seq<char>),
    id: Seq<char>,
    writes: Seq<(BoxField, Seq<char>)>,
)
    requires
        forall|k: int| 0 <= k < writes.len() ==> missing_urls(seen, id).contains(#[trigger] writes[k]),
        forall|k: int|
            0 <= k < missing_urls(seen, id).len() ==> writes.contains(
                #[trigger] missing_urls(seen, id)[k],
            ),
    ensures
        apply_urls(stored, writes) == backfill_urls(stored, seen, id),
{
    let ups = missing_urls(seen, id);
    let o = seq![(BoxField::Outbox, box_url(id, "outbox"@))];
    let i = seq![(BoxField::Inbox, box_url(id, "inbox"@))];
    let p = seq![(BoxField::ApUrl, id)];
    let e = Seq::<(BoxField, Seq<char>)>::empty();
    let so = if seen.0.len() == 0 { o } else { e };
    let si = if seen.1.len() == 0 { i } else { e };
    let sp = if seen.2.len() == 0 { p } else { e };
    assert(ups == so + si + sp);
    assert forall|a: int| 0 <= a < ups.len() implies {
        &&& ((#[trigger] ups[a]).0 == BoxField::Outbox ==> seen.0.len() == 0 && ups[a].1 == box_url(id, "outbox"@) && a == 0)
        &&& (ups[a].0 == BoxField::Inbox ==> seen.1.len() == 0 && ups[a].1 == box_url(id, "inbox"@) && a == so.len())
        &&& (ups[a].0 == BoxField::ApUrl ==> seen.2.len() == 0 && ups[a].1 == id && a == so.len() + si.len())
    } by {
        if a < so.len() {
            assert(ups[a] == so[a]);
        } else if a < so.len() + si.len() {
            assert(ups[a] == si[a - so.len()]);
        } else {
            assert(ups[a] == sp[a - so.len() - si.len()]);
        }
    }
    lemma_apply_writes(stored, writes, ups);
    let fin = apply_urls(stored, writes);
    let want = backfill_urls(stored, seen, id);
    assert(get_url(fin, BoxField::Outbox) == get_url(want, BoxField::Outbox)) by {
        if seen.0.len() == 0 {
            assert(ups[0] == o[0]);
            assert(writes.contains(ups[0]));
        } else {
            assert forall|k: int| 0 <= k < writes.len() implies (#[trigger] writes[k]).0 != BoxField::Outbox by {
                assert(ups.contains(writes[k]));
            }
        }
    }
    assert(get_url(fin, BoxField::Inbox) == get_url(want, BoxField::Inbox)) by {
        if seen.1.len() == 0 {
            assert(ups[so.len() as int] == i[0]);
            assert(writes.contains(ups[so.len() as int]));
        } else {
            assert forall|k: int| 0 <= k < writes.len() implies (#[trigger] writes[k]).0 != BoxField::Inbox by {
                assert(ups.contains(writes[k]));
            }
        }
    }
    assert(get_url(fin, BoxField::ApUrl) == get_url(want, BoxField::ApUrl)) by {
        if seen.2.len() == 0 {
            assert(ups[(so.len() + si.len()) as int] == p[0]);
            assert(writes.contains(ups[(so.len() + si.len()) as int]));
        } else {
            assert forall|k: int| 0 <= k < writes.len() implies (#[trigger] writes[k]).0 != BoxField::ApUrl by {
                assert(ups.contains(writes[k]));
            }
        }
    }
}

/// Two records that agree on everything but the derived URLs.
pub open spec fn same_but_urls(a: Blog, b: Blog) -> bool {
    &&& a.id == b.id
    &&& a.actor_id == b.actor_id
    &&& a.title == b.title
    &&& a.summary == b.summary
    &&& a.instance_id == b.instance_id
    &&& a.creation_date == b.creation_date
    &&& a.private_key == b.private_key
    &&& a.public_key == b.public_key
}

impl Blog {
    /// A field-by-field copy.
    pub fn snapshot(&self) -> (r: Blog)
        ensures
            r == *self,
    {
        Blog {
            id: self.id,
            actor_id: self.actor_id.clone(),
            title: self.title.clone(),
            summary: self.summary.clone(),
            outbox_url: self.outbox_url.clone(),
            inbox_url: self.inbox_url.clone(),
            instance_id: self.instance_id,
            creation_date: self.creation_date,
            ap_url: self.ap_url.clone(),
            private_key: copy_key(&self.private_key),
            public_key: self.public_key.clone(),
        }
    }
}

/// The URL namespace tag of blogs.
pub open spec fn blog_box_prefix() -> Seq<char> {
    "~"@
}

/// The WebFinger subject of an actor: `acct:<actor_id>@<domain>`.
pub open spec fn subject_of(actor_id: Seq<char>, domain: Seq<char>) -> Seq<char> {
    "acct:"@ + actor_id + "@"@ + domain
}

/// A link of a WebFinger document as its key/value pairs.
pub open spec fn pairs_view(l: Vec<(String, String)>) -> Seq<(Seq<char>, Seq<char>)> {
    l@.map_values(|p: (String, String)| (p.0@, p.1@))
}

pub open spec fn links_view(v: Seq<Vec<(String, String)>>) -> Seq<Seq<(Seq<char>, Seq<char>)>> {
    v.map_values(|l: Vec<(String, String)>| pairs_view(l))
}

/// The three WebFinger links of an actor with canonical id `id` and Atom feed
/// `feed`, in their fixed order: profile page, feed, ActivityPub document.
pub open spec fn links_of(id: Seq<char>, feed: Seq<char>) -> Seq<Seq<(Seq<char>, Seq<char>)>> {
    seq![
        seq![("rel"@, "http://webfinger.net/rel/profile-page"@), ("href"@, id)],
        seq![
            ("rel"@, "http://schemas.google.com/g/2010#updates-from"@),
            ("type"@, "application/atom+xml"@),
            ("href"@, feed),
        ],
        seq![("rel"@, "self"@), ("type"@, "application/activity+json"@), ("href"@, id)],
    ]
}

/// A derived URL as an actor publishes it: the stored one once set, else the
/// one computed for it.
pub open spec fn stored_or(stored: Seq<char>, computed: Seq<char>) -> Seq<char> {
    if stored.len() > 0 {
        stored
    } else {
        computed
    }
}

/// The key id of an actor whose stored canonical id is `ap_url`, and whose
/// computed one is `computed`.
pub open spec fn key_id_for(ap_url: Seq<char>, computed: Seq<char>) -> Seq<char> {
    key_id_of(stored_or(ap_url, computed))
}

/// An actor's outbox: its URL and the activities it holds.
#[derive(Debug, Clone)]
pub struct Outbox {
    pub id: String,
    pub items: Vec<String>,
}

impl Outbox {
    pub fn new(id: String, items: Vec<String>) -> (r: Outbox)
        ensures
            r.id == id,
            r.items == items,
    {
        Outbox { id, items }
    }
}

impl Blog {
    /// The canonical id of this blog on an instance with the given domain.
    pub open spec fn id_url(&self, domain: Seq<char>) -> Seq<char> {
        actor_url(domain, blog_box_prefix(), self.actor_id@)
    }

    pub fn insert(store: &mut BlogStore, new: NewBlog, creation_date: i64) -> (r: Blog)
        requires
            old(store).wf(),
            old(store).blogs().len() < i32::MAX,
        ensures
            final(store).wf(),
            final(store).blogs() == old(store).blogs().push(r),
            final(store).instances() == old(store).instances(),
            r.id == old(store).blogs().len() + 1,
            r.actor_id == new.actor_id,
            r.title == new.title,
            r.summary == new.summary,
            r.outbox_url == new.outbox_url,
            r.inbox_url == new.inbox_url,
            r.instance_id == new.instance_id,
            r.creation_date == creation_date,
            r.ap_url == new.ap_url,
            r.private_key == new.private_key,
            r.public_key == new.public_key,
    {
        store.insert(new, creation_date)
    }

    pub fn get(store: &BlogStore, id: i32) -> (r: Option<Blog>)
        requires
            store.wf(),
        ensures
            r is Some <==> store.has_blog(id),
            r is Some ==> r->Some_0 == store.blog(id),
    {
        store.get_by_id(id)
    }

    pub fn find_by_actor_id(store: &BlogStore, username: String) -> (r: Option<Blog>)
        ensures
            r is Some <==> exists|i: int|
                0 <= i < store.blogs().len() && #[trigger] store.blogs()[i].actor_id@ == username@,
            r is Some ==> exists|i: int|
                0 <= i < store.blogs().len() && #[trigger] store.blogs()[i] == r->Some_0
                    && r->Some_0.actor_id@ == username@ && forall|j: int|
                    0 <= j < i ==> (#[trigger] store.blogs()[j]).actor_id@ != username@,
    {
        store.get_by_actor_id(&username)
    }

    /// The stored blog whose canonical id is `url`; the first, should several match.
    pub fn from_url(store: &BlogStore, url: String) -> (r: Option<Blog>)
        ensures
            r is Some <==> exists|i: int|
                0 <= i < store.blogs().len() && #[trigger] store.blogs()[i].ap_url@ == url@,
            r is Some ==> exists|i: int|
                0 <= i < store.blogs().len() && #[trigger] store.blogs()[i] == r->Some_0
                    && r->Some_0.ap_url@ == url@ && forall|j: int|
                    0 <= j < i ==> (#[trigger] store.blogs()[j]).ap_url@ != url@,
            forall|i: int|
                0 <= i < store.blogs().len() && #[trigger] store.blogs()[i].ap_url@ == url@ && (
                forall|j: int|
                    0 <= j < store.blogs().len() && j != i ==> (#[trigger] store.blogs()[j]).ap_url@
                        != url@) ==> r == Some(store.blogs()[i]),
    {
        store.get_by_ap_url(&url)
    }

    pub fn get_box_prefix() -> (r: &'static str)
        ensures
            r@ == blog_box_prefix(),
    {
        "~"
    }

    pub fn get_actor_id(&self) -> (r: String)
        ensures
            r == self.actor_id,
    {
        self.actor_id.clone()
    }

    pub fn get_display_name(&self) -> (r: String)
        ensures
            r == self.title,
    {
        self.title.clone()
    }

    pub fn get_summary(&self) -> (r: String)
        ensures
            r == self.summary,
    {
        self.summary.clone()
    }

    pub fn get_actor_type() -> (r: ActorType)
        ensures
            r == ActorType::Blog,
    {
        ActorType::Blog
    }

    pub fn get_inbox_url(&self) -> (r: String)
        ensures
            r == self.inbox_url,
    {
        self.inbox_url.clone()
    }

    /// The instance this blog belongs to; a missing one is a data-integrity fault.
    pub fn get_instance(&self, store: &BlogStore) -> (r: Result<Instance, LookupError>)
        requires
            store.wf(),
        ensures
            store.domain_of(self.instance_id) is None ==> r == Err::<Instance, LookupError>(
                LookupError::InstanceNotFound,
            ),
            store.domain_of(self.instance_id) is Some ==> r == Ok::<Instance, LookupError>(
                store.instances()[self.instance_id - 1],
            ),
            r is Ok ==> r->Ok_0.id == self.instance_id && r->Ok_0.public_domain@
                == store.domain_of(self.instance_id)->Some_0,
    {
        match store.get_instance(self.instance_id) {
            Some(inst) => Ok(inst),
            None => Err(LookupError::InstanceNotFound),
        }
    }

    fn compute_id(&self, domain: &String) -> (r: String)
        ensures
            r@ == self.id_url(domain@),
    {
        make_actor_url(domain.as_str(), Blog::get_box_prefix(), self.actor_id.as_str())
    }

    /// The canonical id this blog publishes: its stored `ap_url` once set,
    /// else the one computed from the instance domain.
    pub open spec fn canonical_url(&self, domain: Seq<char>) -> Seq<char> {
        stored_or(self.ap_url@, self.id_url(domain))
    }

    fn canonical_id(&self, domain: &String) -> (r: String)
        ensures
            r@ == self.canonical_url(domain@),
    {
        if self.ap_url.as_str().is_empty() {
            self.compute_id(domain)
        } else {
            self.ap_url.clone()
        }
    }

    pub fn webfinger_subject(&self, domain: &String) -> (r: String)
        ensures
            r@ == subject_of(self.actor_id@, domain@),
    {
        let mut s = String::from_str("acct:");
        s.append(self.actor_id.as_str());
        s.append("@");
        s.append(domain.as_str());
        s
    }

    pub fn webfinger_aliases(&self, domain: &String) -> (r: Vec<String>)
        ensures
            r@.len() == 1,
            r@[0]@ == self.canonical_url(domain@),
    {
        vec![self.canonical_id(domain)]
    }

    pub fn webfinger_links(&self, domain: &String) -> (r: Vec<Vec<(String, String)>>)
        ensures
            links_view(r@) == links_of(
                self.canonical_url(domain@),
                box_url(self.id_url(domain@), "feed.atom"@),
            ),
    {
        let id = self.canonical_id(domain);
        let computed = self.compute_id(domain);
        let feed = make_box_url(computed.as_str(), "feed.atom");
        let ghost want = links_of(id@, feed@);
        let profile = vec![
            (String::from_str("rel"), String::from_str("http://webfinger.net/rel/profile-page")),
            (String::from_str("href"), id.clone()),
        ];
        let updates = vec![
            (
                String::from_str("rel"),
                String::from_str("http://schemas.google.com/g/2010#updates-from"),
            ),
            (String::from_str("type"), String::from_str("application/atom+xml")),
            (String::from_str("href"), feed),
        ];
        let own = vec![
            (String::from_str("rel"), String::from_str("self")),
            (String::from_str("type"), String::from_str("application/activity+json")),
            (String::from_str("href"), id),
        ];
        let links = vec![profile, updates, own];
        assert(pairs_view(links@[0]) =~= want[0]);
        assert(pairs_view(links@[1]) =~= want[1]);
        assert(pairs_view(links@[2]) =~= want[2]);
        assert(links_view(links@) =~= want);
        links
    }

    /// This blog's outbox: its stored URL once set, else the computed one.
    pub fn outbox(&self, domain: &String) -> (r: Outbox)
        ensures
            r.id@ == stored_or(self.outbox_url@, box_url(self.id_url(domain@), "outbox"@)),
            r.items@.len() == 0,
    {
        let url = if self.outbox_url.as_str().is_empty() {
            let id = self.compute_id(domain);
            make_box_url(id.as_str(), "outbox")
        } else {
            self.outbox_url.clone()
        };
        Outbox::new(url, self.get_activities())
    }

    /// The activities of this blog's outbox; blogs publish none of their own.
    fn get_activities(&self) -> (r: Vec<String>)
        ensures
            r@.len() == 0,
    {
        Vec::new()
    }

    /// The derived URLs that this snapshot lacks, each with the value that
    /// backfill stores, for an instance with the given domain.
    pub fn missing_boxes(&self, domain: &String) -> (r: Vec<(BoxField, String)>)
        ensures
            updates_view(r@) == missing_urls(urls_of(*self), self.id_url(domain@)),
    {
        let id = self.compute_id(domain);
        let mut r: Vec<(BoxField, String)> = Vec::new();
        let ghost seen = urls_of(*self);
        let ghost want = missing_urls(seen, id@);
        if self.outbox_url.as_str().is_empty() {
            r.push((BoxField::Outbox, make_box_url(id.as_str(), "outbox")));
        }
        let ghost n0 = r@.len();
        assert(updates_view(r@) =~= want.take(n0 as int));
        if self.inbox_url.as_str().is_empty() {
            r.push((BoxField::Inbox, make_box_url(id.as_str(), "inbox")));
        }
        let ghost n1 = r@.len();
        assert(updates_view(r@) =~= want.take(n1 as int));
        if self.ap_url.as_str().is_empty() {
            r.push((BoxField::ApUrl, id));
        }
        assert(updates_view(r@) =~= want);
        r
    }

    /// Fills each derived URL (outbox, inbox, canonical id) that this snapshot
    /// lacks, in the stored record; those it has are left as stored. Nothing is
    /// written unless both the instance and the record are found.
    pub fn update_boxes(&self, store: &mut BlogStore) -> (r: Result<(), LookupError>)
        requires
            old(store).wf(),
        ensures
            final(store).wf(),
            final(store).instances() == old(store).instances(),
            old(store).domain_of(self.instance_id) is None ==> r == Err::<(), LookupError>(
                LookupError::InstanceNotFound,
            ) && final(store).blogs() == old(store).blogs(),
            old(store).domain_of(self.instance_id) is Some && !old(store).has_blog(self.id) ==> r
                == Err::<(), LookupError>(LookupError::ActorNotFound) && final(store).blogs()
                == old(store).blogs(),
            old(store).domain_of(self.instance_id) is Some && old(store).has_blog(self.id) ==> {
                &&& r is Ok
                &&& final(store).blogs().len() == old(store).blogs().len()
                &&& forall|j: int|
                    0 <= j < old(store).blogs().len() && j != self.id - 1 ==> final(store).blogs()[j]
                        == old(store).blogs()[j]
                &&& same_but_urls(final(store).blog(self.id), old(store).blog(self.id))
                &&& urls_of(final(store).blog(self.id)) == backfill_urls(
                    urls_of(old(store).blog(self.id)),
                    urls_of(*self),
                    self.id_url(old(store).domain_of(self.instance_id)->Some_0),
                )
            },
    {
        let domain = match self.get_instance(store) {
            Ok(inst) => inst.public_domain,
            Err(e) => return Err(e),
        };
        if store.get_by_id(self.id).is_none() {
            return Err(LookupError::ActorNotFound);
        }
        let ups = self.missing_boxes(&domain);
        let ghost start = store.blogs();
        let ghost k = self.id - 1;
        let ghost u0 = urls_of(start[k]);
        let mut i: usize = 0;
        while i < ups.len()
            invariant
                0 <= i <= ups@.len(),
                0 <= k < start.len(),
                k == self.id - 1,
                store.wf(),
                store.instances() == old(store).instances(),
                start == old(store).blogs(),
                store.blogs().len() == start.len(),
                forall|j: int| 0 <= j < start.len() && j != k ==> store.blogs()[j] == start[j],
                same_but_urls(store.blogs()[k], start[k]),
                urls_of(store.blogs()[k]) == apply_urls(u0, updates_view(ups@).take(i as int)),
            decreases ups@.len() - i,
        {
            let field = ups[i].0;
            let value = ups[i].1.clone();
            let _ = store.update_field(self.id, field, value);
            assert(updates_view(ups@).take(i + 1).drop_last() =~= updates_view(ups@).take(i as int));
            i += 1;
        }
        proof {
            assert(updates_view(ups@).take(ups@.len() as int) =~= updates_view(ups@));
            lemma_missing_urls_backfill(u0, urls_of(*self), self.id_url(domain@));
        }
        Ok(())
    }

    /// This blog's private key, read from its PEM text.
    pub fn get_keypair(&self) -> (r: Result<PKey<Private>, KeyError>)
        ensures
            self.private_key is None ==> r == Err::<PKey<Private>, KeyError>(KeyError::NoPrivateKey),
            self.private_key is Some && !private_pem_usable(self.private_key->Some_0@) ==> r == Err::<
                PKey<Private>,
                KeyError,
            >(KeyError::MalformedKey),
            r is Ok ==> self.private_key is Some && private_pem_usable(self.private_key->Some_0@),
            self.private_key is Some && r is Err ==> r->Err_0 == KeyError::MalformedKey,
    {
        match &self.private_key {
            Some(pem) => load_private_key(pem),
            None => Err(KeyError::NoPrivateKey),
        }
    }

    /// Signs `to_sign` with this blog's private key (RSA PKCS#1 v1.5 over
    /// SHA-256) and returns the raw signature bytes.
    pub fn sign(&self, to_sign: String) -> (r: Result<Vec<u8>, KeyError>)
        ensures
            self.private_key is None ==> r == Err::<Vec<u8>, KeyError>(KeyError::NoPrivateKey),
            self.private_key is Some && !private_pem_usable(self.private_key->Some_0@) ==> r == Err::<
                Vec<u8>,
                KeyError,
            >(KeyError::MalformedKey),
            r is Ok ==> self.private_key is Some && private_pem_usable(self.private_key->Some_0@)
                && r->Ok_0@ == rsa_sha256_signature(
                encode_utf8(self.private_key->Some_0@),
                encode_utf8(to_sign@),
            ),
            self.private_key is Some && private_pem_usable(self.private_key->Some_0@) && r is Err
                ==> r->Err_0 == KeyError::SigningBackendError || r->Err_0 == KeyError::MalformedKey,
    {
        let pem = match &self.private_key {
            Some(pem) => pem,
            None => return Err(KeyError::NoPrivateKey),
        };
        if let Err(e) = self.get_keypair() {
            return Err(e);
        }
        let bytes = to_sign.as_str().as_bytes_vec();
        sign_with_pem(pem, bytes.as_slice())
    }

    /// The identifier under which peers fetch this blog's public key:
    /// `<ap_url>#main-key`, with the computed canonical id while `ap_url` is unset.
    pub fn get_key_id(&self, domain: &String) -> (r: String)
        ensures
            r@ == key_id_for(self.ap_url@, self.id_url(domain@)),
    {
        let id = self.canonical_id(domain);
        make_key_id(id.as_str())
    }
}


impl NewBlog {
    /// A blog hosted on this instance, with a fresh key pair and no derived
    /// URLs yet.
    pub fn new_local(actor_id: String, title: String, summary: String, instance_id: i32) -> (r:
        Result<NewBlog, KeyError>)
        ensures
            r is Err ==> r->Err_0 == KeyError::KeyGenerationError,
            r is Ok ==> {
                let b = r->Ok_0;
                &&& b.actor_id == actor_id
                &&& b.title == title
                &&& b.summary == summary
                &&& b.instance_id == instance_id
                &&& b.outbox_url@.len() == 0
                &&& b.inbox_url@.len() == 0
                &&& b.ap_url@.len() == 0
                &&& b.private_key is Some
            },
    {
        let (public_key, private_key) = match gen_keypair() {
            Ok(pair) => pair,
            Err(e) => return Err(e),
        };
        Ok(NewBlog {
            actor_id,
            title,
            summary,
            outbox_url: String::new(),
            inbox_url: String::new(),
            instance_id,
            ap_url: String::new(),
            private_key: Some(private_key),
            public_key,
        })
    }
}

} // verus!
