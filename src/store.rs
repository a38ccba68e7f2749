use vstd::prelude::*;
use crate::blogs::{Blog, Instance, NewBlog};

verus! {

/// Failures of lookups in the store.
#[derive(Debug, Clone, Copy, PartialEq, Eq, Structural)]
pub enum LookupError {
    /// The instance that a record refers to is missing.
    InstanceNotFound,
    /// No stored actor has the given id.
    ActorNotFound,
}

/// The derived URL fields of an actor record.
#[derive(Debug, Clone, Copy, PartialEq, Eq, Structural)]
pub enum BoxField {
    Outbox,
    Inbox,
    ApUrl,
}

/// `b` with `field` set to `value`.
pub open spec fn with_field(b: Blog, field: BoxField, value: String) -> Blog {
    match field {
        BoxField::Outbox => Blog { outbox_url: value, ..b },
        BoxField::Inbox => Blog { inbox_url: value, ..b },
        BoxField::ApUrl => Blog { ap_url: value, ..b },
    }
}

/// An in-memory store of instances and blogs. The record with id `n` stands
/// at position `n - 1`.
pub struct BlogStore {
    blogs: Vec<Blog>,
    instances: Vec<Instance>,
}

impl BlogStore {
    pub closed spec fn blogs(&self) -> Seq<Blog> {
        self.blogs@
    }

    pub closed spec fn instances(&self) -> Seq<Instance> {
        self.instances@
    }

    pub open spec fn wf(&self) -> bool {
        &&& forall|i: int| 0 <= i < self.blogs().len() ==> #[trigger] self.blogs()[i].id == i + 1
        &&& forall|i: int|
            0 <= i < self.instances().len() ==> #[trigger] self.instances()[i].id == i + 1
    }

    pub open spec fn has_blog(&self, id: i32) -> bool {
        1 <= id <= self.blogs().len()
    }

    pub open spec fn blog(&self, id: i32) -> Blog {
        self.blogs()[id - 1]
    }

    /// The public domain of the instance with the given id, if it is stored.
    pub open spec fn domain_of(&self, id: i32) -> Option<Seq<char>> {
        if 1 <= id <= self.instances().len() {
            Some(self.instances()[id - 1].public_domain@)
        } else {
            None
        }
    }

    pub fn new() -> (r: BlogStore)
        ensures
            r.wf(),
            r.blogs().len() == 0,
            r.instances().len() == 0,
    {
        BlogStore { blogs: Vec::new(), instances: Vec::new() }
    }

    /// Stores an instance under the next free id.
    pub fn add_instance(&mut self, public_domain: String) -> (r: Instance)
        requires
            old(self).wf(),
            old(self).instances().len() < i32::MAX,
        ensures
            final(self).wf(),
            r.id == old(self).instances().len() + 1,
            r.public_domain == public_domain,
            final(self).instances() == old(self).instances().push(r),
            final(self).blogs() == old(self).blogs(),
    {
        let id = (self.instances.len() + 1) as i32;
        let inst = Instance { id, public_domain };
        let r = inst.snapshot();
        self.instances.push(inst);
        r
    }

    pub fn get_instance(&self, id: i32) -> (r: Option<Instance>)
        requires
            self.wf(),
        ensures
            self.domain_of(id) is None ==> r is None,
            self.domain_of(id) is Some ==> r == Some(self.instances()[id - 1]),
            r is Some ==> r->Some_0.id == id && r->Some_0.public_domain@ == self.domain_of(id)->Some_0,
    {
        if 1 <= id && (id as usize) <= self.instances.len() {
            Some(self.instances[(id - 1) as usize].snapshot())
        } else {
            None
        }
    }

    /// Stores a blog under the next free id and returns the stored record.
    pub fn insert(&mut self, new: NewBlog, creation_date: i64) -> (r: Blog)
        requires
            old(self).wf(),
            old(self).blogs().len() < i32::MAX,
        ensures
            final(self).wf(),
            final(self).blogs() == old(self).blogs().push(r),
            final(self).instances() == old(self).instances(),
            r.id == old(self).blogs().len() + 1,
            r.actor_id == new.actor_id,
            r.title == new.title,
            r.summary == new.summary,
            r.outbox_url == new.outbox_url,
            r.inbox_url == new.inbox_url,
            r.instance_id == new.instance_id,
            r.creation_date == creation_date,
            r.ap_url == new.ap_url,
            r.private_key == new.private_key,
            r.public_key == new.public_key,
    {
        let id = (self.blogs.len() + 1) as i32;
        let b = Blog {
            id,
            actor_id: new.actor_id,
            title: new.title,
            summary: new.summary,
            outbox_url: new.outbox_url,
            inbox_url: new.inbox_url,
            instance_id: new.instance_id,
            creation_date,
            ap_url: new.ap_url,
            private_key: new.private_key,
            public_key: new.public_key,
        };
        let r = b.snapshot();
        let ghost prev = self.blogs();
        let ghost insts = self.instances();
        self.blogs.push(b);
        assert(forall|i: int| 0 <= i < insts.len() ==> #[trigger] insts[i].id == i + 1);
        assert(self.instances() == insts);
        assert forall|i: int| 0 <= i < self.blogs@.len() implies #[trigger] self.blogs@[i].id == i
            + 1 by {
            if i < prev.len() {
                assert(self.blogs@[i] == prev[i]);
            }
        }
        r
    }

    pub fn get_by_id(&self, id: i32) -> (r: Option<Blog>)
        requires
            self.wf(),
        ensures
            r is Some <==> self.has_blog(id),
            r is Some ==> r->Some_0 == self.blog(id),
    {
        if 1 <= id && (id as usize) <= self.blogs.len() {
            Some(self.blogs[(id - 1) as usize].snapshot())
        } else {
            None
        }
    }

    /// The first stored blog with the given `actor_id`.
    pub fn get_by_actor_id(&self, actor_id: &String) -> (r: Option<Blog>)
        ensures
            r is Some <==> exists|i: int|
                0 <= i < self.blogs().len() && #[trigger] self.blogs()[i].actor_id@ == actor_id@,
            r is Some ==> exists|i: int|
                0 <= i < self.blogs().len() && #[trigger] self.blogs()[i] == r->Some_0
                    && r->Some_0.actor_id@ == actor_id@ && forall|j: int|
                    0 <= j < i ==> (#[trigger] self.blogs()[j]).actor_id@ != actor_id@,
    {
        let mut i: usize = 0;
        while i < self.blogs.len()
            invariant
                0 <= i <= self.blogs@.len(),
                forall|j: int| 0 <= j < i ==> (#[trigger] self.blogs@[j]).actor_id@ != actor_id@,
            decreases self.blogs@.len() - i,
        {
            if self.blogs[i].actor_id.eq(actor_id) {
                return Some(self.blogs[i].snapshot());
            }
            i += 1;
        }
        None
    }

    /// The first stored blog whose canonical id is `url`.
    pub fn get_by_ap_url(&self, url: &String) -> (r: Option<Blog>)
        ensures
            r is Some <==> exists|i: int|
                0 <= i < self.blogs().len() && #[trigger] self.blogs()[i].ap_url@ == url@,
            r is Some ==> exists|i: int|
                0 <= i < self.blogs().len() && #[trigger] self.blogs()[i] == r->Some_0
                    && r->Some_0.ap_url@ == url@ && forall|j: int|
                    0 <= j < i ==> (#[trigger] self.blogs()[j]).ap_url@ != url@,
            forall|i: int|
                0 <= i < self.blogs().len() && #[trigger] self.blogs()[i].ap_url@ == url@ && (
                forall|j: int|
                    0 <= j < self.blogs().len() && j != i ==> (#[trigger] self.blogs()[j]).ap_url@
                        != url@) ==> r == Some(self.blogs()[i]),
    {
        let mut i: usize = 0;
        while i < self.blogs.len()
            invariant
                0 <= i <= self.blogs@.len(),
                forall|j: int| 0 <= j < i ==> (#[trigger] self.blogs@[j]).ap_url@ != url@,
            decreases self.blogs@.len() - i,
        {
            if self.blogs[i].ap_url.eq(url) {
                return Some(self.blogs[i].snapshot());
            }
            i += 1;
        }
        None
    }

    /// Sets one derived URL of the blog with the given id and returns the
    /// updated record.
    pub fn update_field(&mut self, id: i32, field: BoxField, value: String) -> (r: Result<
        Blog,
        LookupError,
    >)
        requires
            old(self).wf(),
        ensures
            final(self).wf(),
            final(self).instances() == old(self).instances(),
            !old(self).has_blog(id) ==> r == Err::<Blog, LookupError>(LookupError::ActorNotFound)
                && final(self).blogs() == old(self).blogs(),
            old(self).has_blog(id) ==> r == Ok::<Blog, LookupError>(
                with_field(old(self).blog(id), field, value),
            ) && final(self).blogs() == old(self).blogs().update(
                id - 1,
                with_field(old(self).blog(id), field, value),
            ),
    {
        if id < 1 || (id as usize) > self.blogs.len() {
            return Err(LookupError::ActorNotFound);
        }
        let i = (id - 1) as usize;
        let mut b = self.blogs[i].snapshot();
        match field {
            BoxField::Outbox => b.outbox_url = value,
            BoxField::Inbox => b.inbox_url = value,
            BoxField::ApUrl => b.ap_url = value,
        }
        let r = b.snapshot();
        let ghost prev = self.blogs();
        let ghost insts = self.instances();
        self.blogs.set(i, b);
        assert(forall|k: int| 0 <= k < insts.len() ==> #[trigger] insts[k].id == k + 1);
        assert(self.instances() == insts);
        assert forall|j: int| 0 <= j < self.blogs@.len() implies #[trigger] self.blogs@[j].id == j
            + 1 by {
            if j != i {
                assert(self.blogs@[j] == prev[j]);
            }
        }
        Ok(r)
    }
}

} // verus!
