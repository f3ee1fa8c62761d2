use vstd::prelude::*;
use vstd::string::*;

use crate::model::Endpoint;

verus! {

/// Relies on `uuid::Uuid::new_v4` and the `Display` form of `uuid::Uuid`:
/// a random version-4 UUID written as 36 hyphenated hexadecimal characters.
#[verifier::external_body]
fn new_id() -> (r: String)
    ensures
        r@.len() == 36,
{
    uuid::Uuid::new_v4().to_string()
}

/// The endpoint list that the router walks: insertion order is routing
/// priority, and nothing about method or path is required to be unique.
pub struct EndpointRegistry {
    entries: Vec<Endpoint>,
}

/// What is left of `s` once every entry with identifier `id` is removed.
pub open spec fn without_id(s: Seq<Endpoint>, id: Seq<char>) -> Seq<Endpoint> {
    s.filter(|e: Endpoint| e.id@ != id)
}

impl View for EndpointRegistry {
    type V = Seq<Endpoint>;

    closed spec fn view(&self) -> Seq<Endpoint> {
        self.entries@
    }
}

impl EndpointRegistry {
    /// An empty registry.
    pub fn new() -> (r: EndpointRegistry)
        ensures
            r@ == Seq::<Endpoint>::empty(),
    {
        EndpointRegistry { entries: Vec::new() }
    }

    /// The number of registered endpoints.
    pub fn len(&self) -> (r: usize)
        ensures
            r == self@.len(),
    {
        self.entries.len()
    }

    /// Appends an endpoint under the given identifier and returns it.
    pub fn add_with_id(
        &mut self,
        id: String,
        method: String,
        path: String,
        response: String,
        status: u16,
        delay: u64,
    ) -> (r: Endpoint)
        ensures
            r.id == id,
            r.method == method,
            r.path == path,
            r.response == response,
            r.status == status,
            r.delay == delay,
            final(self)@ == old(self)@.push(r),
    {
        let e = Endpoint { id, method, path, status, delay, response };
        let r = e.duplicate();
        self.entries.push(e);
        r
    }

    /// Appends an endpoint under a freshly drawn random identifier and
    /// returns it.
    pub fn add(
        &mut self,
        method: String,
        path: String,
        response: String,
        status: u16,
        delay: u64,
    ) -> (r: Endpoint)
        ensures
            r.id@.len() == 36,
            r.method == method,
            r.path == path,
            r.response == response,
            r.status == status,
            r.delay == delay,
            final(self)@ == old(self)@.push(r),
    {
        let id = new_id();
        self.add_with_id(id, method, path, response, status, delay)
    }

    /// A copy of every endpoint, in routing order.
    pub fn list(&self) -> (r: Vec<Endpoint>)
        ensures
            r@ == self@,
    {
        let mut r: Vec<Endpoint> = Vec::new();
        let mut i: usize = 0;
        while i < self.entries.len()
            invariant
                i <= self.entries@.len(),
                r@ == self.entries@.subrange(0, i as int),
            decreases self.entries@.len() - i,
        {
            r.push(self.entries[i].duplicate());
            proof {
                assert(self.entries@.subrange(0, i + 1) =~= self.entries@.subrange(0, i as int).push(self.entries@[i as int]));
            }
            i += 1;
        }
        proof {
            assert(self.entries@.subrange(0, i as int) =~= self.entries@);
        }
        r
    }

    /// Removes every endpoint whose identifier is `id`, keeping the order of
    /// the rest; an unknown identifier changes nothing.
    pub fn delete(&mut self, id: &str)
        ensures
            final(self)@ == without_id(old(self)@, id@),
    {
        let ghost old_entries = self.entries@;
        let mut kept: Vec<Endpoint> = Vec::new();
        let mut i: usize = 0;
        while i < self.entries.len()
            invariant
                self.entries@ == old_entries,
                i <= old_entries.len(),
                kept@ == without_id(old_entries.subrange(0, i as int), id@),
            decreases old_entries.len() - i,
        {
            let e = &self.entries[i];
            proof {
                let pre = old_entries.subrange(0, i as int);
                assert(old_entries.subrange(0, i + 1) =~= pre.push(old_entries[i as int]));
                pre.lemma_filter_push(old_entries[i as int], |e: Endpoint| e.id@ != id@);
            }
            if !same_text(e.id.as_str(), id) {
                kept.push(e.duplicate());
            }
            i += 1;
        }
        proof {
            assert(old_entries.subrange(0, i as int) =~= old_entries);
        }
        self.entries = kept;
    }

    /// Makes one edit.
    pub fn apply(&mut self, edit: RegistryEdit)
        ensures
            final(self)@ == apply_edit(old(self)@, edit),
    {
        match edit {
            RegistryEdit::Add(e) => {
                self.entries.push(e);
            },
            RegistryEdit::Delete(id) => {
                self.delete(id.as_str());
            },
        }
    }

    /// Replaces the whole list with `entries`.
    pub fn replace_all(&mut self, entries: Vec<Endpoint>)
        ensures
            final(self)@ == entries@,
    {
        self.entries = entries;
    }
}

/// One change to the registry: an endpoint appended, or every endpoint
/// with an identifier removed.
#[derive(Debug)]
pub enum RegistryEdit {
    Add(Endpoint),
    Delete(String),
}

/// The list after one edit.
pub open spec fn apply_edit(s: Seq<Endpoint>, op: RegistryEdit) -> Seq<Endpoint> {
    match op {
        RegistryEdit::Add(e) => s.push(e),
        RegistryEdit::Delete(id) => without_id(s, id@),
    }
}

/// The list after a sequence of edits, first to last.
pub open spec fn apply_edits(s: Seq<Endpoint>, ops: Seq<RegistryEdit>) -> Seq<Endpoint>
    decreases ops.len(),
{
    if ops.len() == 0 {
        s
    } else {
        apply_edits(apply_edit(s, ops[0]), ops.drop_first())
    }
}

/// Some edit of `ops` deletes identifier `id`.
pub open spec fn deleted_in(id: Seq<char>, ops: Seq<RegistryEdit>) -> bool {
    exists|k: int| 0 <= k < ops.len() && (#[trigger] ops[k] matches RegistryEdit::Delete(d) && d@ == id)
}

/// The entries of `s` whose identifier no edit of `ops` deletes, in order.
pub open spec fn untouched(s: Seq<Endpoint>, ops: Seq<RegistryEdit>) -> Seq<Endpoint> {
    s.filter(|e: Endpoint| !deleted_in(e.id@, ops))
}

/// The endpoints that `ops` adds and no later edit of `ops` deletes, in the
/// order they were added.
pub open spec fn surviving_adds(ops: Seq<RegistryEdit>) -> Seq<Endpoint>
    decreases ops.len(),
{
    if ops.len() == 0 {
        Seq::empty()
    } else {
        let rest = surviving_adds(ops.drop_first());
        match ops[0] {
            RegistryEdit::Add(e) => if deleted_in(e.id@, ops.drop_first()) {
                rest
            } else {
                seq![e] + rest
            },
            RegistryEdit::Delete(_) => rest,
        }
    }
}

proof fn lemma_filter_filter(s: Seq<Endpoint>, id: Seq<char>, ops: Seq<RegistryEdit>, all: Seq<RegistryEdit>)
    requires
        all.len() > 0,
        all[0] matches RegistryEdit::Delete(d) && d@ == id,
        all.drop_first() == ops,
    ensures
        untouched(without_id(s, id), ops) == untouched(s, all),
    decreases s.len(),
{
    broadcast use Seq::lemma_filter_push;
    if s.len() == 0 {
        assert(without_id(s, id) =~= Seq::<Endpoint>::empty());
        assert(untouched(without_id(s, id), ops) =~= untouched(s, all));
    } else {
        let p = s.drop_last();
        let x = s.last();
        assert(p.push(x) == s);
        lemma_filter_filter(p, id, ops, all);
        assert(deleted_in(x.id@, all) == (x.id@ == id || deleted_in(x.id@, ops))) by {
            if deleted_in(x.id@, ops) {
                let k = choose|k: int| 0 <= k < ops.len() && (#[trigger] ops[k] matches RegistryEdit::Delete(d) && d@ == x.id@);
                assert(all[k + 1] == ops[k]);
            }
            if x.id@ == id {
                assert(all[0] matches RegistryEdit::Delete(d) && d@ == x.id@);
            }
            if deleted_in(x.id@, all) {
                let k = choose|k: int| 0 <= k < all.len() && (#[trigger] all[k] matches RegistryEdit::Delete(d) && d@ == x.id@);
                if k > 0 {
                    assert(ops[k - 1] == all[k]);
                }
            }
        }
    }
}

/// Whatever adds and deletes are made, the list is the earlier entries that
/// no edit deleted, followed by the added entries that no later edit
/// deleted, each part in its original order.
pub proof fn lemma_edits_keep_insertion_order(s: Seq<Endpoint>, ops: Seq<RegistryEdit>)
    ensures
        apply_edits(s, ops) == untouched(s, ops) + surviving_adds(ops),
    decreases ops.len(),
{
    broadcast use Seq::lemma_filter_push;
    if ops.len() == 0 {
        assert(untouched(s, ops) =~= s.filter(|e: Endpoint| true)) by {
            assert forall|x: Seq<char>| !deleted_in(x, ops) by {}
            assert((|e: Endpoint| !deleted_in(e.id@, ops)) =~= (|e: Endpoint| true));
        }
        s.filter_lemma(|e: Endpoint| true);
        assert(s.filter(|e: Endpoint| true) =~= s) by {
            lemma_filter_all(s);
        }
        assert(untouched(s, ops) + surviving_adds(ops) =~= s);
    } else {
        let rest = ops.drop_first();
        lemma_edits_keep_insertion_order(apply_edit(s, ops[0]), rest);
        match ops[0] {
            RegistryEdit::Add(e) => {
                assert forall|x: Seq<char>| deleted_in(x, ops) == deleted_in(x, rest) by {
                    if deleted_in(x, ops) {
                        let k = choose|k: int| 0 <= k < ops.len() && (#[trigger] ops[k] matches RegistryEdit::Delete(d) && d@ == x);
                        assert(rest[k - 1] == ops[k]);
                    }
                    if deleted_in(x, rest) {
                        let k = choose|k: int| 0 <= k < rest.len() && (#[trigger] rest[k] matches RegistryEdit::Delete(d) && d@ == x);
                        assert(ops[k + 1] == rest[k]);
                    }
                }
                assert(untouched(s, ops) =~= untouched(s, rest)) by {
                    assert((|e: Endpoint| !deleted_in(e.id@, ops)) =~= (|e: Endpoint| !deleted_in(e.id@, rest)));
                }
                assert(untouched(s, ops) + surviving_adds(ops) =~= untouched(s.push(e), rest) + surviving_adds(rest));
            },
            RegistryEdit::Delete(id) => {
                lemma_filter_filter(s, id@, rest, ops);
            },
        }
    }
}

proof fn lemma_filter_all(s: Seq<Endpoint>)
    ensures
        s.filter(|e: Endpoint| true) == s,
    decreases s.len(),
{
    broadcast use Seq::lemma_filter_push;
    if s.len() == 0 {
        assert(s.filter(|e: Endpoint| true) =~= s);
    } else {
        lemma_filter_all(s.drop_last());
        assert(s.drop_last().push(s.last()) == s);
    }
}

/// Every endpoint that `ops` adds, in the order added.
pub open spec fn added(ops: Seq<RegistryEdit>) -> Seq<Endpoint>
    decreases ops.len(),
{
    if ops.len() == 0 {
        Seq::empty()
    } else {
        match ops[0] {
            RegistryEdit::Add(e) => seq![e] + added(ops.drop_first()),
            RegistryEdit::Delete(_) => added(ops.drop_first()),
        }
    }
}

/// No edit deletes an identifier that a later edit adds.
pub open spec fn no_id_added_after_its_delete(ops: Seq<RegistryEdit>) -> bool {
    forall|i: int, j: int|
        0 <= i < j < ops.len() && (#[trigger] ops[i] matches RegistryEdit::Delete(_))
            && (#[trigger] ops[j] matches RegistryEdit::Add(_)) ==> ops[i]->Delete_0@
            != ops[j]->Add_0.id@
}

proof fn lemma_deleted_in_first(ops: Seq<RegistryEdit>)
    requires
        ops.len() > 0,
    ensures
        forall|x: Seq<char>|
            #[trigger] deleted_in(x, ops) == ((ops[0] matches RegistryEdit::Delete(d) && d@ == x)
                || deleted_in(x, ops.drop_first())),
{
    let rest = ops.drop_first();
    assert forall|x: Seq<char>|
        #[trigger] deleted_in(x, ops) == ((ops[0] matches RegistryEdit::Delete(d) && d@ == x)
            || deleted_in(x, rest)) by {
        if deleted_in(x, rest) {
            let k = choose|k: int| 0 <= k < rest.len() && (#[trigger] rest[k] matches RegistryEdit::Delete(d) && d@ == x);
            assert(ops[k + 1] == rest[k]);
        }
        if ops[0] matches RegistryEdit::Delete(d) && d@ == x {
            assert(ops[0] matches RegistryEdit::Delete(d) && d@ == x);
        }
        if deleted_in(x, ops) {
            let k = choose|k: int| 0 <= k < ops.len() && (#[trigger] ops[k] matches RegistryEdit::Delete(d) && d@ == x);
            if k > 0 {
                assert(rest[k - 1] == ops[k]);
            }
        }
    }
}

proof fn lemma_added_comes_from(ops: Seq<RegistryEdit>, k: int)
    requires
        0 <= k < added(ops).len(),
    ensures
        exists|j: int| 0 <= j < ops.len() && (#[trigger] ops[j] matches RegistryEdit::Add(e) && e == added(ops)[k]),
    decreases ops.len(),
{
    let rest = ops.drop_first();
    match ops[0] {
        RegistryEdit::Add(e) => {
            if k == 0 {
                assert(ops[0] matches RegistryEdit::Add(e) && e == added(ops)[k]);
            } else {
                lemma_added_comes_from(rest, k - 1);
                let j = choose|j: int| 0 <= j < rest.len() && (#[trigger] rest[j] matches RegistryEdit::Add(e) && e == added(rest)[k - 1]);
                assert(ops[j + 1] == rest[j]);
            }
        },
        RegistryEdit::Delete(_) => {
            lemma_added_comes_from(rest, k);
            let j = choose|j: int| 0 <= j < rest.len() && (#[trigger] rest[j] matches RegistryEdit::Add(e) && e == added(rest)[k]);
            assert(ops[j + 1] == rest[j]);
        },
    }
}

proof fn lemma_filter_agree(s: Seq<Endpoint>, p: spec_fn(Endpoint) -> bool, q: spec_fn(Endpoint) -> bool)
    requires
        forall|i: int| 0 <= i < s.len() ==> p(#[trigger] s[i]) == q(s[i]),
    ensures
        s.filter(p) == s.filter(q),
    decreases s.len(),
{
    broadcast use Seq::lemma_filter_push;
    if s.len() == 0 {
        assert(s.filter(p) =~= s.filter(q));
    } else {
        let d = s.drop_last();
        assert(forall|i: int| 0 <= i < d.len() ==> #[trigger] d[i] == s[i]);
        lemma_filter_agree(d, p, q);
        assert(d.push(s.last()) == s);
        assert(s.last() == s[s.len() - 1]);
    }
}

proof fn lemma_surviving_adds_filter(ops: Seq<RegistryEdit>)
    requires
        no_id_added_after_its_delete(ops),
    ensures
        surviving_adds(ops) == added(ops).filter(|e: Endpoint| !deleted_in(e.id@, ops)),
    decreases ops.len(),
{
    if ops.len() == 0 {
        assert(added(ops).filter(|e: Endpoint| !deleted_in(e.id@, ops)) =~= Seq::<Endpoint>::empty());
    } else {
        let rest = ops.drop_first();
        assert(no_id_added_after_its_delete(rest)) by {
            assert forall|i: int, j: int|
                0 <= i < j < rest.len() && (#[trigger] rest[i] matches RegistryEdit::Delete(_))
                    && (#[trigger] rest[j] matches RegistryEdit::Add(_)) implies rest[i]->Delete_0@
                    != rest[j]->Add_0.id@ by {
                assert(ops[i + 1] == rest[i]);
                assert(ops[j + 1] == rest[j]);
            }
        }
        lemma_surviving_adds_filter(rest);
        lemma_deleted_in_first(ops);
        let p_ops = |e: Endpoint| !deleted_in(e.id@, ops);
        let p_rest = |e: Endpoint| !deleted_in(e.id@, rest);
        match ops[0] {
            RegistryEdit::Add(e) => {
                assert(p_ops =~= p_rest);
                added(rest).lemma_filter_prepend(e, p_ops);
                assert(added(ops) == seq![e] + added(rest));
            },
            RegistryEdit::Delete(d) => {
                assert forall|i: int| 0 <= i < added(rest).len() implies p_ops(#[trigger] added(rest)[i]) == p_rest(added(rest)[i]) by {
                    lemma_added_comes_from(rest, i);
                    let j = choose|j: int| 0 <= j < rest.len() && (#[trigger] rest[j] matches RegistryEdit::Add(e) && e == added(rest)[i]);
                    assert(ops[j + 1] == rest[j]);
                    assert(ops[0] matches RegistryEdit::Delete(_));
                    assert(ops[j + 1] matches RegistryEdit::Add(_));
                }
                lemma_filter_agree(added(rest), p_ops, p_rest);
            },
        }
    }
}

/// Starting from an empty registry, any sequence of adds and deletes leaves
/// exactly the added endpoints, in the order added, less those whose
/// identifier some delete names; this holds where no delete names an
/// identifier that is only added after it.
pub proof fn lemma_adds_minus_deletes(ops: Seq<RegistryEdit>)
    requires
        no_id_added_after_its_delete(ops),
    ensures
        apply_edits(Seq::empty(), ops) == added(ops).filter(|e: Endpoint| !deleted_in(e.id@, ops)),
{
    lemma_edits_keep_insertion_order(Seq::empty(), ops);
    lemma_surviving_adds_filter(ops);
    assert(untouched(Seq::empty(), ops) =~= Seq::<Endpoint>::empty());
    assert(untouched(Seq::<Endpoint>::empty(), ops) + surviving_adds(ops) =~= surviving_adds(ops));
}

/// Deleting an identifier that no entry has leaves the list as it is.
pub proof fn lemma_delete_unknown_is_noop(s: Seq<Endpoint>, id: Seq<char>)
    requires
        forall|i: int| 0 <= i < s.len() ==> (#[trigger] s[i]).id@ != id,
    ensures
        without_id(s, id) == s,
    decreases s.len(),
{
    broadcast use Seq::lemma_filter_push;
    if s.len() == 0 {
        assert(without_id(s, id) =~= s);
    } else {
        let p = s.drop_last();
        assert(forall|i: int| 0 <= i < p.len() ==> #[trigger] p[i] == s[i]);
        lemma_delete_unknown_is_noop(p, id);
        assert(p.push(s.last()) == s);
        assert(s.last() == s[s.len() - 1]);
    }
}

/// Whether two texts hold the same characters.
pub fn same_text(a: &str, b: &str) -> (r: bool)
    ensures
        r == (a@ == b@),
{
    let x = String::from_str(a);
    let y = String::from_str(b);
    x == y
}

} // verus!
