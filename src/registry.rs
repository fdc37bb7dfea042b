//! The host's registry of connected listeners. Handles keep the order in
//! which they were registered; a broadcast writes the same frame to each
//! and then drops exactly those whose write failed.
use vstd::prelude::*;

verus! {

/// One connected listener: its connection and the nickname it sent.
pub struct ClientHandle<C> {
    pub connection: C,
    pub nickname: String,
}

/// The registered handles, in registration order.
pub struct Registry<C> {
    handles: Vec<ClientHandle<C>>,
}

/// The items of `s` whose outcome in `ok` is `true`, in their order.
pub open spec fn kept<A>(s: Seq<A>, ok: Seq<bool>) -> Seq<A>
    recommends
        s.len() == ok.len(),
    decreases s.len(),
{
    if s.len() == 0 {
        Seq::empty()
    } else if ok.last() {
        kept(s.drop_last(), ok.drop_last()).push(s.last())
    } else {
        kept(s.drop_last(), ok.drop_last())
    }
}

/// The number of `false` outcomes in `ok`.
pub open spec fn failures(ok: Seq<bool>) -> nat
    decreases ok.len(),
{
    if ok.len() == 0 {
        0
    } else {
        failures(ok.drop_last()) + if ok.last() {
            0nat
        } else {
            1nat
        }
    }
}

impl<C> View for Registry<C> {
    type V = Seq<ClientHandle<C>>;

    closed spec fn view(&self) -> Seq<ClientHandle<C>> {
        self.handles@
    }
}

impl<C> Registry<C> {
    pub fn new() -> (r: Self)
        ensures
            r@ == Seq::<ClientHandle<C>>::empty(),
    {
        Registry { handles: Vec::new() }
    }

    /// Adds a handle after all those registered before it.
    pub fn register(&mut self, handle: ClientHandle<C>)
        ensures
            final(self)@ == old(self)@.push(handle),
    {
        self.handles.push(handle);
    }

    pub fn len(&self) -> (n: usize)
        ensures
            n == self@.len(),
    {
        self.handles.len()
    }

    /// A copy of the registered nicknames, in registry order.
    pub fn nicknames(&self) -> (r: Vec<String>)
        ensures
            r@.len() == self@.len(),
            forall|i: int| 0 <= i < r@.len() ==> #[trigger] r@[i]@ == self@[i].nickname@,
    {
        let mut r: Vec<String> = Vec::new();
        let mut i: usize = 0;
        while i < self.handles.len()
            invariant
                i <= self.handles@.len(),
                r@.len() == i,
                forall|j: int| 0 <= j < i ==> #[trigger] r@[j]@ == self.handles@[j].nickname@,
            decreases self.handles@.len() - i,
        {
            r.push(self.handles[i].nickname.clone());
            i = i + 1;
        }
        r
    }

    /// The connection of the handle at `index`, to write a frame to.
    pub fn connection_mut(&mut self, index: usize) -> (c: &mut C)
        requires
            index < old(self)@.len(),
        ensures
            *c == old(self)@[index as int].connection,
            final(self)@ == old(self)@.update(
                index as int,
                (ClientHandle {
                    connection: *final(c),
                    nickname: old(self)@[index as int].nickname,
                }),
            ),
    {
        &mut self.handles[index].connection
    }

    /// Ends a broadcast: `delivered[i]` tells whether both writes to the
    /// handle at `i` succeeded. Drops the others and keeps the order.
    pub fn retain_delivered(&mut self, delivered: &Vec<bool>)
        requires
            delivered@.len() == old(self)@.len(),
        ensures
            final(self)@ == kept(old(self)@, delivered@),
    {
        let ghost orig = self.handles@;
        let mut rest: Vec<ClientHandle<C>> = Vec::new();
        std::mem::swap(&mut self.handles, &mut rest);
        let mut i: usize = 0;
        while i < delivered.len()
            invariant
                i <= delivered@.len(),
                delivered@.len() == orig.len(),
                rest@ == orig.subrange(i as int, orig.len() as int),
                self.handles@ == kept(orig.take(i as int), delivered@.take(i as int)),
            decreases delivered@.len() - i,
        {
            let h = rest.remove(0);
            assert(orig.take(i + 1).drop_last() =~= orig.take(i as int));
            assert(delivered@.take(i + 1).drop_last() =~= delivered@.take(i as int));
            if delivered[i] {
                self.handles.push(h);
            }
            i = i + 1;
            assert(rest@ =~= orig.subrange(i as int, orig.len() as int));
        }
        assert(orig.take(i as int) =~= orig);
        assert(delivered@.take(i as int) =~= delivered@);
    }
}

/// A broadcast drops exactly as many handles as it had failed writes.
pub proof fn lemma_prune_size<A>(s: Seq<A>, ok: Seq<bool>)
    requires
        s.len() == ok.len(),
    ensures
        kept(s, ok).len() + failures(ok) == s.len(),
    decreases s.len(),
{
    if s.len() > 0 {
        lemma_prune_size(s.drop_last(), ok.drop_last());
    }
}

/// Where every write succeeds, every handle stays, in order.
pub proof fn lemma_prune_none_failed<A>(s: Seq<A>, ok: Seq<bool>)
    requires
        s.len() == ok.len(),
        forall|i: int| 0 <= i < ok.len() ==> #[trigger] ok[i],
    ensures
        kept(s, ok) == s,
    decreases s.len(),
{
    if s.len() > 0 {
        lemma_prune_none_failed(s.drop_last(), ok.drop_last());
        assert(s.drop_last().push(s.last()) =~= s);
    }
}

/// Where the write to one handle fails and all others succeed, that handle
/// alone is dropped and the others keep their order.
pub proof fn lemma_prune_one_failed<A>(s: Seq<A>, ok: Seq<bool>, j: int)
    requires
        s.len() == ok.len(),
        0 <= j < s.len(),
        !ok[j],
        forall|i: int| 0 <= i < ok.len() && i != j ==> #[trigger] ok[i],
    ensures
        kept(s, ok) == s.remove(j),
    decreases s.len(),
{
    if j == s.len() - 1 {
        lemma_prune_none_failed(s.drop_last(), ok.drop_last());
        assert(s.drop_last() =~= s.remove(j));
    } else {
        lemma_prune_one_failed(s.drop_last(), ok.drop_last(), j);
        assert(s.drop_last().remove(j).push(s.last()) =~= s.remove(j));
    }
}

} // verus!
