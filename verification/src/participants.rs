//! The participant aggregator: the distinct human actors who hold a
//! participation reaction, gathered page by page.

use vstd::prelude::*;
use vstd::seq_lib::*;

verus! {

/// How many reactors one page may hold.
pub const PAGE_SIZE: usize = 100;

/// An actor on a page of reactors.
#[derive(Clone, Copy, Debug, PartialEq, Eq, Structural)]
pub struct Reactor {
    /// The actor's identifier.
    pub id: u64,
    /// Whether the actor is a bot or another service.
    pub bot: bool,
}

/// Whether a reactor counts as a participant: a human, and not the system's
/// own actor.
pub open spec fn counts(r: Reactor, own: u64) -> bool {
    !r.bot && r.id != own
}

/// The participants after a page: those before it, then each reactor of
/// the page who counts and was not there yet, in the page's order.
pub open spec fn merged(acc: Seq<u64>, page: Seq<Reactor>, own: u64) -> Seq<u64>
    decreases page.len(),
{
    if page.len() == 0 {
        acc
    } else {
        let before = merged(acc, page.drop_last(), own);
        let r = page.last();
        if counts(r, own) && !before.contains(r.id) {
            before.push(r.id)
        } else {
            before
        }
    }
}

/// The participants after several pages, taken in order.
pub open spec fn merged_all(acc: Seq<u64>, pages: Seq<Seq<Reactor>>, own: u64) -> Seq<u64>
    decreases pages.len(),
{
    if pages.len() == 0 {
        acc
    } else {
        merged(merged_all(acc, pages.drop_last(), own), pages.last(), own)
    }
}

/// The identifiers of the reactors of a page who count.
pub open spec fn humans(page: Seq<Reactor>, own: u64) -> Set<u64> {
    Set::new(|id: u64| exists|i: int| 0 <= i < page.len() && page[i].id == id && counts(page[i], own))
}

/// The identifiers of the reactors of several pages who count.
pub open spec fn humans_of_all(pages: Seq<Seq<Reactor>>, own: u64) -> Set<u64> {
    Set::new(
        |id: u64| exists|k: int| 0 <= k < pages.len() && humans(#[trigger] pages[k], own).contains(id),
    )
}

/// Merging a page keeps the participants distinct and adds exactly the
/// reactors who count.
pub proof fn lemma_merged(acc: Seq<u64>, page: Seq<Reactor>, own: u64)
    requires
        acc.no_duplicates(),
    ensures
        merged(acc, page, own).no_duplicates(),
        merged(acc, page, own).to_set() == acc.to_set().union(humans(page, own)),
    decreases page.len(),
{
    let out = merged(acc, page, own);
    if page.len() == 0 {
        assert(humans(page, own) =~= Set::<u64>::empty());
        assert(out.to_set() =~= acc.to_set().union(humans(page, own)));
    } else {
        let rest = page.drop_last();
        let before = merged(acc, rest, own);
        let r = page.last();
        lemma_merged(acc, rest, own);
        assert forall|id: u64| humans(page, own).contains(id) <==> (humans(rest, own).contains(id)
            || (id == r.id && counts(r, own))) by {
            if humans(page, own).contains(id) {
                let i = choose|i: int| 0 <= i < page.len() && page[i].id == id && counts(page[i], own);
                if i < rest.len() {
                    assert(rest[i] == page[i]);
                }
            }
            if humans(rest, own).contains(id) {
                let i = choose|i: int| 0 <= i < rest.len() && rest[i].id == id && counts(rest[i], own);
                assert(page[i] == rest[i]);
            }
            if id == r.id && counts(r, own) {
                assert(page[page.len() - 1] == r);
            }
        }
        if counts(r, own) && !before.contains(r.id) {
            assert forall|i: int, j: int| 0 <= i < out.len() && 0 <= j < out.len() && i != j implies out[i]
                != out[j] by {
                if i < before.len() && j < before.len() {
                    assert(before[i] != before[j]);
                } else if i < before.len() {
                    assert(before.contains(before[i]));
                } else {
                    assert(before.contains(before[j]));
                }
            }
            assert forall|id: u64| out.to_set().contains(id) <==> (before.to_set().contains(id) || id
                == r.id) by {
                if out.contains(id) {
                    let i = choose|i: int| 0 <= i < out.len() && out[i] == id;
                    if i < before.len() {
                        assert(before[i] == id);
                        assert(before.contains(id));
                    }
                }
                if before.contains(id) {
                    let i = choose|i: int| 0 <= i < before.len() && before[i] == id;
                    assert(out[i] == id);
                }
                if id == r.id {
                    assert(out[out.len() - 1] == id);
                }
            }
            assert(out.to_set() =~= acc.to_set().union(humans(page, own)));
        } else {
            assert(out.to_set() =~= acc.to_set().union(humans(page, own)));
        }
    }
}

/// Merging several pages keeps the participants distinct and adds exactly
/// the reactors who count on any of them.
pub proof fn lemma_merged_all(acc: Seq<u64>, pages: Seq<Seq<Reactor>>, own: u64)
    requires
        acc.no_duplicates(),
    ensures
        merged_all(acc, pages, own).no_duplicates(),
        merged_all(acc, pages, own).to_set() == acc.to_set().union(humans_of_all(pages, own)),
    decreases pages.len(),
{
    let out = merged_all(acc, pages, own);
    if pages.len() == 0 {
        assert(out.to_set() =~= acc.to_set().union(humans_of_all(pages, own)));
    } else {
        let rest = pages.drop_last();
        lemma_merged_all(acc, rest, own);
        lemma_merged(merged_all(acc, rest, own), pages.last(), own);
        assert forall|id: u64| humans_of_all(pages, own).contains(id) <==> (humans_of_all(
            rest,
            own,
        ).contains(id) || humans(pages.last(), own).contains(id)) by {
            if humans_of_all(pages, own).contains(id) {
                let k = choose|k: int| 0 <= k < pages.len() && humans(#[trigger] pages[k], own).contains(id);
                if k < rest.len() {
                    assert(rest[k] == pages[k]);
                }
            }
            if humans_of_all(rest, own).contains(id) {
                let k = choose|k: int| 0 <= k < rest.len() && humans(#[trigger] rest[k], own).contains(id);
                assert(pages[k] == rest[k]);
            }
            if humans(pages.last(), own).contains(id) {
                assert(pages[pages.len() - 1] == pages.last());
            }
        }
        assert(out.to_set() =~= acc.to_set().union(humans_of_all(pages, own)));
    }
}

/// An actor who counts and stands on the pages of both kinds is among the
/// participants exactly once.
pub proof fn lemma_both_kinds_counted_once(
    notifying: Seq<Reactor>,
    silent: Seq<Reactor>,
    own: u64,
    actor: u64,
)
    requires
        humans(notifying, own).contains(actor),
        humans(silent, own).contains(actor),
    ensures
        merged_all(Seq::empty(), seq![notifying, silent], own).to_multiset().count(actor) == 1,
{
    let pages = seq![notifying, silent];
    let out = merged_all(Seq::<u64>::empty(), pages, own);
    lemma_merged_all(Seq::<u64>::empty(), pages, own);
    assert(pages[0] == notifying);
    assert(humans_of_all(pages, own).contains(actor));
    assert(out.to_set().contains(actor));
    assert(out.contains(actor));
    out.lemma_multiset_has_no_duplicates();
    broadcast use to_multiset_contains;
}

/// The distinct actors who take part, in the order in which they were first
/// seen.
#[derive(Clone, Debug, PartialEq, Eq)]
pub struct ParticipantSet {
    ids: Vec<u64>,
}

impl View for ParticipantSet {
    type V = Set<u64>;

    closed spec fn view(&self) -> Set<u64> {
        self.ids@.to_set()
    }
}

impl ParticipantSet {
    /// The participants in the order in which they were first seen.
    pub closed spec fn order(&self) -> Seq<u64> {
        self.ids@
    }

    /// The invariant of the set: no participant stands in it twice.
    pub open spec fn wf(&self) -> bool {
        self.order().no_duplicates()
    }

    /// The set holds what its order lists, and as many.
    pub proof fn lemma_view(&self)
        ensures
            self@ == self.order().to_set(),
            self@.finite(),
            self.wf() ==> self@.len() == self.order().len(),
    {
        seq_to_set_is_finite(self.ids@);
        if self.wf() {
            self.ids@.unique_seq_to_set();
        }
    }

    /// The set without participants.
    pub fn new() -> (out: ParticipantSet)
        ensures
            out.wf(),
            out.order() == Seq::<u64>::empty(),
            out@ == Set::<u64>::empty(),
    {
        let out = ParticipantSet { ids: Vec::new() };
        assert(out.ids@.to_set() =~= Set::<u64>::empty());
        out
    }

    /// How many participants there are.
    pub fn len(&self) -> (n: usize)
        ensures
            n == self.order().len(),
            self.wf() ==> n == self@.len(),
    {
        proof {
            self.lemma_view();
        }
        self.ids.len()
    }

    /// Whether `id` takes part.
    pub fn contains(&self, id: u64) -> (r: bool)
        ensures
            r == self@.contains(id),
            r == self.order().contains(id),
    {
        let mut i: usize = 0;
        while i < self.ids.len()
            invariant
                i <= self.ids.len(),
                forall|j: int| 0 <= j < i ==> self.ids@[j] != id,
            decreases self.ids.len() - i,
        {
            if self.ids[i] == id {
                assert(self.ids@.contains(id));
                return true;
            }
            i += 1;
        }
        assert(!self.ids@.contains(id));
        false
    }

    /// Adds `id` unless it takes part already; says whether it was added.
    pub fn insert(&mut self, id: u64) -> (added: bool)
        requires
            old(self).wf(),
        ensures
            final(self).wf(),
            added == !old(self)@.contains(id),
            final(self)@ == old(self)@.insert(id),
            final(self).order() == if added {
                old(self).order().push(id)
            } else {
                old(self).order()
            },
    {
        if self.contains(id) {
            assert(self.ids@.to_set() =~= self.ids@.to_set().insert(id));
            return false;
        }
        let ghost before = self.ids@;
        self.ids.push(id);
        proof {
            assert(self.ids@ == before.push(id));
            assert forall|i: int, j: int|
                0 <= i < self.ids@.len() && 0 <= j < self.ids@.len() && i != j implies self.ids@[i]
                != self.ids@[j] by {
                if i < before.len() && j < before.len() {
                    assert(before[i] != before[j]);
                } else if i < before.len() {
                    assert(before.contains(before[i]));
                } else {
                    assert(before.contains(before[j]));
                }
            }
            before.lemma_push_to_set_commute(id);
        }
        true
    }

    /// Adds the reactors of `page` who count: the humans other than `own`,
    /// the system's own actor.
    pub fn add_page(&mut self, page: &Vec<Reactor>, own: u64)
        requires
            old(self).wf(),
        ensures
            final(self).wf(),
            final(self).order() == merged(old(self).order(), page@, own),
            final(self)@ == old(self)@.union(humans(page@, own)),
    {
        let mut i: usize = 0;
        assert(page@.take(0) =~= Seq::<Reactor>::empty());
        while i < page.len()
            invariant
                i <= page.len(),
                self.wf(),
                self.order() == merged(old(self).order(), page@.take(i as int), own),
            decreases page.len() - i,
        {
            let r = page[i];
            proof {
                assert(page@.take(i + 1).drop_last() =~= page@.take(i as int));
                assert(page@.take(i + 1).last() == r);
            }
            if !r.bot && r.id != own {
                self.insert(r.id);
            }
            i += 1;
        }
        proof {
            assert(page@.take(page.len() as int) =~= page@);
            lemma_merged(old(self).order(), page@, own);
        }
    }

    /// The participants, in the order in which they were first seen.
    pub fn to_vec(&self) -> (out: Vec<u64>)
        ensures
            out@ == self.order(),
    {
        self.ids.clone()
    }
}

/// The pages as sequences of reactors.
pub open spec fn page_views(pages: Seq<Vec<Reactor>>) -> Seq<Seq<Reactor>> {
    Seq::new(pages.len(), |k: int| pages[k]@)
}

/// The participants that several pages of reactors give: every human on
/// any of them other than `own`, each once.
pub fn aggregate(pages: &Vec<Vec<Reactor>>, own: u64) -> (out: ParticipantSet)
    ensures
        out.wf(),
        out.order() == merged_all(Seq::empty(), page_views(pages@), own),
        out@ == humans_of_all(page_views(pages@), own),
        out@.len() == out.order().len(),
{
    let mut out = ParticipantSet::new();
    let ghost all = page_views(pages@);
    let mut k: usize = 0;
    assert(all.take(0) =~= Seq::<Seq<Reactor>>::empty());
    while k < pages.len()
        invariant
            k <= pages.len(),
            all == page_views(pages@),
            all.len() == pages.len(),
            out.wf(),
            out.order() == merged_all(Seq::empty(), all.take(k as int), own),
        decreases pages.len() - k,
    {
        proof {
            assert(all.take(k + 1).drop_last() =~= all.take(k as int));
            assert(all.take(k + 1).last() == all[k as int]);
            assert(all[k as int] == pages@[k as int]@);
        }
        out.add_page(&pages[k], own);
        k += 1;
    }
    proof {
        assert(all.take(pages.len() as int) =~= all);
        lemma_merged_all(Seq::<u64>::empty(), all, own);
        assert(Seq::<u64>::empty().to_set() =~= Set::<u64>::empty());
        assert(Set::<u64>::empty().union(humans_of_all(all, own)) =~= humans_of_all(all, own));
        out.lemma_view();
    }
    out
}

/// Whether a page of `len` reactors is the last one: it is empty, or
/// shorter than a full page.
pub fn is_last_page(len: usize) -> (r: bool)
    ensures
        r == (len < PAGE_SIZE),
{
    len < PAGE_SIZE
}

/// The reactor after whom the next page starts: the last one of `page`.
pub fn cursor_after(page: &Vec<Reactor>) -> (r: Option<u64>)
    ensures
        r == (if page@.len() == 0 {
            None
        } else {
            Some(page@.last().id)
        }),
{
    if page.len() == 0 {
        None
    } else {
        Some(page[page.len() - 1].id)
    }
}

} // verus!
