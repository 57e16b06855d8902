//! Rust-backed XAML markup extensions: the value a handler resolves a key to,
//! the closure adapter, and the per-handler scratch table that keeps the
//! NUL-terminated copy of a resolved string alive while the parser copies it.

use vstd::prelude::*;
use vstd::string::StringSliceAdditionalSpecFns;

use crate::resolver::{one_more_run, CountedResolver, Run};
use crate::text::{c_string, c_string_of, lemma_c_string_terminated};

verus! {

/// Value returned from a [`MarkupExtensionHandler::provide_value`] callback.
pub enum MarkupValue<'a> {
    /// Text substituted for the extension.
    String(&'a str),
    /// Address of an existing `Noesis::BaseComponent` (for example a resource
    /// from the application resource dictionary), borrowed: the runtime adds
    /// its own reference. The address is that of a live component, so it is
    /// never 0.
    Component(usize),
    /// No value: the property keeps its default.
    Unset,
}

/// Per-extension callback. Receives the positional key the XAML parser
/// populated and returns the value to substitute.
pub trait MarkupExtensionHandler: Send + 'static {
    /// Whether `key` may be handed to this handler now; any time, unless the
    /// implementor says otherwise.
    open spec fn accepts_key(&self, key: &str) -> bool {
        true
    }

    fn provide_value(&mut self, key: &str) -> MarkupValue<'_>
        requires
            old(self).accepts_key(key),
    ;
}

/// Adapter so that a closure returning `Option<String>` serves as a handler:
/// `Some` text is kept in the handler for the duration of the callback,
/// `None` gives [`MarkupValue::Unset`].
pub struct ClosureHandler<F: FnMut(&str) -> Option<String> + Send + 'static> {
    f: CountedResolver<F>,
    scratch: String,
}

impl<F: FnMut(&str) -> Option<String> + Send + 'static> ClosureHandler<F> {
    /// The wrapped closure.
    pub closed spec fn closure(&self) -> F {
        self.f.closure()
    }

    /// The closure's runs so far, oldest first: each key it was given and
    /// what it returned.
    pub closed spec fn runs(&self) -> Seq<Run> {
        self.f.runs()
    }

    /// The text the last `Some` result left in the handler.
    pub closed spec fn held(&self) -> String {
        self.scratch
    }

    /// Wraps `f`, holding no text yet.
    pub fn new(f: F) -> (h: Self)
        ensures
            h.closure() == f,
            h.held()@ == Seq::<char>::empty(),
            h.runs() == Seq::<Run>::empty(),
            forall|k: &str| call_requires(f, (k,)) ==> #[trigger] h.accepts_key(k),
    {
        ClosureHandler { f: CountedResolver::new(f), scratch: String::new() }
    }
}

impl<F: FnMut(&str) -> Option<String> + Send + 'static> MarkupExtensionHandler for ClosureHandler<F> {
    open spec fn accepts_key(&self, key: &str) -> bool {
        call_requires(self.closure(), (key,))
    }

    /// Runs the closure exactly once, on `key`: the `Some` text of that run
    /// becomes the held text and the returned string, its `None` leaves the
    /// held text as it was and gives `Unset`.
    fn provide_value(&mut self, key: &str) -> (v: MarkupValue<'_>)
        ensures
            final(self).closure() == old(self).closure(),
            one_more_run(old(self).runs(), final(self).runs(), key@),
            v is Unset <==> final(self).runs().last().1 is None,
            v is String ==> final(self).runs().last().1 == Some(final(self).held()),
            v is Unset ==> call_ensures(old(self).closure(), (key,), None::<String>)
                && final(self).held() == old(self).held(),
            v matches MarkupValue::String(s) ==> call_ensures(
                old(self).closure(),
                (key,),
                Some(final(self).held()),
            ) && s@ == final(self).held()@,
            !(v is Component),
    {
        match self.f.resolve(key) {
            Some(s) => {
                self.scratch = s;
                MarkupValue::String(&self.scratch)
            },
            None => MarkupValue::Unset,
        }
    }
}

/// The bytes a slot keeps for handler text `text`: its NUL-terminated form,
/// or the empty C string when `text` holds an interior NUL.
pub open spec fn scratch_bytes(text: Seq<u8>) -> Seq<u8> {
    match c_string_of(text) {
        Some(c) => c,
        None => seq![0u8],
    }
}

/// Per-handler C-string slots, keyed by the handler's registration address.
/// The native side reads a slot's bytes synchronously, so each handler needs
/// only its latest string: a new one replaces the old in place.
pub struct ScratchTable {
    slots: Vec<(usize, Vec<u8>)>,
}

/// No two slots share a handler key.
spec fn keys_unique(slots: Seq<(usize, Vec<u8>)>) -> bool {
    forall|i: int, j: int| 0 <= i < j < slots.len() ==> slots[i].0 != slots[j].0
}

/// Each handler key with a slot in `slots`, mapped to the bytes in that slot.
spec fn slots_view(slots: Seq<(usize, Vec<u8>)>) -> Map<usize, Seq<u8>> {
    Map::new(
        |k: usize| exists|i: int| 0 <= i < slots.len() && slots[i].0 == k,
        |k: usize| slots[choose|i: int| 0 <= i < slots.len() && slots[i].0 == k].1@,
    )
}

/// With one slot per key, the slot at `i` is what the view shows for its key.
proof fn lemma_slot_in_view(slots: Seq<(usize, Vec<u8>)>, i: int)
    requires
        keys_unique(slots),
        0 <= i < slots.len(),
    ensures
        slots_view(slots).contains_key(slots[i].0),
        slots_view(slots)[slots[i].0] == slots[i].1@,
{
    let k = slots[i].0;
    assert(0 <= i < slots.len() && slots[i].0 == k);
    let c = choose|j: int| 0 <= j < slots.len() && slots[j].0 == k;
    if c < i {
        assert(slots[c].0 != slots[i].0);
    } else if i < c {
        assert(slots[i].0 != slots[c].0);
    }
}

/// The slots as (handler key, bytes) pairs, in table order.
spec fn slots_entries(slots: Seq<(usize, Vec<u8>)>) -> Seq<(usize, Seq<u8>)> {
    slots.map_values(|e: (usize, Vec<u8>)| (e.0, e.1@))
}

/// No two entries share a handler key.
pub open spec fn one_entry_per_key(entries: Seq<(usize, Seq<u8>)>) -> bool {
    forall|i: int, j: int| 0 <= i < j < entries.len() ==> entries[i].0 != entries[j].0
}

/// Whether an entry belongs to a handler other than `key`.
pub open spec fn other_key(key: usize) -> spec_fn((usize, Seq<u8>)) -> bool {
    |e: (usize, Seq<u8>)| e.0 != key
}

/// The entries after storing `bytes` for `key`: the entry for `key` takes the
/// new bytes in its place when there is one; otherwise a new entry goes last.
pub open spec fn entries_after_store(
    entries: Seq<(usize, Seq<u8>)>,
    key: usize,
    bytes: Seq<u8>,
) -> Seq<(usize, Seq<u8>)> {
    if exists|i: int| 0 <= i < entries.len() && entries[i].0 == key {
        entries.update(choose|i: int| 0 <= i < entries.len() && entries[i].0 == key, (key, bytes))
    } else {
        entries.push((key, bytes))
    }
}

/// Filtering with a predicate that every element meets keeps the sequence.
proof fn lemma_filter_keeps_all(s: Seq<(usize, Seq<u8>)>, pred: spec_fn((usize, Seq<u8>)) -> bool)
    requires
        forall|i: int| 0 <= i < s.len() ==> pred(#[trigger] s[i]),
    ensures
        s.filter(pred) == s,
    decreases s.len(),
{
    reveal(Seq::filter);
    if s.len() > 0 {
        lemma_filter_keeps_all(s.drop_last(), pred);
        assert(s.drop_last().push(s.last()) =~= s);
    }
}

/// With one entry per key, dropping the entries of `key` removes just the
/// entry at `i` and keeps the others in order.
proof fn lemma_filter_out_key(s: Seq<(usize, Seq<u8>)>, key: usize, i: int)
    requires
        one_entry_per_key(s),
        0 <= i < s.len(),
        s[i].0 == key,
    ensures
        s.filter(other_key(key)) == s.remove(i),
{
    let a = s.take(i);
    let b = s.skip(i + 1);
    assert(s =~= a + seq![s[i]] + b);
    assert forall|j: int| 0 <= j < a.len() implies other_key(key)(#[trigger] a[j]) by {
        assert(s[j].0 != s[i].0);
    }
    assert forall|j: int| 0 <= j < b.len() implies other_key(key)(#[trigger] b[j]) by {
        assert(s[i].0 != s[i + 1 + j].0);
    }
    lemma_filter_keeps_all(a, other_key(key));
    lemma_filter_keeps_all(b, other_key(key));
    reveal(Seq::filter);
    assert(seq![s[i]].drop_last() =~= Seq::<(usize, Seq<u8>)>::empty());
    assert(seq![s[i]].drop_last().filter(other_key(key)) =~= Seq::<(usize, Seq<u8>)>::empty());
    assert(!other_key(key)(seq![s[i]].last()));
    assert(seq![s[i]].filter(other_key(key)) =~= Seq::<(usize, Seq<u8>)>::empty());
    Seq::filter_distributes_over_add(a + seq![s[i]], b, other_key(key));
    Seq::filter_distributes_over_add(a, seq![s[i]], other_key(key));
    assert(s.remove(i) =~= a + b);
}

/// Without an entry for `key`, dropping the entries of `key` keeps them all.
proof fn lemma_filter_absent_key(s: Seq<(usize, Seq<u8>)>, key: usize)
    requires
        forall|j: int| 0 <= j < s.len() ==> s[j].0 != key,
    ensures
        s.filter(other_key(key)) == s,
{
    assert forall|j: int| 0 <= j < s.len() implies other_key(key)(#[trigger] s[j]) by {}
    lemma_filter_keeps_all(s, other_key(key));
}

impl View for ScratchTable {
    type V = Map<usize, Seq<u8>>;

    /// Each handler key with a slot, mapped to the bytes in that slot.
    closed spec fn view(&self) -> Map<usize, Seq<u8>> {
        slots_view(self.slots@)
    }
}

impl ScratchTable {
    /// The slots, in table order, each as its handler key and bytes.
    pub closed spec fn entries(&self) -> Seq<(usize, Seq<u8>)> {
        slots_entries(self.slots@)
    }

    /// No two slots belong to the same handler.
    #[verifier::type_invariant]
    closed spec fn one_slot_per_key(self) -> bool {
        keys_unique(self.slots@)
    }

    /// A table with no slots.
    pub fn new() -> (t: Self)
        ensures
            t@ == Map::<usize, Seq<u8>>::empty(),
            t.entries() == Seq::<(usize, Seq<u8>)>::empty(),
    {
        let t = ScratchTable { slots: Vec::new() };
        assert(t@ =~= Map::<usize, Seq<u8>>::empty());
        assert(t.entries() =~= Seq::<(usize, Seq<u8>)>::empty());
        t
    }

    /// Position of the slot for `key`, if there is one.
    fn position(&self, key: usize) -> (pos: Option<usize>)
        ensures
            pos matches Some(i) ==> i < self.slots@.len() && self.slots@[i as int].0 == key,
            pos is None ==> forall|i: int| 0 <= i < self.slots@.len() ==> self.slots@[i].0 != key,
    {
        let mut i: usize = 0;
        while i < self.slots.len()
            invariant
                i <= self.slots@.len(),
                forall|j: int| 0 <= j < i ==> self.slots@[j].0 != key,
            decreases self.slots@.len() - i,
        {
            if self.slots[i].0 == key {
                return Some(i);
            }
            i = i + 1;
        }
        None
    }

    /// The bytes in the slot for `key`, if it has one.
    pub fn get(&self, key: usize) -> (bytes: Option<&Vec<u8>>)
        ensures
            bytes matches Some(b) ==> self@.contains_key(key) && b@ == self@[key],
            bytes is None ==> !self@.contains_key(key),
    {
        proof {
            use_type_invariant(self);
        }
        match self.position(key) {
            Some(i) => {
                proof {
                    lemma_slot_in_view(self.slots@, i as int);
                }
                Some(&self.slots[i].1)
            },
            None => None,
        }
    }

    /// Keeps the C-string form of `text` as `key`'s only slot, replacing the
    /// slot's previous bytes if it had any.
    pub fn store(&mut self, key: usize, text: &[u8])
        ensures
            final(self)@ == old(self)@.insert(key, scratch_bytes(text@)),
            final(self).entries() == entries_after_store(old(self).entries(), key, scratch_bytes(text@)),
            one_entry_per_key(final(self).entries()),
    {
        proof {
            use_type_invariant(&*self);
        }
        let bytes = match c_string(text) {
            Some(c) => c,
            None => vec![0u8],
        };
        let ghost old_slots = self.slots@;
        let ghost old_view = self@;
        let pos = self.position(key);
        let mut slots: Vec<(usize, Vec<u8>)> = Vec::new();
        std::mem::swap(&mut slots, &mut self.slots);
        match pos {
            Some(i) => {
                slots.set(i, (key, bytes));
            },
            None => {
                slots.push((key, bytes));
            },
        }
        proof {
            let new_slots = slots@;
            let target = old_view.insert(key, scratch_bytes(text@));
            assert(keys_unique(new_slots));
            assert forall|k: usize| #[trigger] slots_view(new_slots).contains_key(k) <==> target.contains_key(k) by {
                if k != key {
                    if slots_view(new_slots).contains_key(k) {
                        let j = choose|j: int| 0 <= j < new_slots.len() && new_slots[j].0 == k;
                        assert(0 <= j < old_slots.len() && old_slots[j].0 == k);
                    }
                    if old_view.contains_key(k) {
                        let j = choose|j: int| 0 <= j < old_slots.len() && old_slots[j].0 == k;
                        assert(0 <= j < new_slots.len() && new_slots[j].0 == k);
                    }
                } else {
                    let j = match pos { Some(i) => i as int, None => old_slots.len() as int };
                    assert(0 <= j < new_slots.len() && new_slots[j].0 == k);
                }
            }
            assert forall|k: usize| #[trigger] target.contains_key(k) implies slots_view(new_slots)[k] == target[k] by {
                if k != key {
                    let j = choose|j: int| 0 <= j < old_slots.len() && old_slots[j].0 == k;
                    lemma_slot_in_view(old_slots, j);
                    lemma_slot_in_view(new_slots, j);
                } else {
                    let j = match pos { Some(i) => i as int, None => old_slots.len() as int };
                    lemma_slot_in_view(new_slots, j);
                }
            }
            assert(slots_view(new_slots) =~= target);
            let old_entries = slots_entries(old_slots);
            let b = scratch_bytes(text@);
            assert(bytes@ == b);
            match pos {
                Some(i) => {
                    assert(slots_entries(new_slots) =~= old_entries.update(i as int, (key, b)));
                    assert(0 <= i < old_entries.len() && old_entries[i as int].0 == key);
                    let c = choose|j: int| 0 <= j < old_entries.len() && old_entries[j].0 == key;
                    if c != i as int {
                        assert(old_slots[c].0 == old_slots[i as int].0);
                    }
                },
                None => {
                    assert(slots_entries(new_slots) =~= old_entries.push((key, b)));
                    assert(!(exists|j: int| 0 <= j < old_entries.len() && old_entries[j].0 == key));
                },
            }
            assert(slots_entries(new_slots) == entries_after_store(old_entries, key, b));
            assert(one_entry_per_key(slots_entries(new_slots)));
        }
        self.slots = slots;
    }

    /// Drops the slot for `key`, if any; other handlers keep theirs.
    pub fn forget(&mut self, key: usize)
        ensures
            final(self)@ == old(self)@.remove(key),
            final(self).entries() == old(self).entries().filter(other_key(key)),
            one_entry_per_key(final(self).entries()),
    {
        proof {
            use_type_invariant(&*self);
        }
        let ghost old_slots = self.slots@;
        let ghost old_view = self@;
        match self.position(key) {
            Some(i) => {
                let mut slots: Vec<(usize, Vec<u8>)> = Vec::new();
                std::mem::swap(&mut slots, &mut self.slots);
                slots.remove(i);
                proof {
                    let new_slots = slots@;
                    let target = old_view.remove(key);
                    assert(new_slots =~= old_slots.remove(i as int));
                    assert(keys_unique(new_slots));
                    assert forall|k: usize| #[trigger] slots_view(new_slots).contains_key(k) <==> target.contains_key(k) by {
                        if slots_view(new_slots).contains_key(k) {
                            let j = choose|j: int| 0 <= j < new_slots.len() && new_slots[j].0 == k;
                            if j < i {
                                assert(0 <= j < old_slots.len() && old_slots[j].0 == k);
                                assert(old_slots[j].0 != old_slots[i as int].0);
                            } else {
                                assert(0 <= j + 1 < old_slots.len() && old_slots[j + 1].0 == k);
                                assert(old_slots[i as int].0 != old_slots[j + 1].0);
                            }
                        }
                        if target.contains_key(k) {
                            let j = choose|j: int| 0 <= j < old_slots.len() && old_slots[j].0 == k;
                            assert(j != i);
                            if j < i {
                                assert(0 <= j < new_slots.len() && new_slots[j].0 == k);
                            } else {
                                assert(0 <= j - 1 < new_slots.len() && new_slots[j - 1].0 == k);
                            }
                        }
                    }
                    assert forall|k: usize| #[trigger] target.contains_key(k) implies slots_view(new_slots)[k] == target[k] by {
                        let j = choose|j: int| 0 <= j < old_slots.len() && old_slots[j].0 == k;
                        assert(j != i);
                        lemma_slot_in_view(old_slots, j);
                        if j < i {
                            lemma_slot_in_view(new_slots, j);
                        } else {
                            lemma_slot_in_view(new_slots, j - 1);
                        }
                    }
                    assert(slots_view(new_slots) =~= target);
                    let old_entries = slots_entries(old_slots);
                    assert(slots_entries(new_slots) =~= old_entries.remove(i as int));
                    assert(one_entry_per_key(old_entries));
                    lemma_filter_out_key(old_entries, key, i as int);
                    assert(one_entry_per_key(slots_entries(new_slots)));
                }
                self.slots = slots;
            },
            None => {
                assert(old_view.remove(key) =~= old_view);
                proof {
                    let old_entries = slots_entries(old_slots);
                    assert(one_entry_per_key(old_entries));
                    lemma_filter_absent_key(old_entries, key);
                }
            },
        }
    }
}

/// What the native parser receives for a handler's answer.
pub enum ParserAnswer<'a> {
    /// No value: the callback returns `false` with both output slots null.
    Unset,
    /// The callback returns `true` with the component slot set to this
    /// address and the string slot null.
    Component(usize),
    /// The callback returns `true` with the string slot pointing at these
    /// NUL-terminated bytes, kept in the scratch table, and the component slot
    /// null.
    Text(&'a Vec<u8>),
}

/// Turns the answer of the handler registered at `handler` into what the
/// native parser receives. Text is copied into that handler's scratch slot,
/// replacing its previous text, and handed out from there; the table is left
/// as it was for the other answers.
pub fn answer_for_parser<'t>(
    table: &'t mut ScratchTable,
    handler: usize,
    value: MarkupValue<'_>,
) -> (answer: ParserAnswer<'t>)
    requires
        value matches MarkupValue::Component(a) ==> a != 0,
    ensures
        value is Unset ==> answer is Unset && final(table)@ == old(table)@ && final(table).entries()
            == old(table).entries(),
        value matches MarkupValue::Component(a) ==> answer == ParserAnswer::Component(a)
            && final(table)@ == old(table)@ && final(table).entries() == old(table).entries(),
        value matches MarkupValue::String(s) ==> final(table)@ == old(table)@.insert(
            handler,
            scratch_bytes(s.spec_bytes()),
        ) && final(table).entries() == entries_after_store(
            old(table).entries(),
            handler,
            scratch_bytes(s.spec_bytes()),
        ) && (answer matches ParserAnswer::Text(b) && b@ == scratch_bytes(s.spec_bytes())
            && final(table)@[handler] == b@),
{
    match value {
        MarkupValue::Unset => ParserAnswer::Unset,
        MarkupValue::Component(address) => ParserAnswer::Component(address),
        MarkupValue::String(s) => {
            table.store(handler, s.as_bytes());
            let stored: &'t ScratchTable = table;
            match stored.get(handler) {
                Some(bytes) => ParserAnswer::Text(bytes),
                None => ParserAnswer::Unset,
            }
        },
    }
}

/// Every slot holds a well-formed C string: a single NUL, at the end,
/// preceded by the handler's text when that text holds no NUL, and by
/// nothing otherwise.
pub proof fn lemma_scratch_bytes_c_string(text: Seq<u8>)
    ensures
        scratch_bytes(text).len() >= 1,
        scratch_bytes(text).last() == 0u8,
        !scratch_bytes(text).drop_last().contains(0u8),
        !text.contains(0u8) ==> scratch_bytes(text).drop_last() == text,
        text.contains(0u8) ==> scratch_bytes(text) == seq![0u8],
{
    lemma_c_string_terminated(text);
    if text.contains(0u8) {
        assert(seq![0u8].drop_last() =~= Seq::<u8>::empty());
    }
}

/// After a store for `key`, reading `key`'s slot gives the C string of the
/// stored text, and every other handler's slot is as it was.
pub proof fn lemma_store_then_get(
    before: ScratchTable,
    after: ScratchTable,
    key: usize,
    text: Seq<u8>,
    other: usize,
)
    requires
        after@ == before@.insert(key, scratch_bytes(text)),
    ensures
        after@.contains_key(key),
        after@[key] == scratch_bytes(text),
        other != key ==> (after@.contains_key(other) <==> before@.contains_key(other)),
        other != key && before@.contains_key(other) ==> after@[other] == before@[other],
{
}

/// Storing twice for one handler leaves one slot, with the later text: the
/// table does not grow with repeated callbacks.
pub proof fn lemma_store_twice(
    before: ScratchTable,
    middle: ScratchTable,
    after: ScratchTable,
    key: usize,
    first: Seq<u8>,
    second: Seq<u8>,
)
    requires
        middle@ == before@.insert(key, scratch_bytes(first)),
        after@ == middle@.insert(key, scratch_bytes(second)),
    ensures
        after@ == before@.insert(key, scratch_bytes(second)),
        after@.dom() == middle@.dom(),
{
    assert(after@ =~= before@.insert(key, scratch_bytes(second)));
    assert(after@.dom() =~= middle@.dom());
}

/// Storing for one handler keeps one entry per handler and gives that handler
/// an entry holding the new bytes; every other handler's entry stays, unchanged
/// and in its order, and nothing else is added.
pub proof fn lemma_store_keeps_others_in_order(
    entries: Seq<(usize, Seq<u8>)>,
    key: usize,
    bytes: Seq<u8>,
)
    requires
        one_entry_per_key(entries),
    ensures
        one_entry_per_key(entries_after_store(entries, key, bytes)),
        entries_after_store(entries, key, bytes).contains((key, bytes)),
        entries_after_store(entries, key, bytes).filter(other_key(key)) == entries.filter(
            other_key(key),
        ),
{
    let after = entries_after_store(entries, key, bytes);
    if exists|i: int| 0 <= i < entries.len() && entries[i].0 == key {
        let i = choose|i: int| 0 <= i < entries.len() && entries[i].0 == key;
        assert(after == entries.update(i, (key, bytes)));
        assert(after[i] == (key, bytes));
        lemma_filter_out_key(entries, key, i);
        lemma_filter_out_key(after, key, i);
        assert(after.remove(i) =~= entries.remove(i));
    } else {
        assert(after == entries.push((key, bytes)));
        assert(after[entries.len() as int] == (key, bytes));
        reveal(Seq::filter);
        assert(after.drop_last() =~= entries);
    }
}

/// After a forget for `key`, `key` has no slot and every other handler's
/// slot is as it was.
pub proof fn lemma_forget_then_get(before: ScratchTable, after: ScratchTable, key: usize, other: usize)
    requires
        after@ == before@.remove(key),
    ensures
        !after@.contains_key(key),
        other != key ==> (after@.contains_key(other) <==> before@.contains_key(other)),
        other != key && before@.contains_key(other) ==> after@[other] == before@[other],
{
}

} // verus!
