//! The VMT overlay and the process-wide overlay registry.
//!
//! An *overlay* ([`HookInstance`]) is the per-instance state of the hook
//! manager: a snapshot of the instance's original function table, a writable
//! clone of it, the closures installed per slot, and the slots of the live
//! hook handles. The [`InstanceRegistry`] deduplicates overlays per instance
//! address and drives the handle lifecycle: the first install builds the
//! overlay, the drop of the last handle detaches it for teardown.
//!
//! All state here is plain values. The caller owns the raw-memory rim: it
//! reads the table words that `HookInstance::new` scans, points the hooked
//! object's first word at the clone returned by [`HookInstance::clone_table_ref`],
//! and writes `original_table` back into the instance's first word when
//! [`InstanceRegistry::drop_handle`] hands the overlay back — before letting
//! the overlay (and with it the clone's memory) go.

pub mod thunk;

use vstd::prelude::*;

verus! {

/// Cap on the table scan: a table whose null terminator is not found within
/// this many words is rejected as malformed.
pub const TABLE_SCAN_LIMIT: usize = 4096;

/// Everything the hooking core can fail with.
#[derive(Debug, Clone, PartialEq, Eq)]
pub enum HookError {
    /// No null terminator was found among the `scanned` table words.
    TableLayout { scanned: usize },
    /// The requested slot index is not below the table length.
    SlotOutOfRange { slot: usize, len: usize },
    /// The JIT refused to declare, define or finalize a trampoline; the
    /// message is the underlying diagnostic, preserved unchanged.
    CodeGen { message: String },
}

/// One installed hook in an overlay: the type-erased closure address and the
/// trampoline address written into the clone table at the hooked slot.
#[derive(Debug, Clone, Copy, PartialEq, Eq, Structural)]
pub struct ClosureEntry {
    pub closure: usize,
    pub trampoline: usize,
}

/// Check that `index` denotes a slot of a table of length `max`.
pub fn ensure_range(index: usize, max: usize) -> (r: Result<(), HookError>)
    ensures
        r is Ok <==> index < max,
        r is Err ==> r == Err::<(), HookError>(HookError::SlotOutOfRange { slot: index, len: max }),
{
    if index < max {
        Ok(())
    } else {
        Err(HookError::SlotOutOfRange { slot: index, len: max })
    }
}

/// `i` is the index of the first null word of `words`: the table's length.
pub open spec fn is_first_null(words: Seq<usize>, i: int) -> bool {
    &&& 0 <= i < words.len()
    &&& words[i] == 0
    &&& forall|j: int| 0 <= j < i ==> words[j] != 0
}

/// What a slot of the clone table must show: the trampoline where a hook is
/// installed, the original entry everywhere else.
pub open spec fn slot_value(entry: Option<ClosureEntry>, original: usize) -> usize {
    match entry {
        Some(e) => e.trampoline,
        None => original,
    }
}

/// Per-instance overlay: the clone of one instance's function table together
/// with the hooks installed in it.
pub struct HookInstance {
    instance: usize,
    original_table: usize,
    original_functions: Vec<usize>,
    new_table: Vec<usize>,
    closures: Vec<Option<ClosureEntry>>,
    handles: Vec<usize>,
}

impl HookInstance {
    /// Address of the hooked object (the word we rewrote lives there).
    pub closed spec fn instance_ptr(self) -> usize {
        self.instance
    }

    /// Address of the object's own table. Never written through; the caller
    /// restores the instance's first word to it at teardown.
    pub closed spec fn original_table_ptr(self) -> usize {
        self.original_table
    }

    /// Snapshot of the original table entries, one per slot.
    pub closed spec fn originals(self) -> Seq<usize> {
        self.original_functions@
    }

    /// The writable clone the instance's first word points at.
    pub closed spec fn table(self) -> Seq<usize> {
        self.new_table@
    }

    /// The installed closures, indexed by slot.
    pub closed spec fn closure_map(self) -> Seq<Option<ClosureEntry>> {
        self.closures@
    }

    /// Slots of the live hook handles, one element per handle.
    pub closed spec fn handle_slots(self) -> Seq<usize> {
        self.handles@
    }

    /// The table length, fixed at construction.
    pub open spec fn len(self) -> nat {
        self.originals().len()
    }

    pub open spec fn wf(self) -> bool {
        &&& self.table().len() == self.len()
        &&& self.closure_map().len() == self.len()
        &&& forall|i: int| 0 <= i < self.len() ==> self.originals()[i] != 0
        &&& forall|i: int|
            0 <= i < self.handle_slots().len() ==> (#[trigger] self.handle_slots()[i]) < self.len()
    }

    /// Overlay discipline: a hooked slot shows its trampoline, every other
    /// slot still shows the original entry.
    pub open spec fn consistent(self) -> bool {
        forall|i: int|
            0 <= i < self.len() ==> #[trigger] self.table()[i] == slot_value(
                self.closure_map()[i],
                self.originals()[i],
            )
    }

    /// The two overlays hold the same state, component by component.
    pub open spec fn state_eq(self, other: HookInstance) -> bool {
        &&& self.instance_ptr() == other.instance_ptr()
        &&& self.original_table_ptr() == other.original_table_ptr()
        &&& self.originals() == other.originals()
        &&& self.table() == other.table()
        &&& self.closure_map() == other.closure_map()
        &&& self.handle_slots() == other.handle_slots()
    }

    /// Index of the first null word of `words`, or `None` if the scan found
    /// no terminator.
    pub fn count_funcs(words: &Vec<usize>) -> (r: Option<usize>)
        ensures
            match r {
                Some(i) => is_first_null(words@, i as int),
                None => forall|j: int| 0 <= j < words@.len() ==> words@[j] != 0,
            },
    {
        let mut i: usize = 0;
        while i < words.len()
            invariant
                i <= words@.len(),
                forall|j: int| 0 <= j < i ==> words@[j] != 0,
            decreases words@.len() - i,
        {
            if words[i] == 0 {
                return Some(i);
            }
            i = i + 1;
        }
        None
    }

    /// Build the overlay state for `instance_ptr` whose table lives at
    /// `original_table`: find the table length (the first null word of
    /// `words`, the snapshot the caller read there) and clone the entries
    /// before it. No hooks and no handles exist yet.
    pub fn new(instance_ptr: usize, original_table: usize, words: &Vec<usize>) -> (r: Result<
        HookInstance,
        HookError,
    >)
        ensures
            match r {
                Ok(h) => {
                    &&& h.wf()
                    &&& h.consistent()
                    &&& h.instance_ptr() == instance_ptr
                    &&& h.original_table_ptr() == original_table
                    &&& is_first_null(words@, h.len() as int)
                    &&& h.originals() == words@.take(h.len() as int)
                    &&& h.table() == h.originals()
                    &&& forall|i: int| 0 <= i < h.len() ==> h.closure_map()[i] is None
                    &&& h.handle_slots() == Seq::<usize>::empty()
                },
                Err(e) => {
                    &&& e == (HookError::TableLayout { scanned: words.len() })
                    &&& forall|j: int| 0 <= j < words@.len() ==> words@[j] != 0
                },
            },
    {
        match Self::count_funcs(words) {
            None => Err(HookError::TableLayout { scanned: words.len() }),
            Some(len) => {
                let mut original_functions: Vec<usize> = Vec::new();
                let mut new_table: Vec<usize> = Vec::new();
                let mut closures: Vec<Option<ClosureEntry>> = Vec::new();
                let mut k: usize = 0;
                while k < len
                    invariant
                        k <= len,
                        is_first_null(words@, len as int),
                        original_functions@ == words@.take(k as int),
                        new_table@ == original_functions@,
                        closures@.len() == k,
                        forall|i: int| 0 <= i < k ==> closures@[i] is None,
                    decreases len - k,
                {
                    let w = words[k];
                    original_functions.push(w);
                    new_table.push(w);
                    closures.push(None);
                    proof {
                        assert(words@.take(k + 1 as int) =~= words@.take(k as int).push(
                            words@[k as int],
                        ));
                    }
                    k = k + 1;
                }
                Ok(
                    HookInstance {
                        instance: instance_ptr,
                        original_table,
                        original_functions,
                        new_table,
                        closures,
                        handles: Vec::new(),
                    },
                )
            },
        }
    }

    /// The clone table, for the caller that must point the instance's first
    /// word at its storage.
    pub fn clone_table_ref(&self) -> (t: &Vec<usize>)
        ensures
            t@ == self.table(),
    {
        &self.new_table
    }

    /// Address of the hooked object.
    pub fn instance_addr(&self) -> (r: usize)
        ensures
            r == self.instance_ptr(),
    {
        self.instance
    }

    /// Address of the object's own table, for the teardown write.
    pub fn original_table_addr(&self) -> (r: usize)
        ensures
            r == self.original_table_ptr(),
    {
        self.original_table
    }

    /// How many handles are live on this overlay.
    pub fn handle_count(&self) -> (r: usize)
        ensures
            r == self.handle_slots().len(),
    {
        self.handles.len()
    }

    /// The table length.
    pub fn table_len(&self) -> (r: usize)
        ensures
            r == self.table().len(),
    {
        self.new_table.len()
    }

    /// Type-erased closure address stored for `index`. An absent entry is the
    /// caller's programming error, ruled out here.
    pub fn closure(&self, index: usize) -> (r: usize)
        requires
            self.wf(),
            index < self.len(),
            self.closure_map()[index as int] is Some,
        ensures
            r == self.closure_map()[index as int]->Some_0.closure,
    {
        self.closures[index].unwrap().closure
    }

    /// The original function address for a slot, read from the snapshot.
    pub fn original_function(&self, index: usize) -> (r: usize)
        requires
            index < self.originals().len(),
        ensures
            r == self.originals()[index as int],
    {
        self.original_functions[index]
    }

    /// What the generic dispatcher reads under the overlay lock: the closure
    /// address and the original function address for a slot. Total: the
    /// dispatcher checks the result at run time instead of trusting its
    /// caller.
    pub fn dispatch_lookup(&self, index: usize) -> (r: Option<(usize, usize)>)
        requires
            self.wf(),
        ensures
            match r {
                Some(p) => {
                    &&& index < self.len()
                    &&& self.closure_map()[index as int] is Some
                    &&& p.0 == self.closure_map()[index as int]->Some_0.closure
                    &&& p.1 == self.originals()[index as int]
                },
                None => index >= self.len() || self.closure_map()[index as int] is None,
            },
    {
        if index < self.closures.len() {
            match self.closures[index] {
                Some(e) => Some((e.closure, self.original_functions[index])),
                None => None,
            }
        } else {
            None
        }
    }

    /// Install `f` at `index` in the clone table. Every other slot keeps its
    /// value; nothing else of the overlay changes.
    pub fn hook_function(&mut self, index: usize, f: usize) -> (r: Result<(), HookError>)
        requires
            old(self).wf(),
        ensures
            final(self).wf(),
            final(self).instance_ptr() == old(self).instance_ptr(),
            final(self).original_table_ptr() == old(self).original_table_ptr(),
            final(self).originals() == old(self).originals(),
            final(self).closure_map() == old(self).closure_map(),
            final(self).handle_slots() == old(self).handle_slots(),
            match r {
                Ok(()) => {
                    &&& index < old(self).len()
                    &&& final(self).table() == old(self).table().update(index as int, f)
                },
                Err(e) => {
                    &&& index >= old(self).len()
                    &&& e == (HookError::SlotOutOfRange { slot: index, len: old(self).table().len() as usize })
                    &&& final(self).table() == old(self).table()
                },
            },
    {
        match ensure_range(index, self.new_table.len()) {
            Ok(()) => {
                self.new_table.set(index, f);
                proof {
                    assert(self.handle_slots() == old(self).handle_slots());
                }
                Ok(())
            },
            Err(e) => Err(e),
        }
    }

    /// Restore the original entry at `index` in the clone table.
    pub fn unhook_function(&mut self, index: usize) -> (r: Result<(), HookError>)
        requires
            old(self).wf(),
        ensures
            final(self).wf(),
            final(self).instance_ptr() == old(self).instance_ptr(),
            final(self).original_table_ptr() == old(self).original_table_ptr(),
            final(self).originals() == old(self).originals(),
            final(self).closure_map() == old(self).closure_map(),
            final(self).handle_slots() == old(self).handle_slots(),
            match r {
                Ok(()) => {
                    &&& index < old(self).len()
                    &&& final(self).table() == old(self).table().update(
                        index as int,
                        old(self).originals()[index as int],
                    )
                },
                Err(e) => {
                    &&& index >= old(self).len()
                    &&& e == (HookError::SlotOutOfRange { slot: index, len: old(self).table().len() as usize })
                    &&& final(self).table() == old(self).table()
                },
            },
    {
        match ensure_range(index, self.new_table.len()) {
            Ok(()) => {
                let orig = self.original_functions[index];
                self.new_table.set(index, orig);
                proof {
                    assert(self.handle_slots() == old(self).handle_slots());
                }
                Ok(())
            },
            Err(e) => Err(e),
        }
    }

    /// Install a hook: write the trampoline into the clone at `index` and
    /// record the closure for the dispatcher. Replaces any prior entry at the
    /// slot. On error nothing changes.
    pub fn hook_function_with_closure(&mut self, index: usize, closure: usize, trampoline: usize) -> (r:
        Result<(), HookError>)
        requires
            old(self).wf(),
        ensures
            final(self).wf(),
            final(self).instance_ptr() == old(self).instance_ptr(),
            final(self).original_table_ptr() == old(self).original_table_ptr(),
            final(self).originals() == old(self).originals(),
            final(self).handle_slots() == old(self).handle_slots(),
            match r {
                Ok(()) => {
                    &&& index < old(self).len()
                    &&& final(self).table() == old(self).table().update(index as int, trampoline)
                    &&& final(self).closure_map() == old(self).closure_map().update(
                        index as int,
                        Some(ClosureEntry { closure, trampoline }),
                    )
                },
                Err(e) => {
                    &&& index >= old(self).len()
                    &&& e == (HookError::SlotOutOfRange { slot: index, len: old(self).table().len() as usize })
                    &&& final(self).table() == old(self).table()
                    &&& final(self).closure_map() == old(self).closure_map()
                },
            },
            old(self).consistent() ==> final(self).consistent(),
    {
        match self.hook_function(index, trampoline) {
            Ok(()) => {
                self.closures.set(index, Some(ClosureEntry { closure, trampoline }));
                Ok(())
            },
            Err(e) => Err(e),
        }
    }

    /// Remove a hook: restore the original entry at `index` and forget the
    /// stored closure. On error nothing changes.
    pub fn unhook_function_with_closure(&mut self, index: usize) -> (r: Result<(), HookError>)
        requires
            old(self).wf(),
        ensures
            final(self).wf(),
            final(self).instance_ptr() == old(self).instance_ptr(),
            final(self).original_table_ptr() == old(self).original_table_ptr(),
            final(self).originals() == old(self).originals(),
            final(self).handle_slots() == old(self).handle_slots(),
            match r {
                Ok(()) => {
                    &&& index < old(self).len()
                    &&& final(self).table() == old(self).table().update(
                        index as int,
                        old(self).originals()[index as int],
                    )
                    &&& final(self).closure_map() == old(self).closure_map().update(
                        index as int,
                        Option::<ClosureEntry>::None,
                    )
                },
                Err(e) => {
                    &&& index >= old(self).len()
                    &&& e == (HookError::SlotOutOfRange { slot: index, len: old(self).table().len() as usize })
                    &&& final(self).table() == old(self).table()
                    &&& final(self).closure_map() == old(self).closure_map()
                },
            },
            old(self).consistent() ==> final(self).consistent(),
    {
        match self.unhook_function(index) {
            Ok(()) => {
                self.closures.set(index, None);
                Ok(())
            },
            Err(e) => Err(e),
        }
    }
}

/// Slot independence: an installation that rewrote one slot left every other
/// slot's entry — and with it every other slot's behavior — exactly as it
/// was.
pub proof fn lemma_slot_independence(
    before: HookInstance,
    after: HookInstance,
    slot: usize,
    entry: usize,
)
    requires
        (slot as int) < before.table().len(),
        after.table() == before.table().update(slot as int, entry),
    ensures
        after.table().len() == before.table().len(),
        forall|j: int|
            0 <= j < after.table().len() && j != slot ==> after.table()[j] == before.table()[j],
{
}

/// The table half of the round-trip law: installing a trampoline at a slot
/// and then restoring the slot leaves the table exactly as it began, so a
/// hook that only delegates leaves no trace once dropped. (What the
/// delegating closure returns while it is installed is the dispatcher's
/// business, outside this model.)
pub proof fn lemma_install_restore_round_trip(
    originals: Seq<usize>,
    slot: int,
    trampoline: usize,
)
    requires
        0 <= slot < originals.len(),
    ensures
        originals.update(slot, trampoline).update(slot, originals[slot]) == originals,
{
    assert(originals.update(slot, trampoline).update(slot, originals[slot]) =~= originals);
}

/// A hooked slot can always be undone back to the original table: once every
/// closure is removed, the clone is entry-for-entry the original snapshot.
pub proof fn lemma_restored_when_unhooked(h: HookInstance)
    requires
        h.wf(),
        h.consistent(),
        forall|i: int| 0 <= i < h.len() ==> h.closure_map()[i] is None,
    ensures
        h.table() == h.originals(),
{
    assert(h.table() =~= h.originals());
}

/// The caller-facing lifetime token: exactly one exists per successful
/// install. It is not copyable; it is surrendered exactly once, to
/// [`InstanceRegistry::drop_handle`].
#[derive(Debug, PartialEq, Eq, Structural)]
pub struct HookHandle {
    pub instance_ptr: usize,
    pub slot: usize,
}

/// The process-wide deduplicator: at most one overlay per instance address,
/// held only while at least one handle on that instance is live. The caller
/// keeps one of these behind its lock.
pub struct InstanceRegistry {
    overlays: Vec<HookInstance>,
}

impl InstanceRegistry {
    /// The recorded overlays, in creation order.
    pub closed spec fn overlays_seq(self) -> Seq<HookInstance> {
        self.overlays@
    }

    /// Some overlay is recorded for `instance`.
    pub open spec fn spec_has(self, instance: usize) -> bool {
        exists|i: int|
            0 <= i < self.overlays_seq().len() && (#[trigger] self.overlays_seq()[i]).instance_ptr()
                == instance
    }

    /// The index of the overlay recorded for `instance`; unique under `wf`.
    pub open spec fn index_of(self, instance: usize) -> int {
        choose|i: int|
            0 <= i < self.overlays_seq().len() && (#[trigger] self.overlays_seq()[i]).instance_ptr()
                == instance
    }

    /// The overlay recorded for `instance`.
    pub open spec fn overlay_for(self, instance: usize) -> HookInstance {
        self.overlays_seq()[self.index_of(instance)]
    }

    pub open spec fn wf(self) -> bool {
        &&& forall|i: int, j: int|
            0 <= i < j < self.overlays_seq().len() ==> (
            #[trigger] self.overlays_seq()[i]).instance_ptr() != (
            #[trigger] self.overlays_seq()[j]).instance_ptr()
        &&& forall|i: int|
            0 <= i < self.overlays_seq().len() ==> {
                let ov = #[trigger] self.overlays_seq()[i];
                &&& ov.wf()
                &&& ov.consistent()
                &&& ov.handle_slots().len() >= 1
            }
    }

    /// Per-instance deduplication: under `wf` there is never a second overlay
    /// for one instance — any two recorded overlays with the same instance
    /// address are the same entry.
    pub proof fn lemma_per_instance_dedup(self, i: int, j: int)
        requires
            self.wf(),
            0 <= i < self.overlays_seq().len(),
            0 <= j < self.overlays_seq().len(),
            self.overlays_seq()[i].instance_ptr() == self.overlays_seq()[j].instance_ptr(),
        ensures
            i == j,
    {
    }

    /// Any valid position for `instance` is the position `index_of` denotes.
    pub proof fn lemma_index_of(self, i: int, instance: usize)
        requires
            self.wf(),
            0 <= i < self.overlays_seq().len(),
            self.overlays_seq()[i].instance_ptr() == instance,
        ensures
            self.spec_has(instance),
            self.index_of(instance) == i,
    {
        assert(self.spec_has(instance));
        let j = self.index_of(instance);
        self.lemma_per_instance_dedup(i, j);
    }

    /// The live half of the restoration law: an overlay is recorded only
    /// while at least one handle on its instance is live. Once the last
    /// handle is dropped the registry holds nothing for the instance — the
    /// teardown that [`Self::drop_handle`] hands back has restored the
    /// instance's first word to its original table pointer.
    pub proof fn lemma_live_overlay_has_handle(self, instance: usize)
        requires
            self.wf(),
            self.spec_has(instance),
        ensures
            self.overlay_for(instance).handle_slots().len() >= 1,
    {
        let j = self.index_of(instance);
        assert(0 <= j < self.overlays_seq().len() && self.overlays_seq()[j].instance_ptr()
            == instance);
    }

    /// An empty registry: no instance is hooked.
    pub fn new() -> (r: InstanceRegistry)
        ensures
            r.wf(),
            r.overlays_seq() == Seq::<HookInstance>::empty(),
    {
        InstanceRegistry { overlays: Vec::new() }
    }

    /// Position of the overlay for `instance`, if one is recorded.
    fn find(&self, instance: usize) -> (r: Option<usize>)
        ensures
            match r {
                Some(i) => (i as int) < self.overlays_seq().len() && self.overlays_seq()[
                    i as int
                ].instance_ptr() == instance,
                None => !self.spec_has(instance),
            },
    {
        let mut i: usize = 0;
        while i < self.overlays.len()
            invariant
                i <= self.overlays@.len(),
                forall|j: int|
                    0 <= j < i ==> (#[trigger] self.overlays@[j]).instance_ptr() != instance,
            decreases self.overlays@.len() - i,
        {
            if self.overlays[i].instance_addr() == instance {
                return Some(i);
            }
            i = i + 1;
        }
        None
    }

    /// Is an overlay recorded for `instance`? When not, the next install must
    /// come through [`Self::install_first`], with the instance's table words.
    pub fn has_overlay(&self, instance: usize) -> (r: bool)
        ensures
            r == self.spec_has(instance),
    {
        match self.find(instance) {
            Some(_) => true,
            None => false,
        }
    }

    /// The overlay recorded for `instance`, readable in place.
    pub fn overlay_ref(&self, instance: usize) -> (r: Option<&HookInstance>)
        requires
            self.wf(),
        ensures
            match r {
                Some(ov) => self.spec_has(instance) && *ov == self.overlay_for(instance),
                None => !self.spec_has(instance),
            },
    {
        match self.find(instance) {
            None => None,
            Some(i) => {
                proof {
                    self.lemma_index_of(i as int, instance);
                }
                Some(&self.overlays[i])
            },
        }
    }

    /// What the generic dispatcher reads: the closure and the original
    /// function recorded for a slot of a hooked instance.
    pub fn dispatch_lookup(&self, instance: usize, slot: usize) -> (r: Option<(usize, usize)>)
        requires
            self.wf(),
        ensures
            match r {
                Some(p) => {
                    &&& self.spec_has(instance)
                    &&& (slot as int) < self.overlay_for(instance).len()
                    &&& self.overlay_for(instance).closure_map()[slot as int] is Some
                    &&& p.0 == self.overlay_for(instance).closure_map()[slot as int]->Some_0.closure
                    &&& p.1 == self.overlay_for(instance).originals()[slot as int]
                },
                None => !self.spec_has(instance) || (slot as int) >= self.overlay_for(
                    instance,
                ).len() || self.overlay_for(instance).closure_map()[slot as int] is None,
            },
    {
        match self.find(instance) {
            None => None,
            Some(i) => {
                proof {
                    self.lemma_index_of(i as int, instance);
                }
                self.overlays[i].dispatch_lookup(slot)
            },
        }
    }

    /// First hook on an instance: build the overlay from the scanned table
    /// `words`, install the trampoline at `slot`, record the closure and one
    /// handle. On any failure nothing is recorded — no partial installation
    /// is observable, and the instance's first word is never touched.
    pub fn install_first(
        &mut self,
        instance_ptr: usize,
        original_table: usize,
        words: &Vec<usize>,
        slot: usize,
        closure: usize,
        trampoline: usize,
    ) -> (r: Result<HookHandle, HookError>)
        requires
            old(self).wf(),
            !old(self).spec_has(instance_ptr),
        ensures
            final(self).wf(),
            forall|y: usize|
                y != instance_ptr ==> #[trigger] final(self).spec_has(y) == old(self).spec_has(y),
            match r {
                Ok(h) => {
                    &&& h == (HookHandle { instance_ptr, slot })
                    &&& final(self).spec_has(instance_ptr)
                    &&& final(self).index_of(instance_ptr) == old(self).overlays_seq().len()
                    &&& final(self).overlays_seq() == old(self).overlays_seq().push(
                        final(self).overlay_for(instance_ptr),
                    )
                    &&& {
                        let ov = final(self).overlay_for(instance_ptr);
                        &&& ov.instance_ptr() == instance_ptr
                        &&& ov.original_table_ptr() == original_table
                        &&& is_first_null(words@, ov.len() as int)
                        &&& ov.originals() == words@.take(ov.len() as int)
                        &&& (slot as int) < ov.len()
                        &&& ov.table() == ov.originals().update(slot as int, trampoline)
                        &&& ov.closure_map().len() == ov.len()
                        &&& ov.closure_map()[slot as int] == Some(
                            ClosureEntry { closure, trampoline },
                        )
                        &&& forall|k: int|
                            0 <= k < ov.len() && k != slot ==> ov.closure_map()[k] is None
                        &&& ov.handle_slots() == seq![slot]
                    }
                },
                Err(e) => {
                    &&& final(self).overlays_seq() == old(self).overlays_seq()
                    &&& !final(self).spec_has(instance_ptr)
                    &&& match e {
                        HookError::TableLayout { scanned } => {
                            &&& scanned == words@.len()
                            &&& forall|j: int| 0 <= j < words@.len() ==> words@[j] != 0
                        },
                        HookError::SlotOutOfRange { slot: s, len } => {
                            &&& s == slot
                            &&& is_first_null(words@, len as int)
                            &&& slot >= len
                        },
                        _ => false,
                    }
                },
            },
    {
        let mut ov = match HookInstance::new(instance_ptr, original_table, words) {
            Ok(o) => o,
            Err(e) => {
                return Err(e);
            },
        };
        match ov.hook_function_with_closure(slot, closure, trampoline) {
            Ok(()) => {},
            Err(e) => {
                return Err(e);
            },
        }
        ov.handles.push(slot);
        proof {
            assert(ov.handle_slots() =~= seq![slot]);
        }
        self.overlays.push(ov);
        proof {
            let n = old(self).overlays_seq().len();
            assert(self.overlays_seq()[n as int] == ov);
            self.lemma_index_of(n as int, instance_ptr);
            assert forall|i: int, j: int|
                0 <= i < j < self.overlays_seq().len() implies (
            #[trigger] self.overlays_seq()[i]).instance_ptr() != (
            #[trigger] self.overlays_seq()[j]).instance_ptr() by {
                if j < n {
                } else {
                    assert(self.overlays_seq()[i] == old(self).overlays_seq()[i]);
                }
            }
            assert(self.overlays_seq() =~= old(self).overlays_seq().push(
                self.overlay_for(instance_ptr),
            ));
            assert forall|y: usize| y != instance_ptr implies #[trigger] self.spec_has(y) == old(self).spec_has(y) by {
                if old(self).spec_has(y) {
                    let w = choose|i: int|
                        0 <= i < old(self).overlays_seq().len() && (#[trigger] old(self).overlays_seq()[i]).instance_ptr() == y;
                    assert(self.overlays_seq()[w].instance_ptr() == y);
                }
                if self.spec_has(y) {
                    let w = choose|i: int|
                        0 <= i < self.overlays_seq().len() && (
                        #[trigger] self.overlays_seq()[i]).instance_ptr() == y;
                    assert(w != n);
                    assert(old(self).overlays_seq()[w].instance_ptr() == y);
                }
            }
        }
        Ok(HookHandle { instance_ptr, slot })
    }

    /// A further hook on an already-hooked instance: install into the shared
    /// overlay and record one more handle. Nothing outside the instance's own
    /// overlay changes.
    pub fn install_more(
        &mut self,
        instance_ptr: usize,
        slot: usize,
        closure: usize,
        trampoline: usize,
    ) -> (r: Result<HookHandle, HookError>)
        requires
            old(self).wf(),
            old(self).spec_has(instance_ptr),
        ensures
            final(self).wf(),
            final(self).overlays_seq().len() == old(self).overlays_seq().len(),
            final(self).spec_has(instance_ptr),
            final(self).index_of(instance_ptr) == old(self).index_of(instance_ptr),
            forall|y: usize| #[trigger] final(self).spec_has(y) == old(self).spec_has(y),
            forall|k: int|
                0 <= k < old(self).overlays_seq().len() && k != old(self).index_of(instance_ptr)
                    ==> final(self).overlays_seq()[k] == old(self).overlays_seq()[k],
            match r {
                Ok(h) => {
                    &&& h == (HookHandle { instance_ptr, slot })
                    &&& {
                        let ov0 = old(self).overlay_for(instance_ptr);
                        let ov = final(self).overlay_for(instance_ptr);
                        &&& (slot as int) < ov0.len()
                        &&& ov.instance_ptr() == instance_ptr
                        &&& ov.original_table_ptr() == ov0.original_table_ptr()
                        &&& ov.originals() == ov0.originals()
                        &&& ov.table() == ov0.table().update(slot as int, trampoline)
                        &&& ov.closure_map() == ov0.closure_map().update(
                            slot as int,
                            Some(ClosureEntry { closure, trampoline }),
                        )
                        &&& ov.handle_slots() == ov0.handle_slots().push(slot)
                    }
                },
                Err(e) => {
                    &&& final(self).overlays_seq() == old(self).overlays_seq()
                    &&& e == (HookError::SlotOutOfRange {
                        slot,
                        len: old(self).overlay_for(instance_ptr).table().len() as usize,
                    })
                    &&& (slot as int) >= old(self).overlay_for(instance_ptr).len()
                },
            },
    {
        let idx = self.find(instance_ptr).unwrap();
        proof {
            self.lemma_index_of(idx as int, instance_ptr);
        }
        let len = self.overlays[idx].table_len();
        if slot >= len {
            return Err(HookError::SlotOutOfRange { slot, len });
        }
        let ghost r0 = *self;
        let mut ov = self.overlays.remove(idx);
        match ov.hook_function_with_closure(slot, closure, trampoline) {
            Ok(()) => {},
            Err(_) => {
                proof {
                    assert(false);
                }
            },
        }
        ov.handles.push(slot);
        self.overlays.insert(idx, ov);
        proof {
            Self::lemma_put_back(r0, *self, idx as int, ov);
            self.lemma_index_of(idx as int, instance_ptr);
        }
        Ok(HookHandle { instance_ptr, slot })
    }

    /// Taking the overlay at `idx` out and putting `ov` back leaves a
    /// registry that agrees with the old one everywhere but at `idx`; and
    /// when `ov` keeps the instance address and its invariants, `wf` holds
    /// again.
    proof fn lemma_put_back(r0: InstanceRegistry, r1: InstanceRegistry, idx: int, ov: HookInstance)
        requires
            r0.wf(),
            0 <= idx < r0.overlays_seq().len(),
            r1.overlays_seq() == r0.overlays_seq().remove(idx).insert(idx, ov),
            ov.instance_ptr() == r0.overlays_seq()[idx].instance_ptr(),
            ov.wf(),
            ov.consistent(),
            ov.handle_slots().len() >= 1,
        ensures
            r1.wf(),
            r1.overlays_seq().len() == r0.overlays_seq().len(),
            r1.overlays_seq() == r0.overlays_seq().update(idx, ov),
            forall|k: int|
                0 <= k < r0.overlays_seq().len() && k != idx ==> r1.overlays_seq()[k]
                    == r0.overlays_seq()[k],
            forall|y: usize| #[trigger] r1.spec_has(y) == r0.spec_has(y),
    {
        let s0 = r0.overlays_seq();
        let s1 = r1.overlays_seq();
        s0.remove_ensures(idx);
        s0.remove(idx).insert_ensures(idx, ov);
        assert(s1 =~= s0.update(idx, ov));
        assert forall|y: usize| #[trigger] r1.spec_has(y) == r0.spec_has(y) by {
            if r0.spec_has(y) {
                let w = choose|i: int|
                    0 <= i < s0.len() && (#[trigger] s0[i]).instance_ptr() == y;
                assert(s1[w].instance_ptr() == y);
            }
            if r1.spec_has(y) {
                let w = choose|i: int|
                    0 <= i < s1.len() && (#[trigger] s1[i]).instance_ptr() == y;
                assert(s0[w].instance_ptr() == y);
            }
        }
    }

    /// Position of `slot` among the live handle records.
    fn find_slot_pos(v: &Vec<usize>, slot: usize) -> (r: usize)
        requires
            v@.contains(slot),
        ensures
            (r as int) < v@.len(),
            v@[r as int] == slot,
    {
        let mut i: usize = 0;
        while i < v.len()
            invariant
                i <= v@.len(),
                forall|j: int| 0 <= j < i ==> v@[j] != slot,
            decreases v@.len() - i,
        {
            if v[i] == slot {
                return i;
            }
            i = i + 1;
        }
        proof {
            assert(false);
        }
        0
    }

    /// Drop one handle: restore its slot, forget its closure, and release its
    /// reference. When this was the instance's last handle, the overlay
    /// leaves the registry and is handed back still whole — the caller
    /// restores the instance's first word to the overlay's `original_table`
    /// first, and only then lets the overlay (with the clone's memory) go.
    /// That ordering at teardown is forced by this shape: the clone is alive
    /// as long as the returned overlay is.
    pub fn drop_handle(&mut self, handle: HookHandle) -> (r: Option<HookInstance>)
        requires
            old(self).wf(),
            old(self).spec_has(handle.instance_ptr),
            old(self).overlay_for(handle.instance_ptr).handle_slots().contains(handle.slot),
        ensures
            final(self).wf(),
            ({
                let i = old(self).index_of(handle.instance_ptr);
                let ov0 = old(self).overlays_seq()[i];
                let restored_table = ov0.table().update(
                    handle.slot as int,
                    ov0.originals()[handle.slot as int],
                );
                let cleared = ov0.closure_map().update(
                    handle.slot as int,
                    Option::<ClosureEntry>::None,
                );
                if ov0.handle_slots().len() == 1 {
                    &&& r is Some
                    &&& final(self).overlays_seq() == old(self).overlays_seq().remove(i)
                    &&& !final(self).spec_has(handle.instance_ptr)
                    &&& {
                        let ov = r->Some_0;
                        &&& ov.instance_ptr() == handle.instance_ptr
                        &&& ov.original_table_ptr() == ov0.original_table_ptr()
                        &&& ov.originals() == ov0.originals()
                        &&& ov.table() == restored_table
                        &&& ov.closure_map() == cleared
                        &&& ov.handle_slots().len() == 0
                    }
                } else {
                    &&& r is None
                    &&& final(self).spec_has(handle.instance_ptr)
                    &&& final(self).index_of(handle.instance_ptr) == i
                    &&& forall|k: int|
                        0 <= k < old(self).overlays_seq().len() && k != i ==> final(self).overlays_seq()[k] == old(self).overlays_seq()[k]
                    &&& {
                        let ov = final(self).overlays_seq()[i];
                        &&& ov.instance_ptr() == handle.instance_ptr
                        &&& ov.original_table_ptr() == ov0.original_table_ptr()
                        &&& ov.originals() == ov0.originals()
                        &&& ov.table() == restored_table
                        &&& ov.closure_map() == cleared
                        &&& exists|p: int|
                            0 <= p < ov0.handle_slots().len() && ov0.handle_slots()[p]
                                == handle.slot && ov.handle_slots() == ov0.handle_slots().remove(p)
                    }
                }
            }),
            forall|y: usize|
                y != handle.instance_ptr ==> #[trigger] final(self).spec_has(y) == old(self).spec_has(y),
    {
        let idx = self.find(handle.instance_ptr).unwrap();
        proof {
            self.lemma_index_of(idx as int, handle.instance_ptr);
        }
        let ghost r0 = *self;
        let mut ov = self.overlays.remove(idx);
        let ghost ov0 = ov;
        proof {
            let p = choose|p: int|
                0 <= p < ov.handle_slots().len() && ov.handle_slots()[p] == handle.slot;
            assert(ov.handle_slots()[p] < ov.len());
        }
        match ov.unhook_function_with_closure(handle.slot) {
            Ok(()) => {},
            Err(_) => {
                proof {
                    assert(false);
                }
            },
        }
        let pos = Self::find_slot_pos(&ov.handles, handle.slot);
        ov.handles.remove(pos);
        proof {
            ov0.handle_slots().remove_ensures(pos as int);
        }
        if ov.handles.len() == 0 {
            proof {
                let s0 = r0.overlays_seq();
                s0.remove_ensures(idx as int);
                assert forall|i: int, j: int|
                    0 <= i < j < self.overlays_seq().len() implies (
                #[trigger] self.overlays_seq()[i]).instance_ptr() != (
                #[trigger] self.overlays_seq()[j]).instance_ptr() by {
                    let a = if i < idx { i } else { i + 1 };
                    let b = if j < idx { j } else { j + 1 };
                    assert(self.overlays_seq()[i] == s0[a]);
                    assert(self.overlays_seq()[j] == s0[b]);
                }
                assert forall|i: int|
                    0 <= i < self.overlays_seq().len() implies {
                    let x = #[trigger] self.overlays_seq()[i];
                    &&& x.wf()
                    &&& x.consistent()
                    &&& x.handle_slots().len() >= 1
                } by {
                    let a = if i < idx { i } else { i + 1 };
                    assert(self.overlays_seq()[i] == s0[a]);
                }
                assert forall|y: usize| #[trigger] self.spec_has(y) implies r0.spec_has(y) by {
                    let w = choose|i: int|
                        0 <= i < self.overlays_seq().len() && (
                        #[trigger] self.overlays_seq()[i]).instance_ptr() == y;
                    let a = if w < idx { w } else { w + 1 };
                    assert(s0[a].instance_ptr() == y);
                }
                assert(!self.spec_has(handle.instance_ptr)) by {
                    if self.spec_has(handle.instance_ptr) {
                        let w = choose|i: int|
                            0 <= i < self.overlays_seq().len() && (
                            #[trigger] self.overlays_seq()[i]).instance_ptr()
                                == handle.instance_ptr;
                        let a = if w < idx { w } else { w + 1 };
                        assert(s0[a].instance_ptr() == handle.instance_ptr);
                        r0.lemma_per_instance_dedup(a, idx as int);
                    }
                }
                assert forall|y: usize| y != handle.instance_ptr && r0.spec_has(y) implies self
                    .spec_has(y) by {
                    let w = choose|i: int|
                        0 <= i < s0.len() && (#[trigger] s0[i]).instance_ptr() == y;
                    assert(s0[idx as int].instance_ptr() == handle.instance_ptr);
                    assert(w != idx);
                    let a = if w < idx { w } else { w - 1 };
                    assert(self.overlays_seq()[a] == s0[w]);
                }
            }
            Some(ov)
        } else {
            self.overlays.insert(idx, ov);
            proof {
                Self::lemma_put_back(r0, *self, idx as int, ov);
                self.lemma_index_of(idx as int, handle.instance_ptr);
            }
            None
        }
    }
}

} // verus!
