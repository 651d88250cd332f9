//! The store of raw control readings, keyed by device and raw code and kept
//! in key order (device id, then the code's text byte by byte).
use vstd::prelude::*;
use vstd::utf8::{encode_utf8, encode_utf8_decode_utf8};

use crate::input::controller::{RawControlKind, RawControlSnapshot};

verus! {

// ---------------------------------------------------------------------------
// Byte-wise text order
// ---------------------------------------------------------------------------

/// Lexicographic order on byte strings, the order of Rust's `str`: a proper
/// prefix comes first, otherwise the first differing byte decides.
pub open spec fn bytes_lt(a: Seq<u8>, b: Seq<u8>) -> bool
    decreases a.len(),
{
    if a.len() == 0 {
        b.len() > 0
    } else if b.len() == 0 {
        false
    } else if a[0] != b[0] {
        a[0] < b[0]
    } else {
        bytes_lt(a.drop_first(), b.drop_first())
    }
}

/// No byte string comes before itself.
pub proof fn lemma_bytes_lt_irreflexive(a: Seq<u8>)
    ensures
        !bytes_lt(a, a),
    decreases a.len(),
{
    if a.len() > 0 {
        lemma_bytes_lt_irreflexive(a.drop_first());
    }
}

/// The byte-string order is transitive.
pub proof fn lemma_bytes_lt_transitive(a: Seq<u8>, b: Seq<u8>, c: Seq<u8>)
    requires
        bytes_lt(a, b),
        bytes_lt(b, c),
    ensures
        bytes_lt(a, c),
    decreases a.len(),
{
    if a.len() > 0 && b.len() > 0 && c.len() > 0 && a[0] == b[0] && b[0] == c[0] {
        lemma_bytes_lt_transitive(a.drop_first(), b.drop_first(), c.drop_first());
    }
}

/// Any two byte strings are equal or ordered one way or the other.
pub proof fn lemma_bytes_lt_total(a: Seq<u8>, b: Seq<u8>)
    ensures
        a == b || bytes_lt(a, b) || bytes_lt(b, a),
    decreases a.len(),
{
    if a.len() > 0 && b.len() > 0 && a[0] == b[0] {
        lemma_bytes_lt_total(a.drop_first(), b.drop_first());
        if a.drop_first() == b.drop_first() {
            assert forall|i: int| 0 <= i < a.len() implies a[i] == b[i] by {
                if i > 0 {
                    assert(a[i] == a.drop_first()[i - 1]);
                    assert(b[i] == b.drop_first()[i - 1]);
                }
            }
            assert(a =~= b);
        }
    } else if a.len() == 0 && b.len() == 0 {
        assert(a =~= b);
    }
}

/// Result of comparing two keys.
#[derive(Debug, Clone, Copy, PartialEq, Eq, Structural)]
pub enum KeyOrder {
    Less,
    Equal,
    Greater,
}

/// Compares two byte strings lexicographically.
fn compare_bytes(a: &[u8], b: &[u8]) -> (order: KeyOrder)
    ensures
        (order == KeyOrder::Less) == bytes_lt(a@, b@),
        (order == KeyOrder::Equal) == (a@ == b@),
        (order == KeyOrder::Greater) == bytes_lt(b@, a@),
{
    proof {
        lemma_bytes_lt_irreflexive(a@);
        lemma_bytes_lt_total(a@, b@);
        if bytes_lt(a@, b@) && bytes_lt(b@, a@) {
            lemma_bytes_lt_transitive(a@, b@, a@);
        }
    }
    let mut i: usize = 0;
    assert(a@.skip(0) =~= a@);
    assert(b@.skip(0) =~= b@);
    while i < a.len() && i < b.len()
        invariant
            i <= a@.len(),
            i <= b@.len(),
            bytes_lt(a@, b@) == bytes_lt(a@.skip(i as int), b@.skip(i as int)),
            bytes_lt(b@, a@) == bytes_lt(b@.skip(i as int), a@.skip(i as int)),
            forall|k: int| 0 <= k < i ==> a@[k] == b@[k],
        decreases a@.len() - i,
    {
        assert(a@.skip(i as int)[0] == a@[i as int]);
        assert(b@.skip(i as int)[0] == b@[i as int]);
        if a[i] < b[i] {
            return KeyOrder::Less;
        }
        if a[i] > b[i] {
            return KeyOrder::Greater;
        }
        assert(a@.skip(i as int).drop_first() =~= a@.skip(i + 1));
        assert(b@.skip(i as int).drop_first() =~= b@.skip(i + 1));
        i = i + 1;
    }
    if i < b.len() {
        KeyOrder::Less
    } else if i < a.len() {
        KeyOrder::Greater
    } else {
        assert(a@ =~= b@);
        KeyOrder::Equal
    }
}

// ---------------------------------------------------------------------------
// Keys
// ---------------------------------------------------------------------------

/// A raw reading of one device.
#[derive(Debug, Clone)]
pub struct RawControlEntry {
    pub device_id: usize,
    pub snapshot: RawControlSnapshot,
}

/// The key of an entry: device id and the UTF-8 bytes of the raw code.
pub open spec fn entry_key(e: RawControlEntry) -> (usize, Seq<u8>) {
    (e.device_id, encode_utf8(e.snapshot.control@))
}

/// Key order: by device id, then by raw code text.
pub open spec fn key_lt(x: (usize, Seq<u8>), y: (usize, Seq<u8>)) -> bool {
    x.0 < y.0 || (x.0 == y.0 && bytes_lt(x.1, y.1))
}

proof fn lemma_key_lt_irreflexive(x: (usize, Seq<u8>))
    ensures
        !key_lt(x, x),
{
    lemma_bytes_lt_irreflexive(x.1);
}

proof fn lemma_key_lt_transitive(x: (usize, Seq<u8>), y: (usize, Seq<u8>), z: (usize, Seq<u8>))
    requires
        key_lt(x, y),
        key_lt(y, z),
    ensures
        key_lt(x, z),
{
    if x.0 == y.0 && y.0 == z.0 {
        lemma_bytes_lt_transitive(x.1, y.1, z.1);
    }
}

/// Entries in strictly increasing key order (so no key occurs twice).
pub open spec fn sorted_by_key(s: Seq<RawControlEntry>) -> bool {
    forall|i: int, j: int|
        #![trigger s[i], s[j]]
        0 <= i < j < s.len() ==> key_lt(entry_key(s[i]), entry_key(s[j]))
}

/// The readings of device `device_id`, in order.
pub open spec fn snapshots_of_device(s: Seq<RawControlEntry>, device_id: usize) -> Seq<
    RawControlSnapshot,
>
    decreases s.len(),
{
    if s.len() == 0 {
        Seq::empty()
    } else if s.last().device_id == device_id {
        snapshots_of_device(s.drop_last(), device_id).push(s.last().snapshot)
    } else {
        snapshots_of_device(s.drop_last(), device_id)
    }
}

/// The entries of every device but `device_id`, in order.
pub open spec fn without_device(s: Seq<RawControlEntry>, device_id: usize) -> Seq<RawControlEntry>
    decreases s.len(),
{
    if s.len() == 0 {
        Seq::empty()
    } else if s.last().device_id != device_id {
        without_device(s.drop_last(), device_id).push(s.last())
    } else {
        without_device(s.drop_last(), device_id)
    }
}

proof fn lemma_without_device_contains(s: Seq<RawControlEntry>, device_id: usize, e: RawControlEntry)
    ensures
        without_device(s, device_id).contains(e) <==> (s.contains(e) && e.device_id != device_id),
    decreases s.len(),
{
    if s.len() > 0 {
        let rest = s.drop_last();
        lemma_without_device_contains(rest, device_id, e);
        assert(s =~= rest.push(s.last()));
        if s.contains(e) {
            let i = choose|i: int| 0 <= i < s.len() && s[i] == e;
            if i < s.len() - 1 {
                assert(rest[i] == e);
            }
        }
        if rest.contains(e) {
            let i = choose|i: int| 0 <= i < rest.len() && rest[i] == e;
            assert(s[i] == e);
        }
        let w = without_device(rest, device_id);
        if s.last().device_id != device_id {
            if w.push(s.last()).contains(e) {
                let i = choose|i: int| 0 <= i < w.len() + 1 && w.push(s.last())[i] == e;
                if i < w.len() {
                    assert(w[i] == e);
                }
            }
            if w.contains(e) {
                let i = choose|i: int| 0 <= i < w.len() && w[i] == e;
                assert(w.push(s.last())[i] == e);
            }
            assert(w.push(s.last())[w.len() as int] == s.last());
        }
    }
}

/// The readings of a device are exactly the snapshots of its entries.
pub proof fn lemma_snapshots_of_device_contains(
    s: Seq<RawControlEntry>,
    device_id: usize,
    x: RawControlSnapshot,
)
    ensures
        snapshots_of_device(s, device_id).contains(x) <==> exists|e: RawControlEntry|
            #[trigger] s.contains(e) && e.device_id == device_id && e.snapshot == x,
    decreases s.len(),
{
    if s.len() > 0 {
        let rest = s.drop_last();
        let w = snapshots_of_device(rest, device_id);
        lemma_snapshots_of_device_contains(rest, device_id, x);
        if exists|e: RawControlEntry|
            #[trigger] s.contains(e) && e.device_id == device_id && e.snapshot == x {
            let e = choose|e: RawControlEntry|
                #[trigger] s.contains(e) && e.device_id == device_id && e.snapshot == x;
            let i = choose|i: int| 0 <= i < s.len() && s[i] == e;
            if i < s.len() - 1 {
                assert(rest[i] == e);
                assert(rest.contains(e));
                let k = choose|k: int| 0 <= k < w.len() && w[k] == x;
                if s.last().device_id == device_id {
                    assert(w.push(s.last().snapshot)[k] == x);
                }
            } else {
                assert(s.last() == e);
                assert(w.push(s.last().snapshot)[w.len() as int] == x);
            }
        }
        if snapshots_of_device(s, device_id).contains(x) {
            let full = snapshots_of_device(s, device_id);
            let k = choose|k: int| 0 <= k < full.len() && full[k] == x;
            if s.last().device_id == device_id && k == w.len() {
                assert(s[s.len() - 1] == s.last());
                assert(s.contains(s.last()));
            } else {
                if s.last().device_id == device_id {
                    assert(w[k] == x);
                }
                assert(w.contains(x));
                let e = choose|e: RawControlEntry|
                    #[trigger] rest.contains(e) && e.device_id == device_id && e.snapshot == x;
                let i = choose|i: int| 0 <= i < rest.len() && rest[i] == e;
                assert(s[i] == e);
                assert(s.contains(e));
            }
        }
    }
}

/// Readings of a device, recorded under keys unique per device and raw code.
pub struct RawControlStore {
    entries: Vec<RawControlEntry>,
}

impl View for RawControlStore {
    type V = Seq<RawControlEntry>;

    closed spec fn view(&self) -> Seq<RawControlEntry> {
        self.entries@
    }
}

/// Where a key stands in a sorted sequence of entries.
enum Position {
    /// The entry at this index has the key.
    Found(usize),
    /// No entry has the key; it belongs at this index.
    Absent(usize),
}

impl RawControlStore {
    /// The entries are in strictly increasing key order.
    pub open spec fn wf(&self) -> bool {
        sorted_by_key(self@)
    }

    /// An empty store.
    pub fn new() -> (store: Self)
        ensures
            store.wf(),
            store@.len() == 0,
    {
        RawControlStore { entries: Vec::new() }
    }

    /// Compares the key of `self@[index]` with the key (`device_id`, `code`).
    fn compare_at(&self, index: usize, device_id: usize, code: &[u8]) -> (order: KeyOrder)
        requires
            index < self@.len(),
        ensures
            (order == KeyOrder::Less) == key_lt(entry_key(self@[index as int]), (device_id, code@)),
            (order == KeyOrder::Equal) == (entry_key(self@[index as int]) == (device_id, code@)),
            (order == KeyOrder::Greater) == key_lt((device_id, code@), entry_key(self@[index as int])),
    {
        let entry = &self.entries[index];
        if entry.device_id < device_id {
            KeyOrder::Less
        } else if entry.device_id > device_id {
            KeyOrder::Greater
        } else {
            compare_bytes(entry.snapshot.control.as_str().as_bytes(), code)
        }
    }

    /// Finds where the key (`device_id`, `code`) stands.
    fn position(&self, device_id: usize, code: &[u8]) -> (pos: Position)
        requires
            self.wf(),
        ensures
            match pos {
                Position::Found(i) => i < self@.len() && entry_key(self@[i as int]) == (
                    device_id,
                    code@,
                ),
                Position::Absent(i) => {
                    &&& i <= self@.len()
                    &&& forall|j: int|
                        0 <= j < i ==> key_lt(#[trigger] entry_key(self@[j]), (device_id, code@))
                    &&& forall|j: int|
                        i <= j < self@.len() ==> key_lt((device_id, code@), #[trigger] entry_key(self@[j]))
                },
            },
    {
        let mut i: usize = 0;
        while i < self.entries.len()
            invariant
                self.wf(),
                i <= self@.len(),
                forall|j: int| 0 <= j < i ==> key_lt(#[trigger] entry_key(self@[j]), (device_id, code@)),
            decreases self@.len() - i,
        {
            match self.compare_at(i, device_id, code) {
                KeyOrder::Less => {
                    i = i + 1;
                },
                KeyOrder::Equal => {
                    return Position::Found(i);
                },
                KeyOrder::Greater => {
                    assert forall|j: int| i <= j < self@.len() implies key_lt(
                        (device_id, code@),
                        #[trigger] entry_key(self@[j]),
                    ) by {
                        if j > i {
                            assert(key_lt(entry_key(self@[i as int]), entry_key(self@[j])));
                            lemma_key_lt_transitive(
                                (device_id, code@),
                                entry_key(self@[i as int]),
                                entry_key(self@[j]),
                            );
                        }
                    }
                    return Position::Absent(i);
                },
            }
        }
        Position::Absent(i)
    }

    /// Records `entry`: it replaces the entry with the same key, if any, and
    /// is otherwise added in key order.
    pub fn insert(&mut self, entry: RawControlEntry)
        requires
            old(self).wf(),
        ensures
            final(self).wf(),
            forall|e: RawControlEntry|
                #[trigger] final(self)@.contains(e) <==> (e == entry || (old(self)@.contains(e)
                    && entry_key(e) != entry_key(entry))),
    {
        let ghost key = entry_key(entry);
        let ghost before = self@;
        let code = entry.snapshot.control.as_str().as_bytes();
        let pos = self.position(entry.device_id, code);
        match pos {
            Position::Found(i) => {
                self.entries.set(i, entry);
                proof {
                    let after = self@;
                    assert(after == before.update(i as int, entry));
                    assert forall|p: int, q: int|
                        #![trigger after[p], after[q]]
                        0 <= p < q < after.len() implies key_lt(
                        entry_key(after[p]),
                        entry_key(after[q]),
                    ) by {
                        assert(entry_key(after[p]) == entry_key(before[p]));
                        assert(entry_key(after[q]) == entry_key(before[q]));
                        assert(key_lt(entry_key(before[p]), entry_key(before[q])));
                    }
                    assert forall|e: RawControlEntry|
                        #[trigger] after.contains(e) <==> (e == entry || (before.contains(e)
                            && entry_key(e) != key)) by {
                        if after.contains(e) && e != entry {
                            let j = choose|j: int| 0 <= j < after.len() && after[j] == e;
                            assert(j != i);
                            assert(before[j] == e);
                            if j < i {
                                assert(key_lt(entry_key(before[j]), entry_key(before[i as int])));
                            } else {
                                assert(key_lt(entry_key(before[i as int]), entry_key(before[j])));
                            }
                            lemma_key_lt_irreflexive(key);
                        }
                        if e == entry {
                            assert(after[i as int] == e);
                        }
                        if before.contains(e) && entry_key(e) != key {
                            let j = choose|j: int| 0 <= j < before.len() && before[j] == e;
                            assert(j != i);
                            assert(after[j] == e);
                        }
                    }
                }
            },
            Position::Absent(i) => {
                self.entries.insert(i, entry);
                proof {
                    let after = self@;
                    assert(after == before.insert(i as int, entry));
                    assert forall|p: int, q: int|
                        #![trigger after[p], after[q]]
                        0 <= p < q < after.len() implies key_lt(
                        entry_key(after[p]),
                        entry_key(after[q]),
                    ) by {
                        if q < i {
                            assert(key_lt(entry_key(before[p]), entry_key(before[q])));
                        } else if q == i {
                            assert(key_lt(entry_key(before[p]), key));
                        } else if p < i {
                            assert(key_lt(entry_key(before[p]), entry_key(before[q - 1])));
                        } else if p == i {
                            assert(key_lt(key, entry_key(before[q - 1])));
                        } else {
                            assert(key_lt(entry_key(before[p - 1]), entry_key(before[q - 1])));
                        }
                    }
                    assert forall|e: RawControlEntry|
                        #[trigger] after.contains(e) <==> (e == entry || (before.contains(e)
                            && entry_key(e) != key)) by {
                        if after.contains(e) && e != entry {
                            let j = choose|j: int| 0 <= j < after.len() && after[j] == e;
                            let k = if j < i {
                                j
                            } else {
                                j - 1
                            };
                            assert(before[k] == e);
                            lemma_key_lt_irreflexive(key);
                            if k < i {
                                assert(key_lt(entry_key(before[k]), key));
                            } else {
                                assert(key_lt(key, entry_key(before[k])));
                            }
                        }
                        if e == entry {
                            assert(after[i as int] == e);
                        }
                        if before.contains(e) && entry_key(e) != key {
                            let j = choose|j: int| 0 <= j < before.len() && before[j] == e;
                            if j < i {
                                assert(after[j] == e);
                            } else {
                                assert(after[j + 1] == e);
                            }
                        }
                    }
                }
            },
        }
    }

    /// Records a digital reading `entry`, unless the same key already holds
    /// an analog-button reading, which a digital one never overwrites.
    pub fn insert_digital(&mut self, entry: RawControlEntry)
        requires
            old(self).wf(),
        ensures
            final(self).wf(),
            if exists|e: RawControlEntry|
                #[trigger] old(self)@.contains(e) && entry_key(e) == entry_key(entry)
                    && e.snapshot.kind == RawControlKind::AnalogButton {
                final(self)@ == old(self)@
            } else {
                forall|e: RawControlEntry|
                    #[trigger] final(self)@.contains(e) <==> (e == entry || (old(self)@.contains(
                        e,
                    ) && entry_key(e) != entry_key(entry)))
            },
            final(self)@.contains(entry) || exists|e: RawControlEntry|
                #[trigger] final(self)@.contains(e) && old(self)@.contains(e) && e.device_id
                    == entry.device_id && e.snapshot.control@ == entry.snapshot.control@
                    && e.snapshot.kind == RawControlKind::AnalogButton,
    {
        let code = entry.snapshot.control.as_str().as_bytes();
        let pos = self.position(entry.device_id, code);
        if let Position::Found(i) = pos {
            if self.entries[i].snapshot.kind == RawControlKind::AnalogButton {
                assert(self@.contains(self@[i as int]));
                proof {
                    encode_utf8_decode_utf8(self@[i as int].snapshot.control@);
                    encode_utf8_decode_utf8(entry.snapshot.control@);
                }
                return;
            }
            proof {
                assert forall|e: RawControlEntry|
                    #[trigger] self@.contains(e) && entry_key(e) == entry_key(entry) implies e.snapshot.kind
                    != RawControlKind::AnalogButton by {
                    let j = choose|j: int| 0 <= j < self@.len() && self@[j] == e;
                    if j != i {
                        lemma_key_lt_irreflexive(entry_key(entry));
                        if j < i {
                            assert(key_lt(entry_key(self@[j]), entry_key(self@[i as int])));
                        } else {
                            assert(key_lt(entry_key(self@[i as int]), entry_key(self@[j])));
                        }
                    }
                }
            }
        } else if let Position::Absent(i) = pos {
            proof {
                assert forall|e: RawControlEntry|
                    #[trigger] self@.contains(e) implies entry_key(e) != entry_key(entry) by {
                    let j = choose|j: int| 0 <= j < self@.len() && self@[j] == e;
                    lemma_key_lt_irreflexive(entry_key(entry));
                    if j < i {
                        assert(key_lt(entry_key(self@[j]), entry_key(entry)));
                    } else {
                        assert(key_lt(entry_key(entry), entry_key(self@[j])));
                    }
                }
            }
        }
        self.insert(entry);
    }

    /// Drops every reading of device `device_id`, keeping the others in order.
    pub fn remove_device(&mut self, device_id: usize)
        requires
            old(self).wf(),
        ensures
            final(self).wf(),
            final(self)@ == without_device(old(self)@, device_id),
            forall|e: RawControlEntry|
                #[trigger] final(self)@.contains(e) <==> (old(self)@.contains(e) && e.device_id
                    != device_id),
    {
        let ghost before = self@;
        let mut kept: Vec<RawControlEntry> = Vec::new();
        let mut i: usize = 0;
        assert(before.take(0) =~= Seq::<RawControlEntry>::empty());
        while i < self.entries.len()
            invariant
                self@ == before,
                sorted_by_key(before),
                i <= before.len(),
                kept@ == without_device(before.take(i as int), device_id),
                sorted_by_key(kept@),
                forall|p: int, j: int|
                    0 <= p < kept@.len() && i <= j < before.len() ==> key_lt(
                        entry_key(#[trigger] kept@[p]),
                        entry_key(#[trigger] before[j]),
                    ),
            decreases before.len() - i,
        {
            assert(before.take(i + 1).drop_last() =~= before.take(i as int));
            assert(before.take(i + 1).last() == before[i as int]);
            if self.entries[i].device_id != device_id {
                let ghost prior = kept@;
                let entry = RawControlEntry {
                    device_id: self.entries[i].device_id,
                    snapshot: self.entries[i].snapshot.duplicate(),
                };
                kept.push(entry);
                proof {
                    assert forall|p: int, q: int|
                        #![trigger kept@[p], kept@[q]]
                        0 <= p < q < kept@.len() implies key_lt(
                        entry_key(kept@[p]),
                        entry_key(kept@[q]),
                    ) by {
                        if q == prior.len() {
                            assert(kept@[q] == before[i as int]);
                            assert(kept@[p] == prior[p]);
                        } else {
                            assert(kept@[p] == prior[p]);
                            assert(kept@[q] == prior[q]);
                        }
                    }
                    assert forall|p: int, j: int|
                        0 <= p < kept@.len() && i + 1 <= j < before.len() implies key_lt(
                        entry_key(#[trigger] kept@[p]),
                        entry_key(#[trigger] before[j]),
                    ) by {
                        if p == prior.len() {
                            assert(kept@[p] == before[i as int]);
                        } else {
                            assert(kept@[p] == prior[p]);
                        }
                    }
                }
            }
            i = i + 1;
        }
        assert(before.take(before.len() as int) =~= before);
        self.entries = kept;
        proof {
            assert forall|e: RawControlEntry|
                #[trigger] self@.contains(e) <==> (before.contains(e) && e.device_id
                    != device_id) by {
                lemma_without_device_contains(before, device_id, e);
            }
        }
    }

    /// The readings of device `device_id`, in key order.
    pub fn snapshots_for(&self, device_id: usize) -> (snapshots: Vec<RawControlSnapshot>)
        ensures
            snapshots@ == snapshots_of_device(self@, device_id),
            forall|x: RawControlSnapshot|
                #[trigger] snapshots@.contains(x) <==> exists|e: RawControlEntry|
                    #[trigger] self@.contains(e) && e.device_id == device_id && e.snapshot == x,
    {
        let mut snapshots: Vec<RawControlSnapshot> = Vec::new();
        let mut i: usize = 0;
        assert(self@.take(0) =~= Seq::<RawControlEntry>::empty());
        while i < self.entries.len()
            invariant
                i <= self@.len(),
                snapshots@ == snapshots_of_device(self@.take(i as int), device_id),
            decreases self@.len() - i,
        {
            assert(self@.take(i + 1).drop_last() =~= self@.take(i as int));
            assert(self@.take(i + 1).last() == self@[i as int]);
            if self.entries[i].device_id == device_id {
                snapshots.push(self.entries[i].snapshot.duplicate());
            }
            i = i + 1;
        }
        assert(self@.take(self@.len() as int) =~= self@);
        proof {
            assert forall|x: RawControlSnapshot|
                #[trigger] snapshots@.contains(x) <==> exists|e: RawControlEntry|
                    #[trigger] self@.contains(e) && e.device_id == device_id && e.snapshot == x by {
                lemma_snapshots_of_device_contains(self@, device_id, x);
            }
        }
        snapshots
    }
}

} // verus!
