use crate::drawable::{CustomDrawing, Stroke};
use vstd::prelude::*;

verus! {

/// A drawing under the key it was registered with.
pub struct NamedDrawing {
    pub key: String,
    pub drawing: CustomDrawing,
}

/// What the registry holds: keys and strokes, oldest registration first.
pub type DrawingsView = Seq<(Seq<char>, Seq<Stroke>)>;

/// A drawing is registered under `key`.
pub open spec fn has_drawing(drawings: DrawingsView, key: Seq<char>) -> bool {
    exists|i: int| 0 <= i < drawings.len() && (#[trigger] drawings[i]).0 == key
}

/// The registry without what is registered under `key`.
pub open spec fn without_drawing(drawings: DrawingsView, key: Seq<char>) -> DrawingsView
    decreases drawings.len(),
{
    if drawings.len() == 0 {
        drawings
    } else if drawings.last().0 == key {
        without_drawing(drawings.drop_last(), key)
    } else {
        without_drawing(drawings.drop_last(), key).push(drawings.last())
    }
}

/// The registry after `strokes` were registered under `key`: an earlier
/// drawing under that key is replaced.
pub open spec fn with_drawing(
    drawings: DrawingsView,
    key: Seq<char>,
    strokes: Seq<Stroke>,
) -> DrawingsView {
    without_drawing(drawings, key).push((key, strokes))
}

/// Nothing under `key` is left once it was removed, and the other keys stay.
pub proof fn removal_is_exact(drawings: DrawingsView, key: Seq<char>, other: Seq<char>)
    ensures
        !has_drawing(without_drawing(drawings, key), key),
        other != key ==> has_drawing(without_drawing(drawings, key), other) == has_drawing(
            drawings,
            other,
        ),
        without_drawing(drawings, key).len() <= drawings.len(),
        !has_drawing(drawings, key) ==> without_drawing(drawings, key) == drawings,
    decreases drawings.len(),
{
    if drawings.len() > 0 {
        let rest = drawings.drop_last();
        removal_is_exact(rest, key, other);
        let cut = without_drawing(rest, key);
        let out = without_drawing(drawings, key);
        if has_drawing(out, key) {
            let i = choose|i: int| 0 <= i < out.len() && (#[trigger] out[i]).0 == key;
            if i < cut.len() {
                assert(cut[i].0 == key);
            }
            assert(false);
        }
        if other != key {
            if has_drawing(drawings, other) {
                let i = choose|i: int| 0 <= i < drawings.len() && (#[trigger] drawings[i]).0 == other;
                if i < rest.len() {
                    assert(rest[i].0 == other);
                    let j = choose|j: int| 0 <= j < cut.len() && (#[trigger] cut[j]).0 == other;
                    assert(out[j].0 == other);
                } else {
                    assert(out[out.len() - 1].0 == other);
                }
            }
            if has_drawing(out, other) {
                let i = choose|i: int| 0 <= i < out.len() && (#[trigger] out[i]).0 == other;
                if i < cut.len() {
                    assert(cut[i].0 == other);
                    let j = choose|j: int| 0 <= j < rest.len() && (#[trigger] rest[j]).0 == other;
                    assert(drawings[j].0 == other);
                } else {
                    assert(drawings[drawings.len() - 1].0 == other);
                }
            }
        }
        if !has_drawing(drawings, key) {
            assert(drawings.last().0 != key) by {
                if drawings.last().0 == key {
                    assert(drawings[drawings.len() - 1].0 == key);
                }
            }
            assert(!has_drawing(rest, key)) by {
                if has_drawing(rest, key) {
                    let j = choose|j: int| 0 <= j < rest.len() && (#[trigger] rest[j]).0 == key;
                    assert(drawings[j].0 == key);
                }
            }
            assert(out == drawings);
        }
    }
}

/// The named overlay drawings, in the order in which they were registered.
pub struct Drawings {
    entries: Vec<NamedDrawing>,
}

impl View for Drawings {
    type V = DrawingsView;

    closed spec fn view(&self) -> DrawingsView {
        Seq::new(self.entries@.len(), |i: int| (self.entries@[i].key@, self.entries@[i].drawing@))
    }
}

impl Drawings {
    pub fn new() -> (drawings: Self)
        ensures
            drawings@ == Seq::<(Seq<char>, Seq<Stroke>)>::empty(),
    {
        Drawings { entries: Vec::new() }
    }

    /// The number of registered drawings.
    pub fn len(&self) -> (count: usize)
        ensures
            count == self@.len(),
    {
        self.entries.len()
    }

    /// The `index`-th drawing, oldest first.
    pub fn get(&self, index: usize) -> (entry: Option<&NamedDrawing>)
        ensures
            index < self@.len() ==> entry.is_some() && entry.unwrap().key@ == self@[index as int].0
                && entry.unwrap().drawing@ == self@[index as int].1,
            index >= self@.len() ==> entry.is_none(),
    {
        if index < self.entries.len() {
            Some(&self.entries[index])
        } else {
            None
        }
    }

    /// A drawing is registered under `key`.
    pub fn contains_key(&self, key: &str) -> (found: bool)
        ensures
            found == has_drawing(self@, key@),
    {
        let wanted = key.to_owned();
        let count: usize = self.entries.len();
        let mut i: usize = 0;
        while i < count
            invariant
                count == self.entries@.len(),
                i <= count,
                wanted@ == key@,
                forall|j: int| 0 <= j < i ==> (#[trigger] self@[j]).0 != key@,
            decreases count - i,
        {
            if self.entries[i].key == wanted {
                assert(self@[i as int].0 == key@);
                return true;
            }
            i += 1;
        }
        false
    }

    /// Removes what is registered under `key`, if anything.
    pub fn remove(&mut self, key: &str)
        ensures
            final(self)@ == without_drawing(old(self)@, key@),
    {
        let ghost before = self@;
        let wanted = key.to_owned();
        let mut i: usize = 0;
        let ghost mut seen: int = 0;
        while i < self.entries.len()
            invariant
                wanted@ == key@,
                0 <= seen <= before.len(),
                i <= self.entries@.len(),
                self.entries@.len() - i == before.len() - seen,
                self@.take(i as int) == without_drawing(before.take(seen), key@),
                self@.skip(i as int) == before.skip(seen),
            decreases self.entries@.len() - i,
        {
            let ghost now = self@;
            assert(before.take(seen + 1).drop_last() == before.take(seen));
            assert(before.take(seen + 1).last() == before[seen]);
            assert(now[i as int] == now.skip(i as int)[0]);
            assert(before[seen] == before.skip(seen)[0]);
            if self.entries[i].key == wanted {
                self.entries.remove(i);
                assert(self@ == now.remove(i as int));
                assert(self@.take(i as int) == now.take(i as int));
                assert(self@.skip(i as int) == now.skip(i as int).skip(1));
                assert(before.skip(seen + 1) == before.skip(seen).skip(1));
            } else {
                assert(now.take(i + 1) == now.take(i as int).push(now[i as int]));
                assert(before.skip(seen + 1) == before.skip(seen).skip(1));
                assert(now.skip(i + 1) == now.skip(i as int).skip(1));
                i += 1;
            }
            proof {
                seen = seen + 1;
            }
        }
        assert(self@.take(i as int) == self@);
        assert(before.take(seen) == before);
    }

    /// Registers `drawing` under `key`, in place of what was there.
    pub fn insert(&mut self, key: String, drawing: CustomDrawing)
        ensures
            final(self)@ == with_drawing(old(self)@, key@, drawing@),
    {
        self.remove(key.as_str());
        let ghost cut = self@;
        self.entries.push(NamedDrawing { key, drawing });
        assert(self@ == cut.push((key@, drawing@)));
    }
}

} // verus!
