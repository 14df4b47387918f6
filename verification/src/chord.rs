//! Chord detection.
//!
//! A chord is a set of keys that triggers an engine action the instant
//! every one of them is held down at once.  Each chord keeps one pressed
//! flag per configured key; a captured key transition updates the flag of
//! its key, if the key belongs to the chord, and a fired chord has all of
//! its flags cleared even though the physical keys may still be held.

use vstd::prelude::*;
use crate::event::KeyCode;

verus! {

/// A chord fires exactly when it has at least one key and every key is
/// currently held down.
pub open spec fn chord_complete(m: Map<KeyCode, bool>) -> bool {
    (exists|k: KeyCode| m.dom().contains(k)) && (forall|k: KeyCode|
        m.dom().contains(k) ==> m[k])
}

/// The pressed states after a transition of `key` to `down`: unchanged
/// unless `key` belongs to the chord.
pub open spec fn chord_update(m: Map<KeyCode, bool>, key: KeyCode, down: bool) -> Map<
    KeyCode,
    bool,
> {
    if m.dom().contains(key) {
        m.insert(key, down)
    } else {
        m
    }
}

/// The pressed states after a fire: the same keys, none held.
pub open spec fn chord_cleared(m: Map<KeyCode, bool>) -> Map<KeyCode, bool> {
    Map::new(|k: KeyCode| m.dom().contains(k), |k: KeyCode| false)
}

/// Pressed-state tracker for one chord, a finite map from the chord's
/// configured keys to whether each is currently held down.
pub struct ChordMap {
    keys: Vec<KeyCode>,
    pressed: Vec<bool>,
}

impl View for ChordMap {
    type V = Map<KeyCode, bool>;

    closed spec fn view(&self) -> Map<KeyCode, bool> {
        Map::new(
            |k: KeyCode| self.keys@.contains(k),
            |k: KeyCode| self.pressed@[self.keys@.index_of(k)],
        )
    }
}

impl ChordMap {
    pub closed spec fn wf(self) -> bool {
        self.keys@.len() == self.pressed@.len() && self.keys@.no_duplicates()
    }

    /// The tracker for a configured key set: every listed key unpressed,
    /// duplicates in the listing collapsed.
    pub fn new(config: &Vec<KeyCode>) -> (c: ChordMap)
        ensures
            c.wf(),
            c@ == Map::new(|k: KeyCode| config@.contains(k), |k: KeyCode| false),
    {
        let mut keys: Vec<KeyCode> = Vec::new();
        let mut i: usize = 0;
        while i < config.len()
            invariant
                i <= config.len(),
                keys@.no_duplicates(),
                forall|k: KeyCode|
                    keys@.contains(k) <==> config@.subrange(0, i as int).contains(k),
            decreases config.len() - i,
        {
            let key = config[i];
            let known = contains_key(&keys, key);
            let ghost keys0 = keys@;
            if !known {
                keys.push(key);
            }
            i += 1;
            proof {
                let pre = config@.subrange(0, (i - 1) as int);
                let ext = config@.subrange(0, i as int);
                assert(ext =~= pre.push(key));
                assert forall|k: KeyCode| keys@.contains(k) <==> ext.contains(k) by {
                    vstd::seq_lib::lemma_seq_contains_after_push(pre, key, k);
                    if !known {
                        vstd::seq_lib::lemma_seq_contains_after_push(keys0, key, k);
                    }
                }
            }
        }
        let mut pressed: Vec<bool> = Vec::new();
        while pressed.len() < keys.len()
            invariant
                pressed@.len() <= keys@.len(),
                forall|j: int| 0 <= j < pressed@.len() ==> !pressed@[j],
            decreases keys@.len() - pressed@.len(),
        {
            pressed.push(false);
        }
        let c = ChordMap { keys, pressed };
        proof {
            assert(config@.subrange(0, config@.len() as int) =~= config@);
            assert forall|k: KeyCode| #[trigger] c@.dom().contains(k) implies !c@[k] by {
                lemma_found_index(c.keys@, c.keys@.index_of(k), k);
            }
            assert(c@ =~= Map::new(|k: KeyCode| config@.contains(k), |k: KeyCode| false));
        }
        c
    }

    /// Records a transition of `key` to pressed (`down` true) or released;
    /// keys outside the chord leave the tracker untouched.
    pub fn record(&mut self, key: KeyCode, down: bool)
        requires
            old(self).wf(),
        ensures
            final(self).wf(),
            final(self)@ == chord_update(old(self)@, key, down),
    {
        let n = self.keys.len();
        let mut i: usize = 0;
        while i < n
            invariant
                old(self).wf(),
                self.keys == old(self).keys,
                self.pressed == old(self).pressed,
                n == self.keys@.len(),
                i <= n,
                forall|j: int| 0 <= j < i ==> self.keys@[j] != key,
            decreases n - i,
        {
            if self.keys[i] == key {
                self.pressed[i] = down;
                proof {
                    lemma_update_is_insert(*old(self), *self, i as int, key, down);
                }
                return ;
            }
            i += 1;
        }
        proof {
            assert(!self.keys@.contains(key));
            assert(self@ == chord_update(old(self)@, key, down));
        }
    }

    /// Whether the chord fires: non-empty and every key held.
    pub fn complete(&self) -> (r: bool)
        requires
            self.wf(),
        ensures
            r == chord_complete(self@),
    {
        let n = self.keys.len();
        if n == 0 {
            return false;
        }
        let mut i: usize = 0;
        while i < n
            invariant
                self.wf(),
                n == self.keys@.len(),
                i <= n,
                forall|j: int| 0 <= j < i ==> self.pressed@[j],
            decreases n - i,
        {
            if !self.pressed[i] {
                proof {
                    lemma_found_index(self.keys@, i as int, self.keys@[i as int]);
                    assert(self@.dom().contains(self.keys@[i as int]));
                    assert(!self@[self.keys@[i as int]]);
                }
                return false;
            }
            i += 1;
        }
        proof {
            assert(self@.dom().contains(self.keys@[0]));
            assert forall|k: KeyCode| #[trigger] self@.dom().contains(k) implies self@[k] by {
                lemma_found_index(self.keys@, self.keys@.index_of(k), k);
            }
        }
        true
    }

    /// Clears every pressed flag, as invariant 4 demands after a fire.
    pub fn reset(&mut self)
        requires
            old(self).wf(),
        ensures
            final(self).wf(),
            final(self)@ == chord_cleared(old(self)@),
    {
        let n = self.pressed.len();
        let mut i: usize = 0;
        while i < n
            invariant
                old(self).wf(),
                self.keys == old(self).keys,
                n == self.pressed@.len(),
                self.pressed@.len() == old(self).pressed@.len(),
                i <= n,
                forall|j: int| 0 <= j < i ==> !self.pressed@[j],
            decreases n - i,
        {
            self.pressed[i] = false;
            i += 1;
        }
        proof {
            assert forall|k: KeyCode| #[trigger] self@.dom().contains(k) implies !self@[k] by {
                lemma_found_index(self.keys@, self.keys@.index_of(k), k);
            }
            assert(self@ =~= chord_cleared(old(self)@));
        }
    }

    /// The pressed flag of `key`, or nothing when the key is outside the
    /// chord.
    pub fn is_pressed(&self, key: KeyCode) -> (r: Option<bool>)
        requires
            self.wf(),
        ensures
            (match r {
                Some(b) => self@.dom().contains(key) && self@[key] == b,
                None => !self@.dom().contains(key),
            }),
    {
        let n = self.keys.len();
        let mut i: usize = 0;
        while i < n
            invariant
                self.wf(),
                n == self.keys@.len(),
                i <= n,
                forall|j: int| 0 <= j < i ==> self.keys@[j] != key,
            decreases n - i,
        {
            if self.keys[i] == key {
                proof {
                    lemma_found_index(self.keys@, i as int, key);
                }
                return Some(self.pressed[i]);
            }
            i += 1;
        }
        proof {
            assert(!self.keys@.contains(key));
        }
        None
    }
}

/// Law: a fire leaves no key of its chord pressed, whatever was held —
/// the cleared state keeps the chord's keys and maps each to released.
pub proof fn lemma_cleared_all_released(m: Map<KeyCode, bool>)
    ensures
        chord_cleared(m).dom() =~= m.dom(),
        forall|k: KeyCode| chord_cleared(m).dom().contains(k) ==> !chord_cleared(m)[k],
{
}

/// Whether `key` occurs in `keys`.
fn contains_key(keys: &Vec<KeyCode>, key: KeyCode) -> (r: bool)
    ensures
        r == keys@.contains(key),
{
    let n = keys.len();
    let mut i: usize = 0;
    while i < n
        invariant
            n == keys@.len(),
            i <= n,
            forall|j: int| 0 <= j < i ==> keys@[j] != key,
        decreases n - i,
    {
        if keys[i] == key {
            return true;
        }
        i += 1;
    }
    false
}

/// In a duplicate-free key sequence, `index_of` of a key stored at `i`
/// is `i` itself.
proof fn lemma_found_index(keys: Seq<KeyCode>, i: int, key: KeyCode)
    requires
        keys.no_duplicates(),
        0 <= i < keys.len(),
        keys[i] == key,
    ensures
        keys.index_of(key) == i,
        keys.contains(key),
{
    assert(keys.contains(key));
    let j = keys.index_of(key);
    assert(0 <= j < keys.len() && keys[j] == key);
    if j != i {
        assert(keys[i] != keys[j]);
    }
}

/// Setting the pressed flag at the slot of `key` is, at the map level,
/// inserting `key -> down`.
proof fn lemma_update_is_insert(pre: ChordMap, post: ChordMap, i: int, key: KeyCode, down: bool)
    requires
        pre.wf(),
        0 <= i < pre.keys@.len(),
        pre.keys@[i] == key,
        post.keys == pre.keys,
        post.pressed@ == pre.pressed@.update(i, down),
    ensures
        post.wf(),
        post@ == chord_update(pre@, key, down),
{
    lemma_found_index(pre.keys@, i, key);
    assert forall|k: KeyCode| #[trigger] post@.dom().contains(k) implies post@[k] == pre@.insert(
        key,
        down,
    )[k] by {
        let j = post.keys@.index_of(k);
        assert(post.keys@.contains(k));
        assert(0 <= j < post.keys@.len() && post.keys@[j] == k);
        lemma_found_index(pre.keys@, j, k);
        if k == key {
            assert(j == i);
        } else {
            assert(j != i);
        }
    }
    assert(post@ =~= pre@.insert(key, down));
}

} // verus!
