use vstd::prelude::*;

verus! {

/// How long a key press stays visually active, in milliseconds.
pub const EXPIRY_MS: u64 = 500;

/// Whether an entry `(key, pressed_at)` is still inside the expiry window
/// at time `now`.
pub open spec fn unexpired(entry: (char, u64), now: u64) -> bool {
    now < entry.1 + EXPIRY_MS
}

/// The list with every expired entry removed, as of time `now`.
pub open spec fn prune_spec(s: Seq<(char, u64)>, now: u64) -> Seq<(char, u64)> {
    s.filter(|e: (char, u64)| unexpired(e, now))
}

/// The active list after a press of `key` at `now`: the expired entries are
/// swept out, and the new entry sits at the end.
pub open spec fn after_press(s: Seq<(char, u64)>, key: char, now: u64) -> Seq<(char, u64)> {
    prune_spec(s, now).push((key, now))
}

/// Whether the list holds at least one entry for `key`.
pub open spec fn has_entry(s: Seq<(char, u64)>, key: char) -> bool {
    exists|i: int| 0 <= i < s.len() && s[i].0 == key
}

/// Transient state of the keyboard: the note played last, and the presses
/// whose visual highlight has not yet expired.
pub struct App {
    /// The most recent press, as key and frequency in centihertz;
    /// overwritten unconditionally by every press, `None` before the first.
    pub last_note: Option<(char, u32)>,
    /// One entry `(key, pressed_at_ms)` per press not yet pruned.
    /// Re-pressing a key appends a fresh entry rather than refreshing an old
    /// one; entries leave only by expiry, swept on the next press.
    pub pressed_keys: Vec<(char, u64)>,
}

impl App {
    /// A tracker with no note played and no active press.
    pub fn new() -> (r: App)
        ensures
            r.last_note is None,
            r.pressed_keys@ == Seq::<(char, u64)>::empty(),
    {
        let r = App { last_note: None, pressed_keys: Vec::new() };
        proof {
            assert(r.pressed_keys@ =~= Seq::<(char, u64)>::empty());
        }
        r
    }

    /// Record a press of `key` with frequency `freq_centihz` at time
    /// `now_ms`: overwrite the last-played note, then append the press and
    /// prune every entry whose expiry window has passed. Total: no input is
    /// rejected.
    pub fn press_key(&mut self, key: char, freq_centihz: u32, now_ms: u64)
        ensures
            final(self).last_note == Some((key, freq_centihz)),
            final(self).pressed_keys@ == after_press(old(self).pressed_keys@, key, now_ms),
    {
        self.last_note = Some((key, freq_centihz));
        let n: usize = self.pressed_keys.len();
        let mut kept: Vec<(char, u64)> = Vec::new();
        let mut i: usize = 0;
        while i < n
            invariant
                i <= n,
                n == self.pressed_keys@.len(),
                kept@ == prune_spec(self.pressed_keys@.subrange(0, i as int), now_ms),
            decreases n - i,
        {
            let e = self.pressed_keys[i];
            let keep: bool = if e.1 > u64::MAX - EXPIRY_MS {
                true
            } else {
                now_ms < e.1 + EXPIRY_MS
            };
            proof {
                let s = self.pressed_keys@;
                let long = s.subrange(0, i + 1);
                let short = s.subrange(0, i as int);
                assert(long.drop_last() =~= short);
                assert(long.last() == s[i as int]);
                reveal(Seq::filter);
                assert(keep == unexpired(e, now_ms));
                if keep {
                    assert(prune_spec(long, now_ms) == prune_spec(short, now_ms).push(
                        s[i as int],
                    ));
                } else {
                    assert(prune_spec(long, now_ms) == prune_spec(short, now_ms));
                }
            }
            if keep {
                kept.push(e);
            }
            i = i + 1;
        }
        proof {
            assert(self.pressed_keys@.subrange(0, n as int) =~= self.pressed_keys@);
        }
        kept.push((key, now_ms));
        self.pressed_keys = kept;
    }

    /// Whether at least one entry for `key` is still in the active list.
    /// The query itself never prunes: an entry past its window lingers
    /// until the next press sweeps it out.
    pub fn is_key_pressed(&self, key: char) -> (r: bool)
        ensures
            r == has_entry(self.pressed_keys@, key),
    {
        let n: usize = self.pressed_keys.len();
        let mut i: usize = 0;
        while i < n
            invariant
                i <= n,
                n == self.pressed_keys@.len(),
                forall|j: int| 0 <= j < i ==> (#[trigger] self.pressed_keys@[j]).0 != key,
            decreases n - i,
        {
            if self.pressed_keys[i].0 == key {
                proof {
                    assert(self.pressed_keys@[i as int].0 == key);
                }
                return true;
            }
            i = i + 1;
        }
        false
    }

    /// The most recent press and its frequency in centihertz, regardless of
    /// expiry; `None` before any press.
    pub fn last_played(&self) -> (r: Option<(char, u32)>)
        ensures
            r == self.last_note,
    {
        self.last_note
    }
}

/// Pruning keeps only entries from the source list: if every entry for
/// `key` is at least `EXPIRY_MS` old at `now`, none survives the sweep.
proof fn lemma_prune_drops_key(s: Seq<(char, u64)>, key: char, now: u64)
    requires
        forall|i: int|
            0 <= i < s.len() && (#[trigger] s[i]).0 == key ==> s[i].1 + EXPIRY_MS <= now,
    ensures
        forall|i: int|
            0 <= i < prune_spec(s, now).len() ==> (#[trigger] prune_spec(s, now)[i]).0 != key,
    decreases s.len(),
{
    reveal(Seq::filter);
    if s.len() > 0 {
        let rest = s.drop_last();
        assert forall|i: int|
            0 <= i < rest.len() && (#[trigger] rest[i]).0 == key implies rest[i].1 + EXPIRY_MS
            <= now by {
            assert(rest[i] == s[i]);
        }
        lemma_prune_drops_key(rest, key, now);
        let pruned = prune_spec(s, now);
        let pruned_rest = prune_spec(rest, now);
        if unexpired(s.last(), now) {
            assert(pruned == pruned_rest.push(s.last()));
            assert(s.last() == s[s.len() - 1]);
            assert(s.last().0 != key);
            assert forall|i: int| 0 <= i < pruned.len() implies (#[trigger] pruned[i]).0
                != key by {
                if i < pruned.len() - 1 {
                    assert(pruned[i] == pruned_rest[i]);
                }
            }
        } else {
            assert(pruned == pruned_rest);
        }
    }
}

/// Pruning keeps only entries still inside the expiry window.
proof fn lemma_prune_unexpired(s: Seq<(char, u64)>, now: u64)
    ensures
        forall|i: int|
            0 <= i < prune_spec(s, now).len() ==> unexpired(
                #[trigger] prune_spec(s, now)[i],
                now,
            ),
    decreases s.len(),
{
    reveal(Seq::filter);
    if s.len() > 0 {
        lemma_prune_unexpired(s.drop_last(), now);
        let pruned = prune_spec(s, now);
        let pruned_rest = prune_spec(s.drop_last(), now);
        if unexpired(s.last(), now) {
            assert(pruned == pruned_rest.push(s.last()));
            assert forall|i: int| 0 <= i < pruned.len() implies unexpired(pruned[i], now) by {
                if i < pruned.len() - 1 {
                    assert(pruned[i] == pruned_rest[i]);
                }
            }
        } else {
            assert(pruned == pruned_rest);
        }
    }
}

/// Eager expiry: right after a press, every entry in the active list sits
/// inside the expiry window as of that press's time. Only between presses
/// can a stale entry linger.
pub proof fn lemma_press_leaves_only_unexpired(s: Seq<(char, u64)>, key: char, now: u64)
    ensures
        forall|i: int|
            0 <= i < after_press(s, key, now).len() ==> unexpired(
                #[trigger] after_press(s, key, now)[i],
                now,
            ),
{
    lemma_prune_unexpired(s, now);
    let t = after_press(s, key, now);
    let pruned = prune_spec(s, now);
    assert forall|i: int| 0 <= i < t.len() implies unexpired(t[i], now) by {
        if i < t.len() - 1 {
            assert(t[i] == pruned[i]);
        } else {
            assert(t[i] == (key, now));
        }
    }
}

/// A press makes its own key active: the entry appended at `now` stands in
/// the list, whatever else was pruned.
pub proof fn lemma_press_activates(s: Seq<(char, u64)>, key: char, now: u64)
    ensures
        has_entry(after_press(s, key, now), key),
{
    let t = after_press(s, key, now);
    assert(t[t.len() - 1].0 == key);
}

/// Expiry: once every entry for `key` is at least `EXPIRY_MS` old, a press
/// of any other key sweeps them all out, and `key` is no longer active.
pub proof fn lemma_press_expires(s: Seq<(char, u64)>, key: char, other: char, now: u64)
    requires
        other != key,
        forall|i: int|
            0 <= i < s.len() && (#[trigger] s[i]).0 == key ==> s[i].1 + EXPIRY_MS <= now,
    ensures
        !has_entry(after_press(s, other, now), key),
{
    lemma_prune_drops_key(s, key, now);
    let t = after_press(s, other, now);
    let pruned = prune_spec(s, now);
    assert forall|i: int| 0 <= i < t.len() implies (#[trigger] t[i]).0 != key by {
        if i < t.len() - 1 {
            assert(t[i] == pruned[i]);
        } else {
            assert(t[i] == (other, now));
        }
    }
}

} // verus!
