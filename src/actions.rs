use vstd::prelude::*;

use crate::key::Key;

verus! {

/// A semantic user intent, triggered by one or more keys.
#[derive(Debug, Clone, Copy, PartialEq, Eq, Structural)]
pub enum Action {
    Quit,
    Sleep,
    IncrementDelay,
    DecrementDelay,
}

/// Every action that exists, independent of any context.
pub open spec fn all_actions() -> Seq<Action> {
    seq![Action::Quit, Action::Sleep, Action::IncrementDelay, Action::DecrementDelay]
}

/// The keys bound to an action, in order.
pub open spec fn action_keys(a: Action) -> Seq<Key> {
    match a {
        Action::Quit => seq![Key::Ctrl('c'), Key::Char('q')],
        Action::Sleep => seq![Key::Char('s')],
        Action::IncrementDelay => seq![Key::Char('+')],
        Action::DecrementDelay => seq![Key::Char('-')],
    }
}

/// The label of an action in a help view.
pub open spec fn action_label(a: Action) -> Seq<char> {
    match a {
        Action::Quit => "ACTION: Quit"@,
        Action::Sleep => "ACTION: Sleep"@,
        Action::IncrementDelay => "ACTION: Increment Delay"@,
        Action::DecrementDelay => "ACTION: Decrement Delay"@,
    }
}

/// Whether `k` triggers `a`.
pub open spec fn claims(a: Action, k: Key) -> bool {
    action_keys(a).contains(k)
}

impl Action {
    /// All actions, in declaration order.
    pub fn iterator() -> (r: Vec<Action>)
        ensures
            r@ == all_actions(),
    {
        let r = vec![Action::Quit, Action::Sleep, Action::IncrementDelay, Action::DecrementDelay];
        assert(r@ =~= all_actions());
        r
    }

    /// The keys that trigger this action.
    pub fn keys(&self) -> (r: Vec<Key>)
        ensures
            r@ == action_keys(*self),
    {
        let r = match self {
            Action::Quit => vec![Key::Ctrl('c'), Key::Char('q')],
            Action::Sleep => vec![Key::Char('s')],
            Action::IncrementDelay => vec![Key::Char('+')],
            Action::DecrementDelay => vec![Key::Char('-')],
        };
        assert(r@ =~= action_keys(*self));
        r
    }

    /// The label shown for this action in a help view.
    pub fn label(&self) -> (r: &'static str)
        ensures
            r@ == action_label(*self),
    {
        match self {
            Action::Quit => "ACTION: Quit",
            Action::Sleep => "ACTION: Sleep",
            Action::IncrementDelay => "ACTION: Increment Delay",
            Action::DecrementDelay => "ACTION: Decrement Delay",
        }
    }

    /// Whether `key` triggers this action.
    pub fn has_key(&self, key: Key) -> (r: bool)
        ensures
            r == claims(*self, key),
    {
        let keys = self.keys();
        let mut i: usize = 0;
        while i < keys.len()
            invariant
                0 <= i <= keys@.len(),
                keys@ == action_keys(*self),
                forall|j: int| 0 <= j < i ==> keys@[j] != key,
            decreases keys@.len() - i,
        {
            if keys[i] == key {
                return true;
            }
            i = i + 1;
        }
        false
    }
}

} // verus!

verus! {

/// No key triggers two entries of `s` (two copies of one action included).
pub open spec fn conflict_free(s: Seq<Action>) -> bool {
    forall|i: int, j: int, k: Key|
        0 <= i < j < s.len() && #[trigger] claims(s[i], k) ==> !#[trigger] claims(s[j], k)
}

/// The entries of `s` that `k` triggers, in order.
pub open spec fn claimants(s: Seq<Action>, k: Key) -> Seq<Action>
    decreases s.len(),
{
    if s.len() == 0 {
        Seq::empty()
    } else {
        let p = claimants(s.drop_last(), k);
        if claims(s.last(), k) {
            p.push(s.last())
        } else {
            p
        }
    }
}

/// The action of `s` that `k` triggers, if any.
pub open spec fn lookup(s: Seq<Action>, k: Key) -> Option<Action> {
    if exists|i: int| 0 <= i < s.len() && #[trigger] claims(s[i], k) {
        Some(s[choose|i: int| 0 <= i < s.len() && #[trigger] claims(s[i], k)])
    } else {
        None
    }
}

/// Which keys each action of the full set claims.
pub proof fn lemma_claims(a: Action, k: Key)
    ensures
        claims(a, k) <==> match a {
            Action::Quit => k == Key::Ctrl('c') || k == Key::Char('q'),
            Action::Sleep => k == Key::Char('s'),
            Action::IncrementDelay => k == Key::Char('+'),
            Action::DecrementDelay => k == Key::Char('-'),
        },
{
    let ks = action_keys(a);
    if claims(a, k) {
        let i = choose|i: int| 0 <= i < ks.len() && ks[i] == k;
    }
    match a {
        Action::Quit => {
            if k == Key::Ctrl('c') { assert(ks[0] == k); }
            if k == Key::Char('q') { assert(ks[1] == k); }
        },
        _ => {},
    }
}

/// The full set of actions is free of conflicts.
pub proof fn lemma_all_actions_conflict_free()
    ensures
        conflict_free(all_actions()),
{
    let s = all_actions();
    assert forall|i: int, j: int, k: Key|
        0 <= i < j < s.len() && #[trigger] claims(s[i], k) implies !#[trigger] claims(s[j], k) by {
        lemma_claims(s[i], k);
        lemma_claims(s[j], k);
    }
}

/// A key claimed by two or more entries, and those entries in order.
#[derive(Debug, Clone, PartialEq, Eq)]
pub struct Conflict {
    pub key: Key,
    pub actions: Vec<Action>,
}

/// Every conflict found while building a registry.
#[derive(Debug, Clone, PartialEq, Eq)]
pub struct ConflictError {
    pub conflicts: Vec<Conflict>,
}

/// `e` reports exactly the keys of `raw` with two or more claimants, once each,
/// with all their claimants.
pub open spec fn reports_conflicts(raw: Seq<Action>, e: ConflictError) -> bool {
    &&& forall|i: int|
        0 <= i < e.conflicts@.len() ==> {
            let c = #[trigger] e.conflicts@[i];
            c.actions@ == claimants(raw, c.key) && c.actions@.len() > 1
        }
    &&& forall|i: int, j: int|
        0 <= i < j < e.conflicts@.len() ==> #[trigger] e.conflicts@[i].key
            != #[trigger] e.conflicts@[j].key
    &&& forall|k: Key|
        #[trigger] claimants(raw, k).len() > 1 ==> exists|i: int|
            0 <= i < e.conflicts@.len() && #[trigger] e.conflicts@[i].key == k
}

/// The actions valid in one context; no key triggers two of them.
#[derive(Debug)]
pub struct Actions(Vec<Action>);

impl View for Actions {
    type V = Seq<Action>;

    closed spec fn view(&self) -> Seq<Action> {
        self.0@
    }
}

impl Default for Actions {
    /// The empty registry.
    fn default() -> (r: Actions)
        ensures
            r@ == Seq::<Action>::empty(),
    {
        Actions(Vec::new())
    }
}

impl Clone for Actions {
    fn clone(&self) -> (r: Actions)
        ensures
            r@ == self@,
    {
        proof { use_type_invariant(self); }
        let mut v: Vec<Action> = Vec::new();
        let mut i: usize = 0;
        while i < self.0.len()
            invariant
                0 <= i <= self.0@.len(),
                v@ == self.0@.subrange(0, i as int),
            decreases self.0@.len() - i,
        {
            v.push(self.0[i]);
            assert(v@ =~= self.0@.subrange(0, i + 1));
            i = i + 1;
        }
        assert(v@ =~= self.0@);
        Actions(v)
    }
}

impl Actions {
    #[verifier::type_invariant]
    spec fn inv(self) -> bool {
        conflict_free(self.0@)
    }

    /// A registry of `raw`, which is known to be free of conflicts.
    pub fn new(raw: Vec<Action>) -> (r: Actions)
        requires
            conflict_free(raw@),
        ensures
            r@ == raw@,
    {
        Actions(raw)
    }

    /// The action that `key` triggers: the first entry, in registry order,
    /// bound to it, which is also the only one.
    pub fn find(&self, key: Key) -> (r: Option<&Action>)
        ensures
            r matches Some(a) ==> exists|i: int|
                0 <= i < self@.len() && self@[i] == *a && claims(*a, key),
            r matches Some(a) ==> forall|i: int|
                0 <= i < self@.len() && #[trigger] claims(self@[i], key) ==> self@[i] == *a,
            r is None <==> forall|i: int| 0 <= i < self@.len() ==> !#[trigger] claims(self@[i], key),
            r matches Some(a) ==> lookup(self@, key) == Some(*a),
            r is None ==> lookup(self@, key) is None,
    {
        proof { use_type_invariant(self); }
        let mut i: usize = 0;
        while i < self.0.len()
            invariant
                0 <= i <= self.0@.len(),
                forall|j: int| 0 <= j < i ==> !#[trigger] claims(self.0@[j], key),
            decreases self.0@.len() - i,
        {
            if self.0[i].has_key(key) {
                let a = &self.0[i];
                assert forall|j: int| 0 <= j < self.0@.len() && #[trigger] claims(self.0@[j], key)
                    implies self.0@[j] == *a by {
                    if j > i {
                        assert(claims(self.0@[i as int], key));
                    }
                }
                assert(claims(self.0@[i as int], key));
                return Some(a);
            }
            i = i + 1;
        }
        None
    }

    /// The contextual actions, in registry order (for a help view).
    pub fn actions(&self) -> (r: &[Action])
        ensures
            r@ == self@,
    {
        self.0.as_slice()
    }
}

/// A key is claimed by two or more entries exactly when two entries share it,
/// and by some entry exactly when one entry has it.
pub proof fn lemma_claimants_len(s: Seq<Action>, k: Key)
    ensures
        claimants(s, k).len() > 1 <==> exists|i: int, j: int|
            0 <= i < j < s.len() && claims(s[i], k) && claims(s[j], k),
        claimants(s, k).len() > 0 <==> exists|i: int| 0 <= i < s.len() && claims(s[i], k),
    decreases s.len(),
{
    if s.len() > 0 {
        let t = s.drop_last();
        lemma_claimants_len(t, k);
        if claimants(s, k).len() > 0 && !claims(s.last(), k) {
            let i = choose|i: int| 0 <= i < t.len() && claims(t[i], k);
            assert(s[i] == t[i]);
        }
        if claimants(s, k).len() > 1 {
            if claims(s.last(), k) {
                let i = choose|i: int| 0 <= i < t.len() && claims(t[i], k);
                assert(s[i] == t[i]);
                assert(claims(s[s.len() - 1], k));
            } else {
                let (i, j) = choose|i: int, j: int|
                    0 <= i < j < t.len() && claims(t[i], k) && claims(t[j], k);
                assert(s[i] == t[i] && s[j] == t[j]);
            }
        }
        if exists|i: int, j: int| 0 <= i < j < s.len() && claims(s[i], k) && claims(s[j], k) {
            let (i, j) = choose|i: int, j: int|
                0 <= i < j < s.len() && claims(s[i], k) && claims(s[j], k);
            if j < s.len() - 1 {
                assert(t[i] == s[i] && t[j] == s[j]);
            } else {
                assert(t[i] == s[i]);
            }
        }
        if exists|i: int| 0 <= i < s.len() && claims(s[i], k) {
            let i = choose|i: int| 0 <= i < s.len() && claims(s[i], k);
            if i < s.len() - 1 {
                assert(t[i] == s[i]);
            }
        }
    }
}

/// Every entry that has `k` is among the claimants of `k`.
pub proof fn lemma_claimant_listed(s: Seq<Action>, k: Key, i: int)
    requires
        0 <= i < s.len(),
        claims(s[i], k),
    ensures
        claimants(s, k).contains(s[i]),
    decreases s.len(),
{
    let t = s.drop_last();
    if i == s.len() - 1 {
        assert(claimants(s, k).last() == s[i]);
    } else {
        lemma_claimant_listed(t, k, i);
        assert(t[i] == s[i]);
        let p = claimants(t, k);
        let m = choose|m: int| 0 <= m < p.len() && p[m] == s[i];
        if claims(s.last(), k) {
            assert(claimants(s, k)[m] == s[i]);
        }
    }
}

/// Two entries that share a key make the set ambiguous, and the key's
/// claimants, which a failed build reports, name both.
pub proof fn lemma_shared_key_reported(raw: Seq<Action>, i: int, j: int, k: Key)
    requires
        0 <= i < j < raw.len(),
        claims(raw[i], k),
        claims(raw[j], k),
    ensures
        !conflict_free(raw),
        claimants(raw, k).len() > 1,
        claimants(raw, k).contains(raw[i]),
        claimants(raw, k).contains(raw[j]),
{
    lemma_claimants_len(raw, k);
    lemma_claimant_listed(raw, k, i);
    lemma_claimant_listed(raw, k, j);
}

/// The claimants of `key` among `raw`, in order.
fn collect_claimants(raw: &Vec<Action>, key: Key) -> (r: Vec<Action>)
    ensures
        r@ == claimants(raw@, key),
{
    let mut r: Vec<Action> = Vec::new();
    let mut i: usize = 0;
    while i < raw.len()
        invariant
            0 <= i <= raw@.len(),
            r@ == claimants(raw@.subrange(0, i as int), key),
        decreases raw@.len() - i,
    {
        let a = raw[i];
        assert(raw@.subrange(0, i + 1).drop_last() =~= raw@.subrange(0, i as int));
        if a.has_key(key) {
            r.push(a);
        }
        i = i + 1;
    }
    assert(raw@.subrange(0, raw@.len() as int) =~= raw@);
    r
}

impl Actions {
    /// Builds the registry of `raw`, kept in order, or reports every key that
    /// two or more of its entries share.
    pub fn build(raw: Vec<Action>) -> (r: Result<Actions, ConflictError>)
        ensures
            r is Ok <==> conflict_free(raw@),
            r matches Ok(acts) ==> acts@ == raw@,
            r matches Err(e) ==> reports_conflicts(raw@, e),
    {
        let mut seen: Vec<Key> = Vec::new();
        let mut conflicts: Vec<Conflict> = Vec::new();
        let mut i: usize = 0;
        while i < raw.len()
            invariant
                0 <= i <= raw@.len(),
                forall|a: int, k: Key| 0 <= a < i && #[trigger] claims(raw@[a], k) ==> seen@.contains(k),
                forall|a: int, b: int| 0 <= a < b < seen@.len() ==> seen@[a] != seen@[b],
                forall|c: int| 0 <= c < conflicts@.len() ==> {
                    let x = #[trigger] conflicts@[c];
                    x.actions@ == claimants(raw@, x.key) && x.actions@.len() > 1
                        && seen@.contains(x.key)
                },
                forall|a: int, b: int|
                    0 <= a < b < conflicts@.len() ==> #[trigger] conflicts@[a].key
                        != #[trigger] conflicts@[b].key,
                forall|k: Key| seen@.contains(k) && #[trigger] claimants(raw@, k).len() > 1
                    ==> exists|c: int| 0 <= c < conflicts@.len() && #[trigger] conflicts@[c].key == k,
            decreases raw@.len() - i,
        {
            let keys = raw[i].keys();
            let mut j: usize = 0;
            while j < keys.len()
                invariant
                    0 <= i < raw@.len(),
                    0 <= j <= keys@.len(),
                    keys@ == action_keys(raw@[i as int]),
                    forall|a: int, k: Key| 0 <= a < i && #[trigger] claims(raw@[a], k) ==> seen@.contains(k),
                    forall|b: int| 0 <= b < j ==> seen@.contains(#[trigger] keys@[b]),
                    forall|a: int, b: int| 0 <= a < b < seen@.len() ==> seen@[a] != seen@[b],
                    forall|c: int| 0 <= c < conflicts@.len() ==> {
                        let x = #[trigger] conflicts@[c];
                        x.actions@ == claimants(raw@, x.key) && x.actions@.len() > 1
                            && seen@.contains(x.key)
                    },
                    forall|a: int, b: int|
                        0 <= a < b < conflicts@.len() ==> #[trigger] conflicts@[a].key
                            != #[trigger] conflicts@[b].key,
                    forall|k: Key| seen@.contains(k) && #[trigger] claimants(raw@, k).len() > 1
                        ==> exists|c: int| 0 <= c < conflicts@.len() && #[trigger] conflicts@[c].key == k,
                decreases keys@.len() - j,
            {
                let k = keys[j];
                let mut found = false;
                let mut s: usize = 0;
                while s < seen.len()
                    invariant
                        0 <= s <= seen@.len(),
                        found == exists|b: int| 0 <= b < s && seen@[b] == k,
                    decreases seen@.len() - s,
                {
                    if seen[s] == k {
                        found = true;
                    }
                    s = s + 1;
                }
                if !found {
                    assert(!seen@.contains(k));
                    let ghost old_seen = seen@;
                    let ghost old_conflicts = conflicts@;
                    seen.push(k);
                    assert(seen@ == old_seen.push(k));
                    assert forall|x: Key| old_seen.contains(x) implies seen@.contains(x) by {
                        let b = choose|b: int| 0 <= b < old_seen.len() && old_seen[b] == x;
                        assert(seen@[b] == x);
                    }
                    assert(seen@[old_seen.len() as int] == k);
                    let cl = collect_claimants(&raw, k);
                    if cl.len() > 1 {
                        conflicts.push(Conflict { key: k, actions: cl });
                        assert(conflicts@[old_conflicts.len() as int].key == k);
                        assert forall|x: Key| seen@.contains(x) && #[trigger] claimants(raw@, x).len() > 1
                            implies exists|c: int| 0 <= c < conflicts@.len() && #[trigger] conflicts@[c].key == x by {
                            if x != k {
                                let b = choose|b: int| 0 <= b < seen@.len() && seen@[b] == x;
                                assert(old_seen.contains(x)) by { assert(old_seen[b] == x); }
                                let c = choose|c: int| 0 <= c < old_conflicts.len() && old_conflicts[c].key == x;
                                assert(conflicts@[c] == old_conflicts[c]);
                            }
                        }
                    } else {
                        assert forall|x: Key| seen@.contains(x) && #[trigger] claimants(raw@, x).len() > 1
                            implies exists|c: int| 0 <= c < conflicts@.len() && #[trigger] conflicts@[c].key == x by {
                            let b = choose|b: int| 0 <= b < seen@.len() && seen@[b] == x;
                            assert(old_seen.contains(x)) by { assert(old_seen[b] == x); }
                        }
                    }
                } else {
                    assert(seen@.contains(k));
                }
                j = j + 1;
            }
            assert forall|k: Key| #[trigger] claims(raw@[i as int], k) implies seen@.contains(k) by {
                let b = choose|b: int| 0 <= b < keys@.len() && keys@[b] == k;
                assert(seen@.contains(keys@[b]));
            }
            i = i + 1;
        }
        if conflicts.len() == 0 {
            assert(conflict_free(raw@)) by {
                assert forall|a: int, b: int, k: Key|
                    0 <= a < b < raw@.len() && #[trigger] claims(raw@[a], k)
                    implies !#[trigger] claims(raw@[b], k) by {
                    if claims(raw@[b], k) {
                        lemma_claimants_len(raw@, k);
                        assert(seen@.contains(k));
                    }
                }
            }
            Ok(Actions(raw))
        } else {
            let x = conflicts[0].key;
            proof {
                lemma_claimants_len(raw@, x);
                let (a, b) = choose|a: int, b: int|
                    0 <= a < b < raw@.len() && claims(raw@[a], x) && claims(raw@[b], x);
                assert(!conflict_free(raw@));
            }
            assert forall|k: Key| #[trigger] claimants(raw@, k).len() > 1 implies exists|c: int|
                0 <= c < conflicts@.len() && #[trigger] conflicts@[c].key == k by {
                lemma_claimants_len(raw@, k);
                let (a, b) = choose|a: int, b: int|
                    0 <= a < b < raw@.len() && claims(raw@[a], k) && claims(raw@[b], k);
                assert(seen@.contains(k));
            }
            Err(ConflictError { conflicts })
        }
    }
}

} // verus!
