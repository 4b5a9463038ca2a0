use crate::state::Game;
use vstd::prelude::*;

verus! {

/// Whether session `g` is stored under the ordered key (`h`, `o`). The pair
/// is ordered: (host, opponent) and (opponent, host) are distinct keys.
pub open spec fn key_matches(g: Game, h: Seq<char>, o: Seq<char>) -> bool {
    g.host@ == h && g.opponent@ == o
}

/// Whether two sessions occupy the same ordered key.
pub open spec fn same_key(a: Game, b: Game) -> bool {
    a.host@ == b.host@ && a.opponent@ == b.opponent@
}

/// No two sessions of `s` occupy the same ordered key.
pub open spec fn distinct_keys(s: Seq<Game>) -> bool {
    forall|i: int, j: int| 0 <= i < j < s.len() ==> !#[trigger] same_key(s[i], s[j])
}

/// The first session in `s` stored under (`h`, `o`), if any.
pub open spec fn seq_get(s: Seq<Game>, h: Seq<char>, o: Seq<char>) -> Option<Game>
    decreases s.len(),
{
    if s.len() == 0 {
        None
    } else if key_matches(s[0], h, o) {
        Some(s[0])
    } else {
        seq_get(s.drop_first(), h, o)
    }
}

/// A lookup misses exactly when no stored session has the key, and a hit
/// returns a session bearing the key it was looked up under.
proof fn lemma_seq_get_characterization(s: Seq<Game>, h: Seq<char>, o: Seq<char>)
    ensures
        seq_get(s, h, o) is None <==> (forall|i: int|
            0 <= i < s.len() ==> !key_matches(#[trigger] s[i], h, o)),
        seq_get(s, h, o) matches Some(g) ==> key_matches(g, h, o),
    decreases s.len(),
{
    if s.len() > 0 {
        lemma_seq_get_characterization(s.drop_first(), h, o);
        if !key_matches(s[0], h, o) {
            if seq_get(s, h, o) is None {
                assert forall|i: int| 0 <= i < s.len() implies !key_matches(
                    #[trigger] s[i],
                    h,
                    o,
                ) by {
                    if i > 0 {
                        assert(s[i] == s.drop_first()[i - 1]);
                    }
                }
            }
            if forall|i: int| 0 <= i < s.len() ==> !key_matches(#[trigger] s[i], h, o) {
                assert forall|i: int| 0 <= i < s.drop_first().len() implies !key_matches(
                    #[trigger] s.drop_first()[i],
                    h,
                    o,
                ) by {
                    assert(s.drop_first()[i] == s[i + 1]);
                    assert(!key_matches(s[i + 1], h, o));
                }
            }
        }
    }
}

/// A lookup returns the earliest session with the key.
proof fn lemma_seq_get_first(s: Seq<Game>, h: Seq<char>, o: Seq<char>, i: int)
    requires
        0 <= i < s.len(),
        key_matches(s[i], h, o),
        forall|j: int| 0 <= j < i ==> !key_matches(#[trigger] s[j], h, o),
    ensures
        seq_get(s, h, o) == Some(s[i]),
    decreases i,
{
    if i > 0 {
        lemma_seq_get_first(s.drop_first(), h, o, i - 1);
        assert(forall|j: int|
            0 <= j < s.drop_first().len() ==> #[trigger] s.drop_first()[j] == s[j + 1]);
    }
}

/// Appending a session changes exactly the lookups of its own key, and only
/// when that key was previously absent.
proof fn lemma_seq_get_push(s: Seq<Game>, g: Game, h: Seq<char>, o: Seq<char>)
    ensures
        seq_get(s.push(g), h, o) == (if seq_get(s, h, o) is Some {
            seq_get(s, h, o)
        } else if key_matches(g, h, o) {
            Some(g)
        } else {
            None
        }),
    decreases s.len(),
{
    if s.len() == 0 {
        assert(s.push(g).drop_first() =~= s);
    } else {
        lemma_seq_get_push(s.drop_first(), g, h, o);
        assert(s.push(g).drop_first() =~= s.drop_first().push(g));
    }
}

/// Removing the session at index `i` empties exactly its own key and leaves
/// every other lookup as it was, provided keys are distinct.
proof fn lemma_seq_get_remove(s: Seq<Game>, i: int, h: Seq<char>, o: Seq<char>)
    requires
        0 <= i < s.len(),
        distinct_keys(s),
    ensures
        key_matches(s[i], h, o) ==> seq_get(s.remove(i), h, o) is None,
        !key_matches(s[i], h, o) ==> seq_get(s.remove(i), h, o) == seq_get(s, h, o),
    decreases i,
{
    if i == 0 {
        assert(s.remove(0) =~= s.drop_first());
        if key_matches(s[0], h, o) {
            lemma_seq_get_characterization(s.drop_first(), h, o);
            assert forall|j: int| 0 <= j < s.drop_first().len() implies !key_matches(
                #[trigger] s.drop_first()[j],
                h,
                o,
            ) by {
                assert(s.drop_first()[j] == s[j + 1]);
                assert(!same_key(s[0], s[j + 1]));
            }
        }
    } else {
        assert(s.remove(i).len() == s.len() - 1);
        assert(s.remove(i)[0] == s[0]);
        assert(s.remove(i).drop_first() =~= s.drop_first().remove(i - 1));
        assert(distinct_keys(s.drop_first())) by {
            assert forall|a: int, b: int|
                0 <= a < b < s.drop_first().len() implies !#[trigger] same_key(
                s.drop_first()[a],
                s.drop_first()[b],
            ) by {
                assert(s.drop_first()[a] == s[a + 1]);
                assert(s.drop_first()[b] == s[b + 1]);
                assert(!same_key(s[a + 1], s[b + 1]));
            }
        }
        lemma_seq_get_remove(s.drop_first(), i - 1, h, o);
        if key_matches(s[0], h, o) {
            // The head cannot share the removed entry's key.
            assert(!same_key(s[0], s[i]));
        }
    }
}

/// The session store: at most one session per ordered (host, opponent) pair.
pub struct Games {
    entries: Vec<Game>,
}

impl Games {
    /// The store's invariant: stored keys are pairwise distinct.
    pub closed spec fn wf(&self) -> bool {
        distinct_keys(self.entries@)
    }

    /// The session stored under (`h`, `o`), if any.
    pub closed spec fn spec_get(&self, h: Seq<char>, o: Seq<char>) -> Option<Game> {
        seq_get(self.entries@, h, o)
    }

    /// An empty store.
    pub fn new() -> (r: Self)
        ensures
            r.wf(),
            forall|h: Seq<char>, o: Seq<char>| r.spec_get(h, o) is None,
    {
        let r = Games { entries: Vec::new() };
        proof {
            assert forall|h: Seq<char>, o: Seq<char>| r.spec_get(h, o) is None by {
                lemma_seq_get_characterization(r.entries@, h, o);
            }
        }
        r
    }

    /// The index of the session under (`host`, `opponent`), scanning from the
    /// front.
    fn find_index(&self, host: &String, opponent: &String) -> (r: Option<usize>)
        ensures
            match r {
                Some(i) => i < self.entries@.len() && key_matches(
                    self.entries@[i as int],
                    host@,
                    opponent@,
                ) && (forall|j: int|
                    0 <= j < i ==> !key_matches(#[trigger] self.entries@[j], host@, opponent@)),
                None => forall|j: int|
                    0 <= j < self.entries@.len() ==> !key_matches(
                        #[trigger] self.entries@[j],
                        host@,
                        opponent@,
                    ),
            },
    {
        let n = self.entries.len();
        let mut i: usize = 0;
        while i < n
            invariant
                n == self.entries@.len(),
                i <= n,
                forall|j: int| 0 <= j < i ==> !key_matches(#[trigger] self.entries@[j], host@, opponent@),
            decreases n - i,
        {
            let e = &self.entries[i];
            if e.host == *host && e.opponent == *opponent {
                return Some(i);
            }
            i = i + 1;
        }
        None
    }

    /// Read-only lookup: a copy of the session under (`host`, `opponent`), or
    /// `None`; the store is never mutated.
    pub fn may_load(&self, host: &String, opponent: &String) -> (r: Option<Game>)
        ensures
            r == self.spec_get(host@, opponent@),
    {
        match self.find_index(host, opponent) {
            None => {
                proof {
                    lemma_seq_get_characterization(self.entries@, host@, opponent@);
                }
                None
            },
            Some(i) => {
                proof {
                    lemma_seq_get_first(self.entries@, host@, opponent@, i as int);
                }
                let g = &self.entries[i];
                let copy = Game {
                    host: g.host.clone(),
                    opponent: g.opponent.clone(),
                    host_move: g.host_move,
                    opp_move: g.opp_move,
                    result: g.result,
                };
                assert(copy == self.entries@[i as int]);
                Some(copy)
            },
        }
    }

    /// Stores a new session under its own (host, opponent) key. The key must
    /// be free; `crate::contract::try_start_game` turns an occupied key into
    /// an error before calling this.
    pub fn save(&mut self, game: Game)
        requires
            old(self).wf(),
            old(self).spec_get(game.host@, game.opponent@) is None,
        ensures
            final(self).wf(),
            final(self).spec_get(game.host@, game.opponent@) == Some(game),
            forall|h: Seq<char>, o: Seq<char>|
                !(h == game.host@ && o == game.opponent@) ==> final(self).spec_get(h, o) == old(
                    self,
                ).spec_get(h, o),
    {
        proof {
            lemma_seq_get_characterization(self.entries@, game.host@, game.opponent@);
        }
        let ghost pre = self.entries@;
        let ghost g = game;
        self.entries.push(game);
        proof {
            assert(self.entries@ == pre.push(g));
            assert forall|a: int, b: int|
                0 <= a < b < self.entries@.len() implies !#[trigger] same_key(
                self.entries@[a],
                self.entries@[b],
            ) by {
                if b == pre.len() {
                    assert(self.entries@[b] == g);
                    assert(!key_matches(pre[a], g.host@, g.opponent@));
                } else {
                    assert(!same_key(pre[a], pre[b]));
                }
            }
            lemma_seq_get_push(pre, g, g.host@, g.opponent@);
            assert forall|h: Seq<char>, o: Seq<char>|
                !(h == g.host@ && o == g.opponent@) implies self.spec_get(h, o) == seq_get(
                pre,
                h,
                o,
            ) by {
                lemma_seq_get_push(pre, g, h, o);
            }
        }
    }

    /// Any session found under key (`h`, `o`) is hosted by `h` against `o`:
    /// the stored identities always agree with the key the session is found
    /// under, so an authorization check against the stored opponent can
    /// never disagree with the lookup.
    pub proof fn lemma_key_agreement(&self, h: Seq<char>, o: Seq<char>)
        ensures
            self.spec_get(h, o) matches Some(g) ==> g.host@ == h && g.opponent@ == o,
    {
        lemma_seq_get_characterization(self.entries@, h, o);
    }

    /// Deletes the session under (`host`, `opponent`), if any; every other
    /// key keeps its session.
    pub fn remove(&mut self, host: &String, opponent: &String)
        requires
            old(self).wf(),
        ensures
            final(self).wf(),
            final(self).spec_get(host@, opponent@) is None,
            forall|h: Seq<char>, o: Seq<char>|
                !(h == host@ && o == opponent@) ==> final(self).spec_get(h, o) == old(
                    self,
                ).spec_get(h, o),
    {
        match self.find_index(host, opponent) {
            None => {
                proof {
                    lemma_seq_get_characterization(self.entries@, host@, opponent@);
                }
            },
            Some(i) => {
                let ghost pre = self.entries@;
                self.entries.remove(i);
                proof {
                    assert(self.entries@ == pre.remove(i as int));
                    pre.remove_ensures(i as int);
                    assert forall|a: int, b: int|
                        0 <= a < b < self.entries@.len() implies !#[trigger] same_key(
                        self.entries@[a],
                        self.entries@[b],
                    ) by {
                        let a0: int = if a < i { a } else { a + 1 };
                        let b0: int = if b < i { b } else { b + 1 };
                        assert(self.entries@[a] == pre[a0]);
                        assert(self.entries@[b] == pre[b0]);
                        assert(!same_key(pre[a0], pre[b0]));
                    }
                    lemma_seq_get_remove(pre, i as int, host@, opponent@);
                    assert forall|h: Seq<char>, o: Seq<char>|
                        !(h == host@ && o == opponent@) implies self.spec_get(h, o) == seq_get(
                        pre,
                        h,
                        o,
                    ) by {
                        lemma_seq_get_remove(pre, i as int, h, o);
                    }
                }
            },
        }
    }
}

} // verus!
