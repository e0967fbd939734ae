//! The tokens of a LUKS2 header, as far as a device handle knows them.
//!
//! A token is a document that the library never looks into, together with
//! the keyslots that it refers to. A reference is a number and nothing
//! more: whether such a keyslot exists is not asked.

use vstd::prelude::*;

verus! {

/// `serde_json::Value`, carried through unread: the body of a token is
/// stored and handed back as the caller supplied it.
#[verifier::external_type_specification]
#[verifier::external_body]
pub struct ExValue(serde_json::Value);

/// How many tokens a LUKS2 header holds.
pub const TOKEN_LIMIT: i32 = 32;

/// The token number that leaves the choice of the token to the engine.
pub const ANY_TOKEN: i32 = -1;

/// One token: its document, and the keyslots that it refers to.
#[derive(Debug, PartialEq)]
pub struct Token {
    /// The document
    pub body: serde_json::Value,
    /// The keyslots that the token refers to
    pub keyslots: Vec<i32>,
}

/// The mathematical value of a `Token`.
pub struct TokenModel {
    /// The document
    pub body: serde_json::Value,
    /// The keyslots that the token refers to
    pub keyslots: Set<i32>,
}

impl View for Token {
    type V = TokenModel;

    open spec fn view(&self) -> TokenModel {
        TokenModel { body: self.body, keyslots: self.keyslots@.to_set() }
    }
}

/// Whether `token` is the number of a token.
pub open spec fn token_named(token: int) -> bool {
    0 <= token < TOKEN_LIMIT
}

/// The tokens after a reference from `token` to `keyslot` was added. A
/// token that is not there gets none.
pub open spec fn with_reference(tokens: Map<int, TokenModel>, token: int, keyslot: i32) -> Map<
    int,
    TokenModel,
> {
    if tokens.contains_key(token) {
        tokens.insert(
            token,
            TokenModel { keyslots: tokens[token].keyslots.insert(keyslot), ..tokens[token] },
        )
    } else {
        tokens
    }
}

/// The tokens after the reference from `token` to `keyslot` was taken
/// away. Where there was none, nothing changes.
pub open spec fn without_reference(tokens: Map<int, TokenModel>, token: int, keyslot: i32) -> Map<
    int,
    TokenModel,
> {
    if tokens.contains_key(token) {
        tokens.insert(
            token,
            TokenModel { keyslots: tokens[token].keyslots.remove(keyslot), ..tokens[token] },
        )
    } else {
        tokens
    }
}

impl Token {
    /// A token with the document `body` and no references.
    pub fn new(body: serde_json::Value) -> (token: Token)
        ensures
            token@ == (TokenModel { body, keyslots: Set::empty() }),
    {
        let token = Token { body, keyslots: Vec::new() };
        assert(token.keyslots@.to_set() =~= Set::<i32>::empty());
        token
    }

    /// Whether the token refers to `keyslot`.
    pub fn refers_to(&self, keyslot: i32) -> (found: bool)
        ensures
            found == self@.keyslots.contains(keyslot),
    {
        let n: usize = self.keyslots.len();
        let mut i: usize = 0;
        while i < n
            invariant
                i <= n,
                n == self.keyslots@.len(),
                forall|j: int| 0 <= j < i ==> self.keyslots@[j] != keyslot,
            decreases n - i,
        {
            if self.keyslots[i] == keyslot {
                return true;
            }
            i += 1;
        }
        false
    }

    /// Adds a reference to `keyslot`.
    pub fn assign(&mut self, keyslot: i32)
        ensures
            final(self)@ == (TokenModel {
                keyslots: old(self)@.keyslots.insert(keyslot),
                ..old(self)@
            }),
    {
        if !self.refers_to(keyslot) {
            self.keyslots.push(keyslot);
            assert(self.keyslots@.to_set() =~= old(self).keyslots@.to_set().insert(keyslot)) by {
                assert forall|k: i32|
                    self.keyslots@.to_set().contains(k) <==> old(self).keyslots@.to_set().insert(
                        keyslot,
                    ).contains(k) by {
                    if self.keyslots@.contains(k) {
                        let j = choose|j: int|
                            0 <= j < self.keyslots@.len() && self.keyslots@[j] == k;
                        if j < old(self).keyslots@.len() {
                            assert(old(self).keyslots@[j] == k);
                        }
                    }
                    if old(self).keyslots@.contains(k) {
                        let j = choose|j: int|
                            0 <= j < old(self).keyslots@.len() && old(self).keyslots@[j] == k;
                        assert(self.keyslots@[j] == k);
                    }
                    if k == keyslot {
                        assert(self.keyslots@[old(self).keyslots@.len() as int] == k);
                    }
                }
            }
        } else {
            assert(old(self).keyslots@.to_set().insert(keyslot) =~= old(self).keyslots@.to_set());
        }
    }

    /// Takes the reference to `keyslot` away. Where there is none, nothing
    /// changes.
    pub fn unassign(&mut self, keyslot: i32)
        ensures
            final(self)@ == (TokenModel {
                keyslots: old(self)@.keyslots.remove(keyslot),
                ..old(self)@
            }),
    {
        let mut kept: Vec<i32> = Vec::new();
        let n: usize = self.keyslots.len();
        let mut i: usize = 0;
        while i < n
            invariant
                i <= n,
                n == self.keyslots@.len(),
                *self == *old(self),
                forall|k: i32|
                    kept@.contains(k) <==> (k != keyslot && exists|j: int|
                        0 <= j < i && self.keyslots@[j] == k),
            decreases n - i,
        {
            let k = self.keyslots[i];
            let ghost before = kept@;
            if k != keyslot {
                kept.push(k);
            }
            proof {
                assert forall|x: i32|
                    kept@.contains(x) <==> (x != keyslot && exists|j: int|
                        0 <= j < i + 1 && self.keyslots@[j] == x) by {
                    if kept@.contains(x) {
                        let at = choose|at: int| 0 <= at < kept@.len() && kept@[at] == x;
                        if at < before.len() {
                            assert(before[at] == x);
                            assert(before.contains(x));
                            let j = choose|j: int| 0 <= j < i && self.keyslots@[j] == x;
                            assert(0 <= j < i + 1 && self.keyslots@[j] == x);
                        } else {
                            assert(x == k);
                            assert(self.keyslots@[i as int] == x);
                        }
                    }
                    if x != keyslot && exists|j: int| 0 <= j < i + 1 && self.keyslots@[j] == x {
                        let j = choose|j: int| 0 <= j < i + 1 && self.keyslots@[j] == x;
                        if j < i {
                            assert(before.contains(x));
                            let at = choose|at: int| 0 <= at < before.len() && before[at] == x;
                            assert(kept@[at] == x);
                        } else {
                            assert(kept@[kept@.len() - 1] == x);
                        }
                    }
                }
            }
            i += 1;
        }
        self.keyslots = kept;
        assert(self.keyslots@.to_set() =~= old(self).keyslots@.to_set().remove(keyslot)) by {
            assert forall|x: i32|
                self.keyslots@.to_set().contains(x) <==> old(self).keyslots@.to_set().remove(
                    keyslot,
                ).contains(x) by {
                if old(self).keyslots@.contains(x) && x != keyslot {
                    let j = choose|j: int|
                        0 <= j < old(self).keyslots@.len() && old(self).keyslots@[j] == x;
                    assert(0 <= j < n && old(self).keyslots@[j] == x);
                }
            }
        }
    }
}

/// The tokens of a header, by number.
#[derive(Debug)]
pub struct TokenTable {
    slots: Vec<Option<Token>>,
}

impl View for TokenTable {
    type V = Map<int, TokenModel>;

    /// Each token that is there, by its number.
    closed spec fn view(&self) -> Map<int, TokenModel> {
        Map::new(
            |token: int|
                token_named(token) && token < self.slots@.len() && self.slots@[token] is Some,
            |token: int| self.slots@[token]->Some_0@,
        )
    }
}

impl TokenTable {
    /// A table without tokens.
    pub fn new() -> (table: TokenTable)
        ensures
            table@ == Map::<int, TokenModel>::empty(),
    {
        let table = TokenTable { slots: Vec::new() };
        assert(table@ =~= Map::<int, TokenModel>::empty());
        table
    }

    /// The token with the number `token`, if there is one.
    pub fn get(&self, token: i32) -> (found: Option<&Token>)
        ensures
            found is Some <==> self@.contains_key(token as int),
            found matches Some(t) ==> t@ == self@[token as int],
    {
        if 0 <= token && token < TOKEN_LIMIT && (token as usize) < self.slots.len() {
            match &self.slots[token as usize] {
                Some(t) => Some(t),
                None => None,
            }
        } else {
            None
        }
    }

    /// Makes room for the token `token`.
    fn reach(&mut self, token: i32)
        requires
            token_named(token as int),
        ensures
            final(self)@ == old(self)@,
            token < final(self).slots@.len(),
            forall|i: int|
                0 <= i < old(self).slots@.len() ==> final(self).slots@[i] == old(self).slots@[i],
            forall|i: int|
                old(self).slots@.len() <= i < final(self).slots@.len() ==> final(self).slots@[i]
                    is None,
    {
        while self.slots.len() <= token as usize
            invariant
                token_named(token as int),
                old(self).slots@.len() <= self.slots@.len(),
                forall|i: int|
                    0 <= i < old(self).slots@.len() ==> self.slots@[i] == old(self).slots@[i],
                forall|i: int| old(self).slots@.len() <= i < self.slots@.len() ==> self.slots@[i]
                    is None,
            decreases token + 1 - self.slots@.len(),
        {
            self.slots.push(None);
        }
        assert(self@ =~= old(self)@);
    }

    /// Puts `value` in the place of the token `token`. Nothing of what was
    /// there before stays. A number that names no token changes nothing.
    pub fn put(&mut self, token: i32, value: Token)
        ensures
            final(self)@ == (if token_named(token as int) {
                old(self)@.insert(token as int, value@)
            } else {
                old(self)@
            }),
    {
        if 0 <= token && token < TOKEN_LIMIT {
            self.reach(token);
            self.slots[token as usize] = Some(value);
            assert(self@ =~= old(self)@.insert(token as int, value@));
        }
    }

    /// Takes the token `token` away. Where there is none, nothing changes.
    pub fn remove(&mut self, token: i32)
        ensures
            final(self)@ == old(self)@.remove(token as int),
    {
        if 0 <= token && token < TOKEN_LIMIT && (token as usize) < self.slots.len() {
            self.slots[token as usize] = None;
        }
        assert(self@ =~= old(self)@.remove(token as int));
    }

    /// Adds a reference from the token `token` to `keyslot`. A token that
    /// is not there gets none.
    pub fn assign(&mut self, token: i32, keyslot: i32)
        ensures
            final(self)@ == with_reference(old(self)@, token as int, keyslot),
    {
        if 0 <= token && token < TOKEN_LIMIT && (token as usize) < self.slots.len() {
            match &mut self.slots[token as usize] {
                Some(t) => {
                    t.assign(keyslot);
                },
                None => {},
            }
            assert(self@ =~= with_reference(old(self)@, token as int, keyslot));
        }
    }

    /// Takes the reference from the token `token` to `keyslot` away. Where
    /// there is no such token or no such reference, nothing changes.
    pub fn unassign(&mut self, token: i32, keyslot: i32)
        ensures
            final(self)@ == without_reference(old(self)@, token as int, keyslot),
    {
        if 0 <= token && token < TOKEN_LIMIT && (token as usize) < self.slots.len() {
            match &mut self.slots[token as usize] {
                Some(t) => {
                    t.unassign(keyslot);
                },
                None => {},
            }
            assert(self@ =~= without_reference(old(self)@, token as int, keyslot));
        }
    }

    /// Takes every token away.
    pub fn clear(&mut self)
        ensures
            final(self)@ == Map::<int, TokenModel>::empty(),
    {
        self.slots = Vec::new();
        assert(self@ =~= Map::<int, TokenModel>::empty());
    }

    /// The numbers of the tokens that are there, in rising order.
    pub fn numbers(&self) -> (found: Vec<i32>)
        ensures
            forall|token: i32| found@.contains(token) <==> self@.contains_key(token as int),
            forall|i: int, j: int| 0 <= i < j < found@.len() ==> found@[i] < found@[j],
    {
        let mut found: Vec<i32> = Vec::new();
        let mut i: i32 = 0;
        while i < TOKEN_LIMIT && (i as usize) < self.slots.len()
            invariant
                0 <= i <= TOKEN_LIMIT,
                i <= self.slots@.len(),
                forall|token: i32|
                    found@.contains(token) <==> (0 <= token < i && self.slots@[token as int]
                        is Some),
                forall|a: int, b: int| 0 <= a < b < found@.len() ==> found@[a] < found@[b],
            decreases TOKEN_LIMIT - i,
        {
            let ghost before = found@;
            if self.slots[i as usize].is_some() {
                found.push(i);
            }
            proof {
                assert forall|token: i32|
                    found@.contains(token) <==> (0 <= token < i + 1 && self.slots@[token as int]
                        is Some) by {
                    if 0 <= token < i + 1 && self.slots@[token as int] is Some {
                        if token < i {
                            assert(before.contains(token));
                            let at = choose|at: int| 0 <= at < before.len() && before[at] == token;
                            assert(found@[at] == token);
                        } else {
                            assert(found@[found@.len() - 1] == token);
                        }
                    }
                    if found@.contains(token) {
                        let at = choose|at: int| 0 <= at < found@.len() && found@[at] == token;
                        if at < before.len() {
                            assert(before[at] == token);
                            assert(before.contains(token));
                        }
                    }
                }
                assert forall|a: int, b: int| 0 <= a < b < found@.len() implies found@[a]
                    < found@[b] by {
                    if b >= before.len() {
                        assert(before[a] == found@[a]);
                        assert(before.contains(found@[a]));
                    }
                }
            }
            i += 1;
        }
        found
    }
}

} // verus!
