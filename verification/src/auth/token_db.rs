//! The access tokens handed out at login, each with the user it belongs to.
use vstd::prelude::*;
use vstd::hash_map::StringHashMap;

verus! {

/// The database storing all the access tokens: each registered token is
/// mapped to the id of its user.
pub struct AccessTokenDatabase {
    tokens: StringHashMap<String>,
}

impl View for AccessTokenDatabase {
    type V = Map<Seq<char>, Seq<char>>;

    closed spec fn view(&self) -> Map<Seq<char>, Seq<char>> {
        self.tokens@.map_values(|id: String| id@)
    }
}

impl Default for AccessTokenDatabase {
    /// A database with no token.
    fn default() -> (r: Self)
        ensures
            r@ == Map::<Seq<char>, Seq<char>>::empty(),
    {
        let r = AccessTokenDatabase { tokens: StringHashMap::new() };
        assert(r@ =~= Map::<Seq<char>, Seq<char>>::empty());
        r
    }
}

impl AccessTokenDatabase {
    /// Store a new token in the database; a token already present is given
    /// the new id.
    pub fn register(&mut self, token: String, id: String)
        ensures
            final(self)@ == old(self)@.insert(token@, id@),
    {
        let ghost before = self.tokens@;
        self.tokens.insert(token, id);
        assert(self@ =~= old(self)@.insert(token@, id@)) by {
            assert(self.tokens@ == before.insert(token@, id));
        }
    }

    /// Return the id of the matching token if there is one.
    pub fn get_blocking(&self, token: String) -> (r: Option<String>)
        ensures
            match r {
                Some(id) => self@.contains_key(token@) && id@ == self@[token@],
                None => !self@.contains_key(token@),
            },
    {
        match self.tokens.get(token.as_str()) {
            Some(id) => Some(id.clone()),
            None => None,
        }
    }
}

/// Once a token is registered for a user, looking the token up gives that
/// user, and every other token keeps its user, or its absence.
pub proof fn lemma_lookup_after_register(
    tokens: Map<Seq<char>, Seq<char>>,
    token: Seq<char>,
    id: Seq<char>,
    other: Seq<char>,
)
    ensures
        tokens.insert(token, id).contains_key(token),
        tokens.insert(token, id)[token] == id,
        other != token ==> tokens.insert(token, id).contains_key(other) == tokens.contains_key(other),
        other != token && tokens.contains_key(other) ==> tokens.insert(token, id)[other]
            == tokens[other],
{
}

} // verus!
