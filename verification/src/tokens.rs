//! Token identity: on-chain addresses, token records, and the registry
//! lookup that resolves a token symbol to its record.

use vstd::prelude::*;

verus! {

/// A 20-byte on-chain address, stored as its high 32 bits and low 128 bits.
///
/// The all-zero value is the sentinel the external pool resolver returns to
/// signal that no pool exists for a requested pair and fee tier.
#[derive(Clone, Copy, PartialEq, Eq, Structural, Debug)]
pub struct Address {
    pub hi: u32,
    pub lo: u128,
}

impl Address {
    /// The sentinel zero address.
    pub fn zero() -> (r: Address)
        ensures
            r == (Address { hi: 0u32, lo: 0u128 }),
    {
        Address { hi: 0, lo: 0 }
    }

    /// Whether this is the sentinel zero address.
    pub fn is_zero(&self) -> (r: bool)
        ensures
            r == (*self == Address { hi: 0u32, lo: 0u128 }),
    {
        self.hi == 0 && self.lo == 0
    }
}

/// A token's identity: its symbol, its on-chain address, and its decimal
/// precision. Immutable once loaded; the external registry creates it and
/// this crate only reads it.
#[derive(Clone, Debug)]
pub struct Token {
    pub symbol: String,
    pub address: Address,
    pub decimals: u8,
}

impl Token {
    /// An exact copy of the token record.
    pub fn duplicate(&self) -> (r: Token)
        ensures
            r == *self,
    {
        Token { symbol: self.symbol.clone(), address: self.address, decimals: self.decimals }
    }
}

/// The loaded contents of the external token registry: a list of token
/// records, searched by symbol.
pub struct TokenRegistry {
    pub tokens: Vec<Token>,
}

/// The index of the first token in `tokens` whose symbol is `symbol`, if any.
pub open spec fn first_match(tokens: Seq<Token>, symbol: Seq<char>) -> Option<int>
    decreases tokens.len(),
{
    if tokens.len() == 0 {
        None
    } else if tokens[0].symbol@ == symbol {
        Some(0)
    } else {
        match first_match(tokens.skip(1), symbol) {
            Some(i) => Some(i + 1),
            None => None,
        }
    }
}

/// A found index lies in range, holds the symbol, and is the first to do so;
/// when none is found, no entry holds the symbol.
pub proof fn lemma_first_match(tokens: Seq<Token>, symbol: Seq<char>)
    ensures
        match first_match(tokens, symbol) {
            Some(i) => {
                &&& 0 <= i < tokens.len()
                &&& tokens[i].symbol@ == symbol
                &&& forall|j: int| 0 <= j < i ==> tokens[j].symbol@ != symbol
            },
            None => forall|j: int|
                0 <= j < tokens.len() ==> tokens[j].symbol@ != symbol,
        },
    decreases tokens.len(),
{
    if tokens.len() > 0 && tokens[0].symbol@ != symbol {
        let rest = tokens.skip(1);
        lemma_first_match(rest, symbol);
        match first_match(rest, symbol) {
            Some(i) => {
                assert(first_match(tokens, symbol) == Some(i + 1));
                assert(tokens[i + 1] == rest[i]);
                assert forall|j: int| 0 <= j < i + 1 implies tokens[j].symbol@
                    != symbol by {
                    if j >= 1 {
                        assert(tokens[j] == rest[j - 1]);
                    }
                }
            },
            None => {
                assert forall|j: int| 0 <= j < tokens.len() implies tokens[j].symbol@
                    != symbol by {
                    if j >= 1 {
                        assert(tokens[j] == rest[j - 1]);
                    }
                }
            },
        }
    }
}

impl TokenRegistry {
    /// An empty registry.
    pub fn new() -> (r: TokenRegistry)
        ensures
            r.tokens@ == Seq::<Token>::empty(),
    {
        TokenRegistry { tokens: Vec::new() }
    }

    /// Adds a token record at the end of the registry.
    pub fn register(&mut self, token: Token)
        ensures
            final(self).tokens@ == old(self).tokens@.push(token),
    {
        self.tokens.push(token);
    }

    /// Looks a symbol up and returns the first token record that carries it,
    /// or `None` when the registry holds no such symbol.
    pub fn resolve(&self, symbol: &String) -> (r: Option<&Token>)
        ensures
            match r {
                Some(t) => {
                    &&& first_match(self.tokens@, symbol@) matches Some(i)
                        && *t == self.tokens@[i]
                },
                None => first_match(self.tokens@, symbol@) is None,
            },
    {
        proof {
            lemma_first_match(self.tokens@, symbol@);
        }
        let n = self.tokens.len();
        let mut k: usize = 0;
        while k < n
            invariant
                n == self.tokens@.len(),
                0 <= k <= n,
                forall|j: int| 0 <= j < k ==> self.tokens@[j].symbol@ != symbol@,
            decreases n - k,
        {
            if self.tokens[k].symbol == *symbol {
                proof {
                    first_match_prefix_free(self.tokens@, symbol@, k as int);
                }
                return Some(&self.tokens[k]);
            }
            k += 1;
        }
        None
    }
}

/// When index `k` holds the symbol and no earlier index does, `k` is the
/// first match.
proof fn first_match_prefix_free(tokens: Seq<Token>, symbol: Seq<char>, k: int)
    requires
        0 <= k < tokens.len(),
        tokens[k].symbol@ == symbol,
        forall|j: int| 0 <= j < k ==> tokens[j].symbol@ != symbol,
    ensures
        first_match(tokens, symbol) == Some(k),
    decreases k,
{
    if k == 0 {
    } else {
        assert forall|j: int| 0 <= j < k - 1 implies tokens.skip(1)[j].symbol@
            != symbol by {
            assert(tokens.skip(1)[j] == tokens[j + 1]);
        }
        assert(tokens.skip(1)[k - 1] == tokens[k]);
        first_match_prefix_free(tokens.skip(1), symbol, k - 1);
    }
}

} // verus!
