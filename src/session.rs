use vstd::prelude::*;

verus! {

/// What one acquisition of the process-wide lock holds.
#[derive(PartialEq, Eq, Structural, Clone, Copy, Debug)]
pub enum Token {
    /// The acquisition took the process-wide mutex; releasing it must clear
    /// the thread's flag and then let the mutex go.
    Owner,
    /// The thread already held the session; this acquisition rides on it,
    /// neither blocks nor takes the mutex, and releasing it does nothing.
    Rider,
}

/// The token that an acquisition gets on a thread whose flag is `held`.
pub open spec fn token_for(held: bool) -> Token {
    if held {
        Token::Rider
    } else {
        Token::Owner
    }
}

/// The thread's flag after `token` is released from a flag of `held`.
pub open spec fn held_after_release(token: Token, held: bool) -> bool {
    match token {
        Token::Owner => false,
        Token::Rider => held,
    }
}

impl Token {
    /// Whether this token holds the mutex, so that acquiring it had to block
    /// until no other thread held a session, and releasing it frees the mutex.
    pub fn owns_session(&self) -> (r: bool)
        ensures
            r == (*self == Token::Owner),
    {
        match self {
            Token::Owner => true,
            Token::Rider => false,
        }
    }
}

/// The per-thread flag: whether the thread currently holds a session.
#[derive(Clone, Copy, Debug)]
pub struct ThreadSession {
    pub held: bool,
}

impl ThreadSession {
    /// The flag of a thread that has not yet taken the lock.
    pub fn new() -> (s: ThreadSession)
        ensures
            !s.held,
    {
        ThreadSession { held: false }
    }

    /// Decides an acquisition. A thread that already holds the session gets a
    /// `Rider`; any other gets an `Owner`, and must obtain the mutex before
    /// it stores the flag that this call sets.
    pub fn acquire(&mut self) -> (t: Token)
        ensures
            t == token_for(old(self).held),
            final(self).held,
    {
        let t = if self.held {
            Token::Rider
        } else {
            Token::Owner
        };
        self.held = true;
        t
    }

    /// Releases a token: an `Owner` clears the flag (before the mutex is let
    /// go), a `Rider` leaves it as it is.
    pub fn release(&mut self, token: Token)
        ensures
            final(self).held == held_after_release(token, old(self).held),
    {
        if token.owns_session() {
            self.held = false;
        }
    }
}

/// The tokens of `n` acquisitions made one after another on one thread whose
/// flag was `held` before the first.
pub open spec fn nested_tokens(held: bool, n: nat) -> Seq<Token>
    decreases n,
{
    if n == 0 {
        Seq::empty()
    } else {
        let before = (n - 1) as nat;
        nested_tokens(held, before).push(token_for(held || before > 0))
    }
}

/// The thread's flag after `tokens` are released, the last one first,
/// starting from a flag of `held`.
pub open spec fn held_after_releases(held: bool, tokens: Seq<Token>) -> bool
    decreases tokens.len(),
{
    if tokens.len() == 0 {
        held
    } else {
        held_after_releases(held_after_release(tokens.last(), held), tokens.drop_last())
    }
}

/// Releasing nothing but riders leaves the flag as it was.
proof fn lemma_riders_keep_flag(held: bool, tokens: Seq<Token>)
    requires
        forall|i: int| 0 <= i < tokens.len() ==> tokens[i] == Token::Rider,
    ensures
        held_after_releases(held, tokens) == held,
    decreases tokens.len(),
{
    if tokens.len() > 0 {
        lemma_riders_keep_flag(held, tokens.drop_last());
    }
}

/// Where all tokens but the first are riders, releasing them all comes to
/// releasing the first alone.
proof fn lemma_outermost_decides(held: bool, tokens: Seq<Token>)
    requires
        tokens.len() > 0,
        forall|i: int| 0 < i < tokens.len() ==> tokens[i] == Token::Rider,
    ensures
        held_after_releases(held, tokens) == held_after_release(tokens[0], held),
    decreases tokens.len(),
{
    if tokens.len() > 1 {
        assert(tokens.last() == Token::Rider);
        assert(tokens.drop_last()[0] == tokens[0]);
        lemma_outermost_decides(held, tokens.drop_last());
        assert(held_after_releases(held, tokens) == held_after_releases(held, tokens.drop_last()));
    } else {
        assert(tokens.drop_last().len() == 0);
        assert(held_after_releases(held, tokens) == held_after_releases(
            held_after_release(tokens[0], held),
            tokens.drop_last(),
        ));
    }
}

/// Nesting on one thread: of any number of acquisitions made one inside the
/// other, only the outermost can own the session; every inner one is a rider,
/// which neither blocks nor takes the mutex. Releasing them innermost first
/// keeps the session held until the outermost is released, and that release
/// puts the flag back to what it was before the outermost acquisition.
pub proof fn lemma_nested_sessions(held: bool, n: nat)
    ensures
        nested_tokens(held, n).len() == n,
        n > 0 ==> nested_tokens(held, n)[0] == token_for(held),
        forall|i: int| 0 < i < n ==> nested_tokens(held, n)[i] == Token::Rider,
        forall|j: int| 0 < j <= n ==> held_after_releases(true, nested_tokens(held, n).subrange(j, n as int)),
        n > 0 ==> held_after_releases(true, nested_tokens(held, n)) == held,
    decreases n,
{
    if n > 0 {
        let before = (n - 1) as nat;
        lemma_nested_sessions(held, before);
        let ts = nested_tokens(held, n);
        assert(ts.drop_last() =~= nested_tokens(held, before));
        assert forall|j: int| 0 < j <= n implies held_after_releases(true, ts.subrange(j, n as int)) by {
            lemma_riders_keep_flag(true, ts.subrange(j, n as int));
        }
        lemma_outermost_decides(true, ts);
    }
}

} // verus!
