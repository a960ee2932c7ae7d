//! The token cursor: a forward-only, single-lookahead position over a
//! token sequence. Advancing it is the only side effect any parsing
//! function performs; once a token is consumed it cannot be un-consumed.

use vstd::prelude::*;
use crate::token::{Token, TokenV};

verus! {

/// A forward-only cursor over a lexed token sequence.
pub struct Cursor<'a> {
    /// The tokens being parsed; the cursor never changes them.
    pub tokens: &'a Vec<Token>,
    /// The position of the next unconsumed token.
    pub pos: usize,
}

impl<'a> Cursor<'a> {
    /// The token sequence under the cursor, as views.
    pub open spec fn toks(&self) -> Seq<TokenV> {
        self.tokens.deep_view()
    }

    /// The cursor position never passes the end of the sequence.
    pub open spec fn wf(&self) -> bool {
        self.pos <= self.toks().len()
    }

    /// A fresh cursor at the start of a token sequence.
    pub fn new(tokens: &'a Vec<Token>) -> (c: Cursor<'a>)
        ensures
            c.tokens == tokens,
            c.pos == 0,
            c.wf(),
    {
        proof {
            assert(tokens.deep_view().len() == tokens@.len());
        }
        Cursor { tokens, pos: 0 }
    }

    /// The next unconsumed token, without consuming it.
    pub fn peek(&self) -> (r: Option<&'a Token>)
        requires
            self.wf(),
        ensures
            match r {
                Some(t) => self.pos < self.toks().len() && t@ == self.toks()[self.pos as int],
                None => self.pos == self.toks().len(),
            },
    {
        proof {
            assert(self.tokens.deep_view().len() == self.tokens@.len());
        }
        if self.pos < self.tokens.len() {
            proof {
                assert(self.tokens.deep_view()[self.pos as int] == self.tokens@[self.pos as int]@);
            }
            Some(&self.tokens[self.pos])
        } else {
            None
        }
    }

    /// Consume one token.
    pub fn advance(&mut self)
        requires
            old(self).wf(),
            old(self).pos < old(self).toks().len(),
        ensures
            final(self).tokens == old(self).tokens,
            final(self).pos == old(self).pos + 1,
            final(self).wf(),
    {
        let n = self.tokens.len();
        proof {
            assert(self.tokens.deep_view().len() == self.tokens@.len());
            assert(self.pos < n);
        }
        self.pos = self.pos + 1;
    }

    /// Consume and return the next token, if any.
    pub fn next(&mut self) -> (r: Option<&'a Token>)
        requires
            old(self).wf(),
        ensures
            final(self).tokens == old(self).tokens,
            final(self).wf(),
            match r {
                Some(t) => old(self).pos < old(self).toks().len() && t@ == old(self).toks()[old(
                    self,
                ).pos as int] && final(self).pos == old(self).pos + 1,
                None => old(self).pos == old(self).toks().len() && final(self).pos == old(
                    self,
                ).pos,
            },
    {
        let r = self.peek();
        if r.is_some() {
            self.advance();
        }
        r
    }
}

/// The frame every parsing function preserves: the tokens are unchanged
/// and the position only moves forward, staying in bounds.
pub open spec fn cursor_frame(before: Cursor, after: Cursor) -> bool {
    &&& after.tokens == before.tokens
    &&& before.pos <= after.pos
    &&& after.pos <= before.toks().len()
}

} // verus!
