//! The operand stack: a bounded last-in, first-out sequence of words.

use vstd::prelude::*;
use crate::word::Word;

verus! {

/// The capacity of the stack.
pub const STACK_LIMIT: usize = 1024;

/// The operand stack.  The top of the stack is the last element.
pub struct Stack {
    pub stack: Vec<Word>,
}

impl View for Stack {
    type V = Seq<Word>;

    open spec fn view(&self) -> Seq<Word> {
        self.stack@
    }
}

/// The `i`-th word from the top of a stack, counting from 0.
pub open spec fn top(s: Seq<Word>, i: int) -> Word {
    s[s.len() - 1 - i]
}

/// A stack without its top `n` words.
pub open spec fn drop_top(s: Seq<Word>, n: int) -> Seq<Word> {
    s.take(s.len() - n)
}

/// The stack after `dup(n)`.
pub open spec fn spec_dup(s: Seq<Word>, n: int) -> Seq<Word> {
    s.push(top(s, n - 1))
}

/// The stack after `swap(n)`.
pub open spec fn spec_swap(s: Seq<Word>, n: int) -> Seq<Word> {
    s.update(s.len() - 1, top(s, n)).update(s.len() - 1 - n, top(s, 0))
}

impl Stack {
    /// Whether the stack is within its capacity.
    pub open spec fn wf(&self) -> bool {
        self@.len() <= STACK_LIMIT
    }

    /// An empty stack.
    pub fn new() -> (r: Stack)
        ensures
            r@ == Seq::<Word>::empty(),
            r.wf(),
    {
        Stack { stack: Vec::with_capacity(STACK_LIMIT) }
    }

    /// Puts a word on top.
    pub fn push(&mut self, value: Word)
        requires
            old(self)@.len() < STACK_LIMIT,
        ensures
            final(self)@ == old(self)@.push(value),
            final(self).wf(),
    {
        self.stack.push(value);
    }

    /// Takes the top word off.
    pub fn pop(&mut self) -> (r: Word)
        requires
            old(self)@.len() > 0,
        ensures
            r == old(self)@.last(),
            final(self)@ == old(self)@.drop_last(),
    {
        self.stack.pop().unwrap()
    }

    /// Takes the top `N` words off and returns them in the order in which
    /// they left the stack, the former top first.
    pub fn pop_n<const N: usize>(&mut self) -> (r: [Word; N])
        requires
            old(self)@.len() >= N,
        ensures
            forall|i: int| 0 <= i < N ==> r@[i] == top(old(self)@, i),
            final(self)@ == drop_top(old(self)@, N as int),
    {
        let mut values: [Word; N] = [Word { l0: 0, l1: 0, l2: 0, l3: 0 }; N];
        let mut i: usize = 0;
        while i < N
            invariant
                i <= N,
                old(self)@.len() >= N,
                self@ == drop_top(old(self)@, i as int),
                forall|j: int| 0 <= j < i ==> values@[j] == top(old(self)@, j),
            decreases N - i,
        {
            let v = self.stack.pop().unwrap();
            values[i] = v;
            i = i + 1;
        }
        values
    }

    /// The number of words on the stack.
    pub fn len(&self) -> (r: usize)
        ensures
            r == self@.len(),
    {
        self.stack.len()
    }

    /// The top word.
    pub fn peek(&self) -> (r: Word)
        requires
            self@.len() > 0,
        ensures
            r == self@.last(),
    {
        self.stack[self.stack.len() - 1]
    }

    /// Pushes a copy of the `n`-th word from the top, counting from 1.
    pub fn dup(&mut self, n: usize)
        requires
            1 <= n <= old(self)@.len(),
            old(self)@.len() < STACK_LIMIT,
        ensures
            final(self)@ == spec_dup(old(self)@, n as int),
            final(self).wf(),
    {
        let v = self.stack[self.stack.len() - n];
        self.stack.push(v);
    }

    /// Exchanges the top word with the `(n + 1)`-th word from the top.
    pub fn swap(&mut self, n: usize)
        requires
            n < old(self)@.len(),
        ensures
            final(self)@ == spec_swap(old(self)@, n as int),
    {
        let len: usize = self.stack.len();
        let tmp = self.stack[len - 1];
        let other = self.stack[len - n - 1];
        self.stack[len - 1] = other;
        self.stack[len - n - 1] = tmp;
    }
}

/// A word pushed and then popped comes back, and the stack is as before.
pub proof fn lemma_push_pop(s: Seq<Word>, v: Word)
    ensures
        s.push(v).last() == v,
        s.push(v).drop_last() == s,
        s.push(v).drop_last().len() == s.len(),
{
    assert(s.push(v).drop_last() =~= s);
}

/// After `dup(n)` a pop returns the duplicated word and leaves the stack as
/// it was before the `dup`.
pub proof fn lemma_dup_pop(s: Seq<Word>, n: int)
    requires
        1 <= n <= s.len(),
    ensures
        spec_dup(s, n).last() == top(s, n - 1),
        spec_dup(s, n).drop_last() == s,
{
    assert(spec_dup(s, n).drop_last() =~= s);
}

} // verus!
