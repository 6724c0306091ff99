//! A stack.

use vstd::prelude::*;

verus! {

/// A stack: what was pushed last is popped first.
pub struct MyStack<T> {
    data: Vec<T>,
}

impl<T> View for MyStack<T> {
    type V = Seq<T>;

    /// What the stack holds, the top last.
    closed spec fn view(&self) -> Seq<T> {
        self.data@
    }
}

impl<T> MyStack<T> {
    /// An empty stack.
    pub fn new() -> (stack: MyStack<T>)
        ensures
            stack@ == Seq::<T>::empty(),
    {
        MyStack { data: Vec::new() }
    }

    /// Puts `item` on top of the stack.
    pub fn push(&mut self, item: T)
        ensures
            final(self)@ == old(self)@.push(item),
    {
        self.data.push(item);
    }

    /// Takes the top off the stack and returns it, or returns nothing and
    /// leaves the stack as it is where it is empty.
    pub fn pop(&mut self) -> (top: Option<T>)
        ensures
            old(self)@.len() == 0 ==> top is None && final(self)@ == old(self)@,
            old(self)@.len() > 0 ==> top == Some(old(self)@.last()) && final(self)@ == old(
                self,
            )@.drop_last(),
    {
        if self.is_empty() {
            None
        } else {
            self.data.pop()
        }
    }

    /// Whether the stack is empty.
    pub fn is_empty(&self) -> (empty: bool)
        ensures
            empty == (self@.len() == 0),
    {
        self.data.len() == 0
    }
}

} // verus!
