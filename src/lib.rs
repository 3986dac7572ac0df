//! A cursor over a borrowed, read-only sequence of comparable elements.
//!
//! The [`Scanner`] keeps one read position into its buffer and offers the
//! primitives that tokenizers and parsers are built from: lookahead, consuming
//! one element, consuming on a match, matching a run of elements, and reading
//! an absolute sub-range. The position never leaves `0..=len`, and an operation
//! that does not match leaves it where it was.
//!
//! Whether `take` and `contains` match is stated through the element type's
//! `eq_spec`, for element types whose `==` follows it (`obeys_eq_spec`), as
//! integers, `char` and `bool` do. For any element type a match moves the
//! cursor by exactly what it consumed and a miss does not move it.
use vstd::prelude::*;
use vstd::std_specs::cmp::PartialEqSpec;

verus! {

/// A read position into a borrowed buffer of elements.
pub struct Scanner<'a, T> {
    cursor: usize,
    buffer: &'a [T],
}

impl<'a, T> Scanner<'a, T> {
    /// The cursor never runs past the end of the buffer.
    #[verifier::type_invariant]
    closed spec fn in_bounds(&self) -> bool {
        self.cursor <= self.buffer@.len()
    }

    /// The elements being scanned.
    pub closed spec fn buf(&self) -> Seq<T> {
        self.buffer@
    }

    /// The offset of the next unread element.
    pub closed spec fn pos(&self) -> nat {
        self.cursor as nat
    }
}

impl<'a, T: PartialEq> Scanner<'a, T> {
    /// A scanner at the start of `buffer`.
    pub fn new(buffer: &'a [T]) -> (s: Self)
        ensures
            s.buf() == buffer@,
            s.pos() == 0,
    {
        Scanner { cursor: 0, buffer }
    }

    /// The current offset, for reporting where an error was found.
    pub fn cursor(&self) -> (r: usize)
        ensures
            r == self.pos(),
            r <= self.buf().len(),
    {
        proof {
            use_type_invariant(self);
        }
        self.cursor
    }

    /// True when every element has been consumed.
    pub fn is_done(&self) -> (r: bool)
        ensures
            r == (self.pos() == self.buf().len()),
    {
        self.cursor == self.buffer.len()
    }

    /// The element at the cursor, without consuming it ("lookahead").
    pub fn peek(&self) -> (r: Option<&'a T>)
        ensures
            r == next_of(self.buf(), self.pos()),
    {
        proof {
            use_type_invariant(self);
        }
        if self.cursor < self.buffer.len() {
            Some(&self.buffer[self.cursor])
        } else {
            None
        }
    }

    /// The element at the cursor, which is consumed; `None` at the end, where
    /// the cursor stays.
    pub fn pop(&mut self) -> (r: Option<&'a T>)
        ensures
            final(self).buf() == old(self).buf(),
            final(self).pos() <= final(self).buf().len(),
            r == next_of(old(self).buf(), old(self).pos()),
            r is Some ==> final(self).pos() == old(self).pos() + 1,
            r is None ==> final(self).pos() == old(self).pos(),
    {
        proof {
            use_type_invariant(&*self);
        }
        if self.cursor < self.buffer.len() {
            let element = &self.buffer[self.cursor];
            self.cursor = self.cursor + 1;
            Some(element)
        } else {
            None
        }
    }

    /// Consumes the element at the cursor if `target == element`; otherwise
    /// leaves the cursor alone.
    pub fn take(&mut self, target: &T) -> (r: bool)
        ensures
            final(self).buf() == old(self).buf(),
            final(self).pos() <= final(self).buf().len(),
            T::obeys_eq_spec() ==> r == matches_at(old(self).buf(), old(self).pos(), *target),
            r ==> old(self).pos() < old(self).buf().len(),
            r ==> final(self).pos() == old(self).pos() + 1,
            !r ==> final(self).pos() == old(self).pos(),
    {
        proof {
            use_type_invariant(&*self);
        }
        if self.cursor < self.buffer.len() {
            if *target == self.buffer[self.cursor] {
                self.cursor = self.cursor + 1;
                true
            } else {
                false
            }
        } else {
            false
        }
    }

    /// Hands the element at the cursor to `callback`, once, and consumes it when
    /// the callback returns `Some`. At the end the callback is not called and
    /// the result is `None`; on `None` the cursor stays.
    pub fn transform<U, F: FnOnce(&T) -> Option<U>>(&mut self, callback: F) -> (r: Option<U>)
        requires
            old(self).pos() < old(self).buf().len() ==> callback.requires(
                (&old(self).buf()[old(self).pos() as int],),
            ),
        ensures
            final(self).buf() == old(self).buf(),
            final(self).pos() <= final(self).buf().len(),
            old(self).pos() == old(self).buf().len() ==> r is None,
            old(self).pos() < old(self).buf().len() ==> callback.ensures(
                (&old(self).buf()[old(self).pos() as int],),
                r,
            ),
            r is Some ==> final(self).pos() == old(self).pos() + 1,
            r is None ==> final(self).pos() == old(self).pos(),
    {
        proof {
            use_type_invariant(&*self);
        }
        if self.cursor < self.buffer.len() {
            let out = callback(&self.buffer[self.cursor]);
            if out.is_some() {
                self.cursor = self.cursor + 1;
            }
            out
        } else {
            None
        }
    }

    /// The elements at absolute positions `start..end`, or `None` when that
    /// range is not within the buffer. The cursor is not read nor moved.
    pub fn slice(&self, start: usize, end: usize) -> (r: Option<&'a [T]>)
        ensures
            start <= end <= self.buf().len() ==> (r matches Some(s) && s@ == self.buf().subrange(
                start as int,
                end as int,
            )),
            !(start <= end <= self.buf().len()) ==> r is None,
    {
        if start <= end && end <= self.buffer.len() {
            Some(&self.buffer[start..end])
        } else {
            None
        }
    }

    /// Consumes `target` if the elements from the cursor on start with it,
    /// comparing as `target[i] == element`; otherwise leaves the cursor alone.
    pub fn contains(&mut self, target: &'a [T]) -> (r: bool)
        ensures
            final(self).buf() == old(self).buf(),
            final(self).pos() <= final(self).buf().len(),
            T::obeys_eq_spec() ==> r == starts_with_at(old(self).buf(), old(self).pos(), target@),
            r ==> final(self).pos() == old(self).pos() + target@.len(),
            !r ==> final(self).pos() == old(self).pos(),
    {
        proof {
            use_type_invariant(&*self);
        }
        let n = target.len();
        let len = self.buffer.len();
        let start = self.cursor;
        if n > len - start {
            return false;
        }
        let mut i: usize = 0;
        while i < n
            invariant
                i <= n,
                n == target@.len(),
                len == self.buffer@.len(),
                start == self.cursor,
                start + n <= len,
                T::obeys_eq_spec() ==> forall|j: int|
                    0 <= j < i ==> (#[trigger] target@[j]).eq_spec(
                        &self.buffer@[start + j],
                    ),
            decreases n - i,
        {
            if !(target[i] == self.buffer[start + i]) {
                return false;
            }
            i = i + 1;
        }
        self.cursor = start + n;
        true
    }
}

/// The element at `pos`, or `None` when `pos` is the end of `buf`.
pub open spec fn next_of<'a, T>(buf: Seq<T>, pos: nat) -> Option<&'a T> {
    if pos < buf.len() {
        Some(&buf[pos as int])
    } else {
        None
    }
}

/// There is an element at `pos` and `target` equals it under the element
/// type's equality, compared as `target == element`.
pub open spec fn matches_at<T: PartialEq>(buf: Seq<T>, pos: nat, target: T) -> bool {
    pos < buf.len() && target.eq_spec(&buf[pos as int])
}

/// The elements of `buf` from `pos` on begin with `target`, element by element
/// under the element type's equality.
pub open spec fn starts_with_at<T: PartialEq>(buf: Seq<T>, pos: nat, target: Seq<T>) -> bool {
    &&& pos + target.len() <= buf.len()
    &&& forall|j: int| 0 <= j < target.len() ==> (#[trigger] target[j]).eq_spec(&buf[pos + j])
}

/// Looking ahead never moves the cursor (`peek` takes the scanner by shared
/// reference), so two looks at one scanner give the same answer.
pub proof fn lemma_peek_stable<'a, T: PartialEq>(
    s: &Scanner<'a, T>,
    first: Option<&'a T>,
    second: Option<&'a T>,
)
    requires
        call_ensures(Scanner::<'a, T>::peek, (s,), first),
        call_ensures(Scanner::<'a, T>::peek, (s,), second),
    ensures
        first == second,
{
}

/// Looking ahead and then popping yield the same element, and the pop moves
/// the cursor by exactly one when that element exists.
pub proof fn lemma_peek_then_pop<'a, T: PartialEq>(
    s: &mut Scanner<'a, T>,
    peeked: Option<&'a T>,
    popped: Option<&'a T>,
)
    requires
        call_ensures(Scanner::<'a, T>::peek, (&*old(s),), peeked),
        call_ensures(Scanner::<'a, T>::pop, (s,), popped),
    ensures
        peeked == popped,
        old(s).pos() < old(s).buf().len() ==> peeked is Some,
        peeked is Some ==> final(s).pos() == old(s).pos() + 1,
{
}

/// Popping the last element leaves the scanner done.
pub proof fn lemma_pop_last<'a, T: PartialEq>(
    s: &mut Scanner<'a, T>,
    popped: Option<&'a T>,
    done: bool,
)
    requires
        old(s).pos() + 1 == old(s).buf().len(),
        call_ensures(Scanner::<'a, T>::pop, (s,), popped),
        call_ensures(Scanner::<'a, T>::is_done, (&*final(s),), done),
    ensures
        popped is Some,
        done,
{
}

/// Once every element has been consumed the scanner reports that it is done,
/// and both looking ahead and popping find nothing and leave it so.
pub proof fn lemma_exhausted<'a, T: PartialEq>(
    s: &mut Scanner<'a, T>,
    done: bool,
    peeked: Option<&'a T>,
    popped: Option<&'a T>,
)
    requires
        old(s).pos() == old(s).buf().len(),
        call_ensures(Scanner::<'a, T>::is_done, (&*old(s),), done),
        call_ensures(Scanner::<'a, T>::peek, (&*old(s),), peeked),
        call_ensures(Scanner::<'a, T>::pop, (s,), popped),
    ensures
        done,
        peeked is None,
        popped is None,
        final(s).pos() == old(s).pos(),
{
}

} // verus!
