use vstd::prelude::*;
use crate::error::Error;

verus! {

/// A directional input from the browsing surface, or the report that the
/// wait for one timed out.
#[derive(Clone, Copy, Debug, PartialEq, Eq, Structural)]
pub enum PageInput {
    Previous,
    Next,
    Timeout,
}

/// What one step of a browsing session decided.
#[derive(Clone, Copy, Debug, PartialEq, Eq, Structural)]
pub enum StepOutcome {
    /// The input was accepted: render the item at this index, then re-arm
    /// the input source for the directions the session now allows.
    Rendered(usize),
    /// The input was not an allowed direction: nothing changed, nothing is
    /// rendered.
    Rejected,
    /// The session is over: release the input subscription.
    Closed,
}

/// A reaction-driven browsing session over a fixed, non-empty sequence of
/// items: one item is shown at a time, directional inputs move a cursor,
/// and inactivity beyond the per-step timeout ends the session.
///
/// The paginator never fetches items and renders nothing itself: the
/// caller shows item 0 before the session starts, then feeds every input
/// (or timeout report) into `step` and performs what the outcome says.
/// Inputs are fed one at a time, so the cursor is free of data races by
/// construction.
pub struct Paginator<T> {
    items: Vec<T>,
    cursor: usize,
    deadline: i64,
    step_timeout: i64,
    open: bool,
}

impl<T> Paginator<T> {
    /// The items of the session, fixed at construction.
    pub closed spec fn spec_items(self) -> Seq<T> {
        self.items@
    }

    /// The index of the item currently shown.
    pub closed spec fn spec_cursor(self) -> int {
        self.cursor as int
    }

    /// The absolute instant (UTC epoch seconds) at which the session
    /// expires unless an input is accepted first.
    pub closed spec fn spec_deadline(self) -> int {
        self.deadline as int
    }

    /// How far beyond an accepted input the deadline is pushed, in
    /// seconds.
    pub closed spec fn spec_step_timeout(self) -> int {
        self.step_timeout as int
    }

    /// Whether the session still accepts inputs.
    pub closed spec fn is_open(self) -> bool {
        self.open
    }

    /// The session invariant: there is something to show and the cursor
    /// points at it.
    pub open spec fn wf(self) -> bool {
        &&& 0 < self.spec_items().len()
        &&& 0 <= self.spec_cursor() < self.spec_items().len()
        &&& 0 <= self.spec_step_timeout()
        &&& 0 <= self.spec_deadline()
    }

    /// Whether moving to the previous item is currently offered.
    pub open spec fn spec_prev_allowed(self) -> bool {
        self.is_open() && 0 < self.spec_cursor()
    }

    /// Whether moving to the next item is currently offered.
    pub open spec fn spec_next_allowed(self) -> bool {
        self.is_open() && self.spec_cursor() + 1 < self.spec_items().len()
    }

    /// Whether the session, fed `input` at instant `now`, accepts it as a
    /// cursor move.
    pub open spec fn accepts(self, input: PageInput, now: int) -> bool {
        self.is_open() && now < self.spec_deadline() && match input {
            PageInput::Previous => 0 < self.spec_cursor(),
            PageInput::Next => self.spec_cursor() + 1 < self.spec_items().len(),
            PageInput::Timeout => false,
        }
    }

    /// Whether the session, fed `input` at instant `now`, ends: the wait
    /// timed out, or the input arrived once the deadline had passed.
    pub open spec fn expires(self, input: PageInput, now: int) -> bool {
        self.is_open() && (input == PageInput::Timeout || now >= self.spec_deadline())
    }

    /// Opens a session over `items`, showing item 0, expiring at
    /// `now + step_timeout` unless an input is accepted first.
    ///
    /// Fails with `Error::EmptySequence` when `items` is empty: a session
    /// never starts with nothing to show.
    pub fn new(items: Vec<T>, now: i64, step_timeout: i64) -> (r: Result<Paginator<T>, Error>)
        requires
            0 <= now,
            0 <= step_timeout,
            now + step_timeout <= i64::MAX,
        ensures
            r is Ok <==> 0 < items@.len(),
            r matches Err(e) ==> e == Error::EmptySequence,
            r matches Ok(p) ==> p.wf() && p.spec_items() == items@ && p.spec_cursor() == 0
                && p.is_open() && p.spec_deadline() == now + step_timeout
                && p.spec_step_timeout() == step_timeout as int,
    {
        if items.len() == 0 {
            Err(Error::EmptySequence)
        } else {
            Ok(
                Paginator {
                    items,
                    cursor: 0,
                    deadline: now + step_timeout,
                    step_timeout,
                    open: true,
                },
            )
        }
    }

    /// Feeds one input into the session at instant `now`.
    ///
    /// A timeout report, or any input arriving at or past the deadline,
    /// closes the session. An allowed direction moves the cursor one step,
    /// refreshes the deadline, and asks for exactly one render of the item
    /// now under the cursor. A direction that is not currently allowed is
    /// rejected and changes nothing — in particular it does not extend the
    /// session, so a stream of malformed inputs still expires.
    pub fn step(&mut self, input: PageInput, now: i64) -> (r: StepOutcome)
        requires
            old(self).wf(),
            0 <= now,
            now + old(self).spec_step_timeout() <= i64::MAX,
        ensures
            final(self).wf(),
            final(self).spec_items() == old(self).spec_items(),
            final(self).spec_step_timeout() == old(self).spec_step_timeout(),
            r == StepOutcome::Closed <==> !old(self).is_open() || old(self).expires(
                input,
                now as int,
            ),
            !old(self).is_open() ==> *final(self) == *old(self),
            old(self).expires(input, now as int) ==> !final(self).is_open()
                && final(self).spec_cursor() == old(self).spec_cursor()
                && final(self).spec_deadline() == old(self).spec_deadline(),
            old(self).accepts(input, now as int) ==> final(self).is_open()
                && final(self).spec_deadline() == now + old(self).spec_step_timeout()
                && final(self).spec_cursor() == (if input == PageInput::Previous {
                old(self).spec_cursor() - 1
            } else {
                old(self).spec_cursor() + 1
            }) && (r matches StepOutcome::Rendered(i) && i as int == final(self).spec_cursor()),
            old(self).is_open() && !old(self).expires(input, now as int) && !old(self).accepts(
                input,
                now as int,
            ) ==> r == StepOutcome::Rejected && *final(self) == *old(self),
    {
        if !self.open {
            return StepOutcome::Closed;
        }
        match input {
            PageInput::Timeout => {
                self.open = false;
                StepOutcome::Closed
            },
            _ => {
                if now >= self.deadline {
                    self.open = false;
                    return StepOutcome::Closed;
                }
                match input {
                    PageInput::Previous => {
                        if self.cursor > 0 {
                            self.cursor = self.cursor - 1;
                            self.deadline = now + self.step_timeout;
                            StepOutcome::Rendered(self.cursor)
                        } else {
                            StepOutcome::Rejected
                        }
                    },
                    _ => {
                        let n = self.items.len();
                        if self.cursor + 1 < n {
                            self.cursor = self.cursor + 1;
                            self.deadline = now + self.step_timeout;
                            StepOutcome::Rendered(self.cursor)
                        } else {
                            StepOutcome::Rejected
                        }
                    },
                }
            },
        }
    }

    /// Closes the session on behalf of the host; treated identically to a
    /// timeout, so the caller releases the input subscription afterwards.
    pub fn close(&mut self)
        ensures
            !final(self).is_open(),
            final(self).spec_items() == old(self).spec_items(),
            final(self).spec_cursor() == old(self).spec_cursor(),
            final(self).spec_deadline() == old(self).spec_deadline(),
            final(self).spec_step_timeout() == old(self).spec_step_timeout(),
    {
        self.open = false;
    }

    /// The index of the item currently shown.
    pub fn cursor(&self) -> (r: usize)
        ensures
            r as int == self.spec_cursor(),
    {
        self.cursor
    }

    /// How many items the session browses.
    pub fn len(&self) -> (r: usize)
        ensures
            r as int == self.spec_items().len(),
    {
        self.items.len()
    }

    /// Whether the session still accepts inputs.
    pub fn active(&self) -> (r: bool)
        ensures
            r == self.is_open(),
    {
        self.open
    }

    /// Whether moving to the previous item is currently offered.
    pub fn prev_allowed(&self) -> (r: bool)
        ensures
            r == self.spec_prev_allowed(),
    {
        self.open && self.cursor > 0
    }

    /// Whether moving to the next item is currently offered.
    pub fn next_allowed(&self) -> (r: bool)
        ensures
            r == self.spec_next_allowed(),
    {
        let n = self.items.len();
        self.open && n > 0 && self.cursor < n - 1
    }

    /// The item currently shown.
    pub fn current(&self) -> (r: &T)
        requires
            self.wf(),
        ensures
            *r == self.spec_items()[self.spec_cursor()],
    {
        &self.items[self.cursor]
    }
}

} // verus!
