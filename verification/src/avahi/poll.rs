//! The event-loop handle: one native poll object and its terminal state.

use crate::avahi::avahi_util::{check_status, native_failure_view};
use crate::error::{Error, ErrorView};
use std::time::Duration;
use vstd::prelude::*;

verus! {

/// The whole milliseconds that a `Duration` holds.
pub uninterp spec fn duration_millis(timeout: Duration) -> nat;

/// `Duration::as_millis` returns the total number of whole milliseconds in
/// the duration. That number is named [`duration_millis`]; it always fits
/// the `u128` that is returned.
pub assume_specification[ Duration::as_millis ](timeout: &Duration) -> (r: u128)
    ensures
        r == duration_millis(*timeout),
;

/// The sleep time handed to the native iteration for a timeout of `millis`
/// milliseconds: the same number, or the largest `i32` where it does not fit.
pub open spec fn clamped_millis(millis: nat) -> i32 {
    if millis > i32::MAX as nat {
        i32::MAX
    } else {
        millis as i32
    }
}

/// The sleep time handed to the native iteration for `timeout`.
pub open spec fn sleep_time_of(timeout: Duration) -> i32 {
    clamped_millis(duration_millis(timeout))
}

/// The error of a poll object that the native library did not allocate.
pub open spec fn allocation_error() -> ErrorView {
    ErrorView::SystemError { message: "could not initialize AvahiSimplePoll"@ }
}

/// The error of an iteration asked of a handle that has finished.
pub open spec fn already_finished_error() -> ErrorView {
    ErrorView::SystemError { message: "avahi_simple_poll_iterate(..) already finished"@ }
}

/// What an iteration returns when the native call came back with `code`.
pub open spec fn iterate_result(code: i32) -> Result<(), ErrorView> {
    if code == 0 {
        Ok(())
    } else if code == 1 {
        Err(
            ErrorView::MdnsSystemError {
                code,
                message: "avahi_simple_poll_iterate(..) disconnected"@,
            },
        )
    } else if code == -1 {
        Err(
            ErrorView::MdnsSystemError {
                code,
                message: "avahi_simple_poll_iterate(..) threw an error result"@,
            },
        )
    } else {
        Err(
            ErrorView::MdnsSystemError {
                code,
                message: "avahi_simple_poll_iterate(..) returned an unknown result"@,
            },
        )
    }
}

/// One iteration as a step of the state machine: from the terminal flag and
/// the code that the native call returns (read only while the handle is
/// active) to the flag afterwards and the result.
pub open spec fn iterate_step(finished: bool, code: i32) -> (bool, Result<(), ErrorView>) {
    if finished {
        (true, Err(already_finished_error()))
    } else {
        (code != 0, iterate_result(code))
    }
}

/// The terminal flag after the blocking loop returned `code`.
pub open spec fn loop_step(finished: bool, code: i32) -> bool {
    finished || code != 0
}

/// The terminal flag after the iterations that the native layer answers
/// with `codes`, in this order.
pub open spec fn finished_after(finished: bool, codes: Seq<i32>) -> bool
    decreases codes.len(),
{
    if codes.len() == 0 {
        finished
    } else {
        iterate_step(finished_after(finished, codes.drop_last()), codes.last()).0
    }
}

/// A result with its error, if any, as a view.
pub open spec fn result_view(r: Result<(), Error>) -> Result<(), ErrorView> {
    match r {
        Ok(()) => Ok(()),
        Err(e) => Err(e@),
    }
}

/// Converts a timeout in milliseconds to the native sleep time. Every
/// input has an answer: what does not fit an `i32` becomes `i32::MAX`.
pub fn sleep_time(millis: u128) -> (r: i32)
    ensures
        r == clamped_millis(millis as nat),
        0 <= r,
{
    if millis > 2147483647u128 {
        i32::MAX
    } else {
        millis as i32
    }
}

/// Owns one native poll object, `native`, and records whether the loop has
/// come to its end. A handle starts active; once finished it stays so.
pub struct ManagedAvahiSimplePoll<P> {
    native: P,
    finished: bool,
}

impl<P> ManagedAvahiSimplePoll<P> {
    /// The native poll object that the handle owns.
    pub closed spec fn native(&self) -> P {
        self.native
    }

    /// Whether the loop has come to its end.
    pub closed spec fn finished(&self) -> bool {
        self.finished
    }

    /// Takes over what the native allocator returned: `None` stands for a
    /// null poll object, of which there is no native error code.
    pub fn new(native: Option<P>) -> (r: Result<Self, Error>)
        ensures
            match native {
                Some(handle) => r matches Ok(poll) && poll.native() == handle && !poll.finished(),
                None => r matches Err(e) && e@ == allocation_error(),
            },
    {
        match native {
            Some(handle) => Ok(ManagedAvahiSimplePoll { native: handle, finished: false }),
            None => Err(
                Error::SystemError {
                    message: String::from_str("could not initialize AvahiSimplePoll"),
                },
            ),
        }
    }

    /// The native poll object.
    pub fn inner(&self) -> (r: &P)
        ensures
            *r == self.native(),
    {
        &self.native
    }

    /// Whether the loop has come to its end.
    pub fn has_finished(&self) -> (r: bool)
        ensures
            r == self.finished(),
    {
        self.finished
    }

    fn mark_finished(&mut self)
        ensures
            final(self).finished(),
            final(self).native() == old(self).native(),
    {
        self.finished = true;
    }

    /// Decides whether an iteration may go to the native library, and with
    /// which sleep time. A finished handle is refused.
    pub fn begin_iterate(&self, timeout: Duration) -> (r: Result<i32, Error>)
        ensures
            self.finished() ==> (r matches Err(e) && e@ == already_finished_error()),
            !self.finished() ==> r == Ok::<i32, Error>(sleep_time_of(timeout)),
    {
        let sleep_time = sleep_time(timeout.as_millis());
        if self.has_finished() {
            return Err(
                Error::SystemError {
                    message: String::from_str("avahi_simple_poll_iterate(..) already finished"),
                },
            );
        }
        Ok(sleep_time)
    }

    /// Takes note of the code that the native iteration returned: zero
    /// leaves the handle as it is, every other code ends the loop.
    pub fn finish_iterate(&mut self, code: i32) -> (r: Result<(), Error>)
        ensures
            final(self).native() == old(self).native(),
            final(self).finished() == (old(self).finished() || code != 0),
            result_view(r) == iterate_result(code),
    {
        if code == 0 {
            Ok(())
        } else if code == 1 {
            self.mark_finished();
            Err(
                Error::MdnsSystemError {
                    code,
                    message: String::from_str("avahi_simple_poll_iterate(..) disconnected"),
                },
            )
        } else if code == -1 {
            self.mark_finished();
            Err(
                Error::MdnsSystemError {
                    code,
                    message: String::from_str(
                        "avahi_simple_poll_iterate(..) threw an error result",
                    ),
                },
            )
        } else {
            self.mark_finished();
            Err(
                Error::MdnsSystemError {
                    code,
                    message: String::from_str(
                        "avahi_simple_poll_iterate(..) returned an unknown result",
                    ),
                },
            )
        }
    }

    /// One bounded pass over the pending events. `native_iterate` makes the
    /// native call on the poll object with the sleep time in milliseconds;
    /// it is not called on a finished handle.
    pub fn iterate<F: FnOnce(&P, i32) -> i32>(&mut self, timeout: Duration, native_iterate: F) -> (r:
        Result<(), Error>)
        requires
            !old(self).finished() ==> native_iterate.requires(
                (&old(self).native(), sleep_time_of(timeout)),
            ),
        ensures
            final(self).native() == old(self).native(),
            old(self).finished() ==> final(self).finished() && result_view(r) == Err::<
                (),
                ErrorView,
            >(already_finished_error()),
            !old(self).finished() ==> exists|code: i32|
                {
                    &&& #[trigger] native_iterate.ensures(
                        (&old(self).native(), sleep_time_of(timeout)),
                        code,
                    )
                    &&& (final(self).finished(), result_view(r)) == iterate_step(false, code)
                },
    {
        match self.begin_iterate(timeout) {
            Err(e) => Err(e),
            Ok(sleep_time) => {
                let code = native_iterate(&self.native, sleep_time);
                self.finish_iterate(code)
            },
        }
    }

    /// Takes note of the code that the native blocking loop returned: a
    /// negative one is a failure, described by `get_error`; every code but
    /// zero ends the loop.
    pub fn finish_loop<G: FnOnce(i32) -> String>(&mut self, code: i32, get_error: G) -> (r: Result<
        (),
        Error,
    >)
        requires
            code < 0 ==> get_error.requires((code,)),
        ensures
            final(self).native() == old(self).native(),
            final(self).finished() == loop_step(old(self).finished(), code),
            code >= 0 ==> r is Ok,
            code < 0 ==> exists|native: String|
                {
                    &&& #[trigger] get_error.ensures((code,), native)
                    &&& r matches Err(e)
                    &&& e@ == native_failure_view(
                        "could not start AvahiSimplePoll"@,
                        code,
                        native@,
                    )
                },
    {
        if code != 0 {
            self.mark_finished();
        }
        check_status(code, "could not start AvahiSimplePoll", get_error)
    }

    /// Asks the native loop to end at its next safe point: `native_quit`
    /// makes the call on the poll object. The handle itself is left as it
    /// is; it finishes when an iteration, or the blocking loop, sees the end.
    pub fn quit<F: FnOnce(&P)>(&self, native_quit: F)
        requires
            native_quit.requires((&self.native(),)),
        ensures
            native_quit.ensures((&self.native(),), ()),
    {
        native_quit(&self.native)
    }

    /// Runs the native blocking loop, which `native_loop` calls on the poll
    /// object, until it returns.
    pub fn start_loop<F: FnOnce(&P) -> i32, G: FnOnce(i32) -> String>(
        &mut self,
        native_loop: F,
        get_error: G,
    ) -> (r: Result<(), Error>)
        requires
            native_loop.requires((&old(self).native(),)),
            forall|code: i32|
                native_loop.ensures((&old(self).native(),), code) && code < 0
                    ==> #[trigger] get_error.requires((code,)),
        ensures
            final(self).native() == old(self).native(),
            exists|code: i32|
                {
                    &&& #[trigger] native_loop.ensures((&old(self).native(),), code)
                    &&& final(self).finished() == loop_step(old(self).finished(), code)
                    &&& code >= 0 ==> r is Ok
                    &&& code < 0 ==> exists|native: String|
                        {
                            &&& #[trigger] get_error.ensures((code,), native)
                            &&& r matches Err(e)
                            &&& e@ == native_failure_view(
                                "could not start AvahiSimplePoll"@,
                                code,
                                native@,
                            )
                        }
                },
    {
        let code = native_loop(&self.native);
        self.finish_loop(code, get_error)
    }
}

/// Iterations one after the other: the flag after `earlier` and then
/// `later` is the flag after `later`, begun from the flag after `earlier`.
pub proof fn lemma_finished_after_concat(finished: bool, earlier: Seq<i32>, later: Seq<i32>)
    ensures
        finished_after(finished, earlier + later) == finished_after(
            finished_after(finished, earlier),
            later,
        ),
    decreases later.len(),
{
    if later.len() == 0 {
        assert(earlier + later =~= earlier);
    } else {
        lemma_finished_after_concat(finished, earlier, later.drop_last());
        assert((earlier + later).drop_last() =~= earlier + later.drop_last());
        assert((earlier + later).last() == later.last());
    }
}

/// The terminal state is absorbing: a finished handle stays finished
/// whatever the native layer would answer, and refuses every iteration with
/// the same error, without regard to any code.
pub proof fn lemma_finished_is_absorbing(codes: Seq<i32>, next: i32)
    ensures
        finished_after(true, codes),
        iterate_step(finished_after(true, codes), next) == (
            true,
            Err::<(), ErrorView>(already_finished_error()),
        ),
    decreases codes.len(),
{
    if codes.len() > 0 {
        lemma_finished_is_absorbing(codes.drop_last(), codes.last());
    }
}

/// Once an iteration has seen the native layer answer with a code other
/// than zero (1 for a disconnect, a negative code for an error), the handle
/// is finished, and every iteration after it is refused with the error of a
/// finished handle, whatever came before and whatever is tried after.
pub proof fn lemma_failure_ends_iteration(
    earlier: Seq<i32>,
    code: i32,
    later: Seq<i32>,
    next: i32,
)
    requires
        code != 0,
    ensures
        finished_after(false, earlier.push(code)),
        finished_after(false, earlier.push(code) + later),
        iterate_step(finished_after(false, earlier.push(code) + later), next) == (
            true,
            Err::<(), ErrorView>(already_finished_error()),
        ),
{
    assert(earlier.push(code).drop_last() =~= earlier);
    lemma_finished_after_concat(false, earlier.push(code), later);
    lemma_finished_is_absorbing(later, next);
}

/// A quit that the native layer reports, by code 1, ends the loop: the
/// handle is finished after the iteration, or the blocking loop, that saw it.
pub proof fn lemma_quit_observed_finishes(finished: bool)
    ensures
        iterate_step(finished, 1).0,
        loop_step(finished, 1),
{
}

} // verus!
