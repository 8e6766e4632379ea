//! The progress bar widget, as far as the terminal sink relies on it.
//!
//! Nothing in this file is proved. Each item states what the widget's source
//! shows of one of its functions; the terminal sink is verified against
//! these statements.
//!
//! The widget keeps its state behind a lock of its own and ignores errors of
//! the terminal, so none of these calls fails. The functions that change the
//! state take the bar by exclusive reference here, although the widget asks
//! only for a shared one: the sink never clones its bar, so nothing else
//! moves the position.

use vstd::prelude::*;

verus! {

/// `indicatif::ProgressBar`, carried as an opaque value.
#[verifier::external_type_specification]
#[verifier::external_body]
pub struct ExProgressBar(indicatif::ProgressBar);

/// What `indicatif::ProgressBar::position` returns for `bar`: the position
/// that the bar holds.
pub uninterp spec fn bar_position(bar: indicatif::ProgressBar) -> u64;

/// What `indicatif::ProgressBar::length` returns for `bar`: the length that
/// the bar was made with.
pub uninterp spec fn bar_length(bar: indicatif::ProgressBar) -> u64;

/// What `indicatif::ProgressBar::is_finished` returns for `bar`: whether the
/// bar has been finished and not reset since.
pub uninterp spec fn bar_finished(bar: indicatif::ProgressBar) -> bool;

/// `indicatif::ProgressBar::new`: a bar of the given length that draws to
/// standard error, at position zero and not finished.
#[verifier::external_body]
pub(crate) fn new_bar(len: u64) -> (bar: indicatif::ProgressBar)
    ensures
        bar_position(bar) == 0,
        bar_length(bar) == len,
        !bar_finished(bar),
{
    indicatif::ProgressBar::new(len)
}

/// `indicatif::ProgressBar::enable_steady_tick`: starts a background thread
/// that redraws the bar every `ms` milliseconds. It leaves position, length
/// and the finished mark as they are.
#[verifier::external_body]
pub(crate) fn start_ticking(bar: &indicatif::ProgressBar, ms: u64) {
    bar.enable_steady_tick(ms)
}

/// `indicatif::ProgressBar::reset`: puts the position back to zero and
/// reopens a finished bar; the length stays.
#[verifier::external_body]
pub(crate) fn reset_bar(bar: &mut indicatif::ProgressBar)
    ensures
        bar_position(*final(bar)) == 0,
        bar_length(*final(bar)) == bar_length(*old(bar)),
        !bar_finished(*final(bar)),
{
    bar.reset()
}

/// `indicatif::ProgressBar::inc`: adds `delta` to the position, stopping at
/// the largest `u64`. The position is not held below the length, and a
/// finished bar stays finished.
#[verifier::external_body]
pub(crate) fn advance_bar(bar: &mut indicatif::ProgressBar, delta: u64)
    ensures
        bar_position(*final(bar)) == if bar_position(*old(bar)) + delta <= u64::MAX {
            bar_position(*old(bar)) + delta
        } else {
            u64::MAX as int
        },
        bar_length(*final(bar)) == bar_length(*old(bar)),
        bar_finished(*final(bar)) == bar_finished(*old(bar)),
{
    bar.inc(delta)
}

/// `indicatif::ProgressBar::finish`: moves the position to the length and
/// marks the bar finished.
#[verifier::external_body]
pub(crate) fn finish_bar(bar: &mut indicatif::ProgressBar)
    ensures
        bar_position(*final(bar)) == bar_length(*old(bar)),
        bar_length(*final(bar)) == bar_length(*old(bar)),
        bar_finished(*final(bar)),
{
    bar.finish()
}

/// `indicatif::ProgressBar::println`: prints `line` above the bar and redraws
/// the bar below it. It leaves position, length and the finished mark as
/// they are.
#[verifier::external_body]
pub(crate) fn print_above(bar: &indicatif::ProgressBar, line: &str) {
    bar.println(line)
}

/// `indicatif::ProgressBar::position`.
#[verifier::external_body]
pub(crate) fn position_of(bar: &indicatif::ProgressBar) -> (pos: u64)
    ensures
        pos == bar_position(*bar),
{
    bar.position()
}

/// `indicatif::ProgressBar::length`.
#[verifier::external_body]
pub(crate) fn length_of(bar: &indicatif::ProgressBar) -> (len: u64)
    ensures
        len == bar_length(*bar),
{
    bar.length()
}

/// `indicatif::ProgressBar::is_finished`.
#[verifier::external_body]
pub(crate) fn finished_of(bar: &indicatif::ProgressBar) -> (done: bool)
    ensures
        done == bar_finished(*bar),
{
    bar.is_finished()
}

} // verus!
