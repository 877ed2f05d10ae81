//! The program's exit-signal watch: what the signal flag says when it is
//! looked at.

use crate::sg_threading::signal_handler::{
    exit_signals,
    is_exit_signal,
    spec_is_exit_signal,
    spec_sigint,
    spec_sigquit,
    spec_sigterm,
};
use crate::text::{decimal, push_decimal};
use vstd::prelude::*;
use vstd::string::*;

verus! {

/// What the signal flag says.
#[derive(PartialEq, Eq, Structural, Clone, Copy, Debug)]
pub enum SignalPoll {
    /// No signal yet: look again later.
    Pending,
    /// An exit signal arrived: run the shutdown callback.
    Exit(usize),
    /// Some other value, which the watch cannot account for: it aborts, with
    /// `unexpected_flag_message`.
    Unexpected(usize),
}

/// Reads the signal flag, which holds zero until a registered signal sets
/// it to its own number.
pub fn poll_signal_flag(flag: usize) -> (poll: SignalPoll)
    ensures
        poll == (if flag == 0 {
            SignalPoll::Pending
        } else if spec_is_exit_signal(flag as int) {
            SignalPoll::Exit(flag)
        } else {
            SignalPoll::Unexpected(flag)
        }),
{
    if flag == 0 {
        SignalPoll::Pending
    } else if flag <= i32::MAX as usize && is_exit_signal(flag as i32) {
        SignalPoll::Exit(flag)
    } else {
        SignalPoll::Unexpected(flag)
    }
}

/// What the watch says when it aborts on an unexpected flag value:
/// `Unexpected signal: <value>`.
pub fn unexpected_flag_message(flag: usize) -> (text: String)
    ensures
        text@ == "Unexpected signal: "@ + decimal(flag as nat),
{
    let mut text = String::from_str("Unexpected signal: ");
    push_decimal(&mut text, flag as u128);
    proof {
        reveal_strlit("Unexpected signal: ");
    }
    assert(text@ =~= "Unexpected signal: "@ + decimal(flag as nat));
    text
}

/// The signals the watch registers, in the order it registers them:
/// interrupt, quit, terminate.
pub fn exit_signal_flags() -> (flags: Vec<usize>)
    ensures
        flags@ == seq![
            spec_sigint() as usize,
            spec_sigquit() as usize,
            spec_sigterm() as usize,
        ],
{
    let signals = exit_signals();
    let mut flags: Vec<usize> = Vec::new();
    flags.push(signals[0] as usize);
    flags.push(signals[2] as usize);
    flags.push(signals[1] as usize);
    assert(flags@ =~= seq![
        spec_sigint() as usize,
        spec_sigquit() as usize,
        spec_sigterm() as usize,
    ]);
    flags
}

} // verus!
