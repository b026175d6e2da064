//! The signals that steer the service.

use crate::decimal::{self, signed_decimal_text};
use crate::views::{self, join2};
use vstd::prelude::*;

verus! {

/// The numbers that the platform gives to the signals that steer the service.
#[derive(Clone, Copy, Debug, PartialEq, Eq, Structural)]
pub struct SignalNumbers {
    /// `SIGUSR1`
    pub usr1: i32,
    /// `SIGUSR2`
    pub usr2: i32,
    /// `SIGHUP`
    pub hup: i32,
    /// `SIGTERM`
    pub term: i32,
    /// `SIGINT`
    pub int_: i32,
    /// `SIGQUIT`
    pub quit: i32,
}

/// What a signal asks the service to do.
#[derive(Clone, Copy, Debug, PartialEq, Eq, Structural)]
pub enum ServiceSignal {
    /// Reload the configuration.
    Reload,
    /// Suspend.
    Suspend,
    /// Go down.
    Stop,
    /// Nothing.
    Ignore,
}

/// What the signal `received` asks for.
pub open spec fn signal_meaning(numbers: SignalNumbers, received: i32) -> ServiceSignal {
    if received == numbers.usr1 {
        ServiceSignal::Reload
    } else if received == numbers.usr2 {
        ServiceSignal::Suspend
    } else if received == numbers.hup {
        ServiceSignal::Ignore
    } else if received == numbers.term || received == numbers.int_ || received == numbers.quit {
        ServiceSignal::Stop
    } else {
        ServiceSignal::Ignore
    }
}

/// The signals that the service takes itself.
pub open spec fn taken_signals(numbers: SignalNumbers) -> Seq<i32> {
    seq![numbers.usr1, numbers.usr2, numbers.hup, numbers.term, numbers.int_, numbers.quit]
}

/// What the signal `received` asks for.
pub fn service_signal(numbers: SignalNumbers, received: i32) -> (signal: ServiceSignal)
    ensures
        signal == signal_meaning(numbers, received),
{
    if received == numbers.usr1 {
        ServiceSignal::Reload
    } else if received == numbers.usr2 {
        ServiceSignal::Suspend
    } else if received == numbers.hup {
        ServiceSignal::Ignore
    } else if received == numbers.term || received == numbers.int_ || received == numbers.quit {
        ServiceSignal::Stop
    } else {
        ServiceSignal::Ignore
    }
}

/// The signals that the service takes itself.
pub fn service_signals(numbers: SignalNumbers) -> (signals: Vec<i32>)
    ensures
        signals@ == taken_signals(numbers),
{
    let signals = vec![
        numbers.usr1,
        numbers.usr2,
        numbers.hup,
        numbers.term,
        numbers.int_,
        numbers.quit,
    ];
    assert(signals@ =~= taken_signals(numbers));
    signals
}

/// What blocking the signals came to, given the status of the call.
pub open spec fn blocking_outcome(status: i32) -> Result<(), Seq<char>> {
    if status != 0 {
        Err("failed to block resident service signals"@)
    } else {
        Ok(())
    }
}

/// What blocking the signals came to, given the status of the call.
pub fn block_service_signals(status: i32) -> (outcome: Result<(), String>)
    ensures
        views::done_view(outcome) == blocking_outcome(status),
{
    if status != 0 {
        Err("failed to block resident service signals".to_owned())
    } else {
        Ok(())
    }
}

/// What waiting for a signal came to, given the status of the call and the signal that it gave.
pub open spec fn waiting_outcome(status: i32, received: i32) -> Result<i32, Seq<char>> {
    if status != 0 {
        Err("failed to wait for resident service signal: "@ + decimal::signed_decimal(status as int))
    } else {
        Ok(received)
    }
}

/// What waiting for a signal came to, given the status of the call and the signal that it gave.
pub fn wait_service_signal(status: i32, received: i32) -> (outcome: Result<i32, String>)
    ensures
        views::number_view(outcome) == waiting_outcome(status, received),
{
    if status != 0 {
        Err(
            join2(
                "failed to wait for resident service signal: ",
                signed_decimal_text(status).as_str(),
            ),
        )
    } else {
        Ok(received)
    }
}

/// The service acts on no signal that it does not take itself.
pub proof fn law_only_taken_signals_steer(numbers: SignalNumbers, received: i32)
    requires
        signal_meaning(numbers, received) != ServiceSignal::Ignore,
    ensures
        taken_signals(numbers).contains(received),
{
    let taken = taken_signals(numbers);
    assert(taken[0] == numbers.usr1);
    assert(taken[1] == numbers.usr2);
    assert(taken[3] == numbers.term);
    assert(taken[4] == numbers.int_);
    assert(taken[5] == numbers.quit);
}

/// Where the platform gives every signal a number of its own, each of them asks for one thing: the
/// first user signal for a reload, the second for a suspension, a hangup for nothing, and a request
/// to terminate, to interrupt or to quit for the end. Any other number asks for nothing.
pub proof fn law_every_signal_has_its_meaning(numbers: SignalNumbers, received: i32)
    requires
        numbers.usr1 != numbers.usr2,
        numbers.hup != numbers.usr1,
        numbers.hup != numbers.usr2,
        numbers.term != numbers.usr1 && numbers.term != numbers.usr2 && numbers.term != numbers.hup,
        numbers.int_ != numbers.usr1 && numbers.int_ != numbers.usr2 && numbers.int_ != numbers.hup,
        numbers.quit != numbers.usr1 && numbers.quit != numbers.usr2 && numbers.quit != numbers.hup,
    ensures
        signal_meaning(numbers, received) == ServiceSignal::Reload <==> received == numbers.usr1,
        signal_meaning(numbers, received) == ServiceSignal::Suspend <==> received == numbers.usr2,
        signal_meaning(numbers, received) == ServiceSignal::Stop <==> (received == numbers.term
            || received == numbers.int_ || received == numbers.quit),
{
}

/// Whatever numbers the platform gives, a signal that has two of them means what comes first: a
/// reload, a suspension, nothing for a hangup, the end.
pub proof fn law_first_meaning_counts(numbers: SignalNumbers)
    ensures
        signal_meaning(numbers, numbers.usr1) == ServiceSignal::Reload,
        numbers.usr2 != numbers.usr1 ==> signal_meaning(numbers, numbers.usr2)
            == ServiceSignal::Suspend,
        numbers.hup != numbers.usr1 && numbers.hup != numbers.usr2 ==> signal_meaning(
            numbers,
            numbers.hup,
        ) == ServiceSignal::Ignore,
{
}

/// The service takes the six signals, each once and no other.
pub proof fn law_six_signals_are_taken(numbers: SignalNumbers, number: i32)
    ensures
        taken_signals(numbers).len() == 6,
        taken_signals(numbers).contains(number) <==> (number == numbers.usr1 || number
            == numbers.usr2 || number == numbers.hup || number == numbers.term || number
            == numbers.int_ || number == numbers.quit),
{
    let taken = taken_signals(numbers);
    assert(taken[0] == numbers.usr1);
    assert(taken[1] == numbers.usr2);
    assert(taken[2] == numbers.hup);
    assert(taken[3] == numbers.term);
    assert(taken[4] == numbers.int_);
    assert(taken[5] == numbers.quit);
}

/// Only the status zero is success: blocking then succeeds, and waiting gives the signal that was
/// received. Any other status is an error, which for a wait names the status.
pub proof fn law_only_zero_is_success(status: i32, received: i32)
    ensures
        blocking_outcome(status) is Ok <==> status == 0,
        status != 0 ==> blocking_outcome(status) == Err::<(), _>(
            "failed to block resident service signals"@,
        ),
        waiting_outcome(0, received) == Ok::<i32, Seq<char>>(received),
        status > 0 ==> waiting_outcome(status, received) == Err::<i32, _>(
            "failed to wait for resident service signal: "@ + decimal::decimal(status as nat),
        ),
        status < 0 ==> waiting_outcome(status, received) == Err::<i32, _>(
            "failed to wait for resident service signal: "@ + ("-"@ + decimal::decimal(
                (-status) as nat,
            )),
        ),
{
    reveal_strlit("-");
    assert("-"@ =~= seq!['-']);
}

} // verus!
