use azure_devops_artifacts::pipeline::Action;
use azure_devops_artifacts::pipeline::Driver;
use azure_devops_artifacts::pipeline::Event;
use azure_devops_artifacts::pipeline::Outcome;
use azure_devops_artifacts::pipeline::Phase;
use azure_devops_artifacts::retry::RetryOptions;

#[test]
fn two_policies_and_a_success_run_the_whole_chain_once() {
    let mut driver = Driver::new(2, RetryOptions::exponential());
    assert_eq!(driver.step(Event::Start, 0, 0), Action::CallPolicy { index: 0 });
    assert_eq!(driver.step(Event::Forwarded, 1, 0), Action::CallPolicy { index: 1 });
    assert_eq!(driver.step(Event::Forwarded, 2, 0), Action::CallTransport);
    assert_eq!(
        driver.step(Event::TransportOk { status: 200 }, 3, 0),
        Action::ObservePolicy { index: 1 }
    );
    assert_eq!(driver.step(Event::Observed, 4, 0), Action::ObservePolicy { index: 0 });
    assert_eq!(
        driver.step(Event::Observed, 5, 0),
        Action::Deliver { outcome: Outcome::Delivered { status: 200 } }
    );
    assert_eq!(driver.phase, Phase::Finished);
    assert_eq!(driver.attempts, 1);
    assert_eq!(driver.transport_calls, 1);
}

#[test]
fn short_circuit_skips_downstream_and_the_transport() {
    let mut driver = Driver::new(3, RetryOptions::exponential());
    assert_eq!(driver.step(Event::Start, 0, 0), Action::CallPolicy { index: 0 });
    assert_eq!(driver.step(Event::Forwarded, 1, 0), Action::CallPolicy { index: 1 });
    assert_eq!(driver.step(Event::ShortCircuit, 2, 0), Action::ObservePolicy { index: 0 });
    assert_eq!(
        driver.step(Event::Observed, 3, 0),
        Action::Deliver { outcome: Outcome::ShortCircuited }
    );
    assert_eq!(driver.transport_calls, 0);
    assert_eq!(driver.phase, Phase::Finished);
}

#[test]
fn short_circuit_by_the_first_policy_delivers_at_once() {
    let mut driver = Driver::new(1, RetryOptions::exponential());
    assert_eq!(driver.step(Event::Start, 0, 0), Action::CallPolicy { index: 0 });
    assert_eq!(
        driver.step(Event::ShortCircuit, 1, 0),
        Action::Deliver { outcome: Outcome::ShortCircuited }
    );
    assert_eq!(driver.transport_calls, 0);
}

#[test]
fn a_transient_status_is_retried_with_backoff() {
    let mut driver = Driver::new(0, RetryOptions::exponential());
    assert_eq!(driver.step(Event::Start, 0, 0), Action::CallTransport);
    assert_eq!(
        driver.step(Event::TransportOk { status: 503 }, 10, 0),
        Action::Sleep { delay_ms: 400 }
    );
    assert_eq!(driver.step(Event::Woke, 410, 0), Action::CallTransport);
    assert_eq!(
        driver.step(Event::TransportOk { status: 200 }, 420, 0),
        Action::Deliver { outcome: Outcome::Delivered { status: 200 } }
    );
    assert_eq!(driver.attempts, 2);
    assert_eq!(driver.transport_calls, 2);
}

#[test]
fn attempts_stop_at_one_more_than_the_retry_count() {
    let mut options = RetryOptions::exponential();
    options.max_retries = 2;
    let mut driver = Driver::new(0, options);
    assert_eq!(driver.step(Event::Start, 0, 0), Action::CallTransport);
    assert_eq!(
        driver.step(Event::TransportOk { status: 503 }, 1, 0),
        Action::Sleep { delay_ms: 400 }
    );
    assert_eq!(driver.step(Event::Woke, 401, 0), Action::CallTransport);
    assert_eq!(
        driver.step(Event::TransportOk { status: 503 }, 402, 0),
        Action::Sleep { delay_ms: 800 }
    );
    assert_eq!(driver.step(Event::Woke, 1202, 0), Action::CallTransport);
    assert_eq!(
        driver.step(Event::TransportOk { status: 503 }, 1203, 0),
        Action::Deliver { outcome: Outcome::Delivered { status: 503 } }
    );
    assert_eq!(driver.attempts, 3);
    assert_eq!(driver.transport_calls, 3);
}

#[test]
fn a_zero_retry_strategy_still_makes_the_initial_attempt() {
    let mut options = RetryOptions::exponential();
    options.max_retries = 0;
    let mut driver = Driver::new(0, options);
    assert_eq!(driver.step(Event::Start, 0, 0), Action::CallTransport);
    assert_eq!(
        driver.step(Event::TransportOk { status: 503 }, 1, 0),
        Action::Deliver { outcome: Outcome::Delivered { status: 503 } }
    );
    assert_eq!(driver.attempts, 1);
}

#[test]
fn retries_stop_once_the_time_budget_is_spent() {
    let mut driver = Driver::new(0, RetryOptions::exponential());
    assert_eq!(driver.step(Event::Start, 0, 0), Action::CallTransport);
    assert_eq!(
        driver.step(Event::TransportError { transient: true }, 60000, 0),
        Action::Deliver { outcome: Outcome::Failed { transient: true } }
    );
    assert_eq!(driver.attempts, 1);
}

#[test]
fn a_non_transient_failure_is_not_retried() {
    let mut driver = Driver::new(0, RetryOptions::exponential());
    assert_eq!(driver.step(Event::Start, 0, 0), Action::CallTransport);
    assert_eq!(
        driver.step(Event::TransportError { transient: false }, 1, 0),
        Action::Deliver { outcome: Outcome::Failed { transient: false } }
    );
}

#[test]
fn retry_off_delivers_the_first_transient_failure() {
    let mut driver = Driver::new(0, RetryOptions::off());
    assert_eq!(driver.step(Event::Start, 0, 0), Action::CallTransport);
    assert_eq!(
        driver.step(Event::TransportOk { status: 429 }, 1, 0),
        Action::Deliver { outcome: Outcome::Delivered { status: 429 } }
    );
    assert_eq!(driver.attempts, 1);
}
