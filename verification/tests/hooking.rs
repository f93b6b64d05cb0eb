use error_hook::hook_outcome;
use error_hook::AggregateError;
use error_hook::Error;
use error_hook::HookResult;
use error_hook::IntoBoxed;
use error_hook::OpaqueError;
use error_hook::SecretTraitDoNotUseOrYouWillBeFired;
use error_hook::Shape;
use std::cell::Cell;
use std::cell::RefCell;

fn aggregate_func(res: Result<(), AggregateError>) -> HookResult<()> {
    hook_outcome(res, |_e: &AggregateError| println!("error"))
}

#[test]
fn anyhow_works() {
    assert!(aggregate_func(Ok(())).is_ok());
    assert!(aggregate_func(Err(AggregateError::new(String::from("error")))).is_err());
}

fn boxed_func(res: Result<(), OpaqueError>) -> HookResult<()> {
    hook_outcome(res, |_e: &OpaqueError| println!("error"))
}

#[test]
fn boxed_works() {
    assert!(boxed_func(Ok(())).is_ok());
    assert!(boxed_func(Err(String::from("ho, no")).into_boxed()).is_err());
}

fn divide(a: i64, b: i64) -> Result<i64, AggregateError> {
    if b == 0 {
        Err(AggregateError::new(String::from("division by zero")))
    } else {
        Ok(a / b)
    }
}

#[test]
fn divide_success_value_unchanged_hook_not_invoked() {
    let calls = Cell::new(0u32);
    let r = hook_outcome(divide(10, 2), |_e: &AggregateError| {
        calls.set(calls.get() + 1)
    });
    assert_eq!(r.unwrap(), 5);
    assert_eq!(calls.get(), 0);
}

#[test]
fn divide_failure_runs_hook_once_with_original_text() {
    let calls = Cell::new(0u32);
    let seen = RefCell::new(String::new());
    let r = hook_outcome(divide(10, 0), |e: &AggregateError| {
        calls.set(calls.get() + 1);
        *seen.borrow_mut() = e.message().clone();
    });
    let err = r.err().unwrap();
    assert!(matches!(err, Error::Anyhow(_)));
    assert_eq!(err.message().as_str(), "division by zero");
    assert_eq!(calls.get(), 1);
    assert_eq!(seen.borrow().as_str(), "division by zero");
}

#[test]
fn failing_twice_runs_hook_exactly_twice() {
    let calls = Cell::new(0u32);
    let first = hook_outcome(divide(1, 0), |_e: &AggregateError| {
        calls.set(calls.get() + 1)
    });
    assert!(first.is_err());
    assert_eq!(calls.get(), 1);
    let second = hook_outcome(divide(1, 0), |_e: &AggregateError| {
        calls.set(calls.get() + 1)
    });
    assert!(second.is_err());
    assert_eq!(calls.get(), 2);
}

#[test]
fn opaque_failure_runs_hook_once_with_original_text() {
    let calls = Cell::new(0u32);
    let seen = RefCell::new(String::new());
    let out: Result<u8, OpaqueError> = Err(OpaqueError::new(String::from("ho, no")));
    let r = hook_outcome(out, |e: &OpaqueError| {
        calls.set(calls.get() + 1);
        *seen.borrow_mut() = e.message().clone();
    });
    let err = r.err().unwrap();
    assert!(matches!(err, Error::Boxed(_)));
    assert_eq!(err.message().as_str(), "ho, no");
    assert_eq!(calls.get(), 1);
    assert_eq!(seen.borrow().as_str(), "ho, no");
}

async fn fetch(id: u32) -> Result<u32, OpaqueError> {
    if id == 1 {
        Ok(10)
    } else {
        Err(OpaqueError::new(String::from("not found")))
    }
}

#[test]
fn async_fetch_behaves_like_sync() {
    let rt = tokio::runtime::Builder::new_current_thread().build().unwrap();
    let calls = Cell::new(0u32);

    let ok = rt.block_on(async {
        hook_outcome(fetch(1).await, |_e: &OpaqueError| calls.set(calls.get() + 1))
    });
    assert_eq!(ok.unwrap(), 10);
    assert_eq!(calls.get(), 0);

    let missing = rt.block_on(async {
        hook_outcome(fetch(99).await, |_e: &OpaqueError| calls.set(calls.get() + 1))
    });
    let err = missing.err().unwrap();
    assert_eq!(err.message().as_str(), "not found");
    assert_eq!(calls.get(), 1);
}

#[test]
fn attach_alone_never_runs_hook() {
    let calls = Cell::new(0u32);
    let out: Result<(), OpaqueError> = Err(OpaqueError::new(String::from("late")));
    let paired = out.into_ghost(|_e: &OpaqueError| calls.set(calls.get() + 1));
    assert!(paired.is_err());
    assert_eq!(calls.get(), 0);
    drop(paired);
    assert_eq!(calls.get(), 0);
}

#[test]
fn conversion_is_the_single_trigger_point() {
    let calls = Cell::new(0u32);
    let out: Result<u8, AggregateError> = Err(AggregateError::new(String::from("boom")));
    let paired = out.into_ghost(|_e: &AggregateError| calls.set(calls.get() + 1));
    let err = AggregateError::wrap_pairing(paired.err().unwrap());
    assert_eq!(calls.get(), 1);
    assert_eq!(err.message().as_str(), "boom");
}

#[test]
fn into_boxed_keeps_successes_and_text() {
    let ok: Result<u8, String> = Ok(7);
    assert_eq!(ok.into_boxed().unwrap(), 7);
    let err: Result<u8, String> = Err(String::from("ho, no"));
    assert_eq!(err.into_boxed().err().unwrap().message().as_str(), "ho, no");
}

#[test]
fn aggregate_context_displays_outermost_message() {
    let e = AggregateError::new(String::from("root cause")).context(String::from("while saving"));
    assert_eq!(e.message().as_str(), "while saving");
}

#[test]
fn container_display_is_transparent() {
    let boxed = Error::Boxed(OpaqueError::new(String::from("plain text")));
    assert_eq!(boxed.message().as_str(), "plain text");
    let aggregate = Error::Anyhow(AggregateError::new(String::from("chained text")));
    assert_eq!(aggregate.message().as_str(), "chained text");
}
