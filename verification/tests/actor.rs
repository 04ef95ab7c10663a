//! The actor end to end, through its queues: a handle sends, the driver
//! serves what is there, and the handle takes its reply.

use async_channel_abs::{
    App, AppDriver, AsyncStd, Command, Error, Phase, Receiver, ReplyReceiver, Runtime, Tokio,
};
use tokio::runtime::Builder;

/// The reply that is there by now.
fn reply<R: Runtime>(reply_rx: ReplyReceiver<R>) -> Result<String, Error> {
    let mut reply_rx = reply_rx;
    match reply_rx.try_recv() {
        Ok(Some(reply)) => App::<R>::reply_outcome(Ok(reply)),
        Ok(None) => panic!("no reply yet"),
        Err(e) => App::<R>::reply_outcome(Err(e)),
    }
}

/// One round trip, with the driver serving between the send and the reply.
fn ask<R: Runtime>(app: &App<R>, driver: &mut AppDriver<R>, cmd: Command) -> Result<String, Error> {
    let reply_rx = app.submit(cmd)?;
    driver.run(usize::MAX).unwrap();
    reply::<R>(reply_rx)
}

#[test]
fn tokio_app() {
    let (app, mut driver) = App::<Tokio>::new("Hello Tokio!");

    let init_state = ask(&app, &mut driver, Command::GetState).unwrap();
    assert_eq!(init_state, "Hello Tokio!");

    let new_state = ask(&app, &mut driver, Command::update("Hello again!")).unwrap();
    assert_eq!(new_state, "Hello again!");

    ask(&app, &mut driver, Command::Terminate).unwrap();
    assert_eq!(driver.phase(), Phase::Stopped);
}

#[test]
fn async_std_app() {
    let (app, mut driver) = App::<AsyncStd>::new("Hello async-std!");

    let init_state = ask(&app, &mut driver, Command::GetState).unwrap();
    assert_eq!(init_state, "Hello async-std!");

    let new_state = ask(&app, &mut driver, Command::update("Hello again!")).unwrap();
    assert_eq!(new_state, "Hello again!");

    ask(&app, &mut driver, Command::Terminate).unwrap();
    assert_eq!(driver.phase(), Phase::Stopped);
}

#[test]
fn tokio_hello_world_then_closed() {
    let (app, mut driver) = App::<Tokio>::new("Hello");
    let late = app.clone();

    assert_eq!(ask(&app, &mut driver, Command::GetState).unwrap(), "Hello");
    assert_eq!(ask(&app, &mut driver, Command::update("World")).unwrap(), "World");
    assert_eq!(ask(&app, &mut driver, Command::GetState).unwrap(), "World");
    assert_eq!(ask(&app, &mut driver, Command::Terminate).unwrap(), "World");
    assert_eq!(driver.phase(), Phase::Stopped);

    match late.submit(Command::GetState) {
        Err(Error::ChannelSend(text)) => assert_eq!(text, "channel closed"),
        Err(other) => panic!("expected a send failure, got {:?}", other),
        Ok(_) => panic!("expected a send failure"),
    }
    assert!(app.submit(Command::GetState).is_err());
    assert_eq!(driver.state(), "World");
}

#[test]
fn async_std_hello_world_then_closed() {
    let (app, mut driver) = App::<AsyncStd>::new("Hello");
    let late = app.clone();

    assert_eq!(ask(&app, &mut driver, Command::GetState).unwrap(), "Hello");
    assert_eq!(ask(&app, &mut driver, Command::update("World")).unwrap(), "World");
    assert_eq!(ask(&app, &mut driver, Command::GetState).unwrap(), "World");
    assert_eq!(ask(&app, &mut driver, Command::Terminate).unwrap(), "World");
    assert_eq!(driver.phase(), Phase::Stopped);

    match late.submit(Command::GetState) {
        Err(Error::ChannelSend(text)) => assert_eq!(text, "sending into a closed channel"),
        Err(other) => panic!("expected a send failure, got {:?}", other),
        Ok(_) => panic!("expected a send failure"),
    }
}

#[test]
fn tokio_later_update_wins() {
    let (app, mut driver) = App::<Tokio>::new("start");
    let other = app.clone();

    let first = app.submit(Command::update("A")).unwrap();
    let second = other.submit(Command::update("B")).unwrap();
    driver.run(usize::MAX).unwrap();

    assert_eq!(reply::<Tokio>(first).unwrap(), "A");
    assert_eq!(reply::<Tokio>(second).unwrap(), "B");
    assert_eq!(ask(&app, &mut driver, Command::GetState).unwrap(), "B");
    assert_eq!(ask(&other, &mut driver, Command::GetState).unwrap(), "B");
}

#[test]
fn async_std_later_update_wins() {
    let (app, mut driver) = App::<AsyncStd>::new("start");
    let other = app.clone();

    let first = app.submit(Command::update("A")).unwrap();
    let second = other.submit(Command::update("B")).unwrap();
    driver.run(usize::MAX).unwrap();

    assert_eq!(reply::<AsyncStd>(first).unwrap(), "A");
    assert_eq!(reply::<AsyncStd>(second).unwrap(), "B");
    assert_eq!(ask(&app, &mut driver, Command::GetState).unwrap(), "B");
    assert_eq!(ask(&other, &mut driver, Command::GetState).unwrap(), "B");
}

#[test]
fn repeated_reads_return_the_same() {
    let (app, mut driver) = App::<Tokio>::new("same");
    for _ in 0..5 {
        assert_eq!(ask(&app, &mut driver, Command::GetState).unwrap(), "same");
    }
    assert_eq!(driver.state(), "same");
    assert!(driver.is_running());
}

#[test]
fn update_returns_the_new_value_for_any_text() {
    let (app, mut driver) = App::<AsyncStd>::new("old");
    for value in ["", "x", "två ord", "\u{1F980} crab", "line\nbreak"] {
        assert_eq!(ask(&app, &mut driver, Command::update(value)).unwrap(), value);
        assert_eq!(ask(&app, &mut driver, Command::GetState).unwrap(), value);
    }
}

#[test]
fn handles_on_other_threads_are_served_in_order_of_arrival() {
    let (app, mut driver) = App::<Tokio>::new("");
    let pool = Builder::new_current_thread().build().unwrap();

    let mut writers = Vec::new();
    for name in ["one", "two", "three"] {
        let handle = app.clone();
        writers.push(pool.spawn_blocking(move || {
            let mut pending = Vec::new();
            for round in 0..10 {
                let value = format!("{}-{}", name, round);
                pending.push((handle.submit(Command::update(&value)).unwrap(), value));
            }
            pending
        }));
    }
    let mut pending = Vec::new();
    for writer in writers {
        pending.extend(pool.block_on(writer).unwrap());
    }

    driver.run(usize::MAX).unwrap();
    for (reply_rx, value) in pending {
        assert_eq!(reply::<Tokio>(reply_rx).unwrap(), value);
    }
    assert!(driver.state().ends_with("-9"));
    assert!(driver.is_running());
}
