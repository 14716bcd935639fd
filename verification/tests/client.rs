use std::cell::{Cell, RefCell};
use std::rc::Rc;
use std::sync::Arc;
use zeroconf::avahi::client::{get_host_name, ManagedAvahiClient};
use zeroconf::avahi::poll::ManagedAvahiSimplePoll;
use zeroconf::Error;

fn describe(code: i32) -> String {
    match code {
        -1 => "Operation failed".to_string(),
        -26 => "Daemon not running".to_string(),
        _ => "Invalid Error Code".to_string(),
    }
}

struct Recorder {
    name: &'static str,
    log: Rc<RefCell<Vec<&'static str>>>,
}

impl Drop for Recorder {
    fn drop(&mut self) {
        self.log.borrow_mut().push(self.name);
    }
}

#[test]
fn client_new_keeps_the_native_client() {
    let poll = Arc::new(ManagedAvahiSimplePoll::new(Some(1u8)).ok().unwrap());
    let asked = Cell::new(false);
    let client = ManagedAvahiClient::new(poll, Some(77u16), 0, |c: i32| {
        asked.set(true);
        describe(c)
    })
    .ok()
    .unwrap();
    assert_eq!(*client.inner(), 77);
    assert!(!asked.get());
}

#[test]
fn client_new_fails_with_the_code_of_the_constructor() {
    let poll = Arc::new(());
    let r = ManagedAvahiClient::<u16, ()>::new(poll.clone(), None, -26, describe);
    assert_eq!(
        r.err(),
        Some(Error::MdnsSystemError {
            code: -26,
            message: "Daemon not running".to_string(),
        })
    );
    assert_eq!(Arc::strong_count(&poll), 1);
}

#[test]
fn host_name_returns_the_native_text() {
    let poll = Arc::new(());
    let client = ManagedAvahiClient::new(poll, Some(3u8), 0, describe)
        .ok()
        .unwrap();
    let asked = Cell::new(false);
    let r = client.host_name(
        |c: &u8| if *c == 3 { Some("host.local") } else { None },
        |_: &u8| {
            asked.set(true);
            -1
        },
        describe,
    );
    assert_eq!(r, Ok("host.local"));
    assert!(!asked.get());
}

#[test]
fn host_name_fails_with_the_last_error_of_the_client() {
    let poll = Arc::new(());
    let client = ManagedAvahiClient::new(poll, Some(3u8), 0, describe)
        .ok()
        .unwrap();
    let r = client.host_name(|_: &u8| None, |c: &u8| -(*c as i32) + 2, describe);
    assert_eq!(
        r,
        Err(Error::MdnsSystemError {
            code: -1,
            message: "Operation failed".to_string(),
        })
    );
}

#[test]
fn get_host_name_borrows_what_the_query_gave() {
    let name = String::from("printer.local");
    let r = get_host_name(&(), |_: &()| Some(name.as_str()), |_: &()| -1, describe);
    assert_eq!(r, Ok("printer.local"));
    assert_eq!(r.unwrap().as_ptr(), name.as_ptr());
    let r = get_host_name(&(), |_: &()| None, |_: &()| -99, describe);
    assert_eq!(
        r,
        Err(Error::MdnsSystemError {
            code: -99,
            message: "Invalid Error Code".to_string(),
        })
    );
}

#[test]
fn poll_outlives_the_client_made_for_it() {
    let log = Rc::new(RefCell::new(Vec::new()));
    let poll = Arc::new(
        ManagedAvahiSimplePoll::new(Some(Recorder {
            name: "poll",
            log: log.clone(),
        }))
        .ok()
        .unwrap(),
    );
    let client = ManagedAvahiClient::new(
        poll.clone(),
        Some(Recorder {
            name: "client",
            log: log.clone(),
        }),
        0,
        describe,
    )
    .ok()
    .unwrap();

    drop(poll);
    assert!(log.borrow().is_empty());
    drop(client);
    assert_eq!(*log.borrow(), vec!["client", "poll"]);
}

#[test]
fn native_resources_are_released_once_on_every_path() {
    let log = Rc::new(RefCell::new(Vec::new()));
    {
        let _poll = ManagedAvahiSimplePoll::new(Some(Recorder {
            name: "poll",
            log: log.clone(),
        }));
    }
    assert_eq!(*log.borrow(), vec!["poll"]);

    let poll = Arc::new(Recorder {
        name: "shared",
        log: log.clone(),
    });
    let failed = ManagedAvahiClient::<Recorder, Recorder>::new(poll, None, -1, describe);
    assert!(failed.is_err());
    assert_eq!(*log.borrow(), vec!["poll", "shared"]);
}
