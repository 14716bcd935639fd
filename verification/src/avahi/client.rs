//! The client handle: one native client object, tied to the event loop it
//! was made for.

use crate::avahi::avahi_util::get_last_error;
use crate::error::{Error, ErrorView};
use std::sync::Arc;
use vstd::prelude::*;

verus! {

/// Owns one native client object, `inner`, and a share of the event loop
/// that the client was made for. The fields are released in the order in
/// which they stand: the client first, then the share of the loop, so the
/// loop outlives every client made for it.
pub struct ManagedAvahiClient<C, S> {
    inner: C,
    poll: Arc<S>,
}

impl<C, S> ManagedAvahiClient<C, S> {
    /// The native client object that the handle owns.
    pub closed spec fn native(&self) -> C {
        self.inner
    }

    /// The event loop that the client was made for.
    pub closed spec fn poll(&self) -> Arc<S> {
        self.poll
    }

    /// Takes over what the native constructor returned for `poll`: the new
    /// client, or `None` for a null client together with the error `code`
    /// that the constructor left behind. `get_error` asks the native library
    /// for the message of that code, and is asked only then.
    pub fn new<G: FnOnce(i32) -> String>(
        poll: Arc<S>,
        native: Option<C>,
        code: i32,
        get_error: G,
    ) -> (r: Result<Self, Error>)
        requires
            native is None ==> get_error.requires((code,)),
        ensures
            match native {
                Some(handle) => r matches Ok(client) && client.native() == handle && client.poll()
                    == poll,
                None => exists|message: String|
                    {
                        &&& #[trigger] get_error.ensures((code,), message)
                        &&& r matches Err(e)
                        &&& e@ == (ErrorView::MdnsSystemError { code, message: message@ })
                    },
            },
    {
        match native {
            Some(handle) => Ok(ManagedAvahiClient { inner: handle, poll }),
            None => {
                let message = get_error(code);
                Err(Error::MdnsSystemError { code, message })
            },
        }
    }

    /// The native client object.
    pub fn inner(&self) -> (r: &C)
        ensures
            *r == self.native(),
    {
        &self.inner
    }

    /// The host name that the native client has resolved, see
    /// [`get_host_name`].
    pub fn host_name<
        'a,
        H: FnOnce(&C) -> Option<&'a str>,
        E: FnOnce(&C) -> i32,
        G: FnOnce(i32) -> String,
    >(&self, native_host_name: H, client_errno: E, get_error: G) -> (r: Result<&'a str, Error>)
        requires
            native_host_name.requires((&self.native(),)),
            native_host_name.ensures((&self.native(),), None) ==> client_errno.requires(
                (&self.native(),),
            ),
            forall|code: i32|
                client_errno.ensures((&self.native(),), code) ==> #[trigger] get_error.requires(
                    (code,),
                ),
        ensures
            host_name_outcome(&self.native(), native_host_name, client_errno, get_error, r),
    {
        get_host_name(&self.inner, native_host_name, client_errno, get_error)
    }
}

/// What [`get_host_name`] may return: the name that the native query gave,
/// or, where it gave none, the client's current error.
pub open spec fn host_name_outcome<
    'a,
    C,
    H: FnOnce(&C) -> Option<&'a str>,
    E: FnOnce(&C) -> i32,
    G: FnOnce(i32) -> String,
>(client: &C, native_host_name: H, client_errno: E, get_error: G, r: Result<&'a str, Error>) -> bool {
    exists|name: Option<&'a str>|
        {
            &&& #[trigger] native_host_name.ensures((client,), name)
            &&& match name {
                Some(text) => r == Ok::<&'a str, Error>(text),
                None => exists|code: i32, message: String|
                    {
                        &&& #[trigger] client_errno.ensures((client,), code)
                        &&& #[trigger] get_error.ensures((code,), message)
                        &&& r matches Err(e)
                        &&& e@ == (ErrorView::MdnsSystemError { code, message: message@ })
                    },
            }
        }
}

/// Asks the native client for its host name: `native_host_name` makes the
/// query and answers `None` for a null pointer. The name is handed on as it
/// is, borrowed from the native client; where there is none, the client's
/// current error is fetched and returned.
pub fn get_host_name<
    'a,
    C,
    H: FnOnce(&C) -> Option<&'a str>,
    E: FnOnce(&C) -> i32,
    G: FnOnce(i32) -> String,
>(client: &C, native_host_name: H, client_errno: E, get_error: G) -> (r: Result<&'a str, Error>)
    requires
        native_host_name.requires((client,)),
        native_host_name.ensures((client,), None) ==> client_errno.requires((client,)),
        forall|code: i32| client_errno.ensures((client,), code) ==> #[trigger] get_error.requires((code,)),
    ensures
        host_name_outcome(client, native_host_name, client_errno, get_error, r),
{
    match native_host_name(client) {
        Some(text) => Ok(text),
        None => Err(get_last_error(client, client_errno, get_error)),
    }
}

} // verus!
