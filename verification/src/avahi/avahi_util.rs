//! Native status codes as errors, and the texts handed to the native
//! library.

use crate::decimal::{decimal, decimal_string};
use crate::error::{Error, ErrorView};
use crate::network_interface::NetworkInterface;
use crate::service_type::{texts_of, ServiceType};
use vstd::prelude::*;

verus! {

/// The interface index by which the native library means "no interface in
/// particular".
pub const AVAHI_IF_UNSPEC: i32 = -1;

/// The length of the buffer that the native library asks for when it writes
/// an address as text, the closing NUL included.
pub const AVAHI_ADDRESS_STR_MAX: usize = 40;

/// `s` without the NUL characters at its start.
pub open spec fn trim_start_nul(s: Seq<char>) -> Seq<char>
    decreases s.len(),
{
    if s.len() > 0 && s[0] == '\0' {
        trim_start_nul(s.drop_first())
    } else {
        s
    }
}

/// `s` without the NUL characters at its end.
pub open spec fn trim_end_nul(s: Seq<char>) -> Seq<char>
    decreases s.len(),
{
    if s.len() > 0 && s.last() == '\0' {
        trim_end_nul(s.drop_last())
    } else {
        s
    }
}

/// `s` without the NUL characters at its start and at its end.
pub open spec fn trim_nul(s: Seq<char>) -> Seq<char> {
    trim_end_nul(trim_start_nul(s))
}

proof fn lemma_trim_start(s: Seq<char>, k: int)
    requires
        0 <= k <= s.len(),
        forall|j: int| 0 <= j < k ==> s[j] == '\0',
        k < s.len() ==> s[k] != '\0',
    ensures
        trim_start_nul(s) == s.subrange(k, s.len() as int),
    decreases k,
{
    if k == 0 {
        assert(s.subrange(0, s.len() as int) =~= s);
    } else {
        let rest = s.drop_first();
        lemma_trim_start(rest, k - 1);
        assert(rest.subrange(k - 1, rest.len() as int) =~= s.subrange(k, s.len() as int));
    }
}

proof fn lemma_trim_end(s: Seq<char>, k: int)
    requires
        0 <= k <= s.len(),
        forall|j: int| k <= j < s.len() ==> s[j] == '\0',
        k > 0 ==> s[k - 1] != '\0',
    ensures
        trim_end_nul(s) == s.subrange(0, k),
    decreases s.len() - k,
{
    if k == s.len() {
        assert(s.subrange(0, k) =~= s);
    } else {
        let rest = s.drop_last();
        lemma_trim_end(rest, k);
        assert(rest.subrange(0, k) =~= s.subrange(0, k));
    }
}

/// Removes the NUL characters at the start and at the end of `text`.
pub fn trim_nul_chars(text: &str) -> (r: String)
    ensures
        r@ == trim_nul(text@),
{
    let n = text.unicode_len();
    let mut start: usize = 0;
    while start < n && text.get_char(start) == '\0'
        invariant
            n == text@.len(),
            start <= n,
            forall|j: int| 0 <= j < start ==> text@[j] == '\0',
        decreases n - start,
    {
        start += 1;
    }
    let mut end: usize = n;
    while end > start && text.get_char(end - 1) == '\0'
        invariant
            n == text@.len(),
            start <= end <= n,
            forall|j: int| end <= j < n ==> text@[j] == '\0',
        decreases end,
    {
        end -= 1;
    }
    proof {
        let tail = text@.subrange(start as int, n as int);
        lemma_trim_start(text@, start as int);
        lemma_trim_end(tail, end - start);
        assert(tail.subrange(0, end - start) =~= text@.subrange(start as int, end as int));
    }
    String::from_str(text.substring_char(start, end))
}

/// Writes the native address `addr` as text. `native_snprint` makes the
/// native call: it is handed the address and the length of the buffer to
/// print into, and returns the buffer as text. What comes back is freed of
/// the NUL characters around it.
pub fn avahi_address_to_string<A, F: FnOnce(&A, usize) -> String>(addr: &A, native_snprint: F) -> (r:
    String)
    requires
        native_snprint.requires((addr, AVAHI_ADDRESS_STR_MAX)),
    ensures
        exists|buffer: String|
            {
                &&& #[trigger] native_snprint.ensures((addr, AVAHI_ADDRESS_STR_MAX), buffer)
                &&& r@ == trim_nul(buffer@)
            },
{
    let buffer = native_snprint(addr, AVAHI_ADDRESS_STR_MAX);
    trim_nul_chars(buffer.as_str())
}

/// The index that the native library knows `interface` by. An index above
/// `i32::MAX` wraps round to a negative number.
pub open spec fn interface_index_of(interface: NetworkInterface) -> int {
    match interface {
        NetworkInterface::Unspec => -1,
        NetworkInterface::AtIndex(i) => if i <= i32::MAX {
            i as int
        } else {
            i - 0x1_0000_0000
        },
    }
}

/// The interface that the native library means by `index`. A negative index
/// other than the one for "unspecified" wraps round to a number above
/// `i32::MAX`.
pub open spec fn interface_of_index(index: int) -> NetworkInterface {
    if index == -1 {
        NetworkInterface::Unspec
    } else if index >= 0 {
        NetworkInterface::AtIndex(index as u32)
    } else {
        NetworkInterface::AtIndex((index + 0x1_0000_0000) as u32)
    }
}

/// Converts `interface` to the index that the native library expects.
pub fn interface_index(interface: NetworkInterface) -> (r: i32)
    ensures
        r == interface_index_of(interface),
{
    match interface {
        NetworkInterface::Unspec => AVAHI_IF_UNSPEC,
        NetworkInterface::AtIndex(i) => {
            if i <= 0x7fff_ffffu32 {
                i as i32
            } else {
                let low: i32 = (i - 0x8000_0000u32) as i32;
                low + i32::MIN
            }
        },
    }
}

/// Converts an interface index of the native library to a
/// [`NetworkInterface`].
pub fn interface_from_index(index: i32) -> (r: NetworkInterface)
    ensures
        r == interface_of_index(index as int),
{
    if index == AVAHI_IF_UNSPEC {
        NetworkInterface::Unspec
    } else if index >= 0 {
        NetworkInterface::AtIndex(index as u32)
    } else {
        let wrapped: i64 = index as i64 + 0x1_0000_0000i64;
        NetworkInterface::AtIndex(wrapped as u32)
    }
}

/// Every interface but the one with the largest index comes back from its
/// native index unchanged; that one has the index of "unspecified".
pub proof fn lemma_interface_index_round_trip(interface: NetworkInterface)
    ensures
        interface != NetworkInterface::AtIndex(u32::MAX) ==> interface_of_index(
            interface_index_of(interface),
        ) == interface,
        interface_of_index(interface_index_of(NetworkInterface::AtIndex(u32::MAX)))
            == NetworkInterface::Unspec,
{
}

/// `sub_type` with an underscore in front, unless it has one already.
pub open spec fn with_underscore(sub_type: Seq<char>) -> Seq<char> {
    if sub_type.len() > 0 && sub_type[0] == '_' {
        sub_type
    } else {
        "_"@ + sub_type
    }
}

/// The text of a service type: `_<name>._<protocol>`.
pub open spec fn service_type_text(name: Seq<char>, protocol: Seq<char>) -> Seq<char> {
    "_"@ + name + "._"@ + protocol
}

/// The text of a sub-type of `kind`: `_<sub_type>._sub.<kind>`.
pub open spec fn sub_type_text(sub_type: Seq<char>, kind: Seq<char>) -> Seq<char> {
    with_underscore(sub_type) + "._sub."@ + kind
}

/// The text by which services are browsed: that of the service type, or,
/// where it has sub-types, that of the first of them.
pub open spec fn browser_type_text(
    name: Seq<char>,
    protocol: Seq<char>,
    sub_types: Seq<Seq<char>>,
) -> Seq<char> {
    if sub_types.len() == 0 {
        service_type_text(name, protocol)
    } else {
        sub_type_text(sub_types[0], service_type_text(name, protocol))
    }
}

/// Formats `service_type` for the native library.
pub fn format_service_type(service_type: &ServiceType) -> (r: String)
    ensures
        r@ == service_type_text(service_type.spec_name(), service_type.spec_protocol()),
{
    let mut text = String::from_str("_");
    text.append(service_type.name());
    text.append("._");
    text.append(service_type.protocol());
    text
}

/// Whether browsing by `service_type` leaves sub-types out: the native
/// library browses by one sub-type, so of several only the first is used.
pub fn browses_first_sub_type_only(service_type: &ServiceType) -> (r: bool)
    ensures
        r == (service_type.spec_sub_types().len() > 1),
{
    service_type.sub_types().len() > 1
}

/// Formats `service_type` for browsing: with sub-types, the first of them
/// is browsed and the others are left out.
pub fn format_browser_type(service_type: &ServiceType) -> (r: String)
    ensures
        r@ == browser_type_text(
            service_type.spec_name(),
            service_type.spec_protocol(),
            service_type.spec_sub_types(),
        ),
{
    let kind = format_service_type(service_type);
    let sub_types = service_type.sub_types();
    if sub_types.len() == 0 {
        return kind;
    }
    assert(texts_of(sub_types@)[0] == sub_types@[0]@);
    format_sub_type(sub_types[0].as_str(), kind.as_str())
}

/// Formats `sub_type` as a sub-type of `kind` for the native library.
pub fn format_sub_type(sub_type: &str, kind: &str) -> (r: String)
    ensures
        r@ == sub_type_text(sub_type@, kind@),
{
    let has_underscore = !sub_type.is_empty() && sub_type.get_char(0) == '_';
    let mut text = String::from_str(if has_underscore {
        ""
    } else {
        "_"
    });
    text.append(sub_type);
    text.append("._sub.");
    text.append(kind);
    proof {
        reveal_strlit("");
    }
    text
}

/// An underscore in front of a sub-type makes no difference: putting one in
/// front twice is putting it once, and a sub-type is formatted to the same
/// text with the underscore and without it.
pub proof fn lemma_sub_type_underscore(sub_type: Seq<char>, kind: Seq<char>)
    ensures
        with_underscore(with_underscore(sub_type)) == with_underscore(sub_type),
        sub_type_text(with_underscore(sub_type), kind) == sub_type_text(sub_type, kind),
        sub_type.len() == 0 || sub_type[0] != '_' ==> sub_type_text("_"@ + sub_type, kind)
            == sub_type_text(sub_type, kind),
{
    reveal_strlit("_");
}

/// The text that `{:?}` writes for a string: the string between double
/// quotes, with the characters that `Debug` escapes written as escapes.
pub uninterp spec fn debug_text(s: Seq<char>) -> Seq<char>;

/// `format!("{:?}", s)` on a string slice, that is `<str as Debug>::fmt`.
/// The result is a function of the characters of `s` alone; it is named
/// [`debug_text`] and nothing more is claimed of it.
#[verifier::external_body]
fn debug_string(s: &str) -> (r: String)
    ensures
        r@ == debug_text(s@),
{
    format!("{:?}", s)
}

/// The message of a native failure: the caller's context, the code in
/// decimal, and the native message as already quoted text.
pub open spec fn failure_text(context: Seq<char>, code: int, quoted: Seq<char>) -> Seq<char> {
    context + ": (code: "@ + decimal(code) + ", message:"@ + quoted + ")"@
}

/// The error that stands for native status `code`, raised in `context`,
/// where the native library describes the code as `native`.
pub open spec fn native_failure_view(context: Seq<char>, code: i32, native: Seq<char>) -> ErrorView {
    ErrorView::MdnsSystemError {
        code,
        message: failure_text(context, code as int, debug_text(native)),
    }
}

/// Puts together the message of a native failure from its parts; `quoted`
/// is the native message as it is to appear, quotes included.
pub fn failure_message(context: &str, code: i32, quoted: &str) -> (r: String)
    ensures
        r@ == failure_text(context@, code as int, quoted@),
{
    let mut text = String::from_str(context);
    text.append(": (code: ");
    let digits = decimal_string(code);
    text.append(digits.as_str());
    text.append(", message:");
    text.append(quoted);
    text.append(")");
    text
}

/// The error for native status `code`, raised in `context`, where the
/// native library describes the code as `native`.
pub fn native_failure(context: &str, code: i32, native: &str) -> (r: Error)
    ensures
        r@ == native_failure_view(context@, code, native@),
{
    let quoted = debug_string(native);
    Error::MdnsSystemError { code, message: failure_message(context, code, quoted.as_str()) }
}

/// Judges a native status code: a negative one is a failure, described by
/// `get_error`, which is asked only then; any other is success.
pub fn check_status<G: FnOnce(i32) -> String>(code: i32, message: &str, get_error: G) -> (r: Result<
    (),
    Error,
>)
    requires
        code < 0 ==> get_error.requires((code,)),
    ensures
        code >= 0 ==> r is Ok,
        code < 0 ==> exists|native: String|
            {
                &&& #[trigger] get_error.ensures((code,), native)
                &&& r matches Err(e)
                &&& e@ == native_failure_view(message@, code, native@)
            },
{
    if code < 0 {
        let native = get_error(code);
        Err(native_failure(message, code, native.as_str()))
    } else {
        Ok(())
    }
}

/// Runs `func`, a native call that returns a status code, and judges the
/// code as [`check_status`] does.
pub fn sys_exec<F: FnOnce() -> i32, G: FnOnce(i32) -> String>(
    func: F,
    message: &str,
    get_error: G,
) -> (r: Result<(), Error>)
    requires
        func.requires(()),
        forall|code: i32| func.ensures((), code) && code < 0 ==> #[trigger] get_error.requires((code,)),
    ensures
        exists|code: i32|
            {
                &&& #[trigger] func.ensures((), code)
                &&& code >= 0 ==> r is Ok
                &&& code < 0 ==> exists|native: String|
                    {
                        &&& #[trigger] get_error.ensures((code,), native)
                        &&& r matches Err(e)
                        &&& e@ == native_failure_view(message@, code, native@)
                    }
            },
{
    let code = func();
    check_status(code, message, get_error)
}

/// The error that the native client `client` holds at the moment:
/// `client_errno` asks the client for its code, `get_error` asks the native
/// library for the message that belongs to the code.
pub fn get_last_error<C, E: FnOnce(&C) -> i32, G: FnOnce(i32) -> String>(
    client: &C,
    client_errno: E,
    get_error: G,
) -> (r: Error)
    requires
        client_errno.requires((client,)),
        forall|code: i32| client_errno.ensures((client,), code) ==> #[trigger] get_error.requires((code,)),
    ensures
        exists|code: i32, message: String|
            {
                &&& #[trigger] client_errno.ensures((client,), code)
                &&& #[trigger] get_error.ensures((code,), message)
                &&& r@ == (ErrorView::MdnsSystemError { code, message: message@ })
            },
{
    let code = client_errno(client);
    let message = get_error(code);
    Error::MdnsSystemError { code, message }
}

} // verus!
