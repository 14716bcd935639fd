//! The type of a service: its name, its protocol and its sub-types.

use crate::error::{Error, ErrorView};
use vstd::prelude::*;

verus! {

/// Whether `part` can stand in a service type: it is not empty and holds
/// neither a dot nor a comma.
pub open spec fn valid_part(part: Seq<char>) -> bool {
    &&& part.len() > 0
    &&& !part.contains('.')
    &&& !part.contains(',')
}

/// The error for a part that cannot stand in a service type. A dot is
/// reported before a comma, and both before an empty part.
pub open spec fn invalid_part_error(part: Seq<char>) -> ErrorView {
    ErrorView::SystemError {
        message: if part.contains('.') {
            "invalid character: ."@
        } else if part.contains(',') {
            "invalid character: ,"@
        } else {
            "cannot be empty"@
        },
    }
}

/// Whether `c` occurs in `text`.
pub fn contains_char(text: &str, c: char) -> (r: bool)
    ensures
        r == text@.contains(c),
{
    let n = text.unicode_len();
    let mut i: usize = 0;
    while i < n
        invariant
            n == text@.len(),
            i <= n,
            forall|j: int| 0 <= j < i ==> text@[j] != c,
        decreases n - i,
    {
        if text.get_char(i) == c {
            return true;
        }
        i += 1;
    }
    false
}

/// Checks that `part` can stand in a service type.
pub fn check_valid_characters(part: &str) -> (r: Result<(), Error>)
    ensures
        valid_part(part@) ==> r is Ok,
        !valid_part(part@) ==> (r matches Err(e) && e@ == invalid_part_error(part@)),
{
    if contains_char(part, '.') {
        Err(Error::SystemError { message: String::from_str("invalid character: .") })
    } else if contains_char(part, ',') {
        Err(Error::SystemError { message: String::from_str("invalid character: ,") })
    } else if part.is_empty() {
        Err(Error::SystemError { message: String::from_str("cannot be empty") })
    } else {
        Ok(())
    }
}

/// The type of a service, such as `http` over `tcp`, with the sub-types
/// under which it is also known.
#[derive(Debug, PartialEq, Eq)]
pub struct ServiceType {
    name: String,
    protocol: String,
    sub_types: Vec<String>,
}

/// The texts of `items`, in their order.
pub open spec fn texts_of(items: Seq<String>) -> Seq<Seq<char>> {
    items.map_values(|s: String| s@)
}

/// The texts of `items`, in their order.
pub open spec fn slices_of(items: Seq<&str>) -> Seq<Seq<char>> {
    items.map_values(|s: &str| s@)
}

/// The parts of a service type in the order in which they are checked: the
/// name, the protocol, then the sub-types.
pub open spec fn parts_in_order(
    name: Seq<char>,
    protocol: Seq<char>,
    sub_types: Seq<Seq<char>>,
) -> Seq<Seq<char>> {
    seq![name, protocol] + sub_types
}

/// Whether each of `parts` can stand in a service type.
pub open spec fn all_valid(parts: Seq<Seq<char>>) -> bool {
    forall|i: int| 0 <= i < parts.len() ==> valid_part(#[trigger] parts[i])
}

/// Whether `parts[k]` is the first part that cannot stand in a service type.
pub open spec fn first_invalid_at(parts: Seq<Seq<char>>, k: int) -> bool {
    &&& 0 <= k < parts.len()
    &&& !valid_part(parts[k])
    &&& forall|j: int| 0 <= j < k ==> valid_part(#[trigger] parts[j])
}

impl ServiceType {
    /// The name of the service, without underscore.
    pub closed spec fn spec_name(&self) -> Seq<char> {
        self.name@
    }

    /// The protocol of the service, without underscore.
    pub closed spec fn spec_protocol(&self) -> Seq<char> {
        self.protocol@
    }

    /// The sub-types of the service, in the order given.
    pub closed spec fn spec_sub_types(&self) -> Seq<Seq<char>> {
        texts_of(self.sub_types@)
    }

    #[verifier::type_invariant]
    spec fn parts_are_valid(&self) -> bool {
        &&& valid_part(self.name@)
        &&& valid_part(self.protocol@)
        &&& forall|i: int| 0 <= i < self.sub_types@.len() ==> valid_part(#[trigger] self.sub_types@[i]@)
    }

    /// A service type without sub-types. The name is checked first.
    pub fn new(name: &str, protocol: &str) -> (r: Result<Self, Error>)
        ensures
            valid_part(name@) && valid_part(protocol@) ==> (r matches Ok(t) && t.spec_name()
                == name@ && t.spec_protocol() == protocol@ && t.spec_sub_types()
                == Seq::<Seq<char>>::empty()),
            !valid_part(name@) ==> (r matches Err(e) && e@ == invalid_part_error(name@)),
            valid_part(name@) && !valid_part(protocol@) ==> (r matches Err(e) && e@
                == invalid_part_error(protocol@)),
    {
        match check_valid_characters(name) {
            Err(e) => {
                return Err(e);
            },
            Ok(()) => {},
        }
        match check_valid_characters(protocol) {
            Err(e) => {
                return Err(e);
            },
            Ok(()) => {},
        }
        Ok(
            ServiceType {
                name: String::from_str(name),
                protocol: String::from_str(protocol),
                sub_types: Vec::new(),
            },
        )
    }

    /// A service type with sub-types. The parts are checked in the order
    /// name, protocol, sub-types; the first that fails gives the error.
    pub fn with_sub_types(name: &str, protocol: &str, sub_types: Vec<&str>) -> (r: Result<
        Self,
        Error,
    >)
        ensures
            all_valid(parts_in_order(name@, protocol@, slices_of(sub_types@))) ==> (r matches Ok(t)
                && t.spec_name() == name@ && t.spec_protocol() == protocol@ && t.spec_sub_types()
                == slices_of(sub_types@)),
            forall|k: int|
                first_invalid_at(parts_in_order(name@, protocol@, slices_of(sub_types@)), k) ==> (
                r matches Err(e) && e@ == invalid_part_error(
                    #[trigger] parts_in_order(name@, protocol@, slices_of(sub_types@))[k],
                )),
    {
        let ghost parts = parts_in_order(name@, protocol@, slices_of(sub_types@));
        match check_valid_characters(name) {
            Err(e) => {
                assert(parts[0] == name@);
                assert(first_invalid_at(parts, 0));
                assert forall|k: int| first_invalid_at(parts, k) implies k == 0 by {}
                return Err(e);
            },
            Ok(()) => {},
        }
        match check_valid_characters(protocol) {
            Err(e) => {
                assert(parts[0] == name@ && parts[1] == protocol@);
                assert forall|k: int| first_invalid_at(parts, k) implies k == 1 by {}
                return Err(e);
            },
            Ok(()) => {},
        }
        let mut owned: Vec<String> = Vec::new();
        let mut i: usize = 0;
        while i < sub_types.len()
            invariant
                i <= sub_types@.len(),
                parts == parts_in_order(name@, protocol@, slices_of(sub_types@)),
                valid_part(name@),
                valid_part(protocol@),
                owned@.len() == i,
                forall|j: int| 0 <= j < i ==> (#[trigger] owned@[j])@ == sub_types@[j]@,
                forall|j: int| 0 <= j < i ==> valid_part(#[trigger] sub_types@[j]@),
            decreases sub_types@.len() - i,
        {
            let sub_type = sub_types[i];
            match check_valid_characters(sub_type) {
                Err(e) => {
                    assert(parts[i + 2] == sub_types@[i as int]@);
                    assert forall|k: int| first_invalid_at(parts, k) implies k == i + 2 by {
                        if k > i + 2 {
                            assert(valid_part(parts[i + 2]));
                        }
                        if 2 <= k < i + 2 {
                            assert(parts[k] == sub_types@[k - 2]@);
                        }
                        if k < 2 {
                            assert(parts[0] == name@ && parts[1] == protocol@);
                        }
                    }
                    return Err(e);
                },
                Ok(()) => {},
            }
            owned.push(String::from_str(sub_type));
            i += 1;
        }
        assert(texts_of(owned@) =~= slices_of(sub_types@));
        assert forall|k: int| !first_invalid_at(parts, k) by {
            if 2 <= k < parts.len() {
                assert(parts[k] == sub_types@[k - 2]@);
            }
            if 0 <= k < 2 {
                assert(parts[0] == name@ && parts[1] == protocol@);
            }
        }
        Ok(
            ServiceType {
                name: String::from_str(name),
                protocol: String::from_str(protocol),
                sub_types: owned,
            },
        )
    }

    /// The name of the service, without underscore.
    pub fn name(&self) -> (r: &str)
        ensures
            r@ == self.spec_name(),
            valid_part(r@),
    {
        proof {
            use_type_invariant(self);
        }
        self.name.as_str()
    }

    /// The protocol of the service, without underscore.
    pub fn protocol(&self) -> (r: &str)
        ensures
            r@ == self.spec_protocol(),
            valid_part(r@),
    {
        proof {
            use_type_invariant(self);
        }
        self.protocol.as_str()
    }

    /// The sub-types of the service, in the order given.
    pub fn sub_types(&self) -> (r: &Vec<String>)
        ensures
            texts_of(r@) == self.spec_sub_types(),
            forall|i: int| 0 <= i < r@.len() ==> valid_part(#[trigger] r@[i]@),
    {
        proof {
            use_type_invariant(self);
        }
        &self.sub_types
    }
}

impl Clone for ServiceType {
    fn clone(&self) -> (r: Self)
        ensures
            r.spec_name() == self.spec_name(),
            r.spec_protocol() == self.spec_protocol(),
            r.spec_sub_types() == self.spec_sub_types(),
    {
        proof {
            use_type_invariant(self);
        }
        let mut sub_types: Vec<String> = Vec::new();
        let mut i: usize = 0;
        while i < self.sub_types.len()
            invariant
                i <= self.sub_types@.len(),
                sub_types@.len() == i,
                forall|j: int| 0 <= j < i ==> #[trigger] sub_types@[j] == self.sub_types@[j],
            decreases self.sub_types@.len() - i,
        {
            sub_types.push(self.sub_types[i].clone());
            i += 1;
        }
        assert(sub_types@ =~= self.sub_types@);
        ServiceType { name: self.name.clone(), protocol: self.protocol.clone(), sub_types }
    }
}

} // verus!
