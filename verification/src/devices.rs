//! Device handles and resolution decisions.
//!
//! A device is identified by a string `"<host>:<index>"`. Everything that
//! can be decided from plain values is decided here: parsing the id,
//! matching a host name case-insensitively against the enumerable hosts,
//! choosing the first real (non-virtual, non-null) input device, and
//! forming id strings during enumeration. Live device objects are the
//! hardware layer's business.

use vstd::prelude::*;

verus! {

use crate::types::AudioError;
use crate::text::all_digits;
use crate::text::chars_of;
use crate::text::contains_seq;
use crate::text::contains_sub;
use crate::text::decimal_value;
use crate::text::lower_vec;
use crate::text::lowered;
use crate::text::parse_index;
use crate::text::vecs_equal;
use crate::text::decimal_digits;
use crate::text::digit_chars;
use crate::text::string_from_chars;

/// A device name that stands for real hardware: its lowercased name
/// mentions neither a null sink nor a virtual endpoint.
pub open spec fn is_real_input_name(name: Seq<char>) -> bool {
    !contains_seq(lowered(name), "null"@) && !contains_seq(lowered(name), "virtual"@)
}

/// Position of the first colon, if any.
fn find_colon(v: &Vec<char>) -> (r: Option<usize>)
    ensures
        r is Some ==> 0 <= r->0 < v@.len() && v@[r->0 as int] == ':' && forall|j: int|
            0 <= j < r->0 ==> v@[j] != ':',
        r is None ==> forall|j: int| 0 <= j < v@.len() ==> v@[j] != ':',
{
    let mut i: usize = 0;
    while i < v.len()
        invariant
            i <= v@.len(),
            forall|j: int| 0 <= j < i ==> v@[j] != ':',
        decreases v@.len() - i,
    {
        if v[i] == ':' {
            return Some(i);
        }
        i = i + 1;
    }
    None
}

/// How a device id string resolves: to the default device, or to a
/// numbered device of a (possibly unnamed) host.
#[derive(Debug)]
pub struct DeviceSelector {
    /// The host name given before the colon; empty when the id was bare.
    pub host: Vec<char>,
    /// The device index within that host's device list.
    pub index: usize,
}

/// The id segment before the first colon.
pub open spec fn host_segment(id: Seq<char>, p: int) -> Seq<char> {
    id.take(p)
}

/// The id segment between the first colon and the following colon or the
/// end: the index field of `"<host>:<index>"`.
pub open spec fn index_segment(id: Seq<char>, p: int) -> Seq<char> {
    let rest = id.skip(p + 1);
    if exists|q: int| 0 <= q < rest.len() && rest[q] == ':' {
        rest.take(choose|q: int| 0 <= q < rest.len() && rest[q] == ':' && forall|t: int| 0 <= t < q ==> rest[t] != ':')
    } else {
        rest
    }
}

/// A device id the parser accepts: either it has no colon at all, or
/// the index field after its first colon is a nonempty digit string
/// whose value fits the machine's index type.
pub open spec fn valid_device_id(id: Seq<char>) -> bool {
    forall|p: int|
        (0 <= p < id.len() && (#[trigger] id[p]) == ':' && (forall|j: int|
            0 <= j < p ==> id[j] != ':')) ==> {
            &&& index_segment(id, p).len() > 0
            &&& all_digits(index_segment(id, p))
            &&& decimal_value(index_segment(id, p)) <= usize::MAX
        }
}

/// Parses a device id of the form `"<host>:<index>"`.
///
/// With a colon, the segment before it names the host and the segment
/// after it (up to any further colon) must be a valid index, else the id
/// is rejected with `InvalidDeviceId` — parsing succeeds exactly on
/// `valid_device_id` ids. Without a colon the whole id is read as a bare
/// index, falling back to 0 when it does not parse; the host is left
/// empty.
pub fn parse_device_id(id: &str) -> (r: Result<DeviceSelector, AudioError>)
    ensures
        r is Ok <==> valid_device_id(id@),
        r is Err ==> r == Err::<DeviceSelector, AudioError>(AudioError::InvalidDeviceId),
        r is Ok ==> {
            let sel = r->Ok_0;
            if exists|j: int| 0 <= j < id@.len() && id@[j] == ':' {
                exists|p: int|
                    {
                        &&& 0 <= p < id@.len()
                        &&& id@[p] == ':'
                        &&& (forall|j: int| 0 <= j < p ==> id@[j] != ':')
                        &&& sel.host@ == host_segment(id@, p)
                        &&& all_digits(index_segment(id@, p))
                        &&& index_segment(id@, p).len() > 0
                        &&& sel.index == decimal_value(index_segment(id@, p))
                    }
            } else {
                sel.host@ == Seq::<char>::empty() && (if all_digits(id@) && id@.len() > 0
                    && decimal_value(id@) <= usize::MAX {
                    sel.index == decimal_value(id@)
                } else {
                    sel.index == 0
                })
            }
        },
{
    let v = chars_of(id);
    let n = v.len();
    match find_colon(&v) {
        Some(p) => {
            let mut host: Vec<char> = Vec::new();
            let mut i: usize = 0;
            while i < p
                invariant
                    n == v@.len(),
                    i <= p,
                    p < v@.len(),
                    host@ == v@.take(i as int),
                decreases p - i,
            {
                host.push(v[i]);
                proof {
                    assert(host@ =~= v@.take(i + 1));
                }
                i = i + 1;
            }
            let mut field: Vec<char> = Vec::new();
            let mut k: usize = p + 1;
            while k < n && v[k] != ':'
                invariant
                    n == v@.len(),
                    p + 1 <= k <= v@.len(),
                    field@ == v@.skip(p + 1).take(k - (p + 1)),
                    forall|t: int| p + 1 <= t < k ==> v@[t] != ':',
                    p < v@.len(),
                decreases v@.len() - k,
            {
                field.push(v[k]);
                proof {
                    assert(field@ =~= v@.skip(p + 1).take(k + 1 - (p + 1)));
                }
                k = k + 1;
            }
            proof {
                let rest = v@.skip(p + 1);
                if k < v@.len() {
                    assert(rest[k - (p + 1)] == ':');
                    assert(field@ =~= index_segment(id@, p as int)) by {
                        let q = choose|q: int|
                            0 <= q < rest.len() && rest[q] == ':' && forall|t: int|
                                0 <= t < q ==> rest[t] != ':';
                        assert(rest[k - (p + 1)] == ':' && forall|t: int|
                            0 <= t < k - (p + 1) ==> rest[t] != ':');
                        assert(q == k - (p + 1));
                    }
                } else {
                    assert(forall|q: int| 0 <= q < rest.len() ==> rest[q] != ':');
                    assert(field@ =~= rest);
                }
            }
            match parse_index(&field) {
                Some(idx) => {
                    proof {
                        assert forall|p2: int|
                            (0 <= p2 < id@.len() && (#[trigger] id@[p2]) == ':' && (forall|j: int|
                                0 <= j < p2 ==> id@[j] != ':')) implies {
                            &&& index_segment(id@, p2).len() > 0
                            &&& all_digits(index_segment(id@, p2))
                            &&& decimal_value(index_segment(id@, p2)) <= usize::MAX
                        } by {
                            if p2 < p {
                                assert(id@[p2] != ':');
                            }
                            if p < p2 {
                                assert(id@[p as int] != ':');
                            }
                            assert(p2 == p);
                        }
                        assert(valid_device_id(id@));
                    }
                    Ok(DeviceSelector { host, index: idx })
                },
                None => {
                    proof {
                        assert(!valid_device_id(id@)) by {
                            if valid_device_id(id@) {
                                assert(id@[p as int] == ':');
                                assert(index_segment(id@, p as int).len() > 0 && all_digits(
                                    index_segment(id@, p as int),
                                ) && decimal_value(index_segment(id@, p as int)) <= usize::MAX);
                            }
                        }
                    }
                    Err(AudioError::InvalidDeviceId)
                },
            }
        },
        None => {
            let idx = match parse_index(&v) {
                Some(idx) => idx,
                None => 0,
            };
            proof {
                assert forall|p2: int|
                    (0 <= p2 < id@.len() && (#[trigger] id@[p2]) == ':' && (forall|j: int|
                        0 <= j < p2 ==> id@[j] != ':')) implies {
                    &&& index_segment(id@, p2).len() > 0
                    &&& all_digits(index_segment(id@, p2))
                    &&& decimal_value(index_segment(id@, p2)) <= usize::MAX
                } by {
                    assert(v@[p2] != ':');
                }
                assert(valid_device_id(id@));
            }
            Ok(DeviceSelector { host: Vec::new(), index: idx })
        },
    }
}

/// Finds the first host whose name matches `name` case-insensitively.
pub fn find_host_index(hosts: &Vec<String>, name: &Vec<char>) -> (r: Option<usize>)
    ensures
        r is Some ==> 0 <= r->0 < hosts@.len() && lowered(hosts@[r->0 as int]@) == lowered(name@)
            && forall|j: int| 0 <= j < r->0 ==> lowered(hosts@[j]@) != lowered(name@),
        r is None ==> forall|j: int| 0 <= j < hosts@.len() ==> lowered(hosts@[j]@) != lowered(
            name@,
        ),
{
    let target = lower_vec(name);
    let mut i: usize = 0;
    while i < hosts.len()
        invariant
            i <= hosts@.len(),
            target@ == lowered(name@),
            forall|j: int| 0 <= j < i ==> lowered(hosts@[j]@) != lowered(name@),
        decreases hosts@.len() - i,
    {
        let hv = chars_of(hosts[i].as_str());
        let hl = lower_vec(&hv);
        if vecs_equal(&hl, &target) {
            return Some(i);
        }
        i = i + 1;
    }
    None
}

/// Chooses the input device to use when the caller named none: the first
/// device whose name stands for real hardware, per `is_real_input_name`.
pub fn select_first_real_input(names: &Vec<String>) -> (r: Option<usize>)
    ensures
        r is Some ==> 0 <= r->0 < names@.len() && is_real_input_name(names@[r->0 as int]@)
            && forall|j: int| 0 <= j < r->0 ==> !is_real_input_name(names@[j]@),
        r is None ==> forall|j: int| 0 <= j < names@.len() ==> !is_real_input_name(names@[j]@),
{
    let null_word = chars_of("null");
    let virtual_word = chars_of("virtual");
    let mut i: usize = 0;
    while i < names.len()
        invariant
            i <= names@.len(),
            null_word@ == "null"@,
            virtual_word@ == "virtual"@,
            forall|j: int| 0 <= j < i ==> !is_real_input_name(names@[j]@),
        decreases names@.len() - i,
    {
        let nv = chars_of(names[i].as_str());
        let nl = lower_vec(&nv);
        if !contains_sub(&nl, &null_word) && !contains_sub(&nl, &virtual_word) {
            return Some(i);
        }
        i = i + 1;
    }
    None
}

/// Forms the id string `"<host>:<index>"` used during enumeration.
pub fn format_device_id(host: &str, index: usize) -> (r: String)
    ensures
        r@ == host@ + seq![':'] + decimal_digits(index as int),
{
    let mut v = chars_of(host);
    let ghost host_chars = v@;
    v.push(':');
    let digits = digit_chars(index);
    let mut i: usize = 0;
    while i < digits.len()
        invariant
            i <= digits@.len(),
            v@ == host_chars + seq![':'] + digits@.take(i as int),
        decreases digits@.len() - i,
    {
        v.push(digits[i]);
        proof {
            assert(v@ =~= host_chars + seq![':'] + digits@.take(i + 1));
        }
        i = i + 1;
    }
    proof {
        assert(v@ =~= host_chars + seq![':'] + digits@);
    }
    string_from_chars(&v)
}

/// What `host_display_name` returns for a backend id.
pub open spec fn spec_host_display(id: Seq<char>) -> Seq<char> {
    if lowered(id) == "alsa"@ {
        "ALSA (Linux Standard)"@
    } else if lowered(id) == "jack"@ {
        "JACK (Professional Audio)"@
    } else if lowered(id) == "asio"@ {
        "ASIO (Windows Pro Audio)"@
    } else if lowered(id) == "wasapi"@ {
        "WASAPI (Windows Standard)"@
    } else if lowered(id) == "coreaudio"@ {
        "CoreAudio (macOS Standard)"@
    } else {
        id
    }
}

/// The display name shown for a host backend id: a friendly name for the
/// well-known backends, the id itself for anything else.
pub fn host_display_name(id: &str) -> (r: String)
    ensures
        r@ == spec_host_display(id@),
{
    let v = chars_of(id);
    let l = lower_vec(&v);
    if vecs_equal(&l, &chars_of("alsa")) {
        String::from_str("ALSA (Linux Standard)")
    } else if vecs_equal(&l, &chars_of("jack")) {
        String::from_str("JACK (Professional Audio)")
    } else if vecs_equal(&l, &chars_of("asio")) {
        String::from_str("ASIO (Windows Pro Audio)")
    } else if vecs_equal(&l, &chars_of("wasapi")) {
        String::from_str("WASAPI (Windows Standard)")
    } else if vecs_equal(&l, &chars_of("coreaudio")) {
        String::from_str("CoreAudio (macOS Standard)")
    } else {
        string_from_chars(&v)
    }
}

} // verus!
