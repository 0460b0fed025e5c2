//! Discovery selection logic: which of the adapter's devices carry the
//! FIDO profile, and which GATT item under a device or service carries a
//! wanted UUID. The adapter I/O that produces the candidate lists is the
//! host application's part.

use vstd::prelude::*;

use crate::errors::TransportError;

verus! {

/// The first item whose UUID equals the wanted one, by its identifier.
pub open spec fn spec_find_first_by_uuid(items: Seq<(String, String)>, uuid: Seq<char>) -> Option<
    String,
>
    decreases items.len(),
{
    if items.len() == 0 {
        None
    } else if items[0].1@ == uuid {
        Some(items[0].0)
    } else {
        spec_find_first_by_uuid(items.skip(1), uuid)
    }
}

/// Select the first GATT item (a service under a device, a characteristic
/// under a service) whose UUID is the wanted one. Items are given as
/// `(identifier, uuid)` pairs in adapter order; a miss is an invalid
/// endpoint.
pub fn find_first_by_uuid(items: &Vec<(String, String)>, uuid: &String) -> (r: Result<
    String,
    TransportError,
>)
    ensures
        r matches Ok(id) ==> spec_find_first_by_uuid(items@, uuid@) == Some(id),
        r is Err <==> spec_find_first_by_uuid(items@, uuid@) is None,
        r is Err ==> r == Err::<String, TransportError>(TransportError::InvalidEndpoint),
{
    assert(items@.skip(0) =~= items@);
    let mut i: usize = 0;
    while i < items.len()
        invariant
            i <= items@.len(),
            spec_find_first_by_uuid(items@.skip(i as int), uuid@) == spec_find_first_by_uuid(
                items@,
                uuid@,
            ),
        decreases items@.len() - i,
    {
        proof {
            assert(items@.skip(i as int)[0] == items@[i as int]);
            assert(items@.skip(i as int).skip(1) =~= items@.skip(i as int + 1));
        }
        if items[i].1 == *uuid {
            return Ok(items[i].0.clone());
        }
        i = i + 1;
    }
    assert(items@.skip(i as int) =~= Seq::<(String, String)>::empty());
    Err(TransportError::InvalidEndpoint)
}

/// The UUID list holds the wanted one.
pub open spec fn spec_has_uuid(uuids: Seq<String>, uuid: Seq<char>) -> bool {
    exists|k: int| 0 <= k < uuids.len() && uuids[k]@ == uuid
}

/// Whether a device's UUID list advertises the wanted profile.
pub fn has_uuid(uuids: &Vec<String>, uuid: &String) -> (r: bool)
    ensures
        r == spec_has_uuid(uuids@, uuid@),
{
    let mut i: usize = 0;
    while i < uuids.len()
        invariant
            i <= uuids@.len(),
            forall|k: int| 0 <= k < i ==> (#[trigger] uuids@[k])@ != uuid@,
        decreases uuids@.len() - i,
    {
        if uuids[i] == *uuid {
            return true;
        }
        i = i + 1;
    }
    false
}

/// Of the adapter's devices, given as `(identifier, advertised uuids)`
/// pairs, those advertising the wanted profile, in adapter order.
pub open spec fn spec_devices_with_uuid(
    devices: Seq<(String, Vec<String>)>,
    uuid: Seq<char>,
) -> Seq<String>
    decreases devices.len(),
{
    if devices.len() == 0 {
        Seq::empty()
    } else if spec_has_uuid(devices[0].1@, uuid) {
        seq![devices[0].0] + spec_devices_with_uuid(devices.skip(1), uuid)
    } else {
        spec_devices_with_uuid(devices.skip(1), uuid)
    }
}

/// Select the devices advertising the wanted profile, in adapter order.
pub fn devices_with_uuid(devices: &Vec<(String, Vec<String>)>, uuid: &String) -> (r: Vec<String>)
    ensures
        r@ == spec_devices_with_uuid(devices@, uuid@),
{
    let mut selected: Vec<String> = Vec::new();
    assert(devices@.skip(0) =~= devices@);
    let mut i: usize = 0;
    while i < devices.len()
        invariant
            i <= devices@.len(),
            spec_devices_with_uuid(devices@, uuid@) == selected@ + spec_devices_with_uuid(
                devices@.skip(i as int),
                uuid@,
            ),
        decreases devices@.len() - i,
    {
        proof {
            assert(devices@.skip(i as int)[0] == devices@[i as int]);
            assert(devices@.skip(i as int).skip(1) =~= devices@.skip(i as int + 1));
        }
        let ghost old_selected = selected@;
        if has_uuid(&devices[i].1, uuid) {
            selected.push(devices[i].0.clone());
            proof {
                assert(selected@ =~= old_selected + seq![devices@[i as int].0]);
                assert(selected@ + spec_devices_with_uuid(devices@.skip(i as int + 1), uuid@)
                    =~= old_selected + (seq![devices@[i as int].0] + spec_devices_with_uuid(
                    devices@.skip(i as int + 1),
                    uuid@,
                )));
            }
        }
        i = i + 1;
    }
    proof {
        assert(devices@.skip(i as int) =~= Seq::<(String, Vec<String>)>::empty());
        assert(selected@ + Seq::<String>::empty() =~= selected@);
    }
    selected
}

} // verus!
