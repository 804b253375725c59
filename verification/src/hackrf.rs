//! The library handle: the process-wide native session, the device list
//! snapshot taken when the session opened, and the open-set — the registry of
//! native device identifiers currently owned by live device handles, kept so
//! that teardown can close every one of them deterministically, in order,
//! before the session itself is terminated.

use vstd::prelude::*;

use crate::device::Device;
use crate::device::NativeHandle;
use crate::device::State;
use crate::error::Error;
use crate::error::NativeStatus;
use crate::error::spec_from_code;
use crate::error::HACKRF_SUCCESS;

verus! {

/// Read-only snapshot of one enumerated device: its serial identifier and
/// board identifier code. It carries no identity relationship to a handle
/// opened later beyond the matching index.
#[derive(Debug, Clone, PartialEq, Eq)]
pub struct DeviceInfo {
    pub serial: String,
    pub board_id: u32,
}

/// A validated request to open the device at `index`: the index is known to
/// lie inside the enumerated device list, so the native open call can be
/// issued safely.
#[derive(Debug, Clone, Copy, PartialEq, Eq, Structural)]
pub struct OpenRequest {
    pub index: i32,
}

/// One step of the deterministic teardown of the library handle.
#[derive(Debug, Clone, Copy, PartialEq, Eq, Structural)]
pub enum TeardownAction {
    /// Set the per-device exit flag of a still-streaming device.
    SignalExit(u64),
    /// Yield control once, so the native worker thread can observe the flag.
    YieldOnce,
    /// Close the device with this identifier.
    CloseDevice(u64),
    /// Free the enumeration snapshot's backing storage.
    FreeDeviceList,
    /// Terminate the native session.
    ExitSession,
}

/// The cleanup one device needs: a streaming device is signalled and given a
/// yield before its close, an idle one is closed directly.
pub open spec fn spec_device_steps(id: u64, streaming: bool) -> Seq<TeardownAction> {
    if streaming {
        seq![
            TeardownAction::SignalExit(id),
            TeardownAction::YieldOnce,
            TeardownAction::CloseDevice(id),
        ]
    } else {
        seq![TeardownAction::CloseDevice(id)]
    }
}

/// The concatenated cleanup of every registered device, in registration
/// order.
pub open spec fn spec_close_steps(ids: Seq<u64>, streaming: Seq<bool>) -> Seq<TeardownAction>
    recommends
        ids.len() == streaming.len(),
    decreases ids.len(),
{
    if ids.len() == 0 {
        Seq::empty()
    } else {
        spec_close_steps(ids.drop_last(), streaming.drop_last()) + spec_device_steps(
            ids.last(),
            streaming.last(),
        )
    }
}

/// The whole teardown: every device is closed first, then the device list is
/// freed, and only then is the native session terminated — the native API's
/// two resources are ordered, and sequencing them the other way fails.
pub open spec fn spec_teardown_plan(ids: Seq<u64>, streaming: Seq<bool>) -> Seq<TeardownAction> {
    spec_close_steps(ids, streaming) + seq![
        TeardownAction::FreeDeviceList,
        TeardownAction::ExitSession,
    ]
}

/// The library handle. Exactly one should be alive per process; destroying it
/// must close every device it opened and then terminate the native session,
/// in that order, which the unverified shell does by executing
/// `teardown_plan`.
#[derive(Debug, PartialEq, Eq)]
pub struct HackRF {
    /// The enumeration snapshot taken when the native session opened; it is
    /// never re-queried.
    pub devices: Vec<DeviceInfo>,
    /// The open-set: identifiers of devices currently owned by live handles,
    /// in the order they were opened. It never holds a duplicate.
    pub opened: Vec<u64>,
}

impl HackRF {
    /// Well-formedness: no native identifier has two live owners.
    pub open spec fn wf(&self) -> bool {
        self.opened@.no_duplicates()
    }

    /// Interprets the two native calls that create the session: the session
    /// init status, and the device enumeration, which is `None` when the
    /// native layer returned a null listing. A failed init is converted like
    /// any other native failure; a null listing is a failed enumeration,
    /// reported as not-found rather than trusted.
    pub fn new(init_status: NativeStatus, listing: Option<Vec<DeviceInfo>>) -> (r: Result<
        HackRF,
        Error,
    >)
        ensures
            init_status.code != HACKRF_SUCCESS ==> (r matches Err(e) && e == spec_from_code(
                init_status.code,
                init_status.name,
            )),
            init_status.code == HACKRF_SUCCESS && listing is None ==> (r matches Err(e)
                && e matches Error::NotFound(m) && m@
                == "the native device enumeration returned no listing"@),
            init_status.code == HACKRF_SUCCESS ==> (listing matches Some(l) ==> (r matches Ok(h)
                && h.devices == l && h.opened@ == Seq::<u64>::empty() && h.wf())),
    {
        if init_status.code != HACKRF_SUCCESS {
            return Err(Error::from_code(init_status.code, init_status.name));
        }
        match listing {
            None => Err(Error::NotFound(String::from_str(
                "the native device enumeration returned no listing",
            ))),
            Some(devices) => Ok(HackRF { devices, opened: Vec::new() }),
        }
    }

    /// Returns the immutable snapshot produced when the session opened; the
    /// native layer is not re-queried.
    pub fn get_device_list(&self) -> (r: &Vec<DeviceInfo>)
        ensures
            r == &self.devices,
    {
        &self.devices
    }

    /// Whether the open-set already holds this native identifier.
    pub fn is_open(&self, raw: u64) -> (b: bool)
        ensures
            b == self.opened@.contains(raw),
    {
        let mut i: usize = 0;
        while i < self.opened.len()
            invariant
                0 <= i <= self.opened@.len(),
                forall|k: int| 0 <= k < i ==> self.opened@[k] != raw,
            decreases self.opened@.len() - i,
        {
            if self.opened[i] == raw {
                return true;
            }
            i = i + 1;
        }
        false
    }

    /// Validates a device index against the enumeration snapshot, before any
    /// native call is made: any index outside the device list fails as an
    /// invalid parameter, and the open-set is untouched. A valid index
    /// becomes an `OpenRequest` carrying it to the native open call, whose
    /// result `finish_open` then interprets.
    pub fn open_device(&self, index: i32) -> (r: Result<OpenRequest, Error>)
        ensures
            r is Ok <==> 0 <= index < self.devices@.len(),
            r matches Ok(req) ==> req.index == index,
            r matches Err(e) ==> e matches Error::InvalidParam(m) && m@
                == "the device index is outside the enumerated device list"@,
    {
        if index >= 0 && (index as usize) < self.devices.len() {
            Ok(OpenRequest { index })
        } else {
            Err(Error::InvalidParam(String::from_str(
                "the device index is outside the enumerated device list",
            )))
        }
    }

    /// Interprets the result of the native open call made for a validated
    /// request: `handle_raw` is the identifier the call wrote back, null as
    /// zero. A failing status is converted; a null identifier despite a
    /// success status is still treated as failure — the device may have been
    /// unplugged between enumeration and open; an identifier that already has
    /// a live owner is refused, so the open-set never holds a duplicate. Only
    /// a fresh, non-null identifier is registered and wrapped.
    pub fn finish_open(&mut self, request: OpenRequest, status: NativeStatus, handle_raw: u64) -> (r:
        Result<Device, Error>)
        requires
            old(self).wf(),
        ensures
            final(self).wf(),
            final(self).devices == old(self).devices,
            status.code != HACKRF_SUCCESS ==> (r matches Err(e) && e == spec_from_code(
                status.code,
                status.name,
            )) && final(self).opened == old(self).opened,
            status.code == HACKRF_SUCCESS && handle_raw == 0 ==> (r matches Err(e)
                && e matches Error::NotFound(m) && m@
                == "the native open call returned a null device despite success"@)
                && final(self).opened == old(self).opened,
            status.code == HACKRF_SUCCESS && handle_raw != 0 && old(self).opened@.contains(
                handle_raw,
            ) ==> (r matches Err(e) && e matches Error::Busy(m) && m@
                == "this device already has a live owner"@)
                && final(self).opened == old(self).opened,
            status.code == HACKRF_SUCCESS && handle_raw != 0 && !old(self).opened@.contains(
                handle_raw,
            ) ==> (r matches Ok(dev) && dev.handle.raw == handle_raw && dev.state == State::Idle)
                && final(self).opened@ == old(self).opened@.push(handle_raw),
    {
        let _ = request;
        if status.code != HACKRF_SUCCESS {
            return Err(Error::from_code(status.code, status.name));
        }
        if handle_raw == 0 {
            return Err(Error::NotFound(String::from_str(
                "the native open call returned a null device despite success",
            )));
        }
        if self.is_open(handle_raw) {
            return Err(Error::Busy(String::from_str("this device already has a live owner")));
        }
        self.opened.push(handle_raw);
        Ok(Device::new(NativeHandle::new(handle_raw)))
    }

    /// Builds the deterministic teardown plan for the whole library handle,
    /// given, for each registered device in order, whether the native layer
    /// reports it still streaming. The unverified shell executes the plan as
    /// written: devices first — each streaming one signalled and yielded to
    /// before its close — then the list is freed, then the session exits.
    pub fn teardown_plan(&self, streaming: &Vec<bool>) -> (plan: Vec<TeardownAction>)
        requires
            streaming@.len() == self.opened@.len(),
        ensures
            plan@ == spec_teardown_plan(self.opened@, streaming@),
    {
        let ghost ids = self.opened@;
        let mut plan: Vec<TeardownAction> = Vec::new();
        let mut i: usize = 0;
        while i < self.opened.len()
            invariant
                0 <= i <= ids.len(),
                self.opened@ == ids,
                streaming@.len() == ids.len(),
                plan@ == spec_close_steps(ids.take(i as int), streaming@.take(i as int)),
            decreases ids.len() - i,
        {
            let id = self.opened[i];
            if streaming[i] {
                plan.push(TeardownAction::SignalExit(id));
                plan.push(TeardownAction::YieldOnce);
            }
            plan.push(TeardownAction::CloseDevice(id));
            proof {
                let pre_ids = ids.take(i as int);
                let pre_st = streaming@.take(i as int);
                let cur_ids = ids.take(i + 1);
                let cur_st = streaming@.take(i + 1);
                assert(cur_ids.drop_last() == pre_ids);
                assert(cur_st.drop_last() == pre_st);
                assert(cur_ids.last() == ids[i as int]);
                assert(cur_st.last() == streaming@[i as int]);
                assert(plan@ == spec_close_steps(cur_ids, cur_st));
            }
            i = i + 1;
        }
        proof {
            assert(ids.take(ids.len() as int) == ids);
            assert(streaming@.take(ids.len() as int) == streaming@);
        }
        plan.push(TeardownAction::FreeDeviceList);
        plan.push(TeardownAction::ExitSession);
        proof {
            assert(plan@ == spec_teardown_plan(ids, streaming@));
        }
        plan
    }
}

/// Every step of the device-cleanup part of a plan is a device action: an
/// exit signal, a yield, or a close.
proof fn lemma_close_steps_kinds(ids: Seq<u64>, streaming: Seq<bool>)
    requires
        ids.len() == streaming.len(),
    ensures
        forall|j: int|
            0 <= j < spec_close_steps(ids, streaming).len() ==> (spec_close_steps(ids, streaming)[j]
                is SignalExit || spec_close_steps(ids, streaming)[j] is YieldOnce
                || spec_close_steps(ids, streaming)[j] is CloseDevice),
    decreases ids.len(),
{
    if ids.len() > 0 {
        lemma_close_steps_kinds(ids.drop_last(), streaming.drop_last());
    }
}

/// Law: the teardown plan is ordered — first the device actions alone, then
/// the single freeing of the device list, and the native session exit last of
/// all, so every device close happens before the session terminates.
pub proof fn lemma_teardown_plan_ordering(ids: Seq<u64>, streaming: Seq<bool>)
    ensures
        ids.len() == streaming.len() ==> ({
            let plan = spec_teardown_plan(ids, streaming);
            let devices = spec_close_steps(ids, streaming);
            &&& plan.len() == devices.len() + 2
            &&& forall|j: int| 0 <= j < devices.len() ==> plan[j] == devices[j]
            &&& forall|j: int|
                0 <= j < devices.len() ==> (#[trigger] plan[j] is SignalExit || plan[j] is YieldOnce
                    || plan[j] is CloseDevice)
            &&& plan[devices.len() as int] == TeardownAction::FreeDeviceList
            &&& plan[devices.len() as int + 1] == TeardownAction::ExitSession
        }),
{
    if ids.len() == streaming.len() {
        lemma_close_steps_kinds(ids, streaming);
    }
}

/// Law: a device the native layer still reports streaming is never closed
/// cold — its exit signal and the yield that lets the worker thread observe
/// it stand immediately before its close in the plan.
pub proof fn lemma_streaming_device_signalled_before_close(
    ids: Seq<u64>,
    streaming: Seq<bool>,
    i: int,
)
    requires
        ids.len() == streaming.len(),
        0 <= i < ids.len(),
        streaming[i],
    ensures
        ({
            let plan = spec_teardown_plan(ids, streaming);
            exists|j: int|
                {
                    &&& 0 <= j
                    &&& j + 2 < plan.len()
                    &&& #[trigger] plan[j] == TeardownAction::SignalExit(ids[i])
                    &&& plan[j + 1] == TeardownAction::YieldOnce
                    &&& plan[j + 2] == TeardownAction::CloseDevice(ids[i])
                }
        }),
    decreases ids.len(),
{
    let plan = spec_teardown_plan(ids, streaming);
    let devices = spec_close_steps(ids, streaming);
    let pre = spec_close_steps(ids.drop_last(), streaming.drop_last());
    if i == ids.len() - 1 {
        let j = pre.len() as int;
        assert(devices[j] == TeardownAction::SignalExit(ids[i]));
        assert(devices[j + 1] == TeardownAction::YieldOnce);
        assert(devices[j + 2] == TeardownAction::CloseDevice(ids[i]));
        assert(plan[j] == TeardownAction::SignalExit(ids[i]));
        assert(plan[j + 1] == TeardownAction::YieldOnce);
        assert(plan[j + 2] == TeardownAction::CloseDevice(ids[i]));
    } else {
        lemma_streaming_device_signalled_before_close(ids.drop_last(), streaming.drop_last(), i);
        let sub = spec_teardown_plan(ids.drop_last(), streaming.drop_last());
        let j = choose|j: int|
            {
                &&& 0 <= j
                &&& j + 2 < sub.len()
                &&& #[trigger] sub[j] == TeardownAction::SignalExit(ids.drop_last()[i])
                &&& sub[j + 1] == TeardownAction::YieldOnce
                &&& sub[j + 2] == TeardownAction::CloseDevice(ids.drop_last()[i])
            };
        assert(ids.drop_last()[i] == ids[i]);
        assert(j + 2 < sub.len());
        assert(sub.len() == pre.len() + 2);
        if j + 2 < pre.len() {
            assert(sub[j] == pre[j]);
            assert(sub[j + 1] == pre[j + 1]);
            assert(sub[j + 2] == pre[j + 2]);
            assert(plan[j] == devices[j] && devices[j] == pre[j]);
            assert(plan[j + 1] == devices[j + 1] && devices[j + 1] == pre[j + 1]);
            assert(plan[j + 2] == devices[j + 2] && devices[j + 2] == pre[j + 2]);
        } else {
            lemma_close_steps_kinds(ids.drop_last(), streaming.drop_last());
            assert(sub[pre.len() as int] == TeardownAction::FreeDeviceList);
            assert(sub[pre.len() as int + 1] == TeardownAction::ExitSession);
            assert(false);
        }
    }
}

} // verus!
