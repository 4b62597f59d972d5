use vstd::prelude::*;
use crate::memory_map::{MemoryMapHolder, MemoryMapView};
use crate::status::EFI_SUCCESS;

verus! {

/// Handle by which the firmware knows a loaded image.
pub type EfiHandle = u64;

/// What the firmware answered to the last request of the exit sequence.
#[derive(Clone, Copy, Debug, PartialEq, Eq, Structural)]
pub enum ExitEvent {
    /// Nothing has been asked yet.
    Start,
    /// The memory map service answered with this status.
    MemoryMapFetched { status: u64 },
    /// The exit service answered with this status.
    ExitAttempted { status: u64 },
}

/// What to ask the firmware next in the exit sequence.
#[derive(Clone, Copy, Debug, PartialEq, Eq, Structural)]
pub enum ExitAction {
    /// Fetch the current memory map into the holder.
    FetchMemoryMap,
    /// Leave the boot services, naming the image and the key of the map just fetched.
    ExitBootServices { image_handle: EfiHandle, map_key: usize },
    /// Boot services have been left; the sequence is over.
    Done,
}

/// The next request of the exit sequence: begin by fetching the memory map;
/// after a fetch, leave the boot services with the key of the map just
/// fetched; after an exit that failed, fetch the map again; after one that
/// succeeded, stop.
pub open spec fn spec_exit_step(
    image_handle: EfiHandle,
    event: ExitEvent,
    memory_map: MemoryMapView,
) -> ExitAction {
    match event {
        ExitEvent::Start => ExitAction::FetchMemoryMap,
        ExitEvent::MemoryMapFetched { .. } => ExitAction::ExitBootServices {
            image_handle,
            map_key: memory_map.map_key,
        },
        ExitEvent::ExitAttempted { status } => if status == EFI_SUCCESS {
            ExitAction::Done
        } else {
            ExitAction::FetchMemoryMap
        },
    }
}

/// Decides the next request of the sequence that leaves the firmware's boot
/// services, from the firmware's answer to the last one. A fetch of the
/// memory map must have succeeded.
pub fn exit_from_efi_boot_services(
    image_handle: EfiHandle,
    event: ExitEvent,
    memory_map: &MemoryMapHolder,
) -> (action: ExitAction)
    requires
        event matches ExitEvent::MemoryMapFetched { status } ==> status == EFI_SUCCESS,
    ensures
        action == spec_exit_step(image_handle, event, memory_map@),
{
    match event {
        ExitEvent::Start => ExitAction::FetchMemoryMap,
        ExitEvent::MemoryMapFetched { .. } => ExitAction::ExitBootServices {
            image_handle,
            map_key: memory_map.map_key(),
        },
        ExitEvent::ExitAttempted { status } => {
            if status == EFI_SUCCESS {
                ExitAction::Done
            } else {
                ExitAction::FetchMemoryMap
            }
        },
    }
}

/// The exit service is only ever asked right after a memory map was fetched,
/// and always with that map's key; the sequence ends only after the exit
/// service reported success.
pub proof fn lemma_exit_uses_fresh_key(
    image_handle: EfiHandle,
    event: ExitEvent,
    memory_map: MemoryMapView,
)
    ensures
        spec_exit_step(image_handle, event, memory_map) matches ExitAction::ExitBootServices {
            image_handle: h,
            map_key,
        } ==> event is MemoryMapFetched && h == image_handle && map_key == memory_map.map_key,
        spec_exit_step(image_handle, event, memory_map) is Done <==> event
            == (ExitEvent::ExitAttempted { status: EFI_SUCCESS }),
{
}

/// What each answer of the firmware leads to: the sequence opens with a
/// memory map fetch; every successful fetch, whatever the map holds, is
/// followed by an exit request naming the image and that map's key; a failed
/// exit, whatever its status, leads to a new fetch; a successful exit ends
/// the sequence.
pub proof fn lemma_exit_step_answers(
    image_handle: EfiHandle,
    status: u64,
    memory_map: MemoryMapView,
)
    ensures
        spec_exit_step(image_handle, ExitEvent::Start, memory_map) == ExitAction::FetchMemoryMap,
        status == 0 ==> spec_exit_step(
            image_handle,
            ExitEvent::MemoryMapFetched { status },
            memory_map,
        ) == (ExitAction::ExitBootServices { image_handle, map_key: memory_map.map_key }),
        status != 0 ==> spec_exit_step(image_handle, ExitEvent::ExitAttempted { status }, memory_map)
            == ExitAction::FetchMemoryMap,
        status == 0 ==> spec_exit_step(image_handle, ExitEvent::ExitAttempted { status }, memory_map)
            == ExitAction::Done,
{
}

/// Whether `event` is an answer to `action`.
pub open spec fn spec_answers(action: ExitAction, event: ExitEvent) -> bool {
    match action {
        ExitAction::FetchMemoryMap => event is MemoryMapFetched,
        ExitAction::ExitBootServices { .. } => event is ExitAttempted,
        ExitAction::Done => false,
    }
}

/// A run of the exit sequence: it starts from nothing, each answer follows
/// the request decided from the answer before it, and `maps[i]` is the
/// holder as it stood when `events[i]` came in.
pub open spec fn spec_exit_run(
    image_handle: EfiHandle,
    events: Seq<ExitEvent>,
    maps: Seq<MemoryMapView>,
) -> bool {
    &&& events.len() == maps.len()
    &&& events.len() > 0 ==> events[0] == ExitEvent::Start
    &&& forall|i: int|
        0 <= i < events.len() - 1 ==> spec_answers(
            #[trigger] spec_exit_step(image_handle, events[i], maps[i]),
            events[i + 1],
        )
}

/// In any run, the request after an exit attempt is never another exit
/// attempt: after a failed exit, a fresh memory map is fetched before the
/// exit service is asked again.
pub proof fn lemma_exit_run_refetches(
    image_handle: EfiHandle,
    events: Seq<ExitEvent>,
    maps: Seq<MemoryMapView>,
    i: int,
)
    requires
        spec_exit_run(image_handle, events, maps),
        0 <= i < events.len() - 1,
        spec_exit_step(image_handle, events[i], maps[i]) is ExitBootServices,
    ensures
        spec_exit_step(image_handle, events[i + 1], maps[i + 1]) is FetchMemoryMap
            || spec_exit_step(image_handle, events[i + 1], maps[i + 1]) is Done,
        i > 0,
{
}

} // verus!
