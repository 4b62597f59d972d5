use uefi_boot::boot::{exit_from_efi_boot_services, ExitAction, ExitEvent};
use uefi_boot::memory_map::{MemoryMapHolder, MEMORY_MAP_BUFFER_SIZE};
use uefi_boot::protocol::{
    locate_graphic_protocol, locate_loaded_image_protocol, EfiLoadedImageProtocol,
};
use uefi_boot::status::{EfiStatus, EFI_SUCCESS};
use uefi_boot::vram::{init_vram, GraphicsModeInfo, VramBufferInfo};

fn mode() -> GraphicsModeInfo {
    GraphicsModeInfo {
        frame_buffer_base: 0x8000_0000,
        horizontal_resolution: 1920,
        vertical_resolution: 1080,
        pixels_per_scan_line: 2048,
    }
}

#[test]
fn status_codes() {
    assert_eq!(EfiStatus::from_code(0), Some(EfiStatus::Success));
    assert_eq!(EfiStatus::from_code(0x8000_0000_0000_0005), None);
    assert_eq!(EfiStatus::Success.code(), EFI_SUCCESS);
    assert_eq!(EFI_SUCCESS, 0);
}

#[test]
fn graphics_protocol_found() {
    assert_eq!(locate_graphic_protocol(EFI_SUCCESS, mode()), Ok(mode()));
}

#[test]
fn graphics_protocol_missing() {
    assert_eq!(
        locate_graphic_protocol(14, mode()),
        Err("Failed to locate graphics output protocol")
    );
}

#[test]
fn loaded_image_protocol() {
    let image = EfiLoadedImageProtocol { image_base: 0x10_0000, image_size: 0x2_0000 };
    assert_eq!(locate_loaded_image_protocol(EFI_SUCCESS, image), Ok(image));
    assert_eq!(
        locate_loaded_image_protocol(2, image),
        Err("Failed to locate graphics output protocol")
    );
}

#[test]
fn vram_from_mode() {
    let vram = init_vram(EFI_SUCCESS, mode()).unwrap();
    assert_eq!(
        vram,
        VramBufferInfo { buf: 0x8000_0000, width: 1920, height: 1080, pixels_per_line: 2048 }
    );
    assert_eq!(vram.width(), 1920);
    assert_eq!(vram.height(), 1080);
    assert_eq!(vram.pixels_per_line(), 2048);
    assert_eq!(vram.bytes_per_pixel(), 4);
    let mut v = vram;
    assert_eq!(v.buf_mut(), 0x8000_0000);
}

#[test]
fn vram_keeps_full_u32_resolution() {
    let m = GraphicsModeInfo {
        frame_buffer_base: 0,
        horizontal_resolution: u32::MAX,
        vertical_resolution: 1,
        pixels_per_scan_line: u32::MAX,
    };
    let vram = init_vram(EFI_SUCCESS, m).unwrap();
    assert_eq!(vram.width, 4_294_967_295);
    assert_eq!(vram.pixels_per_line, 4_294_967_295);
}

#[test]
fn vram_without_graphics_protocol() {
    assert_eq!(init_vram(1, mode()), Err("Failed to locate graphics output protocol"));
}

#[test]
fn exit_sequence_starts_with_memory_map() {
    let holder = MemoryMapHolder::new();
    assert_eq!(
        exit_from_efi_boot_services(7, ExitEvent::Start, &holder),
        ExitAction::FetchMemoryMap
    );
}

#[test]
fn exit_uses_key_of_fetched_map() {
    let mut holder = MemoryMapHolder::new();
    let buffer = vec![0u8; MEMORY_MAP_BUFFER_SIZE];
    holder.store(&buffer, 480, 0x1234, 48, 1);
    assert_eq!(
        exit_from_efi_boot_services(7, ExitEvent::MemoryMapFetched { status: EFI_SUCCESS }, &holder),
        ExitAction::ExitBootServices { image_handle: 7, map_key: 0x1234 }
    );
}

#[test]
fn failed_exit_fetches_map_again() {
    let holder = MemoryMapHolder::new();
    assert_eq!(
        exit_from_efi_boot_services(7, ExitEvent::ExitAttempted { status: 2 }, &holder),
        ExitAction::FetchMemoryMap
    );
}

#[test]
fn successful_exit_ends_sequence() {
    let holder = MemoryMapHolder::new();
    assert_eq!(
        exit_from_efi_boot_services(7, ExitEvent::ExitAttempted { status: EFI_SUCCESS }, &holder),
        ExitAction::Done
    );
}

#[test]
fn exit_run_refetches_after_failure() {
    let mut holder = MemoryMapHolder::new();
    let buffer = vec![0u8; MEMORY_MAP_BUFFER_SIZE];
    let mut event = ExitEvent::Start;
    let mut key: usize = 10;
    let mut exit_answers = vec![EFI_SUCCESS, 2];
    let mut actions = Vec::new();
    loop {
        let action = exit_from_efi_boot_services(1, event, &holder);
        actions.push(action);
        match action {
            ExitAction::FetchMemoryMap => {
                key += 1;
                holder.store(&buffer, 48, key, 48, 1);
                event = ExitEvent::MemoryMapFetched { status: EFI_SUCCESS };
            }
            ExitAction::ExitBootServices { .. } => {
                event = ExitEvent::ExitAttempted { status: exit_answers.pop().unwrap() };
            }
            ExitAction::Done => break,
        }
    }
    assert_eq!(
        actions,
        vec![
            ExitAction::FetchMemoryMap,
            ExitAction::ExitBootServices { image_handle: 1, map_key: 11 },
            ExitAction::FetchMemoryMap,
            ExitAction::ExitBootServices { image_handle: 1, map_key: 12 },
            ExitAction::Done,
        ]
    );
}
