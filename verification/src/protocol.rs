use vstd::prelude::*;
use crate::status::EFI_SUCCESS;
use crate::vram::GraphicsModeInfo;

verus! {

/// The message with which a failed protocol lookup is reported.
pub open spec fn spec_locate_failure() -> Seq<char> {
    "Failed to locate graphics output protocol"@
}

/// What the firmware's loaded image protocol reports of the running image.
#[derive(Clone, Copy, Debug, PartialEq, Eq, Structural)]
pub struct EfiLoadedImageProtocol {
    /// Address at which the image was loaded.
    pub image_base: u64,
    /// Size of the image in bytes.
    pub image_size: u64,
}

/// Judges the answer of the firmware's lookup of the graphics output
/// protocol: the mode it found when the lookup reported success, the failure
/// message otherwise.
pub fn locate_graphic_protocol(status: u64, mode: GraphicsModeInfo) -> (r: Result<
    GraphicsModeInfo,
    &'static str,
>)
    ensures
        status == EFI_SUCCESS ==> r == Ok::<GraphicsModeInfo, &'static str>(mode),
        status != EFI_SUCCESS ==> (r matches Err(e) && e@ == spec_locate_failure()),
{
    if status != EFI_SUCCESS {
        return Err("Failed to locate graphics output protocol");
    }
    Ok(mode)
}

/// Judges the answer of the firmware's lookup of the loaded image protocol
/// for an image: what it found when the lookup reported success, the failure
/// message otherwise (the same message as for the graphics output protocol).
pub fn locate_loaded_image_protocol(status: u64, image: EfiLoadedImageProtocol) -> (r: Result<
    EfiLoadedImageProtocol,
    &'static str,
>)
    ensures
        status == EFI_SUCCESS ==> r == Ok::<EfiLoadedImageProtocol, &'static str>(image),
        status != EFI_SUCCESS ==> (r matches Err(e) && e@ == spec_locate_failure()),
{
    if status != EFI_SUCCESS {
        return Err("Failed to locate graphics output protocol");
    }
    Ok(image)
}

} // verus!
