//! Frames read back from the device as bytes.

use ash::vk;
use vstd::prelude::*;

use crate::text::decimal;
#[allow(unused_imports)]
use crate::text::decimal_text;
use crate::vulkan::codes::{
    FORMAT_B8G8R8A8_SRGB, FORMAT_B8G8R8A8_UNORM, FORMAT_R8G8B8A8_SRGB, FORMAT_R8G8B8A8_UNORM,
};
use crate::vulkan::swapchain::Extent;
#[allow(unused_imports)]
use crate::vulkan::swapchain::{frame_bytes, readback_format};

verus! {

/// The text that ash's `Debug` gives for a format.
pub uninterp spec fn format_debug(format: i32) -> Seq<char>;

/// `format!("{:?}", ash::vk::Format::from_raw(format))`: the name of a format that
/// ash knows, the number of one that it does not; a function of the number alone.
#[verifier::external_body]
fn format_text(format: i32) -> (text: String)
    ensures
        text@ == format_debug(format),
{
    format!("{:?}", vk::Format::from_raw(format))
}

/// The formats that store blue first.
pub open spec fn blue_first(format: i32) -> bool {
    format == FORMAT_B8G8R8A8_UNORM || format == FORMAT_B8G8R8A8_SRGB
}

/// Pixels with their first and third byte exchanged. Bytes after the last whole pixel
/// stay.
pub open spec fn swapped_pixels(bytes: Seq<u8>) -> Seq<u8> {
    Seq::new(
        bytes.len(),
        |i: int|
            if i >= bytes.len() / 4 * 4 {
                bytes[i]
            } else if i % 4 == 0 {
                bytes[i + 2]
            } else if i % 4 == 2 {
                bytes[i - 2]
            } else {
                bytes[i]
            },
    )
}

/// Exchanging twice changes nothing.
pub proof fn law_swap_is_an_involution(bytes: Seq<u8>)
    ensures
        swapped_pixels(swapped_pixels(bytes)) == bytes,
        swapped_pixels(bytes).len() == bytes.len(),
{
    assert(swapped_pixels(swapped_pixels(bytes)) =~= bytes);
}

/// Exchanges the first and third byte of every pixel.
pub fn swap_red_and_blue(bytes: Vec<u8>) -> (result: Vec<u8>)
    ensures
        result@ == swapped_pixels(bytes@),
{
    let mut result: Vec<u8> = Vec::new();
    let whole: usize = bytes.len() / 4 * 4;
    let mut i: usize = 0;
    while i < whole
        invariant
            whole == bytes@.len() / 4 * 4,
            i <= whole,
            i % 4 == 0,
            result@ == swapped_pixels(bytes@).take(i as int),
        decreases whole - i,
    {
        result.push(bytes[i + 2]);
        result.push(bytes[i + 1]);
        result.push(bytes[i]);
        result.push(bytes[i + 3]);
        i = i + 4;
        assert(result@ =~= swapped_pixels(bytes@).take(i as int));
    }
    while i < bytes.len()
        invariant
            whole == bytes@.len() / 4 * 4,
            whole <= i <= bytes@.len(),
            result@ == swapped_pixels(bytes@).take(i as int),
        decreases bytes@.len() - i,
    {
        result.push(bytes[i]);
        i = i + 1;
        assert(result@ =~= swapped_pixels(bytes@).take(i as int));
    }
    assert(result@ =~= swapped_pixels(bytes@));
    result
}

/// Why a frame cannot be read back, if so.
pub open spec fn readback_refusal(
    image_index: usize,
    images: usize,
    has_buffer: bool,
    extent: Extent,
) -> Option<Seq<char>> {
    if image_index >= images {
        Some("invalid swapchain image index "@ + decimal_text(image_index as nat))
    } else if !has_buffer {
        Some("swapchain color readback buffer unavailable"@)
    } else if extent.width == 0 || extent.height == 0 {
        Some("swapchain color readback dimensions are zero"@)
    } else {
        None
    }
}

/// How many bytes are mapped to read a frame back.
pub fn read_swapchain_color_image_rgba(
    image_index: usize,
    images: usize,
    has_buffer: bool,
    extent: Extent,
) -> (bytes: Result<u64, String>)
    requires
        frame_bytes(extent) <= u64::MAX,
    ensures
        match readback_refusal(image_index, images, has_buffer, extent) {
            Some(text) => bytes matches Err(message) && message@ == text,
            None => bytes matches Ok(count) && count == frame_bytes(extent),
        },
{
    if image_index >= images {
        let mut message: String = "invalid swapchain image index ".to_owned();
        let index: String = decimal(image_index as u64);
        message.append(index.as_str());
        return Err(message);
    }
    if !has_buffer {
        return Err("swapchain color readback buffer unavailable".to_owned());
    }
    if extent.width == 0 || extent.height == 0 {
        return Err("swapchain color readback dimensions are zero".to_owned());
    }
    let pixels: u64 = extent.width as u64 * extent.height as u64;
    Ok(pixels * 4)
}

/// Turns the bytes of a frame into red, green, blue and alpha. `refusal` begins the
/// message for a format that cannot be turned.
pub fn pixels_to_rgba(bytes: Vec<u8>, format: i32, refusal: &str) -> (result: Result<
    Vec<u8>,
    String,
>)
    ensures
        if blue_first(format) {
            result matches Ok(rgba) && rgba@ == swapped_pixels(bytes@)
        } else if readback_format(format) {
            result matches Ok(rgba) && rgba@ == bytes@
        } else {
            result matches Err(message) && message@ == refusal@ + format_debug(format)
        },
{
    if format == FORMAT_B8G8R8A8_UNORM || format == FORMAT_B8G8R8A8_SRGB {
        Ok(swap_red_and_blue(bytes))
    } else if format == FORMAT_R8G8B8A8_UNORM || format == FORMAT_R8G8B8A8_SRGB {
        Ok(bytes)
    } else {
        let mut message: String = refusal.to_owned();
        let text: String = format_text(format);
        message.append(text.as_str());
        Err(message)
    }
}

/// Turns the bytes of a frame of the window into red, green, blue and alpha.
pub fn frame_to_rgba(bytes: Vec<u8>, format: i32) -> (result: Result<Vec<u8>, String>)
    ensures
        if blue_first(format) {
            result matches Ok(rgba) && rgba@ == swapped_pixels(bytes@)
        } else if readback_format(format) {
            result matches Ok(rgba) && rgba@ == bytes@
        } else {
            result matches Err(message) && message@
                == "swapchain color readback does not support format "@ + format_debug(format)
        },
{
    pixels_to_rgba(bytes, format, "swapchain color readback does not support format ")
}

/// Reading back swaps red and blue of each whole pixel and leaves green and alpha.
pub proof fn law_red_and_blue_change_places(bytes: Seq<u8>, pixel: int)
    requires
        0 <= pixel,
        pixel * 4 + 3 < bytes.len(),
    ensures
        swapped_pixels(bytes).len() == bytes.len(),
        swapped_pixels(bytes)[pixel * 4] == bytes[pixel * 4 + 2],
        swapped_pixels(bytes)[pixel * 4 + 1] == bytes[pixel * 4 + 1],
        swapped_pixels(bytes)[pixel * 4 + 2] == bytes[pixel * 4],
        swapped_pixels(bytes)[pixel * 4 + 3] == bytes[pixel * 4 + 3],
{
    assert((bytes.len() as int / 4) * 4 > pixel * 4 + 3);
}

/// Blue comes first in exactly these two formats.
pub proof fn law_formats_with_blue_first(format: i32)
    ensures
        blue_first(format) <==> format == 44 || format == 50,
{
}

/// A frame is read back exactly where the image is one of the swapchain, there is a buffer
/// and there is a pixel.
pub proof fn law_frame_is_read_where_it_can_be(
    image_index: usize,
    images: usize,
    has_buffer: bool,
    extent: Extent,
)
    ensures
        readback_refusal(image_index, images, has_buffer, extent) is None <==> image_index < images
            && has_buffer && extent.width >= 1 && extent.height >= 1,
{
}

} // verus!
