//! Image entry points of the native runtime.
use vstd::prelude::*;
use crate::config::ImageFormat;
use crate::error::Status;
use crate::refcount::{
    allocate_slot, allocated, is_last_owner, is_live, referenced, reference_slot, release_slot,
    released, slot_is_live, NULL_HANDLE,
};
use super::{Api, ImageSlot};

verus! {

/// Bytes per pixel of the formats whose line length follows from the width;
/// zero for the compressed and free-form formats.
pub open spec fn bytes_per_pixel(f: ImageFormat) -> int {
    match f {
        ImageFormat::ColorBgra32 => 4,
        ImageFormat::Depth16 | ImageFormat::Ir16 | ImageFormat::Custom16 | ImageFormat::ColorYuy2 => 2,
        ImageFormat::ColorNv12 | ImageFormat::Custom8 => 1,
        _ => 0,
    }
}

/// The line length of a new image: the one given, or the least one for the
/// width where zero was given.
pub open spec fn stride_for(f: ImageFormat, width: i32, stride: i32) -> int {
    if stride == 0 {
        width * bytes_per_pixel(f)
    } else {
        stride as int
    }
}

/// Size in bytes of an image with `height` lines of `stride` bytes. An NV12
/// image has a half-height plane of chroma under its luma plane.
pub open spec fn byte_size(f: ImageFormat, height: int, stride: int) -> int {
    if f == ImageFormat::ColorNv12 {
        height * stride * 3 / 2
    } else {
        height * stride
    }
}

/// Whether the runtime can allocate a blank image of this shape. Compressed
/// color has no fixed size, so it cannot.
///
/// This is the rule the runtime model in this crate applies, together with
/// `stride_for` and `byte_size`; the vendor runtime sizes and refuses images
/// by rules of its own, which this one only approximates.
pub open spec fn can_create_image(f: ImageFormat, width: i32, height: i32, stride: i32) -> bool {
    &&& f != ImageFormat::ColorMjpg
    &&& width > 0
    &&& height > 0
    &&& stride >= 0
    &&& 0 < stride_for(f, width, stride) <= i32::MAX
    &&& byte_size(f, height as int, stride_for(f, width, stride)) <= usize::MAX
}

/// Whether the runtime can wrap a caller's buffer as an image of this shape.
pub open spec fn can_wrap_buffer(width: i32, height: i32, stride: i32, buffer_len: nat) -> bool {
    width > 0 && height > 0 && stride >= 0 && buffer_len > 0
}

/// A slot with this shape and pixels, and zero in every other field.
pub open spec fn is_fresh_image(s: ImageSlot, f: ImageFormat, width: i32, height: i32, stride: i32, pixels: Seq<u8>) -> bool {
    &&& s.format == f
    &&& s.width_pixels == width
    &&& s.height_pixels == height
    &&& s.stride_bytes == stride
    &&& s.buffer@ == pixels
    &&& s.device_timestamp_usec == 0
    &&& s.system_timestamp_nsec == 0
    &&& s.exposure_usec == 0
    &&& s.white_balance == 0
    &&& s.iso_speed == 0
}

impl Api {
    /// Whether `h` names a live image.
    pub open spec fn image_live(&self, h: usize) -> bool {
        is_live(self.image_refs@, h)
    }

    /// The record of image `h` (meaningful where `h` is live).
    pub open spec fn image_at(&self, h: usize) -> ImageSlot {
        self.images@[h - 1]
    }

    /// After `image_refs` changed, the tables still agree.
    pub open spec fn images_updated(&self, old: &Api) -> bool {
        &&& self.wf()
        &&& self.same_but_images(old)
        &&& self.images@.len() == old.images@.len()
    }

    /// Allocates a blank image, its pixels all zero.
    pub fn image_create(&mut self, format: ImageFormat, width: i32, height: i32, stride: i32) -> (r: (Status, usize))
        requires
            old(self).wf(),
        ensures
            final(self).wf(),
            final(self).devices == old(self).devices,
            final(self).capture_refs == old(self).capture_refs,
            final(self).captures == old(self).captures,
            final(self).frame_refs == old(self).frame_refs,
            final(self).frames == old(self).frames,
            final(self).trackers == old(self).trackers,
            final(self).detections == old(self).detections,
            final(self).recordings == old(self).recordings,
            final(self).playbacks == old(self).playbacks,
            can_create_image(format, width, height, stride) && old(self).images.len() < usize::MAX ==> {
                let line = stride_for(format, width, stride);
                let size = byte_size(format, height as int, line);
                &&& r == (Status::Succeeded, (old(self).images.len() + 1) as usize)
                &&& final(self).image_refs@ == allocated(old(self).image_refs@)
                &&& final(self).images@.drop_last() == old(self).images@
                &&& is_fresh_image(final(self).images@.last(), format, width, height, line as i32, Seq::new(size as nat, |i: int| 0u8))
            },
            !(can_create_image(format, width, height, stride) && old(self).images.len() < usize::MAX) ==> {
                &&& r == (Status::Failed, NULL_HANDLE)
                &&& final(self).image_refs == old(self).image_refs
                &&& final(self).images == old(self).images
            },
    {
        if self.images.len() == usize::MAX || format == ImageFormat::ColorMjpg || width <= 0 || height <= 0 || stride < 0 {
            return (Status::Failed, NULL_HANDLE);
        }
        let bpp: u64 = match format {
            ImageFormat::ColorBgra32 => 4,
            ImageFormat::Depth16 | ImageFormat::Ir16 | ImageFormat::Custom16 | ImageFormat::ColorYuy2 => 2,
            ImageFormat::ColorNv12 | ImageFormat::Custom8 => 1,
            _ => 0,
        };
        let line: u64 = if stride == 0 {
            assert(width as u64 * bpp <= 4 * 0x7fff_ffff) by (nonlinear_arith)
                requires width <= 0x7fff_ffff, bpp <= 4, width > 0;
            width as u64 * bpp
        } else {
            stride as u64
        };
        assert(line == stride_for(format, width, stride));
        if line == 0 || line > 0x7fff_ffff {
            return (Status::Failed, NULL_HANDLE);
        }
        assert(height as u64 * line <= 0x7fff_ffff * 0x7fff_ffff) by (nonlinear_arith)
            requires height <= 0x7fff_ffff, line <= 0x7fff_ffff, height > 0;
        let plane: u64 = height as u64 * line;
        let size: u64 = if format == ImageFormat::ColorNv12 { plane * 3 / 2 } else { plane };
        assert(size == byte_size(format, height as int, line as int));
        if size > usize::MAX as u64 {
            return (Status::Failed, NULL_HANDLE);
        }
        let pixels: Vec<u8> = vec![0u8; size as usize];
        assert(pixels@ =~= Seq::new(size as nat, |i: int| 0u8));
        let slot = ImageSlot {
            format,
            width_pixels: width,
            height_pixels: height,
            stride_bytes: line as i32,
            buffer: pixels,
            device_timestamp_usec: 0,
            system_timestamp_nsec: 0,
            exposure_usec: 0,
            white_balance: 0,
            iso_speed: 0,
        };
        self.images.push(slot);
        let h = allocate_slot(&mut self.image_refs);
        assert(self.images@.drop_last() =~= old(self).images@);
        (Status::Succeeded, h)
    }

    /// Wraps a caller's buffer as an image; the image owns the buffer from
    /// then on and frees it when it is destroyed.
    pub fn image_create_from_buffer(
        &mut self,
        format: ImageFormat,
        width: i32,
        height: i32,
        stride: i32,
        buffer: Vec<u8>,
    ) -> (r: (Status, usize))
        requires
            old(self).wf(),
        ensures
            final(self).wf(),
            final(self).devices == old(self).devices,
            final(self).capture_refs == old(self).capture_refs,
            final(self).captures == old(self).captures,
            final(self).frame_refs == old(self).frame_refs,
            final(self).frames == old(self).frames,
            final(self).trackers == old(self).trackers,
            final(self).detections == old(self).detections,
            final(self).recordings == old(self).recordings,
            final(self).playbacks == old(self).playbacks,
            can_wrap_buffer(width, height, stride, buffer@.len()) && old(self).images.len() < usize::MAX ==> {
                &&& r == (Status::Succeeded, (old(self).images.len() + 1) as usize)
                &&& final(self).image_refs@ == allocated(old(self).image_refs@)
                &&& final(self).images@.drop_last() == old(self).images@
                &&& is_fresh_image(final(self).images@.last(), format, width, height, stride, buffer@)
            },
            !(can_wrap_buffer(width, height, stride, buffer@.len()) && old(self).images.len() < usize::MAX) ==> {
                &&& r == (Status::Failed, NULL_HANDLE)
                &&& final(self).image_refs == old(self).image_refs
                &&& final(self).images == old(self).images
            },
    {
        if self.images.len() == usize::MAX || width <= 0 || height <= 0 || stride < 0 || buffer.len() == 0 {
            return (Status::Failed, NULL_HANDLE);
        }
        let slot = ImageSlot {
            format,
            width_pixels: width,
            height_pixels: height,
            stride_bytes: stride,
            buffer,
            device_timestamp_usec: 0,
            system_timestamp_nsec: 0,
            exposure_usec: 0,
            white_balance: 0,
            iso_speed: 0,
        };
        self.images.push(slot);
        let h = allocate_slot(&mut self.image_refs);
        assert(self.images@.drop_last() =~= old(self).images@);
        (Status::Succeeded, h)
    }

    /// Adds an owner to image `h`.
    pub fn image_reference(&mut self, h: usize)
        requires
            old(self).wf(),
        ensures
            final(self).wf(),
            final(self).image_refs@ == referenced(old(self).image_refs@, h),
            final(self).images == old(self).images,
            final(self).same_but_images_and_captures(old(self)),
            final(self).capture_refs == old(self).capture_refs,
            final(self).captures == old(self).captures,
    {
        reference_slot(&mut self.image_refs, h);
    }

    /// Takes an owner away from image `h`; the last one destroys it.
    pub fn image_release(&mut self, h: usize) -> (destroyed: bool)
        requires
            old(self).wf(),
        ensures
            final(self).wf(),
            final(self).image_refs@ == released(old(self).image_refs@, h),
            destroyed == is_last_owner(old(self).image_refs@, h),
            final(self).images == old(self).images,
            final(self).same_but_images_and_captures(old(self)),
            final(self).capture_refs == old(self).capture_refs,
            final(self).captures == old(self).captures,
    {
        release_slot(&mut self.image_refs, h)
    }

    pub fn image_is_live(&self, h: usize) -> (r: bool)
        requires
            self.wf(),
        ensures
            r == self.image_live(h),
    {
        slot_is_live(&self.image_refs, h)
    }

    pub fn image_format(&self, h: usize) -> (r: ImageFormat)
        requires
            self.wf(),
        ensures
            r == (if self.image_live(h) { self.image_at(h).format } else { ImageFormat::Custom }),
    {
        if slot_is_live(&self.image_refs, h) {
            self.images[h - 1].format
        } else {
            ImageFormat::Custom
        }
    }

    pub fn image_width_pixels(&self, h: usize) -> (r: i32)
        requires
            self.wf(),
        ensures
            r == (if self.image_live(h) { self.image_at(h).width_pixels } else { 0 }),
    {
        if slot_is_live(&self.image_refs, h) {
            self.images[h - 1].width_pixels
        } else {
            0
        }
    }

    pub fn image_height_pixels(&self, h: usize) -> (r: i32)
        requires
            self.wf(),
        ensures
            r == (if self.image_live(h) { self.image_at(h).height_pixels } else { 0 }),
    {
        if slot_is_live(&self.image_refs, h) {
            self.images[h - 1].height_pixels
        } else {
            0
        }
    }

    pub fn image_stride_bytes(&self, h: usize) -> (r: i32)
        requires
            self.wf(),
        ensures
            r == (if self.image_live(h) { self.image_at(h).stride_bytes } else { 0 }),
    {
        if slot_is_live(&self.image_refs, h) {
            self.images[h - 1].stride_bytes
        } else {
            0
        }
    }

    pub fn image_device_timestamp_usec(&self, h: usize) -> (r: u64)
        requires
            self.wf(),
        ensures
            r == (if self.image_live(h) { self.image_at(h).device_timestamp_usec } else { 0 }),
    {
        if slot_is_live(&self.image_refs, h) {
            self.images[h - 1].device_timestamp_usec
        } else {
            0
        }
    }

    pub fn image_system_timestamp_nsec(&self, h: usize) -> (r: u64)
        requires
            self.wf(),
        ensures
            r == (if self.image_live(h) { self.image_at(h).system_timestamp_nsec } else { 0 }),
    {
        if slot_is_live(&self.image_refs, h) {
            self.images[h - 1].system_timestamp_nsec
        } else {
            0
        }
    }

    pub fn image_exposure_usec(&self, h: usize) -> (r: u64)
        requires
            self.wf(),
        ensures
            r == (if self.image_live(h) { self.image_at(h).exposure_usec } else { 0 }),
    {
        if slot_is_live(&self.image_refs, h) {
            self.images[h - 1].exposure_usec
        } else {
            0
        }
    }

    pub fn image_white_balance(&self, h: usize) -> (r: u32)
        requires
            self.wf(),
        ensures
            r == (if self.image_live(h) { self.image_at(h).white_balance } else { 0 }),
    {
        if slot_is_live(&self.image_refs, h) {
            self.images[h - 1].white_balance
        } else {
            0
        }
    }

    pub fn image_iso_speed(&self, h: usize) -> (r: u32)
        requires
            self.wf(),
        ensures
            r == (if self.image_live(h) { self.image_at(h).iso_speed } else { 0 }),
    {
        if slot_is_live(&self.image_refs, h) {
            self.images[h - 1].iso_speed
        } else {
            0
        }
    }

    pub fn image_set_device_timestamp_usec(&mut self, h: usize, value: u64)
        requires
            old(self).wf(),
        ensures
            final(self).wf(),
            final(self).same_but_images(old(self)),
            old(self).image_live(h) ==> final(self).images@ == old(self).images@.update(
                h - 1,
                ImageSlot { device_timestamp_usec: value, ..old(self).image_at(h) },
            ),
            !old(self).image_live(h) ==> final(self).images == old(self).images,
    {
        if slot_is_live(&self.image_refs, h) {
            self.images[h - 1].device_timestamp_usec = value;
        }
    }

    pub fn image_set_system_timestamp_nsec(&mut self, h: usize, value: u64)
        requires
            old(self).wf(),
        ensures
            final(self).wf(),
            final(self).same_but_images(old(self)),
            old(self).image_live(h) ==> final(self).images@ == old(self).images@.update(
                h - 1,
                ImageSlot { system_timestamp_nsec: value, ..old(self).image_at(h) },
            ),
            !old(self).image_live(h) ==> final(self).images == old(self).images,
    {
        if slot_is_live(&self.image_refs, h) {
            self.images[h - 1].system_timestamp_nsec = value;
        }
    }

    pub fn image_set_exposure_usec(&mut self, h: usize, value: u64)
        requires
            old(self).wf(),
        ensures
            final(self).wf(),
            final(self).same_but_images(old(self)),
            old(self).image_live(h) ==> final(self).images@ == old(self).images@.update(
                h - 1,
                ImageSlot { exposure_usec: value, ..old(self).image_at(h) },
            ),
            !old(self).image_live(h) ==> final(self).images == old(self).images,
    {
        if slot_is_live(&self.image_refs, h) {
            self.images[h - 1].exposure_usec = value;
        }
    }

    pub fn image_set_white_balance(&mut self, h: usize, value: u32)
        requires
            old(self).wf(),
        ensures
            final(self).wf(),
            final(self).same_but_images(old(self)),
            old(self).image_live(h) ==> final(self).images@ == old(self).images@.update(
                h - 1,
                ImageSlot { white_balance: value, ..old(self).image_at(h) },
            ),
            !old(self).image_live(h) ==> final(self).images == old(self).images,
    {
        if slot_is_live(&self.image_refs, h) {
            self.images[h - 1].white_balance = value;
        }
    }

    pub fn image_set_iso_speed(&mut self, h: usize, value: u32)
        requires
            old(self).wf(),
        ensures
            final(self).wf(),
            final(self).same_but_images(old(self)),
            old(self).image_live(h) ==> final(self).images@ == old(self).images@.update(
                h - 1,
                ImageSlot { iso_speed: value, ..old(self).image_at(h) },
            ),
            !old(self).image_live(h) ==> final(self).images == old(self).images,
    {
        if slot_is_live(&self.image_refs, h) {
            self.images[h - 1].iso_speed = value;
        }
    }

    /// Size in bytes of the pixels of image `h`.
    pub fn image_size(&self, h: usize) -> (r: usize)
        requires
            self.wf(),
        ensures
            r == (if self.image_live(h) { self.image_at(h).buffer@.len() } else { 0 }),
    {
        if slot_is_live(&self.image_refs, h) {
            self.images[h - 1].buffer.len()
        } else {
            0
        }
    }

    /// The pixels of image `h`, read in place; empty for a handle that
    /// names no live image.
    pub fn image_buffer(&self, h: usize) -> (r: &[u8])
        requires
            self.wf(),
        ensures
            r@ == (if self.image_live(h) { self.image_at(h).buffer@ } else { Seq::<u8>::empty() }),
    {
        if slot_is_live(&self.image_refs, h) {
            self.images[h - 1].buffer.as_slice()
        } else {
            &[]
        }
    }

    /// The pixels of image `h`, writable in place; empty for a handle that
    /// names no live image. Only the pixels can change through it.
    pub fn image_buffer_mut(&mut self, h: usize) -> (r: &mut [u8])
        requires
            old(self).wf(),
        ensures
            old(self).image_live(h) ==> {
                &&& r@ == old(self).image_at(h).buffer@
                &&& final(self).images@.len() == old(self).images@.len()
                &&& forall|i: int| 0 <= i < old(self).images.len() && i != h - 1
                    ==> final(self).images@[i] == old(self).images@[i]
                &&& final(self).images@[h - 1].buffer@ == final(r)@
                &&& final(self).images@[h - 1].format == old(self).image_at(h).format
                &&& final(self).images@[h - 1].width_pixels == old(self).image_at(h).width_pixels
                &&& final(self).images@[h - 1].height_pixels == old(self).image_at(h).height_pixels
                &&& final(self).images@[h - 1].stride_bytes == old(self).image_at(h).stride_bytes
                &&& final(self).images@[h - 1].device_timestamp_usec == old(self).image_at(h).device_timestamp_usec
                &&& final(self).images@[h - 1].system_timestamp_nsec == old(self).image_at(h).system_timestamp_nsec
                &&& final(self).images@[h - 1].exposure_usec == old(self).image_at(h).exposure_usec
                &&& final(self).images@[h - 1].white_balance == old(self).image_at(h).white_balance
                &&& final(self).images@[h - 1].iso_speed == old(self).image_at(h).iso_speed
            },
            !old(self).image_live(h) ==> r@.len() == 0 && final(self).images == old(self).images,
            final(self).wf(),
            final(self).same_but_images(old(self)),
    {
        if slot_is_live(&self.image_refs, h) {
            self.images[h - 1].buffer.as_mut_slice()
        } else {
            &mut []
        }
    }
}

} // verus!
