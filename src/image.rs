//! Reference-counted wrapper of a native image.
use vstd::prelude::*;
use crate::config::ImageFormat;
use crate::error::Error;
use crate::refcount::{count_of, allocated, referenced, released, NULL_HANDLE};
use crate::runtime::Api;
use crate::runtime::images::{can_create_image, can_wrap_buffer, is_fresh_image, stride_for, byte_size};

verus! {

/// One pixel buffer with its metadata, shared by reference counting: every
/// `Image` value owns one reference to its native image, taken when it was
/// made and given back by `release`. An empty image holds the null handle.
pub struct Image {
    handle: usize,
}

impl View for Image {
    type V = usize;

    /// The native handle this wrapper owns; the null handle once released.
    closed spec fn view(&self) -> usize {
        self.handle
    }
}

impl Image {
    /// The native handle this wrapper owns; the null handle once released.
    pub fn handle(&self) -> (r: usize)
        ensures
            r == self@,
    {
        self.handle
    }
    /// Wraps a handle whose reference the caller hands over.
    pub(crate) fn from_handle(handle: usize) -> (r: Image)
        ensures
            r@ == handle,
    {
        Image { handle }
    }

    /// Creates a blank image.
    pub fn with_format(api: &mut Api, format: ImageFormat, width_pixels: i32, height_pixels: i32, stride_bytes: i32) -> (r: Result<Image, Error>)
        requires
            old(api).wf(),
        ensures
            final(api).wf(),
            final(api).devices == old(api).devices,
            final(api).capture_refs == old(api).capture_refs,
            final(api).captures == old(api).captures,
            final(api).frame_refs == old(api).frame_refs,
            final(api).frames == old(api).frames,
            final(api).trackers == old(api).trackers,
            final(api).detections == old(api).detections,
            final(api).recordings == old(api).recordings,
            final(api).playbacks == old(api).playbacks,
            can_create_image(format, width_pixels, height_pixels, stride_bytes) && old(api).images.len() < usize::MAX ==> {
                let line = stride_for(format, width_pixels, stride_bytes);
                let size = byte_size(format, height_pixels as int, line);
                &&& r matches Ok(img) && img@ == old(api).images.len() + 1
                &&& final(api).image_refs@ == allocated(old(api).image_refs@)
                &&& final(api).images@.drop_last() == old(api).images@
                &&& is_fresh_image(final(api).images@.last(), format, width_pixels, height_pixels, line as i32, Seq::new(size as nat, |i: int| 0u8))
            },
            !(can_create_image(format, width_pixels, height_pixels, stride_bytes) && old(api).images.len() < usize::MAX) ==> {
                &&& r matches Err(e) && e == Error::Failed
                &&& final(api).image_refs == old(api).image_refs
                &&& final(api).images == old(api).images
            },
    {
        let (status, handle) = api.image_create(format, width_pixels, height_pixels, stride_bytes);
        if status.is_success() {
            Ok(Image { handle })
        } else {
            Err(Error::from_status(status))
        }
    }

    /// Creates an image over a buffer of the caller's, which the image owns
    /// from then on.
    pub fn with_buffer(
        api: &mut Api,
        format: ImageFormat,
        width_pixels: i32,
        height_pixels: i32,
        stride_bytes: i32,
        buffer: Vec<u8>,
    ) -> (r: Result<Image, Error>)
        requires
            old(api).wf(),
        ensures
            final(api).wf(),
            final(api).devices == old(api).devices,
            final(api).capture_refs == old(api).capture_refs,
            final(api).captures == old(api).captures,
            final(api).frame_refs == old(api).frame_refs,
            final(api).frames == old(api).frames,
            final(api).trackers == old(api).trackers,
            final(api).detections == old(api).detections,
            final(api).recordings == old(api).recordings,
            final(api).playbacks == old(api).playbacks,
            can_wrap_buffer(width_pixels, height_pixels, stride_bytes, buffer@.len()) && old(api).images.len() < usize::MAX ==> {
                &&& r matches Ok(img) && img@ == old(api).images.len() + 1
                &&& final(api).image_refs@ == allocated(old(api).image_refs@)
                &&& final(api).images@.drop_last() == old(api).images@
                &&& is_fresh_image(final(api).images@.last(), format, width_pixels, height_pixels, stride_bytes, buffer@)
            },
            !(can_wrap_buffer(width_pixels, height_pixels, stride_bytes, buffer@.len()) && old(api).images.len() < usize::MAX) ==> {
                &&& r matches Err(e) && e == Error::Failed
                &&& final(api).image_refs == old(api).image_refs
                &&& final(api).images == old(api).images
            },
    {
        let (status, handle) = api.image_create_from_buffer(format, width_pixels, height_pixels, stride_bytes, buffer);
        if status.is_success() {
            Ok(Image { handle })
        } else {
            Err(Error::from_status(status))
        }
    }

    /// A second owner of the same native image: one more reference is taken.
    pub fn share(&self, api: &mut Api) -> (r: Image)
        requires
            old(api).wf(),
        ensures
            final(api).wf(),
            r@ == self@,
            final(api).image_refs@ == referenced(old(api).image_refs@, self@),
            1 <= count_of(old(api).image_refs@, self@) < u64::MAX ==> count_of(final(api).image_refs@, self@)
                == count_of(old(api).image_refs@, self@) + 1,
            forall|g: usize| g != self@ ==> #[trigger] count_of(final(api).image_refs@, g) == count_of(old(api).image_refs@, g),
            final(api).images == old(api).images,
            final(api).same_but_images_and_captures(old(api)),
            final(api).capture_refs == old(api).capture_refs,
            final(api).captures == old(api).captures,
    {
        api.image_reference(self.handle);
        Image { handle: self.handle }
    }

    /// Gives this owner's reference back, once: the wrapper then holds the
    /// null handle, so that a second release does nothing.
    pub fn release(&mut self, api: &mut Api)
        requires
            old(api).wf(),
        ensures
            final(api).wf(),
            final(self)@ == NULL_HANDLE,
            final(api).image_refs@ == released(old(api).image_refs@, old(self)@),
            count_of(old(api).image_refs@, old(self)@) >= 1 ==> count_of(final(api).image_refs@, old(self)@)
                == count_of(old(api).image_refs@, old(self)@) - 1,
            forall|g: usize| g != old(self)@ ==> #[trigger] count_of(final(api).image_refs@, g) == count_of(old(api).image_refs@, g),
            final(api).images == old(api).images,
            final(api).same_but_images_and_captures(old(api)),
            final(api).capture_refs == old(api).capture_refs,
            final(api).captures == old(api).captures,
    {
        api.image_release(self.handle);
        self.handle = NULL_HANDLE;
    }

    /// The pixels, read in place.
    pub fn get_buffer<'a>(&self, api: &'a Api) -> (r: &'a [u8])
        requires
            api.wf(),
        ensures
            r@ == (if api.image_live(self@) { api.image_at(self@).buffer@ } else { Seq::<u8>::empty() }),
    {
        api.image_buffer(self.handle)
    }

    /// The pixels, writable in place; nothing else of the image can change
    /// through it.
    pub fn get_mut_buffer<'a>(&mut self, api: &'a mut Api) -> (r: &'a mut [u8])
        requires
            old(api).wf(),
        ensures
            *final(self) == *old(self),
            old(api).image_live(old(self)@) ==> {
                let h = old(self)@;
                &&& r@ == old(api).image_at(h).buffer@
                &&& final(api).images@.len() == old(api).images@.len()
                &&& forall|i: int| 0 <= i < old(api).images.len() && i != h - 1
                    ==> final(api).images@[i] == old(api).images@[i]
                &&& final(api).images@[h - 1].buffer@ == final(r)@
                &&& final(api).images@[h - 1].format == old(api).image_at(h).format
                &&& final(api).images@[h - 1].width_pixels == old(api).image_at(h).width_pixels
                &&& final(api).images@[h - 1].height_pixels == old(api).image_at(h).height_pixels
                &&& final(api).images@[h - 1].stride_bytes == old(api).image_at(h).stride_bytes
                &&& final(api).images@[h - 1].device_timestamp_usec == old(api).image_at(h).device_timestamp_usec
                &&& final(api).images@[h - 1].system_timestamp_nsec == old(api).image_at(h).system_timestamp_nsec
                &&& final(api).images@[h - 1].exposure_usec == old(api).image_at(h).exposure_usec
                &&& final(api).images@[h - 1].white_balance == old(api).image_at(h).white_balance
                &&& final(api).images@[h - 1].iso_speed == old(api).image_at(h).iso_speed
            },
            !old(api).image_live(old(self)@) ==> r@.len() == 0 && final(api).images == old(api).images,
            final(api).wf(),
            final(api).same_but_images(old(api)),
    {
        api.image_buffer_mut(self.handle)
    }

    /// The size of the pixels in bytes.
    pub fn get_size(&self, api: &Api) -> (r: usize)
        requires
            api.wf(),
        ensures
            r == (if api.image_live(self@) { api.image_at(self@).buffer@.len() } else { 0 }),
    {
        api.image_size(self.handle)
    }

    /// The pixel format; `Custom` for an empty image.
    pub fn get_format(&self, api: &Api) -> (r: ImageFormat)
        requires
            api.wf(),
        ensures
            r == (if api.image_live(self@) { api.image_at(self@).format } else { ImageFormat::Custom }),
    {
        api.image_format(self.handle)
    }

    /// The width in pixels.
    pub fn get_width_pixels(&self, api: &Api) -> (r: i32)
        requires
            api.wf(),
        ensures
            r == (if api.image_live(self@) { api.image_at(self@).width_pixels } else { 0 }),
    {
        api.image_width_pixels(self.handle)
    }

    /// The height in pixels.
    pub fn get_height_pixels(&self, api: &Api) -> (r: i32)
        requires
            api.wf(),
        ensures
            r == (if api.image_live(self@) { api.image_at(self@).height_pixels } else { 0 }),
    {
        api.image_height_pixels(self.handle)
    }

    /// The length of one line in bytes.
    pub fn get_stride_bytes(&self, api: &Api) -> (r: i32)
        requires
            api.wf(),
        ensures
            r == (if api.image_live(self@) { api.image_at(self@).stride_bytes } else { 0 }),
    {
        api.image_stride_bytes(self.handle)
    }

    /// The device time in microseconds.
    pub fn get_device_timestamp_usec(&self, api: &Api) -> (r: u64)
        requires
            api.wf(),
        ensures
            r == (if api.image_live(self@) { api.image_at(self@).device_timestamp_usec } else { 0 }),
    {
        api.image_device_timestamp_usec(self.handle)
    }

    /// The host time in nanoseconds.
    pub fn get_system_timestamp_nsec(&self, api: &Api) -> (r: u64)
        requires
            api.wf(),
        ensures
            r == (if api.image_live(self@) { api.image_at(self@).system_timestamp_nsec } else { 0 }),
    {
        api.image_system_timestamp_nsec(self.handle)
    }

    /// The exposure time in microseconds.
    pub fn get_exposure_usec(&self, api: &Api) -> (r: u64)
        requires
            api.wf(),
        ensures
            r == (if api.image_live(self@) { api.image_at(self@).exposure_usec } else { 0 }),
    {
        api.image_exposure_usec(self.handle)
    }

    /// The white balance in kelvin (color images).
    pub fn get_white_balance(&self, api: &Api) -> (r: u32)
        requires
            api.wf(),
        ensures
            r == (if api.image_live(self@) { api.image_at(self@).white_balance } else { 0 }),
    {
        api.image_white_balance(self.handle)
    }

    /// The ISO speed (color images).
    pub fn get_iso_speed(&self, api: &Api) -> (r: u32)
        requires
            api.wf(),
        ensures
            r == (if api.image_live(self@) { api.image_at(self@).iso_speed } else { 0 }),
    {
        api.image_iso_speed(self.handle)
    }

    /// Sets the device time in microseconds. Does nothing on an empty image.
    pub fn set_device_timestamp_usec(&self, api: &mut Api, timestamp: u64)
        requires
            old(api).wf(),
        ensures
            final(api).wf(),
            final(api).same_but_images(old(api)),
            old(api).image_live(self@) ==> final(api).images@ == old(api).images@.update(
                self@ - 1,
                crate::runtime::ImageSlot { device_timestamp_usec: timestamp, ..old(api).image_at(self@) },
            ),
            !old(api).image_live(self@) ==> final(api).images == old(api).images,
    {
        api.image_set_device_timestamp_usec(self.handle, timestamp)
    }

    /// Sets the host time in nanoseconds. Does nothing on an empty image.
    pub fn set_system_timestamp_nsec(&self, api: &mut Api, timestamp: u64)
        requires
            old(api).wf(),
        ensures
            final(api).wf(),
            final(api).same_but_images(old(api)),
            old(api).image_live(self@) ==> final(api).images@ == old(api).images@.update(
                self@ - 1,
                crate::runtime::ImageSlot { system_timestamp_nsec: timestamp, ..old(api).image_at(self@) },
            ),
            !old(api).image_live(self@) ==> final(api).images == old(api).images,
    {
        api.image_set_system_timestamp_nsec(self.handle, timestamp)
    }

    /// Sets the exposure time in microseconds. Does nothing on an empty image.
    pub fn set_exposure_usec(&self, api: &mut Api, exposure: u64)
        requires
            old(api).wf(),
        ensures
            final(api).wf(),
            final(api).same_but_images(old(api)),
            old(api).image_live(self@) ==> final(api).images@ == old(api).images@.update(
                self@ - 1,
                crate::runtime::ImageSlot { exposure_usec: exposure, ..old(api).image_at(self@) },
            ),
            !old(api).image_live(self@) ==> final(api).images == old(api).images,
    {
        api.image_set_exposure_usec(self.handle, exposure)
    }

    /// Sets the white balance in kelvin. Does nothing on an empty image.
    pub fn set_white_balance(&self, api: &mut Api, white_balance: u32)
        requires
            old(api).wf(),
        ensures
            final(api).wf(),
            final(api).same_but_images(old(api)),
            old(api).image_live(self@) ==> final(api).images@ == old(api).images@.update(
                self@ - 1,
                crate::runtime::ImageSlot { white_balance: white_balance, ..old(api).image_at(self@) },
            ),
            !old(api).image_live(self@) ==> final(api).images == old(api).images,
    {
        api.image_set_white_balance(self.handle, white_balance)
    }

    /// Sets the ISO speed. Does nothing on an empty image.
    pub fn set_iso_speed(&self, api: &mut Api, iso_speed: u32)
        requires
            old(api).wf(),
        ensures
            final(api).wf(),
            final(api).same_but_images(old(api)),
            old(api).image_live(self@) ==> final(api).images@ == old(api).images@.update(
                self@ - 1,
                crate::runtime::ImageSlot { iso_speed: iso_speed, ..old(api).image_at(self@) },
            ),
            !old(api).image_live(self@) ==> final(api).images == old(api).images,
    {
        api.image_set_iso_speed(self.handle, iso_speed)
    }
}

} // verus!
