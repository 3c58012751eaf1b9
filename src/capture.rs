//! Reference-counted wrapper of a native capture.
use vstd::prelude::*;
use crate::error::Error;
use crate::image::Image;
use crate::refcount::{count_of, allocated, referenced, released, NULL_HANDLE};
use crate::runtime::Api;
use crate::runtime::captures::{can_share, image_of, images_of_released, with_image, ImageKind};

verus! {

/// The image a capture hands out for kind `k`: its own, where one more
/// reference to it can be taken, else the null handle.
pub open spec fn handed_out(api: &Api, capture: usize, k: ImageKind) -> usize {
    let img = if api.capture_live(capture) { image_of(api.capture_at(capture), k) } else { NULL_HANDLE };
    if can_share(api.image_refs@, img) { img } else { NULL_HANDLE }
}

/// The image counts after the capture took `img` as its image of kind `k`
/// and the caller's wrapper of `img` was released.
pub open spec fn image_refs_after_set(api: &Api, capture: usize, k: ImageKind, img: usize) -> Seq<u64> {
    if api.capture_live(capture) {
        let taken = if can_share(api.image_refs@, img) { img } else { NULL_HANDLE };
        let before = image_of(api.capture_at(capture), k);
        released(released(referenced(api.image_refs@, taken), before), img)
    } else {
        released(api.image_refs@, img)
    }
}

/// The capture table after the capture took `img` as its image of kind `k`.
pub open spec fn captures_after_set(api: &Api, capture: usize, k: ImageKind, img: usize) -> Seq<crate::runtime::CaptureSlot> {
    if api.capture_live(capture) {
        let taken = if can_share(api.image_refs@, img) { img } else { NULL_HANDLE };
        api.captures@.update(capture - 1, with_image(api.capture_at(capture), k, taken))
    } else {
        api.captures@
    }
}

/// One synchronized bundle of color, depth and IR images, shared by
/// reference counting: every `Capture` value owns one reference to its
/// native capture, taken when it was made and given back by `release`.
pub struct Capture {
    handle: usize,
}

impl View for Capture {
    type V = usize;

    /// The native handle this wrapper owns; the null handle once released.
    closed spec fn view(&self) -> usize {
        self.handle
    }
}

impl Capture {
    /// The native handle this wrapper owns; the null handle once released.
    pub fn handle(&self) -> (r: usize)
        ensures
            r == self@,
    {
        self.handle
    }
    /// Wraps a handle whose reference the caller hands over.
    pub(crate) fn from_handle(handle: usize) -> (r: Capture)
        ensures
            r@ == handle,
    {
        Capture { handle }
    }

    /// Creates an empty capture.
    pub fn new(api: &mut Api) -> (r: Result<Capture, Error>)
        requires
            old(api).wf(),
        ensures
            final(api).wf(),
            final(api).same_but_images_and_captures(old(api)),
            final(api).image_refs == old(api).image_refs,
            final(api).images == old(api).images,
            old(api).captures.len() < usize::MAX ==> {
                &&& r matches Ok(c) && c@ == old(api).captures.len() + 1
                &&& final(api).capture_refs@ == allocated(old(api).capture_refs@)
                &&& final(api).captures@ == old(api).captures@.push(
                    crate::runtime::CaptureSlot { color: NULL_HANDLE, depth: NULL_HANDLE, ir: NULL_HANDLE },
                )
            },
            old(api).captures.len() == usize::MAX ==> {
                &&& r matches Err(e) && e == Error::Failed
                &&& final(api).capture_refs == old(api).capture_refs
                &&& final(api).captures == old(api).captures
            },
    {
        let (status, handle) = api.capture_create();
        if status.is_success() {
            Ok(Capture { handle })
        } else {
            Err(Error::from_status(status))
        }
    }

    /// A second owner of the same native capture: one more reference is
    /// taken.
    pub fn share(&self, api: &mut Api) -> (r: Capture)
        requires
            old(api).wf(),
        ensures
            final(api).wf(),
            r@ == self@,
            final(api).capture_refs@ == referenced(old(api).capture_refs@, self@),
            1 <= count_of(old(api).capture_refs@, self@) < u64::MAX ==> count_of(final(api).capture_refs@, self@)
                == count_of(old(api).capture_refs@, self@) + 1,
            forall|g: usize| g != self@ ==> #[trigger] count_of(final(api).capture_refs@, g) == count_of(old(api).capture_refs@, g),
            final(api).same_but_images_and_captures(old(api)),
            final(api).captures == old(api).captures,
            final(api).image_refs == old(api).image_refs,
            final(api).images == old(api).images,
    {
        api.capture_reference(self.handle);
        Capture { handle: self.handle }
    }

    /// Gives this owner's reference back, once: the wrapper then holds the
    /// null handle, so that a second release does nothing. The last owner's
    /// release destroys the capture and its hold on its images.
    pub fn release(&mut self, api: &mut Api)
        requires
            old(api).wf(),
        ensures
            final(api).wf(),
            final(self)@ == NULL_HANDLE,
            final(api).same_but_images_and_captures(old(api)),
            final(api).capture_refs@ == released(old(api).capture_refs@, old(self)@),
            count_of(old(api).capture_refs@, old(self)@) >= 1 ==> count_of(final(api).capture_refs@, old(self)@)
                == count_of(old(api).capture_refs@, old(self)@) - 1,
            forall|g: usize| g != old(self)@ ==> #[trigger] count_of(final(api).capture_refs@, g) == count_of(old(api).capture_refs@, g),
            final(api).captures == old(api).captures,
            final(api).images == old(api).images,
            crate::refcount::is_last_owner(old(api).capture_refs@, old(self)@)
                ==> final(api).image_refs@ == images_of_released(old(api).image_refs@, old(api).capture_at(old(self)@)),
            !crate::refcount::is_last_owner(old(api).capture_refs@, old(self)@)
                ==> final(api).image_refs == old(api).image_refs,
    {
        api.capture_release(self.handle);
        self.handle = NULL_HANDLE;
    }

    /// The color image of the capture, with its own reference; `None`
    /// where the capture has none (no wrapper is made around the null
    /// handle).
    pub fn get_color_image(&self, api: &mut Api) -> (r: Option<Image>)
        requires
            old(api).wf(),
        ensures
            final(api).wf(),
            r is None <==> handed_out(old(api), self@, ImageKind::Color) == NULL_HANDLE,
            r matches Some(i) ==> i@ == handed_out(old(api), self@, ImageKind::Color),
            final(api).image_refs@ == referenced(old(api).image_refs@, handed_out(old(api), self@, ImageKind::Color)),
            final(api).same_but_images_and_captures(old(api)),
            final(api).capture_refs == old(api).capture_refs,
            final(api).captures == old(api).captures,
            final(api).images == old(api).images,
    {
        let h = api.capture_get_image(self.handle, ImageKind::Color);
        if h == NULL_HANDLE {
            None
        } else {
            Some(Image::from_handle(h))
        }
    }

    /// Puts `color_image` into the capture as its color image. The capture
    /// takes its own reference to it and lets go of the image it held; the
    /// wrapper passed in is released.
    pub fn set_color_image(&mut self, api: &mut Api, color_image: Image)
        requires
            old(api).wf(),
        ensures
            *final(self) == *old(self),
            final(api).wf(),
            final(api).same_but_images_and_captures(old(api)),
            final(api).capture_refs == old(api).capture_refs,
            final(api).images == old(api).images,
            final(api).image_refs@ == image_refs_after_set(old(api), old(self)@, ImageKind::Color, color_image@),
            final(api).captures@ == captures_after_set(old(api), old(self)@, ImageKind::Color, color_image@),
    {
        api.capture_set_image(self.handle, ImageKind::Color, color_image.handle());
        let mut handed = color_image;
        handed.release(api);
    }

    /// The depth image of the capture, with its own reference; `None`
    /// where the capture has none (no wrapper is made around the null
    /// handle).
    pub fn get_depth_image(&self, api: &mut Api) -> (r: Option<Image>)
        requires
            old(api).wf(),
        ensures
            final(api).wf(),
            r is None <==> handed_out(old(api), self@, ImageKind::Depth) == NULL_HANDLE,
            r matches Some(i) ==> i@ == handed_out(old(api), self@, ImageKind::Depth),
            final(api).image_refs@ == referenced(old(api).image_refs@, handed_out(old(api), self@, ImageKind::Depth)),
            final(api).same_but_images_and_captures(old(api)),
            final(api).capture_refs == old(api).capture_refs,
            final(api).captures == old(api).captures,
            final(api).images == old(api).images,
    {
        let h = api.capture_get_image(self.handle, ImageKind::Depth);
        if h == NULL_HANDLE {
            None
        } else {
            Some(Image::from_handle(h))
        }
    }

    /// Puts `depth_image` into the capture as its depth image. The capture
    /// takes its own reference to it and lets go of the image it held; the
    /// wrapper passed in is released.
    pub fn set_depth_image(&mut self, api: &mut Api, depth_image: Image)
        requires
            old(api).wf(),
        ensures
            *final(self) == *old(self),
            final(api).wf(),
            final(api).same_but_images_and_captures(old(api)),
            final(api).capture_refs == old(api).capture_refs,
            final(api).images == old(api).images,
            final(api).image_refs@ == image_refs_after_set(old(api), old(self)@, ImageKind::Depth, depth_image@),
            final(api).captures@ == captures_after_set(old(api), old(self)@, ImageKind::Depth, depth_image@),
    {
        api.capture_set_image(self.handle, ImageKind::Depth, depth_image.handle());
        let mut handed = depth_image;
        handed.release(api);
    }

    /// The IR image of the capture, with its own reference; `None`
    /// where the capture has none (no wrapper is made around the null
    /// handle).
    pub fn get_ir_image(&self, api: &mut Api) -> (r: Option<Image>)
        requires
            old(api).wf(),
        ensures
            final(api).wf(),
            r is None <==> handed_out(old(api), self@, ImageKind::Ir) == NULL_HANDLE,
            r matches Some(i) ==> i@ == handed_out(old(api), self@, ImageKind::Ir),
            final(api).image_refs@ == referenced(old(api).image_refs@, handed_out(old(api), self@, ImageKind::Ir)),
            final(api).same_but_images_and_captures(old(api)),
            final(api).capture_refs == old(api).capture_refs,
            final(api).captures == old(api).captures,
            final(api).images == old(api).images,
    {
        let h = api.capture_get_image(self.handle, ImageKind::Ir);
        if h == NULL_HANDLE {
            None
        } else {
            Some(Image::from_handle(h))
        }
    }

    /// Puts `ir_image` into the capture as its IR image. The capture
    /// takes its own reference to it and lets go of the image it held; the
    /// wrapper passed in is released.
    pub fn set_ir_image(&mut self, api: &mut Api, ir_image: Image)
        requires
            old(api).wf(),
        ensures
            *final(self) == *old(self),
            final(api).wf(),
            final(api).same_but_images_and_captures(old(api)),
            final(api).capture_refs == old(api).capture_refs,
            final(api).images == old(api).images,
            final(api).image_refs@ == image_refs_after_set(old(api), old(self)@, ImageKind::Ir, ir_image@),
            final(api).captures@ == captures_after_set(old(api), old(self)@, ImageKind::Ir, ir_image@),
    {
        api.capture_set_image(self.handle, ImageKind::Ir, ir_image.handle());
        let mut handed = ir_image;
        handed.release(api);
    }
}

} // verus!
