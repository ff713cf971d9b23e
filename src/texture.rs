use vstd::prelude::*;
use crate::image::{WebImage, ImageError, check_outcome, image_ok};
use crate::uniform::{Aspect, InputUniform};

verus! {

/// Width, height and layer count of a texture.
#[derive(Clone, Copy, Debug, PartialEq, Eq, Structural)]
pub struct Extent {
    pub width: u32,
    pub height: u32,
    pub depth_or_array_layers: u32,
}

/// How pixel bytes are laid out for an upload: where they start, the stride
/// of one row and the number of rows; a stride or row count that is zero or
/// does not fit in `u32` is `None`.
#[derive(Clone, Copy, Debug, PartialEq, Eq, Structural)]
pub struct DataLayout {
    pub offset: u64,
    pub bytes_per_row: Option<u32>,
    pub rows_per_image: Option<u32>,
}

/// What the GPU side must do when a new image is taken: create a texture of
/// `size`, rebind it, and write the image's pixels with `layout`.
#[derive(Clone, Copy, Debug, PartialEq, Eq, Structural)]
pub struct TextureUpload {
    pub size: Extent,
    pub layout: DataLayout,
}

/// Pixels were asked for while no image has been submitted.
#[derive(Clone, Copy, Debug, PartialEq, Eq, Structural)]
pub struct NoImage;

/// An image as the texture manager sees it: width, height and pixel bytes.
pub type ImageModel = (u32, u32, Seq<u8>);

/// The abstract state of the texture manager: whether a new image waits to be
/// uploaded, and the image held, if any.
pub type TexModel = (bool, Option<ImageModel>);

/// The texture dimensions for the image held: its own, or 1×1 with none.
pub open spec fn dims_of(img: Option<ImageModel>) -> (u32, u32) {
    match img {
        Some(i) => (i.0, i.1),
        None => (1, 1),
    }
}

pub open spec fn extent_of(dims: (u32, u32)) -> Extent {
    Extent { width: dims.0, height: dims.1, depth_or_array_layers: 1 }
}

pub open spec fn nonzero_u32(v: int) -> Option<u32> {
    if 0 < v <= u32::MAX {
        Some(v as u32)
    } else {
        None
    }
}

/// Rows of `4 * width` bytes, `height` of them, starting at offset zero.
pub open spec fn layout_of(dims: (u32, u32)) -> DataLayout {
    DataLayout {
        offset: 0,
        bytes_per_row: nonzero_u32(4 * dims.0),
        rows_per_image: nonzero_u32(dims.1 as int),
    }
}

pub open spec fn upload_of(dims: (u32, u32)) -> TextureUpload {
    TextureUpload { size: extent_of(dims), layout: layout_of(dims) }
}

/// The state after submitting an image: an accepted image replaces the held
/// one wholesale and marks the texture dirty; a refused one changes nothing.
pub open spec fn after_submit(m: TexModel, width: u32, height: u32, data: Seq<u8>) -> TexModel {
    if image_ok(width as int, height as int, data.len() as int) {
        (true, Some((width, height, data)))
    } else {
        m
    }
}

/// The image aspect ratio after a refresh: that of the held image where it
/// was dirty, else the ratio it had.
pub open spec fn ratio_after_refresh(m: TexModel, ratio: Aspect) -> Aspect {
    if m.0 {
        Aspect { width: dims_of(m.1).0, height: dims_of(m.1).1 }
    } else {
        ratio
    }
}

/// Owns the image backing the shader's texture and defers its upload until
/// the next refresh.
pub struct TextureManager {
    updated: bool,
    img: Option<WebImage>,
}

impl TextureManager {
    pub closed spec fn model(&self) -> TexModel {
        (
            self.updated,
            match self.img {
                Some(i) => Some((i.width, i.height, i.data@)),
                None => None,
            },
        )
    }

    /// A dirty manager holds an image, and every image held is well formed.
    pub open spec fn wf(&self) -> bool {
        &&& self.model().0 ==> self.model().1 is Some
        &&& self.model().1 matches Some(i) ==> image_ok(i.0 as int, i.1 as int, i.2.len() as int)
    }

    /// A manager with no image and nothing to upload.
    pub fn new() -> (r: Self)
        ensures
            r.wf(),
            r.model() == (false, None::<ImageModel>),
    {
        TextureManager { updated: false, img: None }
    }

    /// Takes `img` as the new texture source if it is well formed and marks
    /// the texture dirty; the GPU is not touched until `refresh`.
    pub fn submit_image(&mut self, img: WebImage) -> (r: Result<(), ImageError>)
        requires
            old(self).wf(),
        ensures
            final(self).wf(),
            r == check_outcome(img.width as int, img.height as int, img.data.len() as int),
            final(self).model() == after_submit(old(self).model(), img.width, img.height, img.data@),
    {
        match img.validate() {
            Ok(()) => {
                self.img = Some(img);
                self.updated = true;
                Ok(())
            },
            Err(e) => Err(e),
        }
    }

    /// Whether an image waits to be uploaded.
    pub fn is_dirty(&self) -> (r: bool)
        ensures
            r == self.model().0,
    {
        self.updated
    }

    /// The pixel bytes of the held image, or `NoImage`.
    pub fn get_pixels(&self) -> (r: Result<&Vec<u8>, NoImage>)
        ensures
            match self.model().1 {
                Some(i) => r matches Ok(v) && v@ == i.2,
                None => r == Err::<&Vec<u8>, NoImage>(NoImage),
            },
    {
        match &self.img {
            Some(img) => Ok(&img.data),
            None => Err(NoImage),
        }
    }

    /// Width and height of the held image, 1×1 when there is none.
    pub fn get_dims(&self) -> (r: (u32, u32))
        ensures
            r == dims_of(self.model().1),
    {
        match &self.img {
            Some(img) => (img.width, img.height),
            None => (1, 1),
        }
    }

    /// The extent of the texture that holds the image.
    pub fn get_texture_size(&self) -> (r: Extent)
        ensures
            r == extent_of(dims_of(self.model().1)),
    {
        let (width, height) = self.get_dims();
        Extent { width, height, depth_or_array_layers: 1 }
    }

    /// The layout of the held image's bytes: rows of four bytes per pixel.
    pub fn image_data_layout(&self) -> (r: DataLayout)
        ensures
            r == layout_of(dims_of(self.model().1)),
    {
        let (width, height) = self.get_dims();
        let bytes_per_row = if width <= u32::MAX / 4 && width > 0 {
            Some(4 * width)
        } else {
            None
        };
        let rows_per_image = if height > 0 {
            Some(height)
        } else {
            None
        };
        DataLayout { offset: 0, bytes_per_row, rows_per_image }
    }

    /// When an image waits, returns the upload that the GPU side must make,
    /// writes the image's aspect ratio into `uniform` and clears the dirty
    /// flag; otherwise changes nothing and returns `None`.
    pub fn refresh(&mut self, uniform: &mut InputUniform) -> (r: Option<TextureUpload>)
        requires
            old(self).wf(),
        ensures
            final(self).wf(),
            final(self).model() == (false, old(self).model().1),
            old(self).model().0 ==> r == Some(upload_of(dims_of(old(self).model().1))),
            !old(self).model().0 ==> r is None,
            final(uniform).img_ratio_spec() == ratio_after_refresh(
                old(self).model(),
                old(uniform).img_ratio_spec(),
            ),
            final(uniform).effect_spec() == old(uniform).effect_spec(),
            final(uniform).fill_mode_spec() == old(uniform).fill_mode_spec(),
            final(uniform).window_ratio_spec() == old(uniform).window_ratio_spec(),
    {
        if self.updated {
            let upload = TextureUpload { size: self.get_texture_size(), layout: self.image_data_layout() };
            let (width, height) = self.get_dims();
            uniform.set_img_ratio(Aspect { width, height });
            self.updated = false;
            Some(upload)
        } else {
            None
        }
    }
}

/// Submitting an image of positive size whose buffer holds exactly four bytes
/// per pixel, then refreshing, sets the image aspect ratio to exactly the
/// image's width over its height, whatever came before.
pub proof fn lemma_submit_then_refresh_ratio(m: TexModel, ratio: Aspect, width: u32, height: u32, data: Seq<u8>)
    requires
        width > 0,
        height > 0,
        data.len() == 4 * width * height,
    ensures
        ratio_after_refresh(after_submit(m, width, height, data), ratio) == (Aspect { width, height }),
{
}

/// A buffer whose length is not four bytes per pixel is refused, and the
/// held state stays as it was.
pub proof fn lemma_mismatched_buffer_refused(m: TexModel, width: u32, height: u32, data: Seq<u8>)
    requires
        data.len() != 4 * width * height,
    ensures
        check_outcome(width as int, height as int, data.len() as int) is Err,
        after_submit(m, width, height, data) == m,
{
}

} // verus!
