//! Textures from encoded images.

use vstd::prelude::*;

verus! {

/// The error type of the `image` crate.
#[verifier::external_type_specification]
#[verifier::external_body]
pub struct ExImageError(image::ImageError);

/// The layout of a pixel.
#[derive(Clone, Copy, Debug, PartialEq, Eq, Structural)]
pub enum Format {
    R8,
    RGB8,
    RGBA8,
}

impl Format {
    /// The number of bytes in a pixel.
    pub open spec fn channels(self) -> int {
        match self {
            Format::R8 => 1,
            Format::RGB8 => 3,
            Format::RGBA8 => 4,
        }
    }
}

/// Why no texture could be made.
#[derive(Clone, Copy, Debug, PartialEq, Eq, Structural)]
pub enum IoError {
    /// The bytes are not an image that can be decoded.
    Decode,
    /// The image has no pixels, or not one, three or four bytes per pixel.
    UnknownPixelFormat,
}

/// The mathematical content of a [`CpuTexture`].
pub struct TextureView {
    pub data: Seq<u8>,
    pub width: int,
    pub height: int,
    pub format: Format,
}

/// A texture in main memory. The texture of a cube map holds its six faces
/// one after the other and has the width and height of one face.
#[derive(Debug)]
pub struct CpuTexture {
    pub data: Vec<u8>,
    pub width: usize,
    pub height: usize,
    pub format: Format,
}

impl View for CpuTexture {
    type V = TextureView;

    open spec fn view(&self) -> TextureView {
        TextureView {
            data: self.data@,
            width: self.width as int,
            height: self.height as int,
            format: self.format,
        }
    }
}

/// A decoded image: its bytes, row by row, and its size in pixels.
pub struct Pixels {
    pub data: Vec<u8>,
    pub width: u32,
    pub height: u32,
}

/// The pixel layout of an image of `len` bytes and `width` by `height`
/// pixels: the number of bytes per pixel, rounded down, decides.
pub open spec fn format_of(len: int, width: int, height: int) -> Option<Format> {
    let pixels = width * height;
    if pixels <= 0 {
        None
    } else if len / pixels == 1 {
        Some(Format::R8)
    } else if len / pixels == 3 {
        Some(Format::RGB8)
    } else if len / pixels == 4 {
        Some(Format::RGBA8)
    } else {
        None
    }
}

/// The texture that a decoded image makes.
pub open spec fn texture_of(data: Seq<u8>, width: u32, height: u32) -> Result<TextureView, IoError> {
    match format_of(data.len() as int, width as int, height as int) {
        Some(format) => Ok(TextureView { data, width: width as int, height: height as int, format }),
        None => Err(IoError::UnknownPixelFormat),
    }
}

/// A texture has pixels, and as many bytes for each as its format says.
pub open spec fn well_formed(t: TextureView) -> bool {
    format_of(t.data.len() as int, t.width, t.height) == Some(t.format)
}

/// The cube map of six faces: the first face with the bytes of all six, in
/// order.
pub open spec fn cube_of(
    right: TextureView,
    left: TextureView,
    top: TextureView,
    bottom: TextureView,
    front: TextureView,
    back: TextureView,
) -> TextureView {
    TextureView {
        data: right.data + left.data + top.data + bottom.data + front.data + back.data,
        ..right
    }
}

/// The width and height of the image that `image::load_from_memory` decodes
/// the bytes to, or nothing where it refuses them.
pub uninterp spec fn decoded_size(encoded: Seq<u8>) -> Option<(u32, u32)>;

/// Decodes an image with `image::load_from_memory` and takes its size and
/// its bytes out with `DynamicImage::width`, `height` and `into_bytes`. The
/// contract claims that the same bytes are always accepted or always
/// refused, and decode to an image of the same size. Nothing is claimed of
/// the pixels: images with more than eight bits per channel come in the byte
/// order of the machine.
#[verifier::external_body]
fn decode(encoded: &[u8]) -> (r: Result<Pixels, image::ImageError>)
    ensures
        match r {
            Ok(pixels) => decoded_size(encoded@) == Some((pixels.width, pixels.height)),
            Err(_) => decoded_size(encoded@) is None,
        },
{
    let img = image::load_from_memory(encoded)?;
    let width: u32 = img.width();
    let height: u32 = img.height();
    Ok(Pixels { data: img.into_bytes(), width, height })
}

/// The texture made of a decoded image, as [`texture_of`] says.
pub fn texture_from_pixels(pixels: Pixels) -> (r: Result<CpuTexture, IoError>)
    ensures
        match r {
            Ok(t) => texture_of(pixels.data@, pixels.width, pixels.height) == Ok::<
                TextureView,
                IoError,
            >(t@) && well_formed(t@),
            Err(e) => texture_of(pixels.data@, pixels.width, pixels.height) == Err::<
                TextureView,
                IoError,
            >(e),
        },
{
    assert(pixels.width * pixels.height <= 0xFFFF_FFFF * 0xFFFF_FFFF) by (nonlinear_arith)
        requires
            0 <= pixels.width <= 0xFFFF_FFFF,
            0 <= pixels.height <= 0xFFFF_FFFF,
    ;
    let count: u64 = (pixels.width as u64) * (pixels.height as u64);
    if count == 0 {
        return Err(IoError::UnknownPixelFormat);
    }
    let channels: u64 = (pixels.data.len() as u64) / count;
    let format: Format = if channels == 1 {
        Format::R8
    } else if channels == 3 {
        Format::RGB8
    } else if channels == 4 {
        Format::RGBA8
    } else {
        return Err(IoError::UnknownPixelFormat);
    };
    Ok(
        CpuTexture {
            data: pixels.data,
            width: pixels.width as usize,
            height: pixels.height as usize,
            format,
        },
    )
}

/// The cube map of six faces, as [`cube_of`] says.
pub fn cube_from_faces(
    right: CpuTexture,
    left: CpuTexture,
    top: CpuTexture,
    bottom: CpuTexture,
    front: CpuTexture,
    back: CpuTexture,
) -> (cube: CpuTexture)
    ensures
        cube@ == cube_of(right@, left@, top@, bottom@, front@, back@),
{
    let mut cube: CpuTexture = right;
    let mut left = left;
    let mut top = top;
    let mut bottom = bottom;
    let mut front = front;
    let mut back = back;
    cube.data.append(&mut left.data);
    cube.data.append(&mut top.data);
    cube.data.append(&mut bottom.data);
    cube.data.append(&mut front.data);
    cube.data.append(&mut back.data);
    cube
}

/// Makes assets out of the bytes of loaded resources.
pub struct Deserialize {}

impl Deserialize {
    /// Decodes an encoded image into a texture. Bytes that the decoder
    /// refuses fail as [`IoError::Decode`], and no others do. Which pixels
    /// the bytes decode to is the decoder's affair; whatever it hands back,
    /// the texture is the one that [`texture_from_pixels`] makes of it, and
    /// has the size that the decoder gives.
    pub fn image(encoded: &[u8]) -> (r: Result<CpuTexture, IoError>)
        ensures
            decoded_size(encoded@) is None <==> (r matches Err(e) && e == IoError::Decode),
            r matches Ok(t) ==> well_formed(t@) && decoded_size(encoded@) == Some(
                (t.width as u32, t.height as u32),
            ),
    {
        match decode(encoded) {
            Ok(pixels) => texture_from_pixels(pixels),
            Err(_) => Err(IoError::Decode),
        }
    }

    /// Decodes the six encoded faces of a cube map, in the order given, and
    /// joins them as [`cube_from_faces`] does. The first face that fails
    /// ends the call with its error; so the call fails if the decoder
    /// refuses any face, and as [`IoError::Decode`] if it refuses the first.
    pub fn cube_image(
        right: &[u8],
        left: &[u8],
        top: &[u8],
        bottom: &[u8],
        front: &[u8],
        back: &[u8],
    ) -> (r: Result<CpuTexture, IoError>)
        ensures
            decoded_size(right@) is None ==> (r matches Err(e) && e == IoError::Decode),
            r is Ok ==> decoded_size(right@) is Some && decoded_size(left@) is Some && decoded_size(
                top@,
            ) is Some && decoded_size(bottom@) is Some && decoded_size(front@) is Some
                && decoded_size(back@) is Some,
            r matches Ok(cube) ==> decoded_size(right@) == Some(
                (cube.width as u32, cube.height as u32),
            ),
            r matches Ok(cube) ==> exists|
                a: TextureView,
                b: TextureView,
                c: TextureView,
                d: TextureView,
                e: TextureView,
                f: TextureView,
            |
                #![trigger cube_of(a, b, c, d, e, f)]
                well_formed(a) && well_formed(b) && well_formed(c) && well_formed(d)
                    && well_formed(e) && well_formed(f) && cube@ == cube_of(a, b, c, d, e, f),
    {
        let right = Deserialize::image(right)?;
        let left = Deserialize::image(left)?;
        let top = Deserialize::image(top)?;
        let bottom = Deserialize::image(bottom)?;
        let front = Deserialize::image(front)?;
        let back = Deserialize::image(back)?;
        let ghost faces = (right@, left@, top@, bottom@, front@, back@);
        let cube = cube_from_faces(right, left, top, bottom, front, back);
        assert(cube@ == cube_of(faces.0, faces.1, faces.2, faces.3, faces.4, faces.5));
        Ok(cube)
    }
}

} // verus!
