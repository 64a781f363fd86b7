//! Turning a raster into an image that can be embedded in a page: a PNG
//! stream, written as base64 text behind the prefix of a data URI.
use vstd::prelude::*;
use vstd::string::StringExecFns;

verus! {

/// The error of the PNG encoder, `png::EncodingError`. Nothing is read from
/// it.
#[verifier::external_type_specification]
#[verifier::external_body]
pub struct ExEncodingError(png::EncodingError);

/// The PNG stream that holds an image of eight-bit RGBA pixels, given its
/// dimensions and its pixel data.
pub uninterp spec fn png_stream(width: u32, height: u32, data: Seq<u8>) -> Seq<u8>;

/// The standard base64 text of a byte string, with padding.
pub uninterp spec fn base64_text(bytes: Seq<u8>) -> Seq<char>;

/// Encodes an RGBA image with `png::Encoder` and the `Writer` that its
/// `write_header` returns, through `write_image_data`, into a vector.
///
/// The stream depends on the dimensions and the pixel data alone, so it is
/// given a name. `write_header` refuses an image without columns or without
/// rows, and nothing else at this colour and depth; `write_image_data`
/// refuses only data of another length than the dimensions ask for, which the
/// precondition rules out. Every other error of the encoder is one of its
/// writer, and writing to a vector does not fail.
#[verifier::external_body]
fn encode_png(width: u32, height: u32, data: &Vec<u8>) -> (r: Result<
    Vec<u8>,
    png::EncodingError,
>)
    requires
        data@.len() == 4 * width * height,
    ensures
        r matches Ok(stream) ==> stream@ == png_stream(width, height, data@),
        width > 0 && height > 0 ==> r is Ok,
        width == 0 || height == 0 ==> r is Err,
{
    let mut stream: Vec<u8> = Vec::new();
    let mut encoder = png::Encoder::new(&mut stream, width, height);
    encoder.set_color(png::ColorType::Rgba);
    encoder.set_depth(png::BitDepth::Eight);
    let mut writer = encoder.write_header()?;
    writer.write_image_data(data)?;
    drop(writer);
    Ok(stream)
}

/// Encodes bytes with `base64::engine::general_purpose::STANDARD`, through
/// `Engine::encode`.
///
/// The text depends on the bytes alone. The encoder panics when the length of
/// the text does not fit in `usize`, which the precondition rules out.
#[verifier::external_body]
fn encode_base64(bytes: &Vec<u8>) -> (text: String)
    requires
        (bytes@.len() / 3) * 4 + 4 <= usize::MAX,
    ensures
        text@ == base64_text(bytes@),
{
    base64::Engine::encode(&base64::engine::general_purpose::STANDARD, bytes)
}

/// Why no image could be made of a raster.
#[derive(Debug, Clone, Copy, PartialEq, Eq, Structural)]
pub enum ImageError {
    /// The raster has no columns or no rows, or more of them than an image
    /// header can hold.
    Dimensions,
    /// The image is too long to be written as text.
    TooLong,
}

/// Whether a byte string of this length can be written as base64 text.
pub open spec fn fits_base64(len: nat) -> bool {
    (len / 3) * 4 + 4 <= usize::MAX
}

/// The data URI of a PNG stream.
pub open spec fn data_url_of(stream: Seq<u8>) -> Seq<char> {
    "data:image/png;base64,"@ + base64_text(stream)
}

/// Wraps a PNG stream as a data URI, unless it is too long for that.
pub fn png_data_url(stream: &Vec<u8>) -> (url: Result<String, ImageError>)
    ensures
        url matches Ok(text) ==> text@ == data_url_of(stream@),
        url is Ok <==> fits_base64(stream@.len()),
        url matches Err(e) ==> e == ImageError::TooLong,
{
    if stream.len() / 3 > (usize::MAX - 4) / 4 {
        return Err(ImageError::TooLong);
    }
    let text = encode_base64(stream);
    let mut url = String::from_str("data:image/png;base64,");
    url.append(text.as_str());
    Ok(url)
}

/// Whether an image header can hold these dimensions.
pub open spec fn drawable(width: nat, height: nat) -> bool {
    0 < width <= u32::MAX && 0 < height <= u32::MAX
}

/// What encoding this image gives.
///
/// An image that a header can hold gives the data URI of the PNG stream of
/// its pixels, unless that stream is too long to be written as text. An image
/// that no header can hold gives the error that says so.
pub open spec fn is_image_of(
    url: Result<String, ImageError>,
    width: nat,
    height: nat,
    data: Seq<u8>,
) -> bool {
    let stream = png_stream(width as u32, height as u32, data);
    if !drawable(width, height) {
        url == Err::<String, ImageError>(ImageError::Dimensions)
    } else if !fits_base64(stream.len()) {
        url == Err::<String, ImageError>(ImageError::TooLong)
    } else {
        url matches Ok(text) && text@ == data_url_of(stream)
    }
}

/// Encodes pixel data as a PNG stream and wraps it as a data URI.
pub fn image_data_url(width: usize, height: usize, data: &Vec<u8>) -> (url: Result<
    String,
    ImageError,
>)
    requires
        data@.len() == 4 * width * height,
    ensures
        is_image_of(url, width as nat, height as nat, data@),
{
    if width == 0 || height == 0 || width > 0xffff_ffff || height > 0xffff_ffff {
        return Err(ImageError::Dimensions);
    }
    match encode_png(width as u32, height as u32, data) {
        Ok(stream) => png_data_url(&stream),
        Err(_) => Err(ImageError::Dimensions),
    }
}

} // verus!
