//! Inline images for terminals that take them: base64 text wrapped in the
//! escape sequences of the inline-image protocol.

use vstd::prelude::*;
use vstd::string::*;
use crate::text::{text, push_all};

verus! {

/// The standard base64 encoding, with padding, of a byte sequence.
pub uninterp spec fn base64_standard(bytes: Seq<u8>) -> Seq<u8>;

/// Calls `Engine::encode` of the base64 crate on its `STANDARD` engine. The
/// contract names the result: the encoding is a function of the input bytes
/// alone. The crate's function panics where the encoded length does not fit
/// the machine word, which an input of at most half the word's range rules
/// out.
#[verifier::external_body]
fn base64_encode(bytes: &[u8]) -> (out: Vec<u8>)
    requires
        bytes@.len() <= usize::MAX / 2,
    ensures
        out@ == base64_standard(bytes@),
{
    base64::Engine::encode(&base64::prelude::BASE64_STANDARD, bytes).into_bytes()
}

/// Whether a byte sequence is small enough to be encoded.
pub open spec fn encodable(bytes: Seq<u8>) -> bool {
    bytes.len() <= usize::MAX / 2
}

/// Encodes bytes as base64 text; `None` for a sequence that is too large
/// to encode.
pub fn encode_base64(bytes: &[u8]) -> (out: Option<Vec<u8>>)
    ensures
        match out {
            Some(encoded) => encodable(bytes@) && encoded@ == base64_standard(bytes@),
            None => !encodable(bytes@),
        },
{
    if bytes.len() <= usize::MAX / 2 {
        Some(base64_encode(bytes))
    } else {
        None
    }
}

/// Encodes an image's bytes as base64 text; `None` for an image that is too
/// large to encode.
pub fn get_iterm_image_encoding(image: &[u8]) -> (out: Option<Vec<u8>>)
    ensures
        match out {
            Some(encoded) => encodable(image@) && encoded@ == base64_standard(image@),
            None => !encodable(image@),
        },
{
    encode_base64(image)
}

/// A decoded image of the image crate: a buffer of pixels with its
/// dimensions and its kind of pixel. The library carries it from the
/// decoder to the encoder.
#[verifier::external_type_specification]
#[verifier::external_body]
pub struct ExDynamicImage(image::DynamicImage);

/// What an image holds: its samples, channel by channel within a pixel,
/// pixel by pixel within a row, row by row; a sample that is a float by
/// its bits.
pub uninterp spec fn image_samples(image: image::DynamicImage) -> Seq<u32>;

/// How an image is laid out: its width, its height, the number of channels
/// of a pixel and the number of bits of a pixel.
pub uninterp spec fn image_layout(image: image::DynamicImage) -> (u32, u32, u8, u16);

/// What `image::load_from_memory` makes of a byte sequence: the layout and
/// the samples of the decoded image, or `None` where it gives an error.
pub uninterp spec fn decoded_image(bytes: Seq<u8>) -> Option<((u32, u32, u8, u16), Seq<u32>)>;

/// What `DynamicImage::write_to` writes in the PNG format for an image of
/// the given layout and samples, or `None` where it gives an error.
pub uninterp spec fn png_encoding(layout: (u32, u32, u8, u16), samples: Seq<u32>) -> Option<
    Seq<u8>,
>;

/// Calls `image::load_from_memory`, which guesses the format of the bytes
/// and decodes them. The contract names the result: whether the bytes
/// decode, and to which layout and samples, is a function of the bytes
/// alone.
#[verifier::external_body]
fn load_image(bytes: &[u8]) -> (out: Option<image::DynamicImage>)
    ensures
        match out {
            Some(image) => decoded_image(bytes@) == Some((image_layout(image), image_samples(image))),
            None => decoded_image(bytes@) is None,
        },
{
    match image::load_from_memory(bytes) {
        Ok(decoded) => Some(decoded),
        Err(_) => None,
    }
}

/// Calls `DynamicImage::write_to` of the image crate with the PNG format
/// and a buffer in memory as the writer. The contract names the result:
/// the crate hands the encoder the image's samples, dimensions and kind of
/// pixel and nothing else, so what is written is a function of these alone.
#[verifier::external_body]
fn write_png(decoded: &image::DynamicImage) -> (out: Option<Vec<u8>>)
    ensures
        match out {
            Some(png) => png_encoding(image_layout(*decoded), image_samples(*decoded)) == Some(png@),
            None => png_encoding(image_layout(*decoded), image_samples(*decoded)) is None,
        },
{
    let mut buffer: Vec<u8> = Vec::new();
    match decoded.write_to(&mut std::io::Cursor::new(&mut buffer), image::ImageOutputFormat::Png) {
        Ok(()) => Some(buffer),
        Err(_) => None,
    }
}

/// The PNG form of an image given by its bytes: the bytes are decoded, and
/// the decoded image is encoded as PNG. `None` where the bytes do not
/// decode or the decoded image does not encode.
pub open spec fn reencoded(bytes: Seq<u8>) -> Option<Seq<u8>> {
    match decoded_image(bytes) {
        Some((layout, samples)) => png_encoding(layout, samples),
        None => None,
    }
}

/// Decodes an image and encodes it anew as PNG; `None` where the bytes are
/// no image that can be decoded and encoded.
pub fn reencode_png(bytes: &[u8]) -> (out: Option<Vec<u8>>)
    ensures
        match out {
            Some(png) => reencoded(bytes@) == Some(png@),
            None => reencoded(bytes@) is None,
        },
{
    match load_image(bytes) {
        Some(decoded) => write_png(&decoded),
        None => None,
    }
}

/// The base64 text of the PNG form of an image given by its bytes; `None`
/// where the image has no PNG form or that form is too large to encode.
pub open spec fn encoded_image(fetched: Seq<u8>) -> Option<Seq<u8>> {
    match reencoded(fetched) {
        Some(png) => if encodable(png) {
            Some(base64_standard(png))
        } else {
            None
        },
        None => None,
    }
}

/// An image as it was fetched, as the base64 text of its PNG form; `None`
/// where it cannot be decoded, encoded anew, or is too large.
pub fn get_encoded_image(fetched: &[u8]) -> (out: Option<Vec<u8>>)
    ensures
        match out {
            Some(encoded) => encoded_image(fetched@) == Some(encoded@),
            None => encoded_image(fetched@) is None,
        },
{
    match reencode_png(fetched) {
        Some(png) => encode_base64(png.as_slice()),
        None => None,
    }
}

/// What opens an inline emote image; inside a terminal multiplexer the
/// sequence is wrapped so that it passes through.
pub open spec fn emote_prefix(tmux: bool) -> Seq<u8> {
    if tmux {
        "\x1bPtmux;\x1b\x1b]".spec_bytes()
    } else {
        "\x1b]".spec_bytes()
    }
}

/// What closes an inline emote image.
pub open spec fn emote_suffix(tmux: bool) -> Seq<u8> {
    if tmux {
        "\x07\x1b\\.".spec_bytes()
    } else {
        "\x07".spec_bytes()
    }
}

/// The inline image of an emote, from its base64 text.
pub open spec fn inline_emote(base64: Seq<u8>, tmux: bool) -> Seq<u8> {
    emote_prefix(tmux)
        + "1337;File=inline=1;height=20px;width=20px;preserveAspectRatio=1:".spec_bytes()
        + base64 + emote_suffix(tmux)
}

/// The inline image of a badge, from its base64 text.
pub open spec fn inline_badge(base64: Seq<u8>) -> Seq<u8> {
    "\x1b]1337;File=inline=1;height=20px;preserveAspectRatio=1:".spec_bytes() + base64
        + "\x07".spec_bytes()
}

/// Opens an inline emote image.
pub fn get_emote_prefix(tmux: bool) -> (out: Vec<u8>)
    ensures
        out@ == emote_prefix(tmux),
{
    if tmux {
        text("\x1bPtmux;\x1b\x1b]")
    } else {
        text("\x1b]")
    }
}

/// Closes an inline emote image.
pub fn get_emote_suffix(tmux: bool) -> (out: Vec<u8>)
    ensures
        out@ == emote_suffix(tmux),
{
    if tmux {
        text("\x07\x1b\\.")
    } else {
        text("\x07")
    }
}

/// Wraps an emote's base64 text into an inline image.
pub fn get_emote_image(base64: &[u8], tmux: bool) -> (out: Vec<u8>)
    ensures
        out@ == inline_emote(base64@, tmux),
{
    let mut out = get_emote_prefix(tmux);
    push_all(&mut out, "1337;File=inline=1;height=20px;width=20px;preserveAspectRatio=1:".as_bytes());
    push_all(&mut out, base64);
    push_all(&mut out, get_emote_suffix(tmux).as_slice());
    out
}

/// Wraps a badge's base64 text into an inline image.
pub fn get_iterm_encoded_image(base64: &[u8]) -> (out: Vec<u8>)
    ensures
        out@ == inline_badge(base64@),
{
    let mut out = text("\x1b]1337;File=inline=1;height=20px;preserveAspectRatio=1:");
    push_all(&mut out, base64);
    push_all(&mut out, "\x07".as_bytes());
    out
}

} // verus!
