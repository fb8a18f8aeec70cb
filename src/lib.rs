//! Clipboard access for a host application: a codec between raw RGBA pixels and
//! base64 text, and the decision logic of a clipboard change monitor.

use vstd::prelude::*;

pub mod codec;
pub mod monitor;

pub use codec::RawImage;
pub use monitor::{ClipboardMonitor, Detection, Flow, Notification, Reaction};

use codec::{decode_spec, encode_binary_spec, encode_spec};

verus! {

#[verifier::external_type_specification]
#[verifier::external_body]
pub struct ExImageError(image::ImageError);

#[verifier::external_type_specification]
#[verifier::external_body]
pub struct ExDecodeError(base64::DecodeError);

/// Why an image could not be converted.
#[derive(Debug)]
pub enum Error {
    /// The pixel buffer does not hold `width * height` RGBA pixels.
    DimensionMismatch { width: u32, height: u32, len: usize },
    /// The PNG encoder refused the image.
    Encode(image::ImageError),
    /// The text is not unpadded standard base64.
    Base64(base64::DecodeError),
    /// The bytes are not an image in a format that can be read.
    Decode(image::ImageError),
}

/// The object through which the host reaches the clipboard operations; it holds
/// the monitor's flags.
///
/// Reading and writing the OS clipboard happen around it: the image commands
/// take the image that was read, or return the image to write.
pub struct ClipboardManager {
    pub monitor: ClipboardMonitor,
}

impl Default for ClipboardManager {
    fn default() -> (r: ClipboardManager)
        ensures
            !r.monitor.running,
            !r.monitor.terminate_requested,
    {
        ClipboardManager { monitor: ClipboardMonitor::new() }
    }
}

impl ClipboardManager {
    /// A manager whose monitor has not started.
    pub fn new() -> (r: ClipboardManager)
        ensures
            !r.monitor.running,
            !r.monitor.terminate_requested,
    {
        ClipboardManager { monitor: ClipboardMonitor::new() }
    }

    /// The base64 text of the clipboard image `image`, as PNG.
    ///
    /// Fails with `DimensionMismatch` exactly when the pixel buffer does not
    /// match the dimensions, and otherwise with `Encode` exactly when the encoder
    /// refuses the image.
    pub fn read_image(&self, image: &RawImage) -> (r: Result<String, Error>)
        ensures
            !image.is_consistent() <==> r matches Err(Error::DimensionMismatch { .. }),
            r is Ok <==> encode_spec(image.width, image.height, image.pixels@) is Some,
            r matches Ok(s) ==> encode_spec(image.width, image.height, image.pixels@) == Some(s@),
            r matches Err(e) ==> (e is DimensionMismatch || e is Encode),
    {
        codec::encode(image)
    }

    /// The PNG bytes of the clipboard image `image`.
    ///
    /// Fails as `read_image` does.
    pub fn read_image_binary(&self, image: &RawImage) -> (r: Result<Vec<u8>, Error>)
        ensures
            !image.is_consistent() <==> r matches Err(Error::DimensionMismatch { .. }),
            r is Ok <==> encode_binary_spec(image.width, image.height, image.pixels@) is Some,
            r matches Ok(b) ==> encode_binary_spec(image.width, image.height, image.pixels@)
                == Some(b@),
            r matches Err(e) ==> (e is DimensionMismatch || e is Encode),
    {
        codec::encode_binary(image)
    }

    /// The image to put on the clipboard for the base64 text `base64_image`.
    ///
    /// Fails with `Base64` when the text is not unpadded standard base64, and
    /// with `Decode` when its bytes are not a readable image; then nothing is
    /// to be written.
    pub fn write_image(&self, base64_image: String) -> (r: Result<RawImage, Error>)
        ensures
            codec::base64_decoded(base64_image@) is None <==> r matches Err(Error::Base64(_)),
            r is Ok <==> decode_spec(base64_image@) is Some,
            r matches Ok(img) ==> decode_spec(base64_image@) == Some(img.view_parts())
                && img.is_consistent(),
            r matches Err(e) ==> (e is Base64 || e is Decode),
    {
        codec::decode(base64_image.as_str())
    }
}

} // verus!
