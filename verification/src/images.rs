use vstd::prelude::*;

verus! {

/// The side, in pixels, of the square to which uploaded images are fitted.
pub const IMAGE_EXTENT: u64 = 640;

/// Where the image of the item `item_code` is kept on the file server.
pub open spec fn remote_image_path_spec(item_code: Seq<char>) -> Seq<char> {
    "/u02/forms/erp/images/"@ + item_code + ".jpg"@
}

/// The path of the image of `item_code` on the file server.
pub fn remote_image_path(item_code: &str) -> (r: String)
    ensures
        r@ == remote_image_path_spec(item_code@),
{
    let mut r = String::from_str("/u02/forms/erp/images/");
    r.append(item_code);
    r.append(".jpg");
    r
}

/// Where a resized image named `name` is written before it is sent.
pub open spec fn local_image_path_spec(name: Seq<char>) -> Seq<char> {
    "tmp/"@ + name + ".jpg"@
}

/// The local path of the resized image `name`.
pub fn local_image_path(name: &str) -> (r: String)
    ensures
        r@ == local_image_path_spec(name@),
{
    let mut r = String::from_str("tmp/");
    r.append(name);
    r.append(".jpg");
    r
}

/// Where an uploaded file named `name` is stored until it is sent.
pub fn upload_path(name: &str) -> (r: String)
    ensures
        r@ == "tmp/"@ + name@,
{
    let mut r = String::from_str("tmp/");
    r.append(name);
    r
}

/// The offset at which an image `extent` pixels wide (or high) is placed on
/// the square canvas so that it is centred: `(640 - extent) / 2`, negated,
/// the division truncating toward zero.
pub open spec fn centering_offset_spec(extent: int) -> int {
    if extent <= IMAGE_EXTENT {
        -((IMAGE_EXTENT - extent) / 2)
    } else {
        (extent - IMAGE_EXTENT) / 2
    }
}

/// The offset that centres an image of the given extent on the square canvas.
pub fn centering_offset(extent: u64) -> (r: i64)
    requires
        extent <= i64::MAX,
    ensures
        r == centering_offset_spec(extent as int),
{
    if extent <= IMAGE_EXTENT {
        let half: u64 = (IMAGE_EXTENT - extent) / 2;
        -(half as i64)
    } else {
        let half: u64 = (extent - IMAGE_EXTENT) / 2;
        half as i64
    }
}

/// The canvas left before an image of the given extent once it is centred.
pub open spec fn margin_before(extent: int) -> int {
    -centering_offset_spec(extent)
}

/// An image fitted within the canvas is centred: as much of the canvas is
/// left before it as after it, give or take one pixel.
pub proof fn lemma_fitted_image_is_centred(extent: int)
    requires
        0 <= extent <= IMAGE_EXTENT,
    ensures
        centering_offset_spec(extent) <= 0,
        margin_before(extent) <= IMAGE_EXTENT - extent - margin_before(extent),
        IMAGE_EXTENT - extent - margin_before(extent) <= margin_before(extent) + 1,
{
}

/// Whether an image request names a file at all; an empty name is answered 404.
pub fn image_request_named(file_name: &str) -> (r: bool)
    ensures
        r == (file_name@.len() > 0),
{
    !file_name.is_empty()
}

/// Whether an upload can be stored: the file needs a name and the item a
/// code; otherwise the upload is answered 400.
pub fn upload_acceptable(file_name: Option<&str>, item_code: &str) -> (r: bool)
    ensures
        r == (file_name is Some && item_code@.len() > 0),
{
    match file_name {
        Some(_) => !item_code.is_empty(),
        None => false,
    }
}

} // verus!
