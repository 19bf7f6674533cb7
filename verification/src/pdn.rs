//! Read-only Paint.NET `.pdn` project import.
//!
//! The compatibility host reads a `.pdn` file and replies on its standard
//! output with a frame: four bytes holding the length of a JSON header
//! (little-endian), the header itself, then `pixel_length` bytes of RGBA
//! pixels, one `width * height * 4` block per layer, bottom layer first.
//!
//! This module decides everything about that reply: whether the announced
//! header length is acceptable, whether the header reports success, and how
//! the pixel payload is cut into the layers of the imported canvas.

use vstd::prelude::*;
use crate::text::str_eq;

verus! {

/// The largest JSON header the reader may announce: 16 MiB.
pub const MAX_HEADER: usize = 16777216;

/// The largest number of layers an imported project may hold.
pub const MAX_LAYERS: usize = 256;

/// How a layer is composited onto the layers below it.
#[derive(Clone, Copy, Debug, PartialEq, Eq, Structural)]
pub enum BlendMode {
    Normal,
    Multiply,
    Additive,
    ColorBurn,
    ColorDodge,
    Reflect,
    Glow,
    Overlay,
    Difference,
    Negation,
    Lighten,
    Darken,
    Screen,
    Xor,
}

/// The blend mode that a Paint.NET blend-mode name stands for; a name that
/// is not one of Paint.NET's (a future mode, say) falls back to `Normal`.
pub open spec fn blend_mode_named(name: Seq<char>) -> BlendMode {
    if name == "Multiply"@ {
        BlendMode::Multiply
    } else if name == "Additive"@ {
        BlendMode::Additive
    } else if name == "ColorBurn"@ {
        BlendMode::ColorBurn
    } else if name == "ColorDodge"@ {
        BlendMode::ColorDodge
    } else if name == "Reflect"@ {
        BlendMode::Reflect
    } else if name == "Glow"@ {
        BlendMode::Glow
    } else if name == "Overlay"@ {
        BlendMode::Overlay
    } else if name == "Difference"@ {
        BlendMode::Difference
    } else if name == "Negation"@ {
        BlendMode::Negation
    } else if name == "Lighten"@ {
        BlendMode::Lighten
    } else if name == "Darken"@ {
        BlendMode::Darken
    } else if name == "Screen"@ {
        BlendMode::Screen
    } else if name == "Xor"@ {
        BlendMode::Xor
    } else {
        BlendMode::Normal
    }
}

/// Maps a Paint.NET blend-mode name to the editor's blend mode.
pub fn blend_mode(name: &str) -> (r: BlendMode)
    ensures
        r == blend_mode_named(name@),
{
    if str_eq(name, "Multiply") {
        BlendMode::Multiply
    } else if str_eq(name, "Additive") {
        BlendMode::Additive
    } else if str_eq(name, "ColorBurn") {
        BlendMode::ColorBurn
    } else if str_eq(name, "ColorDodge") {
        BlendMode::ColorDodge
    } else if str_eq(name, "Reflect") {
        BlendMode::Reflect
    } else if str_eq(name, "Glow") {
        BlendMode::Glow
    } else if str_eq(name, "Overlay") {
        BlendMode::Overlay
    } else if str_eq(name, "Difference") {
        BlendMode::Difference
    } else if str_eq(name, "Negation") {
        BlendMode::Negation
    } else if str_eq(name, "Lighten") {
        BlendMode::Lighten
    } else if str_eq(name, "Darken") {
        BlendMode::Darken
    } else if str_eq(name, "Screen") {
        BlendMode::Screen
    } else if str_eq(name, "Xor") {
        BlendMode::Xor
    } else {
        BlendMode::Normal
    }
}

/// The unsigned integer that four bytes encode, least significant first.
pub open spec fn le_u32(b: Seq<u8>) -> int
    recommends
        b.len() == 4,
{
    b[0] + 256 * b[1] + 65536 * b[2] + 16777216 * b[3]
}

/// Reads the header length that opens the reader's reply. The length must
/// be positive and at most [`MAX_HEADER`].
pub fn decode_header_length(prefix: [u8; 4]) -> (r: Result<usize, String>)
    ensures
        r is Ok <==> 1 <= le_u32(prefix@) <= MAX_HEADER,
        r matches Ok(n) ==> n == le_u32(prefix@),
        r matches Err(e) ==> e@ == "PDN reader returned an invalid header"@,
{
    let value: u32 = prefix[0] as u32 + (prefix[1] as u32) * 256 + (prefix[2] as u32) * 65536 + (
    prefix[3] as u32) * 16777216;
    let length: usize = value as usize;
    if length == 0 || length > MAX_HEADER {
        return Err("PDN reader returned an invalid header".to_owned());
    }
    Ok(length)
}

/// One layer's metadata as the reader reports it.
pub struct PdnLayer {
    pub name: String,
    pub visible: bool,
    /// Opacity in 1/255 steps: 255 is fully opaque.
    pub opacity: u8,
    /// Paint.NET's name of the layer's blend mode.
    pub blend_mode: String,
}

/// The reader's JSON header.
pub struct PdnResponse {
    pub ok: bool,
    pub error: Option<String>,
    pub width: u32,
    pub height: u32,
    pub layers: Vec<PdnLayer>,
    /// How many pixel bytes follow the header.
    pub pixel_length: usize,
}

/// A header that reports success: what the import still needs.
pub struct PdnHeader {
    pub width: u32,
    pub height: u32,
    pub layers: Vec<PdnLayer>,
    pub pixel_length: usize,
}

/// The message of a header that reports failure: the reader's own error,
/// or a generic one where it gave none.
pub open spec fn failure_message(error: Option<String>) -> Seq<char> {
    match error {
        Some(e) => e@,
        None => "PDN import failed"@,
    }
}

/// Accepts a header that reports success, and turns one that reports
/// failure into its error message.
pub fn accept_header(response: PdnResponse) -> (r: Result<PdnHeader, String>)
    ensures
        r is Ok <==> response.ok,
        r matches Ok(h) ==> {
            &&& h.width == response.width
            &&& h.height == response.height
            &&& h.layers == response.layers
            &&& h.pixel_length == response.pixel_length
        },
        r matches Err(e) ==> e@ == failure_message(response.error),
{
    if !response.ok {
        return match response.error {
            Some(e) => Err(e),
            None => Err("PDN import failed".to_owned()),
        };
    }
    Ok(
        PdnHeader {
            width: response.width,
            height: response.height,
            layers: response.layers,
            pixel_length: response.pixel_length,
        },
    )
}

/// A complete reply: the header's metadata and all pixel bytes.
pub struct DecodedResponse {
    pub width: u32,
    pub height: u32,
    pub layers: Vec<PdnLayer>,
    pub pixels: Vec<u8>,
}

/// One layer of an imported canvas.
pub struct Layer {
    pub name: String,
    pub visible: bool,
    /// Opacity in 1/255 steps: 255 is fully opaque.
    pub opacity: u8,
    pub blend_mode: BlendMode,
    /// RGBA bytes, row by row.
    pub pixels: Vec<u8>,
}

/// An imported canvas.
pub struct CanvasState {
    pub width: u32,
    pub height: u32,
    /// Bottom layer first.
    pub layers: Vec<Layer>,
    pub active_layer_index: usize,
}

/// The number of RGBA bytes of one layer.
pub open spec fn layer_bytes(width: u32, height: u32) -> int {
    width * height * 4
}

/// Why a reply cannot become a canvas, checked in this order; `None` when
/// it can. `open_dimensions` is the editor's verdict on opening an image of
/// the reply's width and height.
pub open spec fn assemble_error(d: DecodedResponse, open_dimensions: Result<(), String>) -> Option<
    Seq<char>,
> {
    let per: int = layer_bytes(d.width, d.height);
    let count: nat = d.layers@.len();
    if per > usize::MAX {
        Some("PDN dimensions overflow"@)
    } else if open_dimensions is Err {
        Some(open_dimensions->Err_0@)
    } else if count > MAX_LAYERS {
        Some("PDN project contains more than 256 layers"@)
    } else if per * count > usize::MAX {
        Some("PDN layer data size overflow"@)
    } else if d.pixels@.len() != per * count {
        Some("PDN reader returned an invalid pixel payload"@)
    } else if count > 0 && 4 * d.width > usize::MAX {
        Some("Invalid PDN layer image"@)
    } else if count == 0 {
        Some("PDN project contains no layers"@)
    } else {
        None
    }
}

/// The payload bytes of the layer at `index`.
pub open spec fn layer_slice(d: DecodedResponse, index: int) -> Seq<u8> {
    let per: int = layer_bytes(d.width, d.height);
    d.pixels@.subrange(index * per, (index + 1) * per)
}

/// `layer` is what the reader's `meta` and pixel bytes `pixels` describe.
pub open spec fn layer_matches(meta: PdnLayer, pixels: Seq<u8>, layer: Layer) -> bool {
    &&& layer.name@ == meta.name@
    &&& layer.visible == meta.visible
    &&& layer.opacity == meta.opacity
    &&& layer.blend_mode == blend_mode_named(meta.blend_mode@)
    &&& layer.pixels@ == pixels
}

/// `c` is the canvas that reply `d` describes: its size, one layer per
/// reported layer in the same order, each with its own slice of the payload,
/// and the top layer active.
pub open spec fn canvas_from(d: DecodedResponse, c: CanvasState) -> bool {
    &&& c.width == d.width
    &&& c.height == d.height
    &&& c.layers@.len() == d.layers@.len()
    &&& c.active_layer_index == c.layers@.len() - 1
    &&& forall|i: int|
        0 <= i < c.layers@.len() ==> layer_matches(
            d.layers@[i],
            layer_slice(d, i),
            #[trigger] c.layers@[i],
        )
}

/// Wraps `image::RgbaImage::from_raw` (and `ImageBuffer::into_raw` to hand the
/// bytes back): the image is built when the buffer holds at least
/// `4 * width * height` bytes, that product computed in `usize` without
/// overflow, and it keeps the buffer unchanged.
#[verifier::external_body]
fn rgba_image_from_raw(width: u32, height: u32, raw: Vec<u8>) -> (r: Option<Vec<u8>>)
    ensures
        r is Some <==> {
            &&& 4 * width <= usize::MAX
            &&& 4 * width * height <= usize::MAX
            &&& 4 * width * height <= raw@.len()
        },
        r matches Some(buf) ==> buf@ == raw@,
{
    match image::RgbaImage::from_raw(width, height, raw) {
        Some(img) => Some(img.into_raw()),
        None => None,
    }
}

/// Builds the imported canvas from a complete reply: one layer per reported
/// layer, cut in order from the pixel payload, with the top layer active.
/// `open_dimensions` is the editor's check of whether an image of the
/// reply's width and height may be opened; its error is the import's.
pub fn assemble_canvas(decoded: DecodedResponse, open_dimensions: Result<(), String>) -> (r: Result<
    CanvasState,
    String,
>)
    ensures
        r is Err <==> assemble_error(decoded, open_dimensions) is Some,
        r matches Err(e) ==> assemble_error(decoded, open_dimensions) == Some(e@),
        r matches Ok(c) ==> canvas_from(decoded, c),
        r matches Ok(c) ==> {
            &&& c.layers@.len() == decoded.layers@.len()
            &&& forall|i: int|
                0 <= i < c.layers@.len() ==> {
                    &&& (#[trigger] c.layers@[i]).visible == decoded.layers@[i].visible
                    &&& c.layers@[i].name@ == decoded.layers@[i].name@
                    &&& c.layers@[i].opacity == decoded.layers@[i].opacity
                }
        },
{
    let w: usize = decoded.width as usize;
    let h: usize = decoded.height as usize;
    let per: usize = match w.checked_mul(h) {
        Some(area) => match area.checked_mul(4) {
            Some(p) => p,
            None => {
                return Err("PDN dimensions overflow".to_owned());
            },
        },
        None => {
            assert(w * h * 4 > usize::MAX);
            return Err("PDN dimensions overflow".to_owned());
        },
    };
    assert(per == layer_bytes(decoded.width, decoded.height));
    if let Err(e) = open_dimensions {
        return Err(e);
    }
    let count: usize = decoded.layers.len();
    if count > MAX_LAYERS {
        return Err("PDN project contains more than 256 layers".to_owned());
    }
    let total: usize = match per.checked_mul(count) {
        Some(t) => t,
        None => {
            return Err("PDN layer data size overflow".to_owned());
        },
    };
    if decoded.pixels.len() != total {
        return Err("PDN reader returned an invalid pixel payload".to_owned());
    }
    let mut layers: Vec<Layer> = Vec::new();
    let mut i: usize = 0;
    let mut start: usize = 0;
    while i < count
        invariant
            count == decoded.layers@.len(),
            per == layer_bytes(decoded.width, decoded.height),
            per <= usize::MAX,
            total == per * count,
            decoded.pixels@.len() == total,
            open_dimensions is Ok,
            assemble_error(decoded, open_dimensions) == if count > 0 && 4 * decoded.width > usize::MAX {
                Some("Invalid PDN layer image"@)
            } else if count == 0 {
                Some("PDN project contains no layers"@)
            } else {
                None::<Seq<char>>
            },
            i <= count,
            i > 0 ==> 4 * decoded.width <= usize::MAX,
            start == i * per,
            layers@.len() == i,
            forall|k: int|
                0 <= k < i ==> layer_matches(
                    decoded.layers@[k],
                    layer_slice(decoded, k),
                    #[trigger] layers@[k],
                ),
        decreases count - i,
    {
        proof {
            assert((i + 1) * per <= count * per) by (nonlinear_arith)
                requires
                    i < count,
                    0 <= per,
            ;
            assert((i + 1) * per == i * per + per) by (nonlinear_arith);
        }
        let end: usize = start + per;
        let chunk = vstd::slice::slice_to_vec(
            vstd::slice::slice_subrange(decoded.pixels.as_slice(), start, end),
        );
        assert(4 * decoded.width * decoded.height == per) by (nonlinear_arith)
            requires
                per == decoded.width * decoded.height * 4,
        ;
        let pixels = match rgba_image_from_raw(decoded.width, decoded.height, chunk) {
            Some(buf) => buf,
            None => {
                return Err("Invalid PDN layer image".to_owned());
            },
        };
        let meta = &decoded.layers[i];
        let layer = Layer {
            name: meta.name.clone(),
            visible: meta.visible,
            opacity: meta.opacity,
            blend_mode: blend_mode(meta.blend_mode.as_str()),
            pixels,
        };
        layers.push(layer);
        i = i + 1;
        start = end;
    }
    if layers.len() == 0 {
        return Err("PDN project contains no layers".to_owned());
    }
    let active_layer_index: usize = layers.len() - 1;
    Ok(CanvasState { width: decoded.width, height: decoded.height, layers, active_layer_index })
}

/// The pixel bytes of `layers` laid end to end, bottom layer first.
pub open spec fn stacked_pixels(layers: Seq<Layer>) -> Seq<u8>
    decreases layers.len(),
{
    if layers.len() == 0 {
        Seq::empty()
    } else {
        stacked_pixels(layers.drop_last()) + layers.last().pixels@
    }
}

/// The first `k` layers of an imported canvas hold, end to end, the first
/// `k` layer blocks of the payload.
proof fn lemma_stacked_prefix(
    d: DecodedResponse,
    open_dimensions: Result<(), String>,
    c: CanvasState,
    k: int,
)
    requires
        assemble_error(d, open_dimensions) is None,
        canvas_from(d, c),
        0 <= k <= c.layers@.len(),
    ensures
        stacked_pixels(c.layers@.take(k)) == d.pixels@.subrange(
            0,
            k * layer_bytes(d.width, d.height),
        ),
    decreases k,
{
    let per: int = layer_bytes(d.width, d.height);
    let count: nat = c.layers@.len();
    assert(0 <= per) by (nonlinear_arith)
        requires
            per == d.width * d.height * 4,
    ;
    assert(k * per <= count * per) by (nonlinear_arith)
        requires
            k <= count,
            0 <= per,
    ;
    if k == 0 {
        assert(c.layers@.take(0) =~= Seq::<Layer>::empty());
        assert(d.pixels@.subrange(0, 0) =~= Seq::<u8>::empty());
        assert(k * per == 0) by (nonlinear_arith)
            requires
                k == 0,
        ;
    } else {
        lemma_stacked_prefix(d, open_dimensions, c, k - 1);
        assert((k - 1) * per + per == k * per) by (nonlinear_arith);
        assert(0 <= (k - 1) * per) by (nonlinear_arith)
            requires
                1 <= k,
                0 <= per,
        ;
        assert(c.layers@.take(k).drop_last() =~= c.layers@.take(k - 1));
        assert(layer_matches(d.layers@[k - 1], layer_slice(d, k - 1), c.layers@[k - 1]));
        assert(((k - 1) + 1) * per == k * per);
        assert(c.layers@.take(k).last() == c.layers@[k - 1]);
        assert(c.layers@[k - 1].pixels@ == d.pixels@.subrange((k - 1) * per, k * per));
        assert(stacked_pixels(c.layers@.take(k)) == stacked_pixels(c.layers@.take(k - 1))
            + c.layers@[k - 1].pixels@);
        assert(d.pixels@.subrange(0, k * per) =~= d.pixels@.subrange(0, (k - 1) * per)
            + d.pixels@.subrange((k - 1) * per, k * per));
    }
}

/// Law: importing loses, duplicates and reorders no pixel byte: the layers
/// of an imported canvas, bottom first, hold exactly the reader's payload.
pub proof fn lemma_layers_reassemble_payload(
    d: DecodedResponse,
    open_dimensions: Result<(), String>,
    c: CanvasState,
)
    requires
        assemble_error(d, open_dimensions) is None,
        canvas_from(d, c),
    ensures
        stacked_pixels(c.layers@) == d.pixels@,
{
    let per: int = layer_bytes(d.width, d.height);
    let count: int = c.layers@.len() as int;
    lemma_stacked_prefix(d, open_dimensions, c, count);
    assert(c.layers@.take(count) =~= c.layers@);
    assert(d.pixels@.subrange(0, count * per) =~= d.pixels@) by {
        assert(count * per == per * count) by (nonlinear_arith);
    }
}

/// Law: an imported canvas has between one and [`MAX_LAYERS`] layers, each
/// exactly `width * height * 4` bytes, and its active layer is the top one.
pub proof fn lemma_imported_canvas_shape(
    d: DecodedResponse,
    open_dimensions: Result<(), String>,
    c: CanvasState,
)
    requires
        assemble_error(d, open_dimensions) is None,
        canvas_from(d, c),
    ensures
        1 <= c.layers@.len() <= MAX_LAYERS,
        c.active_layer_index == c.layers@.len() - 1,
        forall|i: int|
            0 <= i < c.layers@.len() ==> (#[trigger] c.layers@[i]).pixels@.len() == layer_bytes(
                c.width,
                c.height,
            ),
{
    let per: int = layer_bytes(d.width, d.height);
    let count: nat = c.layers@.len();
    assert forall|i: int| 0 <= i < count implies (#[trigger] c.layers@[i]).pixels@.len()
        == layer_bytes(c.width, c.height) by {
        assert(layer_matches(d.layers@[i], layer_slice(d, i), c.layers@[i]));
        assert((i + 1) * per <= count * per) by (nonlinear_arith)
            requires
                i < count,
                0 <= per,
        ;
        assert(0 <= i * per && (i + 1) * per == i * per + per) by (nonlinear_arith)
            requires
                0 <= i,
                0 <= per,
        ;
        assert(count * per == per * count) by (nonlinear_arith);
    }
}

/// Law: an imported canvas keeps each reported layer's name, visibility,
/// opacity and blend mode, in the reported order; a hidden Paint.NET layer
/// stays hidden.
pub proof fn lemma_imported_layers_keep_metadata(
    d: DecodedResponse,
    open_dimensions: Result<(), String>,
    c: CanvasState,
)
    requires
        assemble_error(d, open_dimensions) is None,
        canvas_from(d, c),
    ensures
        c.layers@.len() == d.layers@.len(),
        forall|i: int|
            0 <= i < c.layers@.len() ==> {
                &&& (#[trigger] c.layers@[i]).visible == d.layers@[i].visible
                &&& c.layers@[i].name@ == d.layers@[i].name@
                &&& c.layers@[i].opacity == d.layers@[i].opacity
                &&& c.layers@[i].blend_mode == blend_mode_named(d.layers@[i].blend_mode@)
            },
{
    assert forall|i: int| 0 <= i < c.layers@.len() implies {
        &&& (#[trigger] c.layers@[i]).visible == d.layers@[i].visible
        &&& c.layers@[i].name@ == d.layers@[i].name@
        &&& c.layers@[i].opacity == d.layers@[i].opacity
        &&& c.layers@[i].blend_mode == blend_mode_named(d.layers@[i].blend_mode@)
    } by {
        assert(layer_matches(d.layers@[i], layer_slice(d, i), c.layers@[i]));
    }
}

} // verus!
