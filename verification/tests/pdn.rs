use paintfe::pdn::{
    accept_header, assemble_canvas, blend_mode, decode_header_length, BlendMode, DecodedResponse,
    PdnLayer, PdnResponse, MAX_HEADER, MAX_LAYERS,
};

#[test]
fn paint_net_blend_modes_map_to_paintfe() {
    assert_eq!(blend_mode("Multiply"), BlendMode::Multiply);
    assert_eq!(blend_mode("Additive"), BlendMode::Additive);
    assert_eq!(blend_mode("ColorDodge"), BlendMode::ColorDodge);
    assert_eq!(blend_mode("future-mode"), BlendMode::Normal);
}

#[test]
fn every_paint_net_blend_mode_name_is_recognised() {
    let names = [
        ("Normal", BlendMode::Normal),
        ("Multiply", BlendMode::Multiply),
        ("Additive", BlendMode::Additive),
        ("ColorBurn", BlendMode::ColorBurn),
        ("ColorDodge", BlendMode::ColorDodge),
        ("Reflect", BlendMode::Reflect),
        ("Glow", BlendMode::Glow),
        ("Overlay", BlendMode::Overlay),
        ("Difference", BlendMode::Difference),
        ("Negation", BlendMode::Negation),
        ("Lighten", BlendMode::Lighten),
        ("Darken", BlendMode::Darken),
        ("Screen", BlendMode::Screen),
        ("Xor", BlendMode::Xor),
    ];
    for (name, mode) in names {
        assert_eq!(blend_mode(name), mode);
    }
    assert_eq!(blend_mode("multiply"), BlendMode::Normal);
    assert_eq!(blend_mode(""), BlendMode::Normal);
    assert_eq!(blend_mode("Xor "), BlendMode::Normal);
}

#[test]
fn header_length_is_little_endian() {
    assert_eq!(decode_header_length([0x10, 0x02, 0, 0]), Ok(0x0210));
    assert_eq!(decode_header_length([1, 0, 0, 0]), Ok(1));
    assert_eq!(decode_header_length([0, 0, 0, 1]), Ok(MAX_HEADER));
}

#[test]
fn header_length_out_of_range_is_rejected() {
    let message = "PDN reader returned an invalid header".to_string();
    assert_eq!(decode_header_length([0, 0, 0, 0]), Err(message.clone()));
    assert_eq!(decode_header_length([1, 0, 0, 1]), Err(message.clone()));
    assert_eq!(decode_header_length([0xff, 0xff, 0xff, 0xff]), Err(message));
}

fn layer(name: &str, visible: bool, opacity: u8, mode: &str) -> PdnLayer {
    PdnLayer {
        name: name.to_string(),
        visible,
        opacity,
        blend_mode: mode.to_string(),
    }
}

fn response(ok: bool, error: Option<&str>) -> PdnResponse {
    PdnResponse {
        ok,
        error: error.map(|e| e.to_string()),
        width: 3,
        height: 2,
        layers: vec![layer("Background", true, 255, "Normal")],
        pixel_length: 24,
    }
}

#[test]
fn successful_header_is_accepted() {
    let header = accept_header(response(true, Some("ignored"))).expect("accepted");
    assert_eq!(header.width, 3);
    assert_eq!(header.height, 2);
    assert_eq!(header.pixel_length, 24);
    assert_eq!(header.layers.len(), 1);
    assert_eq!(header.layers[0].name, "Background");
}

#[test]
fn failed_header_reports_the_readers_error() {
    match accept_header(response(false, Some("file is encrypted"))) {
        Ok(_) => panic!("failure accepted"),
        Err(e) => assert_eq!(e, "file is encrypted"),
    }
    match accept_header(response(false, None)) {
        Ok(_) => panic!("failure accepted"),
        Err(e) => assert_eq!(e, "PDN import failed"),
    }
}

fn decoded(width: u32, height: u32, layers: Vec<PdnLayer>, pixels: Vec<u8>) -> DecodedResponse {
    DecodedResponse {
        width,
        height,
        layers,
        pixels,
    }
}

fn assemble_err(d: DecodedResponse) -> String {
    match assemble_canvas(d, Ok(())) {
        Ok(_) => panic!("reply accepted"),
        Err(e) => e,
    }
}

#[test]
fn layers_take_consecutive_blocks_of_the_payload() {
    let pixels: Vec<u8> = (0..16).collect();
    let d = decoded(
        2,
        1,
        vec![
            layer("Background", true, 255, "Normal"),
            layer("Layer 2", false, 161, "Additive"),
        ],
        pixels.clone(),
    );
    let canvas = assemble_canvas(d, Ok(())).expect("assembled");
    assert_eq!(canvas.width, 2);
    assert_eq!(canvas.height, 1);
    assert_eq!(canvas.layers.len(), 2);
    assert_eq!(canvas.active_layer_index, 1);
    assert_eq!(canvas.layers[0].pixels, pixels[0..8].to_vec());
    assert_eq!(canvas.layers[1].pixels, pixels[8..16].to_vec());
    let stacked: Vec<u8> = canvas
        .layers
        .iter()
        .flat_map(|l| l.pixels.iter().copied())
        .collect();
    assert_eq!(stacked, pixels);
}

#[test]
fn imported_layers_keep_names_visibility_opacity_and_blend_mode() {
    let d = decoded(
        800,
        600,
        vec![
            layer("Background", true, 255, "Normal"),
            layer("Layer 2", true, 161, "Additive"),
        ],
        vec![7; 800 * 600 * 4 * 2],
    );
    let canvas = assemble_canvas(d, Ok(())).expect("assembled");
    assert_eq!(canvas.width, 800);
    assert_eq!(canvas.height, 600);
    assert_eq!(canvas.layers.len(), 2);
    assert_eq!(canvas.layers[0].name, "Background");
    assert!(canvas.layers[0].visible);
    assert_eq!(canvas.layers[0].opacity, 255);
    assert_eq!(canvas.layers[0].blend_mode, BlendMode::Normal);
    assert_eq!(canvas.layers[1].name, "Layer 2");
    assert!(canvas.layers[1].visible);
    assert_eq!(canvas.layers[1].opacity, 161);
    assert_eq!(canvas.layers[1].blend_mode, BlendMode::Additive);
    assert_eq!(canvas.layers[1].pixels.len(), 800 * 600 * 4);
    assert_eq!(canvas.active_layer_index, 1);
}

#[test]
fn reply_without_layers_is_rejected() {
    assert_eq!(
        assemble_err(decoded(4, 4, vec![], vec![])),
        "PDN project contains no layers"
    );
}

#[test]
fn reply_with_too_many_layers_is_rejected() {
    let layers: Vec<PdnLayer> = (0..MAX_LAYERS + 1)
        .map(|i| layer(&format!("L{i}"), true, 255, "Normal"))
        .collect();
    assert_eq!(
        assemble_err(decoded(1, 1, layers, vec![0; (MAX_LAYERS + 1) * 4])),
        "PDN project contains more than 256 layers"
    );
}

#[test]
fn exactly_the_layer_limit_is_accepted() {
    let layers: Vec<PdnLayer> = (0..MAX_LAYERS)
        .map(|i| layer(&format!("L{i}"), true, 255, "Normal"))
        .collect();
    let canvas = assemble_canvas(decoded(1, 1, layers, vec![0; MAX_LAYERS * 4]), Ok(())).expect("assembled");
    assert_eq!(canvas.layers.len(), MAX_LAYERS);
    assert_eq!(canvas.active_layer_index, MAX_LAYERS - 1);
}

#[test]
fn payload_of_the_wrong_size_is_rejected() {
    let message = "PDN reader returned an invalid pixel payload";
    let one = || vec![layer("Background", true, 255, "Normal")];
    assert_eq!(assemble_err(decoded(2, 2, one(), vec![0; 15])), message);
    assert_eq!(assemble_err(decoded(2, 2, one(), vec![0; 17])), message);
    assert_eq!(assemble_err(decoded(2, 2, vec![], vec![0; 1])), message);
}

#[test]
fn oversized_dimensions_are_rejected() {
    assert_eq!(
        assemble_err(decoded(u32::MAX, u32::MAX, vec![], vec![])),
        "PDN dimensions overflow"
    );
}

#[test]
fn total_payload_size_overflow_is_rejected() {
    // One layer block fits in usize, two do not.
    let (width, height) = if usize::BITS == 64 {
        (1u32 << 31, (1u32 << 31) - 1)
    } else {
        (1u32 << 14, (1u32 << 16) - 1)
    };
    let layers: Vec<PdnLayer> = (0..2).map(|_| layer("L", true, 255, "Normal")).collect();
    assert_eq!(
        assemble_err(decoded(width, height, layers, vec![])),
        "PDN layer data size overflow"
    );
}

#[test]
fn zero_height_gives_empty_layers() {
    let layers = vec![layer("Background", true, 255, "Normal")];
    let canvas = assemble_canvas(decoded(1 << 20, 0, layers, vec![]), Ok(())).expect("assembled");
    assert_eq!(canvas.layers.len(), 1);
    assert!(canvas.layers[0].pixels.is_empty());
    assert_eq!(canvas.active_layer_index, 0);
}

#[test]
fn refused_dimensions_are_reported_after_the_overflow_check() {
    let refused = || Err("Image dimensions are too large".to_string());
    let one = vec![layer("Background", true, 255, "Normal")];
    match assemble_canvas(decoded(2, 2, one, vec![0; 16]), refused()) {
        Ok(_) => panic!("refused dimensions accepted"),
        Err(e) => assert_eq!(e, "Image dimensions are too large"),
    }
    match assemble_canvas(decoded(u32::MAX, u32::MAX, vec![], vec![]), refused()) {
        Ok(_) => panic!("overflow accepted"),
        Err(e) => assert_eq!(e, "PDN dimensions overflow"),
    }
    let many: Vec<PdnLayer> = (0..MAX_LAYERS + 1)
        .map(|_| layer("L", true, 255, "Normal"))
        .collect();
    match assemble_canvas(decoded(1, 1, many, vec![]), refused()) {
        Ok(_) => panic!("refused dimensions accepted"),
        Err(e) => assert_eq!(e, "Image dimensions are too large"),
    }
}
