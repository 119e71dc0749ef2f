use cslview::image::{to_png_bytes, PngError};
use cslview::model::RgbaColor;
use cslview::raster::{blur_rgba, box_blur_horizontal, box_blur_vertical};
use cslview::terrain::{average_color, forest_cells, grid_side, grid_triangles, terrain_tokens};
use resvg::tiny_skia::Pixmap;

/// A small deterministic byte generator for test rasters.
fn bytes(len: usize, seed: u32) -> Vec<u8> {
    let mut state = seed.wrapping_mul(2654435761).wrapping_add(12345);
    (0..len)
        .map(|_| {
            state ^= state << 13;
            state ^= state >> 17;
            state ^= state << 5;
            (state >> 7) as u8
        })
        .collect()
}

fn window_mean(values: &[u32], kernel: u32) -> u8 {
    (values.iter().sum::<u32>() / kernel) as u8
}

/// The horizontal pass written out plainly, pixel by pixel.
fn expected_horizontal(src: &[u8], dst: &mut [u8], w: usize, h: usize, r: usize) {
    let kernel = (2 * r + 1) as u32;
    for y in 0..h {
        for x in 0..w {
            let lo = x.saturating_sub(r);
            let hi = (x + r).min(w - 1);
            for c in 0..4 {
                let values: Vec<u32> = (lo..=hi).map(|o| src[(y * w + o) * 4 + c] as u32).collect();
                dst[(y * w + x) * 4 + c] = window_mean(&values, kernel);
            }
        }
    }
}

/// The vertical pass written out plainly, pixel by pixel.
fn expected_vertical(src: &[u8], dst: &mut [u8], w: usize, h: usize, r: usize) {
    let kernel = (2 * r + 1) as u32;
    for y in 0..h {
        for x in 0..w {
            let lo = y.saturating_sub(r);
            let hi = (y + r).min(h - 1);
            for c in 0..4 {
                let values: Vec<u32> = (lo..=hi).map(|o| src[(o * w + x) * 4 + c] as u32).collect();
                dst[(y * w + x) * 4 + c] = window_mean(&values, kernel);
            }
        }
    }
}

#[test]
fn horizontal_pass_averages_along_rows() {
    let (w, h, r) = (5usize, 3usize, 1usize);
    let src = bytes(w * h * 4, 1);
    let mut got = vec![7u8; w * h * 4 + 3];
    box_blur_horizontal(&src, &mut got, w, h, r);
    let mut want = vec![7u8; w * h * 4 + 3];
    expected_horizontal(&src, &mut want, w, h, r);
    assert_eq!(got, want);
    assert_eq!(&got[w * h * 4..], &[7, 7, 7]);
}

#[test]
fn vertical_pass_averages_along_columns() {
    let (w, h, r) = (4usize, 6usize, 2usize);
    let src = bytes(w * h * 4, 2);
    let mut got = vec![0u8; w * h * 4];
    box_blur_vertical(&src, &mut got, w, h, r);
    let mut want = vec![0u8; w * h * 4];
    expected_vertical(&src, &mut want, w, h, r);
    assert_eq!(got, want);
}

#[test]
fn edge_windows_keep_the_full_divisor() {
    // One row of two pixels, radius one: each window holds both pixels but
    // is divided by three.
    let src = vec![90u8, 30, 3, 255, 30, 60, 0, 255];
    let mut dst = vec![0u8; 8];
    box_blur_horizontal(&src, &mut dst, 2, 1, 1);
    assert_eq!(dst, vec![40, 30, 1, 170, 40, 30, 1, 170]);
}

#[test]
fn blur_runs_the_passes_in_turn() {
    for (w, h, r, passes, seed) in [(6usize, 4usize, 1usize, 2usize, 3u32), (3, 7, 2, 1, 4), (1, 1, 3, 3, 5), (8, 2, 4, 2, 6)] {
        let original = bytes(w * h * 4, seed);
        let mut got = original.clone();
        blur_rgba(&mut got, w, h, r, passes);
        let mut source = original.clone();
        let mut target = vec![0u8; original.len()];
        for _ in 0..passes {
            expected_horizontal(&source, &mut target, w, h, r);
            expected_vertical(&target, &mut source, w, h, r);
        }
        assert_eq!(got, source);
    }
}

#[test]
fn blur_without_work_leaves_the_raster() {
    let original = bytes(16, 9);
    for (w, h, r, passes) in [(0usize, 2usize, 1usize, 1usize), (2, 0, 1, 1), (2, 2, 0, 1), (2, 2, 1, 0)] {
        let mut pixels = original.clone();
        blur_rgba(&mut pixels, w, h, r, passes);
        assert_eq!(pixels, original);
    }
}

#[test]
fn blur_of_a_flat_colour_darkens_the_border_only() {
    let mut pixels = vec![30u8; 3 * 3 * 4];
    blur_rgba(&mut pixels, 3, 3, 1, 1);
    // Centre pixel: a full 3x3 window of 30 gives 30.
    assert_eq!(&pixels[16..20], &[30, 30, 30, 30]);
    // Corner pixel: 2x2 of the window is inside; (60 / 3) then (40 / 3).
    assert_eq!(&pixels[0..4], &[13, 13, 13, 13]);
}

#[test]
fn terrain_tokens_split_on_all_separators() {
    assert_eq!(terrain_tokens("1,2:3\n4\r5\t6 7"), vec!["1", "2", "3", "4", "5", "6", "7"]);
    assert_eq!(terrain_tokens(",, 10::20 ,"), vec!["10", "20"]);
    assert!(terrain_tokens("").is_empty());
    assert!(terrain_tokens(" ,:\n").is_empty());
    let packed = "12.5:3, 7;8\n\n-1e2 x";
    let plain: Vec<&str> = packed
        .split(|ch: char| matches!(ch, ',' | ':' | '\n' | '\r' | '\t' | ' '))
        .filter(|token| !token.is_empty())
        .collect();
    assert_eq!(terrain_tokens(packed), plain);
}

#[test]
fn forest_cells_are_trimmed_and_keep_empties() {
    assert_eq!(forest_cells(" 1, 2 ,3"), vec!["1", "2", "3"]);
    assert_eq!(forest_cells(""), vec![""]);
    assert_eq!(forest_cells("a,,b,"), vec!["a", "", "b", ""]);
    let row = "0.5,\t0.25 , x";
    let plain: Vec<&str> = row.split(',').map(|cell| cell.trim()).collect();
    assert_eq!(forest_cells(row), plain);
}

#[test]
fn grid_side_is_the_rounded_square_root() {
    assert_eq!(grid_side(0), None);
    assert_eq!(grid_side(1), Some(1));
    assert_eq!(grid_side(2), Some(1));
    assert_eq!(grid_side(3), None);
    assert_eq!(grid_side(4), Some(2));
    assert_eq!(grid_side(6), Some(2));
    assert_eq!(grid_side(7), None);
    assert_eq!(grid_side(65536), Some(256));
    for n in 0usize..20000 {
        let side = (n as f64).sqrt().round() as usize;
        let want = if side == 0 || side.saturating_mul(side) > n { None } else { Some(side) };
        assert_eq!(grid_side(n), want, "pair count {}", n);
    }
}

#[test]
fn average_color_truncates_each_channel() {
    let colors = [
        RgbaColor::rgba(10, 0, 255, 255),
        RgbaColor::rgba(11, 1, 255, 255),
        RgbaColor::rgba(12, 2, 255, 0),
        RgbaColor::rgba(14, 3, 254, 0),
    ];
    assert_eq!(average_color(colors), RgbaColor::rgba(11, 1, 254, 127));
    let same = [RgbaColor::rgb(5, 6, 7); 4];
    assert_eq!(average_color(same), RgbaColor::rgb(5, 6, 7));
}

#[test]
fn grid_triangles_cover_each_quad_twice() {
    let triangles = grid_triangles(2, 2);
    assert_eq!(triangles.len(), 8);
    assert_eq!(triangles[0], (0, 1, 4));
    assert_eq!(triangles[1], (0, 4, 3));
    assert_eq!(triangles[2], (1, 2, 5));
    assert_eq!(triangles[3], (1, 5, 4));
    assert_eq!(triangles[6], (4, 5, 8));
    assert_eq!(triangles[7], (4, 8, 7));
    assert!(grid_triangles(0, 5).is_empty());
    assert!(grid_triangles(3, 0).is_empty());
}

#[test]
fn png_bytes_hold_the_raster() {
    let pixels = vec![10u8, 20, 30, 255, 200, 100, 50, 0, 1, 2, 3, 255, 4, 5, 6, 255];
    let png = to_png_bytes(2, 2, &pixels).expect("a 2x2 raster encodes");
    assert_eq!(&png[..8], &[0x89, b'P', b'N', b'G', 0x0d, 0x0a, 0x1a, 0x0a]);
    let decoded = Pixmap::decode_png(&png).expect("the PNG decodes");
    assert_eq!((decoded.width(), decoded.height()), (2, 2));
    // Opaque pixels come back as they were; a fully transparent one is zero.
    assert_eq!(decoded.data(), &[10, 20, 30, 255, 0, 0, 0, 0, 1, 2, 3, 255, 4, 5, 6, 255]);
    // A short raster leaves the missing pixels transparent.
    let short = to_png_bytes(2, 1, &vec![9u8, 8, 7, 255, 1]).expect("encodes");
    let decoded = Pixmap::decode_png(&short).expect("decodes");
    assert_eq!(decoded.data(), &[9, 8, 7, 255, 0, 0, 0, 0]);
    assert_eq!(to_png_bytes(0, 4, &Vec::new()), Err(PngError::Allocation));
    assert_eq!(to_png_bytes(3, 0, &vec![1, 2, 3, 4]), Err(PngError::Allocation));
    assert_eq!(PngError::Allocation.message(), "failed to allocate raster pixmap");
}

#[test]
fn blur_keeps_bytes_past_the_raster() {
    let mut pixels = bytes(2 * 2 * 4 + 5, 11);
    let tail = pixels[16..].to_vec();
    blur_rgba(&mut pixels, 2, 2, 1, 3);
    assert_eq!(pixels.len(), 21);
    assert_eq!(&pixels[16..], &tail[..]);
}

#[test]
fn mesh_triangles_stay_in_the_grid() {
    for (columns, rows) in [(1usize, 1usize), (3, 2), (5, 7)] {
        let vertex_count = ((rows + 1) * (columns + 1)) as u32;
        for (a, b, c) in grid_triangles(columns, rows) {
            assert!(a < vertex_count && b < vertex_count && c < vertex_count);
            assert!(a != b && b != c && a != c);
        }
    }
}

#[test]
fn terrain_tokens_hold_no_separators() {
    for packed in ["1,2:3", " ,\t4\r\n5 ", "a b,,c", ""] {
        for token in terrain_tokens(packed) {
            assert!(!token.is_empty());
            assert!(!token.contains([',', ':', '\n', '\r', '\t', ' ']));
        }
    }
}

#[test]
fn png_data_uri_holds_base64() {
    assert_eq!(cslview::image::png_data_uri(b"abc"), "data:image/png;base64,YWJj");
    assert_eq!(cslview::image::png_data_uri(b""), "data:image/png;base64,");
    assert_eq!(cslview::image::png_data_uri(&[0xff, 0xfe]), "data:image/png;base64,//4=");
}

#[test]
fn passes_over_an_empty_raster_change_nothing() {
    let source = bytes(8, 21);
    for (w, h) in [(0usize, 3usize), (2, 0), (0, 0)] {
        let mut target = vec![5u8; 8];
        box_blur_horizontal(&source, &mut target, w, h, usize::MAX / 2);
        assert_eq!(target, vec![5u8; 8]);
        box_blur_vertical(&source, &mut target, w, h, 3);
        assert_eq!(target, vec![5u8; 8]);
    }
}
