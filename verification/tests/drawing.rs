use terrain::gl_helper::draw_text::{glyph_first_vertex, layout_text, DrawText, Glyph};
use terrain::gl_helper::model::{mesh_vertices, Model, SubModel};
use terrain::gl_helper::texture::{
    create_texture, create_texture_jpg, create_texture_png, ends_with, texture_for_extension, texture_png_or_jpg,
    PixelFormat, TextureSettings, Wrap,
};

#[test]
fn glyphs_of_each_font_line() {
    assert_eq!(glyph_first_vertex('!'), Some(0));
    assert_eq!(glyph_first_vertex('0'), Some(90));
    assert_eq!(glyph_first_vertex('-'), Some(66));
    assert_eq!(glyph_first_vertex('A'), Some(186));
    assert_eq!(glyph_first_vertex('_'), Some(366));
    assert_eq!(glyph_first_vertex('a'), Some(378));
    assert_eq!(glyph_first_vertex('~'), Some(552));
    assert_eq!(glyph_first_vertex(' '), None);
    assert_eq!(glyph_first_vertex('\n'), None);
}

#[test]
fn text_is_laid_out_in_columns_and_lines() {
    let g = layout_text("Hi x\nab");
    assert_eq!(
        g,
        vec![
            Glyph { column: 0, line: 0, first_vertex: 186 + 7 * 6 },
            Glyph { column: 1, line: 0, first_vertex: 372 + 9 * 6 },
            Glyph { column: 3, line: 0, first_vertex: 372 + 24 * 6 },
            Glyph { column: 0, line: 1, first_vertex: 372 + 6 },
            Glyph { column: 1, line: 1, first_vertex: 372 + 2 * 6 },
        ]
    );
    assert!(layout_text("").is_empty());
}

#[test]
fn draw_text_record_holds_its_handles() {
    let d = DrawText { shader: 1, vao: 2, texture: 3 };
    assert_eq!((d.shader, d.vao, d.texture), (1, 2, 3));
}

#[test]
fn suffixes() {
    assert!(ends_with("resources/sky.png", "png"));
    assert!(ends_with("png", "png"));
    assert!(!ends_with("ng", "png"));
    assert!(!ends_with("photo.jpg", ".png"));
    assert!(ends_with("anything", ""));
}

#[test]
fn texture_settings_by_name() {
    let png = TextureSettings { format: PixelFormat::Rgba, wrap: Wrap::Repeat };
    let jpg = TextureSettings { format: PixelFormat::Rgb, wrap: Wrap::ClampToBorder };
    assert_eq!(create_texture_png(), png);
    assert_eq!(create_texture_jpg(), jpg);
    assert_eq!(create_texture("resources/prize.png"), png);
    assert_eq!(create_texture("resources/grass.jpg"), jpg);
    assert_eq!(create_texture("picturepng"), png);
    assert_eq!(texture_for_extension("a.png"), Some(png));
    assert_eq!(texture_for_extension("a.jpg"), Some(jpg));
    assert_eq!(texture_for_extension(""), None);
    assert_eq!(texture_png_or_jpg("sky.png"), png);
    assert_eq!(texture_png_or_jpg("sky.bmp"), jpg);
}

#[test]
fn mesh_vertices_pair_positions_and_texture_coordinates() {
    let p = vec![1, 2, 3, 4, 5, 6, 7];
    let t = vec![10, 11, 12, 13];
    let v = mesh_vertices(&p, &t);
    assert_eq!(v, vec![((1, 2, 3), (10, 11)), ((4, 5, 6), (12, 13))]);
    assert!(mesh_vertices::<f32>(&vec![], &vec![]).is_empty());
}

#[test]
fn model_records() {
    let s = SubModel { texture: 1, indices_len: 36, vao: 2 };
    let m = Model { sub_models: vec![s, s] };
    assert_eq!(m.sub_models.len(), 2);
    assert_eq!(m.sub_models[1].indices_len, 36);
}

#[test]
fn start_time_is_in_the_past() {
    let start = terrain::get_start_time();
    assert!(start.elapsed().as_secs() < 60);
}
