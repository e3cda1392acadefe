use drawing_gl::texture_font::TextureFont;

#[test]
fn renderers_are_made_once_per_size() {
    let mut font: TextureFont<(u8, usize)> = TextureFont::create(vec![1, 2, 3]).unwrap();
    assert!(!font.has_font_renderer(12));
    let mut made = 0;
    {
        let r = font
            .get_or_create_font_renderer(12, |bytes: &Vec<u8>, size: u8| {
                made += 1;
                Ok((size, bytes.len()))
            })
            .unwrap();
        assert_eq!(*r, (12, 3));
        r.1 = 99;
    }
    assert!(font.has_font_renderer(12));
    let r = font
        .get_or_create_font_renderer(12, |_bytes: &Vec<u8>, _size: u8| {
            made += 1;
            Ok((0, 0))
        })
        .unwrap();
    assert_eq!(*r, (12, 99));
    assert_eq!(made, 1);
}

#[test]
fn a_failed_renderer_is_not_kept() {
    let mut font: TextureFont<u32> = TextureFont::create(Vec::new()).unwrap();
    let r = font.get_or_create_font_renderer(8, |_b: &Vec<u8>, _s: u8| Err("no glyphs"));
    assert_eq!(r.err(), Some("no glyphs"));
    assert!(!font.has_font_renderer(8));
    let r = font.get_or_create_font_renderer(8, |_b: &Vec<u8>, s: u8| Ok(s as u32 * 2)).unwrap();
    assert_eq!(*r, 16);
}
